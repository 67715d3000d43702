//! The three operations of a key management entity: the requests to send, and how replies are read.
use vstd::prelude::*;
use crate::json::{Json, field, member_count, str_field, u32_field};
use crate::messages::{
    DEFAULT_KEY_NUMBER, DEFAULT_KEY_SIZE, Error, KeyIdRequest, KeyRequest, KeyResponse,
    StatusResponse, describes_key_id_request, describes_key_request, describes_keys,
    describes_status, details_of, error_body_ok, keys_body_ok, status_body_ok,
};

verus! {

/// Where keys are fetched: the key management entity's host, and the peer the keys are shared with.
#[allow(non_snake_case)]
#[derive(Debug, Clone, PartialEq)]
pub struct EndpointETSI {
    pub KME_hostname: String,
    pub slave_SAE_ID: String,
}

/// An HTTP method.
#[derive(Debug, Clone, Copy, PartialEq, Eq)]
pub enum Method {
    Get,
    Post,
}

/// An HTTP request to send: method, address, and a JSON body where there is one.
#[derive(Debug, PartialEq)]
pub struct Request {
    pub method: Method,
    pub url: String,
    pub body: Option<Json>,
}

/// What an HTTP exchange gave back.
#[derive(Debug, PartialEq)]
pub enum Reply {
    /// The exchange did not complete; the transport's description of why.
    Failed(String),
    /// The server answered with `status`; the body read as JSON, or why it could not be.
    Answered { status: u16, body: Result<Json, String> },
}

/// The address of `operation` for the peer `sae` at the host `host`.
pub open spec fn url_of(host: Seq<char>, sae: Seq<char>, operation: Seq<char>) -> Seq<char> {
    "http://"@ + host + "/api/v1/keys/"@ + sae + "/"@ + operation
}

/// The request sent when a caller of `get_key` gives none.
pub open spec fn default_key_request() -> KeyRequest {
    KeyRequest {
        number: Some(DEFAULT_KEY_NUMBER),
        size: Some(DEFAULT_KEY_SIZE),
        additional_slave_SAE_IDs: None,
    }
}

/// A status in the client error or server error range.
pub open spec fn is_error_status(status: u16) -> bool {
    400 <= status <= 599
}

/// The message of an error for a body that could not be decoded.
pub open spec fn decoding_message(description: Seq<char>) -> Seq<char> {
    "error decoding response body: "@ + description
}

/// The message of an error for a JSON body without the members expected of it.
pub open spec fn schema_message() -> Seq<char> {
    decoding_message("unexpected members"@)
}

/// `e` carries `message` and no details.
pub open spec fn is_plain_error(e: Error, message: Seq<char>) -> bool {
    e.message@ == message && e.details is None
}

/// `e` reports a body that could not be decoded.
pub open spec fn is_decoding_error(e: Error) -> bool {
    e.details is None && exists|d: Seq<char>| e.message@ == decoding_message(d)
}

/// `e` is what an error status with the JSON body `j` gives: the server's error where
/// `j` is an error body, a decoding error where it is not.
pub open spec fn error_reply_holds(j: Json, e: Error) -> bool {
    if error_body_ok(j) {
        str_field(j, "message"@) == Some(e.message@) && e.details == details_of(j)
    } else {
        is_plain_error(e, schema_message())
    }
}

/// `r` is what `reply` gives where a success body is a status report.
pub open spec fn status_reply_holds(reply: Reply, r: Result<StatusResponse, Error>) -> bool {
    match reply {
        Reply::Failed(m) => (r matches Err(e) && is_plain_error(e, m@)),
        Reply::Answered { status, body } => match body {
            Err(d) => (r matches Err(e) && is_plain_error(e, decoding_message(d@))),
            Ok(j) => if is_error_status(status) {
                (r matches Err(e) && error_reply_holds(j, e))
            } else if status_body_ok(j) {
                (r matches Ok(s) && describes_status(s, j))
            } else {
                (r matches Err(e) && is_plain_error(e, schema_message()))
            },
        },
    }
}

/// `r` is what `reply` gives where a success body is a list of keys.
pub open spec fn keys_reply_holds(reply: Reply, r: Result<KeyResponse, Error>) -> bool {
    match reply {
        Reply::Failed(m) => (r matches Err(e) && is_plain_error(e, m@)),
        Reply::Answered { status, body } => match body {
            Err(d) => (r matches Err(e) && is_plain_error(e, decoding_message(d@))),
            Ok(j) => if is_error_status(status) {
                (r matches Err(e) && error_reply_holds(j, e))
            } else if keys_body_ok(j) {
                (r matches Ok(k) && describes_keys(k, j))
            } else {
                (r matches Err(e) && is_plain_error(e, schema_message()))
            },
        },
    }
}

impl EndpointETSI {
    /// The address of `operation` on this endpoint.
    pub fn url(&self, operation: &str) -> (r: String)
        ensures
            r@ == url_of(self.KME_hostname@, self.slave_SAE_ID@, operation@),
    {
        let mut url = String::from_str("http://");
        url.append(self.KME_hostname.as_str());
        url.append("/api/v1/keys/");
        url.append(self.slave_SAE_ID.as_str());
        url.append("/");
        url.append(operation);
        url
    }

    /// The request that asks for the key store's status.
    pub fn status_request(&self) -> (r: Request)
        ensures
            r.method == Method::Get,
            r.url@ == url_of(self.KME_hostname@, self.slave_SAE_ID@, "status"@),
            r.body is None,
    {
        Request { method: Method::Get, url: self.url("status"), body: None }
    }

    /// The request that asks for new keys; without `key_request`, one key of the default size.
    pub fn get_key_request(&self, key_request: Option<&KeyRequest>) -> (r: Request)
        ensures
            r.method == Method::Post,
            r.url@ == url_of(self.KME_hostname@, self.slave_SAE_ID@, "enc_keys"@),
            r.body matches Some(b) && describes_key_request(
                match key_request {
                    Some(q) => *q,
                    None => default_key_request(),
                },
                b,
            ),
    {
        let body = match key_request {
            Some(q) => q.to_json(),
            None => KeyRequest::default_request().to_json(),
        };
        Request { method: Method::Post, url: self.url("enc_keys"), body: Some(body) }
    }

    /// The request that asks again for keys already issued, by identifier.
    pub fn get_key_with_id_request(&self, key_with_id: &KeyIdRequest) -> (r: Request)
        ensures
            r.method == Method::Post,
            r.url@ == url_of(self.KME_hostname@, self.slave_SAE_ID@, "dec_keys"@),
            r.body matches Some(b) && describes_key_id_request(*key_with_id, b),
    {
        Request { method: Method::Post, url: self.url("dec_keys"), body: Some(key_with_id.to_json()) }
    }
}

/// Whether `status` is a client error or a server error.
pub fn is_error_status_code(status: u16) -> (r: bool)
    ensures
        r == is_error_status(status),
{
    400 <= status && status <= 599
}

/// The error for a body that could not be decoded, with the reason.
pub fn decoding_error(description: &str) -> (r: Error)
    ensures
        is_plain_error(r, decoding_message(description@)),
{
    let mut message = String::from_str("error decoding response body: ");
    message.append(description);
    Error::from_message(message)
}

fn error_from_body(j: Json) -> (e: Error)
    ensures
        error_reply_holds(j, e),
{
    match Error::from_json(j) {
        Some(e) => e,
        None => decoding_error("unexpected members"),
    }
}

/// Reads the reply to a status request.
pub fn status_from_reply(reply: Reply) -> (r: Result<StatusResponse, Error>)
    ensures
        status_reply_holds(reply, r),
{
    match reply {
        Reply::Failed(m) => Err(Error::from_message(m)),
        Reply::Answered { status, body } => match body {
            Err(d) => Err(decoding_error(d.as_str())),
            Ok(j) => if is_error_status_code(status) {
                Err(error_from_body(j))
            } else {
                match StatusResponse::from_json(&j) {
                    Some(s) => Ok(s),
                    None => Err(decoding_error("unexpected members")),
                }
            },
        },
    }
}

/// Reads the reply to a request for keys, new or already issued.
pub fn keys_from_reply(reply: Reply) -> (r: Result<KeyResponse, Error>)
    ensures
        keys_reply_holds(reply, r),
{
    match reply {
        Reply::Failed(m) => Err(Error::from_message(m)),
        Reply::Answered { status, body } => match body {
            Err(d) => Err(decoding_error(d.as_str())),
            Ok(j) => if is_error_status_code(status) {
                Err(error_from_body(j))
            } else {
                match KeyResponse::from_json(&j) {
                    Some(k) => Ok(k),
                    None => Err(decoding_error("unexpected members")),
                }
            },
        },
    }
}

/// A status report answered with a success status is returned with every one of its
/// eleven fields exactly as the body gave it.
pub proof fn lemma_status_as_received(status: u16, j: Json, r: Result<StatusResponse, Error>)
    requires
        !is_error_status(status),
        status_body_ok(j),
        status_reply_holds(Reply::Answered { status, body: Ok(j) }, r),
    ensures
        r matches Ok(s) && {
            &&& str_field(j, "source_KME_ID"@) == Some(s.source_KME_ID@)
            &&& str_field(j, "target_KME_ID"@) == Some(s.target_KME_ID@)
            &&& str_field(j, "master_SAE_ID"@) == Some(s.master_SAE_ID@)
            &&& str_field(j, "slave_SAE_ID"@) == Some(s.slave_SAE_ID@)
            &&& u32_field(j, "key_size"@) == Some(s.key_size)
            &&& u32_field(j, "stored_key_count"@) == Some(s.stored_key_count)
            &&& u32_field(j, "max_key_count"@) == Some(s.max_key_count)
            &&& u32_field(j, "max_key_per_request"@) == Some(s.max_key_per_request)
            &&& u32_field(j, "max_key_size"@) == Some(s.max_key_size)
            &&& u32_field(j, "min_key_size"@) == Some(s.min_key_size)
            &&& u32_field(j, "max_SAE_ID_count"@) == Some(s.max_SAE_ID_count)
        },
{
}

/// A list of keys answered with a success status is returned whole: as many keys, each
/// with the identifier and material of the entry at the same place.
pub proof fn lemma_keys_as_received(status: u16, j: Json, r: Result<KeyResponse, Error>)
    requires
        !is_error_status(status),
        keys_body_ok(j),
        keys_reply_holds(Reply::Answered { status, body: Ok(j) }, r),
    ensures
        r matches Ok(k) && match field(j, "keys"@) {
            Some(Json::Array(items)) => {
                &&& k.keys@.len() == items@.len()
                &&& forall|i: int| 0 <= i < items@.len() ==> {
                    &&& str_field(#[trigger] items@[i], "key_ID"@) == Some(k.keys@[i].key_ID@)
                    &&& str_field(items@[i], "key"@) == Some(k.keys@[i].key@)
                }
            },
            _ => false,
        },
{
}

/// An error status whose body has a message and null details gives that message and no details.
pub proof fn lemma_error_message_passed_through(
    status: u16,
    j: Json,
    message: Seq<char>,
    r: Result<KeyResponse, Error>,
)
    requires
        is_error_status(status),
        str_field(j, "message"@) == Some(message),
        field(j, "details"@) == Some(Json::Null),
        keys_reply_holds(Reply::Answered { status, body: Ok(j) }, r),
    ensures
        r matches Err(e) && e.message@ == message && e.details is None,
{
}

/// A success status whose body is not JSON, or not a status report, gives a decoding error.
pub proof fn lemma_bad_status_body_is_decoding_error(
    status: u16,
    body: Result<Json, String>,
    r: Result<StatusResponse, Error>,
)
    requires
        !is_error_status(status),
        body matches Ok(j) ==> !status_body_ok(j),
        status_reply_holds(Reply::Answered { status, body }, r),
    ensures
        r matches Err(e) && is_decoding_error(e),
{
    match body {
        Ok(j) => {
            assert(r->Err_0.message@ == decoding_message("unexpected members"@));
        },
        Err(d) => {
            assert(r->Err_0.message@ == decoding_message(d@));
        },
    }
}

/// A success status whose body is not JSON, or not a list of keys, gives a decoding error.
pub proof fn lemma_bad_keys_body_is_decoding_error(
    status: u16,
    body: Result<Json, String>,
    r: Result<KeyResponse, Error>,
)
    requires
        !is_error_status(status),
        body matches Ok(j) ==> !keys_body_ok(j),
        keys_reply_holds(Reply::Answered { status, body }, r),
    ensures
        r matches Err(e) && is_decoding_error(e),
{
    match body {
        Ok(j) => {
            assert(r->Err_0.message@ == decoding_message("unexpected members"@));
        },
        Err(d) => {
            assert(r->Err_0.message@ == decoding_message(d@));
        },
    }
}

/// The body of the default key request asks for one key of 256 bits and names no other peer.
pub proof fn lemma_default_request_body(j: Json)
    requires
        describes_key_request(default_key_request(), j),
    ensures
        member_count(j) == 2,
        field(j, "number"@) == Some(Json::UInt(1)),
        field(j, "size"@) == Some(Json::UInt(256)),
        field(j, "additional_slave_SAE_IDs"@) is None,
{
}

/// The body of a request for no identifiers is an object whose one member is an empty list.
pub proof fn lemma_empty_id_request_body(req: KeyIdRequest, j: Json)
    requires
        req.key_IDs@.len() == 0,
        describes_key_id_request(req, j),
    ensures
        member_count(j) == 1,
        field(j, "key_IDs"@) matches Some(Json::Array(a)) && a@.len() == 0,
{
}

} // verus!
