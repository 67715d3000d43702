//! The bodies exchanged with a key management entity, and how they are read from JSON.
use vstd::prelude::*;
use crate::json::{
    Json, field, member_count, str_field, u32_field, get_field, get_str, get_u32, find_member,
    lemma_member_push,
};

verus! {

/// Bytes in a key identifier.
pub const SIZE_UUID: usize = 16;

/// Bytes in a key.
pub const SIZE_KEY: usize = 32;

/// What a key management entity reports of its key store.
#[allow(non_snake_case)]
#[derive(Debug, Clone, PartialEq)]
pub struct StatusResponse {
    pub source_KME_ID: String,
    pub target_KME_ID: String,
    pub master_SAE_ID: String,
    pub slave_SAE_ID: String,
    pub key_size: u32,
    pub stored_key_count: u32,
    pub max_key_count: u32,
    pub max_key_per_request: u32,
    pub max_key_size: u32,
    pub min_key_size: u32,
    pub max_SAE_ID_count: u32,
}

/// A request for new keys; an absent field is left to the key management entity.
#[allow(non_snake_case)]
#[derive(Debug, Clone, PartialEq)]
pub struct KeyRequest {
    pub number: Option<u32>,
    pub size: Option<u32>,
    pub additional_slave_SAE_IDs: Option<Vec<String>>,
}

/// The keys granted by a key management entity, in the order it listed them.
#[derive(Debug, Clone, PartialEq)]
pub struct KeyResponse {
    pub keys: Vec<QKDKey>,
}

/// One key: its identifier and its material as the server encoded it.
#[allow(non_snake_case)]
#[derive(Debug, Clone, PartialEq)]
pub struct QKDKey {
    pub key_ID: String,
    pub key: String,
}

/// A request for keys already issued to the peer, by identifier.
#[allow(non_snake_case)]
#[derive(Debug, Clone, PartialEq)]
pub struct KeyIdRequest {
    pub key_IDs: Vec<KeyId>,
}

/// One key identifier.
#[allow(non_snake_case)]
#[derive(Debug, Clone, PartialEq)]
pub struct KeyId {
    pub key_ID: String,
}

/// The one error shape of every operation: a message, and the server's details if it gave any.
#[derive(Debug, PartialEq)]
pub struct Error {
    pub message: String,
    pub details: Option<Vec<Json>>,
}

/// Keys asked for when a request leaves the count open.
pub const DEFAULT_KEY_NUMBER: u32 = 1;

/// Key size in bits asked for when a request leaves the size open.
pub const DEFAULT_KEY_SIZE: u32 = 256;

/// A key and its identifier as raw bytes.
#[derive(Debug, Clone, PartialEq)]
pub struct QKDKeyPair {
    pub id: [u8; SIZE_UUID],
    pub key: [u8; SIZE_KEY],
}

/// `j` has every member of a status report, each of the right kind.
pub open spec fn status_body_ok(j: Json) -> bool {
    &&& str_field(j, "source_KME_ID"@) is Some
    &&& str_field(j, "target_KME_ID"@) is Some
    &&& str_field(j, "master_SAE_ID"@) is Some
    &&& str_field(j, "slave_SAE_ID"@) is Some
    &&& u32_field(j, "key_size"@) is Some
    &&& u32_field(j, "stored_key_count"@) is Some
    &&& u32_field(j, "max_key_count"@) is Some
    &&& u32_field(j, "max_key_per_request"@) is Some
    &&& u32_field(j, "max_key_size"@) is Some
    &&& u32_field(j, "min_key_size"@) is Some
    &&& u32_field(j, "max_SAE_ID_count"@) is Some
}

/// Each field of `s` holds the member of `j` of the same name.
pub open spec fn describes_status(s: StatusResponse, j: Json) -> bool {
    &&& str_field(j, "source_KME_ID"@) == Some(s.source_KME_ID@)
    &&& str_field(j, "target_KME_ID"@) == Some(s.target_KME_ID@)
    &&& str_field(j, "master_SAE_ID"@) == Some(s.master_SAE_ID@)
    &&& str_field(j, "slave_SAE_ID"@) == Some(s.slave_SAE_ID@)
    &&& u32_field(j, "key_size"@) == Some(s.key_size)
    &&& u32_field(j, "stored_key_count"@) == Some(s.stored_key_count)
    &&& u32_field(j, "max_key_count"@) == Some(s.max_key_count)
    &&& u32_field(j, "max_key_per_request"@) == Some(s.max_key_per_request)
    &&& u32_field(j, "max_key_size"@) == Some(s.max_key_size)
    &&& u32_field(j, "min_key_size"@) == Some(s.min_key_size)
    &&& u32_field(j, "max_SAE_ID_count"@) == Some(s.max_SAE_ID_count)
}

/// `item` is a key entry: an identifier and key material, both strings.
pub open spec fn key_item_ok(item: Json) -> bool {
    str_field(item, "key_ID"@) is Some && str_field(item, "key"@) is Some
}

/// Every one of `items` is a key entry.
pub open spec fn key_items_ok(items: Seq<Json>) -> bool {
    forall|i: int| 0 <= i < items.len() ==> key_item_ok(#[trigger] items[i])
}

/// `j` holds a list of key entries under `keys`.
pub open spec fn keys_body_ok(j: Json) -> bool {
    match field(j, "keys"@) {
        Some(Json::Array(items)) => key_items_ok(items@),
        _ => false,
    }
}

/// `k` holds the identifier and material of the entry `item`.
pub open spec fn describes_key(k: QKDKey, item: Json) -> bool {
    str_field(item, "key_ID"@) == Some(k.key_ID@) && str_field(item, "key"@) == Some(k.key@)
}

/// `r` lists, in order, the entries under `keys` in `j`.
pub open spec fn describes_keys(r: KeyResponse, j: Json) -> bool {
    match field(j, "keys"@) {
        Some(Json::Array(items)) => {
            &&& r.keys@.len() == items@.len()
            &&& forall|i: int| 0 <= i < items@.len() ==> describes_key(#[trigger] r.keys@[i], items@[i])
        },
        _ => false,
    }
}

/// `j` is an error body: a string `message`, and `details` absent, null or a list.
pub open spec fn error_body_ok(j: Json) -> bool {
    &&& str_field(j, "message"@) is Some
    &&& match field(j, "details"@) {
        None => true,
        Some(Json::Null) => true,
        Some(Json::Array(_)) => true,
        _ => false,
    }
}

/// The details of an error body: its `details` list, where it has one.
pub open spec fn details_of(j: Json) -> Option<Vec<Json>> {
    match field(j, "details"@) {
        Some(Json::Array(d)) => Some(d),
        _ => None,
    }
}

/// The JSON form of an optional count: a number, or no member at all.
pub open spec fn u32_json(n: Option<u32>) -> Option<Json> {
    match n {
        Some(v) => Some(Json::UInt(v as u64)),
        None => None,
    }
}

/// `v` is a list of the strings `names`, in order.
pub open spec fn is_string_list(v: Option<Json>, names: Seq<String>) -> bool {
    match v {
        Some(Json::Array(a)) => a@.len() == names.len() && forall|i: int|
            0 <= i < names.len() ==> #[trigger] a@[i] == Json::Str(names[i]),
        _ => false,
    }
}

/// How many members the JSON form of `req` has: one for each field that is present.
pub open spec fn present_count(req: KeyRequest) -> nat {
    (if req.number is Some { 1nat } else { 0nat }) + (if req.size is Some { 1nat } else { 0nat })
        + (if req.additional_slave_SAE_IDs is Some { 1nat } else { 0nat })
}

/// `j` is the JSON body of `req`: an object with a member for each present field and no other.
pub open spec fn describes_key_request(req: KeyRequest, j: Json) -> bool {
    &&& j is Object
    &&& member_count(j) == present_count(req)
    &&& field(j, "number"@) == u32_json(req.number)
    &&& field(j, "size"@) == u32_json(req.size)
    &&& match req.additional_slave_SAE_IDs {
        None => field(j, "additional_slave_SAE_IDs"@) is None,
        Some(ids) => is_string_list(field(j, "additional_slave_SAE_IDs"@), ids@),
    }
}

/// `j` is the JSON form of `k`: an object whose one member `key_ID` is its identifier.
pub open spec fn describes_key_id(k: KeyId, j: Json) -> bool {
    member_count(j) == 1 && field(j, "key_ID"@) == Some(Json::Str(k.key_ID))
}

/// `j` is the JSON body of `req`: an object whose one member `key_IDs` lists the identifiers.
pub open spec fn describes_key_id_request(req: KeyIdRequest, j: Json) -> bool {
    &&& member_count(j) == 1
    &&& match field(j, "key_IDs"@) {
        Some(Json::Array(a)) => a@.len() == req.key_IDs@.len() && forall|i: int|
            0 <= i < a@.len() ==> describes_key_id(req.key_IDs@[i], #[trigger] a@[i]),
        _ => false,
    }
}

fn string_list(names: &Vec<String>) -> (r: Json)
    ensures
        is_string_list(Some(r), names@),
{
    let mut a: Vec<Json> = Vec::new();
    let mut i: usize = 0;
    while i < names.len()
        invariant
            i <= names@.len(),
            a@.len() == i,
            forall|k: int| 0 <= k < i ==> #[trigger] a@[k] == Json::Str(names@[k]),
        decreases names@.len() - i,
    {
        a.push(Json::Str(names[i].clone()));
        i = i + 1;
    }
    Json::Array(a)
}

impl KeyRequest {
    /// The request made when a caller gives none: one key of the default size.
    pub fn default_request() -> (r: KeyRequest)
        ensures
            r.number == Some(DEFAULT_KEY_NUMBER),
            r.size == Some(DEFAULT_KEY_SIZE),
            r.additional_slave_SAE_IDs is None,
    {
        KeyRequest { number: Some(DEFAULT_KEY_NUMBER), size: Some(DEFAULT_KEY_SIZE), additional_slave_SAE_IDs: None }
    }

    /// The JSON body of this request; absent fields are left out.
    pub fn to_json(&self) -> (r: Json)
        ensures
            describes_key_request(*self, r),
    {
        let number_name = String::from_str("number");
        let size_name = String::from_str("size");
        let ids_name = String::from_str("additional_slave_SAE_IDs");
        proof {
            reveal_strlit("number");
            reveal_strlit("size");
            reveal_strlit("additional_slave_SAE_IDs");
            assert("number"@.len() == 6);
            assert("size"@.len() == 4);
            assert("additional_slave_SAE_IDs"@.len() == 24);
        }
        let mut members: Vec<(String, Json)> = Vec::new();
        match self.number {
            Some(n) => {
                proof {
                    lemma_member_push(members@, number_name, Json::UInt(n as u64), "number"@);
                    lemma_member_push(members@, number_name, Json::UInt(n as u64), "size"@);
                    lemma_member_push(members@, number_name, Json::UInt(n as u64), "additional_slave_SAE_IDs"@);
                }
                members.push((number_name, Json::UInt(n as u64)));
            },
            None => {},
        }
        match self.size {
            Some(n) => {
                proof {
                    lemma_member_push(members@, size_name, Json::UInt(n as u64), "number"@);
                    lemma_member_push(members@, size_name, Json::UInt(n as u64), "size"@);
                    lemma_member_push(members@, size_name, Json::UInt(n as u64), "additional_slave_SAE_IDs"@);
                }
                members.push((size_name, Json::UInt(n as u64)));
            },
            None => {},
        }
        match &self.additional_slave_SAE_IDs {
            Some(ids) => {
                let list = string_list(ids);
                proof {
                    lemma_member_push(members@, ids_name, list, "number"@);
                    lemma_member_push(members@, ids_name, list, "size"@);
                    lemma_member_push(members@, ids_name, list, "additional_slave_SAE_IDs"@);
                }
                members.push((ids_name, list));
            },
            None => {},
        }
        Json::Object(members)
    }
}

impl KeyId {
    /// The JSON form of this identifier.
    pub fn to_json(&self) -> (r: Json)
        ensures
            describes_key_id(*self, r),
    {
        let mut members: Vec<(String, Json)> = Vec::new();
        let name = String::from_str("key_ID");
        let value = Json::Str(self.key_ID.clone());
        proof {
            lemma_member_push(members@, name, value, "key_ID"@);
        }
        members.push((name, value));
        Json::Object(members)
    }
}

impl KeyIdRequest {
    /// The JSON body of this request.
    pub fn to_json(&self) -> (r: Json)
        ensures
            describes_key_id_request(*self, r),
    {
        let mut a: Vec<Json> = Vec::new();
        let mut i: usize = 0;
        while i < self.key_IDs.len()
            invariant
                i <= self.key_IDs@.len(),
                a@.len() == i,
                forall|k: int| 0 <= k < i ==> describes_key_id(self.key_IDs@[k], #[trigger] a@[k]),
            decreases self.key_IDs@.len() - i,
        {
            a.push(self.key_IDs[i].to_json());
            i = i + 1;
        }
        let mut members: Vec<(String, Json)> = Vec::new();
        let name = String::from_str("key_IDs");
        let list = Json::Array(a);
        proof {
            lemma_member_push(members@, name, list, "key_IDs"@);
        }
        members.push((name, list));
        Json::Object(members)
    }
}

impl StatusResponse {
    /// Reads a status report; `None` where a member is missing or of the wrong kind.
    pub fn from_json(j: &Json) -> (r: Option<StatusResponse>)
        ensures
            r is Some <==> status_body_ok(*j),
            r matches Some(s) ==> describes_status(s, *j),
    {
        let source_KME_ID = get_str(j, "source_KME_ID")?;
        let target_KME_ID = get_str(j, "target_KME_ID")?;
        let master_SAE_ID = get_str(j, "master_SAE_ID")?;
        let slave_SAE_ID = get_str(j, "slave_SAE_ID")?;
        let key_size = get_u32(j, "key_size")?;
        let stored_key_count = get_u32(j, "stored_key_count")?;
        let max_key_count = get_u32(j, "max_key_count")?;
        let max_key_per_request = get_u32(j, "max_key_per_request")?;
        let max_key_size = get_u32(j, "max_key_size")?;
        let min_key_size = get_u32(j, "min_key_size")?;
        let max_SAE_ID_count = get_u32(j, "max_SAE_ID_count")?;
        Some(StatusResponse {
            source_KME_ID,
            target_KME_ID,
            master_SAE_ID,
            slave_SAE_ID,
            key_size,
            stored_key_count,
            max_key_count,
            max_key_per_request,
            max_key_size,
            min_key_size,
            max_SAE_ID_count,
        })
    }
}

impl KeyResponse {
    /// Reads a list of keys; `None` where `keys` is not a list of key entries.
    pub fn from_json(j: &Json) -> (r: Option<KeyResponse>)
        ensures
            r is Some <==> keys_body_ok(*j),
            r matches Some(k) ==> describes_keys(k, *j),
    {
        let items = match get_field(j, "keys") {
            Some(Json::Array(items)) => items,
            _ => return None,
        };
        let mut keys: Vec<QKDKey> = Vec::new();
        let mut i: usize = 0;
        while i < items.len()
            invariant
                field(*j, "keys"@) == Some(Json::Array(*items)),
                i <= items@.len(),
                keys@.len() == i,
                forall|k: int| 0 <= k < i ==> key_item_ok(#[trigger] items@[k]),
                forall|k: int| 0 <= k < i ==> describes_key(#[trigger] keys@[k], items@[k]),
            decreases items@.len() - i,
        {
            let key_ID = match get_str(&items[i], "key_ID") {
                Some(s) => s,
                None => {
                    assert(!key_item_ok(items@[i as int]));
                    assert(!key_items_ok(items@));
                    return None;
                },
            };
            let key = match get_str(&items[i], "key") {
                Some(s) => s,
                None => {
                    assert(!key_item_ok(items@[i as int]));
                    assert(!key_items_ok(items@));
                    return None;
                },
            };
            keys.push(QKDKey { key_ID, key });
            i = i + 1;
        }
        Some(KeyResponse { keys })
    }
}

impl Error {
    /// An error that carries only a message.
    pub fn from_message(message: String) -> (r: Error)
        ensures
            r.message == message,
            r.details is None,
    {
        Error { message, details: None }
    }

    /// Reads an error body; `None` where it is not one.
    pub fn from_json(j: Json) -> (r: Option<Error>)
        ensures
            r is Some <==> error_body_ok(j),
            r matches Some(e) ==> str_field(j, "message"@) == Some(e.message@) && e.details == details_of(j),
    {
        let message = match get_str(&j, "message") {
            Some(s) => s,
            None => return None,
        };
        match j {
            Json::Object(mut members) => {
                let details = match find_member(&members, "details") {
                    None => None,
                    Some(i) => {
                        let (_, value) = members.remove(i);
                        match value {
                            Json::Null => None,
                            Json::Array(d) => Some(d),
                            _ => return None,
                        }
                    },
                };
                Some(Error { message, details })
            },
            _ => None,
        }
    }
}

} // verus!
