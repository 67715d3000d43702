use etsi014::endpoint::{decoding_error, is_error_status_code};
use etsi014::json::{find_member, get_str, get_u32};
use etsi014::messages::{DEFAULT_KEY_NUMBER, DEFAULT_KEY_SIZE, SIZE_KEY, SIZE_UUID};
use etsi014::{
    EndpointETSI, Error, Json, KeyId, KeyIdRequest, KeyRequest, KeyResponse, Method, QKDKeyPair,
    Reply, StatusResponse, keys_from_reply, status_from_reply,
};

fn s(text: &str) -> String {
    text.to_string()
}

fn obj(members: Vec<(&str, Json)>) -> Json {
    Json::Object(members.into_iter().map(|(k, v)| (s(k), v)).collect())
}

fn text(t: &str) -> Json {
    Json::Str(s(t))
}

fn endpoint() -> EndpointETSI {
    EndpointETSI { KME_hostname: s("kme.example:8080"), slave_SAE_ID: s("sae-b") }
}

fn status_body() -> Json {
    obj(vec![
        ("source_KME_ID", text("KME-A")),
        ("target_KME_ID", text("KME-B")),
        ("master_SAE_ID", text("SAE-A")),
        ("slave_SAE_ID", text("SAE-B")),
        ("key_size", Json::UInt(256)),
        ("stored_key_count", Json::UInt(25000)),
        ("max_key_count", Json::UInt(100000)),
        ("max_key_per_request", Json::UInt(128)),
        ("max_key_size", Json::UInt(1024)),
        ("min_key_size", Json::UInt(64)),
        ("max_SAE_ID_count", Json::UInt(0)),
    ])
}

fn keys_body() -> Json {
    obj(vec![(
        "keys",
        Json::Array(vec![
            obj(vec![("key_ID", text("id-1")), ("key", text("a2V5MQ=="))]),
            obj(vec![("key", text("a2V5Mg==")), ("key_ID", text("id-2"))]),
        ]),
    )])
}

fn answered(status: u16, body: Json) -> Reply {
    Reply::Answered { status, body: Ok(body) }
}

#[test]
fn status_fields_as_received() {
    let r = status_from_reply(answered(200, status_body())).unwrap();
    assert_eq!(
        r,
        StatusResponse {
            source_KME_ID: s("KME-A"),
            target_KME_ID: s("KME-B"),
            master_SAE_ID: s("SAE-A"),
            slave_SAE_ID: s("SAE-B"),
            key_size: 256,
            stored_key_count: 25000,
            max_key_count: 100000,
            max_key_per_request: 128,
            max_key_size: 1024,
            min_key_size: 64,
            max_SAE_ID_count: 0,
        }
    );
}

#[test]
fn status_ignores_unknown_members() {
    let mut body = status_body();
    if let Json::Object(members) = &mut body {
        members.push((s("extension"), Json::Null));
    }
    assert!(status_from_reply(answered(200, body)).is_ok());
}

#[test]
fn status_missing_member_is_decoding_error() {
    let mut body = status_body();
    if let Json::Object(members) = &mut body {
        members.remove(4);
    }
    let e = status_from_reply(answered(200, body)).unwrap_err();
    assert_eq!(e.message, "error decoding response body: unexpected members");
    assert!(e.details.is_none());
}

#[test]
fn status_count_too_large_is_decoding_error() {
    let mut body = status_body();
    if let Json::Object(members) = &mut body {
        members[5].1 = Json::UInt(4_294_967_296);
    }
    let e = status_from_reply(answered(200, body)).unwrap_err();
    assert_eq!(e.message, "error decoding response body: unexpected members");
}

#[test]
fn status_largest_count_accepted() {
    let mut body = status_body();
    if let Json::Object(members) = &mut body {
        members[5].1 = Json::UInt(4_294_967_295);
    }
    let r = status_from_reply(answered(200, body)).unwrap();
    assert_eq!(r.stored_key_count, u32::MAX);
}

#[test]
fn status_body_not_json_is_decoding_error() {
    let reply = Reply::Answered { status: 200, body: Err(s("expected value at line 1 column 1")) };
    let e = status_from_reply(reply).unwrap_err();
    assert_eq!(e.message, "error decoding response body: expected value at line 1 column 1");
    assert!(e.details.is_none());
}

#[test]
fn status_error_status_reads_error_body() {
    let body = obj(vec![("message", text("unauthorized"))]);
    let e = status_from_reply(answered(401, body)).unwrap_err();
    assert_eq!(e, Error { message: s("unauthorized"), details: None });
}

#[test]
fn keys_as_received() {
    let r = keys_from_reply(answered(200, keys_body())).unwrap();
    assert_eq!(r.keys.len(), 2);
    assert_eq!(r.keys[0].key_ID, "id-1");
    assert_eq!(r.keys[0].key, "a2V5MQ==");
    assert_eq!(r.keys[1].key_ID, "id-2");
    assert_eq!(r.keys[1].key, "a2V5Mg==");
}

#[test]
fn keys_empty_list() {
    let r = keys_from_reply(answered(200, obj(vec![("keys", Json::Array(vec![]))]))).unwrap();
    assert_eq!(r, KeyResponse { keys: vec![] });
}

#[test]
fn keys_bad_entry_is_decoding_error() {
    let body = obj(vec![("keys", Json::Array(vec![obj(vec![("key_ID", text("id-1")), ("key", Json::UInt(3))])]))]);
    let e = keys_from_reply(answered(200, body)).unwrap_err();
    assert_eq!(e.message, "error decoding response body: unexpected members");
    assert!(e.details.is_none());
}

#[test]
fn keys_body_not_an_object_is_decoding_error() {
    let e = keys_from_reply(answered(200, Json::Array(vec![]))).unwrap_err();
    assert_eq!(e.message, "error decoding response body: unexpected members");
}

#[test]
fn keys_body_not_json_is_decoding_error() {
    let reply = Reply::Answered { status: 204, body: Err(s("EOF while parsing a value")) };
    let e = keys_from_reply(reply).unwrap_err();
    assert_eq!(e.message, "error decoding response body: EOF while parsing a value");
}

#[test]
fn error_message_with_null_details() {
    let body = obj(vec![("message", text("no key available")), ("details", Json::Null)]);
    let e = keys_from_reply(answered(503, body)).unwrap_err();
    assert_eq!(e.message, "no key available");
    assert!(e.details.is_none());
}

#[test]
fn error_details_passed_through() {
    let detail = obj(vec![("parameter", text("size"))]);
    let body = obj(vec![("details", Json::Array(vec![detail])), ("message", text("bad request"))]);
    let e = keys_from_reply(answered(400, body)).unwrap_err();
    assert_eq!(e.message, "bad request");
    assert_eq!(e.details, Some(vec![obj(vec![("parameter", text("size"))])]));
}

#[test]
fn error_body_without_message_is_decoding_error() {
    let body = obj(vec![("detail", text("oops"))]);
    let e = keys_from_reply(answered(500, body)).unwrap_err();
    assert_eq!(e.message, "error decoding response body: unexpected members");
    assert!(e.details.is_none());
}

#[test]
fn error_body_with_wrong_details_is_decoding_error() {
    let body = obj(vec![("message", text("x")), ("details", text("y"))]);
    let e = keys_from_reply(answered(500, body)).unwrap_err();
    assert_eq!(e.message, "error decoding response body: unexpected members");
}

#[test]
fn transport_failure_keeps_its_description() {
    let e = keys_from_reply(Reply::Failed(s("connection refused"))).unwrap_err();
    assert_eq!(e, Error { message: s("connection refused"), details: None });
    let e = status_from_reply(Reply::Failed(s("timed out"))).unwrap_err();
    assert_eq!(e.message, "timed out");
}

#[test]
fn status_codes_in_error_range() {
    assert!(!is_error_status_code(200));
    assert!(!is_error_status_code(399));
    assert!(is_error_status_code(400));
    assert!(is_error_status_code(599));
    assert!(!is_error_status_code(600));
}

#[test]
fn redirect_status_reads_success_body() {
    assert!(keys_from_reply(answered(302, keys_body())).is_ok());
}

#[test]
fn urls_of_the_three_operations() {
    let ep = endpoint();
    assert_eq!(ep.status_request().url, "http://kme.example:8080/api/v1/keys/sae-b/status");
    assert_eq!(ep.status_request().method, Method::Get);
    assert!(ep.status_request().body.is_none());
    let r = ep.get_key_request(None);
    assert_eq!(r.url, "http://kme.example:8080/api/v1/keys/sae-b/enc_keys");
    assert_eq!(r.method, Method::Post);
    let r = ep.get_key_with_id_request(&KeyIdRequest { key_IDs: vec![] });
    assert_eq!(r.url, "http://kme.example:8080/api/v1/keys/sae-b/dec_keys");
    assert_eq!(r.method, Method::Post);
    assert_eq!(ep.url("x"), "http://kme.example:8080/api/v1/keys/sae-b/x");
}

#[test]
fn default_key_request_body() {
    let r = endpoint().get_key_request(None);
    assert_eq!(r.body, Some(obj(vec![("number", Json::UInt(1)), ("size", Json::UInt(256))])));
    assert_eq!(DEFAULT_KEY_NUMBER, 1);
    assert_eq!(DEFAULT_KEY_SIZE, 256);
    let d = KeyRequest::default_request();
    assert_eq!(d, KeyRequest { number: Some(1), size: Some(256), additional_slave_SAE_IDs: None });
}

#[test]
fn empty_key_request_body() {
    let req = KeyRequest { number: None, size: None, additional_slave_SAE_IDs: None };
    assert_eq!(endpoint().get_key_request(Some(&req)).body, Some(obj(vec![])));
}

#[test]
fn full_key_request_body() {
    let req = KeyRequest {
        number: Some(3),
        size: Some(512),
        additional_slave_SAE_IDs: Some(vec![s("sae-c"), s("sae-d")]),
    };
    let expected = obj(vec![
        ("number", Json::UInt(3)),
        ("size", Json::UInt(512)),
        ("additional_slave_SAE_IDs", Json::Array(vec![text("sae-c"), text("sae-d")])),
    ]);
    assert_eq!(req.to_json(), expected);
}

#[test]
fn empty_id_request_body_and_error_surfaced() {
    let ep = endpoint();
    let r = ep.get_key_with_id_request(&KeyIdRequest { key_IDs: vec![] });
    assert_eq!(r.body, Some(obj(vec![("key_IDs", Json::Array(vec![]))])));
    let body = obj(vec![("message", text("key not found"))]);
    let e = keys_from_reply(answered(400, body)).unwrap_err();
    assert_eq!(e.message, "key not found");
}

#[test]
fn id_request_body() {
    let req = KeyIdRequest { key_IDs: vec![KeyId { key_ID: s("id-1") }, KeyId { key_ID: s("id-2") }] };
    let expected = obj(vec![(
        "key_IDs",
        Json::Array(vec![obj(vec![("key_ID", text("id-1"))]), obj(vec![("key_ID", text("id-2"))])]),
    )]);
    assert_eq!(req.to_json(), expected);
}

#[test]
fn member_lookup_takes_the_first() {
    let members = vec![(s("a"), Json::UInt(1)), (s("b"), Json::UInt(2)), (s("a"), Json::UInt(3))];
    assert_eq!(find_member(&members, "a"), Some(0));
    assert_eq!(find_member(&members, "b"), Some(1));
    assert_eq!(find_member(&members, "c"), None);
    let j = Json::Object(members);
    assert_eq!(get_u32(&j, "a"), Some(1));
    assert_eq!(get_str(&j, "a"), None);
}

#[test]
fn u32_members_from_integers() {
    let j = obj(vec![("neg", Json::Int(-1)), ("small", Json::Int(7)), ("f", Json::Float(s("1.5")))]);
    assert_eq!(get_u32(&j, "neg"), None);
    assert_eq!(get_u32(&j, "small"), Some(7));
    assert_eq!(get_u32(&j, "f"), None);
}

#[test]
fn decoding_error_message() {
    let e = decoding_error("trailing characters");
    assert_eq!(e.message, "error decoding response body: trailing characters");
    assert!(e.details.is_none());
}

#[test]
fn key_pair_sizes() {
    let p = QKDKeyPair { id: [0u8; SIZE_UUID], key: [7u8; SIZE_KEY] };
    assert_eq!(p.id.len(), 16);
    assert_eq!(p.key.len(), 32);
}
