use base64::Engine;
use consul_kv::error::KvError;
use consul_kv::record::Record;
use consul_kv::response::Response;

fn encode(bytes: &[u8]) -> String {
    base64::engine::general_purpose::STANDARD.encode(bytes)
}

fn record_json(key: &str, value: &str, index: u64) -> String {
    format!(
        "{{\"CreateIndex\":{index},\"Flags\":0,\"Key\":\"{key}\",\"LockIndex\":0,\"ModifyIndex\":{index},\"Value\":\"{value}\"}}"
    )
}

fn list_body(records: &[String]) -> String {
    format!("[{}]", records.join(","))
}

fn stored(key: &str, json: &str, index: u64) -> String {
    record_json(key, &encode(json.as_bytes()), index)
}

#[test]
fn list_two_then_one_record() {
    let both = list_body(&[
        stored("path/to/key0", "{\"Some\":\"Shit\"}", 5),
        stored("path/to/key1", "{\"Some\":\"Shit\"}", 6),
    ]);
    let list = Response::from_parts(200, both).into_listing().unwrap();
    assert_eq!(list.len(), 2);
    assert_eq!(list[0].key(), "path/to/key0");
    assert_eq!(list[1].key(), "path/to/key1");

    let one = list_body(&[stored("path/to/key0", "{\"Some\":\"Shit\"}", 5)]);
    let list = Response::from_parts(200, one).into_listing().unwrap();
    assert_eq!(list.len(), 1);
    assert_eq!(list[0].key(), "path/to/key0");
}

#[test]
fn fetched_value_field() {
    let body = list_body(&[stored("path/to/key0", "{\"Some\":\"Shit\"}", 5)]);
    let record = Response::from_parts(200, body).into_found().unwrap().unwrap();
    let value = record.value().unwrap();
    assert_eq!(value["Some"], "Shit");
}

#[test]
fn fetch_missing_key_is_none() {
    let found = Response::from_parts(404, String::new()).into_found();
    assert!(matches!(found, Ok(None)));
}

#[test]
fn list_missing_prefix_is_empty() {
    let list = Response::from_parts(404, String::new()).into_listing().unwrap();
    assert!(list.is_empty());
}

#[test]
fn not_found_ignores_body() {
    let body = list_body(&[stored("a", "1", 1)]);
    assert!(matches!(Response::from_parts(404, body.clone()).into_found(), Ok(None)));
    assert!(Response::from_parts(404, body).into_listing().unwrap().is_empty());
}

#[test]
fn fetch_keeps_last_record() {
    let body = list_body(&[stored("k", "1", 1), stored("k", "2", 2), stored("k", "3", 3)]);
    let record = Response::from_parts(200, body).into_found().unwrap().unwrap();
    assert_eq!(record.create_index(), 3);
    assert_eq!(record.value_as_slice().unwrap(), b"3".to_vec());
}

#[test]
fn fetch_empty_list_is_none() {
    assert!(matches!(Response::from_parts(200, "[]".to_string()).into_found(), Ok(None)));
    assert!(Response::from_parts(200, "[]".to_string()).into_listing().unwrap().is_empty());
}

#[test]
fn body_without_json_is_an_error() {
    let found = Response::from_parts(500, "Internal error".to_string()).into_found();
    assert!(matches!(found, Err(KvError::NoJson)));
    let list = Response::from_parts(200, String::new()).into_listing();
    assert!(matches!(list, Err(KvError::NoJson)));
}

#[test]
fn json_of_wrong_shape_is_an_error() {
    let list = Response::from_parts(200, "{\"Key\":\"a\"}".to_string()).into_listing();
    assert!(matches!(list, Err(KvError::Shape)));
    let list = Response::from_parts(200, "[1, 2]".to_string()).into_listing();
    assert!(matches!(list, Err(KvError::Shape)));
}

#[test]
fn record_missing_member_is_an_error() {
    let body = "[{\"CreateIndex\":1,\"Flags\":0,\"Key\":\"k\",\"LockIndex\":0,\"ModifyIndex\":1}]";
    let list = Response::from_parts(200, body.to_string()).into_listing();
    assert!(matches!(list, Err(KvError::Shape)));
}

#[test]
fn record_with_null_value_is_an_error() {
    let body = "[{\"CreateIndex\":1,\"Flags\":0,\"Key\":\"k\",\"LockIndex\":0,\"ModifyIndex\":1,\"Value\":null}]";
    let found = Response::from_parts(200, body.to_string()).into_found();
    assert!(matches!(found, Err(KvError::Shape)));
}

#[test]
fn record_with_negative_index_is_an_error() {
    let body = "[{\"CreateIndex\":-1,\"Flags\":0,\"Key\":\"k\",\"LockIndex\":0,\"ModifyIndex\":1,\"Value\":\"\"}]";
    let list = Response::from_parts(200, body.to_string()).into_listing();
    assert!(matches!(list, Err(KvError::Shape)));
}

#[test]
fn record_getters_and_extra_members() {
    let body = "[{\"CreateIndex\":7,\"Flags\":42,\"Key\":\"a/b\",\"LockIndex\":2,\"ModifyIndex\":9,\"Session\":\"x\",\"Value\":\"aGk=\"}]";
    let record = Response::from_parts(200, body.to_string()).into_found().unwrap().unwrap();
    assert_eq!(record.create_index(), 7);
    assert_eq!(record.flags(), 42);
    assert_eq!(record.key(), "a/b");
    assert_eq!(record.lock_index(), 2);
    assert_eq!(record.modify_index(), 9);
    assert_eq!(record.value_as_slice().unwrap(), b"hi".to_vec());
}

#[test]
fn base64_round_trip() {
    let all: Vec<u8> = (0..=255u8).collect();
    let samples: Vec<Vec<u8>> = vec![vec![], vec![0], b"ab".to_vec(), b"abc".to_vec(), all];
    for bytes in samples {
        let body = list_body(&[record_json("k", &encode(&bytes), 1)]);
        let record = Response::from_parts(200, body).into_found().unwrap().unwrap();
        assert_eq!(record.value_as_slice().unwrap(), bytes);
    }
}

#[test]
fn invalid_base64_is_an_error() {
    let body = list_body(&[record_json("k", "not base64!", 1)]);
    let record = Response::from_parts(200, body).into_found().unwrap().unwrap();
    assert!(matches!(record.value_as_slice(), Err(KvError::Base64)));
    assert!(matches!(record.value(), Err(KvError::Base64)));
}

#[test]
fn value_that_is_not_json_is_an_error() {
    let body = list_body(&[stored("k", "plain text", 1)]);
    let record = Response::from_parts(200, body).into_found().unwrap().unwrap();
    assert_eq!(record.value_as_slice().unwrap(), b"plain text".to_vec());
    assert!(matches!(record.value(), Err(KvError::Json)));
}

#[test]
fn value_decodes_json_document() {
    let body = list_body(&[stored("k", "[1,2,{\"a\":true}]", 1)]);
    let record = Response::from_parts(200, body).into_found().unwrap().unwrap();
    let expected: serde_json::Value = serde_json::from_str("[1,2,{\"a\":true}]").unwrap();
    assert_eq!(record.value().unwrap(), expected);
}

#[test]
fn envelope_keeps_status_and_text() {
    let rs = Response::from_parts(200, "true".to_string());
    assert!(rs.is_success());
    assert_eq!(rs.json(), Some(serde_json::Value::Bool(true)));
    let rs = Response::from_parts(404, "not json".to_string());
    assert!(!rs.is_success());
    assert_eq!(rs.status(), 404);
    let rs = Response::from_parts(500, "not json".to_string());
    assert_eq!(rs.json(), None);
    let rs = Response::from_parts(500, "not json".to_string());
    assert_eq!(rs.raw(), "not json");
}

#[test]
fn envelope_parses_list_body() {
    let rs = Response::from_parts(200, "[]".to_string());
    assert_eq!(rs.json(), Some(serde_json::Value::Array(vec![])));
}
