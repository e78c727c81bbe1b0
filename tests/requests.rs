use consul_kv::error::KvError;
use consul_kv::kv::{Body, Client, Kv, KvQuery, Method};

fn pairs(list: &[(&str, &str)]) -> Vec<(String, String)> {
    list.iter().map(|(a, b)| (a.to_string(), b.to_string())).collect()
}

#[test]
fn only_recurse_is_sent() {
    let kv = Kv::new("path/").recurse(true);
    assert_eq!(kv.query().params(), pairs(&[("recurse", "true")]));
}

#[test]
fn no_option_sends_no_parameter() {
    assert!(KvQuery::default().params().is_empty());
    assert!(Kv::new("a").query().params().is_empty());
}

#[test]
fn every_option_is_sent_in_order() {
    let kv = Kv::new("a").separator("/").keys(false).raw(true).recurse(false).dc("dc1");
    let expected = pairs(&[
        ("dc", "dc1"),
        ("recurse", "false"),
        ("raw", "true"),
        ("keys", "false"),
        ("separator", "/"),
    ]);
    assert_eq!(kv.query().params(), expected);
}

#[test]
fn later_setting_replaces_earlier() {
    let kv = Kv::new("a").dc("one").dc("two").raw(true).raw(false);
    assert_eq!(kv.query().params(), pairs(&[("dc", "two"), ("raw", "false")]));
}

#[test]
fn path_is_under_kv_namespace() {
    let client = Client::new("http://localhost:8500").unwrap();
    let req = Kv::new("path/to/key0").prepare(Method::Get, &client).unwrap();
    assert_eq!(req.url.as_str(), "http://localhost:8500/v1/kv/path/to/key0");
    assert_eq!(req.method, Method::Get);
    assert!(req.query.is_empty());
    assert!(matches!(req.body, Body::Empty));
}

#[test]
fn invalid_base_address_is_refused() {
    assert!(matches!(Client::new("not a url"), Err(KvError::Url)));
    assert!(matches!(Client::new(""), Err(KvError::Url)));
}

#[test]
fn list_request_forces_recurse() {
    let client = Client::new("http://localhost:8500").unwrap();
    let req = Kv::new("path/").recurse(false).dc("x").list_request(&client).unwrap();
    assert_eq!(req.method, Method::Get);
    assert_eq!(req.query, pairs(&[("dc", "x"), ("recurse", "true")]));
    assert_eq!(req.url.as_str(), "http://localhost:8500/v1/kv/path/");
}

#[test]
fn json_payload_takes_precedence() {
    let client = Client::new("http://localhost:8500").unwrap();
    let v: serde_json::Value = serde_json::from_str("{\"Some\":\"Shit\"}").unwrap();
    let req = Kv::new("k").body(vec![1, 2]).payload(v.clone()).prepare(Method::Put, &client).unwrap();
    assert_eq!(req.method, Method::Put);
    match req.body {
        Body::Json(sent) => assert_eq!(sent, v),
        _ => panic!("expected a JSON body"),
    }
}

#[test]
fn raw_body_is_sent_without_payload() {
    let client = Client::new("http://localhost:8500").unwrap();
    let req = Kv::new("k").body(vec![1, 2, 3]).prepare(Method::Delete, &client).unwrap();
    assert_eq!(req.method, Method::Delete);
    match req.body {
        Body::Bytes(b) => assert_eq!(b, vec![1, 2, 3]),
        _ => panic!("expected a byte body"),
    }
}

#[test]
fn apply_if_only_with_value() {
    let kv = Kv::new("k").apply_if(Some(true), |k, v| k.recurse(v));
    assert_eq!(kv.query().params(), pairs(&[("recurse", "true")]));
    let kv = Kv::new("k").apply_if(None::<bool>, |k, v| k.recurse(v));
    assert!(kv.query().params().is_empty());
}
