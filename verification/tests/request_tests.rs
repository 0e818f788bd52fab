use ripress::request::{HttpRequest, TransportRequest};
use ripress::types::{HttpMethods, HttpRequestError, RequestBodyType};

fn transport(
    headers: Vec<(&str, &str)>,
    peer: Option<&str>,
    body: Vec<u8>,
) -> TransportRequest {
    TransportRequest {
        method: HttpMethods::POST,
        path: "/submit".to_string(),
        origin_url: "/submit?x=1".to_string(),
        query_string: "x=1".to_string(),
        headers: headers
            .into_iter()
            .map(|(k, v)| (k.to_string(), v.to_string()))
            .collect(),
        cookies: vec![],
        params: vec![],
        peer_addr: peer.map(|p| p.to_string()),
        body_chunks: vec![body],
    }
}

#[test]
fn json_round_trip() {
    let doc = r#"{"name":"alice","age":30,"tags":["a","b"]}"#;
    let t = transport(
        vec![("content-type", "application/json")],
        None,
        doc.as_bytes().to_vec(),
    );
    let req = HttpRequest::from_transport(t).unwrap();
    assert!(req.is(RequestBodyType::JSON));
    let got = req.json().unwrap();
    let expected: serde_json::Value = serde_json::from_str(doc).unwrap();
    assert_eq!(got, expected);
    assert_eq!(got["name"], serde_json::Value::String("alice".to_string()));
}

#[test]
fn text_body_no_content_type() {
    let t = transport(vec![], None, b"hello world".to_vec());
    let req = HttpRequest::from_transport(t).unwrap();
    assert!(req.is(RequestBodyType::TEXT));
    assert_eq!(req.text().unwrap(), "hello world");
    assert!(matches!(req.json(), Err(HttpRequestError::WrongBodyType)));
}

#[test]
fn form_data_pairs() {
    let t = transport(
        vec![("content-type", "application/x-www-form-urlencoded")],
        None,
        b"a=1&b=2".to_vec(),
    );
    let req = HttpRequest::from_transport(t).unwrap();
    assert!(req.is(RequestBodyType::FORM));
    let form = req.form_data().unwrap();
    assert_eq!(form.get("a").unwrap(), "1");
    assert_eq!(form.get("b").unwrap(), "2");
    assert!(form.get("c").is_none());
}

#[test]
fn form_segment_without_equals_dropped() {
    let t = transport(
        vec![("content-type", "application/x-www-form-urlencoded")],
        None,
        b"a=1&junk&b=2".to_vec(),
    );
    let req = HttpRequest::from_transport(t).unwrap();
    let form = req.form_data().unwrap();
    assert_eq!(form.len(), 2);
    assert_eq!(form.get("a").unwrap(), "1");
    assert_eq!(form.get("b").unwrap(), "2");
    assert!(form.get("junk").is_none());
}

#[test]
fn body_too_large_rejected() {
    let t = transport(
        vec![("content-type", "application/json")],
        None,
        vec![b'x'; 262_145],
    );
    assert!(matches!(
        HttpRequest::from_transport(t),
        Err(HttpRequestError::BodyTooLarge)
    ));
}

#[test]
fn body_too_large_independent_of_content_type() {
    let t = transport(vec![], None, vec![b'x'; 262_145]);
    assert!(matches!(
        HttpRequest::from_transport(t),
        Err(HttpRequestError::BodyTooLarge)
    ));
}

#[test]
fn body_at_cap_accepted() {
    let t = transport(vec![], None, vec![b'x'; 262_144]);
    let req = HttpRequest::from_transport(t).unwrap();
    assert_eq!(req.text().unwrap().len(), 262_144);
}

#[test]
fn body_cap_across_chunks() {
    let mut t = transport(vec![], None, vec![b'x'; 262_144]);
    t.body_chunks.push(vec![b'y']);
    assert!(matches!(
        HttpRequest::from_transport(t),
        Err(HttpRequestError::BodyTooLarge)
    ));
}

#[test]
fn invalid_utf8_rejected() {
    let t = transport(vec![], None, vec![0xff, 0xfe, 0xfd]);
    assert!(matches!(
        HttpRequest::from_transport(t),
        Err(HttpRequestError::InvalidUtf8)
    ));
}

#[test]
fn invalid_json_rejected_with_message() {
    let t = transport(
        vec![("content-type", "application/json")],
        None,
        b"{oops".to_vec(),
    );
    match HttpRequest::from_transport(t) {
        Err(HttpRequestError::InvalidJson(m)) => assert!(!m.is_empty()),
        other => panic!("expected InvalidJson, got {:?}", other.is_ok()),
    }
}

#[test]
fn content_type_classification() {
    let t = transport(vec![("content-type", "text/plain")], None, b"hi".to_vec());
    let req = HttpRequest::from_transport(t).unwrap();
    assert!(req.is(RequestBodyType::TEXT));

    let t = transport(
        vec![("content-type", "application/json; charset=utf-8")],
        None,
        b"{}".to_vec(),
    );
    let req = HttpRequest::from_transport(t).unwrap();
    assert!(req.is(RequestBodyType::JSON));
}

#[test]
fn accessors_known_and_unknown_keys() {
    let mut req = HttpRequest::new();
    req.set_query("q", "search");
    req.set_header("X-Custom", "Value");
    req.set_cookie("session", "abc123");
    req.set_param("id", "42");

    assert_eq!(req.get_query("q").unwrap(), "search");
    assert_eq!(req.get_header("X-Custom").unwrap(), "Value");
    assert_eq!(req.get_cookie("session").unwrap(), "abc123");
    assert_eq!(req.get_params("id").unwrap(), "42");

    assert!(req.get_query("missing").is_none());
    assert!(req.get_header("x-custom").is_none());
    assert!(req.get_cookie("other").is_none());
    assert!(req.get_params("name").is_none());
}

#[test]
fn cookie_last_write_wins() {
    let mut req = HttpRequest::new();
    req.set_cookie("session", "first");
    req.set_cookie("session", "second");
    assert_eq!(req.get_cookie("session").unwrap(), "second");
}

#[test]
fn duplicate_query_last_occurrence_wins() {
    let mut t = transport(vec![], None, Vec::new());
    t.query_string = "a=1&a=2&b=3".to_string();
    let req = HttpRequest::from_transport(t).unwrap();
    assert_eq!(req.get_query("a").unwrap(), "2");
    assert_eq!(req.get_query("b").unwrap(), "3");
}

#[test]
fn client_ip_from_forwarded_header() {
    let t = transport(
        vec![("X-Forwarded-For", "1.2.3.4, 5.6.7.8")],
        Some("9.9.9.9"),
        Vec::new(),
    );
    let req = HttpRequest::from_transport(t).unwrap();
    assert_eq!(req.ip().unwrap(), "1.2.3.4");
}

#[test]
fn client_ip_from_peer_address() {
    let t = transport(vec![], Some("9.9.9.9"), Vec::new());
    let req = HttpRequest::from_transport(t).unwrap();
    assert_eq!(req.ip().unwrap(), "9.9.9.9");
}

#[test]
fn client_ip_unknown() {
    let t = transport(vec![], None, Vec::new());
    let req = HttpRequest::from_transport(t).unwrap();
    assert_eq!(req.ip().unwrap(), "unknown");
}

#[test]
fn request_line_accessors() {
    let t = transport(vec![], None, Vec::new());
    let req = HttpRequest::from_transport(t).unwrap();
    assert_eq!(req.get_method(), "POST");
    assert_eq!(req.method(), HttpMethods::POST);
    assert_eq!(req.get_path().unwrap(), "/submit");
    assert_eq!(req.get_origin_url().unwrap(), "/submit?x=1");
}

#[test]
fn set_json_then_accessor() {
    let v: serde_json::Value = serde_json::from_str(r#"{"k":[1,2]}"#).unwrap();
    let mut req = HttpRequest::new();
    req.set_json(v.clone());
    assert!(req.is(RequestBodyType::JSON));
    assert_eq!(req.json().unwrap(), v);
    assert!(matches!(req.text(), Err(HttpRequestError::WrongBodyType)));
}

#[test]
fn set_text_then_accessor() {
    let mut req = HttpRequest::new();
    req.set_text("plain words");
    assert_eq!(req.text().unwrap(), "plain words");
    assert!(matches!(
        req.form_data(),
        Err(HttpRequestError::WrongBodyType)
    ));
}

#[test]
fn set_form_accumulates_pairs() {
    let mut req = HttpRequest::new();
    req.set_form("a", "1");
    req.set_form("b", "2");
    assert!(req.is(RequestBodyType::FORM));
    let form = req.form_data().unwrap();
    assert_eq!(form.get("a").unwrap(), "1");
    assert_eq!(form.get("b").unwrap(), "2");
}

#[test]
fn empty_request_defaults() {
    let req = HttpRequest::new();
    assert!(req.is(RequestBodyType::TEXT));
    assert_eq!(req.text().unwrap(), "");
    assert_eq!(req.get_method(), "GET");
    assert_eq!(req.ip().unwrap(), "");
}

#[test]
fn form_entries_keep_order() {
    let t = transport(
        vec![("content-type", "application/x-www-form-urlencoded")],
        None,
        b"b=2&a=1".to_vec(),
    );
    let req = HttpRequest::from_transport(t).unwrap();
    let form = req.form_data().unwrap();
    assert_eq!(form.entry_at(0), ("b".to_string(), "2".to_string()));
    assert_eq!(form.entry_at(1), ("a".to_string(), "1".to_string()));
}

#[test]
fn forwarded_header_single_entry_trimmed() {
    let t = transport(vec![("X-Forwarded-For", "  7.7.7.7  ")], None, Vec::new());
    let req = HttpRequest::from_transport(t).unwrap();
    assert_eq!(req.ip().unwrap(), "7.7.7.7");
}
