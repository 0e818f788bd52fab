use ripress::logger::LoggerConfig;
use ripress::types::HttpResponseError;
use ripress::response::HttpResponse;
use ripress::types::{ResponseContentBody, ResponseContentType};

#[test]
fn fresh_builder_defaults() {
    let r = HttpResponse::new();
    assert_eq!(r.get_status(), 200);
    assert_eq!(r.get_content_type(), ResponseContentType::TEXT);
    assert_eq!(r.get_text().unwrap(), "");
}

#[test]
fn status_replaces_code_only() {
    let r = HttpResponse::new().text("body").status(404);
    assert_eq!(r.get_status(), 404);
    assert_eq!(r.get_text().unwrap(), "body");
    assert_eq!(r.get_content_type(), ResponseContentType::TEXT);
}

#[test]
fn last_body_setter_wins() {
    let v: serde_json::Value = serde_json::from_str(r#"{"ok":true}"#).unwrap();
    let r = HttpResponse::new().text("first").json(v.clone());
    assert_eq!(r.get_content_type(), ResponseContentType::JSON);
    assert!(r.get_text().is_none());

    let r = HttpResponse::new().json(v).text("second");
    assert_eq!(r.get_content_type(), ResponseContentType::TEXT);
    assert_eq!(r.get_text().unwrap(), "second");
}

#[test]
fn into_parts_finalizes() {
    let v: serde_json::Value = serde_json::from_str("[1,2,3]").unwrap();
    let (status, ct, body) = HttpResponse::new().status(500).json(v.clone()).into_parts();
    assert_eq!(status, 500);
    assert_eq!(ct, ResponseContentType::JSON);
    match body {
        ResponseContentBody::JSON(b) => assert_eq!(b, v),
        ResponseContentBody::TEXT(_) => panic!("expected a JSON body"),
    }
}

#[test]
fn new_text_body() {
    match ResponseContentBody::new_text("hello") {
        ResponseContentBody::TEXT(t) => assert_eq!(t, "hello"),
        ResponseContentBody::JSON(_) => panic!("expected a text body"),
    }
}

#[test]
fn logger_config_defaults_log_everything() {
    let c = LoggerConfig::default();
    assert!(c.method);
    assert!(c.path);
    assert!(c.duration);
}

#[test]
fn missing_header_error_message() {
    let e = HttpResponseError::MissingHeader("Authorization".to_string());
    assert_eq!(e.message(), "Missing header: Authorization");
}
