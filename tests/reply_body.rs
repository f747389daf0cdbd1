use rust_script_templates::reply::{
    ip_from_body, ip_from_field, ip_url, uuid_from_body, uuid_from_field, uuid_url,
};

const NO_ORIGIN: &str = "reply is not a JSON object with a string field `origin`";
const NO_UUID: &str = "reply is not a JSON object with a string field `uuid`";

#[test]
fn requests_go_to_the_fixed_addresses() {
    assert_eq!(ip_url(), "https://httpbin.org/ip");
    assert_eq!(uuid_url(), "https://httpbin.org/uuid");
}

#[test]
fn reads_the_origin_of_an_address_reply() {
    let r = ip_from_body(br#"{"origin":"1.2.3.4"}"#).unwrap();
    assert_eq!(r.origin, "1.2.3.4");
}

#[test]
fn reads_a_pretty_printed_reply_with_other_members() {
    let body = b"{\n  \"headers\": {\"Host\": \"x\"},\n  \"origin\": \"203.0.113.9, 10.0.0.1\"\n}\n";
    assert_eq!(ip_from_body(body).unwrap().origin, "203.0.113.9, 10.0.0.1");
}

#[test]
fn reads_escapes_in_the_uuid() {
    let r = uuid_from_body(br#"{"uuid": "a\u0062c-\"1\""}"#).unwrap();
    assert_eq!(r.uuid, "abc-\"1\"");
}

#[test]
fn a_missing_field_is_an_error() {
    assert_eq!(ip_from_body(br#"{"ip":"1.2.3.4"}"#).unwrap_err(), NO_ORIGIN);
    assert_eq!(uuid_from_body(br#"{}"#).unwrap_err(), NO_UUID);
}

#[test]
fn a_field_that_is_not_text_is_an_error() {
    assert_eq!(ip_from_body(br#"{"origin":1234}"#).unwrap_err(), NO_ORIGIN);
    assert_eq!(uuid_from_body(br#"{"uuid":null}"#).unwrap_err(), NO_UUID);
}

#[test]
fn a_body_that_is_not_a_json_object_is_an_error() {
    assert_eq!(ip_from_body(b"").unwrap_err(), NO_ORIGIN);
    assert_eq!(ip_from_body(b"<html>busy</html>").unwrap_err(), NO_ORIGIN);
    assert_eq!(ip_from_body(br#"["1.2.3.4"]"#).unwrap_err(), NO_ORIGIN);
    assert_eq!(uuid_from_body(br#""abc""#).unwrap_err(), NO_UUID);
    assert_eq!(uuid_from_body(br#"{"uuid":"abc""#).unwrap_err(), NO_UUID);
}

#[test]
fn decodes_from_a_field_value() {
    assert_eq!(ip_from_field(Some("5.6.7.8".to_string())).unwrap().origin, "5.6.7.8");
    assert_eq!(ip_from_field(None).unwrap_err(), NO_ORIGIN);
    assert_eq!(uuid_from_field(Some("u".to_string())).unwrap().uuid, "u");
    assert_eq!(uuid_from_field(None).unwrap_err(), NO_UUID);
}
