//! The two requests the fetching script sends: where each goes, and how the
//! body of each reply is read.

use crate::report::{IpResponse, UuidResponse};
use vstd::prelude::*;

verus! {

/// The text of the member `key` of the JSON object that `body` encodes; none
/// where `body` is no JSON document, is no object, or has no member `key`
/// whose value is a JSON string.
pub uninterp spec fn json_text_field(body: Seq<u8>, key: Seq<char>) -> Option<Seq<char>>;

/// The text of a field, where there is one.
pub open spec fn field_text(f: Option<String>) -> Option<Seq<char>> {
    match f {
        Some(s) => Some(s@),
        None => None,
    }
}

/// Relies on serde_json::from_slice into a serde_json::Value, on Value::get
/// with a string key, which looks the key up in an object and finds nothing
/// in any other value, and on Value::as_str, which gives the text of a JSON
/// string and nothing for any other value.
#[verifier::external_body]
fn text_field(body: &[u8], key: &str) -> (r: Option<String>)
    ensures
        field_text(r) == json_text_field(body@, key@),
{
    let v: serde_json::Value = serde_json::from_slice(body).ok()?;
    Some(v.get(key)?.as_str()?.to_string())
}

/// The error text for a reply that lacks the address.
pub open spec fn no_origin_text() -> Seq<char> {
    "reply is not a JSON object with a string field `origin`"@
}

/// The error text for a reply that lacks the UUID.
pub open spec fn no_uuid_text() -> Seq<char> {
    "reply is not a JSON object with a string field `uuid`"@
}

/// `r` is what the address field `origin` decodes to.
pub open spec fn ip_decoded(r: Result<IpResponse, String>, origin: Option<Seq<char>>) -> bool {
    match origin {
        Some(o) => r is Ok && r->Ok_0.origin@ == o,
        None => r is Err && r->Err_0@ == no_origin_text(),
    }
}

/// `r` is what the field `uuid` decodes to.
pub open spec fn uuid_decoded(r: Result<UuidResponse, String>, uuid: Option<Seq<char>>) -> bool {
    match uuid {
        Some(u) => r is Ok && r->Ok_0.uuid@ == u,
        None => r is Err && r->Err_0@ == no_uuid_text(),
    }
}

/// The address that reports the caller's address.
pub fn ip_url() -> (r: &'static str)
    ensures
        r@ == "https://httpbin.org/ip"@,
{
    "https://httpbin.org/ip"
}

/// The address that hands out a fresh UUID.
pub fn uuid_url() -> (r: &'static str)
    ensures
        r@ == "https://httpbin.org/uuid"@,
{
    "https://httpbin.org/uuid"
}

/// The address reply made of its `origin` field, if the reply had one.
pub fn ip_from_field(origin: Option<String>) -> (r: Result<IpResponse, String>)
    ensures
        ip_decoded(r, field_text(origin)),
{
    match origin {
        Some(o) => Ok(IpResponse { origin: o }),
        None => Err(String::from_str("reply is not a JSON object with a string field `origin`")),
    }
}

/// The UUID reply made of its `uuid` field, if the reply had one.
pub fn uuid_from_field(uuid: Option<String>) -> (r: Result<UuidResponse, String>)
    ensures
        uuid_decoded(r, field_text(uuid)),
{
    match uuid {
        Some(u) => Ok(UuidResponse { uuid: u }),
        None => Err(String::from_str("reply is not a JSON object with a string field `uuid`")),
    }
}

/// Reads the body of the address reply: a JSON object whose member `origin`
/// is a string. Other members are not read.
pub fn ip_from_body(body: &[u8]) -> (r: Result<IpResponse, String>)
    ensures
        ip_decoded(r, json_text_field(body@, "origin"@)),
{
    let field = text_field(body, "origin");
    ip_from_field(field)
}

/// Reads the body of the UUID reply: a JSON object whose member `uuid` is a
/// string. Other members are not read.
pub fn uuid_from_body(body: &[u8]) -> (r: Result<UuidResponse, String>)
    ensures
        uuid_decoded(r, json_text_field(body@, "uuid"@)),
{
    let field = text_field(body, "uuid");
    uuid_from_field(field)
}

} // verus!
