use vstd::prelude::*;
use vstd::utf8::{decode_utf8, valid_utf8};

verus! {

#[verifier::external_type_specification]
#[verifier::external_body]
pub struct ExJsonValue(serde_json::Value);

/// Whether `serde_json` decodes the text as one JSON value.
pub uninterp spec fn json_accepts(text: Seq<char>) -> bool;

/// The text that `String::from_utf8_lossy` makes of a byte sequence.
pub uninterp spec fn lossy_text(b: Seq<u8>) -> Seq<char>;

/// Relies on `serde_json::from_str::<serde_json::Value>`: the decoded value,
/// or `None` where the text is not one JSON value.
#[verifier::external_body]
fn decode_json(text: &str) -> (r: Option<serde_json::Value>)
    ensures
        r is Some == json_accepts(text@),
{
    serde_json::from_str::<serde_json::Value>(text).ok()
}

/// Relies on `String::from_utf8_lossy`: the text of the bytes, with each
/// invalid sequence replaced; valid UTF-8 is decoded as it stands.
#[verifier::external_body]
fn lossy_string(b: &[u8]) -> (r: String)
    ensures
        r@ == lossy_text(b@),
        valid_utf8(b@) ==> r@ == decode_utf8(b@),
{
    String::from_utf8_lossy(b).into_owned()
}

/// A response body: a decoded JSON value, or the raw text where the body is
/// not JSON.
#[derive(Debug)]
pub enum ResponseBody {
    Json(serde_json::Value),
    Text(String),
}

/// What an invocation returns: the status code and the normalised body.
#[derive(Debug)]
pub struct ExecutionResult {
    pub status: u16,
    pub body: ResponseBody,
}

/// The result for a response with this status and these body bytes: the
/// status as it came, and the body's text decoded as JSON where it is JSON,
/// else that text as a string.
pub open spec fn normalized(r: ExecutionResult, status: u16, body: Seq<u8>) -> bool {
    &&& r.status == status
    &&& json_accepts(lossy_text(body)) ==> r.body is Json
    &&& !json_accepts(lossy_text(body)) ==> (r.body matches ResponseBody::Text(t) && t@
        == lossy_text(body))
}

/// The body for a response text, given what decoding it as JSON gave: the
/// decoded value, or else the text itself. This never fails.
pub fn settle_body(text: String, decoded: Option<serde_json::Value>) -> (r: ResponseBody)
    ensures
        match decoded {
            Some(v) => r == ResponseBody::Json(v),
            None => r == ResponseBody::Text(text),
        },
{
    match decoded {
        Some(v) => ResponseBody::Json(v),
        None => ResponseBody::Text(text),
    }
}

/// Normalises a received response: its bytes are read as text, which is
/// decoded as JSON where it is JSON and kept as a string otherwise.
pub fn normalize_response(status: u16, body: &Vec<u8>) -> (r: ExecutionResult)
    ensures
        normalized(r, status, body@),
{
    let text = lossy_string(body.as_slice());
    let decoded = decode_json(text.as_str());
    ExecutionResult { status, body: settle_body(text, decoded) }
}

} // verus!
