use vstd::prelude::*;
use vstd::utf8::encode_utf8;
use crate::config::{method_of, select_method, Curl, Method};
use crate::error::{CurlError, ScriptKind};
use crate::template::resolve;
use crate::value::{Env, ScriptValue};

verus! {

/// A byte allowed in a header name: a token character of RFC 9110.
pub open spec fn header_name_byte(c: u8) -> bool {
    ||| c == 33 || c == 34
    ||| 35 <= c <= 39
    ||| c == 42 || c == 43 || c == 45 || c == 46
    ||| 48 <= c <= 57
    ||| 65 <= c <= 90
    ||| 94 <= c <= 122
    ||| c == 124 || c == 126
}

/// A well-formed header name: one to 65535 token bytes.
pub open spec fn header_name_valid(b: Seq<u8>) -> bool {
    &&& 1 <= b.len() <= 65535
    &&& forall|i: int| 0 <= i < b.len() ==> header_name_byte(#[trigger] b[i])
}

/// A well-formed header value: visible bytes, spaces and tabs only.
pub open spec fn header_value_valid(b: Seq<u8>) -> bool {
    forall|i: int|
        0 <= i < b.len() ==> ((#[trigger] b[i] >= 32 && b[i] != 127) || b[i] == 9)
}

/// Relies on `http::HeaderName::from_bytes` (through hyper): it accepts
/// exactly the names of one to 65535 bytes that its character table maps
/// to a non-zero byte.
#[verifier::external_body]
fn header_name_accepted(b: &[u8]) -> (r: bool)
    ensures
        r == header_name_valid(b@),
{
    hyper::header::HeaderName::from_bytes(b).is_ok()
}

/// Relies on `http::HeaderValue::from_bytes` (through hyper): it accepts
/// exactly the values whose bytes are all at least 32 and not 127, or tabs.
#[verifier::external_body]
fn header_value_accepted(b: &[u8]) -> (r: bool)
    ensures
        r == header_value_valid(b@),
{
    hyper::header::HeaderValue::from_bytes(b).is_ok()
}

/// A request ready to be sent.
#[derive(Debug)]
pub struct OutboundRequest {
    pub method: Method,
    pub url: String,
    /// Header names and values, in the order the headers script gave them.
    pub headers: Vec<(String, String)>,
    pub body: Option<Vec<u8>>,
}

/// How one entry of the headers object fails, if it does.
pub enum HeaderFault {
    NotString,
    BadName,
    BadValue,
}

/// The fault of one header entry.
pub open spec fn header_fault(e: (String, ScriptValue)) -> Option<HeaderFault> {
    match e.1 {
        ScriptValue::Str(v) => if !header_name_valid(encode_utf8(e.0@)) {
            Some(HeaderFault::BadName)
        } else if !header_value_valid(encode_utf8(v@)) {
            Some(HeaderFault::BadValue)
        } else {
            None
        },
        _ => Some(HeaderFault::NotString),
    }
}

/// The error that a faulty header entry gives.
pub open spec fn header_error_matches(r: CurlError, e: (String, ScriptValue)) -> bool {
    match header_fault(e) {
        Some(HeaderFault::NotString) => r matches CurlError::HeaderValueNotString(k) && k@
            == e.0@,
        Some(HeaderFault::BadName) => r matches CurlError::InvalidHeaderName(k) && k@ == e.0@,
        Some(HeaderFault::BadValue) => r matches CurlError::InvalidHeaderValue(k) && k@
            == e.0@,
        None => false,
    }
}

/// Entry `i` is the first faulty entry of the headers object.
pub open spec fn first_faulty(es: Seq<(String, ScriptValue)>, i: int) -> bool {
    &&& 0 <= i < es.len()
    &&& header_fault(es[i]) is Some
    &&& forall|j: int| 0 <= j < i ==> header_fault(#[trigger] es[j]) is None
}

/// No entry of the headers object is faulty.
pub open spec fn all_headers_ok(es: Seq<(String, ScriptValue)>) -> bool {
    forall|j: int| 0 <= j < es.len() ==> header_fault(#[trigger] es[j]) is None
}

/// What the builder returns once the headers are sound: a request whose body
/// is the string's bytes, or no body for null; any other body fails.
pub open spec fn body_outcome(
    r: Result<OutboundRequest, CurlError>,
    method: Method,
    url: Seq<char>,
    es: Seq<(String, ScriptValue)>,
    body: ScriptValue,
) -> bool {
    match body {
        ScriptValue::Str(b) => r matches Ok(q) && request_is(
            q,
            method,
            url,
            es,
            Some(encode_utf8(b@)),
        ),
        ScriptValue::Null => r matches Ok(q) && request_is(q, method, url, es, None),
        _ => r == Err::<OutboundRequest, CurlError>(CurlError::BodyShape),
    }
}

/// What building a request from these parts gives: the first faulty header
/// entry names the error; with sound headers the body decides.
pub open spec fn build_outcome(
    r: Result<OutboundRequest, CurlError>,
    method: Method,
    url: Seq<char>,
    headers: ScriptValue,
    body: ScriptValue,
) -> bool {
    match headers {
        ScriptValue::Object(es) => {
            &&& forall|i: int|
                #![trigger es@[i]]
                first_faulty(es@, i) ==> (r matches Err(e) && header_error_matches(e, es@[i]))
            &&& all_headers_ok(es@) ==> body_outcome(r, method, url, es@, body)
        },
        _ => r == Err::<OutboundRequest, CurlError>(CurlError::HeadersNotObject),
    }
}

proof fn lemma_first_faulty_unique(es: Seq<(String, ScriptValue)>, i: int)
    requires
        first_faulty(es, i),
    ensures
        forall|j: int| #![trigger es[j]] first_faulty(es, j) ==> j == i,
        !all_headers_ok(es),
{
    assert forall|j: int| #![trigger es[j]] first_faulty(es, j) implies j == i by {
        if j < i {
            assert(header_fault(es[j]) is None);
        } else if j > i {
            assert(header_fault(es[i]) is None);
        }
    }
}

/// The request headers are the entries of the object, with their string values.
pub open spec fn headers_from(hs: Seq<(String, String)>, es: Seq<(String, ScriptValue)>) -> bool {
    &&& hs.len() == es.len()
    &&& forall|i: int|
        0 <= i < es.len() ==> (#[trigger] hs[i]).0@ == es[i].0@ && (es[i].1 matches ScriptValue::Str(
            v,
        ) && hs[i].1@ == v@)
}

/// The bytes a body holds, if there is one.
pub open spec fn body_bytes(b: Option<Vec<u8>>) -> Option<Seq<u8>> {
    match b {
        Some(v) => Some(v@),
        None => None,
    }
}

/// A request with this method, URL, headers from these entries, and body.
pub open spec fn request_is(
    q: OutboundRequest,
    method: Method,
    url: Seq<char>,
    es: Seq<(String, ScriptValue)>,
    body: Option<Seq<u8>>,
) -> bool {
    &&& q.method == method
    &&& q.url@ == url
    &&& headers_from(q.headers@, es)
    &&& body_bytes(q.body) == body
}

/// The bytes of a string, in a vector of their own.
fn utf8_bytes(s: &String) -> (r: Vec<u8>)
    ensures
        r@ == encode_utf8(s@),
{
    let bytes = s.as_str().as_bytes();
    let mut out: Vec<u8> = Vec::new();
    let mut i: usize = 0;
    while i < bytes.len()
        invariant
            0 <= i <= bytes@.len(),
            bytes@ == encode_utf8(s@),
            out@ == bytes@.take(i as int),
        decreases bytes@.len() - i,
    {
        out.push(bytes[i]);
        assert(bytes@.take(i + 1) =~= bytes@.take(i as int).push(bytes@[i as int]));
        i = i + 1;
    }
    assert(bytes@.take(i as int) =~= bytes@);
    out
}

/// Assembles the request from the two script outcomes.
///
/// The headers outcome must be an object whose values are strings, with
/// well-formed names and values; its entries are checked in order and the
/// first faulty one names the error. The body outcome must be a string,
/// which becomes the body's bytes, or null, which leaves the body empty.
pub fn build_request(method: Method, url: String, headers: &ScriptValue, body: &ScriptValue) -> (r:
    Result<OutboundRequest, CurlError>)
    ensures
        build_outcome(r, method, url@, *headers, *body),
{
    let es = match headers {
        ScriptValue::Object(es) => es,
        _ => return Err(CurlError::HeadersNotObject),
    };
    let mut hs: Vec<(String, String)> = Vec::new();
    let mut i: usize = 0;
    while i < es.len()
        invariant
            *headers == ScriptValue::Object(*es),
            0 <= i <= es@.len(),
            forall|j: int| 0 <= j < i ==> header_fault(#[trigger] es@[j]) is None,
            hs@.len() == i,
            forall|j: int|
                0 <= j < i ==> (#[trigger] hs@[j]).0@ == es@[j].0@ && (es@[j].1 matches ScriptValue::Str(
                    v,
                ) && hs@[j].1@ == v@),
        decreases es@.len() - i,
    {
        let (key, value) = &es[i];
        match value {
            ScriptValue::Str(v) => {
                let kb = utf8_bytes(key);
                if !header_name_accepted(kb.as_slice()) {
                    let err = CurlError::InvalidHeaderName(key.clone());
                    assert(header_error_matches(err, es@[i as int]));
                    proof {
                        lemma_first_faulty_unique(es@, i as int);
                    }
                    return Err(err);
                }
                let vb = utf8_bytes(v);
                if !header_value_accepted(vb.as_slice()) {
                    let err = CurlError::InvalidHeaderValue(key.clone());
                    assert(header_error_matches(err, es@[i as int]));
                    proof {
                        lemma_first_faulty_unique(es@, i as int);
                    }
                    return Err(err);
                }
                hs.push((key.clone(), v.clone()));
            },
            _ => {
                let err = CurlError::HeaderValueNotString(key.clone());
                assert(header_error_matches(err, es@[i as int]));
                proof {
                    lemma_first_faulty_unique(es@, i as int);
                }
                return Err(err);
            },
        }
        i = i + 1;
    }
    assert(forall|j: int| !first_faulty(es@, j));
    assert(all_headers_ok(es@));
    let body = match body {
        ScriptValue::Str(b) => Some(utf8_bytes(b)),
        ScriptValue::Null => None,
        _ => return Err(CurlError::BodyShape),
    };
    Ok(OutboundRequest { method, url, headers: hs, body })
}

/// The outcome of one script, with a failure tagged by the script it came from.
pub fn script_result(kind: ScriptKind, outcome: Result<ScriptValue, String>) -> (r: Result<
    ScriptValue,
    CurlError,
>)
    ensures
        match outcome {
            Ok(v) => r == Ok::<ScriptValue, CurlError>(v),
            Err(cause) => r == Err::<ScriptValue, CurlError>(CurlError::Script(kind, cause)),
        },
{
    match outcome {
        Ok(v) => Ok(v),
        Err(cause) => Err(CurlError::Script(kind, cause)),
    }
}

impl Curl {
    /// What an invocation settles before any script runs: the concrete URL,
    /// then the method. The URL's failure comes first.
    pub fn prepare(&self, env: &Env) -> (r: Result<(Method, String), CurlError>)
        ensures
            resolve(self@.url, env.vars@) is Err ==> (r matches Err(
                CurlError::Template(_, _),
            )),
            match resolve(self@.url, env.vars@) {
                Ok(u) => match method_of(self@.method) {
                    Some(m) => r matches Ok((x, y)) && x == m && y@ == u,
                    None => r matches Err(CurlError::InvalidMethod(x)) && x@ == self@.method,
                },
                Err(_) => r is Err,
            },
    {
        let url = match self.resolve_url(env) {
            Ok(u) => u,
            Err(e) => return Err(e),
        };
        match select_method(self.method()) {
            Ok(m) => Ok((m, url)),
            Err(e) => Err(e),
        }
    }
}

} // verus!
