use curl_block::config::{select_method, Curl, Entry, Method};
use curl_block::error::{CurlError, Field, ScriptKind, TemplateFailure};
use curl_block::invocation::{step, Action, Event, Stage};
use curl_block::request::{build_request, script_result};
use curl_block::response::{normalize_response, settle_body, ResponseBody};
use curl_block::template::resolve_template;
use curl_block::value::{Env, ScriptValue};

fn pair(k: &str, v: &str) -> Entry {
    Entry::Pair(k.to_string(), v.to_string())
}

fn full_entries(method: &str) -> Vec<Entry> {
    vec![
        pair("method", method),
        pair("url", "https://example.com/{x}"),
        pair("headers_code", "_fun = (env) => ({})"),
        pair("body_code", "_fun = (env) => null"),
    ]
}

fn config(method: &str, url: &str, headers: &str, body: &str) -> Curl {
    Curl::parse(&vec![
        pair("method", method),
        pair("url", url),
        pair("headers_code", headers),
        pair("body_code", body),
    ])
    .unwrap()
}

fn env_x() -> Env {
    Env { vars: vec![("x".to_string(), ScriptValue::Str("42".to_string()))] }
}

fn str_value(s: &str) -> ScriptValue {
    ScriptValue::Str(s.to_string())
}

fn headers_object(entries: Vec<(&str, ScriptValue)>) -> ScriptValue {
    ScriptValue::Object(entries.into_iter().map(|(k, v)| (k.to_string(), v)).collect())
}

#[test]
fn parse_accepts_all_four_fields() {
    let c = Curl::parse(&full_entries("POST")).unwrap();
    assert_eq!(c.method(), "POST");
    assert_eq!(c.url(), "https://example.com/{x}");
    assert_eq!(c.headers_code(), "_fun = (env) => ({})");
    assert_eq!(c.body_code(), "_fun = (env) => null");
}

#[test]
fn parse_names_each_missing_field() {
    let fields = [Field::Method, Field::Url, Field::HeadersCode, Field::BodyCode];
    for (i, f) in fields.iter().enumerate() {
        let mut entries = full_entries("GET");
        entries.remove(i);
        match Curl::parse(&entries) {
            Err(CurlError::MissingField(g)) => assert_eq!(g, *f),
            other => panic!("expected a missing field, got {:?}", other),
        }
    }
}

#[test]
fn parse_refuses_unknown_key() {
    let mut entries = full_entries("GET");
    entries.insert(1, pair("timeout", "3"));
    match Curl::parse(&entries) {
        Err(CurlError::UnexpectedField(k)) => assert_eq!(k, "timeout"),
        other => panic!("unexpected {:?}", other),
    }
}

#[test]
fn parse_refuses_expected_entry() {
    let mut entries = full_entries("GET");
    entries.push(Entry::Expected);
    assert!(matches!(Curl::parse(&entries), Err(CurlError::ExpectedUnsupported)));
}

#[test]
fn parse_refuses_unsupported_method() {
    for m in ["DELETE", "get", "Post", ""] {
        match Curl::parse(&full_entries(m)) {
            Err(CurlError::InvalidMethod(x)) => assert_eq!(x, m),
            other => panic!("unexpected {:?}", other),
        }
    }
    for m in ["GET", "POST", "PUT", "PATCH"] {
        assert!(Curl::parse(&full_entries(m)).is_ok());
    }
}

#[test]
fn parse_keeps_last_value_of_a_field() {
    let mut entries = full_entries("GET");
    entries.push(pair("method", "PUT"));
    let c = Curl::parse(&entries).unwrap();
    assert_eq!(c.method(), "PUT");
}

#[test]
fn select_method_maps_literals() {
    assert_eq!(select_method(&"PATCH".to_string()).unwrap(), Method::Patch);
    assert_eq!(select_method(&"GET".to_string()).unwrap(), Method::Get);
    assert!(matches!(select_method(&"HEAD".to_string()), Err(CurlError::InvalidMethod(_))));
}

#[test]
fn identity_bytes_are_framed() {
    let c = config("GET", "u", "hh", "");
    let mut expected: Vec<u8> = b"curl".to_vec();
    for field in ["GET", "u", "hh", ""] {
        expected.extend_from_slice(&(field.len() as u64).to_le_bytes());
        expected.extend_from_slice(field.as_bytes());
    }
    assert_eq!(c.identity_bytes(), expected);
}

#[test]
fn inner_hash_is_blake3_of_identity_bytes() {
    let c = config("GET", "https://a", "h", "b");
    let h = c.inner_hash();
    assert_eq!(h.len(), 64);
    assert!(h.chars().all(|ch| ch.is_ascii_hexdigit() && !ch.is_ascii_uppercase()));
    assert_eq!(h, blake3::hash(&c.identity_bytes()).to_hex().to_string());
}

#[test]
fn inner_hash_is_stable_for_equal_configs() {
    let a = config("POST", "https://x/{a}", "h", "b");
    let b = config("POST", "https://x/{a}", "h", "b");
    assert_eq!(a.inner_hash(), b.inner_hash());
    assert_eq!(a.inner_hash(), a.inner_hash());
    assert_eq!(a.inner_hash(), a.clone().inner_hash());
}

#[test]
fn inner_hash_changes_with_each_field() {
    let base = config("POST", "u", "h", "b");
    let others = [
        config("PUT", "u", "h", "b"),
        config("POST", "v", "h", "b"),
        config("POST", "u", "i", "b"),
        config("POST", "u", "h", "c"),
    ];
    for o in others.iter() {
        assert_ne!(base.inner_hash(), o.inner_hash());
    }
}

#[test]
fn inner_hash_separates_field_boundaries() {
    let a = config("GET", "ab", "c", "d");
    let b = config("GET", "a", "bc", "d");
    assert_ne!(a.identity_bytes(), b.identity_bytes());
    assert_ne!(a.inner_hash(), b.inner_hash());
}

#[test]
fn template_substitutes_variable() {
    let r = resolve_template(&"https://example.com/{x}".to_string(), &env_x()).unwrap();
    assert_eq!(r, "https://example.com/42");
}

#[test]
fn template_unknown_variable_fails() {
    match resolve_template(&"https://example.com/{y}".to_string(), &env_x()) {
        Err(TemplateFailure::UnknownVariable(n)) => assert_eq!(n, "y"),
        other => panic!("unexpected {:?}", other),
    }
}

#[test]
fn template_malformed_fails() {
    for t in ["https://e/{x", "https://e/x}", "https://e/{}", "https://e/{{x}}"] {
        assert!(matches!(
            resolve_template(&t.to_string(), &env_x()),
            Err(TemplateFailure::Malformed)
        ));
    }
}

#[test]
fn template_scalars_and_compounds() {
    let env = Env {
        vars: vec![
            ("n".to_string(), ScriptValue::Number("3.5".to_string())),
            ("b".to_string(), ScriptValue::Bool(false)),
            ("z".to_string(), ScriptValue::Null),
            ("o".to_string(), ScriptValue::Object(vec![])),
            ("n".to_string(), ScriptValue::Number("9".to_string())),
        ],
    };
    let r = resolve_template(&"{n}/{b}/{z}/é".to_string(), &env).unwrap();
    assert_eq!(r, "3.5/false/null/é");
    match resolve_template(&"a{o}".to_string(), &env) {
        Err(TemplateFailure::NotTextual(n)) => assert_eq!(n, "o"),
        other => panic!("unexpected {:?}", other),
    }
    assert_eq!(resolve_template(&"".to_string(), &env).unwrap(), "");
}

#[test]
fn resolve_url_names_the_url_field() {
    let c = config("GET", "https://e/{missing}", "h", "b");
    match c.resolve_url(&env_x()) {
        Err(CurlError::Template(f, TemplateFailure::UnknownVariable(n))) => {
            assert_eq!(f, "url");
            assert_eq!(n, "missing");
        }
        other => panic!("unexpected {:?}", other),
    }
    let c = config("GET", "https://example.com/{x}", "h", "b");
    assert_eq!(c.resolve_url(&env_x()).unwrap(), "https://example.com/42");
}

#[test]
fn request_with_header_and_body() {
    let headers = headers_object(vec![("Authorization", str_value("Bearer abc"))]);
    let q = build_request(Method::Post, "https://e".to_string(), &headers, &str_value("hello"))
        .unwrap();
    assert_eq!(q.method, Method::Post);
    assert_eq!(q.url, "https://e");
    assert_eq!(q.headers, vec![("Authorization".to_string(), "Bearer abc".to_string())]);
    assert_eq!(q.body, Some(b"hello".to_vec()));
}

#[test]
fn request_with_null_body_has_none() {
    let q = build_request(Method::Get, "u".to_string(), &headers_object(vec![]), &ScriptValue::Null)
        .unwrap();
    assert!(q.headers.is_empty());
    assert_eq!(q.body, None);
}

#[test]
fn request_headers_must_be_object() {
    for h in [str_value("x"), ScriptValue::Null, ScriptValue::Array(vec![])] {
        assert!(matches!(
            build_request(Method::Get, "u".to_string(), &h, &ScriptValue::Null),
            Err(CurlError::HeadersNotObject)
        ));
    }
}

#[test]
fn request_header_value_must_be_string() {
    let headers = headers_object(vec![
        ("A", str_value("1")),
        ("B", ScriptValue::Number("2".to_string())),
        ("C", ScriptValue::Bool(true)),
    ]);
    match build_request(Method::Get, "u".to_string(), &headers, &ScriptValue::Null) {
        Err(CurlError::HeaderValueNotString(k)) => assert_eq!(k, "B"),
        other => panic!("unexpected {:?}", other),
    }
}

#[test]
fn request_header_syntax_is_checked() {
    let headers = headers_object(vec![("bad name", str_value("v"))]);
    match build_request(Method::Get, "u".to_string(), &headers, &ScriptValue::Null) {
        Err(CurlError::InvalidHeaderName(k)) => assert_eq!(k, "bad name"),
        other => panic!("unexpected {:?}", other),
    }
    let headers = headers_object(vec![("", str_value("v"))]);
    assert!(matches!(
        build_request(Method::Get, "u".to_string(), &headers, &ScriptValue::Null),
        Err(CurlError::InvalidHeaderName(_))
    ));
    let headers = headers_object(vec![("X-Ok", str_value("a\tb")), ("X-Bad", str_value("a\nb"))]);
    match build_request(Method::Get, "u".to_string(), &headers, &ScriptValue::Null) {
        Err(CurlError::InvalidHeaderValue(k)) => assert_eq!(k, "X-Bad"),
        other => panic!("unexpected {:?}", other),
    }
}

#[test]
fn request_body_must_be_string_or_null() {
    for b in [ScriptValue::Number("1".to_string()), ScriptValue::Object(vec![]), ScriptValue::Bool(true)] {
        assert!(matches!(
            build_request(Method::Put, "u".to_string(), &headers_object(vec![]), &b),
            Err(CurlError::BodyShape)
        ));
    }
}

#[test]
fn script_failure_is_tagged() {
    match script_result(ScriptKind::Body, Err("execution timed out".to_string())) {
        Err(CurlError::Script(ScriptKind::Body, c)) => assert_eq!(c, "execution timed out"),
        other => panic!("unexpected {:?}", other),
    }
    assert!(matches!(script_result(ScriptKind::Headers, Ok(ScriptValue::Null)), Ok(ScriptValue::Null)));
}

#[test]
fn response_json_body_is_decoded() {
    let r = normalize_response(200, &b"{\"ok\":true}".to_vec());
    assert_eq!(r.status, 200);
    match r.body {
        ResponseBody::Json(v) => {
            assert_eq!(v, serde_json::from_str::<serde_json::Value>("{\"ok\":true}").unwrap())
        }
        other => panic!("unexpected {:?}", other),
    }
}

#[test]
fn response_text_body_falls_back_to_string() {
    let r = normalize_response(200, &b"not json".to_vec());
    assert_eq!(r.status, 200);
    match r.body {
        ResponseBody::Text(t) => assert_eq!(t, "not json"),
        other => panic!("unexpected {:?}", other),
    }
}

#[test]
fn response_invalid_utf8_is_replaced() {
    let r = normalize_response(502, &vec![b'a', 0xff, b'b']);
    assert_eq!(r.status, 502);
    match r.body {
        ResponseBody::Text(t) => assert_eq!(t, "a\u{FFFD}b"),
        other => panic!("unexpected {:?}", other),
    }
}

#[test]
fn settle_body_prefers_decoded_value() {
    let v = serde_json::Value::Bool(true);
    assert!(matches!(settle_body("true".to_string(), Some(v)), ResponseBody::Json(serde_json::Value::Bool(true))));
    match settle_body("x".to_string(), None) {
        ResponseBody::Text(t) => assert_eq!(t, "x"),
        other => panic!("unexpected {:?}", other),
    }
}

#[test]
fn invocation_runs_to_completion() {
    let c = config("POST", "https://example.com/{x}", "h", "b");
    let (stage, action) = c.start(&env_x());
    assert!(matches!(action, Action::EvaluateHeaders));
    let headers = headers_object(vec![("Authorization", str_value("Bearer abc"))]);
    let (stage, action) = step(stage, Event::HeadersEvaluated(Ok(headers)));
    assert!(matches!(action, Action::EvaluateBody));
    let (stage, action) = step(stage, Event::BodyEvaluated(Ok(str_value("hello"))));
    match action {
        Action::Send(q) => {
            assert_eq!(q.url, "https://example.com/42");
            assert_eq!(q.method, Method::Post);
            assert_eq!(q.body, Some(b"hello".to_vec()));
        }
        other => panic!("unexpected {:?}", other),
    }
    let (stage, action) = step(stage, Event::Responded(Ok((200, b"{\"ok\":true}".to_vec()))));
    assert!(matches!(stage, Stage::Finished));
    match action {
        Action::Complete(r) => {
            assert_eq!(r.status, 200);
            assert!(matches!(r.body, ResponseBody::Json(_)));
        }
        other => panic!("unexpected {:?}", other),
    }
}

#[test]
fn invocation_stops_on_script_timeout() {
    let c = config("GET", "https://example.com/{x}", "h", "b");
    let (stage, _) = c.start(&env_x());
    let (stage, action) = step(stage, Event::HeadersEvaluated(Err("timed out".to_string())));
    assert!(matches!(stage, Stage::Finished));
    assert!(matches!(action, Action::Abort(CurlError::Script(ScriptKind::Headers, _))));
}

#[test]
fn invocation_stops_on_bad_shape_and_transport_failure() {
    let c = config("GET", "https://example.com/{x}", "h", "b");
    let (stage, _) = c.start(&env_x());
    let (stage, _) = step(stage, Event::HeadersEvaluated(Ok(str_value("no"))));
    let (stage, action) = step(stage, Event::BodyEvaluated(Ok(ScriptValue::Null)));
    assert!(matches!(stage, Stage::Finished));
    assert!(matches!(action, Action::Abort(CurlError::HeadersNotObject)));

    let (stage, _) = c.start(&env_x());
    let (stage, _) = step(stage, Event::HeadersEvaluated(Ok(headers_object(vec![]))));
    let (stage, _) = step(stage, Event::BodyEvaluated(Ok(ScriptValue::Null)));
    let (_, action) = step(stage, Event::Responded(Err("connection refused".to_string())));
    match action {
        Action::Abort(CurlError::Transport(c)) => assert_eq!(c, "connection refused"),
        other => panic!("unexpected {:?}", other),
    }
}

#[test]
fn invocation_fails_early_on_template() {
    let c = config("GET", "https://example.com/{nope}", "h", "b");
    let (stage, action) = c.start(&env_x());
    assert!(matches!(stage, Stage::Finished));
    assert!(matches!(action, Action::Abort(CurlError::Template(_, _))));
}

#[test]
fn error_messages_name_what_failed() {
    assert_eq!(
        CurlError::MissingField(Field::HeadersCode).to_error().error,
        "Missing required `headers_code` in `curl` block"
    );
    assert_eq!(
        CurlError::UnexpectedField("timeout".to_string()).message(),
        "Unexpected `timeout` in `curl` block"
    );
    assert_eq!(
        CurlError::InvalidMethod("DELETE".to_string()).message(),
        "Invalid method DELETE, supported methods are GET, POST, PUT, PATCH."
    );
    assert_eq!(
        CurlError::Script(ScriptKind::Headers, "timed out".to_string()).message(),
        "Error in headers code: timed out"
    );
    assert_eq!(
        CurlError::Template("url".to_string(), TemplateFailure::UnknownVariable("y".to_string()))
            .message(),
        "Template error in `url`: unknown variable `y`"
    );
    assert_eq!(
        CurlError::HeaderValueNotString("B".to_string()).message(),
        "Header value for header B must be a string"
    );
    assert_eq!(CurlError::BodyShape.message(), "Returned body must be either a string or null.");
    assert_eq!(CurlError::Transport("refused".to_string()).message(), "Request failed: refused");
    assert_eq!(Field::Url.key(), "url");
}
