use worker_streams::Error;

fn json_failure(input: &str) -> serde_json::Error {
    match serde_json::from_str::<serde_json::Value>(input) {
        Ok(_) => panic!("the input parsed"),
        Err(e) => e,
    }
}

#[test]
fn renders_kinds_without_context() {
    assert_eq!(Error::BadEncoding.to_string(), "content-type mismatch");
    assert_eq!(Error::BodyUsed.to_string(), "body has already been read");
    assert_eq!(
        Error::RouteNoDataError.to_string(),
        "route has no corresponding shared data"
    );
}

#[test]
fn renders_json_with_status() {
    let e = Error::Json("not found".to_string(), 404);
    assert_eq!(e.to_string(), "not found (status: 404)");
    let e = Error::Json(String::new(), 0);
    assert_eq!(e.to_string(), " (status: 0)");
    let e = Error::Json("x".to_string(), u16::MAX);
    assert_eq!(e.to_string(), "x (status: 65535)");
}

#[test]
fn renders_js_error() {
    let e = Error::JsError("TypeError: x is not a function".to_string());
    assert_eq!(e.to_string(), "Javascript error: TypeError: x is not a function");
}

#[test]
fn renders_binding_error() {
    let e = Error::BindingError("KV".to_string());
    assert_eq!(e.to_string(), "no binding found for `KV`");
}

#[test]
fn renders_invalid_status_code() {
    assert_eq!(Error::InvalidStatusCode(99).to_string(), "invalid status code: 99");
    assert_eq!(Error::InvalidStatusCode(1000).to_string(), "invalid status code: 1000");
    assert_eq!(Error::InvalidStatusCode(0).to_string(), "invalid status code: 0");
}

#[test]
fn renders_route_insert_error() {
    let e = Error::RouteInsertError(matchit::InsertError::TooManyParams);
    assert_eq!(
        e.to_string(),
        "failed to insert route: only one parameter is allowed per path segment"
    );
    let e = Error::RouteInsertError(matchit::InsertError::Conflict { with: "/a/:b".to_string() });
    assert_eq!(
        e.to_string(),
        "failed to insert route: insertion failed due to conflict with previously registered route: /a/:b"
    );
}

#[test]
fn renders_route_insert_error_from_a_router() {
    let mut node = matchit::Node::new();
    assert!(node.insert("/home", 1).is_ok());
    let failure = match node.insert("/home", 2) {
        Ok(()) => panic!("the second insertion passed"),
        Err(e) => e,
    };
    let text = failure.to_string();
    let e = Error::from(failure);
    assert!(matches!(e, Error::RouteInsertError(_)));
    assert_eq!(e.to_string(), format!("failed to insert route: {}", text));
}

#[test]
fn renders_rust_error() {
    let e = Error::RustError("boom".to_string());
    assert_eq!(e.to_string(), "Serde Error: boom");
}

#[test]
fn renders_serde_json_error() {
    let e = Error::SerdeJsonError("expected value at line 1 column 1".to_string());
    assert_eq!(e.to_string(), "Serde Error: expected value at line 1 column 1");
}

#[test]
fn renders_serde_wasm_bindgen_error() {
    let e = Error::SerdeWasmBindgenError("invalid type".to_string());
    assert_eq!(e.to_string(), "Serde WASM bindgen Error: invalid type");
}

#[test]
fn renders_kv_error() {
    let e = Error::KvError("store unavailable".to_string());
    assert_eq!(e.to_string(), "Kv Error: store unavailable");
}

#[test]
fn renders_url_parse_error() {
    let e = Error::UrlParseError(url::ParseError::EmptyHost);
    assert_eq!(e.to_string(), "url parse error: empty host");
    let e = Error::UrlParseError(url::ParseError::RelativeUrlWithoutBase);
    assert_eq!(e.to_string(), "url parse error: relative URL without a base");
}

#[test]
fn from_str_is_a_rust_error() {
    let e = Error::from("plain");
    assert!(matches!(&e, Error::RustError(m) if m == "plain"));
    assert_eq!(e.to_string(), "Serde Error: plain");
    let e: Error = "".into();
    assert!(matches!(&e, Error::RustError(m) if m.is_empty()));
}

#[test]
fn from_string_is_a_rust_error() {
    let e = Error::from(String::from("owned"));
    assert!(matches!(&e, Error::RustError(m) if m == "owned"));
    let e: Error = String::from("into").into();
    assert!(matches!(&e, Error::RustError(m) if m == "into"));
}

#[test]
fn from_insert_error_keeps_the_error() {
    let e = Error::from(matchit::InsertError::UnnamedParam);
    assert!(matches!(e, Error::RouteInsertError(matchit::InsertError::UnnamedParam)));
    let e = Error::from(matchit::InsertError::Conflict { with: "/x".to_string() });
    assert!(
        matches!(&e, Error::RouteInsertError(matchit::InsertError::Conflict { with }) if with == "/x")
    );
}

#[test]
fn from_url_parse_error_keeps_the_error() {
    let failure = match url::Url::parse("no scheme") {
        Ok(_) => panic!("the input parsed"),
        Err(e) => e,
    };
    assert_eq!(failure, url::ParseError::RelativeUrlWithoutBase);
    let e = Error::from(failure);
    assert!(matches!(e, Error::UrlParseError(url::ParseError::RelativeUrlWithoutBase)));
    let e: Error = url::ParseError::InvalidPort.into();
    assert!(matches!(e, Error::UrlParseError(url::ParseError::InvalidPort)));
    assert_eq!(e.to_string(), "url parse error: invalid port number");
}

#[test]
fn from_json_error_holds_its_message() {
    let text = json_failure("{").to_string();
    assert_eq!(text, "EOF while parsing an object at line 1 column 1");
    let e = Error::from(json_failure("{"));
    assert!(matches!(&e, Error::SerdeJsonError(m) if *m == text));
    assert_eq!(e.to_string(), "Serde Error: EOF while parsing an object at line 1 column 1");
    let text = json_failure("[1,").to_string();
    let e: Error = json_failure("[1,").into();
    assert!(matches!(&e, Error::SerdeJsonError(m) if *m == text));
    assert_ne!(text, "EOF while parsing an object at line 1 column 1");
}

fn one_of_each() -> Vec<Error> {
    vec![
        Error::BadEncoding,
        Error::BodyUsed,
        Error::Json(String::new(), 500),
        Error::JsError(String::new()),
        Error::BindingError(String::new()),
        Error::RouteNoDataError,
        Error::InvalidStatusCode(0),
        Error::RouteInsertError(matchit::InsertError::MalformedPath),
        Error::RustError(String::new()),
        Error::SerdeJsonError(String::new()),
        Error::SerdeWasmBindgenError(String::new()),
        Error::KvError(String::new()),
        Error::UrlParseError(url::ParseError::Overflow),
    ]
}

#[test]
fn every_kind_renders_some_text() {
    for e in one_of_each() {
        assert!(!e.to_string().is_empty(), "{:?}", e);
    }
}

#[test]
fn rendering_twice_gives_the_same_text() {
    for e in one_of_each() {
        assert_eq!(e.to_string(), e.to_string());
    }
    let a = one_of_each();
    let b = one_of_each();
    for (x, y) in a.iter().zip(b.iter()) {
        assert_eq!(x.to_string(), y.to_string());
    }
}

#[test]
fn rendering_with_empty_context_keeps_the_template() {
    assert_eq!(Error::Json(String::new(), 500).to_string(), " (status: 500)");
    assert_eq!(Error::JsError(String::new()).to_string(), "Javascript error: ");
    assert_eq!(Error::BindingError(String::new()).to_string(), "no binding found for ``");
    assert_eq!(Error::RustError(String::new()).to_string(), "Serde Error: ");
    assert_eq!(Error::KvError(String::new()).to_string(), "Kv Error: ");
    assert_eq!(
        Error::SerdeWasmBindgenError(String::new()).to_string(),
        "Serde WASM bindgen Error: "
    );
    assert_eq!(
        Error::RouteInsertError(matchit::InsertError::MalformedPath).to_string(),
        "failed to insert route: malformed path"
    );
}

#[test]
fn host_text_makes_a_js_error() {
    let e = Error::from_js_text("Error: boom".to_string());
    assert!(matches!(&e, Error::JsError(m) if m == "Error: boom"));
    assert_eq!(e.to_string(), "Javascript error: Error: boom");
}

#[test]
fn conversion_text_makes_a_serde_wasm_bindgen_error() {
    let e = Error::from_serde_wasm_bindgen_text("Error: invalid type".to_string());
    assert!(matches!(&e, Error::SerdeWasmBindgenError(m) if m == "Error: invalid type"));
    assert_eq!(e.to_string(), "Serde WASM bindgen Error: Error: invalid type");
}

#[test]
fn store_text_makes_a_kv_error() {
    let e = Error::from_kv_text("invalid kv store: X".to_string());
    assert!(matches!(&e, Error::KvError(m) if m == "invalid kv store: X"));
    assert_eq!(e.to_string(), "Kv Error: invalid kv store: X");
}
