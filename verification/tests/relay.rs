use owms_sys::json::Json;
use owms_sys::relay::{
    api_response_of, interpret_login_response, login_body, prepare_request, ApiRequestOptions,
    LoginResponse, Method, RelayError,
};

fn s(t: &str) -> String {
    t.to_string()
}

fn opts(method: &str) -> ApiRequestOptions {
    ApiRequestOptions { method: s(method), url: s("http://example.test/x"), headers: None, body: None }
}

#[test]
fn unsupported_method_fails_before_any_io() {
    for m in ["OPTIONS", "HEAD", "TRACE", "get ", "", "G ET", "GETS", "P0ST"] {
        let r = prepare_request(opts(m));
        match r {
            Err(RelayError::UnsupportedMethod(bad)) => assert_eq!(bad, m),
            _ => panic!("method {:?} should have been rejected", m),
        }
    }
}

#[test]
fn unsupported_method_message() {
    let r = prepare_request(opts("OPTIONS"));
    let e = r.err().unwrap();
    assert_eq!(e.message(), "Unsupported HTTP method: OPTIONS");
}

#[test]
fn methods_match_case_insensitively() {
    let cases = [
        ("GET", Method::Get),
        ("get", Method::Get),
        ("GeT", Method::Get),
        ("POST", Method::Post),
        ("post", Method::Post),
        ("PUT", Method::Put),
        ("pUt", Method::Put),
        ("DELETE", Method::Delete),
        ("delete", Method::Delete),
        ("PATCH", Method::Patch),
        ("PaTcH", Method::Patch),
    ];
    for (text, want) in cases {
        let p = prepare_request(opts(text)).expect("supported method");
        assert_eq!(p.method, want);
    }
}

#[test]
fn prepare_passes_url_headers_and_body_through() {
    let headers = vec![(s("Authorization"), s("Bearer t")), (s("X-Trace"), s("1"))];
    let body = Json::Arr(vec![Json::Bool(true), Json::Null]);
    let options = ApiRequestOptions {
        method: s("post"),
        url: s("https://api.example.test/items?q=1"),
        headers: Some(headers.clone()),
        body: Some(body),
    };
    let p = prepare_request(options).unwrap();
    assert_eq!(p.method, Method::Post);
    assert_eq!(p.url, "https://api.example.test/items?q=1");
    assert_eq!(p.headers, headers);
    assert_eq!(p.body, Some(Json::Arr(vec![Json::Bool(true), Json::Null])));
}

#[test]
fn prepare_without_headers_gives_none() {
    let p = prepare_request(opts("delete")).unwrap();
    assert!(p.headers.is_empty());
    assert_eq!(p.body, None);
}

#[test]
fn success_with_valid_json_round_trips() {
    let r = api_response_of(200, "{\"a\":1}");
    assert_eq!(r.status, 200);
    assert_eq!(r.status_text, "OK");
    assert_eq!(r.data, Json::Obj(vec![(s("a"), Json::Num(s("1")))]));
}

#[test]
fn success_round_trips_nested_documents() {
    let body = "[null,true,\"x\",[1.5,-2],{\"k\":\"v\"}]";
    let r = api_response_of(201, body);
    assert_eq!(r.status, 201);
    assert_eq!(r.status_text, "Created");
    assert_eq!(
        r.data,
        Json::Arr(vec![
            Json::Null,
            Json::Bool(true),
            Json::Str(s("x")),
            Json::Arr(vec![Json::Num(s("1.5")), Json::Num(s("-2"))]),
            Json::Obj(vec![(s("k"), Json::Str(s("v")))]),
        ])
    );
}

#[test]
fn success_with_invalid_json_degrades_to_null() {
    let r = api_response_of(200, "not json at all");
    assert_eq!(r.status, 200);
    assert_eq!(r.status_text, "OK");
    assert_eq!(r.data, Json::Null);
}

#[test]
fn failure_with_json_body_passes_the_body_through() {
    let r = api_response_of(500, "{\"error\":\"boom\"}");
    assert_eq!(r.status, 500);
    assert_eq!(r.status_text, "Internal Server Error");
    assert_eq!(r.data, Json::Obj(vec![(s("error"), Json::Str(s("boom")))]));
}

#[test]
fn failure_with_plain_text_wraps_it_as_a_message() {
    let r = api_response_of(404, "no such thing");
    assert_eq!(r.status, 404);
    assert_eq!(r.status_text, "Not Found");
    assert_eq!(r.data, Json::Obj(vec![(s("message"), Json::Str(s("no such thing")))]));
}

#[test]
fn failure_with_a_bare_json_value_passes_it_through() {
    let r = api_response_of(503, "3");
    assert_eq!(r.status, 503);
    assert_eq!(r.status_text, "Service Unavailable");
    assert_eq!(r.data, Json::Num(s("3")));
}

#[test]
fn unknown_status_gives_empty_status_text() {
    let r = api_response_of(599, "{}");
    assert_eq!(r.status, 599);
    assert_eq!(r.status_text, "");
    assert_eq!(r.data, Json::Obj(vec![]));
}

#[test]
fn login_on_401_fails_with_status_and_body() {
    let r = interpret_login_response(401, "{\"error\":\"bad credentials\"}");
    match r {
        Err(e @ RelayError::Http { status, .. }) => {
            assert_eq!(status, 401);
            let msg = e.message();
            assert!(msg.contains("401"));
            assert!(msg.contains("{\"error\":\"bad credentials\"}"));
            assert_eq!(msg, "HTTP 401: {\"error\":\"bad credentials\"}");
        }
        other => panic!("expected an HTTP error, got {:?}", other),
    }
}

#[test]
fn login_on_200_returns_token_and_user() {
    let r = interpret_login_response(200, "{\"accessToken\":\"abc\",\"user\":{\"id\":1}}");
    assert_eq!(
        r.unwrap(),
        LoginResponse {
            access_token: s("abc"),
            user: Json::Obj(vec![(s("id"), Json::Num(s("1")))]),
        }
    );
}

#[test]
fn login_with_unparseable_body_fails_with_parse() {
    let r = interpret_login_response(200, "not json");
    assert_eq!(r, Err(RelayError::Parse));
}

#[test]
fn login_with_missing_user_fails_with_parse() {
    let r = interpret_login_response(200, "{\"accessToken\":\"abc\"}");
    assert_eq!(r, Err(RelayError::Parse));
}

#[test]
fn login_with_non_string_token_fails_with_parse() {
    let r = interpret_login_response(200, "{\"accessToken\":7,\"user\":null}");
    assert_eq!(r, Err(RelayError::Parse));
}

#[test]
fn login_with_non_object_body_fails_with_parse() {
    let r = interpret_login_response(200, "[1,2]");
    assert_eq!(r, Err(RelayError::Parse));
}

#[test]
fn login_ignores_extra_members() {
    let r = interpret_login_response(299, "{\"accessToken\":\"t\",\"extra\":0,\"user\":\"u\"}");
    assert_eq!(
        r.unwrap(),
        LoginResponse { access_token: s("t"), user: Json::Str(s("u")) }
    );
}

#[test]
fn login_body_holds_both_fields() {
    let b = login_body("alice", "SECRET-REDACTED");
    assert_eq!(
        b,
        Json::Obj(vec![
            (s("userId"), Json::Str(s("alice"))),
            (s("password"), Json::Str(s("SECRET-REDACTED"))),
        ])
    );
}

#[test]
fn transport_error_message() {
    let e = RelayError::Transport(s("connection refused"));
    assert_eq!(e.message(), "Request failed: connection refused");
}

#[test]
fn parse_error_message() {
    assert_eq!(RelayError::Parse.message(), "Failed to parse response");
}

#[test]
fn http_error_message_renders_large_statuses() {
    let e = RelayError::Http { status: 65535, body: s("x") };
    assert_eq!(e.message(), "HTTP 65535: x");
    let e0 = RelayError::Http { status: 0, body: s("") };
    assert_eq!(e0.message(), "HTTP 0: ");
}
