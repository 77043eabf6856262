use spin_contrib_http::cors::{
    build_cors_headers, CorsConfig, CorsResponseBuilder, ALL_HEADERS, ALL_METHODS, ALL_ORIGINS,
};
use spin_contrib_http::request::{Contrib, Method, Request};
use spin_contrib_http::response::Response;

fn pair(name: &str, value: &str) -> (String, String) {
    (name.to_string(), value.to_string())
}

fn request_from(method: Method, origin: &str) -> Request {
    Request::new(method, vec![pair(http::header::ORIGIN.as_str(), origin)])
}

#[test]
fn vary_header_should_be_set_when_origins_are_set_explicitly() {
    let req = request_from(Method::Post, "http://localhost:4005");

    let test_data = vec![
        "http://localhost:4000",
        "http://localhost:4000,http://localhost:4005",
    ];

    for td in test_data {
        let cfg = CorsConfig {
            allowed_origins: td.to_string(),
            allowed_headers: ALL_HEADERS.to_string(),
            allowed_methods: ALL_METHODS.to_string(),
            allow_credentials: true,
            max_age: None,
        };
        let request_origin = req.get_header_value_as_string(http::header::ORIGIN.as_str());
        let sut = Response::new(200, Vec::new()).build_with_cors(&req.method, request_origin, &cfg);

        let vary_header = sut.header(http::header::VARY.as_str());
        assert_eq!(vary_header.is_some(), true);
        assert_eq!(vary_header.unwrap().as_str(), "Origin");
    }
}

#[test]
fn vary_header_should_not_be_set_if_all_origins_are_allowed() {
    let req = request_from(Method::Get, "http://bar.baz");

    let cfg = CorsConfig {
        allowed_origins: ALL_ORIGINS.to_string(),
        allowed_headers: ALL_HEADERS.to_string(),
        allowed_methods: ALL_METHODS.to_string(),
        allow_credentials: true,
        max_age: None,
    };

    let request_origin = req.get_header_value_as_string(http::header::ORIGIN.as_str());
    let sut = Response::new(200, Vec::new()).build_with_cors(&req.method, request_origin, &cfg);

    let vary_header = sut.header(http::header::VARY.as_str());
    assert_eq!(vary_header.is_none(), true);
}

#[test]
fn responsebuilder_builder_with_cors_sets_origins() {
    let allowed_origins = "http://localhost:3000,http://localhost:4200";
    let expected = "http://localhost:4200";

    let req = request_from(Method::Get, expected);

    let cfg = CorsConfig {
        allowed_origins: allowed_origins.to_string(),
        allowed_methods: ALL_METHODS.to_string(),
        allowed_headers: ALL_HEADERS.to_string(),
        allow_credentials: true,
        max_age: None,
    };
    let request_origin = req.get_header_value_as_string(http::header::ORIGIN.as_str());
    let sut = Response::new(200, Vec::new()).build_with_cors(&req.method, request_origin, &cfg);

    let actual = sut
        .header(http::header::ACCESS_CONTROL_ALLOW_ORIGIN.as_str())
        .unwrap()
        .as_str();
    assert_eq!(actual, expected);
}

#[test]
fn builder_with_cors_should_not_set_cors_headers_for_invalid_origin() {
    let allowed_origins = "http://localhost:3000,http://localhost:4200";
    let expected = "http://localhost:8080";

    let req = request_from(Method::Get, expected);

    let cfg = CorsConfig {
        allowed_origins: allowed_origins.to_string(),
        allowed_methods: ALL_METHODS.to_string(),
        allowed_headers: ALL_HEADERS.to_string(),
        allow_credentials: true,
        max_age: None,
    };
    let request_origin = req.get_header_value_as_string(http::header::ORIGIN.as_str());
    let sut = Response::new(200, Vec::new()).build_with_cors(&req.method, request_origin, &cfg);
    assert_eq!(
        sut.header(http::header::ACCESS_CONTROL_ALLOW_ORIGIN.as_str())
            .is_none(),
        true
    );
    assert_eq!(
        sut.header(http::header::ACCESS_CONTROL_ALLOW_CREDENTIALS.as_str())
            .is_none(),
        true
    );
}

#[test]
fn requests_should_contain_origin_and_credentials() {
    let cfg = CorsConfig::new(
        "http://localhost:4200".to_string(),
        "POST".to_string(),
        ALL_HEADERS.to_string(),
        true,
        Some(300),
    );
    let req = request_from(Method::Get, "http://localhost:4200");

    let request_origin = req.get_header_value_as_string(http::header::ORIGIN.as_str());
    let sut = Response::new(200, Vec::new()).build_with_cors(&req.method, request_origin, &cfg);

    assert_eq!(
        sut.header(http::header::ACCESS_CONTROL_ALLOW_ORIGIN.as_str())
            .is_some(),
        true
    );
    assert_eq!(
        sut.header(http::header::ACCESS_CONTROL_ALLOW_CREDENTIALS.as_str())
            .is_some(),
        true
    );
}

#[test]
fn requests_without_origin_header_should_not_respond_with_cors_headers() {
    let req = Request::new(Method::Get, Vec::new());

    let cfg = CorsConfig::new(
        "http://localhost:4200".to_string(),
        "POST".to_string(),
        ALL_HEADERS.to_string(),
        true,
        Some(300),
    );
    let request_origin = req.get_header_value_as_string(http::header::ORIGIN.as_str());
    let sut = Response::new(200, Vec::new()).build_with_cors(&req.method, request_origin, &cfg);

    assert_eq!(
        sut.header(http::header::ACCESS_CONTROL_ALLOW_ORIGIN.as_str())
            .is_none(),
        true
    );
    assert_eq!(
        sut.header(http::header::ACCESS_CONTROL_ALLOW_CREDENTIALS.as_str())
            .is_none(),
        true
    );
}

fn policy(origins: &str, credentials: bool, max_age: Option<u32>) -> CorsConfig {
    CorsConfig::new(
        origins.to_string(),
        "GET, post".to_string(),
        "Content-Type, X-Token".to_string(),
        credentials,
        max_age,
    )
}

#[test]
fn simple_request_from_a_listed_origin() {
    let cfg = policy("http://x.com,http://y.com", false, Some(60));
    let headers = build_cors_headers(&Method::Get, "http://y.com".to_string(), &cfg);
    assert_eq!(
        headers,
        vec![
            pair("access-control-allow-origin", "http://y.com"),
            pair("access-control-allow-credentials", "false"),
            pair("vary", "Origin"),
        ]
    );
}

#[test]
fn preflight_from_a_listed_origin() {
    let cfg = policy("http://x.com,http://y.com", true, Some(60));
    let headers = build_cors_headers(&Method::Options, "http://y.com".to_string(), &cfg);
    assert_eq!(
        headers,
        vec![
            pair("access-control-allow-origin", "http://y.com"),
            pair("access-control-allow-credentials", "true"),
            pair("vary", "Origin"),
            pair("access-control-max-age", "60"),
            pair("access-control-allow-methods", "GET,POST"),
            pair("access-control-allow-headers", "Content-Type, X-Token"),
        ]
    );
}

#[test]
fn preflight_without_a_cache_lifetime() {
    let cfg = policy("*", true, None);
    let headers = build_cors_headers(&Method::Options, "http://y.com".to_string(), &cfg);
    assert_eq!(
        headers,
        vec![
            pair("access-control-allow-origin", "http://y.com"),
            pair("access-control-allow-credentials", "true"),
            pair("access-control-allow-methods", "GET,POST"),
            pair("access-control-allow-headers", "Content-Type, X-Token"),
        ]
    );
}

#[test]
fn preflight_from_an_origin_that_is_not_listed() {
    let cfg = policy("http://x.com", true, Some(5));
    let headers = build_cors_headers(&Method::Options, "http://y.com".to_string(), &cfg);
    assert_eq!(
        headers,
        vec![
            pair("vary", "Origin"),
            pair("access-control-max-age", "5"),
            pair("access-control-allow-methods", "GET,POST"),
            pair("access-control-allow-headers", "Content-Type, X-Token"),
        ]
    );
}

#[test]
fn request_without_origin_gets_no_header() {
    for origins in ["*", "null", "http://x.com"] {
        for method in [Method::Get, Method::Options, Method::Other("PURGE".to_string())] {
            let cfg = policy(origins, true, Some(5));
            assert!(build_cors_headers(&method, String::new(), &cfg).is_empty());
        }
    }
}

#[test]
fn vary_is_sent_for_listed_origins_and_for_no_others() {
    let cases = [
        ("*", false),
        ("null", false),
        ("NULL", false),
        ("http://x.com", true),
        ("http://x.com,http://y.com", true),
        (" * ", true),
        ("nil", true),
    ];
    for (origins, expected) in cases {
        for origin in ["http://x.com", "http://z.com"] {
            for method in [Method::Get, Method::Options] {
                let cfg = CorsConfig {
                    allowed_origins: origins.to_string(),
                    allowed_methods: "GET".to_string(),
                    allowed_headers: "*".to_string(),
                    allow_credentials: false,
                    max_age: None,
                };
                let headers = build_cors_headers(&method, origin.to_string(), &cfg);
                let vary = headers.contains(&pair("vary", "Origin"));
                assert_eq!(vary, expected, "origins {:?}, origin {:?}", origins, origin);
                assert_eq!(headers.iter().filter(|h| h.0 == "vary").count(), usize::from(expected));
            }
        }
    }
}

#[test]
fn policy_without_origins_sends_no_vary() {
    let cfg = CorsConfig {
        allowed_origins: String::new(),
        allowed_methods: "GET".to_string(),
        allowed_headers: "*".to_string(),
        allow_credentials: false,
        max_age: None,
    };
    assert!(build_cors_headers(&Method::Get, "http://x.com".to_string(), &cfg).is_empty());
}

#[test]
fn assembling_twice_gives_the_same_headers() {
    let cfg = policy("http://x.com,http://y.com", true, Some(300));
    for method in [Method::Get, Method::Options] {
        for origin in ["", "http://x.com", "http://z.com"] {
            let first = build_cors_headers(&method, origin.to_string(), &cfg);
            let second = build_cors_headers(&method, origin.to_string(), &cfg);
            assert_eq!(first, second);
        }
    }
}

#[test]
fn cache_lifetime_is_written_in_decimal() {
    let cases = [(0u32, "0"), (7, "7"), (10, "10"), (300, "300"), (u32::MAX, "4294967295")];
    for (seconds, text) in cases {
        let cfg = policy("*", false, Some(seconds));
        let headers = build_cors_headers(&Method::Options, "http://y.com".to_string(), &cfg);
        assert_eq!(headers[2], pair("access-control-max-age", text));
    }
}

#[test]
fn header_names_are_those_of_the_http_crate() {
    let cfg = policy("http://y.com", true, Some(1));
    let headers = build_cors_headers(&Method::Options, "http://y.com".to_string(), &cfg);
    let names: Vec<&str> = headers.iter().map(|h| h.0.as_str()).collect();
    assert_eq!(
        names,
        vec![
            http::header::ACCESS_CONTROL_ALLOW_ORIGIN.as_str(),
            http::header::ACCESS_CONTROL_ALLOW_CREDENTIALS.as_str(),
            http::header::VARY.as_str(),
            http::header::ACCESS_CONTROL_MAX_AGE.as_str(),
            http::header::ACCESS_CONTROL_ALLOW_METHODS.as_str(),
            http::header::ACCESS_CONTROL_ALLOW_HEADERS.as_str(),
        ]
    );
}

#[test]
fn rejected_origin_is_answered_with_403() {
    let cfg = policy("http://x.com", true, None);
    let app = Response {
        status: 200,
        headers: vec![pair("content-type", "text/plain")],
        body: b"hello".to_vec(),
    };
    let sut = app.build_with_cors(&Method::Get, "http://y.com".to_string(), &cfg);
    assert_eq!(sut.status, 403);
    assert!(sut.body.is_empty());
    assert_eq!(sut.headers, vec![pair("vary", "Origin")]);
}

#[test]
fn rejected_origin_under_null_policy_gets_no_header() {
    let cfg = policy("null", true, None);
    let sut = Response::new(200, b"hello".to_vec()).build_with_cors(
        &Method::Get,
        "http://y.com".to_string(),
        &cfg,
    );
    assert_eq!(sut.status, 403);
    assert!(sut.body.is_empty());
    assert!(sut.headers.is_empty());
}

#[test]
fn admitted_origin_keeps_the_response_and_adds_the_headers() {
    let cfg = policy("http://x.com", true, None);
    let app = Response {
        status: 201,
        headers: vec![pair("content-type", "text/plain")],
        body: b"hello".to_vec(),
    };
    let sut = app.build_with_cors(&Method::Post, "http://x.com".to_string(), &cfg);
    assert_eq!(sut.status, 201);
    assert_eq!(sut.body, b"hello".to_vec());
    assert_eq!(
        sut.headers,
        vec![
            pair("content-type", "text/plain"),
            pair("access-control-allow-origin", "http://x.com"),
            pair("access-control-allow-credentials", "true"),
            pair("vary", "Origin"),
        ]
    );
}

#[test]
fn request_without_origin_keeps_the_response_as_it_is() {
    let cfg = policy("http://x.com", true, None);
    let app = Response {
        status: 500,
        headers: vec![pair("content-type", "text/plain")],
        body: b"oops".to_vec(),
    };
    let sut = app.clone().build_with_cors(&Method::Options, String::new(), &cfg);
    assert_eq!(sut, app);
}
