use spin_contrib_http::cors::origin::resolve_origin;
use spin_contrib_http::cors::{
    assemble_headers, decide, with_cors_headers, CorsConfig, Decision, Preflight,
};
use spin_contrib_http::response::Response;

fn pair(name: &str, value: &str) -> (String, String) {
    (name.to_string(), value.to_string())
}

fn policy(origins: &str, methods: &str, max_age: Option<u32>) -> CorsConfig {
    CorsConfig::new(
        origins.to_string(),
        methods.to_string(),
        "X-One, X-Two".to_string(),
        true,
        max_age,
    )
}

fn decision(origin: bool, value: &str, method: bool, vary: bool) -> Decision {
    Decision {
        origin_permitted: origin,
        resolved_origin_header_value: value.to_string(),
        method_permitted: method,
        vary_required: vary,
    }
}

#[test]
fn decision_holds_what_the_policy_says() {
    let listed = policy("http://x.com,http://y.com", "POST", None);
    assert_eq!(
        decide(&listed, "http://y.com", "POST"),
        decision(true, "http://y.com", true, true)
    );
    assert_eq!(decide(&listed, "http://y.com", "PUT"), decision(true, "http://y.com", false, true));
    assert_eq!(decide(&listed, "http://y.com", ""), decision(true, "http://y.com", false, true));
    assert_eq!(decide(&listed, "http://z.com", "POST"), decision(false, "null", true, true));
    assert_eq!(decide(&listed, "", "POST"), decision(false, "null", true, true));
    let any = policy("*", "*", None);
    assert_eq!(decide(&any, "http://z.com", "PURGE"), decision(true, "http://z.com", true, false));
    assert_eq!(decide(&any, "", ""), decision(false, "null", false, false));
    let nobody = policy("", "GET", None);
    assert_eq!(decide(&nobody, "http://z.com", "GET"), decision(false, "null", true, false));
}

#[test]
fn origin_is_judged_first() {
    assert_eq!(decision(false, "null", false, true).preflight(), Preflight::Forbidden);
    assert_eq!(decision(false, "null", true, true).preflight(), Preflight::Forbidden);
    assert_eq!(
        decision(true, "http://x.com", false, true).preflight(),
        Preflight::MethodNotAllowed
    );
    assert_eq!(decision(true, "http://x.com", true, false).preflight(), Preflight::Accepted);
}

#[test]
fn resolved_origin_is_the_origin_or_null() {
    assert_eq!(resolve_origin(true, "*", "http://x.com"), "http://x.com");
    assert_eq!(resolve_origin(true, "http://x.com", "http://x.com"), "http://x.com");
    assert_eq!(resolve_origin(true, "http://a.com, http://x.com", "http://x.com"), "http://x.com");
    assert_eq!(resolve_origin(true, "HTTP://X.COM", "http://x.com"), "null");
    assert_eq!(resolve_origin(true, "http://x.com", ""), "");
    assert_eq!(resolve_origin(false, "*", "http://x.com"), "null");
    assert_eq!(resolve_origin(false, "http://x.com", "http://x.com"), "null");
    assert_eq!(resolve_origin(false, "http://x.com", "x.com"), "null");
}

#[test]
fn headers_are_written_in_order() {
    let cfg = policy("http://x.com", "GET,POST", Some(300));
    assert_eq!(
        assemble_headers(&decision(true, "http://x.com", true, true), true, &cfg),
        vec![
            pair("access-control-allow-origin", "http://x.com"),
            pair("access-control-allow-credentials", "true"),
            pair("vary", "Origin"),
            pair("access-control-max-age", "300"),
            pair("access-control-allow-methods", "GET,POST"),
            pair("access-control-allow-headers", "X-One, X-Two"),
        ]
    );
    assert_eq!(
        assemble_headers(&decision(true, "http://x.com", false, false), false, &cfg),
        vec![
            pair("access-control-allow-origin", "http://x.com"),
            pair("access-control-allow-credentials", "true"),
        ]
    );
    assert_eq!(
        assemble_headers(&decision(false, "null", true, true), false, &cfg),
        vec![pair("vary", "Origin")]
    );
    assert!(assemble_headers(&decision(false, "null", true, false), false, &cfg).is_empty());
    let plain = CorsConfig::new(
        "*".to_string(),
        "*".to_string(),
        "*".to_string(),
        false,
        None,
    );
    assert_eq!(
        assemble_headers(&decision(true, "http://x.com", true, false), true, &plain),
        vec![
            pair("access-control-allow-origin", "http://x.com"),
            pair("access-control-allow-credentials", "false"),
            pair("access-control-allow-methods", "*"),
            pair("access-control-allow-headers", "*"),
        ]
    );
}

#[test]
fn rejection_replaces_the_response() {
    let app = Response {
        status: 200,
        headers: vec![pair("content-type", "text/plain")],
        body: b"hello".to_vec(),
    };
    let cors = vec![pair("vary", "Origin")];
    assert_eq!(
        with_cors_headers(app.clone(), true, cors.clone()),
        Response { status: 403, headers: cors.clone(), body: Vec::new() }
    );
    assert_eq!(
        with_cors_headers(app.clone(), false, cors),
        Response {
            status: 200,
            headers: vec![pair("content-type", "text/plain"), pair("vary", "Origin")],
            body: b"hello".to_vec(),
        }
    );
    assert_eq!(with_cors_headers(app.clone(), false, Vec::new()), app);
}
