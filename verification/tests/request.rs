use spin_contrib_http::request::{segments_of, Contrib, Method, Request, HEADER_SPIN_PATH_INFO};

fn pair(name: &str, value: &str) -> (String, String) {
    (name.to_string(), value.to_string())
}

#[test]
fn get_route_segments_should_return_provided_segments() {
    let req = Request::new(Method::Get, vec![pair(HEADER_SPIN_PATH_INFO, "/foo/bar/baz")]);
    let segments = req.get_route_segments();
    assert_eq!(segments.is_some(), true);
    let segments = segments.unwrap();
    assert_eq!(segments.len(), 3);
    assert_eq!(segments[0], "foo");
    assert_eq!(segments[1], "bar");
    assert_eq!(segments[2], "baz");
}

#[test]
fn get_route_segments_should_empty_vector_for_root_url() {
    let test_data = vec!["/", "", " "];
    for data in test_data {
        let req = Request::new(Method::Get, vec![pair(HEADER_SPIN_PATH_INFO, data)]);

        assert_eq!(req.get_route_segments(), None);
    }
}

#[test]
fn get_header_value_as_string_should_return_correct_values() {
    let test_data = vec![
        ("my-header", "foo", "my-header", "foo"),
        ("my-header", "", "my-header", ""),
        ("my-header", "foo", "my-other-header", ""),
        ("my-header", "", "my-other-header", ""),
    ];
    for data in test_data {
        let req = Request::new(Method::Get, vec![pair(data.0, data.1)]);

        assert_eq!(req.get_header_value_as_string(data.2), data.3);
    }
}

#[test]
fn route_segments_need_the_header() {
    let req = Request::new(Method::Get, vec![pair("other", "/foo")]);
    assert_eq!(req.get_route_segments(), None);
}

#[test]
fn segments_are_what_stands_between_the_slashes() {
    let strings = |v: &[&'static str]| Some(v.to_vec());
    assert_eq!(segments_of("/foo/bar/baz"), strings(&["foo", "bar", "baz"]));
    assert_eq!(segments_of("/foo"), strings(&["foo"]));
    assert_eq!(segments_of("/foo/"), strings(&["foo", ""]));
    assert_eq!(segments_of("//"), strings(&["", ""]));
    assert_eq!(segments_of("foo/bar"), strings(&["bar"]));
    assert_eq!(segments_of("foo"), strings(&[]));
    assert_eq!(segments_of(" / "), strings(&[" "]));
    assert_eq!(segments_of("/straße/日本/x"), strings(&["straße", "日本", "x"]));
    assert_eq!(segments_of("/"), None);
    assert_eq!(segments_of(""), None);
    assert_eq!(segments_of(" \t"), None);
}

#[test]
fn header_names_are_compared_without_regard_to_case() {
    let req = Request::new(
        Method::Get,
        vec![pair("Origin", "http://a.com"), pair("X-Other", "1"), pair("origin", "http://b.com")],
    );
    assert_eq!(req.header("origin").map(|v| v.as_str()), Some("http://a.com"));
    assert_eq!(req.header("ORIGIN").map(|v| v.as_str()), Some("http://a.com"));
    assert_eq!(req.header("x-other").map(|v| v.as_str()), Some("1"));
    assert_eq!(req.header("x-othe"), None);
    assert_eq!(req.header(""), None);
    assert_eq!(req.get_header_value_as_string("oRiGiN"), "http://a.com");
}

#[test]
fn preflight_is_options_with_an_origin() {
    let with_origin = vec![pair("origin", "http://a.com")];
    assert!(Request::new(Method::Options, with_origin.clone()).is_preflight_request());
    assert!(!Request::new(Method::Get, with_origin.clone()).is_preflight_request());
    let other = Method::Other("OPTIONS".to_string());
    assert!(!Request::new(other, with_origin).is_preflight_request());
    assert!(!Request::new(Method::Options, Vec::new()).is_preflight_request());
    assert!(Request::new(Method::Options, vec![pair("Origin", "")]).is_preflight_request());
}

#[test]
fn only_options_is_options() {
    assert!(Method::Options.is_options());
    for method in [
        Method::Get,
        Method::Head,
        Method::Post,
        Method::Put,
        Method::Delete,
        Method::Connect,
        Method::Trace,
        Method::Patch,
        Method::Other("options".to_string()),
    ] {
        assert!(!method.is_options());
    }
}
