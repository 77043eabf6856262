//! Header names and status numbers as the `http` crate defines them.
//!
//! Nothing here is proved: each function hands out one constant of `http`, and
//! its contract repeats what the crate's tables of standard headers and status
//! codes say of that constant. `HeaderName::as_str` always gives the name in
//! lower case.

use vstd::prelude::*;

verus! {

/// `http::header::ORIGIN`, whose `as_str` is `origin`.
#[verifier::external_body]
pub(crate) fn origin() -> (name: String)
    ensures
        name@ == "origin"@,
{
    http::header::ORIGIN.as_str().to_string()
}

/// `http::header::ACCESS_CONTROL_REQUEST_METHOD`, whose `as_str` is
/// `access-control-request-method`.
#[verifier::external_body]
pub(crate) fn access_control_request_method() -> (name: String)
    ensures
        name@ == "access-control-request-method"@,
{
    http::header::ACCESS_CONTROL_REQUEST_METHOD.as_str().to_string()
}

/// `http::header::ACCESS_CONTROL_ALLOW_ORIGIN`, whose `as_str` is
/// `access-control-allow-origin`.
#[verifier::external_body]
pub(crate) fn access_control_allow_origin() -> (name: String)
    ensures
        name@ == "access-control-allow-origin"@,
{
    http::header::ACCESS_CONTROL_ALLOW_ORIGIN.as_str().to_string()
}

/// `http::header::ACCESS_CONTROL_ALLOW_CREDENTIALS`, whose `as_str` is
/// `access-control-allow-credentials`.
#[verifier::external_body]
pub(crate) fn access_control_allow_credentials() -> (name: String)
    ensures
        name@ == "access-control-allow-credentials"@,
{
    http::header::ACCESS_CONTROL_ALLOW_CREDENTIALS.as_str().to_string()
}

/// `http::header::ACCESS_CONTROL_ALLOW_METHODS`, whose `as_str` is
/// `access-control-allow-methods`.
#[verifier::external_body]
pub(crate) fn access_control_allow_methods() -> (name: String)
    ensures
        name@ == "access-control-allow-methods"@,
{
    http::header::ACCESS_CONTROL_ALLOW_METHODS.as_str().to_string()
}

/// `http::header::ACCESS_CONTROL_ALLOW_HEADERS`, whose `as_str` is
/// `access-control-allow-headers`.
#[verifier::external_body]
pub(crate) fn access_control_allow_headers() -> (name: String)
    ensures
        name@ == "access-control-allow-headers"@,
{
    http::header::ACCESS_CONTROL_ALLOW_HEADERS.as_str().to_string()
}

/// `http::header::ACCESS_CONTROL_MAX_AGE`, whose `as_str` is
/// `access-control-max-age`.
#[verifier::external_body]
pub(crate) fn access_control_max_age() -> (name: String)
    ensures
        name@ == "access-control-max-age"@,
{
    http::header::ACCESS_CONTROL_MAX_AGE.as_str().to_string()
}

/// `http::header::VARY`, whose `as_str` is `vary`.
#[verifier::external_body]
pub(crate) fn vary() -> (name: String)
    ensures
        name@ == "vary"@,
{
    http::header::VARY.as_str().to_string()
}

/// `http::StatusCode::NO_CONTENT`, whose `as_u16` is 204.
#[verifier::external_body]
pub(crate) fn no_content() -> (code: u16)
    ensures
        code == 204,
{
    http::StatusCode::NO_CONTENT.as_u16()
}

/// `http::header::SET_COOKIE`, whose `as_str` is `set-cookie`.
#[verifier::external_body]
pub(crate) fn set_cookie() -> (name: String)
    ensures
        name@ == "set-cookie"@,
{
    http::header::SET_COOKIE.as_str().to_string()
}

/// `http::header::LOCATION`, whose `as_str` is `location`.
#[verifier::external_body]
pub(crate) fn location() -> (name: String)
    ensures
        name@ == "location"@,
{
    http::header::LOCATION.as_str().to_string()
}

/// `http::header::CONTENT_TYPE`, whose `as_str` is `content-type`.
#[verifier::external_body]
pub(crate) fn content_type() -> (name: String)
    ensures
        name@ == "content-type"@,
{
    http::header::CONTENT_TYPE.as_str().to_string()
}

/// `http::StatusCode::TEMPORARY_REDIRECT`, whose `as_u16` is 307.
#[verifier::external_body]
pub(crate) fn temporary_redirect() -> (code: u16)
    ensures
        code == 307,
{
    http::StatusCode::TEMPORARY_REDIRECT.as_u16()
}

/// `http::StatusCode::PERMANENT_REDIRECT`, whose `as_u16` is 308.
#[verifier::external_body]
pub(crate) fn permanent_redirect() -> (code: u16)
    ensures
        code == 308,
{
    http::StatusCode::PERMANENT_REDIRECT.as_u16()
}

/// `http::StatusCode::BAD_REQUEST`, whose `as_u16` is 400.
#[verifier::external_body]
pub(crate) fn bad_request() -> (code: u16)
    ensures
        code == 400,
{
    http::StatusCode::BAD_REQUEST.as_u16()
}

/// `http::StatusCode::NOT_FOUND`, whose `as_u16` is 404.
#[verifier::external_body]
pub(crate) fn not_found() -> (code: u16)
    ensures
        code == 404,
{
    http::StatusCode::NOT_FOUND.as_u16()
}

/// `http::StatusCode::METHOD_NOT_ALLOWED`, whose `as_u16` is 405.
#[verifier::external_body]
pub(crate) fn method_not_allowed() -> (code: u16)
    ensures
        code == 405,
{
    http::StatusCode::METHOD_NOT_ALLOWED.as_u16()
}

/// `http::StatusCode::INTERNAL_SERVER_ERROR`, whose `as_u16` is 500.
#[verifier::external_body]
pub(crate) fn internal_server_error() -> (code: u16)
    ensures
        code == 500,
{
    http::StatusCode::INTERNAL_SERVER_ERROR.as_u16()
}

} // verus!
