//! A framework-independent description of an HTTP response, and the
//! responses that handlers give most often.

use vstd::prelude::*;
use crate::headers::{find_header, header_value, header_views};
use crate::wire;

verus! {

/// The content type of an error message for which none is given.
pub const CONTENT_TYPE_TEXT: &'static str = "text/plain";

/// What the library says of a response: its status, its headers in order,
/// and its body.
#[derive(Debug, Clone, PartialEq, Eq)]
pub struct Response {
    /// The status code.
    pub status: u16,
    /// The headers, each a name and a value.
    pub headers: Vec<(String, String)>,
    /// The body.
    pub body: Vec<u8>,
}

impl Response {
    /// A response with the given status and body, without headers.
    pub fn new(status: u16, body: Vec<u8>) -> (res: Response)
        ensures
            res.status == status,
            res.headers@.len() == 0,
            res.body == body,
    {
        Response { status, headers: Vec::new(), body }
    }

    /// The value of the header called `name`, compared without regard to the
    /// case of ASCII letters; the first one if several carry the name.
    pub fn header(&self, name: &str) -> (value: Option<&String>)
        ensures
            match value {
                Some(v) => header_value(header_views(self.headers@), name@) == Some(v@),
                None => header_value(header_views(self.headers@), name@) is None,
            },
    {
        find_header(&self.headers, name)
    }

    /// Whether the response has the given status, and neither headers nor a
    /// body.
    pub open spec fn is_bare(&self, status: u16) -> bool {
        &&& self.status == status
        &&& self.headers@.len() == 0
        &&& self.body@.len() == 0
    }
}

/// A response with the given status, without headers and without a body.
fn create_response(status: u16) -> (res: Response)
    ensures
        res.is_bare(status),
{
    Response { status, headers: Vec::new(), body: Vec::new() }
}

/// A redirect to `url`: 308 where it is permanent, else 307, with the target
/// in the `location` header.
pub fn redirect(url: &str, permanent: bool) -> (res: Response)
    ensures
        res.status == if permanent {
            308u16
        } else {
            307u16
        },
        header_views(res.headers@) == seq![("location"@, url@)],
        res.body@.len() == 0,
{
    let status = if permanent {
        wire::permanent_redirect()
    } else {
        wire::temporary_redirect()
    };
    let mut headers: Vec<(String, String)> = Vec::new();
    headers.push((wire::location(), url.to_owned()));
    assert(header_views(headers@) =~= seq![("location"@, url@)]);
    Response { status, headers, body: Vec::new() }
}

/// 400 Bad Request, without headers or body.
pub fn bad_request() -> (res: Response)
    ensures
        res.is_bare(400),
{
    create_response(wire::bad_request())
}

/// 204 No Content, without headers or body.
pub fn no_content() -> (res: Response)
    ensures
        res.is_bare(204),
{
    create_response(wire::no_content())
}

/// 404 Not Found, without headers or body.
pub fn not_found() -> (res: Response)
    ensures
        res.is_bare(404),
{
    create_response(wire::not_found())
}

/// 405 Method Not Allowed, without headers or body.
pub fn method_not_allowed() -> (res: Response)
    ensures
        res.is_bare(405),
{
    create_response(wire::method_not_allowed())
}

/// A response with the status `code`, without headers or body.
pub fn status_code(code: u16) -> (res: Response)
    ensures
        res.is_bare(code),
{
    create_response(code)
}

/// 500 Internal Server Error with the given message as its body, if there
/// is one, and its content type, `text/plain` where none is given.
pub fn internal_server_error(body: Option<Vec<u8>>, content_type: Option<&str>) -> (res: Response)
    ensures
        res.status == 500,
        header_views(res.headers@) == seq![
            (
                "content-type"@,
                match content_type {
                    Some(given) => given@,
                    None => CONTENT_TYPE_TEXT@,
                },
            ),
        ],
        res.body@ == match body {
            Some(bytes) => bytes@,
            None => Seq::<u8>::empty(),
        },
{
    let kind = match content_type {
        Some(given) => given,
        None => CONTENT_TYPE_TEXT,
    };
    let mut headers: Vec<(String, String)> = Vec::new();
    headers.push((wire::content_type(), kind.to_owned()));
    assert(header_views(headers@) =~= seq![("content-type"@, kind@)]);
    let body = match body {
        Some(bytes) => bytes,
        None => Vec::new(),
    };
    Response { status: wire::internal_server_error(), headers, body }
}

} // verus!
