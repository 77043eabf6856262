//! A framework-independent view of an incoming HTTP request.

use vstd::prelude::*;
use vstd::string::StrSliceExecFns;
use crate::headers::{find_header, header_text, header_value, header_views};
use crate::text::{
    lemma_split_nonempty, same_chars, split, split_ranges, stretches, to_chars, trim, trimmed,
};
use crate::wire;

verus! {

/// An HTTP request method.
#[derive(Debug, Clone, PartialEq, Eq)]
pub enum Method {
    /// The GET method.
    Get,
    /// The HEAD method.
    Head,
    /// The POST method.
    Post,
    /// The PUT method.
    Put,
    /// The DELETE method.
    Delete,
    /// The CONNECT method.
    Connect,
    /// The OPTIONS method.
    Options,
    /// The TRACE method.
    Trace,
    /// The PATCH method.
    Patch,
    /// Any other method, by its token.
    Other(String),
}

impl Method {
    /// Whether this is the OPTIONS method.
    pub fn is_options(&self) -> (r: bool)
        ensures
            r == (self is Options),
    {
        match self {
            Method::Options => true,
            _ => false,
        }
    }
}

/// What the library reads of a request: its method and its headers, each a
/// name and a value.
#[derive(Debug, Clone)]
pub struct Request {
    /// The request method.
    pub method: Method,
    /// The request headers, in the order in which they arrived.
    pub headers: Vec<(String, String)>,
}

impl Request {
    /// A request with the given method and headers.
    pub fn new(method: Method, headers: Vec<(String, String)>) -> (req: Request)
        ensures
            req.method == method,
            req.headers == headers,
    {
        Request { method, headers }
    }

    /// The value of the header called `name`, compared without regard to the
    /// case of ASCII letters; the first one if several carry the name.
    pub fn header(&self, name: &str) -> (value: Option<&String>)
        ensures
            match value {
                Some(v) => header_value(header_views(self.headers@), name@) == Some(v@),
                None => header_value(header_views(self.headers@), name@) is None,
            },
    {
        find_header(&self.headers, name)
    }
}

/// The header in which the host passes the path of the request below the
/// component's route.
pub const HEADER_SPIN_PATH_INFO: &'static str = "spin-path-info";

/// The segments of a path: what stands between its slashes, without the
/// piece before the first slash. A path that is blank or only `/` has none
/// to give.
pub open spec fn route_segments(path: Seq<char>) -> Option<Seq<Seq<char>>> {
    if trimmed(path).len() == 0 || path == "/"@ {
        None
    } else {
        Some(split(path, '/').drop_first())
    }
}

/// The character sequences of `strings`, in order.
pub open spec fn string_views(strings: Seq<&str>) -> Seq<Seq<char>> {
    strings.map_values(|s: &str| s@)
}

/// The segments of `path`, as [`route_segments`] defines them.
pub fn segments_of<'a>(path: &'a str) -> (segments: Option<Vec<&'a str>>)
    ensures
        match segments {
            Some(found) => route_segments(path@) == Some(string_views(found@)),
            None => route_segments(path@) is None,
        },
{
    let chars = to_chars(path);
    if trim(&chars).len() == 0 || same_chars(&chars, &to_chars("/")) {
        return None;
    }
    let ranges = split_ranges(&chars, '/');
    proof {
        lemma_split_nonempty(path@, '/');
    }
    let mut segments: Vec<&'a str> = Vec::new();
    let mut i: usize = 1;
    while i < ranges.len()
        invariant
            1 <= i <= ranges.len(),
            chars@ == path@,
            forall|k: int|
                0 <= k < ranges.len() ==> (#[trigger] ranges[k]).0 <= ranges[k].1 <= chars.len(),
            string_views(segments@) == stretches(path@, ranges@).subrange(1, i as int),
        decreases ranges.len() - i,
    {
        let (from, to) = ranges[i];
        let segment = path.substring_char(from, to);
        assert(stretches(path@, ranges@).subrange(1, i + 1) =~= stretches(
            path@,
            ranges@,
        ).subrange(1, i as int).push(segment@));
        segments.push(segment);
        i += 1;
    }
    assert(stretches(path@, ranges@).subrange(1, i as int) =~= split(path@, '/').drop_first());
    Some(segments)
}

/// What a handler asks of a request beyond its method and headers.
pub trait Contrib {
    /// The segments of the route below the component, if the request names
    /// any.
    fn get_route_segments(&self) -> Option<Vec<&str>>;

    /// Whether the request is a CORS preflight.
    fn is_preflight_request(&self) -> bool;

    /// The value of a header, or the empty string where the request does not
    /// carry it.
    fn get_header_value_as_string(&self, header_name: &str) -> String;
}

impl Contrib for Request {
    fn get_route_segments(&self) -> (segments: Option<Vec<&str>>)
        ensures
            match header_value(header_views(self.headers@), HEADER_SPIN_PATH_INFO@) {
                None => segments is None,
                Some(path) => match segments {
                    Some(found) => route_segments(path) == Some(string_views(found@)),
                    None => route_segments(path) is None,
                },
            },
    {
        match self.header(HEADER_SPIN_PATH_INFO) {
            None => None,
            Some(path) => segments_of(path.as_str()),
        }
    }

    fn is_preflight_request(&self) -> (r: bool)
        ensures
            r == (self.method is Options && header_value(
                header_views(self.headers@),
                "origin"@,
            ) is Some),
    {
        let name = wire::origin();
        self.method.is_options() && self.header(name.as_str()).is_some()
    }

    fn get_header_value_as_string(&self, header_name: &str) -> (value: String)
        ensures
            value@ == header_text(header_views(self.headers@), header_name@),
    {
        match self.header(header_name) {
            Some(value) => value.clone(),
            None => String::new(),
        }
    }
}

} // verus!
