//! Lists of headers, each a name and a value, and looking a header up by its
//! name.

use vstd::prelude::*;
use crate::text::{eq_ignoring_ascii_case, same_ignoring_ascii_case, to_chars};

verus! {

/// The characters of each header's name and value, in order.
pub open spec fn header_views(headers: Seq<(String, String)>) -> Seq<(Seq<char>, Seq<char>)> {
    headers.map_values(|h: (String, String)| (h.0@, h.1@))
}

/// The value of the first header whose name is `name` up to the case of ASCII
/// letters, if there is one.
pub open spec fn header_value(headers: Seq<(Seq<char>, Seq<char>)>, name: Seq<char>) -> Option<
    Seq<char>,
>
    decreases headers.len(),
{
    if headers.len() == 0 {
        None
    } else if same_ignoring_ascii_case(headers.first().0, name) {
        Some(headers.first().1)
    } else {
        header_value(headers.drop_first(), name)
    }
}

/// The value of the header called `name`, or the empty string where there is
/// no such header.
pub open spec fn header_text(headers: Seq<(Seq<char>, Seq<char>)>, name: Seq<char>) -> Seq<char> {
    match header_value(headers, name) {
        Some(value) => value,
        None => Seq::empty(),
    }
}

/// Looks up the header called `name`, compared without regard to the case of
/// ASCII letters; the first one if several carry the name.
pub fn find_header<'a>(headers: &'a Vec<(String, String)>, name: &str) -> (value: Option<
    &'a String,
>)
    ensures
        match value {
            Some(v) => header_value(header_views(headers@), name@) == Some(v@),
            None => header_value(header_views(headers@), name@) is None,
        },
{
    let wanted = to_chars(name);
    let mut i: usize = 0;
    assert(header_views(headers@).skip(0) =~= header_views(headers@));
    while i < headers.len()
        invariant
            i <= headers.len(),
            wanted@ == name@,
            header_value(header_views(headers@), name@) == header_value(
                header_views(headers@).skip(i as int),
                name@,
            ),
        decreases headers.len() - i,
    {
        let ghost rest = header_views(headers@).skip(i as int);
        assert(rest.first() == (headers@[i as int].0@, headers@[i as int].1@));
        assert(rest.drop_first() =~= header_views(headers@).skip(i + 1));
        let stored = to_chars(headers[i].0.as_str());
        if eq_ignoring_ascii_case(&stored, &wanted) {
            return Some(&headers[i].1);
        }
        i += 1;
    }
    None
}

/// Names that differ only in the case of their ASCII letters find the same
/// header.
pub proof fn lookup_ignores_case(
    headers: Seq<(Seq<char>, Seq<char>)>,
    name: Seq<char>,
    other: Seq<char>,
)
    requires
        same_ignoring_ascii_case(name, other),
    ensures
        header_value(headers, name) == header_value(headers, other),
    decreases headers.len(),
{
    if headers.len() > 0 {
        lookup_ignores_case(headers.drop_first(), name, other);
    }
}

/// The first header of a list is found under its own name, however the
/// letters of the name are cased.
pub proof fn first_header_is_found(
    headers: Seq<(Seq<char>, Seq<char>)>,
    name: Seq<char>,
)
    requires
        headers.len() > 0,
        same_ignoring_ascii_case(headers.first().0, name),
    ensures
        header_value(headers, name) == Some(headers.first().1),
{
}

} // verus!
