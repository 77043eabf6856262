//! Which origins a policy admits, and what `Access-Control-Allow-Origin`
//! answers to an admitted one.

use vstd::prelude::*;
use crate::text::{
    contains_chars, contains_token, eq_ignoring_ascii_case, has_substring, lowercase, same_chars,
    same_ignoring_ascii_case, split, split_on, strip_whitespace, to_chars, trim, trimmed,
    without_whitespace,
};

verus! {

/// The configured value that admits every origin.
pub const ALL_ORIGINS: &'static str = "*";

/// The configured value that admits no origin.
pub const NO_ORIGINS: &'static str = "null";

/// What a configured value of allowed origins stands for.
pub enum OriginRule {
    /// Every origin is admitted.
    Any,
    /// No origin is admitted.
    Nobody,
    /// The origins in the list are admitted, and no others.
    Listed(Seq<Seq<char>>),
}

/// Whether the configured value admits no origin: it is the word `null`, in
/// whatever case its letters stand, or it is empty.
pub open spec fn denies_all(allowed: Seq<char>) -> bool {
    allowed.len() == 0 || same_ignoring_ascii_case(allowed, NO_ORIGINS@)
}

/// Whether the configured value admits every origin: it is `*`.
pub open spec fn admits_all(allowed: Seq<char>) -> bool {
    allowed == ALL_ORIGINS@
}

/// The entries of a configured list: the value in lower case and without
/// whitespace, split at its commas.
pub open spec fn listed_origins(allowed: Seq<char>) -> Seq<Seq<char>> {
    split(without_whitespace(lowercase(allowed)), ',')
}

/// The rule that a configured value stands for.
pub open spec fn origin_rule(allowed: Seq<char>) -> OriginRule {
    if denies_all(allowed) {
        OriginRule::Nobody
    } else if admits_all(allowed) {
        OriginRule::Any
    } else {
        OriginRule::Listed(listed_origins(allowed))
    }
}

/// Whether the configured value names the origins it admits, one by one: it
/// is neither `*` nor `null`, nor empty.
pub open spec fn lists_origins(allowed: Seq<char>) -> bool {
    origin_rule(allowed) is Listed
}

/// The form in which a request's origin is compared with the entries of a
/// list: in lower case, without leading and trailing whitespace.
pub open spec fn normalized_origin(origin: Seq<char>) -> Seq<char> {
    trimmed(lowercase(origin))
}

/// Whether a policy with the configured value `allowed` admits `origin`. An
/// empty origin is never admitted; an entry of a list admits only the origin
/// that equals it as a whole.
pub open spec fn origin_allowed(allowed: Seq<char>, origin: Seq<char>) -> bool {
    origin.len() > 0 && match origin_rule(allowed) {
        OriginRule::Nobody => false,
        OriginRule::Any => true,
        OriginRule::Listed(entries) => entries.contains(normalized_origin(origin)),
    }
}

/// The value of `Access-Control-Allow-Origin` for a request from `origin`,
/// given whether the origin is admitted: the origin itself where it is
/// admitted and the configured value is `*` or holds the origin letter for
/// letter, and `null` otherwise.
pub open spec fn resolved_origin(admitted: bool, allowed: Seq<char>, origin: Seq<char>) -> Seq<
    char,
> {
    if admitted && (admits_all(allowed) || has_substring(allowed, origin)) {
        origin
    } else {
        NO_ORIGINS@
    }
}

/// The value of `Access-Control-Allow-Origin` for a request from `origin`
/// under a policy with the configured value `allowed`.
pub open spec fn origin_header_value(allowed: Seq<char>, origin: Seq<char>) -> Seq<char> {
    resolved_origin(origin_allowed(allowed, origin), allowed, origin)
}

/// Whether `entry` is one of the comma-separated entries of `list`.
fn listed(list: &Vec<char>, entry: &Vec<char>) -> (r: bool)
    ensures
        r == split(list@, ',').contains(entry@),
{
    contains_token(&split_on(list, ','), entry)
}

/// Whether `entry` is one of the comma-separated entries of `list`, as a
/// whole and letter for letter.
pub fn entry_listed(list: &str, entry: &str) -> (r: bool)
    ensures
        r == split(list@, ',').contains(entry@),
{
    listed(&to_chars(list), &to_chars(entry))
}

/// Whether the configured value admits no origin.
pub(crate) fn is_deny_all(allowed: &Vec<char>) -> (r: bool)
    ensures
        r == denies_all(allowed@),
{
    allowed.len() == 0 || eq_ignoring_ascii_case(allowed, &to_chars(NO_ORIGINS))
}

/// Whether the configured value admits every origin.
pub(crate) fn is_allow_all(allowed: &Vec<char>) -> (r: bool)
    ensures
        r == admits_all(allowed@),
{
    same_chars(allowed, &to_chars(ALL_ORIGINS))
}

/// Whether the configured value is a list of origins.
pub(crate) fn is_origin_list(allowed: &Vec<char>) -> (r: bool)
    ensures
        r == lists_origins(allowed@),
{
    !is_deny_all(allowed) && !is_allow_all(allowed)
}

/// Decides whether a request from `origin` is permitted by a policy whose
/// configured origins are `allowed_origins`.
pub fn is_origin_allowed(allowed_origins: &str, origin: &str) -> (r: bool)
    ensures
        r == origin_allowed(allowed_origins@, origin@),
{
    if origin.is_empty() {
        return false;
    }
    let allowed = to_chars(allowed_origins);
    if is_deny_all(&allowed) {
        return false;
    }
    if is_allow_all(&allowed) {
        return true;
    }
    let entries = strip_whitespace(&to_chars(allowed_origins.to_lowercase().as_str()));
    let wanted = trim(&to_chars(origin.to_lowercase().as_str()));
    listed(&entries, &wanted)
}

/// The value to send in `Access-Control-Allow-Origin` to a request from
/// `request_origin`, of which `admitted` says whether the policy admits it.
pub fn resolve_origin(admitted: bool, allowed_origins: &str, request_origin: &str) -> (value:
    String)
    ensures
        value@ == resolved_origin(admitted, allowed_origins@, request_origin@),
{
    if !admitted {
        return NO_ORIGINS.to_owned();
    }
    let allowed = to_chars(allowed_origins);
    if is_allow_all(&allowed) || contains_chars(&allowed, &to_chars(request_origin)) {
        request_origin.to_owned()
    } else {
        NO_ORIGINS.to_owned()
    }
}

/// The value to send in `Access-Control-Allow-Origin` to a request from
/// `request_origin`: never a list of origins, but the requesting origin
/// itself or `null`.
pub fn get_origin_header_value(allowed_origins: &str, request_origin: &str) -> (value: String)
    ensures
        value@ == origin_header_value(allowed_origins@, request_origin@),
{
    resolve_origin(
        is_origin_allowed(allowed_origins, request_origin),
        allowed_origins,
        request_origin,
    )
}

} // verus!
