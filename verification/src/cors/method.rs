//! Which request methods a policy admits.

use vstd::prelude::*;
use crate::text::{
    all_contained, contains_all, same_chars, split, split_on, strip_whitespace, to_chars,
    uppercase, without_whitespace,
};

verus! {

/// The configured value that admits every method.
pub const ALL_METHODS: &'static str = "*";

/// What a configured value of allowed methods stands for.
pub enum MethodRule {
    /// Every method is admitted.
    Any,
    /// No method is admitted.
    Nothing,
    /// The methods in the list are admitted, and no others.
    Listed(Seq<Seq<char>>),
}

/// The method tokens of a comma-separated value: the value in upper case and
/// without whitespace, split at its commas.
pub open spec fn method_tokens(methods: Seq<char>) -> Seq<Seq<char>> {
    split(without_whitespace(uppercase(methods)), ',')
}

/// The rule that a configured value stands for: nothing where it is empty,
/// everything where it is `*`, else the listed methods.
pub open spec fn method_rule(allowed: Seq<char>) -> MethodRule {
    if allowed.len() == 0 {
        MethodRule::Nothing
    } else if allowed == ALL_METHODS@ {
        MethodRule::Any
    } else {
        MethodRule::Listed(method_tokens(allowed))
    }
}

/// Whether a policy with the configured value `allowed` admits the requested
/// methods: there must be a request, and each method it names must be
/// admitted.
pub open spec fn method_allowed(allowed: Seq<char>, requested: Seq<char>) -> bool {
    requested.len() > 0 && match method_rule(allowed) {
        MethodRule::Nothing => false,
        MethodRule::Any => true,
        MethodRule::Listed(tokens) => all_contained(method_tokens(requested), tokens),
    }
}

/// Whether every comma-separated entry of `requested` is an entry of
/// `allowed`.
fn within(allowed: &Vec<char>, requested: &Vec<char>) -> (r: bool)
    ensures
        r == all_contained(split(requested@, ','), split(allowed@, ',')),
{
    contains_all(&split_on(allowed, ','), &split_on(requested, ','))
}

/// Whether every comma-separated entry of `requested` is, as a whole and
/// letter for letter, an entry of `allowed`.
pub fn entries_within(allowed: &str, requested: &str) -> (r: bool)
    ensures
        r == all_contained(split(requested@, ','), split(allowed@, ',')),
{
    within(&to_chars(allowed), &to_chars(requested))
}

/// Decides whether the methods that `requested_methods` names, one or
/// several separated by commas, are all permitted by a policy whose
/// configured methods are `allowed_methods`.
pub fn is_method_allowed(allowed_methods: &str, requested_methods: &str) -> (r: bool)
    ensures
        r == method_allowed(allowed_methods@, requested_methods@),
{
    if requested_methods.is_empty() || allowed_methods.is_empty() {
        return false;
    }
    if same_chars(&to_chars(allowed_methods), &to_chars(ALL_METHODS)) {
        return true;
    }
    let allowed = strip_whitespace(&to_chars(allowed_methods.to_uppercase().as_str()));
    let requested = strip_whitespace(&to_chars(requested_methods.to_uppercase().as_str()));
    within(&allowed, &requested)
}

} // verus!
