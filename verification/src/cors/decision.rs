//! What a policy decides about one request.

use vstd::prelude::*;
use crate::cors::config::CorsConfig;
use crate::cors::method::{is_method_allowed, method_allowed};
use crate::cors::origin::{
    is_origin_allowed, is_origin_list, lists_origins, origin_allowed, origin_header_value,
    resolve_origin,
};
use crate::text::to_chars;

verus! {

/// The result of judging one request against a policy. It lives as long as
/// the request is being answered.
#[derive(Debug, Clone, PartialEq, Eq)]
pub struct Decision {
    /// Whether the policy admits the origin of the request.
    pub origin_permitted: bool,
    /// The value that `Access-Control-Allow-Origin` takes for the request.
    pub resolved_origin_header_value: String,
    /// Whether the policy admits the method that a preflight asks about.
    pub method_permitted: bool,
    /// Whether the answer depends on the origin that asks, so that caches
    /// must be told with `Vary: Origin`.
    pub vary_required: bool,
}

/// Whether `decision` is what the policy decides about a request from
/// `origin` that asks about `requested_method`.
pub open spec fn decides(
    decision: Decision,
    cfg: CorsConfig,
    origin: Seq<char>,
    requested_method: Seq<char>,
) -> bool {
    &&& decision.origin_permitted == origin_allowed(cfg.allowed_origins@, origin)
    &&& decision.resolved_origin_header_value@ == origin_header_value(cfg.allowed_origins@, origin)
    &&& decision.method_permitted == method_allowed(cfg.allowed_methods@, requested_method)
    &&& decision.vary_required == lists_origins(cfg.allowed_origins@)
}

/// Judges a request from `origin` against a policy. `requested_method` is
/// the method that a preflight asks about; a request that asks about none
/// passes the empty string, and is permitted no method.
pub fn decide(cors_config: &CorsConfig, origin: &str, requested_method: &str) -> (decision:
    Decision)
    ensures
        decides(decision, *cors_config, origin@, requested_method@),
{
    let allowed_origins = cors_config.allowed_origins.as_str();
    let origin_permitted = is_origin_allowed(allowed_origins, origin);
    Decision {
        origin_permitted,
        resolved_origin_header_value: resolve_origin(origin_permitted, allowed_origins, origin),
        method_permitted: is_method_allowed(cors_config.allowed_methods.as_str(), requested_method),
        vary_required: is_origin_list(&to_chars(allowed_origins)),
    }
}

} // verus!
