//! The response headers that tell a browser what a policy decided.

use vstd::prelude::*;
use crate::cors::config::CorsConfig;
use crate::cors::decision::{decide, Decision};
use crate::cors::origin::{lists_origins, origin_allowed, origin_header_value};
use crate::headers::header_views;
use crate::request::Method;
use crate::text::{bool_string, bool_text, decimal, decimal_string};
use crate::wire;

verus! {

/// Whether a request is a preflight: it uses OPTIONS and names its origin.
pub open spec fn preflight_request(method: Method, origin: Seq<char>) -> bool {
    method is Options && origin.len() > 0
}

/// The headers that answer a permitted origin: the origin to allow, and
/// whether credentials are allowed. An origin that is not permitted gets
/// neither.
pub open spec fn permission_headers(
    permitted: bool,
    allow_origin: Seq<char>,
    allow_credentials: bool,
) -> Seq<(Seq<char>, Seq<char>)> {
    if permitted {
        seq![
            ("access-control-allow-origin"@, allow_origin),
            ("access-control-allow-credentials"@, bool_text(allow_credentials)),
        ]
    } else {
        Seq::empty()
    }
}

/// `Vary: Origin`, where it is required.
pub open spec fn vary_header(required: bool) -> Seq<(Seq<char>, Seq<char>)> {
    if required {
        seq![("vary"@, "Origin"@)]
    } else {
        Seq::empty()
    }
}

/// The headers that only a preflight is answered with: the cache lifetime
/// where one is configured, then the allowed methods and headers as
/// configured.
pub open spec fn preflight_headers(cfg: CorsConfig) -> Seq<(Seq<char>, Seq<char>)> {
    let lifetime = match cfg.max_age {
        Some(seconds) => seq![("access-control-max-age"@, decimal(seconds as nat))],
        None => Seq::empty(),
    };
    lifetime + seq![
        ("access-control-allow-methods"@, cfg.allowed_methods@),
        ("access-control-allow-headers"@, cfg.allowed_headers@),
    ]
}

/// The headers that tell of a decision, in the order in which they are
/// sent: the permission, then `Vary`, then what only a preflight is told.
pub open spec fn decided_headers(
    permitted: bool,
    allow_origin: Seq<char>,
    vary_required: bool,
    preflight: bool,
    cfg: CorsConfig,
) -> Seq<(Seq<char>, Seq<char>)> {
    permission_headers(permitted, allow_origin, cfg.allow_credentials) + vary_header(vary_required)
        + if preflight {
        preflight_headers(cfg)
    } else {
        Seq::empty()
    }
}

/// The headers that answer a request from `origin` where the policy admits
/// it; none where it does not.
pub open spec fn allow_headers(cfg: CorsConfig, origin: Seq<char>) -> Seq<(Seq<char>, Seq<char>)> {
    permission_headers(
        origin_allowed(cfg.allowed_origins@, origin),
        origin_header_value(cfg.allowed_origins@, origin),
        cfg.allow_credentials,
    )
}

/// `Vary: Origin`, where the answer depends on the origin that asks: under a
/// policy that lists its origins, and under no other.
pub open spec fn vary_headers(cfg: CorsConfig) -> Seq<(Seq<char>, Seq<char>)> {
    vary_header(lists_origins(cfg.allowed_origins@))
}

/// The CORS headers of the response to a request with the given method and
/// origin, in the order in which they are sent. A request without an origin
/// gets none.
pub open spec fn cors_headers(method: Method, origin: Seq<char>, cfg: CorsConfig) -> Seq<
    (Seq<char>, Seq<char>),
> {
    if origin.len() == 0 {
        Seq::empty()
    } else {
        allow_headers(cfg, origin) + vary_headers(cfg) + if preflight_request(method, origin) {
            preflight_headers(cfg)
        } else {
            Seq::empty()
        }
    }
}

/// Whether the request is a preflight.
pub fn is_preflight(m: &Method, origin: &str) -> (r: bool)
    ensures
        r == preflight_request(*m, origin@),
{
    m.is_options() && !origin.is_empty()
}

/// Writes a decision down as headers. `preflight` says whether the request
/// is a preflight, which is told the allowed methods and headers as well.
pub fn assemble_headers(decision: &Decision, preflight: bool, cors_config: &CorsConfig) -> (headers:
    Vec<(String, String)>)
    ensures
        header_views(headers@) == decided_headers(
            decision.origin_permitted,
            decision.resolved_origin_header_value@,
            decision.vary_required,
            preflight,
            *cors_config,
        ),
{
    let mut headers: Vec<(String, String)> = Vec::new();
    if decision.origin_permitted {
        headers.push(
            (wire::access_control_allow_origin(), decision.resolved_origin_header_value.clone()),
        );
        headers.push(
            (wire::access_control_allow_credentials(), bool_string(cors_config.allow_credentials)),
        );
    }
    let ghost permission = permission_headers(
        decision.origin_permitted,
        decision.resolved_origin_header_value@,
        cors_config.allow_credentials,
    );
    assert(header_views(headers@) =~= permission);
    if decision.vary_required {
        headers.push((wire::vary(), "Origin".to_owned()));
    }
    let ghost varied = permission + vary_header(decision.vary_required);
    assert(header_views(headers@) =~= varied);
    if !preflight {
        assert(varied + Seq::empty() =~= varied);
        return headers;
    }
    match cors_config.max_age {
        Some(seconds) => {
            headers.push((wire::access_control_max_age(), decimal_string(seconds)));
        },
        None => {},
    }
    headers.push((wire::access_control_allow_methods(), cors_config.allowed_methods.clone()));
    headers.push((wire::access_control_allow_headers(), cors_config.allowed_headers.clone()));
    assert(header_views(headers@) =~= varied + preflight_headers(*cors_config));
    headers
}

/// Assembles the CORS headers for the response to a request.
pub fn build_cors_headers(
    request_method: &Method,
    request_origin: String,
    cors_config: &CorsConfig,
) -> (headers: Vec<(String, String)>)
    ensures
        header_views(headers@) == cors_headers(*request_method, request_origin@, *cors_config),
{
    let origin = request_origin.as_str();
    if origin.is_empty() {
        let headers: Vec<(String, String)> = Vec::new();
        assert(header_views(headers@) =~= Seq::empty());
        return headers;
    }
    let decision = decide(cors_config, origin, "");
    assemble_headers(&decision, is_preflight(request_method, origin), cors_config)
}

} // verus!
