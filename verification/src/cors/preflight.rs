//! Answering a CORS preflight: the `OPTIONS` request by which a browser asks
//! whether the request it has in mind would be permitted.

use vstd::prelude::*;
use crate::cors::assemble::{assemble_headers, cors_headers, is_preflight};
use crate::cors::config::CorsConfig;
use crate::cors::decision::{decide, Decision};
use crate::cors::method::method_allowed;
use crate::cors::origin::origin_allowed;
use crate::headers::{header_text, header_views};
use crate::request::{Contrib, Request};
use crate::response::Response;
use crate::wire;

verus! {

/// How a preflight ends.
#[derive(Debug, Clone, Copy, PartialEq, Eq, Structural)]
pub enum Preflight {
    /// The origin is missing or not admitted.
    Forbidden,
    /// The origin is admitted; the method asked about is missing or not
    /// admitted.
    MethodNotAllowed,
    /// Origin and method are admitted.
    Accepted,
}

/// How a preflight ends, given what was decided about its origin and about
/// the method it asks about. The origin is judged first: a request from an
/// origin that is not permitted is forbidden whatever method it asks about.
pub open spec fn outcome_for(origin_permitted: bool, method_permitted: bool) -> Preflight {
    if !origin_permitted {
        Preflight::Forbidden
    } else if !method_permitted {
        Preflight::MethodNotAllowed
    } else {
        Preflight::Accepted
    }
}

/// The outcome of a preflight from `origin` that asks about
/// `requested_method`.
pub open spec fn preflight_outcome(
    origin: Seq<char>,
    requested_method: Seq<char>,
    cfg: CorsConfig,
) -> Preflight {
    outcome_for(
        origin_allowed(cfg.allowed_origins@, origin),
        method_allowed(cfg.allowed_methods@, requested_method),
    )
}

impl Decision {
    /// How a preflight ends that was decided about in this way.
    pub fn preflight(&self) -> (outcome: Preflight)
        ensures
            outcome == outcome_for(self.origin_permitted, self.method_permitted),
    {
        if !self.origin_permitted {
            Preflight::Forbidden
        } else if !self.method_permitted {
            Preflight::MethodNotAllowed
        } else {
            Preflight::Accepted
        }
    }
}

/// The status code that reports an outcome.
pub open spec fn preflight_status(outcome: Preflight) -> u16 {
    match outcome {
        Preflight::Forbidden => 403,
        Preflight::MethodNotAllowed => 405,
        Preflight::Accepted => 204,
    }
}

/// The origin that a request names in its `Origin` header, empty where it
/// names none.
pub open spec fn request_origin(req: Request) -> Seq<char> {
    header_text(header_views(req.headers@), "origin"@)
}

/// The method that a request asks about in its
/// `Access-Control-Request-Method` header, empty where it asks about none.
pub open spec fn requested_method(req: Request) -> Seq<char> {
    header_text(header_views(req.headers@), "access-control-request-method"@)
}

/// The outcome of the preflight `req` under the policy `cfg`.
pub open spec fn preflight_of(req: Request, cfg: CorsConfig) -> Preflight {
    preflight_outcome(request_origin(req), requested_method(req), cfg)
}

/// The status of the answer to the preflight `req`.
pub open spec fn answer_status(req: Request, cfg: CorsConfig) -> u16 {
    preflight_status(preflight_of(req, cfg))
}

/// The headers of the answer to the preflight `req`: the CORS headers for
/// the request's own method and origin where it is accepted, none where it is
/// turned down.
pub open spec fn answer_headers(req: Request, cfg: CorsConfig) -> Seq<(Seq<char>, Seq<char>)> {
    if preflight_of(req, cfg) is Accepted {
        cors_headers(req.method, request_origin(req), cfg)
    } else {
        Seq::empty()
    }
}

/// Judges a preflight from `origin` that asks about `requested_method`.
pub fn evaluate_preflight(
    origin: &str,
    requested_method: &str,
    cors_config: &CorsConfig,
) -> (outcome: Preflight)
    ensures
        outcome == preflight_outcome(origin@, requested_method@, *cors_config),
{
    decide(cors_config, origin, requested_method).preflight()
}

/// Answers the preflight `req`: 403 or 405 without any header where it is
/// turned down, 204 with the CORS headers for the request's own method and
/// origin where it is accepted. The answer never has a body.
pub fn options_handler(req: &Request, cors_config: &CorsConfig) -> (res: Response)
    ensures
        res.status == answer_status(*req, *cors_config),
        header_views(res.headers@) == answer_headers(*req, *cors_config),
        res.body@.len() == 0,
{
    let origin = req.get_header_value_as_string(wire::origin().as_str());
    let asked = req.get_header_value_as_string(wire::access_control_request_method().as_str());
    let decision = decide(cors_config, origin.as_str(), asked.as_str());
    match decision.preflight() {
        Preflight::Forbidden => {
            let headers: Vec<(String, String)> = Vec::new();
            assert(header_views(headers@) =~= Seq::empty());
            Response { status: 403, headers, body: Vec::new() }
        },
        Preflight::MethodNotAllowed => {
            let headers: Vec<(String, String)> = Vec::new();
            assert(header_views(headers@) =~= Seq::empty());
            Response { status: 405, headers, body: Vec::new() }
        },
        Preflight::Accepted => {
            let preflight = is_preflight(&req.method, origin.as_str());
            let headers = assemble_headers(&decision, preflight, cors_config);
            Response { status: wire::no_content(), headers, body: Vec::new() }
        },
    }
}

} // verus!
