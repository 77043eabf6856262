//! Adding the CORS headers to the response that a handler made.

use vstd::prelude::*;
use crate::cors::assemble::{assemble_headers, cors_headers, is_preflight};
use crate::cors::config::CorsConfig;
use crate::cors::decision::decide;
use crate::cors::laws::wildcard_admits_every_origin;
use crate::cors::origin::{admits_all, origin_allowed};
use crate::headers::header_views;
use crate::request::Method;
use crate::response::Response;

verus! {

/// Whether a request from `origin` is turned down: it names an origin, the
/// policy does not admit every origin, and it does not admit this one.
pub open spec fn origin_rejected(cfg: CorsConfig, origin: Seq<char>) -> bool {
    &&& origin.len() > 0
    &&& !admits_all(cfg.allowed_origins@)
    &&& !origin_allowed(cfg.allowed_origins@, origin)
}

/// The response to send in place of `response`. Where the request is turned
/// down, it is 403 without a body, and of headers it has the CORS headers
/// alone. Otherwise it is `response` with the CORS headers behind its own.
pub fn with_cors_headers(response: Response, rejected: bool, cors: Vec<(String, String)>) -> (res:
    Response)
    ensures
        rejected ==> res.status == 403 && res.body@.len() == 0 && res.headers == cors,
        !rejected ==> res.status == response.status && res.body == response.body,
        !rejected ==> header_views(res.headers@) == header_views(response.headers@) + header_views(
            cors@,
        ),
{
    if rejected {
        Response { status: 403, headers: cors, body: Vec::new() }
    } else {
        let Response { status, headers: mut headers, body } = response;
        let mut cors = cors;
        headers.append(&mut cors);
        Response { status, headers, body }
    }
}

/// Responses that can take the CORS headers of a policy.
pub trait CorsResponseBuilder {
    /// The response with the CORS headers for a request with the given
    /// method and origin.
    fn build_with_cors(
        self,
        request_method: &Method,
        request_origin: String,
        cors_config: &CorsConfig,
    ) -> Response;
}

impl CorsResponseBuilder for Response {
    /// A request from an origin that is turned down is answered with 403, no
    /// body, and the CORS headers alone. Any other request keeps the status,
    /// the body and the headers of the response, with the CORS headers added
    /// behind them.
    fn build_with_cors(
        self,
        request_method: &Method,
        request_origin: String,
        cors_config: &CorsConfig,
    ) -> (res: Response)
        ensures
            origin_rejected(*cors_config, request_origin@) ==> {
                &&& res.status == 403
                &&& res.body@.len() == 0
                &&& header_views(res.headers@) == cors_headers(
                    *request_method,
                    request_origin@,
                    *cors_config,
                )
            },
            !origin_rejected(*cors_config, request_origin@) ==> {
                &&& res.status == self.status
                &&& res.body == self.body
                &&& header_views(res.headers@) == header_views(self.headers@) + cors_headers(
                    *request_method,
                    request_origin@,
                    *cors_config,
                )
            },
    {
        let origin = request_origin.as_str();
        if origin.is_empty() {
            let cors: Vec<(String, String)> = Vec::new();
            assert(header_views(cors@) =~= Seq::empty());
            assert(header_views(self.headers@) + header_views(cors@) =~= header_views(
                self.headers@,
            ));
            return with_cors_headers(self, false, cors);
        }
        let decision = decide(cors_config, origin, "");
        let cors = assemble_headers(&decision, is_preflight(request_method, origin), cors_config);
        proof {
            if admits_all(cors_config.allowed_origins@) {
                wildcard_admits_every_origin(cors_config.allowed_origins@, origin@);
            }
        }
        with_cors_headers(self, !decision.origin_permitted, cors)
    }
}

} // verus!
