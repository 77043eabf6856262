//! Cross-Origin Resource Sharing: deciding whether a request's origin and
//! method are permitted by a policy, and which response headers say so.

pub mod assemble;
pub mod config;
pub mod decision;
pub mod decorate;
pub mod laws;
pub mod method;
pub mod origin;
pub mod preflight;

pub use assemble::{assemble_headers, build_cors_headers};
pub use config::{CorsConfig, ALL_HEADERS};
pub use decision::{decide, Decision};
pub use decorate::{with_cors_headers, CorsResponseBuilder};
pub use method::{is_method_allowed, ALL_METHODS};
pub use origin::{get_origin_header_value, is_origin_allowed, ALL_ORIGINS, NO_ORIGINS};
pub use preflight::{evaluate_preflight, options_handler, Preflight};
