//! The policy that CORS decisions are made against.

use vstd::prelude::*;
use crate::cors::method::{is_method_allowed, method_allowed};
use crate::cors::origin::{is_origin_allowed, origin_allowed, NO_ORIGINS};
use crate::text::{from_chars, strip_whitespace, to_chars, uppercase, without_whitespace};

verus! {

/// The configured value that advertises every request header as allowed.
pub const ALL_HEADERS: &'static str = "*";

/// A CORS policy: what is allowed, and what a response says about it.
#[derive(Debug)]
pub struct CorsConfig {
    /// The origins to allow: `*`, `null`, or origins separated by commas.
    pub allowed_origins: String,
    /// The HTTP methods to allow: `*`, or methods separated by commas.
    pub allowed_methods: String,
    /// The HTTP headers to advertise as allowed, separated by commas.
    pub allowed_headers: String,
    /// Whether responses advertise that credentials are allowed.
    pub allow_credentials: bool,
    /// For how many seconds a browser may keep the answer to a preflight.
    pub max_age: Option<u32>,
}

impl CorsConfig {
    /// A policy as [`CorsConfig::new`] makes it: its allowed origins are not
    /// empty.
    pub open spec fn wf(&self) -> bool {
        self.allowed_origins@.len() > 0
    }

    /// A policy from its configured values. Empty origins become `null`,
    /// which admits no origin; the methods are put in upper case and lose
    /// their whitespace.
    pub fn new(
        allowed_origins: String,
        allowed_methods: String,
        allowed_headers: String,
        allow_credentials: bool,
        max_age: Option<u32>,
    ) -> (cfg: Self)
        ensures
            cfg.wf(),
            cfg.allowed_origins@ == if allowed_origins@.len() == 0 {
                NO_ORIGINS@
            } else {
                allowed_origins@
            },
            cfg.allowed_methods@ == without_whitespace(uppercase(allowed_methods@)),
            cfg.allowed_headers@ == allowed_headers@,
            cfg.allow_credentials == allow_credentials,
            cfg.max_age == max_age,
    {
        proof {
            reveal_strlit("null");
        }
        let origins = if allowed_origins.as_str().is_empty() {
            NO_ORIGINS.to_owned()
        } else {
            allowed_origins
        };
        let upper = allowed_methods.as_str().to_uppercase();
        let methods = from_chars(&strip_whitespace(&to_chars(upper.as_str())));
        CorsConfig {
            allowed_origins: origins,
            allowed_methods: methods,
            allowed_headers,
            allow_credentials,
            max_age,
        }
    }

    /// Whether this policy admits a request from `origin`.
    pub fn is_origin_allowed(&self, origin: &str) -> (r: bool)
        ensures
            r == origin_allowed(self.allowed_origins@, origin@),
    {
        is_origin_allowed(self.allowed_origins.as_str(), origin)
    }

    /// Whether this policy admits every method that `method` names.
    pub fn is_method_allowed(&self, method: &str) -> (r: bool)
        ensures
            r == method_allowed(self.allowed_methods@, method@),
    {
        is_method_allowed(self.allowed_methods.as_str(), method)
    }
}

impl Clone for CorsConfig {
    fn clone(&self) -> (copy: Self)
        ensures
            copy == *self,
    {
        Self {
            allowed_origins: self.allowed_origins.clone(),
            allowed_methods: self.allowed_methods.clone(),
            allowed_headers: self.allowed_headers.clone(),
            allow_credentials: self.allow_credentials,
            max_age: self.max_age,
        }
    }
}

} // verus!
