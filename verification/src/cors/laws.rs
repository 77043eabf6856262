//! What holds of every policy and every request.

use vstd::prelude::*;
use crate::cors::assemble::{
    allow_headers, cors_headers, preflight_headers, preflight_request, vary_headers,
};
use crate::cors::config::CorsConfig;
use crate::cors::method::method_allowed;
use crate::cors::origin::{
    admits_all, denies_all, lists_origins, normalized_origin, origin_allowed,
    origin_header_value, NO_ORIGINS,
};
use crate::cors::preflight::{answer_headers, answer_status, request_origin, requested_method};
use crate::headers::{header_value, header_views};
use crate::request::{Method, Request};
use crate::text::{
    bool_text, decimal, lemma_split_without_separator, lowercase, same_ignoring_ascii_case, split,
    without_whitespace,
};

verus! {

/// Under the policy `*`, every origin that is not empty is admitted, and the
/// value of `Access-Control-Allow-Origin` is the origin that asked.
pub proof fn wildcard_admits_every_origin(allowed: Seq<char>, origin: Seq<char>)
    requires
        admits_all(allowed),
        origin.len() > 0,
    ensures
        origin_allowed(allowed, origin),
        origin_header_value(allowed, origin) == origin,
{
    reveal_strlit("*");
    reveal_strlit("null");
}

/// Under the policy `*`, the response to a request that names its origin
/// begins with that origin and the credentials flag, and has no `Vary`.
pub proof fn wildcard_echoes_the_origin(origin: Seq<char>, cfg: CorsConfig)
    requires
        admits_all(cfg.allowed_origins@),
        origin.len() > 0,
    ensures
        allow_headers(cfg, origin) == seq![
            ("access-control-allow-origin"@, origin),
            ("access-control-allow-credentials"@, bool_text(cfg.allow_credentials)),
        ],
        vary_headers(cfg) == Seq::<(Seq<char>, Seq<char>)>::empty(),
{
    wildcard_admits_every_origin(cfg.allowed_origins@, origin);
    reveal_strlit("*");
    reveal_strlit("null");
}

/// Under the policy `null`, in whatever case it is written, no origin is
/// admitted, the empty one included.
pub proof fn null_admits_no_origin(allowed: Seq<char>, origin: Seq<char>)
    requires
        same_ignoring_ascii_case(allowed, NO_ORIGINS@),
    ensures
        !origin_allowed(allowed, origin),
{
}

/// A policy without configured origins admits no origin.
pub proof fn empty_admits_no_origin(origin: Seq<char>)
    ensures
        !origin_allowed(Seq::empty(), origin),
{
}

/// A list of one entry holds that entry and nothing else: what only begins
/// with the entry, or only contains it, is not in the list.
pub proof fn single_entry_is_matched_whole(entry: Seq<char>, candidate: Seq<char>)
    requires
        !entry.contains(','),
    ensures
        split(entry, ',').contains(candidate) <==> candidate == entry,
{
    lemma_split_without_separator(entry, ',');
    assert(seq![entry][0] == entry);
}

/// A policy that is configured with one origin alone admits that origin and
/// no other: an origin is admitted if and only if, in lower case and without
/// the whitespace around it, it is the configured origin as a whole. An
/// origin that only begins with the configured one, or contains it, is not.
pub proof fn lone_origin_is_matched_whole(allowed: Seq<char>, origin: Seq<char>)
    requires
        lists_origins(allowed),
        !without_whitespace(lowercase(allowed)).contains(','),
    ensures
        origin_allowed(allowed, origin) <==> origin.len() > 0 && normalized_origin(origin)
            == without_whitespace(lowercase(allowed)),
{
    single_entry_is_matched_whole(
        without_whitespace(lowercase(allowed)),
        normalized_origin(origin),
    );
}

/// The response to a request that names its origin carries `Vary: Origin`
/// if and only if the policy lists its origins, that is, is neither `*` nor
/// `null`.
pub proof fn vary_marks_listed_origins(method: Method, origin: Seq<char>, cfg: CorsConfig)
    requires
        origin.len() > 0,
    ensures
        cors_headers(method, origin, cfg).contains(("vary"@, "Origin"@)) <==> lists_origins(
            cfg.allowed_origins@,
        ),
        lists_origins(cfg.allowed_origins@) <==> !admits_all(cfg.allowed_origins@) && !denies_all(
            cfg.allowed_origins@,
        ),
{
    reveal_strlit("vary");
    reveal_strlit("access-control-allow-origin");
    reveal_strlit("access-control-allow-credentials");
    reveal_strlit("access-control-max-age");
    reveal_strlit("access-control-allow-methods");
    reveal_strlit("access-control-allow-headers");
    let headers = cors_headers(method, origin, cfg);
    let allow = allow_headers(cfg, origin);
    if lists_origins(cfg.allowed_origins@) {
        assert(headers[allow.len() as int] == ("vary"@, "Origin"@));
    } else {
        assert forall|k: int| 0 <= k < headers.len() implies headers[k].0.len() != 4 by {}
    }
}

/// A request that names no origin gets no CORS header at all.
pub proof fn no_origin_no_headers(method: Method, cfg: CorsConfig)
    ensures
        cors_headers(method, Seq::empty(), cfg) == Seq::<(Seq<char>, Seq<char>)>::empty(),
{
}

/// Only a preflight is told the allowed methods and headers and the cache
/// lifetime. Any other request that names its origin gets the answer to that
/// origin and, under a policy that lists its origins, `Vary`; nothing more.
pub proof fn only_preflights_get_preflight_headers(
    method: Method,
    origin: Seq<char>,
    cfg: CorsConfig,
)
    requires
        origin.len() > 0,
        !(method is Options),
    ensures
        !preflight_request(method, origin),
        cors_headers(method, origin, cfg) == allow_headers(cfg, origin) + vary_headers(cfg),
{
    assert(allow_headers(cfg, origin) + vary_headers(cfg) + Seq::empty() =~= allow_headers(
        cfg,
        origin,
    ) + vary_headers(cfg));
}

/// The credentials flag is sent exactly to the origins that are admitted.
pub proof fn credentials_follow_admission(method: Method, origin: Seq<char>, cfg: CorsConfig)
    ensures
        cors_headers(method, origin, cfg).contains(
            ("access-control-allow-credentials"@, bool_text(cfg.allow_credentials)),
        ) <==> origin_allowed(cfg.allowed_origins@, origin),
{
    reveal_strlit("vary");
    reveal_strlit("access-control-allow-origin");
    reveal_strlit("access-control-allow-credentials");
    reveal_strlit("access-control-max-age");
    reveal_strlit("access-control-allow-methods");
    reveal_strlit("access-control-allow-headers");
    let headers = cors_headers(method, origin, cfg);
    if origin_allowed(cfg.allowed_origins@, origin) {
        assert(headers[1] == (
            "access-control-allow-credentials"@,
            bool_text(cfg.allow_credentials),
        ));
    } else {
        assert forall|k: int| 0 <= k < headers.len() implies headers[k].0
            != "access-control-allow-credentials"@ by {
            assert(headers[k].0.len() != 32);
        }
    }
}

/// A preflight without an `Origin` header is answered with 403 and no
/// header.
pub proof fn preflight_without_origin_is_forbidden(req: Request, cfg: CorsConfig)
    requires
        header_value(header_views(req.headers@), "origin"@) is None,
    ensures
        answer_status(req, cfg) == 403,
        answer_headers(req, cfg) == Seq::<(Seq<char>, Seq<char>)>::empty(),
{
}

/// A preflight from an origin that is not admitted is answered with 403 and
/// no header, whatever method it asks about.
pub proof fn preflight_from_unknown_origin_is_forbidden(req: Request, cfg: CorsConfig)
    requires
        !origin_allowed(cfg.allowed_origins@, request_origin(req)),
    ensures
        answer_status(req, cfg) == 403,
        answer_headers(req, cfg) == Seq::<(Seq<char>, Seq<char>)>::empty(),
{
}

/// A preflight from an admitted origin that asks about a method that is not
/// admitted, or about none, is answered with 405 and no header.
pub proof fn preflight_for_unknown_method_is_refused(req: Request, cfg: CorsConfig)
    requires
        origin_allowed(cfg.allowed_origins@, request_origin(req)),
        !method_allowed(cfg.allowed_methods@, requested_method(req)),
    ensures
        answer_status(req, cfg) == 405,
        answer_headers(req, cfg) == Seq::<(Seq<char>, Seq<char>)>::empty(),
{
}

/// A preflight from an admitted origin that asks about an admitted method is
/// answered with 204. Sent with OPTIONS, as a preflight is, its answer ends
/// with the allowed methods and headers as configured, and before them
/// stands the cache lifetime where the policy has one.
pub proof fn preflight_for_admitted_method_is_accepted(req: Request, cfg: CorsConfig)
    requires
        origin_allowed(cfg.allowed_origins@, request_origin(req)),
        method_allowed(cfg.allowed_methods@, requested_method(req)),
    ensures
        answer_status(req, cfg) == 204,
        answer_headers(req, cfg) == cors_headers(req.method, request_origin(req), cfg),
        req.method is Options ==> {
            let headers = answer_headers(req, cfg);
            &&& headers.contains(("access-control-allow-methods"@, cfg.allowed_methods@))
            &&& headers.contains(("access-control-allow-headers"@, cfg.allowed_headers@))
            &&& cfg.max_age matches Some(seconds) ==> headers.contains(
                ("access-control-max-age"@, decimal(seconds as nat)),
            )
        },
{
    if req.method is Options {
        let origin = request_origin(req);
        let headers = answer_headers(req, cfg);
        let tail = preflight_headers(cfg);
        let lead = allow_headers(cfg, origin) + vary_headers(cfg);
        assert(headers =~= lead + tail);
        assert forall|k: int| 0 <= k < tail.len() implies headers.contains(#[trigger] tail[k]) by {
            assert(headers[lead.len() + k] == tail[k]);
        }
        match cfg.max_age {
            Some(seconds) => {
                assert(tail[0] == ("access-control-max-age"@, decimal(seconds as nat)));
                assert(tail[1] == ("access-control-allow-methods"@, cfg.allowed_methods@));
                assert(tail[2] == ("access-control-allow-headers"@, cfg.allowed_headers@));
            },
            None => {
                assert(tail[0] == ("access-control-allow-methods"@, cfg.allowed_methods@));
                assert(tail[1] == ("access-control-allow-headers"@, cfg.allowed_headers@));
            },
        }
    }
}

/// The headers are a function of the method, the origin and the policy: two
/// lists assembled for the same request under the same policy hold the same
/// names and values in the same order.
pub proof fn assembly_is_repeatable(
    first: Seq<(String, String)>,
    second: Seq<(String, String)>,
    method: Method,
    origin: Seq<char>,
    cfg: CorsConfig,
)
    requires
        header_views(first) == cors_headers(method, origin, cfg),
        header_views(second) == cors_headers(method, origin, cfg),
    ensures
        header_views(first) == header_views(second),
        first.len() == second.len(),
        forall|k: int|
            0 <= k < first.len() ==> first[k].0@ == second[k].0@ && first[k].1@ == second[k].1@,
{
    assert(header_views(first).len() == first.len());
    assert(header_views(second).len() == second.len());
    assert forall|k: int| 0 <= k < first.len() implies first[k].0@ == second[k].0@ && first[k].1@
        == second[k].1@ by {
        assert(header_views(first)[k] == (first[k].0@, first[k].1@));
        assert(header_views(second)[k] == (second[k].0@, second[k].1@));
    }
}

/// The value of `Access-Control-Allow-Origin` is the origin that asked or
/// the word `null`: never a list of origins, and `*` only for a request that
/// calls its own origin so.
pub proof fn allow_origin_names_one_origin(allowed: Seq<char>, origin: Seq<char>)
    ensures
        origin_header_value(allowed, origin) == origin || origin_header_value(allowed, origin)
            == NO_ORIGINS@,
        origin_header_value(allowed, origin) == origin ==> origin_allowed(allowed, origin)
            || origin == NO_ORIGINS@,
{
}

/// A recipient that reads header names without regard to case, as HTTP asks,
/// finds the answer to an admitted origin under `Access-Control-Allow-Origin`.
pub proof fn allow_origin_is_found_by_its_usual_name(
    method: Method,
    origin: Seq<char>,
    cfg: CorsConfig,
)
    requires
        origin_allowed(cfg.allowed_origins@, origin),
    ensures
        header_value(cors_headers(method, origin, cfg), "Access-Control-Allow-Origin"@) == Some(
            origin_header_value(cfg.allowed_origins@, origin),
        ),
{
    reveal_strlit("access-control-allow-origin");
    reveal_strlit("Access-Control-Allow-Origin");
    let headers = cors_headers(method, origin, cfg);
    assert(headers.first() == allow_headers(cfg, origin).first());
    crate::headers::first_header_is_found(headers, "Access-Control-Allow-Origin"@);
}

} // verus!
