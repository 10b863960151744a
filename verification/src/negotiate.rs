//! Output-format negotiation: exactly one format is chosen per request from
//! the client's `Accept` tokens and the type the upstream response declared.
//!
//! Decision order, first match wins: a wildcard or explicit AVIF token gives
//! AVIF; an explicit WebP token gives WebP; else a recognized upstream type
//! gives that format; else JPEG.
//!
//! Each `Accept` token is one media type written as `type/subtype`, without
//! parameters, as the HTTP layer delivers them. The upstream signal is the
//! value of the `accept` header of the upstream response, kept as the
//! surrounding system observably reads it, not the `content-type` header.

use vstd::prelude::*;
use crate::catalog::{OutputFormat, format_from_mime, spec_format_from_mime};
use crate::strutil::chars_eq;

verus! {

/// The tokens name every media type or name AVIF explicitly.
pub open spec fn spec_accepts_avif(accept: Seq<Seq<char>>) -> bool {
    exists|i: int|
        0 <= i < accept.len() && (accept[i] == "*/*"@ || accept[i] == "image/avif"@)
}

/// The tokens name WebP explicitly.
pub open spec fn spec_accepts_webp(accept: Seq<Seq<char>>) -> bool {
    exists|i: int| 0 <= i < accept.len() && accept[i] == "image/webp"@
}

/// The format the client asked for, if it expressed a preference.
pub open spec fn spec_accepted_format(accept: Seq<Seq<char>>) -> Option<OutputFormat> {
    if spec_accepts_avif(accept) {
        Some(OutputFormat::Avif)
    } else if spec_accepts_webp(accept) {
        Some(OutputFormat::WebP)
    } else {
        None
    }
}

/// The format the upstream declared, if it declared a recognized one.
pub open spec fn spec_upstream_format(declared: Option<Seq<char>>) -> Option<OutputFormat> {
    match declared {
        Some(m) => spec_format_from_mime(m),
        None => None,
    }
}

/// The single negotiated output format.
pub open spec fn spec_negotiated(accept: Seq<Seq<char>>, declared: Option<Seq<char>>) -> OutputFormat {
    match spec_accepted_format(accept) {
        Some(f) => f,
        None => match spec_upstream_format(declared) {
            Some(f) => f,
            None => OutputFormat::Jpeg,
        },
    }
}

/// The format the client's `Accept` tokens ask for: AVIF on a wildcard or
/// an explicit AVIF token, else WebP on an explicit WebP token, else none.
pub fn get_accepted_content_type(accept: &Vec<String>) -> (r: Option<OutputFormat>)
    ensures
        r == spec_accepted_format(accept.deep_view()),
{
    let n = accept.len();
    let mut i: usize = 0;
    while i < n
        invariant
            i <= n,
            n == accept.len(),
            forall|j: int|
                0 <= j < i ==> !(accept.deep_view()[j] == "*/*"@ || accept.deep_view()[j]
                    == "image/avif"@),
        decreases n - i,
    {
        let t: &String = &accept[i];
        if chars_eq(t.as_str(), "*/*") || chars_eq(t.as_str(), "image/avif") {
            proof {
                assert(accept.deep_view()[i as int] == accept@[i as int]@);
            }
            return Some(OutputFormat::Avif);
        }
        proof {
            assert(accept.deep_view()[i as int] == accept@[i as int]@);
        }
        i += 1;
    }
    assert(!spec_accepts_avif(accept.deep_view()));
    let mut i: usize = 0;
    while i < n
        invariant
            i <= n,
            n == accept.len(),
            !spec_accepts_avif(accept.deep_view()),
            forall|j: int| 0 <= j < i ==> !(accept.deep_view()[j] == "image/webp"@),
        decreases n - i,
    {
        let t: &String = &accept[i];
        if chars_eq(t.as_str(), "image/webp") {
            proof {
                assert(accept.deep_view()[i as int] == accept@[i as int]@);
            }
            return Some(OutputFormat::WebP);
        }
        proof {
            assert(accept.deep_view()[i as int] == accept@[i as int]@);
        }
        i += 1;
    }
    assert(!spec_accepts_webp(accept.deep_view()));
    None
}

/// The format the upstream's declared type names, if any and recognized.
pub fn get_upstream_content_type(declared: &Option<String>) -> (r: Option<OutputFormat>)
    ensures
        r == spec_upstream_format(declared.deep_view()),
{
    match declared {
        Some(m) => format_from_mime(m.as_str()),
        None => None,
    }
}

/// Decide the single output format for a request.
pub fn get_content_type(accept: &Vec<String>, declared: &Option<String>) -> (r: OutputFormat)
    ensures
        r == spec_negotiated(accept.deep_view(), declared.deep_view()),
{
    match get_accepted_content_type(accept) {
        Some(fmt) => fmt,
        None => match get_upstream_content_type(declared) {
            Some(fmt) => fmt,
            None => OutputFormat::Jpeg,
        },
    }
}

/// A wildcard or explicit AVIF token always yields AVIF, whatever the
/// upstream declared.
pub proof fn lemma_avif_preference_wins(accept: Seq<Seq<char>>, declared: Option<Seq<char>>)
    requires
        spec_accepts_avif(accept),
    ensures
        spec_negotiated(accept, declared) == OutputFormat::Avif,
{
}

/// With no wildcard and no AVIF or WebP token, a recognized upstream type
/// is chosen, and an unrecognized or missing one falls back to JPEG.
pub proof fn lemma_upstream_type_decides(accept: Seq<Seq<char>>, declared: Option<Seq<char>>)
    requires
        !spec_accepts_avif(accept),
        !spec_accepts_webp(accept),
    ensures
        spec_upstream_format(declared) is Some ==> spec_negotiated(accept, declared)
            == spec_upstream_format(declared).unwrap(),
        spec_upstream_format(declared) is None ==> spec_negotiated(accept, declared)
            == OutputFormat::Jpeg,
{
}

/// Negotiation is a function of its two inputs alone: two results reached
/// from identical inputs are identical.
pub proof fn lemma_negotiation_idempotent(
    accept: Seq<Seq<char>>,
    declared: Option<Seq<char>>,
    r1: OutputFormat,
    r2: OutputFormat,
)
    requires
        r1 == spec_negotiated(accept, declared),
        r2 == spec_negotiated(accept, declared),
    ensures
        r1 == r2,
{
}

} // verus!
