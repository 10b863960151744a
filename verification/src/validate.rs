//! Request validation: the source URL must be an absolute URL whose host
//! ends with the allowed domain suffix, and the quality must lie in
//! [1, 100]. Width is passed through unchecked; a degenerate width is the
//! codec's concern, not a validation failure. Validation is pure: it runs
//! before, and without, any network work.

use vstd::prelude::*;
use crate::error::BadRequest;
use crate::strutil::{spec_ends_with, str_ends_with};

verus! {

/// The single upstream domain suffix this proxy may fetch from.
pub const ALLOWED_SUFFIX: &'static str = "mangadex.org";

pub const MSG_INVALID_URL: &'static str = "\"url\" parameter is invalid";

pub const MSG_INVALID_HOST: &'static str = "\"url\" parameter is invalid due to an invalid host";

pub const MSG_BAD_DOMAIN: &'static str =
    "\"url\" parameter must be a domain or subdomain of mangadex.org";

pub const MSG_BAD_QUALITY: &'static str =
    "\"q\" parameter (quality) must be an integer between 1 and 100";

/// The host component of a URL text: `None` when the text does not parse
/// as an absolute URL, `Some(None)` when it parses but has no host, and
/// `Some(Some(h))` when its host is `h`. A function of the text alone.
pub uninterp spec fn url_host(s: Seq<char>) -> Option<Option<Seq<char>>>;

/// Relies on url::Url::parse and url::Url::host_str: whether the text is
/// an absolute URL, and its host component if it has one; both depend on
/// the text alone.
#[verifier::external_body]
fn parse_url_host(s: &str) -> (r: Option<Option<String>>)
    ensures
        match r {
            None => url_host(s@) is None,
            Some(None) => url_host(s@) == Some(Option::<Seq<char>>::None),
            Some(Some(h)) => url_host(s@) == Some(Some(h@)),
        },
{
    match url::Url::parse(s) {
        Err(_) => None,
        Ok(u) => Some(u.host_str().map(|h| h.to_string())),
    }
}

/// One validated request, immutable for the rest of the pipeline.
#[derive(Debug)]
pub struct TransformRequest {
    /// The source URL, as supplied.
    pub url: String,
    /// The requested output width, unchecked.
    pub width: u32,
    /// The requested quality, in [1, 100].
    pub quality: u8,
    /// The client's `Accept` tokens, one media type each, in order.
    pub accept: Vec<String>,
}

/// The fixed message validation fails with, if it fails: an unparsable
/// URL, then a missing host, then a disallowed host, then an out-of-range
/// quality, in that order.
pub open spec fn spec_validation_error(url: Seq<char>, quality: u8) -> Option<Seq<char>> {
    match url_host(url) {
        None => Some(MSG_INVALID_URL@),
        Some(None) => Some(MSG_INVALID_HOST@),
        Some(Some(h)) => if !spec_ends_with(h, ALLOWED_SUFFIX@) {
            Some(MSG_BAD_DOMAIN@)
        } else if quality < 1 || quality > 100 {
            Some(MSG_BAD_QUALITY@)
        } else {
            None
        },
    }
}

/// Check a raw request; on success hand back the request the pipeline
/// works on, on failure the fixed message for the first failing check.
pub fn validate(url: &str, width: u32, quality: u8, accept: Vec<String>) -> (r: Result<
    TransformRequest,
    BadRequest,
>)
    ensures
        (r is Ok) <==> spec_validation_error(url@, quality) is None,
        r matches Err(b) ==> b.0@ == spec_validation_error(url@, quality).unwrap(),
        r matches Ok(req) ==> req.url@ == url@ && req.width == width && req.quality == quality
            && req.accept == accept,
        r matches Ok(req) ==> (url_host(url@) matches Some(Some(h)) && spec_ends_with(
            h,
            ALLOWED_SUFFIX@,
        )) && 1 <= req.quality <= 100,
{
    match parse_url_host(url) {
        None => Err(BadRequest(MSG_INVALID_URL)),
        Some(None) => Err(BadRequest(MSG_INVALID_HOST)),
        Some(Some(host)) => {
            if !str_ends_with(host.as_str(), ALLOWED_SUFFIX) {
                Err(BadRequest(MSG_BAD_DOMAIN))
            } else if quality < 1 || quality > 100 {
                Err(BadRequest(MSG_BAD_QUALITY))
            } else {
                Ok(TransformRequest { url: String::from_str(url), width: width, quality: quality, accept: accept })
            }
        },
    }
}

/// A quality outside [1, 100] always fails validation, whatever the URL.
pub proof fn lemma_quality_out_of_range_rejected(url: Seq<char>, quality: u8)
    requires
        quality < 1 || quality > 100,
    ensures
        spec_validation_error(url, quality) is Some,
{
}

/// A host that does not end with the allowed suffix always fails
/// validation with the domain message, whatever the quality; the pipeline
/// fetches only from a validated request, so no outbound call is made.
pub proof fn lemma_disallowed_host_rejected(url: Seq<char>, quality: u8)
    requires
        url_host(url) matches Some(Some(h)) && !spec_ends_with(h, ALLOWED_SUFFIX@),
    ensures
        spec_validation_error(url, quality) == Some(MSG_BAD_DOMAIN@),
{
}

} // verus!
