//! The stages around the fetch: classifying what the outbound GET ended
//! in, and running negotiation, transformation and packaging on a
//! classified outcome. The fetch itself is I/O and lives with the caller;
//! it hands its outcome here as plain values. Every failure is terminal:
//! no stage retries.

use vstd::prelude::*;
use crate::error::{AppError, ReqwestError};
use crate::negotiate::{get_content_type, spec_negotiated};
use crate::response::{package, spec_filename, Processed};
use crate::transform::{
    detected_format, process_image, spec_detectable, spec_transform_ok, spec_transformed,
};
use crate::validate::TransformRequest;
use crate::catalog::spec_mime;

verus! {

/// What the outbound GET ended in, as the HTTP client reports it.
#[derive(Debug)]
pub enum FetchOutcome {
    /// The upstream answered. `declared_type` carries the value of the
    /// upstream response header the negotiator reads — its `accept`
    /// header, as the surrounding system observably does — when present
    /// and readable as text.
    Response { status: u16, declared_type: Option<String>, body: Vec<u8> },
    /// The outbound request exceeded its deadline.
    TimedOut { message: String },
    /// Any other transport failure: connection, DNS, TLS.
    Failed { message: String },
}

/// A successful upstream response: a status in [200, 299] with the
/// declared type and body bytes, consumed by negotiation and transform.
#[derive(Debug)]
pub struct UpstreamResult {
    pub status: u16,
    pub declared_type: Option<String>,
    pub body: Vec<u8>,
}

/// The fetch ended in a response with a success status.
pub open spec fn spec_fetch_ok(f: FetchOutcome) -> bool {
    match f {
        FetchOutcome::Response { status, .. } => 200 <= status <= 299,
        _ => false,
    }
}

/// Classify the fetch outcome: a success status passes its parts on, a
/// non-success status becomes an upstream failure carrying that status
/// and an empty description, a timeout and any other transport failure
/// become upstream failures carrying the error's description.
pub fn classify_upstream(f: FetchOutcome) -> (r: Result<UpstreamResult, ReqwestError>)
    ensures
        (r is Ok) <==> spec_fetch_ok(f),
        spec_fetch_ok(f) ==> r is Ok && r->Ok_0.status == f->Response_status
            && r->Ok_0.declared_type == f->Response_declared_type && r->Ok_0.body
            == f->Response_body,
        f is Response && !spec_fetch_ok(f) ==> r is Err && r->Err_0.status == Some(
            f->Response_status,
        ) && !r->Err_0.timeout && r->Err_0.message@ == Seq::<char>::empty(),
        f is TimedOut ==> r is Err && r->Err_0.status is None && r->Err_0.timeout
            && r->Err_0.message == f->TimedOut_message,
        f is Failed ==> r is Err && r->Err_0.status is None && !r->Err_0.timeout
            && r->Err_0.message == f->Failed_message,
{
    match f {
        FetchOutcome::Response { status, declared_type, body } => {
            if 200 <= status && status <= 299 {
                Ok(UpstreamResult { status: status, declared_type: declared_type, body: body })
            } else {
                Err(ReqwestError { status: Some(status), timeout: false, message: String::new() })
            }
        },
        FetchOutcome::TimedOut { message } => Err(
            ReqwestError { status: None, timeout: true, message: message },
        ),
        FetchOutcome::Failed { message } => Err(
            ReqwestError { status: None, timeout: false, message: message },
        ),
    }
}

/// Run everything after the fetch for a validated request: classify the
/// outcome, negotiate the one output format, transform the body, and
/// package the response. On a failed fetch the upstream failure comes
/// back; on a successful fetch the only failures left are codec ones, and
/// success is owed exactly when the body decodes as an image and the
/// negotiated format's encoder succeeds on it. The quality must be at
/// least 1, which validation establishes for every request it passes.
pub fn handle_fetched(req: &TransformRequest, fetch: FetchOutcome) -> (r: Result<
    Processed,
    AppError,
>)
    requires
        1 <= req.quality,
    ensures
        (r is Ok) ==> spec_fetch_ok(fetch),
        fetch is Response && !spec_fetch_ok(fetch) ==> r is Err && r->Err_0 is ReqwestError
            && r->Err_0->ReqwestError_0.status == Some(fetch->Response_status),
        fetch is TimedOut ==> r is Err && r->Err_0 is ReqwestError
            && r->Err_0->ReqwestError_0.status is None && r->Err_0->ReqwestError_0.timeout
            && r->Err_0->ReqwestError_0.message == fetch->TimedOut_message,
        fetch is Failed ==> r is Err && r->Err_0 is ReqwestError
            && r->Err_0->ReqwestError_0.status is None && !r->Err_0->ReqwestError_0.timeout
            && r->Err_0->ReqwestError_0.message == fetch->Failed_message,
        spec_fetch_ok(fetch) && r is Err ==> r->Err_0 is ImageError,
        spec_fetch_ok(fetch) ==> ((r is Ok) <==> spec_transform_ok(
            fetch->Response_body@,
            req.width,
            req.quality,
            spec_negotiated(req.accept.deep_view(), fetch->Response_declared_type.deep_view()),
        )),
        spec_fetch_ok(fetch) && r is Ok && spec_transformed(
            fetch->Response_body@,
            req.width,
            req.quality,
            spec_negotiated(req.accept.deep_view(), fetch->Response_declared_type.deep_view()),
        ) is Some ==> r->Ok_0.bytes@ == spec_transformed(
            fetch->Response_body@,
            req.width,
            req.quality,
            spec_negotiated(req.accept.deep_view(), fetch->Response_declared_type.deep_view()),
        ).unwrap(),
        spec_fetch_ok(fetch) && r is Ok ==> r->Ok_0.bytes@.len() > 0,
        spec_fetch_ok(fetch) && r is Ok && spec_detectable(
            spec_negotiated(req.accept.deep_view(), fetch->Response_declared_type.deep_view()),
        ) ==> detected_format(r->Ok_0.bytes@) == Some(
            spec_negotiated(req.accept.deep_view(), fetch->Response_declared_type.deep_view()),
        ),
        spec_fetch_ok(fetch) && r is Ok ==> {
            &&& r->Ok_0.format == spec_negotiated(
                req.accept.deep_view(),
                fetch->Response_declared_type.deep_view(),
            )
            &&& r->Ok_0.content_type@ == spec_mime(
                spec_negotiated(
                    req.accept.deep_view(),
                    fetch->Response_declared_type.deep_view(),
                ),
            )
            &&& r->Ok_0.filename@ == spec_filename(
                spec_negotiated(
                    req.accept.deep_view(),
                    fetch->Response_declared_type.deep_view(),
                ),
            )
        },
{
    let upstream = match classify_upstream(fetch) {
        Ok(u) => u,
        Err(e) => return Err(AppError::ReqwestError(e)),
    };
    let format = get_content_type(&req.accept, &upstream.declared_type);
    let out = match process_image(&upstream.body, req.width, req.quality, format) {
        Ok(b) => b,
        Err(e) => return Err(AppError::ImageError(e)),
    };
    Ok(package(out, format))
}

} // verus!
