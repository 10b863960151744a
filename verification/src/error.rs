//! The closed set of request-terminal failures and their mapping to
//! client-visible HTTP statuses and bodies. Every failure is terminal for
//! the request: no stage retries, and every error reaches the client.

use vstd::prelude::*;

verus! {

/// A request rejected by validation, carrying its fixed message.
/// Always answered with status 400 and the message as body.
#[derive(Debug)]
pub struct BadRequest(pub &'static str);

/// What the upstream fetch failure looked like: the upstream's own HTTP
/// status if it answered with a non-success status, otherwise whether the
/// transport failure was a timeout, plus the failure's textual description.
#[derive(Debug)]
pub struct ReqwestError {
    pub status: Option<u16>,
    pub timeout: bool,
    pub message: String,
}

/// The kind of a codec failure, one per failure class of the image codec.
#[derive(Clone, Copy, Debug, PartialEq, Eq, Structural)]
pub enum ImageErrorKind {
    Decoding,
    Encoding,
    Parameter,
    Limits,
    Unsupported,
    IoError,
}

/// A decode / resize / encode failure, answered with an empty body and a
/// status chosen by its kind.
#[derive(Debug)]
pub struct CodecError(pub ImageErrorKind);

/// Any failure the pipeline can end in.
#[derive(Debug)]
pub enum AppError {
    BadRequest(BadRequest),
    ReqwestError(ReqwestError),
    ImageError(CodecError),
}

/// Status of an upstream failure: the upstream's own status when it
/// answered, 504 on a timeout, 502 on any other transport failure.
pub open spec fn spec_upstream_status(status: Option<u16>, timeout: bool) -> u16 {
    match status {
        Some(code) => code,
        None => if timeout {
            504u16
        } else {
            502u16
        },
    }
}

/// Status of a codec failure.
pub open spec fn spec_image_status(kind: ImageErrorKind) -> u16 {
    match kind {
        ImageErrorKind::Decoding => 502u16,
        ImageErrorKind::Encoding => 406u16,
        ImageErrorKind::Parameter => 500u16,
        ImageErrorKind::Limits => 503u16,
        ImageErrorKind::Unsupported => 501u16,
        ImageErrorKind::IoError => 500u16,
    }
}

/// Client-visible status of a failure.
pub open spec fn spec_error_status(e: AppError) -> u16 {
    match e {
        AppError::BadRequest(_) => 400u16,
        AppError::ReqwestError(r) => spec_upstream_status(r.status, r.timeout),
        AppError::ImageError(i) => spec_image_status(i.0),
    }
}

/// Client-visible body of a failure: the fixed message of a validation
/// failure, the error description of a transport failure or timeout, and
/// empty for an upstream HTTP error or a codec failure.
pub open spec fn spec_error_body(e: AppError) -> Seq<char> {
    match e {
        AppError::BadRequest(b) => b.0@,
        AppError::ReqwestError(r) => if r.status is Some {
            Seq::<char>::empty()
        } else {
            r.message@
        },
        AppError::ImageError(_) => Seq::<char>::empty(),
    }
}

impl BadRequest {
    /// Validation failures are always answered with 400.
    pub fn status(&self) -> (r: u16)
        ensures
            r == 400u16,
    {
        400
    }
}

impl ReqwestError {
    /// The response status for this upstream failure.
    pub fn status(&self) -> (r: u16)
        ensures
            r == spec_upstream_status(self.status, self.timeout),
    {
        match self.status {
            Some(code) => code,
            None => if self.timeout {
                504
            } else {
                502
            },
        }
    }
}

impl CodecError {
    /// The response status for this codec failure.
    pub fn status(&self) -> (r: u16)
        ensures
            r == spec_image_status(self.0),
    {
        match self.0 {
            ImageErrorKind::Decoding => 502,
            ImageErrorKind::Encoding => 406,
            ImageErrorKind::Parameter => 500,
            ImageErrorKind::Limits => 503,
            ImageErrorKind::Unsupported => 501,
            ImageErrorKind::IoError => 500,
        }
    }
}

impl AppError {
    /// The response status for this failure.
    pub fn response_status(&self) -> (r: u16)
        ensures
            r == spec_error_status(*self),
    {
        match self {
            AppError::BadRequest(b) => b.status(),
            AppError::ReqwestError(r) => r.status(),
            AppError::ImageError(i) => i.status(),
        }
    }

    /// The response body for this failure.
    pub fn response_body(&self) -> (r: String)
        ensures
            r@ == spec_error_body(*self),
    {
        match self {
            AppError::BadRequest(b) => String::from_str(b.0),
            AppError::ReqwestError(r) => if r.status.is_some() {
                String::new()
            } else {
                r.message.clone()
            },
            AppError::ImageError(_) => String::new(),
        }
    }
}

impl From<&'static str> for AppError {
    /// A bare message is a validation failure.
    fn from(value: &'static str) -> (r: Self) {
        AppError::BadRequest(BadRequest(value))
    }
}

impl vstd::std_specs::convert::FromSpecImpl<&'static str> for AppError {
    open spec fn obeys_from_spec() -> bool {
        true
    }

    open spec fn from_spec(value: &'static str) -> Self {
        AppError::BadRequest(BadRequest(value))
    }
}

} // verus!
