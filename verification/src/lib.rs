//! Core of an HTTP image-transformation proxy: given a source image URL, a
//! target width, a quality level and the client's `Accept` tokens, it
//! validates the request, classifies the upstream fetch outcome, negotiates
//! the output format, runs decode / resize / encode, and packages the final
//! response. The surrounding HTTP server and the outbound HTTP client are
//! external collaborators; this crate holds the decision logic.

pub mod catalog;
pub mod error;
pub mod negotiate;
pub mod pipeline;
pub mod response;
pub mod strutil;
pub mod transform;
pub mod validate;
