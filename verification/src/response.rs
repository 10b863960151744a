//! Packaging of a successful transformation: the final bytes, the MIME
//! type and download filename of the chosen format, and the fixed header
//! set every success is answered with.

use vstd::prelude::*;
use vstd::string::StringExecFns;
use crate::catalog::{OutputFormat, extension, mime_type, spec_extension, spec_mime};

verus! {

/// The final artifact of a successful request; status 200, always.
#[derive(Debug)]
pub struct Processed {
    /// The encoded image.
    pub bytes: Vec<u8>,
    /// The format the bytes are encoded in.
    pub format: OutputFormat,
    /// The canonical MIME type of that format.
    pub content_type: &'static str,
    /// The download filename, `image.<extension>`.
    pub filename: String,
}

/// The derived download filename of a format.
pub open spec fn spec_filename(f: OutputFormat) -> Seq<char> {
    "image."@ + spec_extension(f)
}

/// Package encoded bytes under their format.
pub fn package(bytes: Vec<u8>, format: OutputFormat) -> (r: Processed)
    ensures
        r.bytes == bytes,
        r.format == format,
        r.content_type@ == spec_mime(format),
        r.filename@ == spec_filename(format),
{
    let filename = String::from_str("image.").concat(extension(format));
    Processed { bytes: bytes, format: format, content_type: mime_type(format), filename: filename }
}

impl Processed {
    /// A packaged response is always answered with 200.
    pub fn status(&self) -> (r: u16)
        ensures
            r == 200u16,
    {
        200
    }

    /// The fixed header set of every successful response, in order:
    /// `Vary`, `Cache-Control`, `Content-Disposition` carrying the
    /// download filename, and `Content-Security-Policy`. No header
    /// depends on the request.
    pub fn headers(&self) -> (r: Vec<(&'static str, String)>)
        ensures
            r@.len() == 4,
            r@[0].0@ == "Vary"@ && r@[0].1@ == "Accept"@,
            r@[1].0@ == "Cache-Control"@ && r@[1].1@
                == "public, max-age=604800, stale-while-revalidate=86400, stale-if-error=80"@,
            r@[2].0@ == "Content-Disposition"@ && r@[2].1@ == "attachment; filename=\""@
                + self.filename@ + "\""@,
            r@[3].0@ == "Content-Security-Policy"@ && r@[3].1@
                == "script-src 'none'; frame-src 'none'; sandbox;"@,
    {
        let mut v: Vec<(&'static str, String)> = Vec::new();
        v.push(("Vary", String::from_str("Accept")));
        v.push(
            (
                "Cache-Control",
                String::from_str(
                    "public, max-age=604800, stale-while-revalidate=86400, stale-if-error=80",
                ),
            ),
        );
        let disposition = String::from_str("attachment; filename=\"").concat(
            self.filename.as_str(),
        ).concat("\"");
        v.push(("Content-Disposition", disposition));
        v.push(
            ("Content-Security-Policy", String::from_str("script-src 'none'; frame-src 'none'; sandbox;")),
        );
        v
    }
}

} // verus!
