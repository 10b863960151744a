//! The format catalog: the set of output formats the proxy can produce, and
//! the mapping between MIME types, format identifiers and canonical file
//! extensions.

use vstd::prelude::*;
use crate::strutil::chars_eq;

verus! {

/// One output image format. Exactly one is chosen per request; `Avif`,
/// `Jpeg` and every other variant each map to one canonical MIME type and
/// one canonical file extension.
#[derive(Clone, Copy, Debug, PartialEq, Eq, Structural)]
pub enum OutputFormat {
    Avif,
    Jpeg,
    Png,
    Gif,
    WebP,
    Tiff,
    Tga,
    Dds,
    Bmp,
    Ico,
    Hdr,
    OpenExr,
    Pnm,
    Qoi,
    Farbfeld,
    Pcx,
}

/// The format a MIME type names, if it names one.
pub open spec fn spec_format_from_mime(m: Seq<char>) -> Option<OutputFormat> {
    if m == "image/avif"@ {
        Some(OutputFormat::Avif)
    } else if m == "image/jpeg"@ {
        Some(OutputFormat::Jpeg)
    } else if m == "image/png"@ {
        Some(OutputFormat::Png)
    } else if m == "image/gif"@ {
        Some(OutputFormat::Gif)
    } else if m == "image/webp"@ {
        Some(OutputFormat::WebP)
    } else if m == "image/tiff"@ {
        Some(OutputFormat::Tiff)
    } else if m == "image/x-targa"@ || m == "image/x-tga"@ {
        Some(OutputFormat::Tga)
    } else if m == "image/vnd-ms.dds"@ {
        Some(OutputFormat::Dds)
    } else if m == "image/bmp"@ {
        Some(OutputFormat::Bmp)
    } else if m == "image/x-icon"@ || m == "image/vnd.microsoft.icon"@ {
        Some(OutputFormat::Ico)
    } else if m == "image/vnd.radiance"@ {
        Some(OutputFormat::Hdr)
    } else if m == "image/x-exr"@ {
        Some(OutputFormat::OpenExr)
    } else if m == "image/x-portable-bitmap"@ || m == "image/x-portable-graymap"@
        || m == "image/x-portable-pixmap"@ || m == "image/x-portable-anymap"@ {
        Some(OutputFormat::Pnm)
    } else if m == "image/x-qoi"@ {
        Some(OutputFormat::Qoi)
    } else {
        None
    }
}

/// The canonical MIME type of a format.
pub open spec fn spec_mime(f: OutputFormat) -> Seq<char> {
    match f {
        OutputFormat::Avif => "image/avif"@,
        OutputFormat::Jpeg => "image/jpeg"@,
        OutputFormat::Png => "image/png"@,
        OutputFormat::Gif => "image/gif"@,
        OutputFormat::WebP => "image/webp"@,
        OutputFormat::Tiff => "image/tiff"@,
        OutputFormat::Tga => "image/x-targa"@,
        OutputFormat::Dds => "image/vnd-ms.dds"@,
        OutputFormat::Bmp => "image/bmp"@,
        OutputFormat::Ico => "image/x-icon"@,
        OutputFormat::Hdr => "image/vnd.radiance"@,
        OutputFormat::OpenExr => "image/x-exr"@,
        OutputFormat::Pnm => "image/x-portable-anymap"@,
        OutputFormat::Qoi => "image/x-qoi"@,
        OutputFormat::Farbfeld => "application/octet-stream"@,
        OutputFormat::Pcx => "image/vnd.zbrush.pcx"@,
    }
}

/// The canonical (first) file extension of a format.
pub open spec fn spec_extension(f: OutputFormat) -> Seq<char> {
    match f {
        OutputFormat::Avif => "avif"@,
        OutputFormat::Jpeg => "jpg"@,
        OutputFormat::Png => "png"@,
        OutputFormat::Gif => "gif"@,
        OutputFormat::WebP => "webp"@,
        OutputFormat::Tiff => "tiff"@,
        OutputFormat::Tga => "tga"@,
        OutputFormat::Dds => "dds"@,
        OutputFormat::Bmp => "bmp"@,
        OutputFormat::Ico => "ico"@,
        OutputFormat::Hdr => "hdr"@,
        OutputFormat::OpenExr => "exr"@,
        OutputFormat::Pnm => "pbm"@,
        OutputFormat::Qoi => "qoi"@,
        OutputFormat::Farbfeld => "ff"@,
        OutputFormat::Pcx => "pcx"@,
    }
}

/// Look a MIME type up in the catalog.
pub fn format_from_mime(m: &str) -> (r: Option<OutputFormat>)
    ensures
        r == spec_format_from_mime(m@),
{
    if chars_eq(m, "image/avif") {
        Some(OutputFormat::Avif)
    } else if chars_eq(m, "image/jpeg") {
        Some(OutputFormat::Jpeg)
    } else if chars_eq(m, "image/png") {
        Some(OutputFormat::Png)
    } else if chars_eq(m, "image/gif") {
        Some(OutputFormat::Gif)
    } else if chars_eq(m, "image/webp") {
        Some(OutputFormat::WebP)
    } else if chars_eq(m, "image/tiff") {
        Some(OutputFormat::Tiff)
    } else if chars_eq(m, "image/x-targa") || chars_eq(m, "image/x-tga") {
        Some(OutputFormat::Tga)
    } else if chars_eq(m, "image/vnd-ms.dds") {
        Some(OutputFormat::Dds)
    } else if chars_eq(m, "image/bmp") {
        Some(OutputFormat::Bmp)
    } else if chars_eq(m, "image/x-icon") || chars_eq(m, "image/vnd.microsoft.icon") {
        Some(OutputFormat::Ico)
    } else if chars_eq(m, "image/vnd.radiance") {
        Some(OutputFormat::Hdr)
    } else if chars_eq(m, "image/x-exr") {
        Some(OutputFormat::OpenExr)
    } else if chars_eq(m, "image/x-portable-bitmap") || chars_eq(m, "image/x-portable-graymap")
        || chars_eq(m, "image/x-portable-pixmap") || chars_eq(m, "image/x-portable-anymap") {
        Some(OutputFormat::Pnm)
    } else if chars_eq(m, "image/x-qoi") {
        Some(OutputFormat::Qoi)
    } else {
        None
    }
}

/// The canonical MIME type of a format.
pub fn mime_type(f: OutputFormat) -> (r: &'static str)
    ensures
        r@ == spec_mime(f),
{
    match f {
        OutputFormat::Avif => "image/avif",
        OutputFormat::Jpeg => "image/jpeg",
        OutputFormat::Png => "image/png",
        OutputFormat::Gif => "image/gif",
        OutputFormat::WebP => "image/webp",
        OutputFormat::Tiff => "image/tiff",
        OutputFormat::Tga => "image/x-targa",
        OutputFormat::Dds => "image/vnd-ms.dds",
        OutputFormat::Bmp => "image/bmp",
        OutputFormat::Ico => "image/x-icon",
        OutputFormat::Hdr => "image/vnd.radiance",
        OutputFormat::OpenExr => "image/x-exr",
        OutputFormat::Pnm => "image/x-portable-anymap",
        OutputFormat::Qoi => "image/x-qoi",
        OutputFormat::Farbfeld => "application/octet-stream",
        OutputFormat::Pcx => "image/vnd.zbrush.pcx",
    }
}

/// The canonical file extension of a format.
pub fn extension(f: OutputFormat) -> (r: &'static str)
    ensures
        r@ == spec_extension(f),
{
    match f {
        OutputFormat::Avif => "avif",
        OutputFormat::Jpeg => "jpg",
        OutputFormat::Png => "png",
        OutputFormat::Gif => "gif",
        OutputFormat::WebP => "webp",
        OutputFormat::Tiff => "tiff",
        OutputFormat::Tga => "tga",
        OutputFormat::Dds => "dds",
        OutputFormat::Bmp => "bmp",
        OutputFormat::Ico => "ico",
        OutputFormat::Hdr => "hdr",
        OutputFormat::OpenExr => "exr",
        OutputFormat::Pnm => "pbm",
        OutputFormat::Qoi => "qoi",
        OutputFormat::Farbfeld => "ff",
        OutputFormat::Pcx => "pcx",
    }
}

} // verus!
