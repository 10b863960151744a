//! The transformation pipeline: decode the fetched bytes (source format
//! auto-detected from their content), resize to the requested width while
//! keeping the original height — a width-only stretch or shrink with a
//! nearest-neighbour filter — and encode in the negotiated format. The
//! codec calls are trusted wrappers over the image crate; the dispatch and
//! the sequencing are verified. The wrappers' contracts are keyed on
//! `image_content`, the pixel data an opaque image value holds, so each
//! step's result is stated over what the value actually is, not over how
//! it was reached.

use vstd::prelude::*;
use crate::catalog::{OutputFormat, extension};
use crate::error::{CodecError, ImageErrorKind};

verus! {

#[verifier::external_type_specification]
#[verifier::external_body]
pub struct ExDynamicImage(image::DynamicImage);

#[verifier::external_type_specification]
#[verifier::external_body]
pub struct ExImageError(image::ImageError);

/// What an opaque image value holds: its color layout and raw samples,
/// abstracted as one byte sequence. Every wrapper below states its result
/// over this name, so equal contents — not equal construction paths — is
/// what the contracts can conclude from.
pub uninterp spec fn image_content(img: image::DynamicImage) -> Seq<u8>;

/// The dimensions of the image decoded from these bytes, or `None` when
/// they decode as no recognizable image. A function of the bytes alone.
pub uninterp spec fn decoded_dims(bytes: Seq<u8>) -> Option<(u32, u32)>;

/// The content of the image decoded from these bytes; meaningful where
/// `decoded_dims` is `Some`. A function of the bytes alone.
pub uninterp spec fn decoded_content(bytes: Seq<u8>) -> Seq<u8>;

/// The content after a nearest-neighbour resample of `content` to exactly
/// `width` by `height`. A function of its arguments alone.
pub uninterp spec fn resized_content(content: Seq<u8>, width: u32, height: u32) -> Seq<u8>;

/// The format that content sniffing reads off the first bytes, or `None`
/// where no magic signature matches. A function of the bytes alone.
pub uninterp spec fn detected_format(bytes: Seq<u8>) -> Option<OutputFormat>;

/// Whether AVIF encoding, at encoder speed 7 and this quality, succeeds
/// on an image with this content. Success is a function of its arguments
/// alone; the emitted bytes are not (see `encode_avif`), so no name is
/// given to them.
pub uninterp spec fn avif_encode_ok(content: Seq<u8>, quality: u8) -> bool;

/// The JPEG encoding, at this quality, of an image with this content.
/// A function of its arguments alone.
pub uninterp spec fn jpeg_encoding(content: Seq<u8>, quality: u8) -> Seq<u8>;

/// Whether JPEG encoding at this quality succeeds on an image with this
/// content. A function of its arguments alone.
pub uninterp spec fn jpeg_encode_ok(content: Seq<u8>, quality: u8) -> bool;

/// The encoding under `format`'s default encoder — no quality parameter —
/// of an image with this content. A function of its arguments alone for
/// every format the contracts apply it to; they never apply it to AVIF or
/// OpenEXR, whose emitted bytes vary with the machine or the run.
pub uninterp spec fn default_encoding(content: Seq<u8>, format: OutputFormat) -> Seq<u8>;

/// Whether `format`'s default encoder succeeds on an image with this
/// content. A function of its arguments alone.
pub uninterp spec fn default_encode_ok(content: Seq<u8>, format: OutputFormat) -> bool;

/// The formats whose encoded output begins with a magic signature that
/// content sniffing recognizes; TGA and PCX have none.
pub open spec fn spec_detectable(format: OutputFormat) -> bool {
    match format {
        OutputFormat::Tga => false,
        OutputFormat::Pcx => false,
        _ => true,
    }
}

/// Relies on image::ImageError: its variant names the failure class the
/// response status is chosen by.
#[verifier::external_body]
fn classify_codec_error(e: image::ImageError) -> (r: CodecError) {
    match e {
        image::ImageError::Decoding(_) => CodecError(ImageErrorKind::Decoding),
        image::ImageError::Encoding(_) => CodecError(ImageErrorKind::Encoding),
        image::ImageError::Parameter(_) => CodecError(ImageErrorKind::Parameter),
        image::ImageError::Limits(_) => CodecError(ImageErrorKind::Limits),
        image::ImageError::Unsupported(_) => CodecError(ImageErrorKind::Unsupported),
        image::ImageError::IoError(_) => CodecError(ImageErrorKind::IoError),
    }
}

/// Relies on image::ImageReader::with_guessed_format and decode: the
/// format is read from the bytes' content, never from a header; success,
/// the decoded dimensions and the decoded pixels depend on the bytes
/// alone. A failure is classed by the variant of image::ImageError.
#[verifier::external_body]
fn decode_image(bytes: &Vec<u8>) -> (r: Result<(image::DynamicImage, u32, u32), CodecError>)
    ensures
        (r is Ok) <==> decoded_dims(bytes@) is Some,
        r matches Ok(t) ==> decoded_dims(bytes@) == Some((t.1, t.2)) && image_content(t.0)
            == decoded_content(bytes@),
{
    let cursor = std::io::Cursor::new(bytes.as_slice());
    let reader = match image::ImageReader::new(cursor).with_guessed_format() {
        Ok(rd) => rd,
        Err(_) => return Err(CodecError(ImageErrorKind::IoError)),
    };
    match reader.decode() {
        Ok(img) => {
            let (w, h) = (img.width(), img.height());
            Ok((img, w, h))
        },
        Err(e) => Err(classify_codec_error(e)),
    }
}

/// Relies on image::DynamicImage::resize_exact with FilterType::Nearest:
/// the result holds the input's picture resampled to exactly the given
/// dimensions, aspect ratio not kept, a deterministic function of the
/// input pixels and the target dimensions; no panic, also on zero sizes.
#[verifier::external_body]
fn resize_image(img: &image::DynamicImage, width: u32, height: u32) -> (r: image::DynamicImage)
    ensures
        image_content(r) == resized_content(image_content(*img), width, height),
{
    img.resize_exact(width, height, image::imageops::FilterType::Nearest)
}

/// Relies on image::codecs::avif::AvifEncoder::new_with_speed_quality at
/// speed 7: whether encoding succeeds depends on the pixels and quality
/// alone, and the output opens with the AVIF container signature. The
/// bytes themselves are not a function of the inputs — the AV1 tile
/// layout follows the machine's thread count — so nothing more is stated
/// of them. The underlying encoder configuration rejects a quality below
/// 1, so that input is kept out. A failure is classed by the variant of
/// image::ImageError.
#[verifier::external_body]
fn encode_avif(img: &image::DynamicImage, quality: u8) -> (r: Result<Vec<u8>, CodecError>)
    requires
        1 <= quality,
    ensures
        (r is Ok) <==> avif_encode_ok(image_content(*img), quality),
        r matches Ok(out) ==> out@.len() > 0 && detected_format(out@) == Some(
            OutputFormat::Avif,
        ),
{
    let mut buf = std::io::Cursor::new(Vec::new());
    let enc = image::codecs::avif::AvifEncoder::new_with_speed_quality(&mut buf, 7, quality);
    match img.write_with_encoder(enc) {
        Ok(()) => Ok(buf.into_inner()),
        Err(e) => Err(classify_codec_error(e)),
    }
}

/// Relies on image::codecs::jpeg::JpegEncoder::new_with_quality: success
/// and the bytes written depend on the pixels and quality alone, and the
/// output opens with the JPEG start-of-image marker. A failure is classed
/// by the variant of image::ImageError.
#[verifier::external_body]
fn encode_jpeg(img: &image::DynamicImage, quality: u8) -> (r: Result<Vec<u8>, CodecError>)
    ensures
        (r is Ok) <==> jpeg_encode_ok(image_content(*img), quality),
        r matches Ok(out) ==> out@ == jpeg_encoding(image_content(*img), quality) && out@.len()
            > 0 && detected_format(out@) == Some(OutputFormat::Jpeg),
{
    let mut buf = std::io::Cursor::new(Vec::new());
    let enc = image::codecs::jpeg::JpegEncoder::new_with_quality(&mut buf, quality);
    match img.write_with_encoder(enc) {
        Ok(()) => Ok(buf.into_inner()),
        Err(e) => Err(classify_codec_error(e)),
    }
}

/// Relies on image::DynamicImage::write_to with the format reached through
/// image::ImageFormat::from_extension: the format's default encoder, no
/// quality parameter. Success depends on the pixels and format alone, and
/// so do the bytes for every format this is called with but OpenEXR,
/// whose writer emits compressed blocks in thread-completion order;
/// nothing is stated of OpenEXR bytes beyond the magic signature. AVIF
/// and JPEG have their own encoders above and are kept out. A failure is
/// classed by the variant of image::ImageError.
#[verifier::external_body]
fn encode_other(img: &image::DynamicImage, format: OutputFormat) -> (r: Result<
    Vec<u8>,
    CodecError,
>)
    requires
        format != OutputFormat::Avif,
        format != OutputFormat::Jpeg,
    ensures
        (r is Ok) <==> default_encode_ok(image_content(*img), format),
        r is Ok && format != OutputFormat::OpenExr ==> r->Ok_0@ == default_encoding(
            image_content(*img),
            format,
        ),
        r is Ok ==> r->Ok_0@.len() > 0,
        r is Ok && spec_detectable(format) ==> detected_format(r->Ok_0@) == Some(format),
{
    let fmt = match image::ImageFormat::from_extension(extension(format)) {
        Some(f) => f,
        None => return Err(CodecError(ImageErrorKind::Unsupported)),
    };
    let mut buf = std::io::Cursor::new(Vec::new());
    match img.write_to(&mut buf, fmt) {
        Ok(()) => Ok(buf.into_inner()),
        Err(e) => Err(classify_codec_error(e)),
    }
}

/// The content of the pipeline's one pixel buffer right before encoding:
/// the source decoded, then one nearest-neighbour resample to the
/// requested width at the original height.
pub open spec fn spec_resized(bytes: Seq<u8>, width: u32) -> Seq<u8>
    recommends
        decoded_dims(bytes) is Some,
{
    resized_content(decoded_content(bytes), width, decoded_dims(bytes).unwrap().1)
}

/// Whether the whole transformation succeeds: the bytes decode as an
/// image, and the chosen format's encoder — AVIF and JPEG with the
/// requested quality, every other format with its default encoder —
/// succeeds on it resized to the requested width at its original height.
pub open spec fn spec_transform_ok(
    bytes: Seq<u8>,
    width: u32,
    quality: u8,
    format: OutputFormat,
) -> bool {
    decoded_dims(bytes) is Some && match format {
        OutputFormat::Avif => avif_encode_ok(spec_resized(bytes, width), quality),
        OutputFormat::Jpeg => jpeg_encode_ok(spec_resized(bytes, width), quality),
        _ => default_encode_ok(spec_resized(bytes, width), format),
    }
}

/// The output bytes of a successful transformation, where the chosen
/// encoder's output is a function of its inputs: JPEG with the requested
/// quality, the other deterministic encoders with their defaults, the
/// quality silently ignored. `None` for AVIF and OpenEXR, whose emitted
/// bytes vary with the machine or the run, though success, nonemptiness
/// and the output's magic signature do not.
pub open spec fn spec_transformed(
    bytes: Seq<u8>,
    width: u32,
    quality: u8,
    format: OutputFormat,
) -> Option<Seq<u8>>
    recommends
        decoded_dims(bytes) is Some,
{
    match format {
        OutputFormat::Avif => None,
        OutputFormat::Jpeg => Some(jpeg_encoding(spec_resized(bytes, width), quality)),
        OutputFormat::OpenExr => None,
        _ => Some(default_encoding(spec_resized(bytes, width), format)),
    }
}

/// Run decode, resize and encode on the fetched bytes. Bytes that decode
/// as no image are a terminal failure; a requested width of 0, or larger
/// than the source, is handed to the resize step as-is, and what a
/// degenerate size does is the codec's decision, surfaced as its error.
/// The quality must be at least 1, which validation establishes; the AVIF
/// encoder rejects 0 outright.
pub fn process_image(bytes: &Vec<u8>, width: u32, quality: u8, format: OutputFormat) -> (r: Result<
    Vec<u8>,
    CodecError,
>)
    requires
        1 <= quality,
    ensures
        (r is Ok) <==> spec_transform_ok(bytes@, width, quality, format),
        r is Ok && spec_transformed(bytes@, width, quality, format) is Some ==> r->Ok_0@
            == spec_transformed(bytes@, width, quality, format).unwrap(),
        r is Ok ==> r->Ok_0@.len() > 0,
        r is Ok && spec_detectable(format) ==> detected_format(r->Ok_0@) == Some(format),
{
    let (img, _, height) = match decode_image(bytes) {
        Ok(t) => t,
        Err(e) => return Err(e),
    };
    let resized = resize_image(&img, width, height);
    match format {
        OutputFormat::Avif => encode_avif(&resized, quality),
        OutputFormat::Jpeg => encode_jpeg(&resized, quality),
        _ => encode_other(&resized, format),
    }
}

} // verus!
