use imgproxy::catalog::OutputFormat;
use imgproxy::transform::process_image;

fn source_image(width: u32, height: u32) -> image::DynamicImage {
    image::DynamicImage::ImageRgb8(image::RgbImage::from_fn(width, height, |x, y| {
        image::Rgb([(x * 29 % 256) as u8, (y * 41 % 256) as u8, ((x + y) % 256) as u8])
    }))
}

fn encoded(img: &image::DynamicImage, fmt: image::ImageFormat) -> Vec<u8> {
    let mut buf = std::io::Cursor::new(Vec::new());
    img.write_to(&mut buf, fmt).unwrap();
    buf.into_inner()
}

fn is_avif(bytes: &[u8]) -> bool {
    bytes.len() > 12 && &bytes[4..8] == b"ftyp" && &bytes[8..12] == b"avif"
}

#[test]
fn png_round_trip_changes_width_and_keeps_height() {
    let src = encoded(&source_image(8, 5), image::ImageFormat::Png);
    let out = process_image(&src, 4, 80, OutputFormat::Png).unwrap();
    let back = image::load_from_memory(&out).unwrap();
    assert_eq!(back.width(), 4);
    assert_eq!(back.height(), 5);
}

#[test]
fn jpeg_round_trip_changes_width_and_keeps_height() {
    let src = encoded(&source_image(8, 5), image::ImageFormat::Png);
    let out = process_image(&src, 13, 90, OutputFormat::Jpeg).unwrap();
    let back = image::load_from_memory(&out).unwrap();
    assert_eq!(back.width(), 13);
    assert_eq!(back.height(), 5);
    assert_eq!(image::guess_format(&out).unwrap(), image::ImageFormat::Jpeg);
}

#[test]
fn bmp_round_trip_changes_width_and_keeps_height() {
    let src = encoded(&source_image(6, 9), image::ImageFormat::Jpeg);
    let out = process_image(&src, 12, 50, OutputFormat::Bmp).unwrap();
    let back = image::load_from_memory(&out).unwrap();
    assert_eq!(back.width(), 12);
    assert_eq!(back.height(), 9);
    assert_eq!(image::guess_format(&out).unwrap(), image::ImageFormat::Bmp);
}

#[test]
fn upscaling_keeps_height_too() {
    let src = encoded(&source_image(8, 5), image::ImageFormat::Png);
    let out = process_image(&src, 100, 80, OutputFormat::Png).unwrap();
    let back = image::load_from_memory(&out).unwrap();
    assert_eq!(back.width(), 100);
    assert_eq!(back.height(), 5);
}

#[test]
fn avif_output_is_avif_encoded() {
    let src = encoded(&source_image(8, 5), image::ImageFormat::Jpeg);
    let out = process_image(&src, 4, 80, OutputFormat::Avif).unwrap();
    assert!(is_avif(&out));
}

#[test]
fn source_format_is_detected_from_content_not_claimed_type() {
    // A JPEG body decodes as a JPEG whatever format the caller believed
    // it had; the chosen output format applies regardless.
    let src = encoded(&source_image(8, 5), image::ImageFormat::Jpeg);
    let out = process_image(&src, 8, 80, OutputFormat::Png).unwrap();
    assert_eq!(image::guess_format(&out).unwrap(), image::ImageFormat::Png);
}

#[test]
fn corrupt_image_is_a_decoding_failure_with_status_502() {
    let mut src = vec![0x89u8, b'P', b'N', b'G', 0x0D, 0x0A, 0x1A, 0x0A];
    src.extend_from_slice(&[7u8; 32]);
    let e = process_image(&src, 4, 80, OutputFormat::Png).unwrap_err();
    assert_eq!(e.status(), 502);
}

#[test]
fn quality_changes_jpeg_output() {
    let src = encoded(&source_image(32, 24), image::ImageFormat::Png);
    let low = process_image(&src, 32, 5, OutputFormat::Jpeg).unwrap();
    let high = process_image(&src, 32, 95, OutputFormat::Jpeg).unwrap();
    assert_ne!(low, high);
}
