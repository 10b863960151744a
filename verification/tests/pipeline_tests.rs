use imgproxy::catalog::OutputFormat;
use imgproxy::error::AppError;
use imgproxy::pipeline::{classify_upstream, handle_fetched, FetchOutcome};
use imgproxy::response::Processed;
use imgproxy::validate::{validate, TransformRequest, MSG_BAD_QUALITY};

fn source_jpeg(width: u32, height: u32) -> Vec<u8> {
    let img = image::DynamicImage::ImageRgb8(image::RgbImage::from_fn(width, height, |x, y| {
        image::Rgb([(x * 29 % 256) as u8, (y * 41 % 256) as u8, ((x + y) % 256) as u8])
    }));
    let mut buf = std::io::Cursor::new(Vec::new());
    img.write_to(&mut buf, image::ImageFormat::Jpeg).unwrap();
    buf.into_inner()
}

fn avif_request() -> TransformRequest {
    validate(
        "https://mangadex.org/img/a.jpg",
        100,
        80,
        vec!["image/avif".to_string()],
    )
    .unwrap()
}

#[test]
fn full_pipeline_serves_avif_for_avif_accept() {
    let body = source_jpeg(8, 5);
    let fetch = FetchOutcome::Response {
        status: 200,
        declared_type: Some("image/jpeg".to_string()),
        body,
    };
    let p: Processed = handle_fetched(&avif_request(), fetch).unwrap();
    assert_eq!(p.status(), 200);
    assert_eq!(p.format, OutputFormat::Avif);
    assert_eq!(p.content_type, "image/avif");
    assert_eq!(p.filename, "image.avif");
    assert!(p.bytes.len() > 12);
    assert_eq!(&p.bytes[4..8], b"ftyp");
    assert_eq!(&p.bytes[8..12], b"avif");
}

#[test]
fn quality_zero_fails_before_any_fetch() {
    let r = validate(
        "https://mangadex.org/img/a.jpg",
        100,
        0,
        vec!["image/avif".to_string()],
    );
    match r {
        Ok(_) => panic!("expected a validation failure"),
        Err(b) => {
            assert_eq!(b.status(), 400);
            assert_eq!(b.0, MSG_BAD_QUALITY);
        }
    }
}

#[test]
fn upstream_404_is_passed_through_with_empty_body() {
    let fetch = FetchOutcome::Response {
        status: 404,
        declared_type: None,
        body: Vec::new(),
    };
    let e: AppError = handle_fetched(&avif_request(), fetch).unwrap_err();
    assert_eq!(e.response_status(), 404);
    assert_eq!(e.response_body(), "");
}

#[test]
fn upstream_timeout_maps_to_504() {
    let fetch = FetchOutcome::TimedOut {
        message: "operation timed out".to_string(),
    };
    let e = handle_fetched(&avif_request(), fetch).unwrap_err();
    assert_eq!(e.response_status(), 504);
    assert_eq!(e.response_body(), "operation timed out");
}

#[test]
fn upstream_transport_failure_maps_to_502() {
    let fetch = FetchOutcome::Failed {
        message: "dns error".to_string(),
    };
    let e = handle_fetched(&avif_request(), fetch).unwrap_err();
    assert_eq!(e.response_status(), 502);
    assert_eq!(e.response_body(), "dns error");
}

#[test]
fn undecodable_body_is_a_codec_failure() {
    let fetch = FetchOutcome::Response {
        status: 200,
        declared_type: None,
        body: vec![0u8; 16],
    };
    let e = handle_fetched(&avif_request(), fetch).unwrap_err();
    match e {
        AppError::ImageError(_) => {}
        _ => panic!("expected a codec failure"),
    }
}

#[test]
fn upstream_declared_type_decides_without_client_preference() {
    let req = validate(
        "https://mangadex.org/img/a.jpg",
        8,
        80,
        vec!["text/html".to_string()],
    )
    .unwrap();
    let fetch = FetchOutcome::Response {
        status: 200,
        declared_type: Some("image/png".to_string()),
        body: source_jpeg(8, 5),
    };
    let p = handle_fetched(&req, fetch).unwrap();
    assert_eq!(p.format, OutputFormat::Png);
    assert_eq!(p.filename, "image.png");
}

#[test]
fn classification_splits_success_from_failure() {
    let ok = classify_upstream(FetchOutcome::Response {
        status: 204,
        declared_type: None,
        body: vec![1, 2],
    })
    .unwrap();
    assert_eq!(ok.status, 204);
    assert_eq!(ok.body, vec![1, 2]);
    let err = classify_upstream(FetchOutcome::Response {
        status: 301,
        declared_type: None,
        body: Vec::new(),
    })
    .unwrap_err();
    assert_eq!(err.status, Some(301));
    assert_eq!(err.status(), 301);
}
