//! Image data decoding and object-store markers.

use base64::Engine;
use mimic_core::image_codec::{
    decode_image_data, ext_from_content_type, make_od_s3_marker, parse_od_s3_marker,
};

#[test]
fn decode_data_url_png_base64() {
    let png_bytes = b"png";
    let encoded = base64::engine::general_purpose::STANDARD.encode(png_bytes);
    let data_url = format!("data:image/png;base64,{}", encoded);
    let decoded = decode_image_data(&data_url).unwrap();
    assert_eq!(decoded.content_type, "image/png");
    assert_eq!(decoded.bytes, png_bytes);
}

#[test]
fn decode_data_url_jpeg_base64() {
    let jpeg_bytes = b"jpeg";
    let encoded = base64::engine::general_purpose::STANDARD.encode(jpeg_bytes);
    let data_url = format!("data:image/jpeg;base64,{}", encoded);
    let decoded = decode_image_data(&data_url).unwrap();
    assert_eq!(decoded.content_type, "image/jpeg");
    assert_eq!(decoded.bytes, jpeg_bytes);
}

#[test]
fn decode_plain_base64_defaults_png() {
    let png_bytes = b"png";
    let encoded = base64::engine::general_purpose::STANDARD.encode(png_bytes);
    let decoded = decode_image_data(&encoded).unwrap();
    assert_eq!(decoded.content_type, "image/png");
    assert_eq!(decoded.bytes, png_bytes);
}

#[test]
fn decode_rejects_bad_headers() {
    // No base64 flag.
    let err = decode_image_data("data:image/png,QUJD").unwrap_err();
    assert_eq!(err.message(), "Invalid image_data");
    // Unknown mime.
    assert!(decode_image_data("data:image/gif;base64,QUJD").is_err());
    // No comma at all.
    assert!(decode_image_data("data:image/png;base64").is_err());
    // Broken base64 payload.
    assert!(decode_image_data("data:image/png;base64,!!!").is_err());
}

#[test]
fn decode_collapses_jpg_spelling() {
    let encoded = base64::engine::general_purpose::STANDARD.encode(b"x");
    let decoded = decode_image_data(&format!("data:image/jpg;base64,{}", encoded)).unwrap();
    assert_eq!(decoded.content_type, "image/jpeg");
}

#[test]
fn parse_s3_marker() {
    let image_data = "od:s3|image/png|drawings/abc.png";
    let (mime, key) = parse_od_s3_marker(image_data).unwrap();
    assert_eq!(mime, "image/png");
    assert_eq!(key, "drawings/abc.png");
}

#[test]
fn parse_s3_marker_rejects_other_strings() {
    assert!(parse_od_s3_marker("data:image/png;base64,AAAA").is_none());
    assert!(parse_od_s3_marker("od:s3|image/gif|x.gif").is_none());
    assert!(parse_od_s3_marker("od:s3|image/png").is_none());
}

#[test]
fn marker_round_trip() {
    let marker = make_od_s3_marker("image/webp", "drawings/a|b.webp");
    assert_eq!(marker, "od:s3|image/webp|drawings/a|b.webp");
    let (mime, key) = parse_od_s3_marker(&marker).unwrap();
    assert_eq!(mime, "image/webp");
    assert_eq!(key, "drawings/a|b.webp");
}

#[test]
fn ext_follows_content_type() {
    assert_eq!(ext_from_content_type("image/png").unwrap(), "png");
    assert_eq!(ext_from_content_type("image/jpeg").unwrap(), "jpg");
    assert_eq!(ext_from_content_type("image/webp").unwrap(), "webp");
    assert!(ext_from_content_type("image/gif").is_err());
}
