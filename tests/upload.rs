use std::io::Cursor;

use image_to_text::models::{File, FileUpload};
use image_to_text::upload::{error_reply, fallback_func, image_upload, RequestError};

fn png_base64(width: u32, height: u32, rgb: Vec<u8>) -> String {
    let buffer = image::RgbImage::from_raw(width, height, rgb).expect("buffer size");
    let mut bytes = Cursor::new(Vec::new());
    image::DynamicImage::ImageRgb8(buffer)
        .write_to(&mut bytes, image::ImageOutputFormat::Png)
        .expect("png encoding");
    openssl::base64::encode_block(bytes.get_ref())
}

fn upload(contents: String) -> FileUpload {
    FileUpload {
        file: File {
            filetype: "image/png".to_string(),
            contents,
        },
    }
}

#[test]
fn upload_encodes_png() {
    let payload = upload(png_base64(2, 1, vec![1, 2, 3, 4, 5, 6]));
    let resp = image_upload(&payload).ok().expect("a decodable image");
    assert_eq!(resp.hex, "010203040506");
    assert_eq!(
        resp.binary,
        "000000010000001000000011000001000000010100000110"
    );
}

#[test]
fn upload_keeps_rows_in_order() {
    let payload = upload(png_base64(1, 2, vec![255, 16, 1, 0, 0, 0]));
    let resp = image_upload(&payload).ok().expect("a decodable image");
    assert_eq!(resp.hex, "FF1001000000");
    assert_eq!(resp.binary.len(), 48);
}

#[test]
fn two_uploads_get_their_own_encodings() {
    let first = upload(png_base64(1, 1, vec![10, 20, 30]));
    let second = upload(png_base64(1, 1, vec![40, 50, 60]));
    let a = image_upload(&first).ok().expect("first image");
    let b = image_upload(&second).ok().expect("second image");
    let a_again = image_upload(&first).ok().expect("first image again");
    assert_eq!(a.hex, "0A141E");
    assert_eq!(b.hex, "28323C");
    assert_eq!(a_again.hex, a.hex);
    assert_eq!(a_again.binary, a.binary);
}

#[test]
fn malformed_base64_is_invalid_encoding() {
    let payload = upload("not*base64!".to_string());
    assert_eq!(image_upload(&payload).err(), Some(RequestError::InvalidEncoding));
    let (status, body) = error_reply(RequestError::InvalidEncoding);
    assert_eq!(status, 400);
    assert_eq!(body.error, "invalid encoding");
    assert_eq!(body.message, "file contents are not valid base64");
}

#[test]
fn non_image_bytes_are_unsupported() {
    let payload = upload(openssl::base64::encode_block(b"plain text, no image"));
    assert_eq!(
        image_upload(&payload).err(),
        Some(RequestError::UnsupportedOrCorrupt)
    );
    let (status, body) = error_reply(RequestError::UnsupportedOrCorrupt);
    assert_eq!(status, 400);
    assert_eq!(body.error, "unsupported or corrupt image");
    assert_eq!(body.message, "file contents are not a supported image");
}

#[test]
fn truncated_image_is_unsupported() {
    let full = png_base64(2, 2, vec![7; 12]);
    let bytes = openssl::base64::decode_block(&full).expect("valid base64");
    let payload = upload(openssl::base64::encode_block(&bytes[..bytes.len() / 2]));
    assert_eq!(
        image_upload(&payload).err(),
        Some(RequestError::UnsupportedOrCorrupt)
    );
}

#[test]
fn empty_contents_are_not_an_image() {
    let payload = upload(String::new());
    assert_eq!(
        image_upload(&payload).err(),
        Some(RequestError::UnsupportedOrCorrupt)
    );
}

#[test]
fn unknown_route_is_not_found() {
    let (status, body) = fallback_func();
    assert_eq!(status, 404);
    assert_eq!(body.message, "");
    assert_eq!(body.error, "page not found");
    let (status, body) = error_reply(RequestError::RouteNotFound);
    assert_eq!(status, 404);
    assert_eq!(body.error, "page not found");
}

#[test]
fn unpadded_base64_is_invalid_encoding() {
    // "AQI=" is the padded form of the two bytes 1, 2: valid base64, but no image.
    assert_eq!(
        image_upload(&upload("AQI=".to_string())).err(),
        Some(RequestError::UnsupportedOrCorrupt)
    );
    assert_eq!(
        image_upload(&upload("AQI".to_string())).err(),
        Some(RequestError::InvalidEncoding)
    );
}

#[test]
fn surrounding_whitespace_is_trimmed() {
    let contents = format!("  {}\n", png_base64(1, 1, vec![1, 2, 3]));
    let resp = image_upload(&upload(contents)).ok().expect("a decodable image");
    assert_eq!(resp.hex, "010203");
}
