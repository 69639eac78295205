use vstd::prelude::*;

use crate::decoders::{base64_decoded, decode_base64, decode_rgba, decoded_rgba};
use crate::encoding::{binary_text, convert_to_binary, convert_to_hex, hex_text};
use crate::models::{FileResponse, FileUpload, ResponseError};
use crate::raster::{rgba_pixels, RasterImage};

verus! {

/// Why a request could not be answered with an encoding.
#[derive(Clone, Copy, Debug, PartialEq, Eq, Structural)]
pub enum RequestError {
    /// The file contents are not valid base64.
    InvalidEncoding,
    /// The decoded bytes are not an image in a supported format.
    UnsupportedOrCorrupt,
    /// No handler matches the request's method and path.
    RouteNotFound,
}

/// The most bytes of base64 text that the decoder accepts.
pub const MAX_CONTENTS_BYTES: usize = 0x7fff_ffff;

/// What an upload with the given base64 contents yields: the image's binary
/// and hexadecimal texts, or the first failure. It depends on the contents
/// alone, so no request can see another's data.
pub open spec fn upload_outcome(contents: Seq<char>) -> Result<(Seq<char>, Seq<char>), RequestError> {
    if vstd::utf8::encode_utf8(contents).len() > MAX_CONTENTS_BYTES {
        Err(RequestError::InvalidEncoding)
    } else {
        match base64_decoded(contents) {
            None => Err(RequestError::InvalidEncoding),
            Some(bytes) => match decoded_rgba(bytes) {
                None => Err(RequestError::UnsupportedOrCorrupt),
                Some((_w, _h, raw)) => Ok((binary_text(rgba_pixels(raw)), hex_text(rgba_pixels(raw)))),
            },
        }
    }
}

/// Uploads do not interfere: of two requests, each running in any order or
/// at the same time, each one whose contents decode to an image gets exactly
/// that image's binary and hexadecimal texts, never the other's. The outcome
/// is fixed by each request's own contents alone.
pub proof fn lemma_uploads_independent(
    first: Seq<char>,
    first_bytes: Seq<u8>,
    first_image: (u32, u32, Seq<u8>),
    second: Seq<char>,
    second_bytes: Seq<u8>,
    second_image: (u32, u32, Seq<u8>),
)
    requires
        vstd::utf8::encode_utf8(first).len() <= MAX_CONTENTS_BYTES,
        vstd::utf8::encode_utf8(second).len() <= MAX_CONTENTS_BYTES,
        base64_decoded(first) == Some(first_bytes),
        base64_decoded(second) == Some(second_bytes),
        decoded_rgba(first_bytes) == Some(first_image),
        decoded_rgba(second_bytes) == Some(second_image),
    ensures
        upload_outcome(first) == Ok::<_, RequestError>(
            (binary_text(rgba_pixels(first_image.2)), hex_text(rgba_pixels(first_image.2))),
        ),
        upload_outcome(second) == Ok::<_, RequestError>(
            (binary_text(rgba_pixels(second_image.2)), hex_text(rgba_pixels(second_image.2))),
        ),
{
}

/// Decodes the uploaded image and returns it as binary and hexadecimal text.
/// The contents are standard base64, padded to a multiple of four characters;
/// the image format is sniffed from the decoded bytes, not taken from `filetype`.
/// Contents longer than `MAX_CONTENTS_BYTES` bytes, more than the decoder can
/// take, are refused as `InvalidEncoding`.
/// The image bytes never leave memory, so concurrent uploads are independent.
pub fn image_upload(payload: &FileUpload) -> (r: Result<FileResponse, RequestError>)
    ensures
        r matches Ok(resp) ==> upload_outcome(payload.file.contents@) == Ok::<_, RequestError>((resp.binary@, resp.hex@)),
        r matches Err(e) ==> upload_outcome(payload.file.contents@) == Err::<(Seq<char>, Seq<char>), _>(e),
{
    let contents: &str = payload.file.contents.as_str();
    let byte_len: usize = contents.as_bytes().len();
    if byte_len > MAX_CONTENTS_BYTES {
        return Err(RequestError::InvalidEncoding);
    }
    let bytes = match decode_base64(contents) {
        Ok(bytes) => bytes,
        Err(_) => return Err(RequestError::InvalidEncoding),
    };
    let image_bytes: &[u8] = bytes.as_slice();
    assert(image_bytes@ == bytes@);
    let (width, height, raw) = match decode_rgba(image_bytes) {
        Ok(decoded) => decoded,
        Err(_) => return Err(RequestError::UnsupportedOrCorrupt),
    };
    let image = RasterImage::from_rgba(width, height, &raw);
    let binary = convert_to_binary(&image);
    let hex = convert_to_hex(&image);
    Ok(FileResponse { binary, hex })
}

/// The HTTP status for each failure: 400 for a bad payload, 404 for an
/// unknown route.
pub open spec fn status_of(e: RequestError) -> u16 {
    match e {
        RequestError::InvalidEncoding => 400,
        RequestError::UnsupportedOrCorrupt => 400,
        RequestError::RouteNotFound => 404,
    }
}

/// The `message` field of the error body for each failure.
pub open spec fn message_of(e: RequestError) -> Seq<char> {
    match e {
        RequestError::InvalidEncoding => "file contents are not valid base64"@,
        RequestError::UnsupportedOrCorrupt => "file contents are not a supported image"@,
        RequestError::RouteNotFound => ""@,
    }
}

/// The `error` field of the error body for each failure.
pub open spec fn label_of(e: RequestError) -> Seq<char> {
    match e {
        RequestError::InvalidEncoding => "invalid encoding"@,
        RequestError::UnsupportedOrCorrupt => "unsupported or corrupt image"@,
        RequestError::RouteNotFound => "page not found"@,
    }
}

/// The status code and structured body that answer a failed request.
pub fn error_reply(e: RequestError) -> (r: (u16, ResponseError))
    ensures
        r.0 == status_of(e),
        r.1.message@ == message_of(e),
        r.1.error@ == label_of(e),
{
    match e {
        RequestError::InvalidEncoding => (400, ResponseError {
            message: String::from_str("file contents are not valid base64"),
            error: String::from_str("invalid encoding"),
        }),
        RequestError::UnsupportedOrCorrupt => (400, ResponseError {
            message: String::from_str("file contents are not a supported image"),
            error: String::from_str("unsupported or corrupt image"),
        }),
        RequestError::RouteNotFound => (404, ResponseError {
            message: String::from_str(""),
            error: String::from_str("page not found"),
        }),
    }
}

/// The answer to any request that no route matches: 404, an empty message
/// and the error "page not found".
pub fn fallback_func() -> (r: (u16, ResponseError))
    ensures
        r.0 == 404,
        r.1.message@.len() == 0,
        r.1.error@ == "page not found"@,
{
    proof {
        reveal_strlit("");
    }
    error_reply(RequestError::RouteNotFound)
}

} // verus!
