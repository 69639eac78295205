use vstd::prelude::*;

verus! {

#[verifier::external_type_specification]
#[verifier::external_body]
pub struct ExErrorStack(openssl::error::ErrorStack);

#[verifier::external_type_specification]
#[verifier::external_body]
pub struct ExImageError(image::ImageError);

/// The bytes that OpenSSL's base64 block decoder gives for a text, or `None`
/// where it rejects the text.
pub uninterp spec fn base64_decoded(text: Seq<char>) -> Option<Seq<u8>>;

/// The width, height and row-major RGBA bytes (four per pixel) that the image
/// crate decodes from a file's bytes, or `None` where it cannot.
pub uninterp spec fn decoded_rgba(bytes: Seq<u8>) -> Option<(u32, u32, Seq<u8>)>;

/// Relies on openssl::base64::decode_block: standard alphabet, padded to a
/// multiple of four characters, surrounding whitespace trimmed.
/// It panics on a text longer than `i32::MAX` bytes, which `requires` leaves out.
#[verifier::external_body]
pub(crate) fn decode_base64(text: &str) -> (r: Result<Vec<u8>, openssl::error::ErrorStack>)
    requires
        text.len() <= 0x7fff_ffff,
    ensures
        r is Ok <==> base64_decoded(text@) is Some,
        r matches Ok(bytes) ==> base64_decoded(text@) == Some(bytes@),
{
    openssl::base64::decode_block(text)
}

/// Relies on image::load_from_memory, which sniffs the format from the bytes,
/// and on DynamicImage::to_rgba8, whose buffer holds exactly four bytes per pixel.
/// The JPEG decoder is built with its platform-independent code only, so the
/// pixels depend on the bytes alone.
#[verifier::external_body]
pub(crate) fn decode_rgba(bytes: &[u8]) -> (r: Result<(u32, u32, Vec<u8>), image::ImageError>)
    ensures
        r is Ok <==> decoded_rgba(bytes@) is Some,
        r matches Ok((w, h, raw)) ==> decoded_rgba(bytes@) == Some((w, h, raw@)),
        r matches Ok((w, h, raw)) ==> raw@.len() == 4 * (w as nat * h as nat),
{
    let rgba = image::load_from_memory(bytes)?.to_rgba8();
    let (w, h) = rgba.dimensions();
    Ok((w, h, rgba.into_raw()))
}

} // verus!
