use vstd::prelude::*;

use crate::raster::{RasterImage, Rgb};

verus! {

/// The digit character for one bit.
pub open spec fn bit_char(bit: nat) -> char {
    if bit == 1 {
        '1'
    } else {
        '0'
    }
}

/// The `n` low-order bits of `v` as binary digits, most significant first.
pub open spec fn bits(v: nat, n: nat) -> Seq<char>
    decreases n,
{
    if n == 0 {
        seq![]
    } else {
        bits(v / 2, (n - 1) as nat).push(bit_char(v % 2))
    }
}

/// A channel as eight zero-padded binary digits.
pub open spec fn binary_digits(v: u8) -> Seq<char> {
    bits(v as nat, 8)
}

/// The upper-case hexadecimal digit for `d < 16`.
pub open spec fn hex_digit(d: nat) -> char {
    "0123456789ABCDEF"@[d as int]
}

/// A channel as two zero-padded upper-case hexadecimal digits.
pub open spec fn hex_digits(v: u8) -> Seq<char> {
    seq![hex_digit(v as nat / 16), hex_digit(v as nat % 16)]
}

/// One pixel in binary: red, then green, then blue.
pub open spec fn pixel_binary(p: Rgb) -> Seq<char> {
    binary_digits(p.r) + binary_digits(p.g) + binary_digits(p.b)
}

/// One pixel in hexadecimal: red, then green, then blue.
pub open spec fn pixel_hex(p: Rgb) -> Seq<char> {
    hex_digits(p.r) + hex_digits(p.g) + hex_digits(p.b)
}

/// The binary encodings of the pixels, concatenated in order with no separators.
pub open spec fn binary_text(ps: Seq<Rgb>) -> Seq<char>
    decreases ps.len(),
{
    if ps.len() == 0 {
        seq![]
    } else {
        binary_text(ps.drop_last()) + pixel_binary(ps.last())
    }
}

/// The hexadecimal encodings of the pixels, concatenated in order with no separators.
pub open spec fn hex_text(ps: Seq<Rgb>) -> Seq<char>
    decreases ps.len(),
{
    if ps.len() == 0 {
        seq![]
    } else {
        hex_text(ps.drop_last()) + pixel_hex(ps.last())
    }
}

proof fn lemma_bits_len(v: nat, n: nat)
    ensures
        bits(v, n).len() == n,
    decreases n,
{
    if n > 0 {
        lemma_bits_len(v / 2, (n - 1) as nat);
    }
}

/// Every pixel takes 24 binary digits and 6 hexadecimal digits.
pub proof fn lemma_text_lengths(ps: Seq<Rgb>)
    ensures
        binary_text(ps).len() == 24 * ps.len(),
        hex_text(ps).len() == 6 * ps.len(),
    decreases ps.len(),
{
    if ps.len() > 0 {
        lemma_text_lengths(ps.drop_last());
        lemma_bits_len(ps.last().r as nat, 8);
        lemma_bits_len(ps.last().g as nat, 8);
        lemma_bits_len(ps.last().b as nat, 8);
    }
}

/// For an image of `width * height` pixels the binary text has
/// `24 * width * height` characters and the hexadecimal text `6 * width * height`.
pub proof fn lemma_encoded_lengths(img: RasterImage)
    requires
        img.wf(),
    ensures
        binary_text(img.pixels@).len() == 24 * img.width * img.height,
        hex_text(img.pixels@).len() == 6 * img.width * img.height,
{
    lemma_text_lengths(img.pixels@);
    assert(24 * (img.width as nat * img.height as nat) == 24 * img.width * img.height)
        by (nonlinear_arith);
    assert(6 * (img.width as nat * img.height as nat) == 6 * img.width * img.height)
        by (nonlinear_arith);
}

/// The `i`-th pixel's binary digits are characters `24 * i .. 24 * i + 24`
/// of the binary text, and its hexadecimal digits characters `6 * i .. 6 * i + 6`
/// of the hexadecimal text: pixels appear in order, none reversed or skipped.
pub proof fn lemma_pixel_position(ps: Seq<Rgb>, i: int)
    requires
        0 <= i < ps.len(),
    ensures
        binary_text(ps).subrange(24 * i, 24 * i + 24) == pixel_binary(ps[i]),
        hex_text(ps).subrange(6 * i, 6 * i + 6) == pixel_hex(ps[i]),
    decreases ps.len(),
{
    let front = ps.drop_last();
    lemma_text_lengths(front);
    lemma_text_lengths(ps);
    if i == ps.len() - 1 {
        assert(binary_text(ps).subrange(24 * i, 24 * i + 24) =~= pixel_binary(ps[i]));
        assert(hex_text(ps).subrange(6 * i, 6 * i + 6) =~= pixel_hex(ps[i]));
    } else {
        lemma_pixel_position(front, i);
        assert(binary_text(ps).subrange(24 * i, 24 * i + 24) =~= binary_text(front).subrange(
            24 * i,
            24 * i + 24,
        ));
        assert(hex_text(ps).subrange(6 * i, 6 * i + 6) =~= hex_text(front).subrange(
            6 * i,
            6 * i + 6,
        ));
    }
}

/// Row-major order: the pixel at column `x` of row `y` is encoded at pixel
/// position `y * width + x`, so rows come top to bottom and each row left to right.
pub proof fn lemma_row_major(img: RasterImage, x: int, y: int)
    requires
        img.wf(),
        0 <= x < img.width,
        0 <= y < img.height,
    ensures
        binary_text(img.pixels@).subrange(
            24 * (y * img.width + x),
            24 * (y * img.width + x) + 24,
        ) == pixel_binary(img.pixel_at(x, y)),
        hex_text(img.pixels@).subrange(6 * (y * img.width + x), 6 * (y * img.width + x) + 6)
            == pixel_hex(img.pixel_at(x, y)),
{
    assert(0 <= y * img.width + x < img.width as nat * img.height as nat) by (nonlinear_arith)
        requires
            0 <= x < img.width,
            0 <= y < img.height,
    ;
    lemma_pixel_position(img.pixels@, y * img.width + x);
}

/// Encoding depends on the pixels alone: two images with the same pixels get
/// identical texts, so encoding one image twice gives the same strings.
pub proof fn lemma_encoding_deterministic(a: RasterImage, b: RasterImage)
    requires
        a.pixels@ == b.pixels@,
    ensures
        binary_text(a.pixels@) == binary_text(b.pixels@),
        hex_text(a.pixels@) == hex_text(b.pixels@),
{
}

/// Appends the `n` low-order bits of `v`, most significant first.
fn push_bits(out: &mut String, v: u8, n: u8)
    requires
        n <= 8,
    ensures
        final(out)@ == old(out)@ + bits(v as nat, n as nat),
    decreases n,
{
    if n > 0 {
        push_bits(out, v / 2, n - 1);
        proof {
            reveal_strlit("0");
            reveal_strlit("1");
        }
        if v % 2 == 1 {
            out.append("1");
        } else {
            out.append("0");
        }
        assert(out@ =~= old(out)@ + bits(v as nat, n as nat));
    }
}

/// Appends the hexadecimal digit `d`.
fn push_hex_digit(out: &mut String, d: u8)
    requires
        d < 16,
    ensures
        final(out)@ == old(out)@.push(hex_digit(d as nat)),
{
    let digits = "0123456789ABCDEF";
    proof {
        reveal_strlit("0123456789ABCDEF");
    }
    let digit = digits.substring_char(d as usize, d as usize + 1);
    out.append(digit);
    assert(out@ =~= old(out)@.push(hex_digit(d as nat)));
}

/// Appends one pixel's binary encoding.
fn push_pixel_binary(out: &mut String, p: Rgb)
    ensures
        final(out)@ == old(out)@ + pixel_binary(p),
{
    push_bits(out, p.r, 8);
    push_bits(out, p.g, 8);
    push_bits(out, p.b, 8);
    assert(out@ =~= old(out)@ + pixel_binary(p));
}

/// Appends one pixel's hexadecimal encoding.
fn push_pixel_hex(out: &mut String, p: Rgb)
    ensures
        final(out)@ == old(out)@ + pixel_hex(p),
{
    push_hex_digit(out, p.r / 16);
    push_hex_digit(out, p.r % 16);
    push_hex_digit(out, p.g / 16);
    push_hex_digit(out, p.g % 16);
    push_hex_digit(out, p.b / 16);
    push_hex_digit(out, p.b % 16);
    assert(out@ =~= old(out)@ + pixel_hex(p));
}

/// The image as binary digits: every pixel in row-major order (rows top to
/// bottom, each left to right), each channel as eight zero-padded binary digits.
pub fn convert_to_binary(image: &RasterImage) -> (r: String)
    requires
        image.wf(),
    ensures
        r@ == binary_text(image.pixels@),
        r@.len() == 24 * image.width * image.height,
{
    let mut text = String::new();
    let n: usize = image.pixels.len();
    let mut i: usize = 0;
    while i < n
        invariant
            n == image.pixels@.len(),
            i <= n,
            text@ == binary_text(image.pixels@.subrange(0, i as int)),
        decreases n - i,
    {
        push_pixel_binary(&mut text, image.pixels[i]);
        proof {
            let done = image.pixels@.subrange(0, i + 1);
            assert(done.drop_last() =~= image.pixels@.subrange(0, i as int));
        }
        i = i + 1;
    }
    assert(image.pixels@.subrange(0, n as int) =~= image.pixels@);
    proof {
        lemma_encoded_lengths(*image);
    }
    text
}

/// The image as hexadecimal digits: every pixel in row-major order (rows top
/// to bottom, each left to right), each channel as two zero-padded upper-case
/// hexadecimal digits.
pub fn convert_to_hex(image: &RasterImage) -> (r: String)
    requires
        image.wf(),
    ensures
        r@ == hex_text(image.pixels@),
        r@.len() == 6 * image.width * image.height,
{
    let mut text = String::new();
    let n: usize = image.pixels.len();
    let mut i: usize = 0;
    while i < n
        invariant
            n == image.pixels@.len(),
            i <= n,
            text@ == hex_text(image.pixels@.subrange(0, i as int)),
        decreases n - i,
    {
        push_pixel_hex(&mut text, image.pixels[i]);
        proof {
            let done = image.pixels@.subrange(0, i + 1);
            assert(done.drop_last() =~= image.pixels@.subrange(0, i as int));
        }
        i = i + 1;
    }
    assert(image.pixels@.subrange(0, n as int) =~= image.pixels@);
    proof {
        lemma_encoded_lengths(*image);
    }
    text
}

} // verus!
