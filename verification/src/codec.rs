//! Byte codecs: base64 and base58 through their crates, SHA-256 through
//! `sha2`, the hexadecimal rendering of digests, and JPEG frames through
//! `image`.

use vstd::prelude::*;
use base64::Engine;
use sha2::Digest;
use image::ImageEncoder;
use crate::text::push_char;

verus! {

/// The bytes that the standard, padded base64 alphabet decodes `s` to,
/// or `None` where `s` is not valid base64.
pub uninterp spec fn base64_standard_decode(s: Seq<char>) -> Option<Seq<u8>>;

/// The base58 (Bitcoin alphabet) text of `bytes`.
pub uninterp spec fn base58_encode(bytes: Seq<u8>) -> Seq<char>;

/// The SHA-256 digest of `bytes`.
pub uninterp spec fn sha256(bytes: Seq<u8>) -> Seq<u8>;

/// `base64::engine::general_purpose::STANDARD.decode`: the decoded bytes,
/// or the decoder's error rendered as text. The result is the named
/// decoding of `s`; the error text is not described.
#[verifier::external_body]
pub(crate) fn decode_base64_standard(s: &str) -> (r: Result<Vec<u8>, String>)
    ensures
        r is Ok <==> base64_standard_decode(s@) is Some,
        r matches Ok(v) ==> v@ == base64_standard_decode(s@)->0,
{
    base64::engine::general_purpose::STANDARD.decode(s).map_err(|e| e.to_string())
}

/// `bs58::encode(bytes).into_string()`: the base58 text of `bytes`.
#[verifier::external_body]
pub(crate) fn encode_base58(bytes: &[u8]) -> (r: String)
    ensures
        r@ == base58_encode(bytes@),
{
    bs58::encode(bytes).into_string()
}

/// `sha2::Sha256::digest`: the 32-byte SHA-256 digest of `bytes`.
#[verifier::external_body]
pub(crate) fn sha256_digest(bytes: &[u8]) -> (r: Vec<u8>)
    ensures
        r@ == sha256(bytes@),
        r@.len() == 32,
{
    sha2::Sha256::digest(bytes).to_vec()
}

/// The lower-case hexadecimal digit of `n < 16`.
pub open spec fn hex_digit(n: u8) -> char {
    if n < 10 {
        ((n + 48) as u8) as char
    } else {
        ((n + 87) as u8) as char
    }
}

/// Two lower-case hex digits per byte, most significant first.
pub open spec fn hex(bytes: Seq<u8>) -> Seq<char>
    decreases bytes.len(),
{
    if bytes.len() == 0 {
        seq![]
    } else {
        hex(bytes.drop_last()) + seq![hex_digit(bytes.last() / 16), hex_digit(bytes.last() % 16)]
    }
}

fn hex_digit_exec(n: u8) -> (c: char)
    requires
        n < 16,
    ensures
        c == hex_digit(n),
{
    if n < 10 {
        (n + 48) as char
    } else {
        (n + 87) as char
    }
}

/// The lower-case hexadecimal text of `bytes`; `format!("{:02x}")` per byte.
pub fn hex_lower(bytes: &[u8]) -> (s: String)
    ensures
        s@ == hex(bytes@),
{
    let mut s = String::new();
    let mut i: usize = 0;
    while i < bytes.len()
        invariant
            i <= bytes.len(),
            s@ == hex(bytes@.subrange(0, i as int)),
        decreases bytes.len() - i,
    {
        let b = bytes[i];
        push_char(&mut s, hex_digit_exec(b / 16));
        push_char(&mut s, hex_digit_exec(b % 16));
        proof {
            assert(bytes@.subrange(0, i + 1).drop_last() =~= bytes@.subrange(0, i as int));
        }
        i = i + 1;
    }
    assert(bytes@.subrange(0, bytes@.len() as int) =~= bytes@);
    s
}

/// The SHA-256 digest of `bytes` in lower-case hex.
pub fn sha256_hex(bytes: &[u8]) -> (s: String)
    ensures
        s@ == hex(sha256(bytes@)),
        s@.len() == 64,
{
    let d = sha256_digest(bytes);
    let s = hex_lower(d.as_slice());
    proof {
        lemma_hex_len(d@);
    }
    s
}

pub proof fn lemma_hex_len(b: Seq<u8>)
    ensures
        hex(b).len() == 2 * b.len(),
    decreases b.len(),
{
    if b.len() > 0 {
        lemma_hex_len(b.drop_last());
    }
}

/// Every character of `hex(b)` is a lower-case hexadecimal digit.
pub proof fn lemma_hex_lower(b: Seq<u8>)
    ensures
        forall|i: int| 0 <= i < hex(b).len() ==> crate::text::is_lower_hex_char(#[trigger] hex(b)[i]),
    decreases b.len(),
{
    if b.len() > 0 {
        lemma_hex_lower(b.drop_last());
        let x = b.last();
        assert(x / 16 < 16 && x % 16 < 16);
        let d1 = hex_digit(x / 16);
        let d2 = hex_digit(x % 16);
        assert(crate::text::is_lower_hex_char(d1) && crate::text::is_lower_hex_char(d2)) by {
            assert(forall|n: u8| n < 16 ==> crate::text::is_lower_hex_char(#[trigger] hex_digit(n))) by {
                assert forall|n: u8| n < 16 implies crate::text::is_lower_hex_char(#[trigger] hex_digit(n)) by {
                    if n < 10 {
                        assert(((n + 48) as u8) as char == ((n + 48) as u8) as char);
                    }
                }
            }
        }
        let h = hex(b);
        let p = hex(b.drop_last());
        assert(h == p + seq![d1, d2]);
        assert forall|i: int| 0 <= i < h.len() implies crate::text::is_lower_hex_char(#[trigger] h[i]) by {
            if i < p.len() {
                assert(h[i] == p[i]);
            }
        }
    }
}

/// 256 to the power `m`.
pub open spec fn pow256(m: nat) -> nat
    decreases m,
{
    if m == 0 {
        1
    } else {
        256 * pow256((m - 1) as nat)
    }
}

/// The little-endian number that `b` encodes.
pub open spec fn le_value(b: Seq<u8>) -> nat
    decreases b.len(),
{
    if b.len() == 0 {
        0
    } else {
        (b[0] + 256 * le_value(b.drop_first())) as nat
    }
}

proof fn lemma_le_step(acc: nat, m: nat, byte: u8)
    requires
        acc < pow256(m),
    ensures
        byte + 256 * acc < pow256(m + 1),
{
    let p = pow256(m);
    assert(pow256(m + 1) == 256 * p);
    assert(byte + 256 * acc < 256 * p) by (nonlinear_arith)
        requires
            acc < p,
            byte < 256,
    ;
}

proof fn lemma_pow256_8()
    ensures
        pow256(8) == 0x1_0000_0000_0000_0000,
{
    reveal_with_fuel(pow256, 9);
}

/// `u64::from_le_bytes` of `b[at..at + 8]`.
pub fn read_le_u64(b: &[u8], at: usize) -> (r: u64)
    requires
        at + 8 <= b.len(),
    ensures
        r == le_value(b@.subrange(at as int, at + 8)),
{
    let ghost w = b@.subrange(at as int, at + 8);
    let mut acc: u64 = 0;
    let mut k: usize = 8;
    proof {
        assert(w.subrange(8, 8).len() == 0);
    }
    while k > 0
        invariant
            at + 8 <= b.len(),
            w == b@.subrange(at as int, at + 8),
            k <= 8,
            acc == le_value(w.subrange(k as int, 8)),
            acc < pow256((8 - k) as nat),
        decreases k,
    {
        let byte = b[at + k - 1];
        proof {
            lemma_le_step(acc as nat, (8 - k) as nat, byte);
            lemma_pow256_mono((9 - k) as nat);
            assert(w.subrange(k - 1, 8).drop_first() =~= w.subrange(k as int, 8));
            assert(w.subrange(k - 1, 8)[0] == byte);
        }
        acc = byte as u64 + 256 * acc;
        k = k - 1;
    }
    assert(w.subrange(0, 8) =~= w);
    acc
}

proof fn lemma_pow256_mono(m: nat)
    requires
        m <= 8,
    ensures
        pow256(m) <= 0x1_0000_0000_0000_0000,
    decreases 8 - m,
{
    if m < 8 {
        lemma_pow256_mono(m + 1);
        assert(pow256(m + 1) == 256 * pow256(m));
    } else {
        lemma_pow256_8();
    }
}

} // verus!

verus! {

/// JPEG quality (0-100) of encoded frames.
pub const JPEG_QUALITY: u8 = 80;

/// Why a frame could not be encoded.
#[derive(Debug, Clone)]
pub enum CodecError {
    /// The RGBA buffer does not hold `width * height` pixels (`expected`
    /// is 0 where that size overflows).
    InvalidRgbaSize { width: u32, height: u32, expected: usize, actual: usize },
    /// The JPEG encoder failed, with its message.
    JpegEncode(String),
}

/// What `image`'s JPEG encoder writes for an RGB8 image of `width` by
/// `height` at `quality`, or its error message.
pub uninterp spec fn jpeg_rgb8(rgb: Seq<u8>, width: u32, height: u32, quality: u8) -> Result<Seq<u8>, Seq<char>>;

/// `image::codecs::jpeg::JpegEncoder::new_with_quality` writing into a
/// vector, then `write_image` with `ColorType::Rgb8`; the result (bytes or
/// the error's text) is the named encoding of the arguments. The encoder
/// panics unless the buffer holds exactly three bytes per pixel.
#[verifier::external_body]
fn encode_jpeg_rgb8(rgb: &[u8], width: u32, height: u32, quality: u8) -> (r: Result<Vec<u8>, String>)
    requires
        rgb@.len() == 3 * width * height,
    ensures
        match jpeg_rgb8(rgb@, width, height, quality) {
            Ok(b) => r matches Ok(v) && v@ == b,
            Err(m) => r matches Err(e) && e@ == m,
        },
{
    let mut out: Vec<u8> = Vec::new();
    let encoder = image::codecs::jpeg::JpegEncoder::new_with_quality(&mut out, quality);
    match encoder.write_image(rgb, width, height, image::ColorType::Rgb8.into()) {
        Ok(()) => Ok(out),
        Err(e) => Err(e.to_string()),
    }
}

/// The RGB bytes of an RGBA buffer: each pixel's alpha dropped.
pub open spec fn rgb_of(rgba: Seq<u8>) -> Seq<u8>
    decreases rgba.len(),
{
    if rgba.len() < 4 {
        seq![]
    } else {
        let n = rgba.len() - 4;
        rgb_of(rgba.subrange(0, n)) + seq![rgba[n], rgba[n + 1], rgba[n + 2]]
    }
}

proof fn lemma_rgb_of_len(rgba: Seq<u8>)
    requires
        rgba.len() % 4 == 0,
    ensures
        rgb_of(rgba).len() * 4 == rgba.len() * 3,
    decreases rgba.len(),
{
    if rgba.len() >= 4 {
        lemma_rgb_of_len(rgba.subrange(0, rgba.len() - 4));
    }
}

/// Encodes an RGBA8 frame of `width` by `height` as JPEG at
/// [`JPEG_QUALITY`], dropping the alpha channel; the buffer must hold
/// exactly four bytes per pixel.
pub fn encode_jpeg_rgba(rgba: &[u8], width: u32, height: u32) -> (r: Result<Vec<u8>, CodecError>)
    ensures
        width * height * 4 > usize::MAX ==> (r matches Err(CodecError::InvalidRgbaSize { width: w, height: h, expected, actual })
            && w == width && h == height && expected == 0 && actual == rgba@.len()),
        width * height * 4 <= usize::MAX && rgba@.len() != width * height * 4 ==> (r matches Err(
            CodecError::InvalidRgbaSize { width: w, height: h, expected, actual },
        ) && w == width && h == height && expected == width * height * 4 && actual == rgba@.len()),
        width * height * 4 <= usize::MAX && rgba@.len() == width * height * 4 ==> match jpeg_rgb8(
            rgb_of(rgba@),
            width,
            height,
            JPEG_QUALITY,
        ) {
            Ok(b) => r matches Ok(v) && v@ == b,
            Err(m) => r matches Err(CodecError::JpegEncode(e)) && e@ == m,
        },
{
    let pixels = (width as usize).checked_mul(height as usize);
    let expected = match pixels {
        Some(p) => p.checked_mul(4),
        None => None,
    };
    proof {
        assert(width * height * 4 == (width * height) * 4) by (nonlinear_arith);
        if (width as usize) * (height as usize) <= usize::MAX {
            assert(width * height <= usize::MAX);
        }
        assert(width * height >= 0) by (nonlinear_arith);
    }
    let expected = match expected {
        Some(e) => e,
        None => {
            proof {
                if width * height <= usize::MAX {
                    assert(pixels == Some((width * height) as usize));
                }
            }
            return Err(CodecError::InvalidRgbaSize { width, height, expected: 0, actual: rgba.len() });
        },
    };
    if rgba.len() != expected {
        return Err(CodecError::InvalidRgbaSize { width, height, expected, actual: rgba.len() });
    }
    let mut rgb: Vec<u8> = Vec::new();
    let mut k: usize = 0;
    while k < rgba.len()
        invariant
            k <= rgba.len(),
            k % 4 == 0,
            rgba.len() % 4 == 0,
            rgb@ == rgb_of(rgba@.subrange(0, k as int)),
        decreases rgba.len() - k,
    {
        assert(k + 4 <= rgba.len()) by (nonlinear_arith)
            requires
                k < rgba.len(),
                k % 4 == 0,
                rgba.len() % 4 == 0,
        ;
        rgb.push(rgba[k]);
        rgb.push(rgba[k + 1]);
        rgb.push(rgba[k + 2]);
        proof {
            let s = rgba@.subrange(0, k + 4);
            assert(s.subrange(0, k as int) =~= rgba@.subrange(0, k as int));
        }
        k = k + 4;
        assert(rgb@ =~= rgb_of(rgba@.subrange(0, k as int)));
    }
    assert(rgba@.subrange(0, rgba@.len() as int) =~= rgba@);
    proof {
        lemma_rgb_of_len(rgba@);
        assert(rgb@.len() == 3 * width * height) by (nonlinear_arith)
            requires
                rgb@.len() * 4 == rgba@.len() * 3,
                rgba@.len() == width * height * 4,
        ;
    }
    match encode_jpeg_rgb8(rgb.as_slice(), width, height, JPEG_QUALITY) {
        Ok(v) => Ok(v),
        Err(m) => Err(CodecError::JpegEncode(m)),
    }
}

} // verus!

verus! {

/// The standard, padded base64 text of `bytes`.
pub uninterp spec fn base64_standard_encode(bytes: Seq<u8>) -> Seq<char>;

/// `base64::engine::general_purpose::STANDARD.encode`: the named base64
/// text of `bytes`.
#[verifier::external_body]
pub(crate) fn encode_base64_standard(bytes: &[u8]) -> (s: String)
    ensures
        s@ == base64_standard_encode(bytes@),
{
    base64::engine::general_purpose::STANDARD.encode(bytes)
}

/// What `image`'s PNG encoder (default compression and filter) writes for
/// an RGBA8 image of `width` by `height`, or its error message.
pub uninterp spec fn png_rgba8(rgba: Seq<u8>, width: u32, height: u32) -> Result<Seq<u8>, Seq<char>>;

/// `image::codecs::png::PngEncoder::new` writing into a vector, then
/// `write_image` with `ColorType::Rgba8` (what `write_to` with
/// `ImageFormat::Png` does); the result (bytes or the error's text) is the
/// named encoding of the arguments. The encoder panics unless the buffer
/// holds exactly four bytes per pixel.
#[verifier::external_body]
pub(crate) fn encode_png_rgba8(rgba: &[u8], width: u32, height: u32) -> (r: Result<Vec<u8>, String>)
    requires
        rgba@.len() == 4 * width * height,
    ensures
        match png_rgba8(rgba@, width, height) {
            Ok(b) => r matches Ok(v) && v@ == b,
            Err(m) => r matches Err(e) && e@ == m,
        },
{
    let mut out: Vec<u8> = Vec::new();
    let encoder = image::codecs::png::PngEncoder::new(&mut out);
    match encoder.write_image(rgba, width, height, image::ColorType::Rgba8.into()) {
        Ok(()) => Ok(out),
        Err(e) => Err(e.to_string()),
    }
}

} // verus!
