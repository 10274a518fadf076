//! NV12 to JPEG: the NV12 frame is converted to packed RGB8 with the BT.601
//! limited-range integer formulas, and the RGB8 image is handed to the JPEG
//! encoder of the `image` crate.
use vstd::prelude::*;
use vstd::arithmetic::div_mod::{lemma_div_is_ordered, lemma_fundamental_div_mod_converse};
use image::codecs::jpeg::JpegEncoder;
use image::ExtendedColorType;
use image::ImageError;

verus! {

/// Why an NV12 frame could not be encoded.
#[derive(Debug, Clone, PartialEq, Eq, Structural)]
pub enum JpegError {
    InvalidDimensions,
    InvalidBufferLength,
    EncodeFailed,
}

/// The name of a JPEG error, as its `Debug` form writes it.
pub open spec fn jpeg_error_name(err: JpegError) -> Seq<char> {
    match err {
        JpegError::InvalidDimensions => "InvalidDimensions"@,
        JpegError::InvalidBufferLength => "InvalidBufferLength"@,
        JpegError::EncodeFailed => "EncodeFailed"@,
    }
}

impl JpegError {
    /// The variant's name, as its `Debug` form writes it.
    pub fn debug_name(&self) -> (name: &'static str)
        ensures
            name@ == jpeg_error_name(*self),
    {
        match self {
            JpegError::InvalidDimensions => "InvalidDimensions",
            JpegError::InvalidBufferLength => "InvalidBufferLength",
            JpegError::EncodeFailed => "EncodeFailed",
        }
    }
}

#[verifier::external_type_specification]
#[verifier::external_body]
pub struct ExImageError(ImageError);

/// The bytes that the `image` crate's JPEG encoder writes for a packed RGB8
/// image of the given size at the given quality.
pub uninterp spec fn jpeg_rgb8_bytes(rgb: Seq<u8>, width: u32, height: u32, quality: u8) -> Seq<u8>;

/// The JPEG encoder accepts images whose sides both lie in `1..=65535`.
pub open spec fn jpeg_size_supported(width: int, height: int) -> bool {
    1 <= width <= 65535 && 1 <= height <= 65535
}

/// Encodes a packed RGB8 buffer with `image::codecs::jpeg::JpegEncoder`
/// (`new_with_quality` writing into a `Vec`, then `encode` with
/// `ExtendedColorType::Rgb8`).
///
/// Trusted: the encoder succeeds exactly when both sides fit in a `u16` and are
/// not zero (it refuses other sizes with `EncoderError::InvalidSize`, and
/// writing into a `Vec` cannot fail), and on success the output is the named
/// result `jpeg_rgb8_bytes` of the pixels, size and quality. `encode` panics
/// when the buffer length is not `width * height * 3`, which `requires`
/// excludes.
#[verifier::external_body]
fn encode_rgb8_jpeg(rgb: &[u8], width: u32, height: u32, quality: u8) -> (res: Result<Vec<u8>, ImageError>)
    requires
        rgb@.len() == width * height * 3,
    ensures
        res is Ok <==> jpeg_size_supported(width as int, height as int),
        res matches Ok(bytes) ==> bytes@ == jpeg_rgb8_bytes(rgb@, width, height, quality),
{
    let mut encoded = Vec::new();
    match JpegEncoder::new_with_quality(&mut encoded, quality).encode(
        rgb,
        width,
        height,
        ExtendedColorType::Rgb8,
    ) {
        Ok(()) => Ok(encoded),
        Err(err) => Err(err),
    }
}

/// `v` clamped to `0..=255`.
pub open spec fn clamp_to_byte(v: int) -> u8 {
    if v < 0 {
        0
    } else if v > 255 {
        255
    } else {
        v as u8
    }
}

/// One channel (0 red, 1 green, 2 blue) of the RGB value of a limited-range
/// YUV sample, with the integer BT.601 coefficients and rounding.
pub open spec fn yuv_to_rgb_channel(y: int, u: int, v: int, channel: int) -> u8 {
    let c = y - 16;
    let d = u - 128;
    let e = v - 128;
    if channel == 0 {
        clamp_to_byte((298 * c + 409 * e + 128) / 256)
    } else if channel == 1 {
        clamp_to_byte((298 * c - 100 * d - 208 * e + 128) / 256)
    } else {
        clamp_to_byte((298 * c + 516 * d + 128) / 256)
    }
}

/// The frame is a valid NV12 geometry: both sides are positive and even, and
/// the NV12 buffer size `w * h * 3 / 2` fits in a `usize`.
pub open spec fn nv12_dimensions_valid(width: int, height: int) -> bool {
    &&& width > 0
    &&& height > 0
    &&& width % 2 == 0
    &&& height % 2 == 0
    &&& nv12_len(width, height) <= usize::MAX
}

/// Byte length of an NV12 frame: a full-size luma plane followed by an
/// interleaved chroma plane of half the rows.
pub open spec fn nv12_len(width: int, height: int) -> int {
    width * height + (width * height) / 2
}

/// Index of the U byte of the chroma pair that covers luma sample `pixel`;
/// the V byte follows it.
pub open spec fn chroma_index(width: int, height: int, pixel: int) -> int {
    width * height + ((pixel / width) / 2) * width + ((pixel % width) / 2) * 2
}

/// Byte `i` of the packed RGB8 image of an NV12 frame.
pub open spec fn nv12_rgb_byte(nv12: Seq<u8>, width: int, height: int, i: int) -> u8 {
    let pixel = i / 3;
    let chroma = chroma_index(width, height, pixel);
    yuv_to_rgb_channel(nv12[pixel] as int, nv12[chroma] as int, nv12[chroma + 1] as int, i % 3)
}

/// The packed RGB8 image (three bytes per pixel, row by row) of an NV12 frame.
pub open spec fn nv12_to_rgb8(nv12: Seq<u8>, width: int, height: int) -> Seq<u8> {
    Seq::new((width * height * 3) as nat, |i: int| nv12_rgb_byte(nv12, width, height, i))
}

/// What `encode_nv12_to_jpeg` returns.
pub open spec fn nv12_jpeg_result(
    nv12: Seq<u8>,
    width: u32,
    height: u32,
    quality: u8,
) -> Result<Seq<u8>, JpegError> {
    if !nv12_dimensions_valid(width as int, height as int) {
        Err(JpegError::InvalidDimensions)
    } else if nv12.len() != nv12_len(width as int, height as int) {
        Err(JpegError::InvalidBufferLength)
    } else if !jpeg_size_supported(width as int, height as int) {
        Err(JpegError::EncodeFailed)
    } else {
        Ok(jpeg_rgb8_bytes(nv12_to_rgb8(nv12, width as int, height as int), width, height, quality))
    }
}

/// An NV12 frame of `width` x `height` pixels and `len` bytes can be encoded:
/// the geometry is valid, the length matches it, and the encoder accepts the
/// size.
pub fn nv12_encodable(width: u32, height: u32, len: usize) -> (ok: bool)
    ensures
        ok == (nv12_dimensions_valid(width as int, height as int) && len == nv12_len(
            width as int,
            height as int,
        ) && jpeg_size_supported(width as int, height as int)),
{
    if width == 0 || height == 0 || width % 2 != 0 || height % 2 != 0 {
        return false;
    }
    let w = width as usize;
    let h = height as usize;
    let y_len = match w.checked_mul(h) {
        Some(n) => n,
        None => return false,
    };
    let expected_len = match y_len.checked_add(y_len / 2) {
        Some(n) => n,
        None => return false,
    };
    len == expected_len && width <= 65535 && height <= 65535
}

/// Encodes an NV12 frame of `width` x `height` pixels as a JPEG of the given
/// quality.
pub fn encode_nv12_to_jpeg(
    width: u32,
    height: u32,
    nv12: &[u8],
    quality: u8,
) -> (res: Result<Vec<u8>, JpegError>)
    requires
        nv12@.len() <= isize::MAX,
    ensures
        match (res, nv12_jpeg_result(nv12@, width, height, quality)) {
            (Ok(bytes), Ok(expected)) => bytes@ == expected,
            (Err(e), Err(expected)) => e == expected,
            _ => false,
        },
{
    if width == 0 || height == 0 || width % 2 != 0 || height % 2 != 0 {
        return Err(JpegError::InvalidDimensions);
    }

    let w = width as usize;
    let h = height as usize;
    let y_len = match w.checked_mul(h) {
        Some(n) => n,
        None => return Err(JpegError::InvalidDimensions),
    };
    let expected_len = match y_len.checked_add(y_len / 2) {
        Some(n) => n,
        None => return Err(JpegError::InvalidDimensions),
    };
    if nv12.len() != expected_len {
        return Err(JpegError::InvalidBufferLength);
    }

    let rgb = nv12_to_rgb8_buffer(nv12, w, h);
    assert(rgb@.len() == width * height * 3);
    match encode_rgb8_jpeg(rgb.as_slice(), width, height, quality) {
        Ok(encoded) => Ok(encoded),
        Err(_) => Err(JpegError::EncodeFailed),
    }
}

/// The BT.601 limited-range value of one channel (0 red, 1 green, 2 blue) of
/// a YUV sample, rounded down, before it is saturated to a byte.
pub open spec fn bt601_raw(y: int, u: int, v: int, channel: int) -> int {
    if channel == 0 {
        (298 * (y - 16) + 409 * (v - 128) + 128) / 256
    } else if channel == 1 {
        (298 * (y - 16) - 100 * (u - 128) - 208 * (v - 128) + 128) / 256
    } else {
        (298 * (y - 16) + 516 * (u - 128) + 128) / 256
    }
}

/// The unsaturated BT.601 value behind byte `i` of the RGB8 image of an NV12
/// frame: channel `i % 3` of pixel `i / 3`, from that pixel's luma sample and
/// the chroma pair that covers it.
pub open spec fn nv12_raw_channel(nv12: Seq<u8>, width: int, height: int, i: int) -> int {
    let pixel = i / 3;
    let chroma = chroma_index(width, height, pixel);
    bt601_raw(nv12[pixel] as int, nv12[chroma] as int, nv12[chroma + 1] as int, i % 3)
}

/// Every byte of the RGB8 image of an NV12 frame is its BT.601 value
/// saturated to `0..=255`: 255 when the value is above 255, 0 when it is
/// below 0, and the value itself otherwise.
pub proof fn lemma_rgb_bytes_saturate(nv12: Seq<u8>, width: int, height: int, i: int)
    requires
        0 <= i < width * height * 3,
    ensures
        nv12_raw_channel(nv12, width, height, i) > 255 ==> nv12_to_rgb8(nv12, width, height)[i] == 255,
        nv12_raw_channel(nv12, width, height, i) < 0 ==> nv12_to_rgb8(nv12, width, height)[i] == 0,
        0 <= nv12_raw_channel(nv12, width, height, i) <= 255 ==> nv12_to_rgb8(nv12, width, height)[i]
            == nv12_raw_channel(nv12, width, height, i),
{
    let k = i % 3;
    assert(k == 0 || k == 1 || k == 2);
}

/// With the chroma fixed, a brighter luma sample never gives a darker
/// channel: every channel is non-decreasing in Y.
pub proof fn lemma_channel_monotone_in_luma(y1: int, y2: int, u: int, v: int, channel: int)
    requires
        y1 <= y2,
    ensures
        yuv_to_rgb_channel(y1, u, v, channel) <= yuv_to_rgb_channel(y2, u, v, channel),
{
    let d = u - 128;
    let e = v - 128;
    if channel == 0 {
        lemma_div_is_ordered(298 * (y1 - 16) + 409 * e + 128, 298 * (y2 - 16) + 409 * e + 128, 256);
    } else if channel == 1 {
        lemma_div_is_ordered(
            298 * (y1 - 16) - 100 * d - 208 * e + 128,
            298 * (y2 - 16) - 100 * d - 208 * e + 128,
            256,
        );
    } else {
        lemma_div_is_ordered(298 * (y1 - 16) + 516 * d + 128, 298 * (y2 - 16) + 516 * d + 128, 256);
    }
}

/// Where the luma and chroma samples of pixel (`row`, `col`) lie in an NV12
/// frame of even size `w` x `h`.
proof fn lemma_pixel_layout(w: int, h: int, row: int, col: int)
    requires
        w > 0,
        h > 0,
        w % 2 == 0,
        h % 2 == 0,
        0 <= row < h,
        0 <= col < w,
    ensures
        0 <= row * w,
        row * w + col < w * h,
        (row * w + col) / w == row,
        (row * w + col) % w == col,
        0 <= (row / 2) * w,
        w * h + (row / 2) * w + (col / 2) * 2 + 1 < nv12_len(w, h),
        chroma_index(w, h, row * w + col) == w * h + (row / 2) * w + (col / 2) * 2,
{
    assert(0 <= row * w) by (nonlinear_arith)
        requires
            0 <= row,
            0 < w,
    ;
    assert((row + 1) * w <= h * w) by (nonlinear_arith)
        requires
            row + 1 <= h,
            0 < w,
    ;
    assert((row + 1) * w == row * w + w) by (nonlinear_arith);
    assert(h * w == w * h) by (nonlinear_arith);
    lemma_fundamental_div_mod_converse(row * w + col, w, row, col);
    let hr = row / 2;
    let hh = h / 2;
    assert(hr <= hh - 1);
    assert((col / 2) * 2 + 1 <= w - 1);
    assert(0 <= hr * w) by (nonlinear_arith)
        requires
            0 <= hr,
            0 < w,
    ;
    assert(hr * w <= (hh - 1) * w) by (nonlinear_arith)
        requires
            hr <= hh - 1,
            0 < w,
    ;
    assert((hh - 1) * w == hh * w - w) by (nonlinear_arith);
    assert(w * h == 2 * (hh * w)) by (nonlinear_arith)
        requires
            h == 2 * hh,
    ;
    assert((w * h) / 2 == hh * w);
}

/// Byte `p * 3 + k` of a packed RGB8 image is channel `k` of pixel `p`.
proof fn lemma_rgb_byte_position(p: int, k: int)
    requires
        0 <= p,
        0 <= k < 3,
    ensures
        (p * 3 + k) / 3 == p,
        (p * 3 + k) % 3 == k,
{
    lemma_fundamental_div_mod_converse(p * 3 + k, 3, p, k);
}

/// `x >> 8` is `x / 256` rounded down.
proof fn lemma_shift_is_floor_div(x: i32)
    requires
        -200000 <= x <= 200000,
    ensures
        (x >> 8) as int == (x as int) / 256,
{
    assert((x >> 8) as int == (x as int) / 256) by (bit_vector)
        requires
            -200000 <= x <= 200000,
    ;
}

/// Converts an NV12 frame of valid even size to packed RGB8.
fn nv12_to_rgb8_buffer(nv12: &[u8], width: usize, height: usize) -> (rgb: Vec<u8>)
    requires
        width > 0,
        height > 0,
        width % 2 == 0,
        height % 2 == 0,
        nv12@.len() == nv12_len(width as int, height as int),
        nv12@.len() <= isize::MAX,
    ensures
        rgb@ == nv12_to_rgb8(nv12@, width as int, height as int),
{
    let ghost w = width as int;
    let ghost h = height as int;
    assert(w * h >= 0) by (nonlinear_arith)
        requires
            w > 0,
            h > 0,
    ;
    let y_len = width * height;
    assert(w * h == 2 * ((w / 2) * h)) by (nonlinear_arith)
        requires
            w == 2 * (w / 2),
    ;
    assert(y_len * 3 <= usize::MAX);
    let mut rgb = vec![0_u8; y_len * 3];
    let uv_offset = y_len;
    let ghost target = nv12_to_rgb8(nv12@, w, h);

    let mut row: usize = 0;
    while row < height
        invariant
            0 <= row <= h,
            w == width,
            h == height,
            w > 0,
            h > 0,
            w % 2 == 0,
            h % 2 == 0,
            y_len == w * h,
            uv_offset == y_len,
            nv12@.len() == nv12_len(w, h),
            target == nv12_to_rgb8(nv12@, w, h),
            y_len * 3 <= usize::MAX,
            nv12_len(w, h) <= usize::MAX,
            rgb@.len() == y_len * 3,
            forall|i: int| 0 <= i < (row * w) * 3 ==> rgb@[i] == #[trigger] target[i],
        decreases height - row,
    {
        proof {
            lemma_pixel_layout(w, h, row as int, 0);
        }
        let y_row = row * width;
        let uv_row = uv_offset + (row / 2) * width;
        for col in 0..width
            invariant
                w == width,
                h == height,
                w > 0,
                h > 0,
                w % 2 == 0,
                h % 2 == 0,
                0 <= row < h,
                y_len == w * h,
                y_row == row * w,
                uv_row == w * h + (row / 2) * w,
                nv12@.len() == nv12_len(w, h),
                target == nv12_to_rgb8(nv12@, w, h),
                y_len * 3 <= usize::MAX,
                nv12_len(w, h) <= usize::MAX,
                rgb@.len() == y_len * 3,
                forall|i: int| 0 <= i < (y_row + col) * 3 ==> rgb@[i] == #[trigger] target[i],
        {
            proof {
                lemma_pixel_layout(w, h, row as int, col as int);
            }
            let pixel = y_row + col;
            let y = nv12[pixel] as i32;
            let uv_index = uv_row + (col / 2) * 2;
            let u = nv12[uv_index] as i32;
            let v = nv12[uv_index + 1] as i32;

            let c = y - 16;
            let d = u - 128;
            let e = v - 128;

            let r_raw = 298 * c + 409 * e + 128;
            let g_raw = 298 * c - 100 * d - 208 * e + 128;
            let b_raw = 298 * c + 516 * d + 128;
            proof {
                lemma_shift_is_floor_div(r_raw);
                lemma_shift_is_floor_div(g_raw);
                lemma_shift_is_floor_div(b_raw);
            }
            let r = r_raw >> 8;
            let g = g_raw >> 8;
            let b = b_raw >> 8;

            assert(pixel * 3 + 2 < y_len * 3);
            let rgb_index = pixel * 3;
            let ghost before = rgb@;
            rgb.set(rgb_index, clamp_to_u8(r));
            rgb.set(rgb_index + 1, clamp_to_u8(g));
            rgb.set(rgb_index + 2, clamp_to_u8(b));
            proof {
                assert forall|k: int| 0 <= k < 3 implies rgb@[pixel * 3 + k] == #[trigger] target[
                    pixel * 3 + k
                ] by {
                    lemma_rgb_byte_position(pixel as int, k);
                }
                assert forall|i: int| 0 <= i < (y_row + col + 1) * 3 implies rgb@[i]
                    == #[trigger] target[i] by {
                    if i < pixel * 3 {
                        assert(rgb@[i] == before[i]);
                    } else {
                        assert(rgb@[pixel * 3 + (i - pixel * 3)] == target[pixel * 3 + (i - pixel * 3)]);
                    }
                }
            }
        }
        assert((row + 1) * w == row * w + w) by (nonlinear_arith);
        row = row + 1;
    }
    assert(h * w == w * h) by (nonlinear_arith);
    assert(rgb@ =~= target);
    rgb
}

/// `value` clamped to `0..=255`.
fn clamp_to_u8(value: i32) -> (byte: u8)
    ensures
        byte == clamp_to_byte(value as int),
{
    if value < 0 {
        0
    } else if value > 255 {
        255
    } else {
        value as u8
    }
}

} // verus!
