//! Framing of the MJPEG stream served at `/stream.mjpg`.
use vstd::prelude::*;
use vstd::string::StringSliceAdditionalSpecFns;
use crate::decimal::{
    decimal_ascii, decimal_digits, decimal_value, is_ascii_digit, lemma_decimal_digits_read_back,
};
use crate::frame_store::FrameStore;

verus! {

/// Boundary string between the parts of the MJPEG stream.
pub const MJPEG_BOUNDARY: &'static str = "iris";

/// One part of the multipart MJPEG stream: the boundary line, the part's
/// headers (JPEG content type and the decimal byte length), a blank line, the
/// JPEG bytes and a closing line break.
pub open spec fn multipart_part(jpeg: Seq<u8>) -> Seq<u8> {
    "--".spec_bytes() + MJPEG_BOUNDARY.spec_bytes()
        + "\r\nContent-Type: image/jpeg\r\nContent-Length: ".spec_bytes()
        + decimal_digits(jpeg.len()) + "\r\n\r\n".spec_bytes() + jpeg + "\r\n".spec_bytes()
}

/// The multipart part for `jpeg` is the fixed header up to
/// `Content-Length: `, then a non-empty string of ASCII digits that reads in
/// decimal as the JPEG's length, then a blank line, the JPEG bytes themselves
/// and a closing line break.
pub proof fn lemma_part_declares_jpeg_length(jpeg: Seq<u8>)
    ensures
        exists|digits: Seq<u8>|
            #![trigger decimal_value(digits)]
            {
                &&& digits.len() > 0
                &&& forall|i: int| 0 <= i < digits.len() ==> is_ascii_digit(#[trigger] digits[i])
                &&& decimal_value(digits) == jpeg.len()
                &&& multipart_part(jpeg) == "--".spec_bytes() + MJPEG_BOUNDARY.spec_bytes()
                    + "\r\nContent-Type: image/jpeg\r\nContent-Length: ".spec_bytes() + digits
                    + "\r\n\r\n".spec_bytes() + jpeg + "\r\n".spec_bytes()
            },
{
    let digits = decimal_digits(jpeg.len());
    lemma_decimal_digits_read_back(jpeg.len());
    assert(decimal_value(digits) == jpeg.len());
}

/// Appends `tail` to `bytes`.
fn append_bytes(bytes: &mut Vec<u8>, tail: &[u8])
    ensures
        final(bytes)@ == old(bytes)@ + tail@,
{
    let ghost before = bytes@;
    bytes.extend_from_slice(tail);
    assert(bytes@ =~= before + tail@);
}

/// The multipart part that carries `jpeg` in the MJPEG stream.
pub fn multipart_chunk(jpeg: &[u8]) -> (chunk: Vec<u8>)
    ensures
        chunk@ == multipart_part(jpeg@),
{
    let mut chunk = Vec::new();
    append_bytes(&mut chunk, "--".as_bytes());
    append_bytes(&mut chunk, MJPEG_BOUNDARY.as_bytes());
    append_bytes(&mut chunk, "\r\nContent-Type: image/jpeg\r\nContent-Length: ".as_bytes());
    let length = decimal_ascii(jpeg.len());
    append_bytes(&mut chunk, length.as_slice());
    append_bytes(&mut chunk, "\r\n\r\n".as_bytes());
    append_bytes(&mut chunk, jpeg);
    append_bytes(&mut chunk, "\r\n".as_bytes());
    assert(chunk@ =~= multipart_part(jpeg@));
    chunk
}

/// The next part of the MJPEG stream for a client that was last sent the
/// frame counted `last_sent`: when a frame is stored and the frame count has
/// moved on since, the count and that frame framed as a multipart part;
/// otherwise nothing, so that each part carries a newly captured frame.
pub fn next_stream_part(store: &FrameStore, last_sent: u64) -> (part: Option<(u64, Vec<u8>)>)
    ensures
        match store@.latest {
            Some(frame) if store@.status.frame_count != last_sent => {
                &&& part matches Some((count, bytes))
                &&& count == store@.status.frame_count
                &&& bytes@ == multipart_part(frame.jpeg)
            },
            _ => part is None,
        },
{
    let frame_count = store.status().frame_count;
    if frame_count == last_sent {
        return None;
    }
    match store.latest_frame() {
        Some(frame) => Some((frame_count, multipart_chunk(frame.jpeg.as_slice()))),
        None => None,
    }
}

} // verus!
