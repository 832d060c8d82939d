//! The outside of a PNG stream: its signature, its header and the chunks up
//! to the image data.  Only streams that pass this look are handed to the
//! decoder, which does not return on every input: it unwraps the size of an
//! image too large to count, and it numbers the chunks of an animation
//! without a check.
//!
//! Bytes that start otherwise are not looked at here.

use vstd::prelude::*;

use crate::error::ImageDefect;

verus! {

/// The chunk that opens every stream and holds the header.
pub const IHDR: u32 = 0x4948_4452;

/// The chunk that holds compressed image data.
pub const IDAT: u32 = 0x4944_4154;

/// The chunk that closes every stream.
pub const IEND: u32 = 0x4945_4e44;

/// The chunk that announces an animation.
pub const ACTL: u32 = 0x6163_544c;

/// The chunk that describes one frame of an animation.
pub const FCTL: u32 = 0x6663_544c;

/// The chunk that holds image data of a later frame of an animation.
pub const FDAT: u32 = 0x6664_4154;

/// The number of bytes before the first chunk that follows the header: the
/// signature and the header chunk with its length, type and check sum.
pub const HEADER_END: usize = 33;

/// The four bytes from `at` on, read as a number with the most significant
/// byte first.
pub open spec fn be32(bytes: Seq<u8>, at: int) -> int {
    bytes[at] as int * 0x100_0000 + bytes[at + 1] as int * 0x1_0000 + bytes[at + 2] as int * 0x100
        + bytes[at + 3] as int
}

/// Whether the bytes start with the eight bytes that mark a PNG stream.
pub open spec fn has_signature(bytes: Seq<u8>) -> bool {
    &&& bytes.len() >= 8
    &&& bytes[0] == 137
    &&& bytes[1] == 80
    &&& bytes[2] == 78
    &&& bytes[3] == 71
    &&& bytes[4] == 13
    &&& bytes[5] == 10
    &&& bytes[6] == 26
    &&& bytes[7] == 10
}

/// What the header of a stream declares about the image.
#[derive(Clone, Copy, Debug, PartialEq, Eq, Structural)]
pub struct Header {
    pub width: u32,
    pub height: u32,
    pub bit_depth: u8,
    pub color_type: u8,
}

/// The header of a stream: present when the signature is followed at once
/// by a header chunk of thirteen bytes.
pub open spec fn header(bytes: Seq<u8>) -> Option<Header> {
    if has_signature(bytes) && bytes.len() >= HEADER_END && be32(bytes, 8) == 13 && be32(bytes, 12)
        == IHDR {
        Some(
            Header {
                width: be32(bytes, 16) as u32,
                height: be32(bytes, 20) as u32,
                bit_depth: bytes[24],
                color_type: bytes[25],
            },
        )
    } else {
        None
    }
}

/// The most bytes one pixel of the decoded image can take: one or two bytes
/// a sample, and two samples for grey images, which may gain an alpha
/// sample, four for all others.
pub open spec fn decoded_pixel_bytes(h: Header) -> int {
    let sample: int = if h.bit_depth == 16 { 2 } else { 1 };
    let samples: int = if h.color_type == 0 || h.color_type == 4 { 2 } else { 4 };
    samples * sample
}

/// Whether the bits of the decoded image can be counted on this machine.
pub open spec fn countable(h: Header) -> bool {
    8 * decoded_pixel_bytes(h) * (h.width * h.height) <= usize::MAX
}

/// What is wrong with a run of chunks of later frame data that starts at
/// `at`, after `frames` chunks of an animation: nothing, unless the
/// animation has more chunks than can be numbered.
pub open spec fn frame_data_defect(bytes: Seq<u8>, at: int, frames: int) -> Option<ImageDefect>
    decreases bytes.len() - at,
{
    if at < 0 || at + 12 > bytes.len() || be32(bytes, at + 4) != FDAT {
        None
    } else if frames + 1 >= u32::MAX {
        Some(ImageDefect::TooLarge)
    } else if at + 12 + be32(bytes, at) > bytes.len() {
        None
    } else {
        frame_data_defect(bytes, at + 12 + be32(bytes, at), frames + 1)
    }
}

/// What is wrong with the chunks from `at` up to the image data, if
/// anything is, after `frames` chunks of an animation.  A chunk that runs
/// past the end, a second header and an end before any image data are
/// malformed; an animation with more chunks than can be numbered is too
/// large; every other chunk is passed over.
pub open spec fn chunks_defect(bytes: Seq<u8>, at: int, frames: int) -> Option<ImageDefect>
    decreases bytes.len() - at,
{
    if at < 0 || at + 12 > bytes.len() {
        Some(ImageDefect::Malformed)
    } else {
        let length = be32(bytes, at);
        let kind = be32(bytes, at + 4);
        if kind == IDAT {
            None
        } else if kind == IHDR || kind == IEND {
            Some(ImageDefect::Malformed)
        } else if kind == FDAT {
            frame_data_defect(bytes, at, frames)
        } else if at + 12 + length > bytes.len() {
            Some(ImageDefect::Malformed)
        } else if kind == FCTL {
            if frames + 1 >= u32::MAX {
                Some(ImageDefect::TooLarge)
            } else {
                chunks_defect(bytes, at + 12 + length, frames + 1)
            }
        } else {
            chunks_defect(bytes, at + 12 + length, frames)
        }
    }
}

/// What keeps a byte blob from being handed to the decoder, if anything
/// does.  It must be a PNG stream: the signature, then at once the header
/// chunk of thirteen bytes, and no second header before the image data.  The
/// header must declare an image with an area, small enough for its bits to
/// be counted on this machine, and image data must follow.  Which samples
/// the image has is left to the decoder.
pub open spec fn stream_defect(bytes: Seq<u8>) -> Option<ImageDefect> {
    if !has_signature(bytes) {
        Some(ImageDefect::UnsupportedContainer)
    } else {
        match header(bytes) {
            None => Some(ImageDefect::Malformed),
            Some(h) => if h.width == 0 || h.height == 0 {
                Some(ImageDefect::Malformed)
            } else if !countable(h) {
                Some(ImageDefect::TooLarge)
            } else {
                chunks_defect(bytes, HEADER_END as int, 0)
            },
        }
    }
}

/// Reads four bytes as a number, most significant byte first.
fn read_be32(bytes: &[u8], at: usize) -> (r: u32)
    requires
        at + 4 <= bytes@.len(),
    ensures
        r == be32(bytes@, at as int),
{
    let b0: u32 = bytes[at] as u32;
    let b1: u32 = bytes[at + 1] as u32;
    let b2: u32 = bytes[at + 2] as u32;
    let b3: u32 = bytes[at + 3] as u32;
    b0 * 0x100_0000 + b1 * 0x1_0000 + b2 * 0x100 + b3
}

/// Whether the bytes start with the mark of a PNG stream.
pub fn is_png(bytes: &[u8]) -> (r: bool)
    ensures
        r == has_signature(bytes@),
{
    bytes.len() >= 8 && bytes[0] == 137 && bytes[1] == 80 && bytes[2] == 78 && bytes[3] == 71
        && bytes[4] == 13 && bytes[5] == 10 && bytes[6] == 26 && bytes[7] == 10
}

/// Reads the header of a stream.
pub fn read_header(bytes: &[u8]) -> (r: Option<Header>)
    ensures
        r == header(bytes@),
{
    if !is_png(bytes) || bytes.len() < HEADER_END {
        return None;
    }
    if read_be32(bytes, 8) != 13 || read_be32(bytes, 12) != IHDR {
        return None;
    }
    Some(
        Header {
            width: read_be32(bytes, 16),
            height: read_be32(bytes, 20),
            bit_depth: bytes[24],
            color_type: bytes[25],
        },
    )
}

/// Passes over a run of chunks of later frame data.
fn check_frame_data(bytes: &[u8], start: usize, counted: u64) -> (r: Option<ImageDefect>)
    requires
        start <= bytes@.len(),
        counted < u32::MAX,
    ensures
        r == frame_data_defect(bytes@, start as int, counted as int),
{
    let mut at: usize = start;
    let mut frames: u64 = counted;
    loop
        invariant
            at <= bytes@.len(),
            frames < u32::MAX,
            frame_data_defect(bytes@, start as int, counted as int) == frame_data_defect(
                bytes@,
                at as int,
                frames as int,
            ),
        decreases bytes@.len() - at,
    {
        if bytes.len() - at < 12 {
            return None;
        }
        if read_be32(bytes, at + 4) != FDAT {
            return None;
        }
        if frames + 1 >= u32::MAX as u64 {
            return Some(ImageDefect::TooLarge);
        }
        let length = read_be32(bytes, at);
        if bytes.len() - at - 12 < length as usize {
            return None;
        }
        at = at + 12 + length as usize;
        frames = frames + 1;
    }
}

/// Passes over the chunks that follow the header, up to the image data.
fn check_chunks(bytes: &[u8]) -> (r: Option<ImageDefect>)
    requires
        bytes@.len() >= HEADER_END,
    ensures
        r == chunks_defect(bytes@, HEADER_END as int, 0),
{
    let mut at: usize = HEADER_END;
    let mut frames: u64 = 0;
    loop
        invariant
            HEADER_END <= at <= bytes@.len(),
            frames < u32::MAX,
            chunks_defect(bytes@, HEADER_END as int, 0) == chunks_defect(
                bytes@,
                at as int,
                frames as int,
            ),
        decreases bytes@.len() - at,
    {
        if bytes.len() - at < 12 {
            return Some(ImageDefect::Malformed);
        }
        let length = read_be32(bytes, at);
        let kind = read_be32(bytes, at + 4);
        if kind == IDAT {
            return None;
        }
        if kind == IHDR || kind == IEND {
            return Some(ImageDefect::Malformed);
        }
        if kind == FDAT {
            return check_frame_data(bytes, at, frames);
        }
        if bytes.len() - at - 12 < length as usize {
            return Some(ImageDefect::Malformed);
        }
        if kind == FCTL {
            if frames + 1 >= u32::MAX as u64 {
                return Some(ImageDefect::TooLarge);
            }
            frames = frames + 1;
        }
        at = at + 12 + length as usize;
    }
}

/// Whether the bits of the decoded image can be counted on this machine.
fn is_countable(h: Header) -> (r: bool)
    ensures
        r == countable(h),
{
    assert(h.width as u64 * h.height as u64 <= 0xffff_ffff * 0xffff_ffff) by (nonlinear_arith)
        requires
            h.width <= 0xffff_ffff,
            h.height <= 0xffff_ffff,
    ;
    let texels: u64 = h.width as u64 * h.height as u64;
    let grey = h.color_type == 0 || h.color_type == 4;
    let ghost t: int = h.width * h.height;
    let ghost m: int = usize::MAX as int;
    if h.bit_depth == 16 {
        if grey {
            assert(8 * decoded_pixel_bytes(h) * t == 32 * t) by (nonlinear_arith)
                requires
                    decoded_pixel_bytes(h) == 4,
            ;
            assert((32 * t <= m) <==> (t <= m / 32));
            texels <= (usize::MAX / 32) as u64
        } else {
            assert(8 * decoded_pixel_bytes(h) * t == 64 * t) by (nonlinear_arith)
                requires
                    decoded_pixel_bytes(h) == 8,
            ;
            assert((64 * t <= m) <==> (t <= m / 64));
            texels <= (usize::MAX / 64) as u64
        }
    } else {
        if grey {
            assert(8 * decoded_pixel_bytes(h) * t == 16 * t) by (nonlinear_arith)
                requires
                    decoded_pixel_bytes(h) == 2,
            ;
            assert((16 * t <= m) <==> (t <= m / 16));
            texels <= (usize::MAX / 16) as u64
        } else {
            assert(8 * decoded_pixel_bytes(h) * t == 32 * t) by (nonlinear_arith)
                requires
                    decoded_pixel_bytes(h) == 4,
            ;
            assert((32 * t <= m) <==> (t <= m / 32));
            texels <= (usize::MAX / 32) as u64
        }
    }
}

/// Looks a byte blob over before it is decoded.
pub fn check_stream(bytes: &[u8]) -> (r: Option<ImageDefect>)
    ensures
        r == stream_defect(bytes@),
{
    if !is_png(bytes) {
        return Some(ImageDefect::UnsupportedContainer);
    }
    let h = match read_header(bytes) {
        None => {
            return Some(ImageDefect::Malformed);
        },
        Some(h) => h,
    };
    if h.width == 0 || h.height == 0 {
        return Some(ImageDefect::Malformed);
    }
    if !is_countable(h) {
        return Some(ImageDefect::TooLarge);
    }
    check_chunks(bytes)
}

/// A stream that is handed to the decoder is a PNG stream that declares an
/// image with an area whose bits can be counted.
pub proof fn lemma_accepted_stream_is_bounded(bytes: Seq<u8>)
    requires
        stream_defect(bytes) is None,
    ensures
        has_signature(bytes),
        header(bytes) matches Some(h) && h.width >= 1 && h.height >= 1 && countable(h),
{
}

/// Bytes that do not start with the PNG signature are never decoded.
pub proof fn lemma_other_containers_are_turned_away(bytes: Seq<u8>)
    requires
        !has_signature(bytes),
    ensures
        stream_defect(bytes) == Some(ImageDefect::UnsupportedContainer),
{
}

/// The chunks of an animation do not keep a stream from the decoder: a
/// stream with its image data right after the header is let through, and so
/// is one with an animation chunk of any length between the two.
pub proof fn lemma_animation_chunks_are_passed_over(bytes: Seq<u8>, at: int, frames: int)
    requires
        0 <= at,
        at + 12 <= bytes.len(),
        0 <= frames < u32::MAX - 1,
        be32(bytes, at + 4) == ACTL || be32(bytes, at + 4) == FCTL,
        at + 12 + be32(bytes, at) <= bytes.len(),
    ensures
        chunks_defect(bytes, at, frames) == chunks_defect(
            bytes,
            at + 12 + be32(bytes, at),
            if be32(bytes, at + 4) == FCTL {
                frames + 1
            } else {
                frames
            },
        ),
{
}

} // verus!
