//! The outside of a DDS surface: its mark and the size its header declares.
//! Only surfaces that pass this look are handed to the decoder, which does
//! not return on every input: it cuts the image into rows of the declared
//! width without a check for a width of zero, and it unwraps the size of an
//! image too large to count.

use vstd::prelude::*;

use crate::error::ImageDefect;

verus! {

/// Where the header of a surface declares its height.
pub const HEIGHT_AT: usize = 12;

/// Where the header of a surface declares its width.
pub const WIDTH_AT: usize = 16;

/// The four bytes from `at` on, read as a number with the least significant
/// byte first.
pub open spec fn le32(bytes: Seq<u8>, at: int) -> int {
    bytes[at] as int + bytes[at + 1] as int * 0x100 + bytes[at + 2] as int * 0x1_0000 + bytes[at
        + 3] as int * 0x100_0000
}

/// Whether the bytes start with the four bytes that mark a DDS surface.
pub open spec fn has_magic(bytes: Seq<u8>) -> bool {
    &&& bytes.len() >= 4
    &&& bytes[0] == 0x44
    &&& bytes[1] == 0x44
    &&& bytes[2] == 0x53
    &&& bytes[3] == 0x20
}

/// What keeps a surface from being handed to the decoder, if anything does:
/// a declared width of zero, or a declared size of which a row of blocks or
/// the whole image takes more bytes than this machine can allocate.  Bytes
/// too short to declare a size are left to the decoder, which turns them
/// down itself.
pub open spec fn surface_defect(bytes: Seq<u8>) -> Option<ImageDefect> {
    if !has_magic(bytes) {
        Some(ImageDefect::UnsupportedContainer)
    } else if bytes.len() < WIDTH_AT + 4 {
        None
    } else if le32(bytes, WIDTH_AT as int) == 0 {
        Some(ImageDefect::Malformed)
    } else if 16 * le32(bytes, WIDTH_AT as int) > usize::MAX || 8 * (le32(bytes, WIDTH_AT as int)
        * le32(bytes, HEIGHT_AT as int)) > usize::MAX {
        Some(ImageDefect::TooLarge)
    } else {
        None
    }
}

/// Reads four bytes as a number, least significant byte first.
fn read_le32(bytes: &[u8], at: usize) -> (r: u32)
    requires
        at + 4 <= bytes@.len(),
    ensures
        r == le32(bytes@, at as int),
{
    let b0: u32 = bytes[at] as u32;
    let b1: u32 = bytes[at + 1] as u32;
    let b2: u32 = bytes[at + 2] as u32;
    let b3: u32 = bytes[at + 3] as u32;
    b0 + b1 * 0x100 + b2 * 0x1_0000 + b3 * 0x100_0000
}

/// Whether the bytes start with the mark of a DDS surface.
pub fn is_dds(bytes: &[u8]) -> (r: bool)
    ensures
        r == has_magic(bytes@),
{
    bytes.len() >= 4 && bytes[0] == 0x44 && bytes[1] == 0x44 && bytes[2] == 0x53 && bytes[3]
        == 0x20
}

/// Looks a surface over before it is decoded.
pub fn check_surface(bytes: &[u8]) -> (r: Option<ImageDefect>)
    ensures
        r == surface_defect(bytes@),
{
    if !is_dds(bytes) {
        return Some(ImageDefect::UnsupportedContainer);
    }
    if bytes.len() < WIDTH_AT + 4 {
        return None;
    }
    let width = read_le32(bytes, WIDTH_AT);
    let height = read_le32(bytes, HEIGHT_AT);
    if width == 0 {
        return Some(ImageDefect::Malformed);
    }
    assert(width as u64 * height as u64 <= 0xffff_ffff * 0xffff_ffff) by (nonlinear_arith)
        requires
            width <= 0xffff_ffff,
            height <= 0xffff_ffff,
    ;
    let texels: u64 = width as u64 * height as u64;
    if width as u64 > (usize::MAX / 16) as u64 || texels > (usize::MAX / 8) as u64 {
        Some(ImageDefect::TooLarge)
    } else {
        None
    }
}

} // verus!
