//! The placeholder icon: a 16x16, one-bit-per-pixel image in the ICO container.

use vstd::prelude::*;

verus! {

/// Container header: reserved word, resource type (icon), image count (one).
pub open spec fn file_header() -> Seq<u8> {
    seq![0x00u8, 0x00, 0x01, 0x00, 0x01, 0x00]
}

/// The single directory entry: 16 wide, 16 high, two colours, one plane, one
/// bit per pixel, then the declared size and offset of the image data.
pub open spec fn directory_entry() -> Seq<u8> {
    seq![
        0x10u8, 0x10, 0x02, 0x00, 0x01, 0x00, 0x01, 0x00,
        0x30, 0x00, 0x00, 0x00, 0x16, 0x00, 0x00, 0x00,
    ]
}

/// Bitmap information header: its own size, width 16, height 32 (both masks),
/// one plane, one bit per pixel, no compression, two palette colours.
pub open spec fn bitmap_header() -> Seq<u8> {
    seq![
        0x28u8, 0x00, 0x00, 0x00, 0x10, 0x00, 0x00, 0x00,
        0x20, 0x00, 0x00, 0x00, 0x01, 0x00, 0x01, 0x00,
        0x00, 0x00, 0x00, 0x00, 0x00, 0x00, 0x00, 0x00,
        0x00, 0x00, 0x00, 0x00, 0x00, 0x00, 0x00, 0x00,
        0x02, 0x00, 0x00, 0x00, 0x00, 0x00, 0x00, 0x00,
    ]
}

/// Two palette entries, blue-green-red-reserved: black, then white.
pub open spec fn palette() -> Seq<u8> {
    seq![0x00u8, 0x00, 0x00, 0x00, 0xFF, 0xFF, 0xFF, 0x00]
}

/// Number of pixel rows in the image.
pub const ROWS: usize = 16;

/// Number of bytes in one row of a mask.
pub const ROW_BYTES: usize = 2;

/// Byte `i` of the colour mask: the first and last rows are solid, every row
/// between them has only its leftmost and rightmost pixel set.
pub open spec fn xor_mask_byte(i: int) -> u8 {
    let row = i / (ROW_BYTES as int);
    if row == 0 || row == ROWS - 1 {
        0xFF
    } else if i % (ROW_BYTES as int) == 0 {
        0x80
    } else {
        0x01
    }
}

/// The colour mask: a one-pixel frame around an empty square.
pub open spec fn xor_mask() -> Seq<u8> {
    Seq::new((ROWS * ROW_BYTES) as nat, |i: int| xor_mask_byte(i))
}

/// The transparency mask: every pixel opaque.
pub open spec fn and_mask() -> Seq<u8> {
    Seq::new((ROWS * ROW_BYTES) as nat, |i: int| 0u8)
}

/// The complete icon file, section after section.
pub open spec fn default_icon() -> Seq<u8> {
    file_header() + directory_entry() + bitmap_header() + palette() + xor_mask() + and_mask()
}

/// Length of the complete icon file.
pub const ICON_LEN: usize = 134;

/// Offset of the bitmap header, which is where the image data begins.
pub const IMAGE_OFFSET: usize = 22;

/// The sections stand at fixed places: the image data begins right behind
/// the directory entry, at the offset which that entry declares, and the two
/// masks fill the end of the file.
pub proof fn lemma_icon_sections()
    ensures
        default_icon().len() == ICON_LEN,
        default_icon().subrange(0, 6) == file_header(),
        default_icon().subrange(6, IMAGE_OFFSET as int) == directory_entry(),
        default_icon().subrange(IMAGE_OFFSET as int, 62) == bitmap_header(),
        default_icon().subrange(62, 70) == palette(),
        default_icon().subrange(70, 102) == xor_mask(),
        default_icon().subrange(102, ICON_LEN as int) == and_mask(),
        directory_entry()[12] == IMAGE_OFFSET,
        directory_entry()[13] == 0 && directory_entry()[14] == 0 && directory_entry()[15] == 0,
{
    assert(default_icon().subrange(0, 6) =~= file_header());
    assert(default_icon().subrange(6, IMAGE_OFFSET as int) =~= directory_entry());
    assert(default_icon().subrange(IMAGE_OFFSET as int, 62) =~= bitmap_header());
    assert(default_icon().subrange(62, 70) =~= palette());
    assert(default_icon().subrange(70, 102) =~= xor_mask());
    assert(default_icon().subrange(102, ICON_LEN as int) =~= and_mask());
}

/// Produces the bytes of the placeholder icon.
pub fn default_icon_bytes() -> (bytes: Vec<u8>)
    ensures
        bytes@ == default_icon(),
        bytes.len() == ICON_LEN,
{
    let bytes: Vec<u8> = vec![
        0x00, 0x00, 0x01, 0x00, 0x01, 0x00,
        0x10, 0x10, 0x02, 0x00, 0x01, 0x00, 0x01, 0x00,
        0x30, 0x00, 0x00, 0x00, 0x16, 0x00, 0x00, 0x00,
        0x28, 0x00, 0x00, 0x00, 0x10, 0x00, 0x00, 0x00,
        0x20, 0x00, 0x00, 0x00, 0x01, 0x00, 0x01, 0x00,
        0x00, 0x00, 0x00, 0x00, 0x00, 0x00, 0x00, 0x00,
        0x00, 0x00, 0x00, 0x00, 0x00, 0x00, 0x00, 0x00,
        0x02, 0x00, 0x00, 0x00, 0x00, 0x00, 0x00, 0x00,
        0x00, 0x00, 0x00, 0x00, 0xFF, 0xFF, 0xFF, 0x00,
        0xFF, 0xFF, 0x80, 0x01, 0x80, 0x01, 0x80, 0x01,
        0x80, 0x01, 0x80, 0x01, 0x80, 0x01, 0x80, 0x01,
        0x80, 0x01, 0x80, 0x01, 0x80, 0x01, 0x80, 0x01,
        0x80, 0x01, 0x80, 0x01, 0x80, 0x01, 0xFF, 0xFF,
        0x00, 0x00, 0x00, 0x00, 0x00, 0x00, 0x00, 0x00,
        0x00, 0x00, 0x00, 0x00, 0x00, 0x00, 0x00, 0x00,
        0x00, 0x00, 0x00, 0x00, 0x00, 0x00, 0x00, 0x00,
        0x00, 0x00, 0x00, 0x00, 0x00, 0x00, 0x00, 0x00,
    ];
    assert(bytes@ =~= default_icon());
    bytes
}

} // verus!
