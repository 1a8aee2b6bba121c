use crate::scene::ImageSize;
use vstd::prelude::*;

verus! {

/// The byte that opens every PCX image.
pub const PCX_MANUFACTURER: u8 = 10;

/// Length of the part of a PCX header that holds the image window.
pub const PCX_WINDOW_END: usize = 12;

/// The little-endian 16-bit word at `at` in `b`.
pub open spec fn word_at(b: Seq<u8>, at: int) -> int {
    b[at] + 256 * b[at + 1]
}

/// The pixel size of a PCX image from its header window
/// `(x_min, y_min, x_max, y_max)`, or `None` where the bytes are no PCX
/// header or the window is empty.
pub open spec fn pcx_size_of(b: Seq<u8>) -> Option<ImageSize> {
    if b.len() < PCX_WINDOW_END || b[0] != PCX_MANUFACTURER || word_at(b, 8) < word_at(b, 4)
        || word_at(b, 10) < word_at(b, 6) {
        None
    } else {
        Some(
            ImageSize {
                width: (word_at(b, 8) - word_at(b, 4) + 1) as u32,
                height: (word_at(b, 10) - word_at(b, 6) + 1) as u32,
            },
        )
    }
}

fn word(b: &Vec<u8>, at: usize) -> (r: u32)
    requires
        at + 1 < b.len(),
    ensures
        r == word_at(b@, at as int),
{
    b[at] as u32 + 256 * b[at + 1] as u32
}

/// The pixel size that a PCX image's header gives.
pub fn pcx_size(b: &Vec<u8>) -> (r: Option<ImageSize>)
    ensures
        r == pcx_size_of(b@),
{
    if b.len() < PCX_WINDOW_END || b[0] != PCX_MANUFACTURER {
        return None;
    }
    let (x_min, y_min, x_max, y_max) = (word(b, 4), word(b, 6), word(b, 8), word(b, 10));
    if x_max < x_min || y_max < y_min {
        None
    } else {
        Some(ImageSize { width: x_max - x_min + 1, height: y_max - y_min + 1 })
    }
}

} // verus!
