//! Sizes of image uploads.

use vstd::prelude::*;

verus! {

/// Bytes per RGBA pixel.
pub const RGBA_PIXEL_SIZE_BYTES: usize = 4;

/// The size of the staging buffer that an RGBA image of `width` by
/// `height` pixels is uploaded through; `None` when that does not fit in
/// `usize`. A decoded texture's layer has exactly this many bytes (see
/// `decode_texture`).
pub fn staging_buffer_size_bytes(width: u32, height: u32) -> (r: Option<usize>)
    ensures
        4 * width * height <= usize::MAX ==> r == Some((4 * width * height) as usize),
        4 * width * height > usize::MAX ==> r is None,
{
    match (width as usize).checked_mul(height as usize) {
        Some(pixels) => {
            let r = pixels.checked_mul(RGBA_PIXEL_SIZE_BYTES);
            assert(pixels * 4 == 4 * width * height) by (nonlinear_arith)
                requires
                    pixels == width * height,
            ;
            r
        },
        None => {
            assert(4 * width * height >= width * height) by (nonlinear_arith)
                requires
                    width * height >= 0,
            ;
            None
        },
    }
}

} // verus!
