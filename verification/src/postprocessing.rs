use vstd::prelude::*;

use crate::errors::DepthError;
use crate::imgbuf::{
    catmull_gray, gray_frame_from_vec, gray_height, gray_width, gray_words, resize_gray, GrayFrame,
};
use crate::preprocessing::MAX_DIMENSION;

verus! {

/// Assemble quantized depth words into a single-channel 16-bit image of the
/// given dimensions. Succeeds exactly when the buffer holds one word per
/// pixel; the words come through unchanged, in row-major order, so pixel
/// order matches grid order exactly.
pub fn build_luma16(w: u32, h: u32, words: Vec<u16>) -> (r: Result<GrayFrame, DepthError>)
    ensures
        r is Ok <==> words@.len() == w as int * h as int,
        r matches Ok(img) ==> gray_width(img) == w && gray_height(img) == h && gray_words(img)
            == words@,
        r matches Err(e) ==> e == DepthError::InvariantViolation,
{
    proof {
        assert((w as int) * (h as int) <= u64::MAX as int) by (nonlinear_arith)
            requires
                0 <= w < 0x100000000,
                0 <= h < 0x100000000,
        ;
    }
    let expected: u64 = (w as u64) * (h as u64);
    if (words.len() as u64) == expected {
        match gray_frame_from_vec(w, h, words) {
            Some(img) => Ok(img),
            None => Err(DepthError::InvariantViolation),
        }
    } else {
        Err(DepthError::InvariantViolation)
    }
}

/// The last pipeline step: when asked to, and the depth image's dimensions
/// differ from the source image's, resample it back to the source
/// dimensions with the Catmull-Rom filter; otherwise hand it back untouched.
pub fn finalize_output(img: GrayFrame, orig_w: u32, orig_h: u32, resize_to_input: bool) -> (r:
    GrayFrame)
    requires
        resize_to_input ==> 1 <= orig_w <= MAX_DIMENSION && 1 <= orig_h <= MAX_DIMENSION
            && gray_width(img) <= MAX_DIMENSION,
    ensures
        resize_to_input ==> gray_width(r) == orig_w && gray_height(r) == orig_h,
        !resize_to_input ==> r == img,
        resize_to_input && gray_width(img) == orig_w && gray_height(img) == orig_h ==> r == img,
        resize_to_input && (gray_width(img) != orig_w || gray_height(img) != orig_h)
            ==> gray_words(r) == catmull_gray(
            gray_words(img),
            gray_width(img) as int,
            gray_height(img) as int,
            orig_w as int,
            orig_h as int,
        ) && gray_words(r).len() == orig_w * orig_h,
{
    if resize_to_input {
        let w = img.width();
        let h = img.height();
        if w != orig_w || h != orig_h {
            resize_gray(&img, orig_w, orig_h)
        } else {
            img
        }
    } else {
        img
    }
}

} // verus!
