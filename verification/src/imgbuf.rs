use vstd::prelude::*;

use crate::preprocessing::MAX_DIMENSION;

verus! {

/// An interleaved 8-bit RGB image: the image crate's pixel buffer, opaque
/// to the verifier. Everything the contracts say about it goes through the
/// named views `rgb_width`, `rgb_height` and `rgb_bytes`.
#[verifier::external_body]
pub struct RgbFrame {
    inner: image::ImageBuffer<image::Rgb<u8>, Vec<u8>>,
}

/// A single-channel 16-bit grayscale image: the image crate's pixel buffer,
/// opaque to the verifier, described by `gray_width`, `gray_height` and
/// `gray_words`.
#[verifier::external_body]
pub struct GrayFrame {
    inner: image::ImageBuffer<image::Luma<u16>, Vec<u16>>,
}

/// Width of an RGB frame.
pub uninterp spec fn rgb_width(img: RgbFrame) -> u32;

/// Height of an RGB frame.
pub uninterp spec fn rgb_height(img: RgbFrame) -> u32;

/// The raw byte container of an RGB frame: three bytes per pixel, row-major.
pub uninterp spec fn rgb_bytes(img: RgbFrame) -> Seq<u8>;

/// Width of a grayscale frame.
pub uninterp spec fn gray_width(img: GrayFrame) -> u32;

/// Height of a grayscale frame.
pub uninterp spec fn gray_height(img: GrayFrame) -> u32;

/// The raw word container of a grayscale frame: one word per pixel,
/// row-major.
pub uninterp spec fn gray_words(img: GrayFrame) -> Seq<u16>;

/// The bytes of an RGB image of dimensions `w x h` resampled to `nw x nh`
/// with the Catmull-Rom filter. The filter is deterministic: the result is
/// a function of the source pixels and the four dimensions alone.
pub uninterp spec fn catmull_rgb(bytes: Seq<u8>, w: int, h: int, nw: int, nh: int) -> Seq<u8>;

/// The words of a 16-bit grayscale image of dimensions `w x h` resampled to
/// `nw x nh` with the Catmull-Rom filter; deterministic as `catmull_rgb` is.
pub uninterp spec fn catmull_gray(words: Seq<u16>, w: int, h: int, nw: int, nh: int) -> Seq<u16>;

impl RgbFrame {
    /// Relies on image::ImageBuffer::width, which returns the width the
    /// buffer was constructed with.
    #[verifier::external_body]
    pub fn width(&self) -> (r: u32)
        ensures
            r == rgb_width(*self),
    {
        self.inner.width()
    }

    /// Relies on image::ImageBuffer::height, which returns the height the
    /// buffer was constructed with.
    #[verifier::external_body]
    pub fn height(&self) -> (r: u32)
        ensures
            r == rgb_height(*self),
    {
        self.inner.height()
    }

    /// Relies on image::ImageBuffer::into_raw, which hands back the
    /// container unchanged.
    #[verifier::external_body]
    pub fn into_raw(self) -> (r: Vec<u8>)
        ensures
            r@ == rgb_bytes(self),
    {
        self.inner.into_raw()
    }
}

impl GrayFrame {
    /// Relies on image::ImageBuffer::width, as `RgbFrame::width` does.
    #[verifier::external_body]
    pub fn width(&self) -> (r: u32)
        ensures
            r == gray_width(*self),
    {
        self.inner.width()
    }

    /// Relies on image::ImageBuffer::height, as `RgbFrame::height` does.
    #[verifier::external_body]
    pub fn height(&self) -> (r: u32)
        ensures
            r == gray_height(*self),
    {
        self.inner.height()
    }

    /// Relies on image::ImageBuffer::into_raw, which hands back the
    /// container unchanged.
    #[verifier::external_body]
    pub fn into_raw(self) -> (r: Vec<u16>)
        ensures
            r@ == gray_words(self),
    {
        self.inner.into_raw()
    }
}

/// Relies on image::ImageBuffer::from_vec, which succeeds exactly when the
/// container holds at least three bytes per pixel and then keeps the
/// container as handed in.
#[verifier::external_body]
pub(crate) fn rgb_frame_from_vec(w: u32, h: u32, buf: Vec<u8>) -> (r: Option<RgbFrame>)
    ensures
        r is Some <==> 3 * w * h <= buf@.len(),
        r matches Some(img) ==> rgb_width(img) == w && rgb_height(img) == h && rgb_bytes(img)
            == buf@,
{
    match image::ImageBuffer::from_vec(w, h, buf) {
        Some(inner) => Some(RgbFrame { inner }),
        None => None,
    }
}

/// Relies on image::ImageBuffer::from_vec, which succeeds exactly when the
/// container holds at least one word per pixel and then keeps the container
/// as handed in.
#[verifier::external_body]
pub(crate) fn gray_frame_from_vec(w: u32, h: u32, buf: Vec<u16>) -> (r: Option<GrayFrame>)
    ensures
        r is Some <==> w as int * h as int <= buf@.len(),
        r matches Some(img) ==> gray_width(img) == w && gray_height(img) == h && gray_words(img)
            == buf@,
{
    match image::ImageBuffer::from_vec(w, h, buf) {
        Some(inner) => Some(GrayFrame { inner }),
        None => None,
    }
}

/// Relies on image::imageops::resize with the CatmullRom filter: the result
/// has exactly the requested dimensions, its container holds three bytes
/// per pixel, and the samples depend on the source pixels and the
/// dimensions alone. The dimension bounds keep the buffers the resampler
/// allocates within `usize`, where the allocation would panic.
#[verifier::external_body]
pub(crate) fn resize_rgb(img: &RgbFrame, nw: u32, nh: u32) -> (r: RgbFrame)
    requires
        1 <= nw <= MAX_DIMENSION,
        1 <= nh <= MAX_DIMENSION,
        rgb_width(*img) <= MAX_DIMENSION,
    ensures
        rgb_width(r) == nw,
        rgb_height(r) == nh,
        rgb_bytes(r).len() == 3 * nw * nh,
        rgb_bytes(r) == catmull_rgb(
            rgb_bytes(*img),
            rgb_width(*img) as int,
            rgb_height(*img) as int,
            nw as int,
            nh as int,
        ),
{
    RgbFrame {
        inner: image::imageops::resize(&img.inner, nw, nh, image::imageops::FilterType::CatmullRom),
    }
}

/// Relies on image::imageops::resize with the CatmullRom filter, as
/// `resize_rgb` does, for single-channel 16-bit images.
#[verifier::external_body]
pub(crate) fn resize_gray(img: &GrayFrame, nw: u32, nh: u32) -> (r: GrayFrame)
    requires
        1 <= nw <= MAX_DIMENSION,
        1 <= nh <= MAX_DIMENSION,
        gray_width(*img) <= MAX_DIMENSION,
    ensures
        gray_width(r) == nw,
        gray_height(r) == nh,
        gray_words(r).len() == nw * nh,
        gray_words(r) == catmull_gray(
            gray_words(*img),
            gray_width(*img) as int,
            gray_height(*img) as int,
            nw as int,
            nh as int,
        ),
{
    GrayFrame {
        inner: image::imageops::resize(&img.inner, nw, nh, image::imageops::FilterType::CatmullRom),
    }
}

} // verus!
