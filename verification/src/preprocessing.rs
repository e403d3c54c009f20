use vstd::prelude::*;
use vstd::arithmetic::div_mod::{
    lemma_fundamental_div_mod, lemma_mod_bound, lemma_mod_multiples_basic,
};
use vstd::arithmetic::mul::{lemma_mul_inequality, lemma_mul_is_commutative};

use crate::errors::DepthError;
use crate::imgbuf::{
    catmull_rgb, resize_rgb, rgb_bytes, rgb_frame_from_vec, rgb_height, rgb_width, RgbFrame,
};

verus! {

/// Patch stride of the network: the dynamic model accepts only input
/// dimensions that are multiples of this.
pub const NETWORK_STRIDE: u32 = 14;

/// Largest edge length the pipeline accepts. A machine limit: it keeps every
/// pixel-buffer size the resampler allocates within `usize`, even on 32-bit
/// machines.
pub const MAX_DIMENSION: u32 = 16384;

/// How an input image is brought to the dimensions the network wants.
#[derive(Clone, Copy, Debug, PartialEq, Eq, Structural)]
pub enum ResizePolicy {
    /// Force the image to exactly `size x size`, distorting its aspect ratio.
    StaticSquash(u32),
    /// Scale the image to fit within `size x size`, keeping its aspect ratio,
    /// then floor both dimensions to multiples of the stride, never below one
    /// stride.
    AspectFit(u32, u32),
}

/// The arguments a policy is valid for: any positive size and stride. The
/// bound by `MAX_DIMENSION` is a machine limit, not part of the policy
/// itself. A size below one stride is allowed; the floor-of-one-multiple
/// rule then yields a `stride x stride` output.
pub open spec fn policy_wf(p: ResizePolicy) -> bool {
    match p {
        ResizePolicy::StaticSquash(size) => 1 <= size <= MAX_DIMENSION,
        ResizePolicy::AspectFit(size, stride) => 1 <= size <= MAX_DIMENSION && 1 <= stride
            <= MAX_DIMENSION,
    }
}

/// The integer nearest to `a / b`, halves rounded up. `b` must be positive.
pub open spec fn round_div(a: int, b: int) -> int {
    (2 * a + b) / (2 * b)
}

/// `x` floored to a multiple of `m`, but never below `m` itself.
pub open spec fn floor_to_multiple(x: int, m: int) -> int {
    if x / m >= 1 {
        (x / m) * m
    } else {
        m
    }
}

/// Width after scaling `w x h` by `min(s/w, s/h)`: the longer edge lands on
/// `s` exactly, the other is rounded to the nearest integer.
pub open spec fn fit_width(w: int, h: int, s: int) -> int {
    if w >= h {
        s
    } else {
        round_div(w * s, h)
    }
}

/// Height after scaling `w x h` by `min(s/w, s/h)`.
pub open spec fn fit_height(w: int, h: int, s: int) -> int {
    if w >= h {
        round_div(h * s, w)
    } else {
        s
    }
}

/// Output width of `AspectFit(s, m)` on a `w x h` image.
pub open spec fn aspect_fit_width(w: int, h: int, s: int, m: int) -> int {
    floor_to_multiple(fit_width(w, h, s), m)
}

/// Output height of `AspectFit(s, m)` on a `w x h` image.
pub open spec fn aspect_fit_height(w: int, h: int, s: int, m: int) -> int {
    floor_to_multiple(fit_height(w, h, s), m)
}

/// Width the preprocessor resizes a `w x h` image to under `p`.
pub open spec fn planned_width(w: int, h: int, p: ResizePolicy) -> int {
    match p {
        ResizePolicy::StaticSquash(size) => size as int,
        ResizePolicy::AspectFit(size, stride) => aspect_fit_width(
            w,
            h,
            size as int,
            stride as int,
        ),
    }
}

/// Height the preprocessor resizes a `w x h` image to under `p`.
pub open spec fn planned_height(w: int, h: int, p: ResizePolicy) -> int {
    match p {
        ResizePolicy::StaticSquash(size) => size as int,
        ResizePolicy::AspectFit(size, stride) => aspect_fit_height(
            w,
            h,
            size as int,
            stride as int,
        ),
    }
}

/// Rounding a quotient `num / den` whose numerator is at most `s * den`
/// stays at or below `s`.
proof fn lemma_round_div_le(num: int, den: int, s: int)
    requires
        den >= 1,
        s >= 0,
        0 <= num,
        num <= s * den,
    ensures
        0 <= round_div(num, den) <= s,
{
    let d2 = 2 * den;
    let q = (2 * num + den) / d2;
    lemma_fundamental_div_mod(2 * num + den, d2);
    lemma_mod_bound(2 * num + den, d2);
    let rem = (2 * num + den) % d2;
    assert(2 * num + den == d2 * q + rem);
    lemma_mul_is_commutative(q, d2);
    if q > s {
        lemma_mul_inequality(s + 1, q, d2);
        assert((s + 1) * (2 * den) == 2 * (s * den) + 2 * den) by (nonlinear_arith);
        assert(false);
    }
    if q < 0 {
        lemma_mul_inequality(q, -1, d2);
        assert((-1) * (2 * den) == -2 * den) by (nonlinear_arith);
        assert(false);
    }
}

/// The rounded quotient differs from the exact one by at most a half:
/// `2 * |round_div(a, b) * b - a| <= b`.
proof fn lemma_round_div_error(a: int, b: int)
    requires
        b >= 1,
        a >= 0,
    ensures
        2 * (round_div(a, b) * b - a) <= b,
        -b <= 2 * (round_div(a, b) * b - a),
{
    let d2 = 2 * b;
    let q = (2 * a + b) / d2;
    lemma_fundamental_div_mod(2 * a + b, d2);
    lemma_mod_bound(2 * a + b, d2);
    let rem = (2 * a + b) % d2;
    assert(2 * a + b == d2 * q + rem);
    lemma_mul_is_commutative(q, d2);
    assert(q * (2 * b) == 2 * (q * b)) by (nonlinear_arith);
    assert(2 * (q * b - a) == b - rem);
}

/// Flooring to a multiple takes away less than one multiple, and never goes
/// below `m`; an input already below `m` is raised to exactly `m`.
proof fn lemma_floor_to_multiple_bounds(x: int, m: int)
    requires
        m >= 1,
        x >= 0,
    ensures
        floor_to_multiple(x, m) % m == 0,
        m <= floor_to_multiple(x, m),
        x >= m ==> x - m < floor_to_multiple(x, m) <= x,
        x < m ==> floor_to_multiple(x, m) == m,
{
    let q = x / m;
    lemma_fundamental_div_mod(x, m);
    lemma_mod_bound(x, m);
    assert(x == m * q + x % m);
    lemma_mul_is_commutative(q, m);
    if x >= m {
        if q <= 0 {
            lemma_mul_inequality(q, 0, m);
            assert(false);
        }
        lemma_mul_inequality(1, q, m);
        lemma_mod_multiples_basic(q, m);
    } else {
        if q >= 1 {
            lemma_mul_inequality(1, q, m);
            assert(false);
        }
        if q <= -1 {
            lemma_mul_inequality(q, -1, m);
            assert((-1) * m == -m) by (nonlinear_arith);
            assert(false);
        }
        lemma_mod_multiples_basic(1, m);
        assert(floor_to_multiple(x, m) == m);
    }
}

/// What `AspectFit(s, m)` guarantees on any non-degenerate image: both output
/// dimensions are multiples of `m` and lie between `m` and `s`; before the
/// flooring step the longer edge lands on `s` exactly while the shorter one
/// is within half a unit of the exact rescaling `short * s / long`; and the
/// flooring step itself lowers a dimension by less than one stride (raising
/// it to `m` only when the exact fit fell below one stride).
pub proof fn lemma_aspect_fit_bounds(w: int, h: int, s: int, m: int)
    requires
        1 <= w,
        1 <= h,
        1 <= m <= s,
    ensures
        aspect_fit_width(w, h, s, m) % m == 0,
        aspect_fit_height(w, h, s, m) % m == 0,
        m <= aspect_fit_width(w, h, s, m) <= s,
        m <= aspect_fit_height(w, h, s, m) <= s,
        w >= h ==> fit_width(w, h, s) == s && 2 * (fit_height(w, h, s) * w - h * s) <= w
            && -w <= 2 * (fit_height(w, h, s) * w - h * s),
        w < h ==> fit_height(w, h, s) == s && 2 * (fit_width(w, h, s) * h - w * s) <= h
            && -h <= 2 * (fit_width(w, h, s) * h - w * s),
        fit_width(w, h, s) >= m ==> fit_width(w, h, s) - m < aspect_fit_width(w, h, s, m)
            <= fit_width(w, h, s),
        fit_width(w, h, s) < m ==> aspect_fit_width(w, h, s, m) == m,
        fit_height(w, h, s) >= m ==> fit_height(w, h, s) - m < aspect_fit_height(w, h, s, m)
            <= fit_height(w, h, s),
        fit_height(w, h, s) < m ==> aspect_fit_height(w, h, s, m) == m,
{
    if w >= h {
        assert(h * s <= s * w) by (nonlinear_arith)
            requires
                h <= w,
                s >= 0,
        ;
        assert(h * s >= 0) by (nonlinear_arith)
            requires
                h >= 0,
                s >= 0,
        ;
        lemma_round_div_le(h * s, w, s);
        lemma_round_div_error(h * s, w);
    } else {
        assert(w * s <= s * h) by (nonlinear_arith)
            requires
                w <= h,
                s >= 0,
        ;
        assert(w * s >= 0) by (nonlinear_arith)
            requires
                w >= 0,
                s >= 0,
        ;
        lemma_round_div_le(w * s, h, s);
        lemma_round_div_error(w * s, h);
    }
    lemma_floor_to_multiple_bounds(fit_width(w, h, s), m);
    lemma_floor_to_multiple_bounds(fit_height(w, h, s), m);
}

/// `round_div(a * s, b)` on machine integers. Caller guarantees `a <= b`, so
/// the result is at most `s`.
fn round_div_scaled(a: u32, s: u32, b: u32) -> (r: u32)
    requires
        1 <= b,
        a <= b,
        1 <= s <= MAX_DIMENSION,
    ensures
        r as int == round_div(a as int * s as int, b as int),
        r <= s,
{
    proof {
        assert(a as int * s as int <= s as int * b as int) by (nonlinear_arith)
            requires
                a <= b,
                s >= 0,
        ;
        assert(a as int * s as int >= 0 && a as int * s as int <= 0x100000000int * 0x4000int)
            by (nonlinear_arith)
            requires
                0 <= a < 0x100000000,
                0 <= s <= 0x4000,
        ;
        lemma_round_div_le(a as int * s as int, b as int, s as int);
    }
    let num: u64 = (a as u64) * (s as u64);
    let den: u64 = b as u64;
    let q: u64 = (2 * num + den) / (2 * den);
    q as u32
}

/// `floor_to_multiple(x, m)` on machine integers.
fn floor_to_stride(x: u32, m: u32) -> (r: u32)
    requires
        1 <= m,
    ensures
        r as int == floor_to_multiple(x as int, m as int),
        r >= 1,
{
    proof {
        lemma_floor_to_multiple_bounds(x as int, m as int);
    }
    let q: u32 = x / m;
    if q >= 1 {
        proof {
            lemma_fundamental_div_mod(x as int, m as int);
            lemma_mod_bound(x as int, m as int);
            lemma_mul_is_commutative(q as int, m as int);
        }
        q * m
    } else {
        m
    }
}

/// The dimensions the preprocessor resizes a `width x height` image to.
///
/// Under `StaticSquash(s)` the answer is exactly `s x s`. Under
/// `AspectFit(s, m)` both dimensions are multiples of `m`, at least `m` and
/// at most `s`, and equal to the exact aspect-preserving fit rounded to the
/// nearest integer and floored to the stride.
pub fn plan_dimensions(width: u32, height: u32, policy: ResizePolicy) -> (r: (u32, u32))
    requires
        1 <= width,
        1 <= height,
        policy_wf(policy),
    ensures
        r.0 as int == planned_width(width as int, height as int, policy),
        r.1 as int == planned_height(width as int, height as int, policy),
        1 <= r.0 <= MAX_DIMENSION,
        1 <= r.1 <= MAX_DIMENSION,
        policy matches ResizePolicy::StaticSquash(size) ==> r.0 == size && r.1 == size,
        policy matches ResizePolicy::AspectFit(size, stride) ==> r.0 % stride == 0 && r.1
            % stride == 0 && stride <= r.0 && stride <= r.1 && (size >= stride ==> r.0 <= size
            && r.1 <= size) && (size < stride ==> r.0 == stride && r.1 == stride),
{
    match policy {
        ResizePolicy::StaticSquash(size) => (size, size),
        ResizePolicy::AspectFit(size, stride) => {
            let (fw, fh): (u32, u32) = if width >= height {
                (size, round_div_scaled(height, size, width))
            } else {
                (round_div_scaled(width, size, height), size)
            };
            proof {
                lemma_floor_to_multiple_bounds(fw as int, stride as int);
                lemma_floor_to_multiple_bounds(fh as int, stride as int);
            }
            let nw = floor_to_stride(fw, stride);
            let nh = floor_to_stride(fh, stride);
            (nw, nh)
        },
    }
}

/// Position of `(channel, row, column)` in the `[1, 3, h, w]` channel-first,
/// row-major tensor the network consumes.
pub open spec fn spec_chw_offset(c: int, y: int, x: int, h: int, w: int) -> int {
    (c * h + y) * w + x
}

/// Position of `(row, column, channel)` in a `w`-wide interleaved RGB pixel
/// buffer, three bytes per pixel.
pub open spec fn spec_rgb_offset(y: int, x: int, w: int, c: int) -> int {
    3 * (y * w + x) + c
}

/// Where sample `(c, y, x)` of the preprocessed tensor lives in its flat
/// buffer. The tensor is channel-first: all of one channel before the next.
pub fn chw_offset(c: usize, y: usize, x: usize, h: usize, w: usize) -> (r: usize)
    requires
        c < 3,
        y < h,
        x < w,
        3 * h * w <= usize::MAX,
    ensures
        r as int == spec_chw_offset(c as int, y as int, x as int, h as int, w as int),
        r < 3 * h * w,
{
    proof {
        assert(c * h + y < 3 * h && (c * h + y) * w + x < 3 * h * w && 3 * h <= 3 * h * w)
            by (nonlinear_arith)
            requires
                c < 3,
                y < h,
                x < w,
                0 <= c,
                0 <= y,
                0 <= x,
                1 <= w,
                1 <= h,
        ;
    }
    (c * h + y) * w + x
}

/// Where the `c`-th sample of pixel `(y, x)` lives in a `w`-wide interleaved
/// RGB byte buffer.
pub fn rgb_offset(y: usize, x: usize, w: usize, c: usize, h: usize) -> (r: usize)
    requires
        c < 3,
        y < h,
        x < w,
        3 * h * w <= usize::MAX,
    ensures
        r as int == spec_rgb_offset(y as int, x as int, w as int, c as int),
        r < 3 * h * w,
{
    proof {
        assert(y * w + x < h * w && 3 * (y * w + x) + c < 3 * h * w && 0 <= y * w)
            by (nonlinear_arith)
            requires
                c < 3,
                y < h,
                x < w,
                0 <= c,
                0 <= y,
                0 <= x,
                1 <= w,
                1 <= h,
        ;
    }
    3 * (y * w + x) + c
}

/// Build an RGB frame from its dimensions and interleaved byte buffer.
/// Succeeds exactly when the buffer holds three bytes per pixel.
pub fn rgb_from_raw(w: u32, h: u32, bytes: Vec<u8>) -> (r: Result<RgbFrame, DepthError>)
    requires
        1 <= w <= MAX_DIMENSION,
        1 <= h <= MAX_DIMENSION,
    ensures
        r is Ok <==> bytes@.len() == 3 * w * h,
        r matches Ok(f) ==> rgb_width(f) == w && rgb_height(f) == h && rgb_bytes(f) == bytes@,
        r matches Err(e) ==> e == DepthError::InvariantViolation,
{
    proof {
        assert(3 * w * h <= 0x30000000) by (nonlinear_arith)
            requires
                0 <= w <= 0x4000,
                0 <= h <= 0x4000,
        ;
    }
    let expected: usize = 3 * (w as usize) * (h as usize);
    if bytes.len() == expected {
        match rgb_frame_from_vec(w, h, bytes) {
            Some(f) => Ok(f),
            None => Err(DepthError::InvariantViolation),
        }
    } else {
        Err(DepthError::InvariantViolation)
    }
}

/// The geometric stage of preprocessing: bring the source image to the
/// dimensions the policy plans for it, resampling with the Catmull-Rom
/// filter. The caller turns the resampled bytes into the channel-first
/// tensor; `chw_offset` and `rgb_offset` say where each sample goes.
pub fn resize_to_model_input(img: &RgbFrame, policy: ResizePolicy) -> (r: RgbFrame)
    requires
        1 <= rgb_width(*img) <= MAX_DIMENSION,
        1 <= rgb_height(*img) <= MAX_DIMENSION,
        policy_wf(policy),
    ensures
        rgb_width(r) as int == planned_width(
            rgb_width(*img) as int,
            rgb_height(*img) as int,
            policy,
        ),
        rgb_height(r) as int == planned_height(
            rgb_width(*img) as int,
            rgb_height(*img) as int,
            policy,
        ),
        rgb_bytes(r).len() == 3 * rgb_width(r) * rgb_height(r),
        rgb_bytes(r) == catmull_rgb(
            rgb_bytes(*img),
            rgb_width(*img) as int,
            rgb_height(*img) as int,
            rgb_width(r) as int,
            rgb_height(r) as int,
        ),
{
    let w = img.width();
    let h = img.height();
    let (nw, nh) = plan_dimensions(w, h, policy);
    resize_rgb(img, nw, nh)
}

} // verus!
