//! The bilinear resize algorithm: an exact model of the device kernel's
//! per-pixel computation, the laws it obeys, and a verified host
//! implementation of the same algorithm.
//!
//! For output pixel `(x, y)` the kernel scales back to the continuous source
//! coordinate `x * in_w / out_w` (and likewise for `y`), kept exactly as the
//! quotient [`src_lo`] and remainder [`src_rem`] over the denominator
//! `out_w`.  The four neighbouring samples are blended in two stages — each
//! row horizontally with weight `src_rem / out_w`, then the two row results
//! vertically with weight `src_rem / out_h` — and the result is clamped to a
//! byte.  All arithmetic is exact integer arithmetic; each stage truncates
//! its quotient toward zero.

use vstd::prelude::*;
use vstd::arithmetic::div_mod::{
    lemma_basic_div, lemma_div_by_multiple, lemma_div_is_ordered, lemma_div_multiples_vanish,
    lemma_div_pos_is_pos, lemma_fundamental_div_mod, lemma_fundamental_div_mod_converse_div,
    lemma_fundamental_div_mod_converse_mod, lemma_mod_division_less_than_divisor,
    lemma_mod_multiples_basic, lemma_multiply_divide_lt,
};
use crate::planner::MAX_DIM;

verus! {

/// Number of channels per pixel: the buffers hold raw RGBA bytes.
pub const CHANNELS: usize = 4;

/// A resize request is valid when all four dimensions are positive and fit
/// the kernel's signed 32-bit parameters, and the input holds exactly
/// [`CHANNELS`] bytes per input pixel.
pub open spec fn valid_request(
    input: Seq<u8>,
    in_w: int,
    in_h: int,
    out_w: int,
    out_h: int,
) -> bool {
    &&& 0 < in_w <= MAX_DIM
    &&& 0 < in_h <= MAX_DIM
    &&& 0 < out_w <= MAX_DIM
    &&& 0 < out_h <= MAX_DIM
    &&& input.len() == in_w * in_h * 4
}

/// Integer part of the continuous source coordinate `coord * in_dim / out_dim`.
pub open spec fn src_lo(coord: int, in_dim: int, out_dim: int) -> int {
    (coord * in_dim) / out_dim
}

/// Remainder of the same division: the fractional weight is
/// `src_rem / out_dim`.
pub open spec fn src_rem(coord: int, in_dim: int, out_dim: int) -> int {
    (coord * in_dim) % out_dim
}

/// The second sample coordinate, clamped so that it never reads past the
/// right or bottom edge.
pub open spec fn src_hi(coord: int, in_dim: int, out_dim: int) -> int {
    if src_lo(coord, in_dim, out_dim) + 1 < in_dim {
        src_lo(coord, in_dim, out_dim) + 1
    } else {
        in_dim - 1
    }
}

/// The input byte of channel `c` at input pixel `(x, y)`, as an integer.
pub open spec fn sample(input: Seq<u8>, in_w: int, x: int, y: int, c: int) -> int {
    input[(y * in_w + x) * 4 + c] as int
}

/// Blend of `a` and `b` with weight `r / d` toward `b`: the exact rational
/// `((d - r) * a + r * b) / d`, truncated toward zero.
pub open spec fn blend(a: int, b: int, r: int, d: int) -> int {
    ((d - r) * a + r * b) / d
}

/// The two-stage blended value for channel `c` of output pixel `(x, y)`,
/// before the final clamp.
pub open spec fn blended_channel(
    input: Seq<u8>,
    in_w: int,
    in_h: int,
    out_w: int,
    out_h: int,
    x: int,
    y: int,
    c: int,
) -> int {
    let x1 = src_lo(x, in_w, out_w);
    let x2 = src_hi(x, in_w, out_w);
    let rx = src_rem(x, in_w, out_w);
    let y1 = src_lo(y, in_h, out_h);
    let y2 = src_hi(y, in_h, out_h);
    let ry = src_rem(y, in_h, out_h);
    let top = blend(sample(input, in_w, x1, y1, c), sample(input, in_w, x2, y1, c), rx, out_w);
    let bot = blend(sample(input, in_w, x1, y2, c), sample(input, in_w, x2, y2, c), rx, out_w);
    blend(top, bot, ry, out_h)
}

/// Clamps an integer to `[0, 255]` and truncates it to a byte.
pub open spec fn clamp_byte(v: int) -> u8 {
    if v < 0 {
        0u8
    } else if v > 255 {
        255u8
    } else {
        v as u8
    }
}

/// The final byte written for channel `c` of output pixel `(x, y)`.
pub open spec fn out_channel(
    input: Seq<u8>,
    in_w: int,
    in_h: int,
    out_w: int,
    out_h: int,
    x: int,
    y: int,
    c: int,
) -> u8 {
    clamp_byte(blended_channel(input, in_w, in_h, out_w, out_h, x, y, c))
}

/// The whole resized image: `out_w * out_h` RGBA pixels in row-major order,
/// channel `i % 4` of pixel `((i / 4) % out_w, (i / 4) / out_w)` at byte `i`.
pub open spec fn resized(
    input: Seq<u8>,
    in_w: int,
    in_h: int,
    out_w: int,
    out_h: int,
) -> Seq<u8> {
    Seq::new(
        (out_w * out_h * 4) as nat,
        |i: int|
            out_channel(
                input,
                in_w,
                in_h,
                out_w,
                out_h,
                (i / 4) % out_w,
                (i / 4) / out_w,
                i % 4,
            ),
    )
}

/// Both source sample coordinates along one axis stay inside `[0, in_dim)`,
/// and the fractional weight stays inside `[0, out_dim)`.
pub proof fn lemma_src_coords_in_range(coord: int, in_dim: int, out_dim: int)
    requires
        0 <= coord < out_dim,
        0 < in_dim,
    ensures
        0 <= src_lo(coord, in_dim, out_dim) < in_dim,
        0 <= src_hi(coord, in_dim, out_dim) < in_dim,
        0 <= src_rem(coord, in_dim, out_dim) < out_dim,
{
    assert(0 <= coord * in_dim && coord * in_dim < out_dim * in_dim) by (nonlinear_arith)
        requires
            0 <= coord < out_dim,
            0 < in_dim,
    ;
    lemma_div_pos_is_pos(coord * in_dim, out_dim);
    lemma_multiply_divide_lt(coord * in_dim, out_dim, in_dim);
    lemma_mod_division_less_than_divisor(coord * in_dim, out_dim);
}

/// A blend of two bytes lies between 0 and 255: the weights `d - r` and `r`
/// are nonnegative and sum to the denominator, so the blend is a convex
/// combination and the truncated quotient cannot escape the byte range.
pub proof fn lemma_blend_in_bounds(a: int, b: int, r: int, d: int)
    requires
        0 <= a <= 255,
        0 <= b <= 255,
        0 <= r < d,
    ensures
        0 <= blend(a, b, r, d) <= 255,
{
    let numer = (d - r) * a + r * b;
    assert(0 <= numer && numer <= 255 * d) by (nonlinear_arith)
        requires
            0 <= a <= 255,
            0 <= b <= 255,
            0 <= r < d,
            numer == (d - r) * a + r * b,
    ;
    lemma_div_pos_is_pos(numer, d);
    lemma_div_is_ordered(numer, 255 * d, d);
    assert(255 * d == d * 255) by (nonlinear_arith);
    lemma_div_multiples_vanish(255, d);
}

/// Blending with a zero weight returns the first value unchanged.
pub proof fn lemma_blend_zero_weight(a: int, b: int, d: int)
    requires
        0 < d,
    ensures
        blend(a, b, 0, d) == a,
{
    assert((d - 0) * a + 0 * b == d * a) by (nonlinear_arith);
    lemma_div_multiples_vanish(a, d);
}

/// Law: for a valid request, the blended value of every output channel
/// already lies in `[0, 255]` — the final clamp is a safety net that never
/// alters the result, and every output byte is a convex blend of input
/// bytes.
pub proof fn lemma_blended_channel_in_bounds(
    input: Seq<u8>,
    in_w: int,
    in_h: int,
    out_w: int,
    out_h: int,
    x: int,
    y: int,
    c: int,
)
    requires
        valid_request(input, in_w, in_h, out_w, out_h),
        0 <= x < out_w,
        0 <= y < out_h,
        0 <= c < 4,
    ensures
        0 <= blended_channel(input, in_w, in_h, out_w, out_h, x, y, c) <= 255,
        out_channel(input, in_w, in_h, out_w, out_h, x, y, c) == blended_channel(
            input,
            in_w,
            in_h,
            out_w,
            out_h,
            x,
            y,
            c,
        ),
{
    lemma_src_coords_in_range(x, in_w, out_w);
    lemma_src_coords_in_range(y, in_h, out_h);
    let x1 = src_lo(x, in_w, out_w);
    let x2 = src_hi(x, in_w, out_w);
    let rx = src_rem(x, in_w, out_w);
    let y1 = src_lo(y, in_h, out_h);
    let y2 = src_hi(y, in_h, out_h);
    let ry = src_rem(y, in_h, out_h);
    lemma_blend_in_bounds(
        sample(input, in_w, x1, y1, c),
        sample(input, in_w, x2, y1, c),
        rx,
        out_w,
    );
    lemma_blend_in_bounds(
        sample(input, in_w, x1, y2, c),
        sample(input, in_w, x2, y2, c),
        rx,
        out_w,
    );
    lemma_blend_in_bounds(
        blend(sample(input, in_w, x1, y1, c), sample(input, in_w, x2, y1, c), rx, out_w),
        blend(sample(input, in_w, x1, y2, c), sample(input, in_w, x2, y2, c), rx, out_w),
        ry,
        out_h,
    );
}

/// Decomposes a linear byte offset `i` of the output buffer into its pixel
/// coordinates and channel, and shows the decomposition inverts the linear
/// offset.
pub proof fn lemma_offset_decompose(out_w: int, out_h: int, i: int)
    requires
        0 < out_w,
        0 < out_h,
        0 <= i < out_w * out_h * 4,
    ensures
        0 <= i % 4 < 4,
        0 <= (i / 4) % out_w < out_w,
        0 <= (i / 4) / out_w < out_h,
        (((i / 4) / out_w) * out_w + (i / 4) % out_w) * 4 + i % 4 == i,
{
    let p = i / 4;
    lemma_fundamental_div_mod(i, 4);
    lemma_mod_division_less_than_divisor(i, 4);
    lemma_div_pos_is_pos(i, 4);
    assert(i < 4 * (out_w * out_h)) by (nonlinear_arith)
        requires
            i < out_w * out_h * 4,
    ;
    lemma_multiply_divide_lt(i, 4, out_w * out_h);
    lemma_fundamental_div_mod(p, out_w);
    lemma_mod_division_less_than_divisor(p, out_w);
    lemma_div_pos_is_pos(p, out_w);
    lemma_multiply_divide_lt(p, out_w, out_h);
    assert((p / out_w) * out_w == out_w * (p / out_w)) by (nonlinear_arith);
    assert(((p / out_w) * out_w + p % out_w) * 4 + i % 4 == i);
}

/// Composes pixel coordinates and a channel into the linear byte offset and
/// shows the offset decomposes back to them.
pub proof fn lemma_offset_compose(out_w: int, out_h: int, x: int, y: int, c: int)
    requires
        0 <= x < out_w,
        0 <= y < out_h,
        0 <= c < 4,
    ensures
        0 <= (y * out_w + x) * 4 + c < out_w * out_h * 4,
        (((y * out_w + x) * 4 + c) / 4) % out_w == x,
        (((y * out_w + x) * 4 + c) / 4) / out_w == y,
        ((y * out_w + x) * 4 + c) % 4 == c,
{
    let p = y * out_w + x;
    let i = p * 4 + c;
    assert(0 <= p && p < out_w * out_h) by (nonlinear_arith)
        requires
            0 <= x < out_w,
            0 <= y < out_h,
            p == y * out_w + x,
    ;
    assert(i < out_w * out_h * 4) by (nonlinear_arith)
        requires
            p < out_w * out_h,
            0 <= c < 4,
            i == p * 4 + c,
    ;
    lemma_fundamental_div_mod_converse_div(i, 4, p, c);
    lemma_fundamental_div_mod_converse_mod(i, 4, p, c);
    lemma_fundamental_div_mod_converse_div(p, out_w, y, x);
    lemma_fundamental_div_mod_converse_mod(p, out_w, y, x);
}

/// Along one axis, an output dimension equal to the input dimension sends
/// every coordinate to itself with a zero fractional weight.
pub proof fn lemma_identity_axis(coord: int, dim: int)
    requires
        0 <= coord < dim,
    ensures
        src_lo(coord, dim, dim) == coord,
        src_rem(coord, dim, dim) == 0,
{
    lemma_div_by_multiple(coord, dim);
    lemma_mod_multiples_basic(coord, dim);
}

/// Law: an identity resize (`out_w == in_w`, `out_h == in_h`) reproduces the
/// input bytes exactly — every fractional weight is zero, so each blend
/// degenerates to a direct copy.
pub proof fn lemma_identity_resize(input: Seq<u8>, w: int, h: int)
    requires
        0 < w <= MAX_DIM,
        0 < h <= MAX_DIM,
        input.len() == w * h * 4,
    ensures
        resized(input, w, h, w, h) == input,
{
    let r = resized(input, w, h, w, h);
    assert forall|i: int| 0 <= i < w * h * 4 implies r[i] == input[i] by {
        lemma_offset_decompose(w, h, i);
        let x = (i / 4) % w;
        let y = (i / 4) / w;
        let c = i % 4;
        lemma_identity_axis(x, w);
        lemma_identity_axis(y, h);
        let v = sample(input, w, x, y, c);
        lemma_blend_zero_weight(v, sample(input, w, src_hi(x, w, w), y, c), w);
        lemma_blend_zero_weight(v, sample(input, w, src_hi(x, w, w), src_hi(y, h, h), c), w);
        assert(blended_channel(input, w, h, w, h, x, y, c) == blend(v, v, 0, h)) by {
            lemma_blend_zero_weight(
                v,
                blend(
                    sample(input, w, x, src_hi(y, h, h), c),
                    sample(input, w, src_hi(x, w, w), src_hi(y, h, h), c),
                    0,
                    w,
                ),
                h,
            );
        }
        lemma_blend_zero_weight(v, v, h);
        assert((y * w + x) * 4 + c == i);
        assert(r[i] == clamp_byte(input[i] as int));
    }
    assert(r =~= input);
}

/// Law: for any valid resize, output pixel `(0, 0)` equals input pixel
/// `(0, 0)` exactly: the source coordinate is `(0, 0)` with zero fractional
/// weights, so no blending error can arise.
pub proof fn lemma_corner_pixel_exact(
    input: Seq<u8>,
    in_w: int,
    in_h: int,
    out_w: int,
    out_h: int,
)
    requires
        valid_request(input, in_w, in_h, out_w, out_h),
    ensures
        forall|c: int|
            0 <= c < 4 ==> resized(input, in_w, in_h, out_w, out_h)[c] == input[c],
{
    let r = resized(input, in_w, in_h, out_w, out_h);
    assert(0 < out_w * out_h * 4) by (nonlinear_arith)
        requires
            0 < out_w,
            0 < out_h,
    ;
    assert forall|c: int| 0 <= c < 4 implies r[c] == input[c] by {
        lemma_offset_compose(out_w, out_h, 0, 0, c);
        assert((0 * out_w + 0) * 4 + c == c);
        lemma_basic_div(0, out_w);
        lemma_basic_div(0, out_h);
        assert(src_lo(0, in_w, out_w) == 0);
        assert(src_rem(0, in_w, out_w) == 0) by {
            lemma_mod_division_less_than_divisor(0, out_w);
            lemma_fundamental_div_mod(0, out_w);
        }
        assert(src_lo(0, in_h, out_h) == 0);
        assert(src_rem(0, in_h, out_h) == 0) by {
            lemma_mod_division_less_than_divisor(0, out_h);
            lemma_fundamental_div_mod(0, out_h);
        }
        let v = sample(input, in_w, 0, 0, c);
        lemma_blend_zero_weight(v, sample(input, in_w, src_hi(0, in_w, out_w), 0, c), out_w);
        lemma_blend_zero_weight(
            v,
            sample(input, in_w, src_hi(0, in_w, out_w), src_hi(0, in_h, out_h), c),
            out_w,
        );
        lemma_blend_zero_weight(
            v,
            blend(
                sample(input, in_w, 0, src_hi(0, in_h, out_h), c),
                sample(input, in_w, src_hi(0, in_w, out_w), src_hi(0, in_h, out_h), c),
                0,
                out_w,
            ),
            out_h,
        );
        assert((0 * in_w + 0) * 4 + c == c);
        assert(r[c] == clamp_byte(input[c] as int));
    }
}

/// Reads the input byte of channel `c` at input pixel `(x, y)`.
fn sample_at(input: &Vec<u8>, in_w: usize, in_h: usize, x: usize, y: usize, c: usize) -> (r: u8)
    requires
        input@.len() == in_w * in_h * 4,
        in_w <= MAX_DIM,
        in_h <= MAX_DIM,
        x < in_w,
        y < in_h,
        c < 4,
    ensures
        r as int == sample(input@, in_w as int, x as int, y as int, c as int),
{
    let n = input.len();
    proof {
        assert(n == in_w * in_h * 4);
        assert(y * in_w <= (y * in_w + x) * 4 + c && (y * in_w + x) * 4 + c < in_w * in_h * 4)
            by (nonlinear_arith)
            requires
                x < in_w,
                y < in_h,
                c < 4,
        ;
    }
    let idx = (y * in_w + x) * 4 + c;
    input[idx]
}

/// Blends two byte values with weight `r / d` toward the second, exactly as
/// [`blend`] states.
fn blend_exec(a: u64, b: u64, r: u64, d: u64) -> (v: u64)
    requires
        a <= 255,
        b <= 255,
        r < d,
        d <= MAX_DIM,
    ensures
        v as int == blend(a as int, b as int, r as int, d as int),
        v <= 255,
{
    proof {
        lemma_blend_in_bounds(a as int, b as int, r as int, d as int);
        assert((d - r) * a + r * b <= 255 * d) by (nonlinear_arith)
            requires
                a <= 255,
                b <= 255,
                r < d,
        ;
        assert(255 * (d as int) <= u64::MAX) by (nonlinear_arith)
            requires
                d <= MAX_DIM,
        ;
    }
    ((d - r) * a + r * b) / d
}

/// Computes channel `c` of output pixel `(x, y)`: the same two-stage exact
/// integer blend the device kernel performs per thread.
pub fn resize_pixel_channel(
    input: &Vec<u8>,
    in_w: usize,
    in_h: usize,
    out_w: usize,
    out_h: usize,
    x: usize,
    y: usize,
    c: usize,
) -> (b: u8)
    requires
        valid_request(input@, in_w as int, in_h as int, out_w as int, out_h as int),
        x < out_w,
        y < out_h,
        c < 4,
    ensures
        b == out_channel(
            input@,
            in_w as int,
            in_h as int,
            out_w as int,
            out_h as int,
            x as int,
            y as int,
            c as int,
        ),
{
    proof {
        lemma_src_coords_in_range(x as int, in_w as int, out_w as int);
        lemma_src_coords_in_range(y as int, in_h as int, out_h as int);
        assert((x as int) * (in_w as int) <= (MAX_DIM as int) * (MAX_DIM as int))
            by (nonlinear_arith)
            requires
                x <= MAX_DIM,
                in_w <= MAX_DIM,
        ;
        assert((y as int) * (in_h as int) <= (MAX_DIM as int) * (MAX_DIM as int))
            by (nonlinear_arith)
            requires
                y <= MAX_DIM,
                in_h <= MAX_DIM,
        ;
    }
    let sx = (x as u64) * (in_w as u64);
    let x1 = (sx / (out_w as u64)) as usize;
    let rx = sx % (out_w as u64);
    let x2 = if x1 + 1 < in_w {
        x1 + 1
    } else {
        in_w - 1
    };
    let sy = (y as u64) * (in_h as u64);
    let y1 = (sy / (out_h as u64)) as usize;
    let ry = sy % (out_h as u64);
    let y2 = if y1 + 1 < in_h {
        y1 + 1
    } else {
        in_h - 1
    };
    let v11 = sample_at(input, in_w, in_h, x1, y1, c);
    let v12 = sample_at(input, in_w, in_h, x2, y1, c);
    let v21 = sample_at(input, in_w, in_h, x1, y2, c);
    let v22 = sample_at(input, in_w, in_h, x2, y2, c);
    let top = blend_exec(v11 as u64, v12 as u64, rx, out_w as u64);
    let bot = blend_exec(v21 as u64, v22 as u64, rx, out_w as u64);
    let v = blend_exec(top, bot, ry, out_h as u64);
    proof {
        lemma_blended_channel_in_bounds(
            input@,
            in_w as int,
            in_h as int,
            out_w as int,
            out_h as int,
            x as int,
            y as int,
            c as int,
        );
    }
    v as u8
}

/// Resizes a raw RGBA image on the host with exactly the algorithm the
/// device kernel implements, one output pixel at a time in row-major order.
pub fn bilinear_resize_host(
    input: &Vec<u8>,
    in_w: usize,
    in_h: usize,
    out_w: usize,
    out_h: usize,
) -> (r: Vec<u8>)
    requires
        valid_request(input@, in_w as int, in_h as int, out_w as int, out_h as int),
        out_w * out_h * 4 <= usize::MAX,
    ensures
        r@ == resized(input@, in_w as int, in_h as int, out_w as int, out_h as int),
        r@.len() == out_w * out_h * 4,
{
    let ghost target = resized(input@, in_w as int, in_h as int, out_w as int, out_h as int);
    let mut out: Vec<u8> = Vec::new();
    let mut y: usize = 0;
    while y < out_h
        invariant
            valid_request(input@, in_w as int, in_h as int, out_w as int, out_h as int),
            out_w * out_h * 4 <= usize::MAX,
            target == resized(input@, in_w as int, in_h as int, out_w as int, out_h as int),
            y <= out_h,
            out@.len() == y * out_w * 4,
            forall|i: int| 0 <= i < out@.len() ==> out@[i] == target[i],
        decreases out_h - y,
    {
        let mut x: usize = 0;
        while x < out_w
            invariant
                valid_request(input@, in_w as int, in_h as int, out_w as int, out_h as int),
                out_w * out_h * 4 <= usize::MAX,
                target == resized(input@, in_w as int, in_h as int, out_w as int, out_h as int),
                y < out_h,
                x <= out_w,
                out@.len() == (y * out_w + x) * 4,
                forall|i: int| 0 <= i < out@.len() ==> out@[i] == target[i],
            decreases out_w - x,
        {
            let mut c: usize = 0;
            while c < 4
                invariant
                    valid_request(
                        input@,
                        in_w as int,
                        in_h as int,
                        out_w as int,
                        out_h as int,
                    ),
                    out_w * out_h * 4 <= usize::MAX,
                    target == resized(
                        input@,
                        in_w as int,
                        in_h as int,
                        out_w as int,
                        out_h as int,
                    ),
                    y < out_h,
                    x < out_w,
                    c <= 4,
                    out@.len() == (y * out_w + x) * 4 + c,
                    forall|i: int| 0 <= i < out@.len() ==> out@[i] == target[i],
                decreases 4 - c,
            {
                proof {
                    lemma_offset_compose(
                        out_w as int,
                        out_h as int,
                        x as int,
                        y as int,
                        c as int,
                    );
                }
                let b = resize_pixel_channel(input, in_w, in_h, out_w, out_h, x, y, c);
                out.push(b);
                c = c + 1;
            }
            proof {
                assert((y * out_w + x) * 4 + 4 == (y * out_w + (x + 1)) * 4) by (nonlinear_arith);
            }
            x = x + 1;
        }
        proof {
            assert((y * out_w + out_w) * 4 == ((y + 1) * out_w) * 4) by (nonlinear_arith);
        }
        y = y + 1;
    }
    proof {
        assert((out_h * out_w) * 4 == out_w * out_h * 4) by (nonlinear_arith);
        assert(out@ =~= target);
    }
    out
}

/// The device kernel source embedded at build time.  Each thread computes
/// one output pixel with the exact staged integer blend that [`out_channel`]
/// states: 64-bit quotient/remainder source coordinates, a horizontal blend
/// of each sample row, a vertical blend of the two rows, and a final clamp
/// to the byte range.
pub fn kernel_source() -> (r: &'static str) {
    "
extern \"C\" __global__ void bilinear_resize(
    const unsigned char* input,
    int input_width,
    int input_height,
    unsigned char* output,
    int output_width,
    int output_height
) {
    int x = blockIdx.x * blockDim.x + threadIdx.x;
    int y = blockIdx.y * blockDim.y + threadIdx.y;

    if (x >= output_width || y >= output_height) return;

    long long sx = (long long)x * input_width;
    long long sy = (long long)y * input_height;
    long long x1 = sx / output_width;
    long long y1 = sy / output_height;
    long long rx = sx % output_width;
    long long ry = sy % output_height;
    long long x2 = x1 + 1 < input_width ? x1 + 1 : input_width - 1;
    long long y2 = y1 + 1 < input_height ? y1 + 1 : input_height - 1;

    for (int c = 0; c < 4; c++) {
        long long v11 = input[(y1 * input_width + x1) * 4 + c];
        long long v12 = input[(y1 * input_width + x2) * 4 + c];
        long long v21 = input[(y2 * input_width + x1) * 4 + c];
        long long v22 = input[(y2 * input_width + x2) * 4 + c];

        long long top = ((output_width - rx) * v11 + rx * v12) / output_width;
        long long bot = ((output_width - rx) * v21 + rx * v22) / output_width;
        long long val = ((output_height - ry) * top + ry * bot) / output_height;

        if (val < 0) { val = 0; }
        if (val > 255) { val = 255; }
        output[((long long)y * output_width + x) * 4 + c] = (unsigned char)val;
    }
}
"
}

} // verus!
