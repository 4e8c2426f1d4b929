//! The dimension planner: "contain" fit without enlargement.
//!
//! Given a source size and optional target bounds, the planner scales the
//! source by `min(target_w / src_w, target_h / src_h, 1)` on both axes,
//! rounding half-up on the exact rational value and flooring each axis at
//! one pixel. Targets at or above the source leave it untouched.

use vstd::prelude::*;

use vstd::arithmetic::div_mod::lemma_fundamental_div_mod;
use vstd::arithmetic::div_mod::lemma_mod_division_less_than_divisor;
use vstd::arithmetic::div_mod::lemma_mod_multiples_basic;
use vstd::arithmetic::div_mod::lemma_div_multiples_vanish;
use vstd::arithmetic::div_mod::lemma_multiply_divide_lt;
use vstd::math::abs;

verus! {

/// `n / d`, rounded half-up on the exact rational value.
pub open spec fn round_half_up(n: int, d: int) -> int
    recommends
        0 <= n,
        1 <= d,
{
    if 2 * (n % d) >= d {
        n / d + 1
    } else {
        n / d
    }
}

/// Floors a planned axis at one pixel.
pub open spec fn clamp_min_one(x: int) -> int {
    if x < 1 {
        1
    } else {
        x
    }
}

/// One axis scaled by `num / den`, rounded half-up, floored at one pixel.
pub open spec fn scaled_axis(src: int, num: int, den: int) -> int
    recommends
        0 <= src,
        0 <= num,
        1 <= den,
{
    clamp_min_one(round_half_up(src * num, den))
}

/// The planned output for a source `(sw, sh)` and optional targets: the
/// binding ratio (the smaller of `tw / sw` and `th / sh`, capped at one)
/// applied to both axes.
pub open spec fn plan_dims(sw: int, sh: int, tw: Option<u32>, th: Option<u32>) -> (int, int)
    recommends
        1 <= sw,
        1 <= sh,
{
    match (tw, th) {
        (Some(w), Some(h)) => {
            if w * sh <= h * sw {
                if sw <= w {
                    (sw, sh)
                } else {
                    (scaled_axis(sw, w as int, sw), scaled_axis(sh, w as int, sw))
                }
            } else {
                if sh <= h {
                    (sw, sh)
                } else {
                    (scaled_axis(sw, h as int, sh), scaled_axis(sh, h as int, sh))
                }
            }
        },
        (Some(w), None) => {
            if sw <= w {
                (sw, sh)
            } else {
                (scaled_axis(sw, w as int, sw), scaled_axis(sh, w as int, sw))
            }
        },
        (None, Some(h)) => {
            if sh <= h {
                (sw, sh)
            } else {
                (scaled_axis(sw, h as int, sh), scaled_axis(sh, h as int, sh))
            }
        },
        (None, None) => (sw, sh),
    }
}

/// Products of two values below `u32::MAX` fit in a `u64`.
pub proof fn lemma_u32_mul_fits(a: int, b: int)
    requires
        0 <= a <= 0xFFFF_FFFF,
        0 <= b <= 0xFFFF_FFFF,
    ensures
        0 <= a * b <= 0xFFFF_FFFE_0000_0001,
{
    assert(0 <= a * b <= 0xFFFF_FFFE_0000_0001) by (nonlinear_arith)
        requires
            0 <= a <= 0xFFFF_FFFF,
            0 <= b <= 0xFFFF_FFFF,
    ;
}

/// A ratio below one shrinks every axis: the scaled value stays between
/// one and the source extent.
proof fn lemma_scaled_axis_shrinks(src: int, num: int, den: int)
    requires
        1 <= src,
        0 <= num < den,
    ensures
        1 <= scaled_axis(src, num, den) <= src,
{
    let n = src * num;
    assert(0 <= n) by (nonlinear_arith)
        requires
            1 <= src,
            0 <= num,
            n == src * num,
    ;
    assert(n < den * src) by (nonlinear_arith)
        requires
            1 <= src,
            num < den,
            n == src * num,
    ;
    lemma_multiply_divide_lt(n, den, src);
    assert(n / den < src);
    lemma_fundamental_div_mod(n, den);
    lemma_mod_division_less_than_divisor(n, den);
    assert(0 <= n / den) by (nonlinear_arith)
        requires
            0 <= n,
            1 <= den,
            n == den * (n / den) + n % den,
            0 <= n % den < den,
    ;
}

/// Scaling an axis by an exact whole ratio `num / den` with `src == den`
/// gives back the numerator.
proof fn lemma_scaled_axis_exact(num: int, den: int)
    requires
        1 <= num < den,
    ensures
        scaled_axis(den, num, den) == num,
{
    lemma_div_multiples_vanish(num, den);
    assert(den * num == num * den) by (nonlinear_arith);
    lemma_mod_multiples_basic(num, den);
}

/// The scaled axis differs from the exact rational `src * num / den` by
/// less than one pixel: `|scaled * den - src * num| <= den`.
proof fn lemma_scaled_axis_close(src: int, num: int, den: int)
    requires
        0 <= src,
        0 <= num,
        1 <= den,
    ensures
        abs(scaled_axis(src, num, den) * den - src * num) <= den,
{
    let n = src * num;
    assert(0 <= n) by (nonlinear_arith)
        requires
            0 <= src,
            0 <= num,
            n == src * num,
    ;
    let q = n / den;
    let r = n % den;
    lemma_fundamental_div_mod(n, den);
    lemma_mod_division_less_than_divisor(n, den);
    assert(0 <= q) by (nonlinear_arith)
        requires
            0 <= n,
            1 <= den,
            n == den * q + r,
            0 <= r < den,
    ;
    let rounded = round_half_up(n, den);
    assert(den * q == q * den) by (nonlinear_arith);
    if 2 * r >= den {
        assert(rounded == q + 1);
        assert(rounded * den == q * den + den) by (nonlinear_arith)
            requires
                rounded == q + 1,
        ;
        assert(rounded * den - n == den - r);
        assert(1 <= rounded);
        assert(scaled_axis(src, num, den) == rounded);
        assert(abs(rounded * den - n) <= den);
    } else {
        assert(rounded == q);
        if q == 0 {
            assert(den * q == 0) by (nonlinear_arith)
                requires
                    q == 0,
            ;
            assert(n == r);
            assert(scaled_axis(src, num, den) == 1);
            assert(abs(1 * den - n) <= den);
        } else {
            assert(rounded * den - n == -r);
            assert(scaled_axis(src, num, den) == rounded);
            assert(abs(rounded * den - n) <= den);
        }
    }
}

/// Rounded division, half-up: `round_half_up(n, d)` as executable code.
fn round_div(n: u64, d: u64) -> (q: u64)
    requires
        1 <= d <= u32::MAX,
    ensures
        q as int == round_half_up(n as int, d as int),
{
    let q0 = n / d;
    let r = n % d;
    proof {
        lemma_fundamental_div_mod(n as int, d as int);
        lemma_mod_division_less_than_divisor(n as int, d as int);
        if 2 * (r as int) >= d as int {
            // the quotient can be bumped without overflow: d >= 2 here
            assert(d >= 2);
            assert(q0 < u64::MAX) by (nonlinear_arith)
                requires
                    n as int == d as int * (q0 as int) + r as int,
                    0 <= r as int,
                    d >= 2,
                    n <= u64::MAX,
                    q0 as int == n as int / d as int,
            ;
        }
    }
    if 2 * r >= d {
        q0 + 1
    } else {
        q0
    }
}

/// Scales both axes of `(src_w, src_h)` by `num / den`, rounding half-up
/// and flooring at one pixel.
fn apply_ratio(src_w: u32, src_h: u32, num: u32, den: u32) -> (r: (u32, u32))
    requires
        1 <= src_w,
        1 <= src_h,
        num < den,
    ensures
        r.0 as int == scaled_axis(src_w as int, num as int, den as int),
        r.1 as int == scaled_axis(src_h as int, num as int, den as int),
        1 <= r.0 <= src_w,
        1 <= r.1 <= src_h,
{
    proof {
        lemma_scaled_axis_shrinks(src_w as int, num as int, den as int);
        lemma_scaled_axis_shrinks(src_h as int, num as int, den as int);
        lemma_u32_mul_fits(src_w as int, num as int);
        lemma_u32_mul_fits(src_h as int, num as int);
    }
    let w_scaled = round_div((src_w as u64) * (num as u64), den as u64);
    let h_scaled = round_div((src_h as u64) * (num as u64), den as u64);
    let w = if w_scaled < 1 {
        1
    } else {
        w_scaled as u32
    };
    let h = if h_scaled < 1 {
        1
    } else {
        h_scaled as u32
    };
    (w, h)
}

/// Plans the output size when only a target width is requested.
pub fn calculate_width_only(src_w: u32, src_h: u32, target_w: u32) -> (r: (u32, u32))
    requires
        1 <= src_w,
        1 <= src_h,
    ensures
        (r.0 as int, r.1 as int) == plan_dims(src_w as int, src_h as int, Some(target_w), None),
        1 <= r.0 <= src_w,
        1 <= r.1 <= src_h,
{
    if src_w <= target_w {
        (src_w, src_h)
    } else {
        apply_ratio(src_w, src_h, target_w, src_w)
    }
}

/// Plans the output size when only a target height is requested.
pub fn calculate_height_only(src_w: u32, src_h: u32, target_h: u32) -> (r: (u32, u32))
    requires
        1 <= src_w,
        1 <= src_h,
    ensures
        (r.0 as int, r.1 as int) == plan_dims(src_w as int, src_h as int, None, Some(target_h)),
        1 <= r.0 <= src_w,
        1 <= r.1 <= src_h,
{
    if src_h <= target_h {
        (src_w, src_h)
    } else {
        apply_ratio(src_w, src_h, target_h, src_h)
    }
}

/// Plans the output size for a "contain" fit: the source is scaled by the
/// binding target ratio, capped at one so that no axis is ever enlarged,
/// and each axis is floored at one pixel.
pub fn calculate_contain_dimensions(
    src_w: u32,
    src_h: u32,
    target_w: Option<u32>,
    target_h: Option<u32>,
) -> (r: (u32, u32))
    requires
        1 <= src_w,
        1 <= src_h,
    ensures
        (r.0 as int, r.1 as int) == plan_dims(src_w as int, src_h as int, target_w, target_h),
        1 <= r.0 <= src_w,
        1 <= r.1 <= src_h,
{
    match (target_w, target_h) {
        (Some(w), Some(h)) => {
            proof {
                lemma_u32_mul_fits(w as int, src_h as int);
                lemma_u32_mul_fits(h as int, src_w as int);
            }
            let cross_w = (w as u64) * (src_h as u64);
            let cross_h = (h as u64) * (src_w as u64);
            if cross_w <= cross_h {
                if src_w <= w {
                    (src_w, src_h)
                } else {
                    apply_ratio(src_w, src_h, w, src_w)
                }
            } else {
                if src_h <= h {
                    (src_w, src_h)
                } else {
                    apply_ratio(src_w, src_h, h, src_h)
                }
            }
        },
        (Some(w), None) => calculate_width_only(src_w, src_h, w),
        (None, Some(h)) => calculate_height_only(src_w, src_h, h),
        (None, None) => (src_w, src_h),
    }
}

/// No-enlargement law: whatever is requested, the planned output never
/// exceeds the source on either axis, and never drops below one pixel.
pub proof fn lemma_plan_never_enlarges(sw: int, sh: int, tw: Option<u32>, th: Option<u32>)
    requires
        1 <= sw,
        1 <= sh,
    ensures
        1 <= plan_dims(sw, sh, tw, th).0 <= sw,
        1 <= plan_dims(sw, sh, tw, th).1 <= sh,
{
    match (tw, th) {
        (Some(w), Some(h)) => {
            if w * sh <= h * sw {
                if sw > w {
                    lemma_scaled_axis_shrinks(sw, w as int, sw);
                    lemma_scaled_axis_shrinks(sh, w as int, sw);
                }
            } else {
                if sh > h {
                    lemma_scaled_axis_shrinks(sw, h as int, sh);
                    lemma_scaled_axis_shrinks(sh, h as int, sh);
                }
            }
        },
        (Some(w), None) => {
            if sw > w {
                lemma_scaled_axis_shrinks(sw, w as int, sw);
                lemma_scaled_axis_shrinks(sh, w as int, sw);
            }
        },
        (None, Some(h)) => {
            if sh > h {
                lemma_scaled_axis_shrinks(sw, h as int, sh);
                lemma_scaled_axis_shrinks(sh, h as int, sh);
            }
        },
        (None, None) => {},
    }
}

/// Aspect-preservation law: with both targets present, the planned pair
/// `(ow, oh)` lies within one pixel of the source aspect line. On the axis
/// driven by the binding ratio the cross products `ow * sh` and `oh * sw`
/// differ by at most one source extent — that is, `ow` is within one pixel
/// of `oh * sw / sh`, or `oh` is within one pixel of `ow * sh / sw`.
pub proof fn lemma_plan_preserves_aspect(sw: int, sh: int, tw: u32, th: u32)
    requires
        1 <= sw,
        1 <= sh,
        1 <= tw,
        1 <= th,
    ensures
        ({
            let (ow, oh) = plan_dims(sw, sh, Some(tw), Some(th));
            abs(ow * sh - oh * sw) <= sw || abs(ow * sh - oh * sw) <= sh
        }),
{
    let w = tw as int;
    let h = th as int;
    assert(sw * sh == sh * sw) by (nonlinear_arith);
    if w * sh <= h * sw {
        if sw <= w {
        } else {
            lemma_scaled_axis_exact(w, sw);
            lemma_scaled_axis_close(sh, w, sw);
            let ow = scaled_axis(sw, w, sw);
            let oh = scaled_axis(sh, w, sw);
            assert(ow == w);
            assert(sh * w == w * sh) by (nonlinear_arith);
            assert(abs(oh * sw - w * sh) <= sw);
            assert(abs(ow * sh - oh * sw) <= sw);
        }
    } else {
        if sh <= h {
        } else {
            lemma_scaled_axis_exact(h, sh);
            lemma_scaled_axis_close(sw, h, sh);
            let ow = scaled_axis(sw, h, sh);
            let oh = scaled_axis(sh, h, sh);
            assert(oh == h);
            assert(sw * h == h * sw) by (nonlinear_arith);
            assert(abs(ow * sh - h * sw) <= sh);
            assert(abs(ow * sh - oh * sw) <= sh);
        }
    }
}

} // verus!

