//! Fixed-point scalar arithmetic.
//!
//! Every scalar quantity of the renderer (coordinates, colors, ray
//! parameters) is a signed fixed-point number: an `i64` raw value that
//! stands for `raw / FX_ONE`. All operations compute exactly in wide
//! integers and then clip the raw result into `[-FX_LIMIT, FX_LIMIT]`,
//! so they are total and never overflow.

use vstd::prelude::*;

verus! {

/// Raw value of the scalar `1`.
pub const FX_ONE: i64 = 65536;

/// Largest raw magnitude a scalar may hold; results are clipped to it.
pub const FX_LIMIT: i64 = 0x100_0000_0000_0000;

/// Raw value of the closest approximation to pi.
pub const FX_PI: i64 = 205887;

/// Raw value of the scalar `1` at the wide scale used for shading
/// intermediates that would underflow the ordinary grain (fourth
/// powers of roughness, microfacet denominators).
pub const FXW_ONE: i64 = 0x1_0000_0000;

/// Largest raw magnitude a wide intermediate may hold.
pub const FXW_LIMIT: i64 = 0x4000_0000_0000_0000;

/// Raw value of pi at the wide scale.
pub const FXW_PI: i64 = 13493037704;

/// Smallest positive scalar; stands in for the epsilon guards of the
/// intersection and shading formulas.
pub const FX_EPS: i64 = 1;

/// Offset applied along a surface normal when spawning secondary rays,
/// and the default lower ray bound; avoids self-intersection at the
/// originating surface.
pub const FX_SURFACE_EPS: i64 = 7;

/// Upper ray bound that stands in for "no upper bound".
pub const FX_T_MAX: i64 = i64::MAX;

pub open spec fn abs_int(x: int) -> int {
    if x < 0 {
        -x
    } else {
        x
    }
}

/// Whether a value lies in the representable scalar range.
pub open spec fn fx_in_range(x: int) -> bool {
    -(FX_LIMIT as int) <= x <= FX_LIMIT as int
}

/// Clip a mathematical result into the representable scalar range.
pub open spec fn fx_clip(x: int) -> int {
    if x > FX_LIMIT as int {
        FX_LIMIT as int
    } else if x < -(FX_LIMIT as int) {
        -(FX_LIMIT as int)
    } else {
        x
    }
}

/// Integer division that truncates toward zero, total with `a / 0 == 0`.
pub open spec fn div_trunc(a: int, b: int) -> int {
    if b == 0 {
        0
    } else if (a < 0) == (b < 0) {
        abs_int(a) / abs_int(b)
    } else {
        -(abs_int(a) / abs_int(b))
    }
}

pub open spec fn fx_add_s(a: int, b: int) -> int {
    fx_clip(a + b)
}

pub open spec fn fx_sub_s(a: int, b: int) -> int {
    fx_clip(a - b)
}

pub open spec fn fx_neg_s(a: int) -> int {
    fx_clip(-a)
}

pub open spec fn fx_abs_s(a: int) -> int {
    fx_clip(abs_int(a))
}

pub open spec fn fx_mul_s(a: int, b: int) -> int {
    fx_clip(div_trunc(a * b, FX_ONE as int))
}

pub open spec fn fx_div_s(a: int, b: int) -> int {
    if b == 0 {
        0
    } else {
        fx_clip(div_trunc(a * FX_ONE as int, b))
    }
}

/// Division by a positive divisor that rounds the magnitude up, so a
/// nonzero quotient never collapses to zero.
pub open spec fn div_ceil_mag(a: int, b: int) -> int {
    if b <= 0 {
        0
    } else if a >= 0 {
        (a + b - 1) / b
    } else {
        -((-a + b - 1) / b)
    }
}

/// Multiplication that rounds the magnitude of the product up; used
/// where a product of small positive factors must stay positive.
pub open spec fn fx_mul_up_s(a: int, b: int) -> int {
    fx_clip(div_ceil_mag(a * b, FX_ONE as int))
}

/// Clip a wide intermediate into its representable range.
pub open spec fn fxw_clip(x: int) -> int {
    if x > FXW_LIMIT as int {
        FXW_LIMIT as int
    } else if x < -(FXW_LIMIT as int) {
        -(FXW_LIMIT as int)
    } else {
        x
    }
}

pub open spec fn fxw_add_s(a: int, b: int) -> int {
    fxw_clip(a + b)
}

pub open spec fn fxw_sub_s(a: int, b: int) -> int {
    fxw_clip(a - b)
}

pub open spec fn fxw_mul_s(a: int, b: int) -> int {
    fxw_clip(div_trunc(a * b, FXW_ONE as int))
}

pub open spec fn fxw_div_s(a: int, b: int) -> int {
    if b == 0 {
        0
    } else {
        fxw_clip(div_trunc(a * FXW_ONE as int, b))
    }
}

/// The exact square of an ordinary scalar, landing on the wide scale.
pub open spec fn fx_widen_sq_s(a: int) -> int {
    fxw_clip(a * a)
}

/// A wide intermediate brought back to the ordinary scale, rounding
/// the magnitude up so positive quantities below the ordinary grain
/// stay positive.
pub open spec fn fxw_to_fx_s(a: int) -> int {
    fx_clip(div_ceil_mag(a, FX_ONE as int))
}

pub open spec fn fx_min_s(a: int, b: int) -> int {
    if a < b {
        a
    } else {
        b
    }
}

pub open spec fn fx_max_s(a: int, b: int) -> int {
    if a < b {
        b
    } else {
        a
    }
}

pub open spec fn is_isqrt(n: int, r: int) -> bool {
    &&& 0 <= r
    &&& r * r <= n
    &&& n < (r + 1) * (r + 1)
}

pub open spec fn isqrt_s(n: int) -> int {
    choose|r: int| is_isqrt(n, r)
}

/// Fixed-point square root: the integer square root of `x * FX_ONE`,
/// so that the result is again a raw scalar. Nonpositive inputs give 0.
pub open spec fn fx_sqrt_s(x: int) -> int {
    if x <= 0 {
        0
    } else {
        isqrt_s(x * FX_ONE as int)
    }
}

pub open spec fn fx_powi_s(b: int, e: int) -> int
    decreases (if e < 0 { 1 - e } else { e }),
{
    if e == 0 {
        FX_ONE as int
    } else if e > 0 {
        fx_mul_s(b, fx_powi_s(b, e - 1))
    } else {
        fx_div_s(FX_ONE as int, fx_powi_s(b, -e))
    }
}

proof fn lemma_mul_range(a: int, b: int, m: int)
    requires
        -m <= a <= m,
        -m <= b <= m,
        0 <= m,
    ensures
        -(m * m) <= a * b <= m * m,
{
    assert(-(m * m) <= a * b <= m * m) by (nonlinear_arith)
        requires
            -m <= a <= m,
            -m <= b <= m,
            0 <= m,
    ;
}

pub proof fn lemma_isqrt_unique(n: int, r: int)
    requires
        is_isqrt(n, r),
    ensures
        isqrt_s(n) == r,
{
    assert(is_isqrt(n, isqrt_s(n))) by {
        assert(exists|q: int| is_isqrt(n, q));
    }
    let c = isqrt_s(n);
    assert(r == c) by (nonlinear_arith)
        requires
            0 <= r,
            r * r <= n,
            n < (r + 1) * (r + 1),
            0 <= c,
            c * c <= n,
            n < (c + 1) * (c + 1),
    ;
}

/// Every nonnegative integer has an integer square root, so the
/// chosen root satisfies its defining property.
pub proof fn lemma_isqrt_exists(n: int)
    requires
        n >= 0,
    ensures
        is_isqrt(n, isqrt_s(n)),
    decreases n,
{
    if n == 0 {
        assert(is_isqrt(0, 0));
    } else {
        lemma_isqrt_exists(n - 1);
        let p = isqrt_s(n - 1);
        if (p + 1) * (p + 1) <= n {
            assert(is_isqrt(n, p + 1)) by (nonlinear_arith)
                requires
                    0 <= p,
                    p * p <= n - 1,
                    n - 1 < (p + 1) * (p + 1),
                    (p + 1) * (p + 1) <= n,
            ;
        } else {
            assert(is_isqrt(n, p));
        }
    }
}

pub proof fn lemma_fx_sqrt_s_nonneg(x: int)
    ensures
        fx_sqrt_s(x) >= 0,
{
    if x > 0 {
        assert(x * FX_ONE as int >= 0) by (nonlinear_arith)
            requires
                x > 0,
        ;
        lemma_isqrt_exists(x * FX_ONE as int);
    }
}

pub proof fn lemma_div_trunc_mono(a1: int, a2: int, b: int)
    requires
        a1 <= a2,
        b > 0,
    ensures
        div_trunc(a1, b) <= div_trunc(a2, b),
{
    if a1 >= 0 {
        vstd::arithmetic::div_mod::lemma_div_is_ordered(a1, a2, b);
    } else if a2 < 0 {
        vstd::arithmetic::div_mod::lemma_div_is_ordered(-a2, -a1, b);
    } else {
        vstd::arithmetic::div_mod::lemma_div_pos_is_pos(-a1, b);
        vstd::arithmetic::div_mod::lemma_div_pos_is_pos(a2, b);
    }
}

pub proof fn lemma_fx_div_mono(a1: int, a2: int, b: int)
    requires
        a1 <= a2,
        b > 0,
    ensures
        fx_div_s(a1, b) <= fx_div_s(a2, b),
{
    lemma_div_trunc_mono(a1 * FX_ONE as int, a2 * FX_ONE as int, b);
}

pub proof fn lemma_fx_mul_mono(a1: int, a2: int, b: int)
    requires
        a1 <= a2,
        b >= 0,
    ensures
        fx_mul_s(a1, b) <= fx_mul_s(a2, b),
{
    assert(a1 * b <= a2 * b) by (nonlinear_arith)
        requires
            a1 <= a2,
            b >= 0,
    ;
    lemma_div_trunc_mono(a1 * b, a2 * b, FX_ONE as int);
}

pub proof fn lemma_fx_mul_antimono(a1: int, a2: int, b: int)
    requires
        a1 <= a2,
        b <= 0,
    ensures
        fx_mul_s(a2, b) <= fx_mul_s(a1, b),
{
    assert(a2 * b <= a1 * b) by (nonlinear_arith)
        requires
            a1 <= a2,
            b <= 0,
    ;
    lemma_div_trunc_mono(a2 * b, a1 * b, FX_ONE as int);
}

/// Scaling a small nonnegative quantity by a factor of magnitude at
/// most one keeps its magnitude and fixes its sign.
pub proof fn lemma_fx_mul_eps_bound(a: int, e: int)
    requires
        -(FX_ONE as int) <= a <= FX_ONE as int,
        0 <= e <= FX_LIMIT as int,
    ensures
        0 <= a ==> 0 <= fx_mul_s(a, e) <= e,
        a < 0 ==> -e <= fx_mul_s(a, e) <= 0,
{
    let s = FX_ONE as int;
    assert(abs_int(a * e) <= s * e) by (nonlinear_arith)
        requires
            -s <= a <= s,
            0 <= e,
    ;
    vstd::arithmetic::div_mod::lemma_div_is_ordered(abs_int(a * e), s * e, s);
    vstd::arithmetic::div_mod::lemma_div_by_multiple(e, s);
    assert(s * e == e * s) by (nonlinear_arith);
    assert((s * e) / s == e);
    vstd::arithmetic::div_mod::lemma_div_pos_is_pos(abs_int(a * e), s);
    if 0 <= a {
        assert(a * e >= 0) by (nonlinear_arith)
            requires
                0 <= a,
                0 <= e,
        ;
    } else {
        assert(a * e <= 0) by (nonlinear_arith)
            requires
                a < 0,
                0 <= e,
        ;
    }
}

/// Dividing a positive value by itself gives exactly one.
pub proof fn lemma_fx_div_self(a: int)
    requires
        0 < a,
    ensures
        fx_div_s(a, a) == FX_ONE as int,
{
    vstd::arithmetic::div_mod::lemma_div_by_multiple(FX_ONE as int, a);
    assert(a * FX_ONE as int == FX_ONE as int * a) by (nonlinear_arith);
}

/// Clip a wide intermediate result back into the scalar range.
pub fn fx_clamp(x: i128) -> (r: i64)
    ensures
        r as int == fx_clip(x as int),
{
    if x > FX_LIMIT as i128 {
        FX_LIMIT
    } else if x < -(FX_LIMIT as i128) {
        -FX_LIMIT
    } else {
        x as i64
    }
}

fn div_trunc_i128(a: i128, b: i128) -> (r: i128)
    requires
        b != 0,
        a > i128::MIN,
        b > i128::MIN,
    ensures
        r as int == div_trunc(a as int, b as int),
{
    let neg: bool = (a < 0) != (b < 0);
    let ua: u128 = if a < 0 {
        (-a) as u128
    } else {
        a as u128
    };
    let ub: u128 = if b < 0 {
        (-b) as u128
    } else {
        b as u128
    };
    let q: u128 = ua / ub;
    proof {
        assert(ua as int == abs_int(a as int));
        assert(ub as int == abs_int(b as int));
        assert(q <= ua) by (nonlinear_arith)
            requires
                ub >= 1,
                q == ua / ub,
        ;
    }
    if neg {
        -(q as i128)
    } else {
        q as i128
    }
}

pub fn fx_add(a: i64, b: i64) -> (r: i64)
    ensures
        r as int == fx_add_s(a as int, b as int),
{
    fx_clamp(a as i128 + b as i128)
}

pub fn fx_sub(a: i64, b: i64) -> (r: i64)
    ensures
        r as int == fx_sub_s(a as int, b as int),
{
    fx_clamp(a as i128 - b as i128)
}

pub fn fx_neg(a: i64) -> (r: i64)
    ensures
        r as int == fx_neg_s(a as int),
{
    fx_clamp(-(a as i128))
}

pub fn fx_abs(a: i64) -> (r: i64)
    ensures
        r as int == fx_abs_s(a as int),
{
    if a < 0 {
        fx_clamp(-(a as i128))
    } else {
        fx_clamp(a as i128)
    }
}

pub fn fx_min(a: i64, b: i64) -> (r: i64)
    ensures
        r as int == fx_min_s(a as int, b as int),
{
    if a < b {
        a
    } else {
        b
    }
}

pub fn fx_max(a: i64, b: i64) -> (r: i64)
    ensures
        r as int == fx_max_s(a as int, b as int),
{
    if a < b {
        b
    } else {
        a
    }
}

pub fn fx_mul(a: i64, b: i64) -> (r: i64)
    ensures
        r as int == fx_mul_s(a as int, b as int),
{
    proof {
        lemma_mul_range(a as int, b as int, 0x8000_0000_0000_0000);
    }
    let p: i128 = (a as i128) * (b as i128);
    let q: i128 = div_trunc_i128(p, FX_ONE as i128);
    fx_clamp(q)
}

pub fn fx_div(a: i64, b: i64) -> (r: i64)
    ensures
        r as int == fx_div_s(a as int, b as int),
{
    if b == 0 {
        0
    } else {
        proof {
            lemma_mul_range(a as int, FX_ONE as int, 0x8000_0000_0000_0000);
        }
        let p: i128 = (a as i128) * (FX_ONE as i128);
        let q: i128 = div_trunc_i128(p, b as i128);
        fx_clamp(q)
    }
}

fn fxw_clamp(x: i128) -> (r: i64)
    ensures
        r as int == fxw_clip(x as int),
{
    if x > FXW_LIMIT as i128 {
        FXW_LIMIT
    } else if x < -(FXW_LIMIT as i128) {
        -FXW_LIMIT
    } else {
        x as i64
    }
}

fn div_ceil_mag_i128(a: i128, b: i128) -> (r: i128)
    requires
        0 < b <= 0x1_0000_0000,
        -0x4000_0000_0000_0000_0000_0000_0000_0000 <= a <= 0x4000_0000_0000_0000_0000_0000_0000_0000,
    ensures
        r as int == div_ceil_mag(a as int, b as int),
{
    if a >= 0 {
        let n: u128 = (a as u128) + (b as u128) - 1;
        let q: u128 = n / (b as u128);
        proof {
            assert(q <= n) by (nonlinear_arith)
                requires
                    (b as u128) >= 1,
                    q == n / (b as u128),
            ;
        }
        q as i128
    } else {
        let n: u128 = ((-a) as u128) + (b as u128) - 1;
        let q: u128 = n / (b as u128);
        proof {
            assert(q <= n) by (nonlinear_arith)
                requires
                    (b as u128) >= 1,
                    q == n / (b as u128),
            ;
        }
        -(q as i128)
    }
}

pub fn fx_mul_up(a: i64, b: i64) -> (r: i64)
    ensures
        r as int == fx_mul_up_s(a as int, b as int),
{
    proof {
        lemma_mul_range(a as int, b as int, 0x8000_0000_0000_0000);
    }
    let p: i128 = (a as i128) * (b as i128);
    let q: i128 = div_ceil_mag_i128(p, FX_ONE as i128);
    fx_clamp(q)
}

pub fn fxw_add(a: i64, b: i64) -> (r: i64)
    ensures
        r as int == fxw_add_s(a as int, b as int),
{
    fxw_clamp(a as i128 + b as i128)
}

pub fn fxw_sub(a: i64, b: i64) -> (r: i64)
    ensures
        r as int == fxw_sub_s(a as int, b as int),
{
    fxw_clamp(a as i128 - b as i128)
}

pub fn fxw_mul(a: i64, b: i64) -> (r: i64)
    ensures
        r as int == fxw_mul_s(a as int, b as int),
{
    proof {
        lemma_mul_range(a as int, b as int, 0x8000_0000_0000_0000);
    }
    let p: i128 = (a as i128) * (b as i128);
    let q: i128 = div_trunc_i128(p, FXW_ONE as i128);
    fxw_clamp(q)
}

pub fn fxw_div(a: i64, b: i64) -> (r: i64)
    ensures
        r as int == fxw_div_s(a as int, b as int),
{
    if b == 0 {
        0
    } else {
        proof {
            lemma_mul_range(a as int, FXW_ONE as int, 0x8000_0000_0000_0000);
        }
        let p: i128 = (a as i128) * (FXW_ONE as i128);
        let q: i128 = div_trunc_i128(p, b as i128);
        fxw_clamp(q)
    }
}

pub fn fx_widen_sq(a: i64) -> (r: i64)
    ensures
        r as int == fx_widen_sq_s(a as int),
{
    proof {
        lemma_mul_range(a as int, a as int, 0x8000_0000_0000_0000);
    }
    fxw_clamp((a as i128) * (a as i128))
}

pub fn fxw_to_fx(a: i64) -> (r: i64)
    ensures
        r as int == fxw_to_fx_s(a as int),
{
    let q: i128 = div_ceil_mag_i128(a as i128, FX_ONE as i128);
    fx_clamp(q)
}

pub fn fx_sqrt(x: i64) -> (r: i64)
    ensures
        r as int == fx_sqrt_s(x as int),
        r >= 0,
{
    if x <= 0 {
        return 0;
    }
    proof {
        lemma_mul_range(x as int, FX_ONE as int, 0x8000_0000_0000_0000);
    }
    let n: u128 = (x as u128) * (FX_ONE as u128);
    let mut lo: u128 = 0;
    let mut hi: u128 = 0x100_0000_0000;
    proof {
        assert((0x100_0000_0000 as int) * (0x100_0000_0000 as int) == 0x1_0000_0000_0000_0000_0000);
    }
    while lo + 1 < hi
        invariant
            lo < hi,
            hi <= 0x100_0000_0000,
            lo * lo <= n,
            n < hi * hi,
        decreases hi - lo,
    {
        let mid: u128 = lo + (hi - lo) / 2;
        proof {
            lemma_mul_range(mid as int, mid as int, 0x100_0000_0000);
        }
        if mid * mid <= n {
            lo = mid;
        } else {
            hi = mid;
        }
    }
    proof {
        assert(hi == lo + 1);
        assert(is_isqrt(n as int, lo as int));
        lemma_isqrt_unique(n as int, lo as int);
    }
    lo as i64
}

pub fn fx_powi(b: i64, e: i32) -> (r: i64)
    ensures
        r as int == fx_powi_s(b as int, e as int),
{
    let mag: u32 = if e < 0 {
        (-(e as i64)) as u32
    } else {
        e as u32
    };
    let mut acc: i64 = FX_ONE;
    let mut i: u32 = 0;
    while i < mag
        invariant
            i <= mag,
            acc as int == fx_powi_s(b as int, i as int),
        decreases mag - i,
    {
        proof {
            assert((acc as int) * (b as int) == (b as int) * (acc as int));
        }
        acc = fx_mul(acc, b);
        i = i + 1;
    }
    if e < 0 {
        proof {
            assert(mag as int == -(e as int));
        }
        fx_div(FX_ONE, acc)
    } else {
        acc
    }
}

} // verus!
