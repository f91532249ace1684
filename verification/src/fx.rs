//! Fixed-point scalar arithmetic.
//!
//! A coordinate is an `i64` holding `value * FX_ONE`, i.e. 48.16
//! fixed point.  Multiplication and division round toward zero, the
//! way hardware float-to-int casts do, and saturate at the `i64`
//! range; `tdiv` and `sat64` give the exact mathematical meaning of
//! every operation.
use vstd::prelude::*;

verus! {

/// The fixed-point unit: representations are scaled by this factor.
pub const FX_ONE: i64 = 65536;

/// Magnitude of a mathematical integer.
pub open spec fn mag(a: int) -> int {
    if a >= 0 {
        a
    } else {
        -a
    }
}

/// Quotient of `a` by `b`, rounded toward zero (the C / Rust `/`
/// convention for signed integers).
pub open spec fn tdiv(a: int, b: int) -> int {
    if (a >= 0) == (b >= 0) {
        mag(a) / mag(b)
    } else {
        -(mag(a) / mag(b))
    }
}

/// Clamp a mathematical integer into the `i64` range.
pub open spec fn sat64(a: int) -> int {
    if a > i64::MAX {
        i64::MAX as int
    } else if a < i64::MIN {
        i64::MIN as int
    } else {
        a
    }
}

/// Meaning of a fixed-point product.
pub open spec fn fxm(a: int, b: int) -> int {
    sat64(tdiv(a * b, FX_ONE as int))
}

/// Meaning of a fixed-point quotient (for a nonzero divisor).
pub open spec fn fxd(a: int, b: int) -> int {
    sat64(tdiv(a * FX_ONE, b))
}

/// Truncated division is bounded by the bounds of the dividend:
/// if `-L * b <= a <= L * b` (with `b > 0`), the quotient lies in `[-L, L]`.
pub proof fn lemma_tdiv_range(a: int, b: int, l: int)
    requires
        b > 0,
        l >= 0,
        -l * b <= a <= l * b,
    ensures
        -l <= tdiv(a, b) <= l,
{
    assert(-l * b == -(l * b)) by (nonlinear_arith);
    if a >= 0 {
        assert(mag(a) / b <= l) by (nonlinear_arith)
            requires
                b > 0,
                l >= 0,
                0 <= a <= l * b,
                mag(a) == a,
        ;
        assert(mag(a) / b >= 0) by (nonlinear_arith)
            requires
                b > 0,
                mag(a) >= 0,
        ;
    } else {
        assert(mag(a) / b <= l) by (nonlinear_arith)
            requires
                b > 0,
                l >= 0,
                -(l * b) <= a < 0,
                mag(a) == -a,
        ;
        assert(mag(a) / b >= 0) by (nonlinear_arith)
            requires
                b > 0,
                mag(a) >= 0,
        ;
    }
}

/// A quotient in the `i64` range is unchanged by saturation.
pub proof fn lemma_sat64_id(a: int)
    requires
        i64::MIN <= a <= i64::MAX,
    ensures
        sat64(a) == a,
{
}

/// Truncated quotient of two `i128` values, staying away from the
/// single overflowing case `i128::MIN / -1`.
pub(crate) fn tdiv_i128(a: i128, b: i128) -> (r: i128)
    requires
        b != 0,
        a != i128::MIN,
        b != i128::MIN,
    ensures
        r == tdiv(a as int, b as int),
        mag(r as int) <= mag(a as int),
{
    let am: u128 = if a >= 0 {
        a as u128
    } else {
        (-a) as u128
    };
    let bm: u128 = if b >= 0 {
        b as u128
    } else {
        (-b) as u128
    };
    let q: u128 = am / bm;
    assert(q <= am) by (nonlinear_arith)
        requires
            bm >= 1,
            q == am / bm,
    ;
    if (a < 0) != (b < 0) {
        -(q as i128)
    } else {
        q as i128
    }
}

/// `a * b / d` rounded toward zero and saturated into `i64`.
pub fn mul_div_sat(a: i64, b: i64, d: i64) -> (r: i64)
    requires
        d != 0,
    ensures
        r == sat64(tdiv(a * b, d as int)),
{
    proof {
        let ai = a as int;
        let bi = b as int;
        assert(-0x4000_0000_0000_0000_0000_0000_0000_0000 <= ai * bi
            <= 0x4000_0000_0000_0000_0000_0000_0000_0000) by (nonlinear_arith)
            requires
                -0x8000_0000_0000_0000 <= ai <= 0x7fff_ffff_ffff_ffff,
                -0x8000_0000_0000_0000 <= bi <= 0x7fff_ffff_ffff_ffff,
        ;
    }
    let p: i128 = (a as i128) * (b as i128);
    let q: i128 = tdiv_i128(p, d as i128);
    if q > i64::MAX as i128 {
        i64::MAX
    } else if q < i64::MIN as i128 {
        i64::MIN
    } else {
        q as i64
    }
}

/// Fixed-point product: `(a * b) / FX_ONE`, truncated and saturated.
pub fn fx_mul(a: i64, b: i64) -> (r: i64)
    ensures
        r == fxm(a as int, b as int),
{
    mul_div_sat(a, b, FX_ONE)
}

/// Fixed-point quotient: `(a * FX_ONE) / b`, truncated and saturated.
pub fn fx_div(a: i64, b: i64) -> (r: i64)
    requires
        b != 0,
    ensures
        r == fxd(a as int, b as int),
{
    mul_div_sat(a, FX_ONE, b)
}

/// Saturating sum.
pub fn sat_add(a: i64, b: i64) -> (r: i64)
    ensures
        r == sat64(a + b),
{
    let s: i128 = a as i128 + b as i128;
    if s > i64::MAX as i128 {
        i64::MAX
    } else if s < i64::MIN as i128 {
        i64::MIN
    } else {
        s as i64
    }
}

/// Saturating difference.
pub fn sat_sub(a: i64, b: i64) -> (r: i64)
    ensures
        r == sat64(a - b),
{
    let s: i128 = a as i128 - b as i128;
    if s > i64::MAX as i128 {
        i64::MAX
    } else if s < i64::MIN as i128 {
        i64::MIN
    } else {
        s as i64
    }
}

/// Clamp a fixed-point value into `[0, FX_ONE]` (the unit interval).
pub fn clamp01(v: i64) -> (r: i64)
    ensures
        r == clamp01_spec(v as int),
{
    if v < 0 {
        0
    } else if v > FX_ONE {
        FX_ONE
    } else {
        v
    }
}

/// Meaning of `clamp01`.
pub open spec fn clamp01_spec(v: int) -> int {
    if v < 0 {
        0
    } else if v > FX_ONE {
        FX_ONE as int
    } else {
        v
    }
}

/// Multiplying by the fixed-point unit is the identity.
pub proof fn lemma_fxm_one(a: int)
    requires
        i64::MIN <= a <= i64::MAX,
    ensures
        fxm(a, FX_ONE as int) == a,
{
    if a >= 0 {
        assert(a * FX_ONE == a * 65536) by (nonlinear_arith);
        assert(mag(a * 65536) == a * 65536) by (nonlinear_arith)
            requires
                a >= 0,
        ;
        assert((a * 65536) / 65536 == a) by (nonlinear_arith)
            requires
                a >= 0,
        ;
    } else {
        assert(mag(a * 65536) == (-a) * 65536) by (nonlinear_arith)
            requires
                a < 0,
        ;
        assert(((-a) * 65536) / 65536 == -a) by (nonlinear_arith)
            requires
                a < 0,
        ;
    }
}

/// A product with a zero factor is zero, even through fixed point.
pub proof fn lemma_fxm_zero(a: int, b: int)
    requires
        a == 0,
    ensures
        fxm(a, b) == 0,
{
    assert(a * b == 0) by (nonlinear_arith)
        requires
            a == 0,
    ;
}

/// The fixed-point product of bounded factors is bounded by the
/// product of the bounds.
pub proof fn lemma_fxm_bound(a: int, b: int, la: int, lb: int)
    requires
        0 <= la,
        0 <= lb,
        -la <= a <= la,
        -lb <= b <= lb,
        la * lb <= 0x4000_0000_0000_0000,
    ensures
        -(la * lb) <= fxm(a, b) <= la * lb,
{
    assert(-(la * lb) <= a * b <= la * lb) by (nonlinear_arith)
        requires
            0 <= la,
            0 <= lb,
            -la <= a <= la,
            -lb <= b <= lb,
    ;
    assert(-(la * lb) * FX_ONE <= a * b <= (la * lb) * FX_ONE) by (nonlinear_arith)
        requires
            -(la * lb) <= a * b <= la * lb,
            0 <= la * lb,
    ;
    assert(-(la * lb) * FX_ONE == (-(la * lb)) * FX_ONE) by (nonlinear_arith);
    lemma_tdiv_range(a * b, FX_ONE as int, la * lb);
    lemma_sat64_id(tdiv(a * b, FX_ONE as int));
}

/// A fixed-point product with a unit-bounded factor keeps the other
/// factor's bound.
pub proof fn lemma_fxm_unit_bound(a: int, b: int, la: int)
    requires
        0 <= la <= 0x4000_0000_0000_0000,
        -la <= a <= la,
        -FX_ONE <= b <= FX_ONE,
    ensures
        -la <= fxm(a, b) <= la,
{
    assert(-(la * FX_ONE) <= a * b <= la * FX_ONE) by (nonlinear_arith)
        requires
            0 <= la,
            -la <= a <= la,
            -FX_ONE <= b <= FX_ONE,
    ;
    assert(-la * FX_ONE == -(la * FX_ONE)) by (nonlinear_arith);
    lemma_tdiv_range(a * b, FX_ONE as int, la);
    lemma_sat64_id(tdiv(a * b, FX_ONE as int));
}

/// Truncated division is monotone in the dividend.
pub proof fn lemma_tdiv_mono(a: int, b: int, d: int)
    requires
        a <= b,
        d > 0,
    ensures
        tdiv(a, d) <= tdiv(b, d),
{
    if a >= 0 {
        vstd::arithmetic::div_mod::lemma_div_is_ordered(a, b, d);
        assert(tdiv(a, d) == a / d);
        assert(tdiv(b, d) == b / d);
    } else if b >= 0 {
        assert(mag(a) / d >= 0) by (nonlinear_arith)
            requires
                mag(a) >= 0,
                d > 0,
        ;
        assert(mag(b) / d >= 0) by (nonlinear_arith)
            requires
                mag(b) >= 0,
                d > 0,
        ;
        assert(tdiv(a, d) <= 0);
        assert(tdiv(b, d) >= 0);
    } else {
        vstd::arithmetic::div_mod::lemma_div_is_ordered(-b, -a, d);
        assert(tdiv(a, d) == -(mag(a) / d));
        assert(tdiv(b, d) == -(mag(b) / d));
        assert(mag(a) == -a && mag(b) == -b);
    }
}

/// Dividing an exact multiple recovers the factor.
pub proof fn lemma_tdiv_multiple(x: int, d: int)
    requires
        x >= 0,
        d > 0,
    ensures
        tdiv(x * d, d) == x,
{
    assert(x * d >= 0) by (nonlinear_arith)
        requires
            x >= 0,
            d > 0,
    ;
    assert(mag(x * d) == x * d);
    vstd::arithmetic::div_mod::lemma_div_multiples_vanish(x, d);
    assert(d * x == x * d) by (nonlinear_arith);
}

/// Meaning of a fixed-point power with a unit-interval base.
pub open spec fn fx_pow_spec(b: int, e: nat) -> int
    decreases e,
{
    if e == 0 {
        FX_ONE as int
    } else {
        fxm(b, fx_pow_spec(b, (e - 1) as nat))
    }
}

/// Fixed-point power of a unit-interval base (the Blinn specular
/// exponent); the result stays in the unit interval.
pub fn fx_pow(b: i64, e: u32) -> (r: i64)
    requires
        0 <= b <= FX_ONE,
    ensures
        r == fx_pow_spec(b as int, e as nat),
        0 <= r <= FX_ONE,
{
    let mut acc: i64 = FX_ONE;
    let mut i: u32 = 0;
    while i < e
        invariant
            0 <= b <= FX_ONE,
            i <= e,
            acc == fx_pow_spec(b as int, i as nat),
            0 <= acc <= FX_ONE,
        decreases e - i,
    {
        let next = fx_mul(b, acc);
        proof {
            lemma_fxm_unit_bound(b as int, acc as int, FX_ONE as int);
            assert(b * acc >= 0) by (nonlinear_arith)
                requires
                    b >= 0,
                    acc >= 0,
            ;
            assert(mag(b * acc) / mag(FX_ONE as int) >= 0) by (nonlinear_arith)
                requires
                    mag(b * acc) >= 0,
                    mag(FX_ONE as int) > 0,
            ;
            lemma_sat64_id(tdiv(b * acc, FX_ONE as int));
        }
        acc = next;
        i = i + 1;
    }
    acc
}

/// The floor of the square root of `n`, defined by exhaustion.
pub open spec fn sqrt_floor(n: nat) -> nat
    decreases n,
{
    if n == 0 {
        0
    } else {
        let r = sqrt_floor((n - 1) as nat);
        if (r + 1) * (r + 1) <= n {
            r + 1
        } else {
            r
        }
    }
}

/// `sqrt_floor(n)` is the greatest integer whose square is at most `n`.
pub proof fn lemma_sqrt_floor(n: nat)
    ensures
        sqrt_floor(n) * sqrt_floor(n) <= n,
        n < (sqrt_floor(n) + 1) * (sqrt_floor(n) + 1),
    decreases n,
{
    if n == 0 {
        assert(sqrt_floor(0) == 0);
        assert(n < (sqrt_floor(n) + 1) * (sqrt_floor(n) + 1)) by (nonlinear_arith)
            requires
                n == 0,
                sqrt_floor(n) == 0,
        ;
    } else {
        lemma_sqrt_floor((n - 1) as nat);
        let r = sqrt_floor((n - 1) as nat);
        let s = sqrt_floor(n);
        if (r + 1) * (r + 1) <= n {
            assert(s == r + 1);
            assert(n <= (r + 1) * (r + 1));
            assert(s * s <= n);
            assert(n <= s * s);
            assert(n < (s + 1) * (s + 1)) by (nonlinear_arith)
                requires
                    s >= 0,
                    n <= s * s,
            ;
        } else {
            assert(s == r);
            assert(s * s <= n);
            assert(n < (s + 1) * (s + 1));
        }
    }
}

/// Two integers bracketing `n` as floor square roots are equal.
pub proof fn lemma_sqrt_floor_unique(n: int, a: int, b: int)
    requires
        a >= 0,
        b >= 0,
        a * a <= n < (a + 1) * (a + 1),
        b * b <= n < (b + 1) * (b + 1),
    ensures
        a == b,
{
    assert(a == b) by (nonlinear_arith)
        requires
            a >= 0,
            b >= 0,
            a * a <= n < (a + 1) * (a + 1),
            b * b <= n < (b + 1) * (b + 1),
    ;
}

/// Integer square root: the greatest `r` with `r * r <= n`.
pub fn isqrt(n: u64) -> (r: u64)
    ensures
        r == sqrt_floor(n as nat),
        r * r <= n,
        n < (r + 1) * (r + 1),
        r <= 0x1_0000_0000u64,
{
    let mut lo: u64 = 0;
    let mut hi: u64 = 0x1_0000_0001;
    while lo + 1 < hi
        invariant
            lo < hi <= 0x1_0000_0001,
            lo * lo <= n,
            n < hi * hi,
        decreases hi - lo,
    {
        let mid: u64 = lo + (hi - lo) / 2;
        proof {
            let mi = mid as int;
            assert(0 <= mi * mi <= 0x1_0000_0002_0000_0001) by (nonlinear_arith)
                requires
                    0 <= mi <= 0x1_0000_0001,
            ;
        }
        let sq: u128 = (mid as u128) * (mid as u128);
        if sq <= n as u128 {
            lo = mid;
        } else {
            hi = mid;
        }
    }
    proof {
        lemma_sqrt_floor(n as nat);
        lemma_sqrt_floor_unique(n as int, lo as int, sqrt_floor(n as nat) as int);
    }
    lo
}

} // verus!
