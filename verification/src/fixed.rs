//! Fixed-point scalar arithmetic.
//!
//! A scalar is an `i64` counting millionths of a unit: the raw value `x`
//! stands for the real number `x / 1_000_000`. Every operation is total:
//! results that would leave the `i64` range saturate at its bounds, and
//! products and quotients truncate toward zero, exactly as the spec
//! functions here state.

use vstd::arithmetic::div_mod::{lemma_div_nonincreasing, lemma_div_pos_is_pos};
use vstd::prelude::*;

verus! {

/// Raw units in one whole scalar unit.
pub const SCALE: i64 = 1_000_000;

/// Raw value standing for the scalar two.
pub const TWO: i64 = 2_000_000;

/// Raw value standing for the scalar four.
pub const FOUR: i64 = 4_000_000;

/// Sentinel ray parameter meaning "no intersection": it compares larger
/// than every finite parameter of interest.
pub const T_INF: i64 = i64::MAX;

/// Clamps an unbounded integer into the `i64` range.
pub open spec fn sat_s(x: int) -> int {
    if x > i64::MAX as int {
        i64::MAX as int
    } else if x < i64::MIN as int {
        i64::MIN as int
    } else {
        x
    }
}

/// Truncating (round-toward-zero) division, as Rust's integer `/` computes
/// it, written over the Euclidean `/` of specifications.
pub open spec fn tdiv_s(a: int, b: int) -> int
    recommends
        b != 0,
{
    if a == 0 {
        0
    } else if a > 0 && b > 0 {
        a / b
    } else if a < 0 && b < 0 {
        (a * -1) / (b * -1)
    } else if a < 0 {
        ((a * -1) / b) * -1
    } else {
        (a / (b * -1)) * -1
    }
}

/// Saturating scalar addition.
pub open spec fn fadd_s(a: int, b: int) -> int {
    sat_s(a + b)
}

/// Saturating scalar subtraction.
pub open spec fn fsub_s(a: int, b: int) -> int {
    sat_s(a - b)
}

/// Saturating scalar multiplication: the raw product is rescaled by
/// `SCALE`, truncating toward zero.
pub open spec fn fmul_s(a: int, b: int) -> int {
    sat_s(tdiv_s(a * b, SCALE as int))
}

/// Saturating scalar division: the dividend is prescaled by `SCALE`,
/// and the quotient truncates toward zero.
pub open spec fn fdiv_s(a: int, b: int) -> int
    recommends
        b != 0,
{
    sat_s(tdiv_s(a * SCALE, b))
}

/// Saturating product of a scalar with a plain integer count: no
/// rescaling takes place.
pub open spec fn imul_s(a: int, b: int) -> int {
    sat_s(a * b)
}

/// Saturating quotient of a scalar by a plain integer count: no
/// prescaling takes place, and the quotient truncates toward zero.
pub open spec fn idiv_s(a: int, b: int) -> int
    recommends
        b != 0,
{
    sat_s(tdiv_s(a, b))
}

/// `r` is the integer square root of `n`: the largest integer whose
/// square does not exceed `n`.
pub open spec fn is_isqrt(n: int, r: int) -> bool {
    0 <= r && r * r <= n && n < (r + 1) * (r + 1)
}

/// The integer square root of `n`.
pub open spec fn isqrt_s(n: int) -> int
    recommends
        n >= 0,
{
    choose|r: int| is_isqrt(n, r)
}

/// Scalar square root: the square root of the represented value, rounded
/// down to the scalar grid.
pub open spec fn fsqrt_s(a: int) -> int
    recommends
        a >= 0,
{
    isqrt_s(a * SCALE)
}

/// Scalar exponentiation by a nonnegative integer exponent, by repeated
/// saturating multiplication starting from one.
pub open spec fn fpow_s(a: int, e: nat) -> int
    decreases e,
{
    if e == 0 {
        SCALE as int
    } else {
        fmul_s(fpow_s(a, (e - 1) as nat), a)
    }
}

/// Saturating scalar addition, at the `i64` level.
pub open spec fn fadd_i(a: i64, b: i64) -> i64 {
    fadd_s(a as int, b as int) as i64
}

/// Saturating scalar subtraction, at the `i64` level.
pub open spec fn fsub_i(a: i64, b: i64) -> i64 {
    fsub_s(a as int, b as int) as i64
}

/// Saturating scalar multiplication, at the `i64` level.
pub open spec fn fmul_i(a: i64, b: i64) -> i64 {
    fmul_s(a as int, b as int) as i64
}

/// Saturating scalar division, at the `i64` level.
pub open spec fn fdiv_i(a: i64, b: i64) -> i64
    recommends
        b != 0,
{
    fdiv_s(a as int, b as int) as i64
}

/// Saturating scalar-by-count product, at the `i64` level.
pub open spec fn imul_i(a: i64, b: i64) -> i64 {
    imul_s(a as int, b as int) as i64
}

/// Saturating scalar-by-count quotient, at the `i64` level.
pub open spec fn idiv_i(a: i64, b: i64) -> i64
    recommends
        b != 0,
{
    idiv_s(a as int, b as int) as i64
}

/// Scalar square root, at the `i64` level.
pub open spec fn fsqrt_i(a: i64) -> i64
    recommends
        a >= 0,
{
    fsqrt_s(a as int) as i64
}

/// Scalar exponentiation, at the `i64` level.
pub open spec fn fpow_i(a: i64, e: u32) -> i64 {
    fpow_s(a as int, e as nat) as i64
}

/// The product of two `i64`-ranged integers stays well inside `i128`.
pub proof fn lemma_i64_mul_fits(a: int, b: int)
    by (nonlinear_arith)
    requires
        i64::MIN as int <= a <= i64::MAX as int,
        i64::MIN as int <= b <= i64::MAX as int,
    ensures
        -0x40000000000000000000000000000000 <= a * b <= 0x40000000000000000000000000000000,
{
}

/// Two integer square roots of the same number are equal.
pub proof fn lemma_isqrt_unique(n: int, r1: int, r2: int)
    by (nonlinear_arith)
    requires
        0 <= r1,
        r1 * r1 <= n < (r1 + 1) * (r1 + 1),
        0 <= r2,
        r2 * r2 <= n < (r2 + 1) * (r2 + 1),
    ensures
        r1 == r2,
{
}

/// A witness pins `isqrt_s` down.
pub proof fn lemma_isqrt_is(n: int, r: int)
    requires
        is_isqrt(n, r),
    ensures
        isqrt_s(n) == r,
{
    let c = isqrt_s(n);
    assert(is_isqrt(n, c));
    lemma_isqrt_unique(n, r, c);
}

fn sat64(x: i128) -> (r: i64)
    ensures
        r as int == sat_s(x as int),
{
    if x > i64::MAX as i128 {
        i64::MAX
    } else if x < i64::MIN as i128 {
        i64::MIN
    } else {
        x as i64
    }
}

pub(crate) fn tdiv128(a: i128, b: i128) -> (q: i128)
    requires
        b != 0,
        a > i128::MIN,
    ensures
        q as int == tdiv_s(a as int, b as int),
{
    proof {
        let x = a as int;
        let d = b as int;
        if x > 0 && d > 0 {
            lemma_div_pos_is_pos(x, d);
            lemma_div_nonincreasing(x, d);
        } else if x < 0 && d < 0 {
            lemma_div_pos_is_pos(x * -1, d * -1);
            lemma_div_nonincreasing(x * -1, d * -1);
        } else if x < 0 {
            lemma_div_pos_is_pos(x * -1, d);
            lemma_div_nonincreasing(x * -1, d);
        } else if x > 0 {
            lemma_div_pos_is_pos(x, d * -1);
            lemma_div_nonincreasing(x, d * -1);
        }
    }
    a.checked_div(b).unwrap()
}

/// Saturating scalar addition.
pub fn fadd(a: i64, b: i64) -> (r: i64)
    ensures
        r as int == fadd_s(a as int, b as int),
        r == fadd_i(a, b),
{
    sat64(a as i128 + b as i128)
}

/// Saturating scalar subtraction.
pub fn fsub(a: i64, b: i64) -> (r: i64)
    ensures
        r as int == fsub_s(a as int, b as int),
        r == fsub_i(a, b),
{
    sat64(a as i128 - b as i128)
}

/// Saturating scalar multiplication.
pub fn fmul(a: i64, b: i64) -> (r: i64)
    ensures
        r as int == fmul_s(a as int, b as int),
        r == fmul_i(a, b),
{
    proof {
        lemma_i64_mul_fits(a as int, b as int);
    }
    let p: i128 = (a as i128) * (b as i128);
    sat64(tdiv128(p, SCALE as i128))
}

/// Saturating scalar division.
pub fn fdiv(a: i64, b: i64) -> (r: i64)
    requires
        b != 0,
    ensures
        r as int == fdiv_s(a as int, b as int),
        r == fdiv_i(a, b),
{
    proof {
        assert(SCALE as int == 1000000);
        assert((a as int) * 1000000 >= (i64::MIN as int) * 1000000) by (nonlinear_arith);
        assert((a as int) * 1000000 <= (i64::MAX as int) * 1000000) by (nonlinear_arith);
    }
    let p: i128 = (a as i128) * (SCALE as i128);
    sat64(tdiv128(p, b as i128))
}

/// Saturating product of a scalar with a plain integer count.
pub fn imul(a: i64, b: i64) -> (r: i64)
    ensures
        r as int == imul_s(a as int, b as int),
        r == imul_i(a, b),
{
    proof {
        lemma_i64_mul_fits(a as int, b as int);
    }
    sat64((a as i128) * (b as i128))
}

/// Saturating quotient of a scalar by a plain integer count.
pub fn idiv(a: i64, b: i64) -> (r: i64)
    requires
        b != 0,
    ensures
        r as int == idiv_s(a as int, b as int),
        r == idiv_i(a, b),
{
    sat64(tdiv128(a as i128, b as i128))
}

/// Saturating quotient of a scalar by a positive count given as `usize`.
pub fn idiv_n(a: i64, n: usize) -> (r: i64)
    requires
        n > 0,
    ensures
        r as int == idiv_s(a as int, n as int),
{
    sat64(tdiv128(a as i128, n as i128))
}

/// Scalar square root of a nonnegative scalar, rounded down to the grid.
pub fn fsqrt(a: i64) -> (r: i64)
    requires
        a >= 0,
    ensures
        r as int == fsqrt_s(a as int),
        r == fsqrt_i(a),
        r >= 0,
{
    proof {
        assert(SCALE as int == 1000000);
        assert((a as int) * 1000000 <= (i64::MAX as int) * 1000000) by (nonlinear_arith);
    }
    let n: u128 = (a as u128) * (SCALE as u128);
    let mut lo: u128 = 0;
    let mut hi: u128 = 0x40000000000;
    assert(n < 0x40000000000 * 0x40000000000);
    while lo + 1 < hi
        invariant
            lo < hi,
            hi <= 0x40000000000,
            (lo as int) * (lo as int) <= n as int,
            (n as int) < (hi as int) * (hi as int),
        decreases hi - lo,
    {
        let mid: u128 = lo + (hi - lo) / 2;
        proof {
            assert((mid as int) * (mid as int) < 0x40000000000 * 0x40000000000)
                by (nonlinear_arith)
                requires
                    0 <= (mid as int),
                    (mid as int) < 0x40000000000;
        }
        if mid * mid <= n {
            lo = mid;
        } else {
            hi = mid;
        }
    }
    proof {
        lemma_isqrt_is(n as int, lo as int);
    }
    lo as i64
}

/// Scalar exponentiation by a nonnegative integer exponent.
pub fn fpow(a: i64, e: u32) -> (r: i64)
    ensures
        r as int == fpow_s(a as int, e as nat),
        r == fpow_i(a, e),
{
    let mut r: i64 = SCALE;
    let mut i: u32 = 0;
    while i < e
        invariant
            i <= e,
            r as int == fpow_s(a as int, i as nat),
        decreases e - i,
    {
        r = fmul(r, a);
        i = i + 1;
    }
    r
}

} // verus!
