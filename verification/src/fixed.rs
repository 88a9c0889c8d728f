//! Signed 24.8 fixed-point numbers.
//!
//! A `Fixed` holds the raw integer of an `agb_fixnum::Num<i32, 8>`: the number
//! it stands for is `raw / 256`. The arithmetic itself is `agb_fixnum`'s; the
//! functions marked `external_body` state what each operation does to the raw
//! integers, and nothing here proves those statements.

use agb_fixnum::Num;
use vstd::prelude::*;

verus! {

/// A signed fixed-point number with 8 fractional bits.
#[derive(Clone, Copy, Debug, PartialEq, Eq, Structural)]
pub struct Fixed {
    pub raw: i32,
}

/// `v` is the raw value of some `Fixed`.
pub open spec fn fits(v: int) -> bool {
    i32::MIN <= v <= i32::MAX
}

/// Quotient of `a` by `b` rounded towards zero, for `b != 0`.
pub open spec fn trunc_div(a: int, b: int) -> int {
    if a >= 0 && b > 0 {
        a / b
    } else if a < 0 && b > 0 {
        -((-a) / b)
    } else if a >= 0 {
        -(a / (-b))
    } else {
        (-a) / (-b)
    }
}

/// `c` is the integer square root of `n`, rounded down.
pub open spec fn is_floor_sqrt(c: int, n: int) -> bool {
    0 <= c && c * c <= n && n < (c + 1) * (c + 1)
}

/// The integer square root of `n`, rounded down (meaningful for `n >= 0`).
pub open spec fn floor_sqrt(n: int) -> int {
    choose|c: int| is_floor_sqrt(c, n)
}

/// There is only one rounded-down square root.
pub proof fn lemma_floor_sqrt_unique(c: int, n: int)
    requires
        is_floor_sqrt(c, n),
    ensures
        floor_sqrt(n) == c,
{
    let d = floor_sqrt(n);
    assert(is_floor_sqrt(d, n));
    assert(d == c) by (nonlinear_arith)
        requires
            0 <= c,
            0 <= d,
            c * c <= n,
            n < (c + 1) * (c + 1),
            d * d <= n,
            n < (d + 1) * (d + 1),
    ;
}

/// Every natural number has a rounded-down square root.
pub proof fn lemma_floor_sqrt_exists(n: int)
    requires
        0 <= n,
    ensures
        is_floor_sqrt(floor_sqrt(n), n),
    decreases n,
{
    if n == 0 {
        assert(is_floor_sqrt(0, 0));
    } else {
        lemma_floor_sqrt_exists(n - 1);
        let c = floor_sqrt(n - 1);
        if (c + 1) * (c + 1) <= n {
            assert(n < (c + 2) * (c + 2)) by (nonlinear_arith)
                requires
                    0 <= c,
                    n - 1 < (c + 1) * (c + 1),
            ;
            assert(is_floor_sqrt(c + 1, n));
        } else {
            assert(is_floor_sqrt(c, n));
        }
    }
}

/// Comparing a rounded-down square root with `k` is comparing the number
/// with the square of `k + 1`.
pub proof fn lemma_floor_sqrt_bound(c: int, n: int, k: int)
    requires
        is_floor_sqrt(c, n),
        0 <= k,
    ensures
        c <= k <==> n < (k + 1) * (k + 1),
{
    assert(c <= k <==> n < (k + 1) * (k + 1)) by (nonlinear_arith)
        requires
            0 <= c,
            0 <= k,
            c * c <= n,
            n < (c + 1) * (c + 1),
    ;
}

/// `Num<i32, 8>`'s `+`, which adds the raw integers. The sum must fit: the
/// outside code may panic where it does not.
#[verifier::external_body]
pub(crate) fn fixed_add(a: Fixed, b: Fixed) -> (r: Fixed)
    requires
        fits(a.raw + b.raw),
    ensures
        r.raw == a.raw + b.raw,
{
    Fixed { raw: (Num::<i32, 8>::from_raw(a.raw) + Num::<i32, 8>::from_raw(b.raw)).to_raw() }
}

/// `Num<i32, 8>`'s `-`, which subtracts the raw integers. The difference must
/// fit: the outside code may panic where it does not.
#[verifier::external_body]
pub(crate) fn fixed_sub(a: Fixed, b: Fixed) -> (r: Fixed)
    requires
        fits(a.raw - b.raw),
    ensures
        r.raw == a.raw - b.raw,
{
    Fixed { raw: (Num::<i32, 8>::from_raw(a.raw) - Num::<i32, 8>::from_raw(b.raw)).to_raw() }
}

/// `Num<i32, 8>`'s `*` with another `Num<i32, 8>`: the product of the raw
/// integers shifted right by 8 bits, that is divided by 256 and rounded down.
/// The outside code wraps where that does not fit; this claims nothing there.
#[verifier::external_body]
pub(crate) fn fixed_mul(a: Fixed, b: Fixed) -> (r: Fixed)
    requires
        fits((a.raw * b.raw) / 256),
    ensures
        r.raw == (a.raw * b.raw) / 256,
{
    Fixed { raw: (Num::<i32, 8>::from_raw(a.raw) * Num::<i32, 8>::from_raw(b.raw)).to_raw() }
}

/// `Num<i32, 8>`'s `*` with an `i32`, which multiplies the raw integer by it.
/// The product must fit: the outside code may panic where it does not.
#[verifier::external_body]
pub(crate) fn fixed_mul_int(a: Fixed, k: i32) -> (r: Fixed)
    requires
        fits(a.raw * k),
    ensures
        r.raw == a.raw * k,
{
    Fixed { raw: (Num::<i32, 8>::from_raw(a.raw) * k).to_raw() }
}

/// `Num<i32, 8>`'s `/` with an `i32`: Rust's division of the raw integer by
/// it, which rounds towards zero and panics on a zero divisor and on
/// `i32::MIN / -1`.
#[verifier::external_body]
pub(crate) fn fixed_div_int(a: Fixed, k: i32) -> (r: Fixed)
    requires
        k != 0,
        !(a.raw == i32::MIN && k == -1),
    ensures
        r.raw == trunc_div(a.raw as int, k as int),
{
    Fixed { raw: (Num::<i32, 8>::from_raw(a.raw) / k).to_raw() }
}

/// `Num<i32, 8>`'s `/` with another `Num<i32, 8>`: the dividend's raw integer
/// shifted left by 8 bits, then Rust's division by the divisor's raw integer.
/// The shifted dividend must fit, so that no bit is lost.
#[verifier::external_body]
pub(crate) fn fixed_div(a: Fixed, b: Fixed) -> (r: Fixed)
    requires
        b.raw != 0,
        fits(a.raw * 256),
        !(a.raw * 256 == i32::MIN && b.raw == -1),
    ensures
        r.raw == trunc_div(a.raw * 256, b.raw as int),
{
    Fixed { raw: (Num::<i32, 8>::from_raw(a.raw) / Num::<i32, 8>::from_raw(b.raw)).to_raw() }
}

/// `Num::<i32, 8>::sqrt`: the rounded-down integer square root of the raw
/// integer, shifted left by 4 bits. It panics on a negative number.
#[verifier::external_body]
pub(crate) fn fixed_sqrt(a: Fixed) -> (r: Fixed)
    requires
        a.raw >= 0,
    ensures
        r.raw % 16 == 0,
        is_floor_sqrt(r.raw / 16, a.raw as int),
{
    Fixed { raw: Num::<i32, 8>::from_raw(a.raw).sqrt().to_raw() }
}

/// `Num::<i32, 8>::abs`: the absolute value of the raw integer, which
/// `i32::MIN` does not have.
#[verifier::external_body]
pub(crate) fn fixed_abs(a: Fixed) -> (r: Fixed)
    requires
        a.raw != i32::MIN,
    ensures
        r.raw == if a.raw < 0 { -a.raw } else { a.raw as int },
{
    Fixed { raw: Num::<i32, 8>::from_raw(a.raw).abs().to_raw() }
}

/// `Num<i32, 8>`'s unary `-`, which negates the raw integer; `i32::MIN` has
/// no negation.
#[verifier::external_body]
pub(crate) fn fixed_neg(a: Fixed) -> (r: Fixed)
    requires
        a.raw != i32::MIN,
    ensures
        r.raw == -a.raw,
{
    Fixed { raw: (-Num::<i32, 8>::from_raw(a.raw)).to_raw() }
}

/// `Ord::max` on `Num<i32, 8>`, whose derived order is that of the raw
/// integers.
#[verifier::external_body]
pub(crate) fn fixed_max(a: Fixed, b: Fixed) -> (r: Fixed)
    ensures
        r.raw == if a.raw >= b.raw { a.raw } else { b.raw },
{
    Fixed { raw: Num::<i32, 8>::from_raw(a.raw).max(Num::<i32, 8>::from_raw(b.raw)).to_raw() }
}

/// `Ord::min` on `Num<i32, 8>`, whose derived order is that of the raw
/// integers.
#[verifier::external_body]
pub(crate) fn fixed_min(a: Fixed, b: Fixed) -> (r: Fixed)
    ensures
        r.raw == if a.raw <= b.raw { a.raw } else { b.raw },
{
    Fixed { raw: Num::<i32, 8>::from_raw(a.raw).min(Num::<i32, 8>::from_raw(b.raw)).to_raw() }
}

/// `Num::<i32, 8>::new`: the whole number `n`, whose raw integer is `n`
/// shifted left by 8 bits. `n * 256` must fit, so that no bit is lost.
#[verifier::external_body]
pub(crate) fn fixed_new(n: i32) -> (r: Fixed)
    requires
        fits(n * 256),
    ensures
        r.raw == n * 256,
{
    Fixed { raw: Num::<i32, 8>::new(n).to_raw() }
}

impl Fixed {
    /// The number whose raw integer is `raw`, that is `raw / 256`.
    pub fn from_raw(raw: i32) -> (r: Fixed)
        ensures
            r.raw == raw,
    {
        Fixed { raw }
    }

    /// The raw integer: 256 times the number.
    pub fn to_raw(self) -> (r: i32)
        ensures
            r == self.raw,
    {
        self.raw
    }

    /// The whole number `n`, if it can be represented.
    pub fn from_int(n: i32) -> (r: Option<Fixed>)
        ensures
            r == if fits(n * 256) { Some(Fixed { raw: (n * 256) as i32 }) } else { None::<Fixed> },
    {
        if -8388608 <= n && n <= 8388607 {
            Some(fixed_new(n))
        } else {
            None
        }
    }

    /// Square root: 16 times the rounded-down integer square root of the raw
    /// integer.
    pub fn sqrt(self) -> (r: Fixed)
        requires
            self.raw >= 0,
        ensures
            r.raw == 16 * floor_sqrt(self.raw as int),
    {
        let r = fixed_sqrt(self);
        proof {
            lemma_floor_sqrt_unique(r.raw as int / 16, self.raw as int);
        }
        r
    }
}

} // verus!
