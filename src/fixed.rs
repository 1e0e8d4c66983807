//! Saturating fixed-point arithmetic in millionths.
//!
//! A value `v: i64` stands for the real number `v / SCALE`. Every operation
//! saturates into the `i64` range instead of overflowing, and a division by
//! zero yields zero: numeric degeneracy is a colour artifact, never a panic.
use vstd::prelude::*;

verus! {

/// The number of fixed-point units in one.
pub const SCALE: i64 = 1_000_000;

/// Clamps a mathematical integer into the range of `i64`.
pub open spec fn sat(v: int) -> int {
    if v < i64::MIN {
        i64::MIN as int
    } else if v > i64::MAX {
        i64::MAX as int
    } else {
        v
    }
}

pub open spec fn abs(a: int) -> int {
    if a < 0 {
        -a
    } else {
        a
    }
}

/// Division that rounds toward zero, as Rust's integer division does.
pub open spec fn tdiv(a: int, b: int) -> int {
    let q = abs(a) / abs(b);
    if (a < 0) != (b < 0) {
        -q
    } else {
        q
    }
}

/// Remainder whose sign follows the dividend, as Rust's `%` does.
pub open spec fn trem(a: int, b: int) -> int {
    let r = abs(a) % abs(b);
    if a < 0 {
        -r
    } else {
        r
    }
}

pub open spec fn spec_add(a: int, b: int) -> int {
    sat(a + b)
}

pub open spec fn spec_sub(a: int, b: int) -> int {
    sat(a - b)
}

pub open spec fn spec_mul(a: int, b: int) -> int {
    sat(tdiv(a * b, SCALE as int))
}

pub open spec fn spec_div(a: int, b: int) -> int {
    if b == 0 {
        0
    } else {
        sat(tdiv(a * SCALE, b))
    }
}

pub open spec fn spec_rem(a: int, b: int) -> int {
    if b == 0 {
        0
    } else {
        trem(a, b)
    }
}

pub open spec fn spec_int_div(a: int, b: int) -> int {
    if b == 0 {
        0
    } else {
        sat(tdiv(a, b))
    }
}

/// The bound within which the wide intermediate results of this module stay.
pub open spec fn wide(v: int) -> bool {
    -0x4000_0000_0000_0000_0000_0000_0000_0000 <= v <= 0x4000_0000_0000_0000_0000_0000_0000_0000
}

fn saturate(v: i128) -> (r: i64)
    ensures
        r == sat(v as int),
{
    if v < i64::MIN as i128 {
        i64::MIN
    } else if v > i64::MAX as i128 {
        i64::MAX
    } else {
        v as i64
    }
}

fn magnitude(v: i128) -> (r: u128)
    requires
        wide(v as int),
    ensures
        r as int == abs(v as int),
{
    if v < 0 {
        (-v) as u128
    } else {
        v as u128
    }
}

fn trunc_div(a: i128, b: i128) -> (r: i128)
    requires
        b != 0,
        wide(a as int),
        wide(b as int),
    ensures
        r as int == tdiv(a as int, b as int),
        wide(r as int),
{
    let ua = magnitude(a);
    let ub = magnitude(b);
    let q = ua / ub;
    assert(q <= ua) by (nonlinear_arith)
        requires
            ub >= 1,
            q == ua / ub,
    ;
    if (a < 0) != (b < 0) {
        -(q as i128)
    } else {
        q as i128
    }
}

fn product(a: i64, b: i64) -> (r: i128)
    ensures
        r as int == a as int * b as int,
        wide(r as int),
{
    assert(wide(a as int * b as int)) by (nonlinear_arith)
        requires
            i64::MIN <= a <= i64::MAX,
            i64::MIN <= b <= i64::MAX,
    ;
    a as i128 * b as i128
}

/// `a + b`, saturated.
pub fn fx_add(a: i64, b: i64) -> (r: i64)
    ensures
        r == spec_add(a as int, b as int),
{
    saturate(a as i128 + b as i128)
}

/// `a - b`, saturated.
pub fn fx_sub(a: i64, b: i64) -> (r: i64)
    ensures
        r == spec_sub(a as int, b as int),
{
    saturate(a as i128 - b as i128)
}

/// The fixed-point product `a * b`, rounded toward zero and saturated.
pub fn fx_mul(a: i64, b: i64) -> (r: i64)
    ensures
        r == spec_mul(a as int, b as int),
{
    saturate(trunc_div(product(a, b), SCALE as i128))
}

/// The fixed-point quotient `a / b`, rounded toward zero and saturated;
/// zero where `b` is zero.
pub fn fx_div(a: i64, b: i64) -> (r: i64)
    ensures
        r == spec_div(a as int, b as int),
{
    if b == 0 {
        0
    } else {
        saturate(trunc_div(product(a, SCALE), b as i128))
    }
}

/// The plain integer quotient `a / b`, rounded toward zero and saturated;
/// zero where `b` is zero.
pub fn int_div(a: i64, b: i64) -> (r: i64)
    ensures
        r == spec_int_div(a as int, b as int),
{
    if b == 0 {
        0
    } else {
        saturate(trunc_div(a as i128, b as i128))
    }
}

/// The remainder of `a / b` with the sign of `a`; zero where `b` is zero.
pub fn fx_rem(a: i64, b: i64) -> (r: i64)
    ensures
        r == spec_rem(a as int, b as int),
{
    if b == 0 {
        0
    } else {
        let ua = magnitude(a as i128);
        let ub = magnitude(b as i128);
        let m = ua % ub;
        assert(m < ub);
        if a < 0 {
            -(m as i64)
        } else {
            m as i64
        }
    }
}

} // verus!
