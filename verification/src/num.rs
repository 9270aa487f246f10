//! Saturating arithmetic on signed integers.

use vstd::prelude::*;

verus! {

/// The value nearest to `x` that fits in an `i64`.
pub open spec fn clamp_i64(x: int) -> int {
    if x < i64::MIN {
        i64::MIN as int
    } else if x > i64::MAX {
        i64::MAX as int
    } else {
        x
    }
}

/// The value nearest to `x` that fits in an `i32`.
pub open spec fn clamp_i32(x: int) -> int {
    if x < i32::MIN {
        i32::MIN as int
    } else if x > i32::MAX {
        i32::MAX as int
    } else {
        x
    }
}

/// `a + b`, held at the bounds of `i64`.
pub fn saturating_add_i64(a: i64, b: i64) -> (r: i64)
    ensures
        r == clamp_i64(a + b),
{
    match a.checked_add(b) {
        Some(sum) => sum,
        None => if b < 0 {
            i64::MIN
        } else {
            i64::MAX
        },
    }
}

/// `a - b`, held at the bounds of `i64`.
pub fn saturating_sub_i64(a: i64, b: i64) -> (r: i64)
    ensures
        r == clamp_i64(a - b),
{
    match a.checked_sub(b) {
        Some(difference) => difference,
        None => if b < 0 {
            i64::MAX
        } else {
            i64::MIN
        },
    }
}

/// `a * a`, held at the upper bound of `i64`.
pub fn saturating_square_i64(a: i64) -> (r: i64)
    ensures
        r == clamp_i64(a * a),
        r >= 0,
{
    assert(a * a >= 0) by (nonlinear_arith);
    match a.checked_mul(a) {
        Some(square) => square,
        None => i64::MAX,
    }
}

/// `a + b`, held at the bounds of `i32`.
pub fn saturating_add_i32(a: i32, b: i32) -> (r: i32)
    ensures
        r == clamp_i32(a + b),
{
    match a.checked_add(b) {
        Some(sum) => sum,
        None => if b < 0 {
            i32::MIN
        } else {
            i32::MAX
        },
    }
}

/// `a - b`, held at the bounds of `i32`.
pub fn saturating_sub_i32(a: i32, b: i32) -> (r: i32)
    ensures
        r == clamp_i32(a - b),
{
    match a.checked_sub(b) {
        Some(difference) => difference,
        None => if b < 0 {
            i32::MAX
        } else {
            i32::MIN
        },
    }
}

/// `a * 2`, held at the bounds of `i32`.
pub fn saturating_double_i32(a: i32) -> (r: i32)
    ensures
        r == clamp_i32(2 * a),
{
    saturating_add_i32(a, a)
}

/// The sum of integers.
pub open spec fn sum_of(terms: Seq<int>) -> int
    decreases terms.len(),
{
    if terms.len() == 0 {
        0
    } else {
        sum_of(terms.drop_last()) + terms.last()
    }
}

/// Clamping leaves what fits as it is, and takes what does not to the bound that it is past:
/// nothing that fits is nearer.
pub proof fn clamping_is_nearest(x: int, y: int)
    ensures
        -0x8000_0000_0000_0000 <= clamp_i64(x) <= 0x7fff_ffff_ffff_ffff,
        -0x8000_0000 <= clamp_i32(x) <= 0x7fff_ffff,
        -0x8000_0000_0000_0000 <= y <= 0x7fff_ffff_ffff_ffff ==> {
            &&& clamp_i64(y) == y
            &&& x <= y ==> clamp_i64(x) <= y && x <= clamp_i64(x)
            &&& x >= y ==> clamp_i64(x) >= y && x >= clamp_i64(x)
        },
        -0x8000_0000 <= y <= 0x7fff_ffff ==> {
            &&& clamp_i32(y) == y
            &&& x <= y ==> clamp_i32(x) <= y && x <= clamp_i32(x)
            &&& x >= y ==> clamp_i32(x) >= y && x >= clamp_i32(x)
        },
{
}

} // verus!
