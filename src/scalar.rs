//! Range predicates and Rust's rounding toward zero, stated over the integers.
use vstd::prelude::*;
use vstd::arithmetic::div_mod::{lemma_div_is_strictly_smaller, lemma_div_pos_is_pos};

verus! {

/// whether `v` can be held in an `i32`.
pub open spec fn fits_i32(v: int) -> bool {
    i32::MIN <= v <= i32::MAX
}

/// whether `v` can be held in an `i64`.
pub open spec fn fits_i64(v: int) -> bool {
    i64::MIN <= v <= i64::MAX
}

/// whether `v` can be held in a `u32`.
pub open spec fn fits_u32(v: int) -> bool {
    0 <= v <= u32::MAX
}

/// whether `v` can be held in a `u64`.
pub open spec fn fits_u64(v: int) -> bool {
    0 <= v <= u64::MAX
}

/// the absolute value of `v`.
pub open spec fn abs(v: int) -> int {
    if v < 0 { -v } else { v }
}

/// `a` divided by `b`, rounded toward zero, as Rust's `/` does on signed integers.
pub open spec fn trunc_div(a: int, b: int) -> int {
    if (a >= 0) == (b > 0) || a == 0 {
        abs(a) / abs(b)
    } else {
        -(abs(a) / abs(b))
    }
}

/// the remainder of `a` divided by `b` rounded toward zero, as Rust's `%` gives it on signed
/// integers: it takes the sign of `a`.
pub open spec fn trunc_rem(a: int, b: int) -> int {
    if a >= 0 { a % b } else { -((-a) % b) }
}

/// `a / b` on `i32`.
pub fn div_i32(a: i32, b: i32) -> (r: i32)
    requires
        b != 0,
        !(a == i32::MIN && b == -1),
    ensures
        r == trunc_div(a as int, b as int),
{
    if b > 0 {
        a / b
    } else if b == i32::MIN {
        if a == i32::MIN { 1 } else { 0 }
    } else {
        let nb: i32 = -b;
        proof {
            let m = abs(a as int);
            if nb > 1 && m > 0 {
                lemma_div_is_strictly_smaller(m, nb as int);
            }
            lemma_div_pos_is_pos(m, nb as int);
        }
        let q: i32 = a / nb;
        -q
    }
}

/// `a / b` on `i64`.
pub fn div_i64(a: i64, b: i64) -> (r: i64)
    requires
        b != 0,
        !(a == i64::MIN && b == -1),
    ensures
        r == trunc_div(a as int, b as int),
{
    if b > 0 {
        a / b
    } else if b == i64::MIN {
        if a == i64::MIN { 1 } else { 0 }
    } else {
        let nb: i64 = -b;
        proof {
            let m = abs(a as int);
            if nb > 1 && m > 0 {
                lemma_div_is_strictly_smaller(m, nb as int);
            }
            lemma_div_pos_is_pos(m, nb as int);
        }
        let q: i64 = a / nb;
        -q
    }
}

} // verus!
