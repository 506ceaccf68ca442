//! Fixed-point arithmetic for monetary amounts and rates.
//!
//! An `i128` holds the value times `SCALE`: one euro is `SCALE`, and a
//! percentage of `p` percent is stored as `p * SCALE`. Every product is
//! brought back to scale by a truncating division toward zero, the one
//! rounding rule of this library. The executable operations use checked
//! arithmetic and return `None` exactly when an intermediate product
//! leaves the `i128` range.

use vstd::prelude::*;

verus! {

use vstd::arithmetic::div_mod::{
    lemma_div_pos_is_pos, lemma_div_nonincreasing, lemma_div_of0, lemma_div_multiples_vanish,
};

/// One currency unit (and the fixed-point representation of 1.0).
pub const SCALE: i128 = 1_000_000;

/// Divisor that applies a fixed-point percentage to an amount:
/// `amount * pct / PCT_DEN` is `amount * (pct / SCALE) / 100`.
pub const PCT_DEN: i128 = 100_000_000;

/// Truncating division toward zero by a positive divisor.
pub open spec fn div_trunc(x: int, d: int) -> int {
    if x >= 0 {
        x / d
    } else {
        -((-x) / d)
    }
}

/// Whether a mathematical integer fits in `i128`.
pub open spec fn in_i128(x: int) -> bool {
    i128::MIN <= x <= i128::MAX
}

/// `amount` times `pct` percent (both fixed point).
pub open spec fn pct_of(amount: int, pct: int) -> int {
    div_trunc(amount * pct, PCT_DEN as int)
}

/// `amount` times the fixed-point fraction `frac` (`SCALE` is 1.0).
pub open spec fn frac_of(amount: int, frac: int) -> int {
    div_trunc(amount * frac, SCALE as int)
}

/// `amount` times `(1 - cut/100)`, the share that a percentage cut of
/// `cut` percent (fixed point) leaves in place.
pub open spec fn retained_after_cut(amount: int, cut: int) -> int {
    div_trunc(amount * (PCT_DEN - cut), PCT_DEN as int)
}

/// A cut of zero percent leaves the whole amount in place, exactly.
pub proof fn lemma_retained_after_cut_zero(amount: int)
    ensures
        retained_after_cut(amount, 0) == amount,
{
    lemma_div_multiples_vanish(amount, PCT_DEN as int);
    lemma_div_multiples_vanish(-amount, PCT_DEN as int);
}

/// Truncating division never grows a value's magnitude, so the quotient
/// of an `i128` value stays in range.
pub proof fn lemma_div_trunc_in_i128(x: int, d: int)
    requires
        1 <= d,
        in_i128(x),
    ensures
        in_i128(div_trunc(x, d)),
{
    if x >= 0 {
        lemma_div_pos_is_pos(x, d);
        lemma_div_nonincreasing(x, d);
    } else {
        lemma_div_pos_is_pos(-x, d);
        lemma_div_nonincreasing(-x, d);
    }
}

/// Truncating division toward zero by a positive divisor; total because
/// the quotient's magnitude never exceeds the dividend's.
pub fn div_fixed(x: i128, d: i128) -> (r: i128)
    requires
        1 <= d,
    ensures
        r as int == div_trunc(x as int, d as int),
{
    proof {
        lemma_div_trunc_in_i128(x as int, d as int);
        lemma_div_of0(d as int);
    }
    x.checked_div(d).unwrap()
}

/// `amount` times `pct` percent; `None` exactly when the product
/// `amount * pct` leaves the `i128` range.
pub fn pct_mul(amount: i128, pct: i128) -> (r: Option<i128>)
    ensures
        (r is Some) == in_i128(amount as int * pct as int),
        r matches Some(v) ==> v as int == pct_of(amount as int, pct as int),
{
    match amount.checked_mul(pct) {
        Some(p) => Some(div_fixed(p, PCT_DEN)),
        None => None,
    }
}

/// `amount` times the fixed-point fraction `frac`; `None` exactly when
/// the product `amount * frac` leaves the `i128` range.
pub fn frac_mul(amount: i128, frac: i128) -> (r: Option<i128>)
    ensures
        (r is Some) == in_i128(amount as int * frac as int),
        r matches Some(v) ==> v as int == frac_of(amount as int, frac as int),
{
    match amount.checked_mul(frac) {
        Some(p) => Some(div_fixed(p, SCALE)),
        None => None,
    }
}

/// `amount` times `(1 - cut/100)`; `None` exactly when the product
/// `amount * (PCT_DEN - cut)` leaves the `i128` range.
pub fn retain_mul(amount: i128, cut: i128) -> (r: Option<i128>)
    requires
        0 <= cut <= PCT_DEN,
    ensures
        (r is Some) == in_i128(amount as int * (PCT_DEN - cut) as int),
        r matches Some(v) ==> v as int == retained_after_cut(amount as int, cut as int),
{
    match amount.checked_mul(PCT_DEN - cut) {
        Some(p) => Some(div_fixed(p, PCT_DEN)),
        None => None,
    }
}

} // verus!
