//! A change expressed either as a percentage of a base amount or as an
//! absolute amount.

use vstd::prelude::*;

verus! {

use crate::fixed::{PCT_DEN, pct_of, in_i128, pct_mul};

/// Either a percentage of a base amount or an absolute amount.
/// `Percent` holds a fixed-point percentage (`Percent(1_500_000)` is
/// 1.5 %); `Absolute` holds a fixed-point amount and ignores the base
/// by design.
#[derive(Copy, Clone, Debug, PartialEq, Eq, Structural)]
pub enum ValueAdjustment {
    Percent(i128),
    Absolute(i128),
}

/// What `ValueAdjustment::evaluate` returns: `Percent(p)` yields
/// `base * p / 100`, `Absolute(a)` yields `a` unconditionally.
pub open spec fn spec_evaluate(adj: ValueAdjustment, base: int) -> int {
    match adj {
        ValueAdjustment::Percent(p) => pct_of(base, p as int),
        ValueAdjustment::Absolute(a) => a as int,
    }
}

/// Whether evaluating `adj` on `base` stays within `i128`.
pub open spec fn evaluate_fits(adj: ValueAdjustment, base: int) -> bool {
    match adj {
        ValueAdjustment::Percent(p) => in_i128(base * p),
        ValueAdjustment::Absolute(a) => true,
    }
}

impl ValueAdjustment {
    /// `Percent(p)` yields `base * p / 100`; `Absolute(a)` yields `a`,
    /// whatever the base. `None` exactly when the percentage product
    /// leaves the `i128` range.
    pub fn evaluate(&self, base: i128) -> (r: Option<i128>)
        ensures
            (r is Some) == evaluate_fits(*self, base as int),
            r matches Some(v) ==> v as int == spec_evaluate(*self, base as int),
    {
        match self {
            ValueAdjustment::Percent(p) => pct_mul(base, *p),
            ValueAdjustment::Absolute(a) => Some(*a),
        }
    }
}

} // verus!
