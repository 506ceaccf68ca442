//! The two fiscal rules: the yearly accrual tax ("Vorabpauschale") and
//! the realization tax due if the position were sold at year end.
//!
//! Both are pure functions of the year's figures and the configuration.
//! For the `Retaining` profit variant both return 0: correctly taxing a
//! retaining fund would have to consider all prior lump-sum floors, which
//! the rules deliberately leave open.

use vstd::prelude::*;

verus! {

use vstd::math::{max, min};
use crate::config::{Configuration, ProfitDistribution};
use crate::fixed::{PCT_DEN, pct_of, retained_after_cut, in_i128, pct_mul, retain_mul};

/// The deemed taxable base of the accrual tax: the distributed profit
/// when it beats the statutory floor, else the actual growth capped by
/// the floor.
pub open spec fn spec_deemed_base(profit: int, growth: int, lump_sum_floor: int) -> int {
    if profit > lump_sum_floor {
        profit
    } else {
        min(growth, lump_sum_floor)
    }
}

/// The accrual tax on a distributing fund:
/// `max(0, taxable * (1 - cut/100) - allowance) * rate / 100`, where
/// `taxable` is the non-negative part of the deemed base plus the
/// distributed profit. A retaining fund owes no accrual tax here.
pub open spec fn spec_accrual_tax(
    profit: int,
    growth: int,
    lump_sum_floor: int,
    cfg: Configuration,
) -> int {
    match cfg.profit_distribution {
        ProfitDistribution::Distributing => {
            let taxable = max(spec_deemed_base(profit, growth, lump_sum_floor), 0) + profit;
            let after_exemption = retained_after_cut(taxable, cfg.exemption_cut as int);
            pct_of(max(after_exemption - cfg.tax_allowance, 0), cfg.tax_rate as int)
        },
        ProfitDistribution::Retaining => 0,
    }
}

/// Whether every intermediate of the accrual-tax computation stays
/// within `i128`.
pub open spec fn accrual_tax_fits(
    profit: int,
    growth: int,
    lump_sum_floor: int,
    cfg: Configuration,
) -> bool {
    match cfg.profit_distribution {
        ProfitDistribution::Distributing => {
            let taxable = max(spec_deemed_base(profit, growth, lump_sum_floor), 0) + profit;
            let after_exemption = retained_after_cut(taxable, cfg.exemption_cut as int);
            let reduced = after_exemption - cfg.tax_allowance;
            &&& in_i128(taxable)
            &&& in_i128(taxable * (PCT_DEN - cfg.exemption_cut))
            &&& in_i128(reduced)
            &&& in_i128(max(reduced, 0) * cfg.tax_rate)
        },
        ProfitDistribution::Retaining => true,
    }
}

/// This year's accrual-tax liability from the year's distributed profit,
/// market growth and lump-sum floor. `None` exactly when an intermediate
/// leaves the `i128` range.
pub fn accrual_tax(
    profit: i128,
    growth: i128,
    lump_sum_floor: i128,
    cfg: &Configuration,
) -> (r: Option<i128>)
    requires
        cfg.valid(),
    ensures
        (r is Some) == accrual_tax_fits(profit as int, growth as int, lump_sum_floor as int, *cfg),
        r matches Some(v) ==> v as int == spec_accrual_tax(
            profit as int,
            growth as int,
            lump_sum_floor as int,
            *cfg,
        ),
{
    match cfg.profit_distribution {
        ProfitDistribution::Distributing => {
            let deemed_base: i128 = if profit > lump_sum_floor {
                profit
            } else if growth <= lump_sum_floor {
                growth
            } else {
                lump_sum_floor
            };
            let base_part: i128 = if deemed_base >= 0 {
                deemed_base
            } else {
                0
            };
            let taxable: i128 = base_part.checked_add(profit)?;
            let after_exemption: i128 = retain_mul(taxable, cfg.exemption_cut)?;
            let reduced: i128 = after_exemption.checked_sub(cfg.tax_allowance)?;
            let positive: i128 = if reduced >= 0 {
                reduced
            } else {
                0
            };
            pct_mul(positive, cfg.tax_rate)
        },
        ProfitDistribution::Retaining => Some(0),
    }
}

/// The realization tax on a distributing fund: the unrealized total gain
/// since inception, shielded by the exemption cut and by what the yearly
/// allowance still leaves after the profit already taxed via accrual,
/// times the tax rate. A retaining fund owes no realization tax here.
pub open spec fn spec_realization_tax(
    profit: int,
    closing_balance: int,
    cumulative_contributions: int,
    cfg: Configuration,
) -> int {
    match cfg.profit_distribution {
        ProfitDistribution::Distributing => {
            let already_taxed = retained_after_cut(profit, cfg.exemption_cut as int);
            let shielded_gain = retained_after_cut(
                closing_balance - cumulative_contributions,
                cfg.exemption_cut as int,
            );
            let taxable_gain = max(shielded_gain - max(cfg.tax_allowance - already_taxed, 0), 0);
            pct_of(taxable_gain, cfg.tax_rate as int)
        },
        ProfitDistribution::Retaining => 0,
    }
}

/// Whether every intermediate of the realization-tax computation stays
/// within `i128`.
pub open spec fn realization_tax_fits(
    profit: int,
    closing_balance: int,
    cumulative_contributions: int,
    cfg: Configuration,
) -> bool {
    match cfg.profit_distribution {
        ProfitDistribution::Distributing => {
            let already_taxed = retained_after_cut(profit, cfg.exemption_cut as int);
            let gain = closing_balance - cumulative_contributions;
            let shielded_gain = retained_after_cut(gain, cfg.exemption_cut as int);
            let remaining_allowance = max(cfg.tax_allowance - already_taxed, 0);
            let taxable_gain = max(shielded_gain - remaining_allowance, 0);
            &&& in_i128(profit * (PCT_DEN - cfg.exemption_cut))
            &&& in_i128(cfg.tax_allowance - already_taxed)
            &&& in_i128(gain)
            &&& in_i128(gain * (PCT_DEN - cfg.exemption_cut))
            &&& in_i128(shielded_gain - remaining_allowance)
            &&& in_i128(taxable_gain * cfg.tax_rate)
        },
        ProfitDistribution::Retaining => true,
    }
}

/// The tax due if the position were sold this year, from the year's
/// distributed profit, closing balance and cumulative contributions.
/// `None` exactly when an intermediate leaves the `i128` range.
pub fn realization_tax(
    profit: i128,
    closing_balance: i128,
    cumulative_contributions: i128,
    cfg: &Configuration,
) -> (r: Option<i128>)
    requires
        cfg.valid(),
    ensures
        (r is Some) == realization_tax_fits(
            profit as int,
            closing_balance as int,
            cumulative_contributions as int,
            *cfg,
        ),
        r matches Some(v) ==> v as int == spec_realization_tax(
            profit as int,
            closing_balance as int,
            cumulative_contributions as int,
            *cfg,
        ),
{
    match cfg.profit_distribution {
        ProfitDistribution::Distributing => {
            let already_taxed: i128 = retain_mul(profit, cfg.exemption_cut)?;
            let allowance_left: i128 = cfg.tax_allowance.checked_sub(already_taxed)?;
            let remaining_allowance: i128 = if allowance_left >= 0 {
                allowance_left
            } else {
                0
            };
            let gain: i128 = closing_balance.checked_sub(cumulative_contributions)?;
            let shielded_gain: i128 = retain_mul(gain, cfg.exemption_cut)?;
            let reduced: i128 = shielded_gain.checked_sub(remaining_allowance)?;
            let taxable_gain: i128 = if reduced >= 0 {
                reduced
            } else {
                0
            };
            pct_mul(taxable_gain, cfg.tax_rate)
        },
        ProfitDistribution::Retaining => Some(0),
    }
}

} // verus!
