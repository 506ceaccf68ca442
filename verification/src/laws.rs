//! General laws of the simulation, stated and proved over the
//! mathematical model that the executable functions are pinned to.

use vstd::prelude::*;

verus! {

use vstd::math::max;
use vstd::arithmetic::div_mod::lemma_div_pos_is_pos;
use vstd::arithmetic::mul::lemma_mul_nonnegative;
use crate::adjust::{ValueAdjustment, spec_evaluate};
use crate::config::{Configuration, ProfitDistribution};
use crate::engine::{spec_ledger_at, lemma_ledger_year};
use crate::fixed::{PCT_DEN, pct_of, lemma_retained_after_cut_zero};
use crate::ledger::LedgerModel;
use crate::tax::{spec_accrual_tax, spec_deemed_base};

/// For every year `y >= 1` the closing balance satisfies the accounting
/// identity `closing = opening + contribution - transactionCost
/// + marketGrowth + distributedProfit - managementFee
/// - distributedProfit`: the step sequence of the transition adds up,
/// with the distributed profit entering and leaving the fund in the same
/// year.
pub proof fn lemma_closing_balance_identity(cfg: Configuration, y: int)
    requires
        1 <= y,
    ensures
        ({
            let l = spec_ledger_at(cfg, y);
            l.closing_balance == l.opening_balance + l.contribution - l.transaction_cost
                + l.market_growth + l.distributed_profit - l.management_fee - l.distributed_profit
        }),
{
}

/// For every year `y >= 1` the cumulative contributions are the prior
/// year's plus the year's contribution, and year 0 starts them at the
/// entry funds.
pub proof fn lemma_cumulative_contributions_step(cfg: Configuration, y: int)
    requires
        1 <= y,
    ensures
        spec_ledger_at(cfg, y).cumulative_contributions == spec_ledger_at(
            cfg,
            y - 1,
        ).cumulative_contributions + spec_ledger_at(cfg, y).contribution,
        spec_ledger_at(cfg, 0).cumulative_contributions == cfg.entry_funds,
{
}

/// For every year `y >= 1` the cumulative accrual tax is the prior
/// year's plus the year's accrual tax, and year 0 starts it at zero.
pub proof fn lemma_cumulative_accrual_tax_step(cfg: Configuration, y: int)
    requires
        1 <= y,
    ensures
        spec_ledger_at(cfg, y).cumulative_accrual_tax == spec_ledger_at(
            cfg,
            y - 1,
        ).cumulative_accrual_tax + spec_ledger_at(cfg, y).accrual_tax,
        spec_ledger_at(cfg, 0).cumulative_accrual_tax == 0,
{
}

/// The simulation is a pure function of the configuration: any two
/// ledger sequences whose entries both equal the specified ledgers of
/// the same configuration are equal. Re-running with an identical
/// configuration therefore reproduces the sequence exactly.
pub proof fn lemma_simulation_deterministic(
    cfg: Configuration,
    a: Seq<LedgerModel>,
    b: Seq<LedgerModel>,
)
    requires
        a.len() == b.len(),
        forall|y: int| 0 <= y < a.len() ==> a[y] == spec_ledger_at(cfg, y),
        forall|y: int| 0 <= y < b.len() ==> b[y] == spec_ledger_at(cfg, y),
    ensures
        a == b,
{
    assert(a =~= b);
}

/// With no exemption cut and no allowance, the accrual tax of a
/// distributing fund reduces to `max(0, base + distributedProfit) *
/// taxRate / 100`, as long as the deemed base is not negative (a
/// negative base is clamped to zero before the profit is added, so the
/// reduced formula does not hold there).
pub proof fn lemma_accrual_tax_boundary(
    profit: int,
    growth: int,
    lump_sum_floor: int,
    cfg: Configuration,
)
    requires
        cfg.profit_distribution == ProfitDistribution::Distributing,
        cfg.exemption_cut == 0,
        cfg.tax_allowance == 0,
        spec_deemed_base(profit, growth, lump_sum_floor) >= 0,
    ensures
        spec_accrual_tax(profit, growth, lump_sum_floor, cfg) == pct_of(
            max(spec_deemed_base(profit, growth, lump_sum_floor) + profit, 0),
            cfg.tax_rate as int,
        ),
{
    let taxable = spec_deemed_base(profit, growth, lump_sum_floor) + profit;
    lemma_retained_after_cut_zero(taxable);
}

/// A contribution schedule that can never turn a contribution negative:
/// non-negative starting amounts, and a yearly growth that adds a
/// non-negative amount to a non-negative contribution.
pub open spec fn nonneg_contribution_schedule(cfg: Configuration) -> bool {
    &&& cfg.entry_funds >= 0
    &&& cfg.annual_contribution_base >= 0
    &&& match cfg.contribution_growth {
        ValueAdjustment::Percent(p) => p >= 0,
        ValueAdjustment::Absolute(a) => a >= 0,
    }
}

/// Under a non-negative schedule, evaluating the contribution growth on
/// a non-negative contribution yields a non-negative amount.
proof fn lemma_growth_evaluate_nonneg(cfg: Configuration, c: int)
    requires
        nonneg_contribution_schedule(cfg),
        c >= 0,
    ensures
        spec_evaluate(cfg.contribution_growth, c) >= 0,
{
    match cfg.contribution_growth {
        ValueAdjustment::Percent(p) => {
            lemma_mul_nonnegative(c, p as int);
            lemma_div_pos_is_pos(c * p, PCT_DEN as int);
        },
        ValueAdjustment::Absolute(a) => {},
    }
}

/// Under a non-negative schedule, every year's contribution is
/// non-negative.
pub proof fn lemma_contribution_nonneg(cfg: Configuration, y: int)
    requires
        nonneg_contribution_schedule(cfg),
        0 <= y,
    ensures
        spec_ledger_at(cfg, y).contribution >= 0,
    decreases y,
{
    if y == 0 {
    } else {
        lemma_contribution_nonneg(cfg, y - 1);
        lemma_ledger_year(cfg, y - 1);
        if y > 1 {
            lemma_growth_evaluate_nonneg(cfg, spec_ledger_at(cfg, y - 1).contribution);
        }
    }
}

/// Under a non-negative contribution schedule, the cumulative
/// contributions never decrease from one year to the next.
pub proof fn lemma_cumulative_contributions_monotone(cfg: Configuration, y: int)
    requires
        nonneg_contribution_schedule(cfg),
        1 <= y,
    ensures
        spec_ledger_at(cfg, y).cumulative_contributions >= spec_ledger_at(
            cfg,
            y - 1,
        ).cumulative_contributions,
{
    lemma_contribution_nonneg(cfg, y);
}

} // verus!
