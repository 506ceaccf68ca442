//! The simulation engine: year-0 seeding, the year-over-year transition,
//! and the driver that produces the full sequence of yearly ledgers.
//!
//! Each year's ledger is a pure function of the prior year's ledger and
//! the configuration; the driver merely folds that function over the
//! requested number of years.

use vstd::prelude::*;

verus! {

use vstd::math::max;
use crate::adjust::{spec_evaluate, evaluate_fits};
use crate::config::{Configuration, ProfitDistribution};
use crate::fixed::{pct_of, frac_of, in_i128, pct_mul, frac_mul};
use crate::ledger::{AnnualLedger, LedgerModel};
use crate::tax::{
    spec_accrual_tax, accrual_tax_fits, accrual_tax, spec_realization_tax, realization_tax_fits,
    realization_tax,
};

/// The statutory 70 % retention factor of the lump-sum floor, in fixed
/// point.
pub const LUMP_SUM_FACTOR: i128 = 700_000;

/// The ledger of year 0: the act of making the initial deposit, net of
/// the entry transaction cost, with no growth yet applied.
pub open spec fn spec_year_zero(cfg: Configuration) -> LedgerModel {
    let contribution = cfg.entry_funds as int;
    let transaction_cost = spec_evaluate(cfg.transaction_cost, contribution);
    let closing_balance = contribution - transaction_cost;
    LedgerModel {
        year: 0,
        opening_balance: 0,
        contribution: contribution,
        transaction_cost: transaction_cost,
        market_growth: 0,
        management_fee: 0,
        distributed_profit: 0,
        lump_sum_floor: 0,
        accrual_tax: 0,
        cumulative_accrual_tax: 0,
        cumulative_profit: 0,
        closing_balance: closing_balance,
        realization_tax: 0,
        after_sale_balance: closing_balance,
        cumulative_contributions: contribution,
        net_gain_after_tax: closing_balance - contribution,
    }
}

/// Whether every intermediate of the year-0 seeding stays within `i128`.
pub open spec fn year_zero_fits(cfg: Configuration) -> bool {
    let contribution = cfg.entry_funds as int;
    let transaction_cost = spec_evaluate(cfg.transaction_cost, contribution);
    let closing_balance = contribution - transaction_cost;
    &&& evaluate_fits(cfg.transaction_cost, contribution)
    &&& in_i128(closing_balance)
    &&& in_i128(closing_balance - contribution)
}

/// The ledger of year `prior.year + 1` from the finalized prior ledger:
/// the fixed order of operations that threads the year's cash flows,
/// growth, fees and taxes through the fund.
pub open spec fn spec_transition(prior: LedgerModel, cfg: Configuration) -> LedgerModel {
    let contribution = if prior.year == 0 {
        cfg.annual_contribution_base as int
    } else {
        prior.contribution + spec_evaluate(cfg.contribution_growth, prior.contribution)
    };
    let cumulative_contributions = prior.cumulative_contributions + contribution;
    let opening_balance = prior.closing_balance;
    let transaction_cost = spec_evaluate(cfg.transaction_cost, contribution);
    let intermediate1 = opening_balance + contribution - transaction_cost;
    let nominal_profit = spec_evaluate(cfg.annual_profit_rate, intermediate1);
    let raw_growth = spec_evaluate(cfg.market_return, intermediate1);
    let distributed_profit = match cfg.profit_distribution {
        ProfitDistribution::Distributing => nominal_profit,
        ProfitDistribution::Retaining => 0,
    };
    // When retaining, the profit is zeroed first and the zeroed value is
    // reinvested into growth: a no-op, kept exactly as the rules state it.
    let market_growth = match cfg.profit_distribution {
        ProfitDistribution::Distributing => raw_growth,
        ProfitDistribution::Retaining => raw_growth + distributed_profit,
    };
    let intermediate2 = intermediate1 + distributed_profit + market_growth;
    let management_fee = pct_of(intermediate2, cfg.management_fee_rate as int);
    let intermediate3 = intermediate2 - management_fee;
    let lump_sum_floor = max(
        frac_of(pct_of(intermediate1, cfg.base_interest_rate as int), LUMP_SUM_FACTOR as int),
        0,
    );
    let accrual_tax = spec_accrual_tax(distributed_profit, market_growth, lump_sum_floor, cfg);
    let cumulative_accrual_tax = prior.cumulative_accrual_tax + accrual_tax;
    let cumulative_profit = prior.cumulative_profit + distributed_profit;
    let closing_balance = intermediate3 - distributed_profit;
    let realization_tax = spec_realization_tax(
        distributed_profit,
        closing_balance,
        cumulative_contributions,
        cfg,
    );
    let after_sale_balance = closing_balance - realization_tax;
    // Net worth if liquidated today, excluding this year's not-yet-due
    // accrual tax from the deduction.
    let net_gain_after_tax = after_sale_balance - cumulative_contributions + cumulative_profit
        - (cumulative_accrual_tax - accrual_tax);
    LedgerModel {
        year: prior.year + 1,
        opening_balance: opening_balance,
        contribution: contribution,
        transaction_cost: transaction_cost,
        market_growth: market_growth,
        management_fee: management_fee,
        distributed_profit: distributed_profit,
        lump_sum_floor: lump_sum_floor,
        accrual_tax: accrual_tax,
        cumulative_accrual_tax: cumulative_accrual_tax,
        cumulative_profit: cumulative_profit,
        closing_balance: closing_balance,
        realization_tax: realization_tax,
        after_sale_balance: after_sale_balance,
        cumulative_contributions: cumulative_contributions,
        net_gain_after_tax: net_gain_after_tax,
    }
}

/// Whether every intermediate of the yearly transition stays within
/// `i128` (and the year counter can still be advanced).
pub open spec fn transition_fits(prior: LedgerModel, cfg: Configuration) -> bool {
    let contribution = if prior.year == 0 {
        cfg.annual_contribution_base as int
    } else {
        prior.contribution + spec_evaluate(cfg.contribution_growth, prior.contribution)
    };
    let cumulative_contributions = prior.cumulative_contributions + contribution;
    let opening_balance = prior.closing_balance;
    let transaction_cost = spec_evaluate(cfg.transaction_cost, contribution);
    let intermediate1 = opening_balance + contribution - transaction_cost;
    let nominal_profit = spec_evaluate(cfg.annual_profit_rate, intermediate1);
    let raw_growth = spec_evaluate(cfg.market_return, intermediate1);
    let distributed_profit = match cfg.profit_distribution {
        ProfitDistribution::Distributing => nominal_profit,
        ProfitDistribution::Retaining => 0,
    };
    let market_growth = match cfg.profit_distribution {
        ProfitDistribution::Distributing => raw_growth,
        ProfitDistribution::Retaining => raw_growth + distributed_profit,
    };
    let intermediate2 = intermediate1 + distributed_profit + market_growth;
    let management_fee = pct_of(intermediate2, cfg.management_fee_rate as int);
    let intermediate3 = intermediate2 - management_fee;
    let floor_base = pct_of(intermediate1, cfg.base_interest_rate as int);
    let lump_sum_floor = max(frac_of(floor_base, LUMP_SUM_FACTOR as int), 0);
    let accrual_tax = spec_accrual_tax(distributed_profit, market_growth, lump_sum_floor, cfg);
    let cumulative_accrual_tax = prior.cumulative_accrual_tax + accrual_tax;
    let cumulative_profit = prior.cumulative_profit + distributed_profit;
    let closing_balance = intermediate3 - distributed_profit;
    let realization_tax = spec_realization_tax(
        distributed_profit,
        closing_balance,
        cumulative_contributions,
        cfg,
    );
    let after_sale_balance = closing_balance - realization_tax;
    &&& (prior.year != 0 ==> evaluate_fits(cfg.contribution_growth, prior.contribution))
    &&& in_i128(contribution)
    &&& in_i128(cumulative_contributions)
    &&& evaluate_fits(cfg.transaction_cost, contribution)
    &&& in_i128(opening_balance + contribution)
    &&& in_i128(intermediate1)
    &&& evaluate_fits(cfg.annual_profit_rate, intermediate1)
    &&& evaluate_fits(cfg.market_return, intermediate1)
    &&& in_i128(intermediate1 + distributed_profit)
    &&& in_i128(intermediate2)
    &&& in_i128(intermediate2 * cfg.management_fee_rate)
    &&& in_i128(intermediate3)
    &&& in_i128(intermediate1 * cfg.base_interest_rate)
    &&& in_i128(floor_base * LUMP_SUM_FACTOR)
    &&& accrual_tax_fits(distributed_profit, market_growth, lump_sum_floor, cfg)
    &&& in_i128(cumulative_accrual_tax)
    &&& in_i128(cumulative_profit)
    &&& in_i128(closing_balance)
    &&& realization_tax_fits(distributed_profit, closing_balance, cumulative_contributions, cfg)
    &&& in_i128(after_sale_balance)
    &&& in_i128(after_sale_balance - cumulative_contributions)
    &&& in_i128(after_sale_balance - cumulative_contributions + cumulative_profit)
    &&& in_i128(
        after_sale_balance - cumulative_contributions + cumulative_profit - (cumulative_accrual_tax
            - accrual_tax),
    )
    &&& prior.year + 1 <= u32::MAX
}

/// The ledger of year `y` (0-based) under `cfg`: year 0 is the seed,
/// every later year the transition applied to the year before.
pub open spec fn spec_ledger_at(cfg: Configuration, y: int) -> LedgerModel
    decreases y,
{
    if y <= 0 {
        spec_year_zero(cfg)
    } else {
        spec_transition(spec_ledger_at(cfg, y - 1), cfg)
    }
}

/// Whether the seed and every transition up to year `y` stay within
/// `i128`.
pub open spec fn sim_fits_to(cfg: Configuration, y: int) -> bool
    decreases y,
{
    if y <= 0 {
        year_zero_fits(cfg)
    } else {
        sim_fits_to(cfg, y - 1) && transition_fits(spec_ledger_at(cfg, y - 1), cfg)
    }
}

/// The ledger of year `y` records `y` as its year index.
pub proof fn lemma_ledger_year(cfg: Configuration, y: int)
    requires
        0 <= y,
    ensures
        spec_ledger_at(cfg, y).year == y,
    decreases y,
{
    if y > 0 {
        lemma_ledger_year(cfg, y - 1);
    }
}

/// Once an intermediate leaves the range at some year, it has left it
/// for every longer run.
pub proof fn lemma_sim_fits_monotone(cfg: Configuration, a: int, b: int)
    requires
        0 <= a <= b,
        !sim_fits_to(cfg, a),
    ensures
        !sim_fits_to(cfg, b),
    decreases b,
{
    if b > a {
        lemma_sim_fits_monotone(cfg, a, b - 1);
    }
}

/// Produce the ledger of year 0 from the configuration. `None` exactly
/// when an intermediate leaves the `i128` range.
pub fn year_zero(cfg: &Configuration) -> (r: Option<AnnualLedger>)
    requires
        cfg.valid(),
    ensures
        (r is Some) == year_zero_fits(*cfg),
        r matches Some(l) ==> l@ == spec_year_zero(*cfg),
{
    let contribution: i128 = cfg.entry_funds;
    let transaction_cost: i128 = cfg.transaction_cost.evaluate(contribution)?;
    let closing_balance: i128 = contribution.checked_sub(transaction_cost)?;
    let net_gain_after_tax: i128 = closing_balance.checked_sub(contribution)?;
    Some(
        AnnualLedger {
            year: 0,
            opening_balance: 0,
            contribution: contribution,
            transaction_cost: transaction_cost,
            market_growth: 0,
            management_fee: 0,
            distributed_profit: 0,
            lump_sum_floor: 0,
            accrual_tax: 0,
            cumulative_accrual_tax: 0,
            cumulative_profit: 0,
            closing_balance: closing_balance,
            realization_tax: 0,
            after_sale_balance: closing_balance,
            cumulative_contributions: contribution,
            net_gain_after_tax: net_gain_after_tax,
        },
    )
}

/// Produce the next year's ledger from the finalized prior ledger.
/// `None` exactly when an intermediate leaves the `i128` range.
pub fn transition(prior: &AnnualLedger, cfg: &Configuration) -> (r: Option<AnnualLedger>)
    requires
        cfg.valid(),
    ensures
        (r is Some) == transition_fits(prior@, *cfg),
        r matches Some(l) ==> l@ == spec_transition(prior@, *cfg),
{
    let contribution: i128 = if prior.year == 0 {
        cfg.annual_contribution_base
    } else {
        let grown: i128 = cfg.contribution_growth.evaluate(prior.contribution)?;
        prior.contribution.checked_add(grown)?
    };
    let cumulative_contributions: i128 = prior.cumulative_contributions.checked_add(contribution)?;
    let opening_balance: i128 = prior.closing_balance;
    let transaction_cost: i128 = cfg.transaction_cost.evaluate(contribution)?;
    let invested: i128 = opening_balance.checked_add(contribution)?;
    let intermediate1: i128 = invested.checked_sub(transaction_cost)?;
    let nominal_profit: i128 = cfg.annual_profit_rate.evaluate(intermediate1)?;
    let raw_growth: i128 = cfg.market_return.evaluate(intermediate1)?;
    let (distributed_profit, market_growth): (i128, i128) = match cfg.profit_distribution {
        ProfitDistribution::Distributing => (nominal_profit, raw_growth),
        ProfitDistribution::Retaining => {
            // the profit is zeroed first, so reinvesting it is a no-op,
            // kept exactly as the rules state it
            let zeroed: i128 = 0;
            (zeroed, raw_growth + zeroed)
        },
    };
    let with_profit: i128 = intermediate1.checked_add(distributed_profit)?;
    let intermediate2: i128 = with_profit.checked_add(market_growth)?;
    let management_fee: i128 = pct_mul(intermediate2, cfg.management_fee_rate)?;
    let intermediate3: i128 = intermediate2.checked_sub(management_fee)?;
    let floor_base: i128 = pct_mul(intermediate1, cfg.base_interest_rate)?;
    let floor_scaled: i128 = frac_mul(floor_base, LUMP_SUM_FACTOR)?;
    let lump_sum_floor: i128 = if floor_scaled >= 0 {
        floor_scaled
    } else {
        0
    };
    let accrual_tax_due: i128 = accrual_tax(distributed_profit, market_growth, lump_sum_floor, cfg)?;
    let cumulative_accrual_tax: i128 = prior.cumulative_accrual_tax.checked_add(accrual_tax_due)?;
    let cumulative_profit: i128 = prior.cumulative_profit.checked_add(distributed_profit)?;
    let closing_balance: i128 = intermediate3.checked_sub(distributed_profit)?;
    let realization_tax_due: i128 = realization_tax(
        distributed_profit,
        closing_balance,
        cumulative_contributions,
        cfg,
    )?;
    let after_sale_balance: i128 = closing_balance.checked_sub(realization_tax_due)?;
    let gain_over_contributions: i128 = after_sale_balance.checked_sub(cumulative_contributions)?;
    let with_cumulative_profit: i128 = gain_over_contributions.checked_add(cumulative_profit)?;
    let deferred_accrual: i128 = cumulative_accrual_tax - accrual_tax_due;
    let net_gain_after_tax: i128 = with_cumulative_profit.checked_sub(deferred_accrual)?;
    let year: u32 = prior.year.checked_add(1)?;
    Some(
        AnnualLedger {
            year: year,
            opening_balance: opening_balance,
            contribution: contribution,
            transaction_cost: transaction_cost,
            market_growth: market_growth,
            management_fee: management_fee,
            distributed_profit: distributed_profit,
            lump_sum_floor: lump_sum_floor,
            accrual_tax: accrual_tax_due,
            cumulative_accrual_tax: cumulative_accrual_tax,
            cumulative_profit: cumulative_profit,
            closing_balance: closing_balance,
            realization_tax: realization_tax_due,
            after_sale_balance: after_sale_balance,
            cumulative_contributions: cumulative_contributions,
            net_gain_after_tax: net_gain_after_tax,
        },
    )
}

/// Run the whole simulation: the ordered sequence of ledgers for years 0
/// through `cfg.duration_years` inclusive (`duration_years + 1` records).
/// `None` exactly when some year's computation leaves the `i128` range.
pub fn run(cfg: &Configuration) -> (r: Option<Vec<AnnualLedger>>)
    requires
        cfg.valid(),
    ensures
        (r is Some) == sim_fits_to(*cfg, cfg.duration_years as int),
        r matches Some(ledgers) ==> {
            &&& ledgers@.len() == cfg.duration_years + 1
            &&& forall|y: int|
                0 <= y <= cfg.duration_years ==> (#[trigger] ledgers@[y])@ == spec_ledger_at(
                    *cfg,
                    y,
                )
        },
{
    let seed: AnnualLedger = match year_zero(cfg) {
        Some(l) => l,
        None => {
            proof {
                lemma_sim_fits_monotone(*cfg, 0, cfg.duration_years as int);
            }
            return None;
        },
    };
    let mut ledgers: Vec<AnnualLedger> = Vec::new();
    ledgers.push(seed);
    let mut prior: AnnualLedger = seed;
    let mut year: u32 = 1;
    while year <= cfg.duration_years
        invariant
            cfg.valid(),
            1 <= year <= cfg.duration_years + 1,
            ledgers@.len() == year,
            prior@ == spec_ledger_at(*cfg, year - 1),
            sim_fits_to(*cfg, year - 1),
            forall|y: int|
                0 <= y < year ==> (#[trigger] ledgers@[y])@ == spec_ledger_at(*cfg, y),
        decreases cfg.duration_years + 1 - year,
    {
        let next: AnnualLedger = match transition(&prior, cfg) {
            Some(l) => l,
            None => {
                proof {
                    lemma_sim_fits_monotone(*cfg, year as int, cfg.duration_years as int);
                }
                return None;
            },
        };
        ledgers.push(next);
        prior = next;
        year = year + 1;
    }
    Some(ledgers)
}

} // verus!
