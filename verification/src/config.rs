//! Immutable scenario parameters: contribution schedule, cost structure,
//! tax rates and runtime length.

use vstd::prelude::*;

verus! {

use crate::adjust::ValueAdjustment;
use crate::fixed::SCALE;

/// Whether yearly profit is paid out as cash (`Distributing`) or
/// reinvested into the fund (`Retaining`).
#[derive(Copy, Clone, Debug, PartialEq, Eq, Structural)]
pub enum ProfitDistribution {
    Distributing,
    Retaining,
}

/// Scenario parameters, constructed once and never changed during a run.
/// Monetary fields are fixed-point euro amounts; rate fields are
/// fixed-point percentages (see `fixed`).
#[derive(Copy, Clone, Debug, PartialEq, Eq, Structural)]
pub struct Configuration {
    /// Initial deposit (EUR).
    pub entry_funds: i128,
    /// Contribution of the first simulated year (EUR).
    pub annual_contribution_base: i128,
    /// Applied each year to the prior year's contribution.
    pub contribution_growth: ValueAdjustment,
    /// Applied to the intermediate fund value each year.
    pub market_return: ValueAdjustment,
    /// Governs whether yearly profit leaves the fund or is reinvested.
    pub profit_distribution: ProfitDistribution,
    /// Produces the nominal yearly profit subject to `profit_distribution`.
    pub annual_profit_rate: ValueAdjustment,
    /// Number of simulated years, at least 1.
    pub duration_years: u32,
    /// Applied to each contribution (gross model).
    pub transaction_cost: ValueAdjustment,
    /// Percentage applied to the post-growth fund value each year.
    pub management_fee_rate: i128,
    /// Yearly custody cost; kept general though currently unused by the
    /// propagation rules.
    pub custody_fee: ValueAdjustment,
    /// Capital-gains tax rate (percent).
    pub tax_rate: i128,
    /// One-time yearly tax allowance (EUR).
    pub tax_allowance: i128,
    /// Percentage of gains shielded from tax, between 0 and 100.
    pub exemption_cut: i128,
    /// Statutory base interest rate (percent) for the lump-sum floor.
    pub base_interest_rate: i128,
}

impl Configuration {
    /// A well-formed scenario: at least one simulated year (and one the
    /// year counter can hold), and an exemption cut between 0 and 100
    /// percent.
    pub open spec fn valid(self) -> bool {
        &&& 1 <= self.duration_years < u32::MAX
        &&& 0 <= self.exemption_cut <= 100 * SCALE
    }

    /// Runtime check of `valid`, for callers that assemble a
    /// configuration from unchecked input.
    pub fn is_valid(&self) -> (b: bool)
        ensures
            b == self.valid(),
    {
        1 <= self.duration_years && self.duration_years < u32::MAX && 0 <= self.exemption_cut
            && self.exemption_cut <= 100 * SCALE
    }
}

/// The default scenario: a 21-year distributing fund with growing yearly
/// contributions under the standard German tax parameters.
pub open spec fn spec_default_configuration() -> Configuration {
    Configuration {
        entry_funds: 5_000_000_000,
        annual_contribution_base: 1_000_000_000,
        contribution_growth: ValueAdjustment::Percent(15_000_000),
        market_return: ValueAdjustment::Percent(3_000_000),
        profit_distribution: ProfitDistribution::Distributing,
        annual_profit_rate: ValueAdjustment::Percent(1_380_000),
        duration_years: 21,
        transaction_cost: ValueAdjustment::Percent(1_500_000),
        management_fee_rate: 220_000,
        custody_fee: ValueAdjustment::Absolute(0),
        tax_rate: 26_375_000,
        tax_allowance: 750_000_000,
        exemption_cut: 30_000_000,
        base_interest_rate: 3_400_000,
    }
}

impl Default for Configuration {
    /// The default scenario; it is valid.
    fn default() -> (c: Configuration)
        ensures
            c == spec_default_configuration(),
            c.valid(),
    {
        Configuration {
            entry_funds: 5_000_000_000,
            annual_contribution_base: 1_000_000_000,
            contribution_growth: ValueAdjustment::Percent(15_000_000),
            market_return: ValueAdjustment::Percent(3_000_000),
            profit_distribution: ProfitDistribution::Distributing,
            annual_profit_rate: ValueAdjustment::Percent(1_380_000),
            duration_years: 21,
            transaction_cost: ValueAdjustment::Percent(1_500_000),
            management_fee_rate: 220_000,
            custody_fee: ValueAdjustment::Absolute(0),
            tax_rate: 26_375_000,
            tax_allowance: 750_000_000,
            exemption_cut: 30_000_000,
            base_interest_rate: 3_400_000,
        }
    }
}

} // verus!
