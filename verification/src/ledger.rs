//! The per-year record of all computed quantities: the propagation
//! engine's working state and its output artifact.

use vstd::prelude::*;

verus! {

/// One simulated year's ledger of cash flows and balances. Monetary
/// fields are fixed-point euro amounts (see `fixed`). A ledger is
/// computed once, in strict year order, and never mutated afterward.
#[derive(Copy, Clone, Debug, PartialEq, Eq, Structural)]
pub struct AnnualLedger {
    /// 0-based year index; year 0 is the initial deposit.
    pub year: u32,
    /// Fund value carried from the prior year's closing balance.
    pub opening_balance: i128,
    /// This year's cash input.
    pub contribution: i128,
    /// Cost deducted from the contribution before it enters the fund.
    pub transaction_cost: i128,
    /// Raw value change from the market return.
    pub market_growth: i128,
    /// Fee deducted after growth and profit are added.
    pub management_fee: i128,
    /// Portion of growth paid out as cash (zero when retaining).
    pub distributed_profit: i128,
    /// Statutory minimum taxable base ("Basiszins" floor).
    pub lump_sum_floor: i128,
    /// This year's accrual-tax ("Vorabpauschale") liability.
    pub accrual_tax: i128,
    /// Running sum of `accrual_tax` across all years.
    pub cumulative_accrual_tax: i128,
    /// Running sum of `distributed_profit`.
    pub cumulative_profit: i128,
    /// Fund value at year end before sale.
    pub closing_balance: i128,
    /// Tax due if the position were sold this year.
    pub realization_tax: i128,
    /// `closing_balance - realization_tax`.
    pub after_sale_balance: i128,
    /// Running sum of contributions.
    pub cumulative_contributions: i128,
    /// After-tax profit relative to the total contributed capital.
    pub net_gain_after_tax: i128,
}

/// The mathematical view of an `AnnualLedger`: the same quantities as
/// unbounded integers, the domain of every specification function.
pub ghost struct LedgerModel {
    pub year: int,
    pub opening_balance: int,
    pub contribution: int,
    pub transaction_cost: int,
    pub market_growth: int,
    pub management_fee: int,
    pub distributed_profit: int,
    pub lump_sum_floor: int,
    pub accrual_tax: int,
    pub cumulative_accrual_tax: int,
    pub cumulative_profit: int,
    pub closing_balance: int,
    pub realization_tax: int,
    pub after_sale_balance: int,
    pub cumulative_contributions: int,
    pub net_gain_after_tax: int,
}

impl View for AnnualLedger {
    type V = LedgerModel;

    open spec fn view(&self) -> LedgerModel {
        LedgerModel {
            year: self.year as int,
            opening_balance: self.opening_balance as int,
            contribution: self.contribution as int,
            transaction_cost: self.transaction_cost as int,
            market_growth: self.market_growth as int,
            management_fee: self.management_fee as int,
            distributed_profit: self.distributed_profit as int,
            lump_sum_floor: self.lump_sum_floor as int,
            accrual_tax: self.accrual_tax as int,
            cumulative_accrual_tax: self.cumulative_accrual_tax as int,
            cumulative_profit: self.cumulative_profit as int,
            closing_balance: self.closing_balance as int,
            realization_tax: self.realization_tax as int,
            after_sale_balance: self.after_sale_balance as int,
            cumulative_contributions: self.cumulative_contributions as int,
            net_gain_after_tax: self.net_gain_after_tax as int,
        }
    }
}

} // verus!
