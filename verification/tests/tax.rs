use fondscalc::adjust::ValueAdjustment;
use fondscalc::config::{Configuration, ProfitDistribution};
use fondscalc::tax::{accrual_tax, realization_tax};

/// One euro in fixed point.
const EUR: i128 = 1_000_000;

/// A distributing configuration with the given tax parameters and
/// everything else neutral.
fn tax_config(tax_rate: i128, tax_allowance: i128, exemption_cut: i128) -> Configuration {
    Configuration {
        entry_funds: 0,
        annual_contribution_base: 0,
        contribution_growth: ValueAdjustment::Percent(0),
        market_return: ValueAdjustment::Percent(0),
        profit_distribution: ProfitDistribution::Distributing,
        annual_profit_rate: ValueAdjustment::Percent(0),
        duration_years: 1,
        transaction_cost: ValueAdjustment::Percent(0),
        management_fee_rate: 0,
        custody_fee: ValueAdjustment::Absolute(0),
        tax_rate,
        tax_allowance,
        exemption_cut,
        base_interest_rate: 0,
    }
}

#[test]
fn accrual_tax_zero_cut_zero_allowance() {
    // base is min(growth, floor) because the profit does not beat the
    // floor; with no cut and no allowance the tax is
    // (base + profit) * rate / 100
    let cfg = tax_config(26_375_000, 0, 0);
    let profit = 2 * EUR;
    let growth = 10 * EUR;
    let floor = 5 * EUR;
    // (5 + 2) EUR * 26.375 % = 1.846250 EUR
    assert_eq!(accrual_tax(profit, growth, floor, &cfg), Some(1_846_250));
}

#[test]
fn accrual_tax_profit_beats_floor() {
    // profit above the floor is itself the deemed base
    let cfg = tax_config(26_375_000, 750 * EUR, 30 * EUR);
    let profit = 1000 * EUR;
    let growth = 500 * EUR;
    let floor = 500 * EUR;
    // taxable (1000 + 1000) EUR, cut 30 % -> 1400 EUR, allowance 750
    // -> 650 EUR, rate 26.375 % -> 171.4375 EUR
    assert_eq!(accrual_tax(profit, growth, floor, &cfg), Some(171_437_500));
}

#[test]
fn accrual_tax_negative_base_is_clamped() {
    // negative growth under the floor: the deemed base is clamped to
    // zero, only the profit is taxed
    let cfg = tax_config(25 * EUR, 0, 0);
    let profit = 4 * EUR;
    let growth = -10 * EUR;
    let floor = 5 * EUR;
    assert_eq!(accrual_tax(profit, growth, floor, &cfg), Some(1 * EUR));
}

#[test]
fn accrual_tax_allowance_covers_everything() {
    let cfg = tax_config(26_375_000, 750 * EUR, 0);
    // taxable 2 * 100 EUR stays below the 750 EUR allowance
    assert_eq!(accrual_tax(100 * EUR, 100 * EUR, 200 * EUR, &cfg), Some(0));
}

#[test]
fn accrual_tax_retaining_is_zero() {
    let mut cfg = tax_config(26_375_000, 0, 0);
    cfg.profit_distribution = ProfitDistribution::Retaining;
    assert_eq!(accrual_tax(1000 * EUR, 1000 * EUR, 1000 * EUR, &cfg), Some(0));
}

#[test]
fn accrual_tax_overflow_returns_none() {
    let cfg = tax_config(26_375_000, 0, 0);
    assert_eq!(accrual_tax(i128::MAX, 0, 0, &cfg), None);
}

#[test]
fn realization_tax_simple_gain() {
    let cfg = tax_config(25 * EUR, 0, 0);
    // gain 2000 EUR, no shields: 25 % -> 500 EUR
    assert_eq!(realization_tax(0, 10_000 * EUR, 8_000 * EUR, &cfg), Some(500 * EUR));
}

#[test]
fn realization_tax_allowance_reduced_by_accrued_profit() {
    let cfg = tax_config(25 * EUR, 1000 * EUR, 0);
    // 600 EUR of profit were already taxed via accrual, so only
    // 400 EUR of the allowance remain: (2000 - 400) * 25 % = 400 EUR
    assert_eq!(realization_tax(600 * EUR, 10_000 * EUR, 8_000 * EUR, &cfg), Some(400 * EUR));
}

#[test]
fn realization_tax_exemption_cut_shields_gain() {
    let cfg = tax_config(25 * EUR, 0, 30 * EUR);
    // gain 2000 EUR, 30 % shielded -> 1400 EUR, 25 % -> 350 EUR
    assert_eq!(realization_tax(0, 10_000 * EUR, 8_000 * EUR, &cfg), Some(350 * EUR));
}

#[test]
fn realization_tax_loss_owes_nothing() {
    let cfg = tax_config(25 * EUR, 0, 0);
    assert_eq!(realization_tax(0, 7_000 * EUR, 8_000 * EUR, &cfg), Some(0));
}

#[test]
fn realization_tax_retaining_is_zero() {
    let mut cfg = tax_config(25 * EUR, 0, 0);
    cfg.profit_distribution = ProfitDistribution::Retaining;
    assert_eq!(realization_tax(0, 10_000 * EUR, 8_000 * EUR, &cfg), Some(0));
}

#[test]
fn realization_tax_overflow_returns_none() {
    let cfg = tax_config(25 * EUR, 0, 0);
    assert_eq!(realization_tax(0, i128::MAX, -1, &cfg), None);
}
