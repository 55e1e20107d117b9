use auction_intel::scoring::{
    calculate_score, days_on_market_score, employment_score, growth_score, income_score,
    population_score, tier_for_score, volume_score, AnalysisInput, MAX_SCORE_UNITS,
    UNITS_PER_POINT,
};

fn input(
    population: u32,
    median_income: u32,
    growth_yoy_micropct: i64,
    days_on_market: u16,
    transaction_volume: u32,
    employment_rate_micropct: i64,
) -> AnalysisInput {
    AnalysisInput {
        population,
        median_income,
        growth_yoy_micropct,
        days_on_market,
        transaction_volume,
        employment_rate_micropct,
    }
}

#[test]
fn every_factor_saturated_scores_one_hundred() {
    let out = calculate_score(&input(500_000, 80_000, 5_000_000, 29, 10_000, 96_000_000));
    assert_eq!(out.score_units, 100 * UNITS_PER_POINT);
    assert_eq!(out.score_units, MAX_SCORE_UNITS);
    assert_eq!(out.tier, 1);
    assert_eq!(out.name, "Prime Investor");
    assert_eq!(out.action, "✓ PURSUE");
    assert_eq!(out.recommendation, "Exceptional liquidity and growth fundamentals.");
}

#[test]
fn nothing_contributing_scores_zero() {
    let out = calculate_score(&input(0, 0, -10_000_000, 120, 0, 50_000_000));
    assert_eq!(out.score_units, 0);
    assert_eq!(out.tier, 5);
    assert_eq!(out.name, "Capital Trap");
    assert_eq!(out.action, "✗ AVOID");
    assert_eq!(out.recommendation, "Weak fundamentals; significant risk of illiquidity.");
}

#[test]
fn tier_boundary_at_eighty_five() {
    assert_eq!(tier_for_score(85 * UNITS_PER_POINT), 1);
    // 84.999 points
    assert_eq!(tier_for_score(84_999 * UNITS_PER_POINT / 1_000), 2);
}

#[test]
fn tier_boundaries_belong_to_better_tier() {
    assert_eq!(tier_for_score(70 * UNITS_PER_POINT), 2);
    assert_eq!(tier_for_score(70 * UNITS_PER_POINT - 1), 3);
    assert_eq!(tier_for_score(50 * UNITS_PER_POINT), 3);
    assert_eq!(tier_for_score(50 * UNITS_PER_POINT - 1), 4);
    assert_eq!(tier_for_score(30 * UNITS_PER_POINT), 4);
    assert_eq!(tier_for_score(30 * UNITS_PER_POINT - 1), 5);
    assert_eq!(tier_for_score(0), 5);
    assert_eq!(tier_for_score(MAX_SCORE_UNITS), 1);
}

#[test]
fn days_on_market_sixty_gives_ten_points() {
    assert_eq!(days_on_market_score(60), 10 * UNITS_PER_POINT);
}

#[test]
fn days_on_market_piecewise() {
    assert_eq!(days_on_market_score(0), 20 * UNITS_PER_POINT);
    assert_eq!(days_on_market_score(29), 20 * UNITS_PER_POINT);
    assert_eq!(days_on_market_score(30), 20 * UNITS_PER_POINT);
    assert_eq!(days_on_market_score(90), 0);
    assert_eq!(days_on_market_score(91), 0);
    assert_eq!(days_on_market_score(u16::MAX), 0);
}

#[test]
fn factors_saturate_at_their_targets() {
    assert_eq!(population_score(250_000), 15 * UNITS_PER_POINT / 2);
    assert_eq!(population_score(u32::MAX), 15 * UNITS_PER_POINT);
    assert_eq!(income_score(40_000), 15 * UNITS_PER_POINT / 2);
    assert_eq!(income_score(200_000), 15 * UNITS_PER_POINT);
    assert_eq!(growth_score(2_500_000), 10 * UNITS_PER_POINT);
    assert_eq!(growth_score(9_000_000), 20 * UNITS_PER_POINT);
    assert_eq!(growth_score(-3_000_000), 0);
    // 4.999999% falls just short of the full weight
    assert_eq!(growth_score(4_999_999), 20 * UNITS_PER_POINT - 24);
    assert_eq!(volume_score(5_000), 15 * UNITS_PER_POINT / 2);
    assert_eq!(volume_score(50_000), 15 * UNITS_PER_POINT);
    assert_eq!(employment_score(93_000_000), 15 * UNITS_PER_POINT / 2);
    assert_eq!(employment_score(90_000_000), 0);
    assert_eq!(employment_score(100_000_000), 15 * UNITS_PER_POINT);
    assert_eq!(employment_score(i64::MIN), 0);
}

#[test]
fn mixed_input_exact_score() {
    // 7.5 + 7.5 + 10 + 10 + 7.5 + 7.5 = 50 points: tier 3
    let out = calculate_score(&input(250_000, 40_000, 2_500_000, 60, 5_000, 93_000_000));
    assert_eq!(out.score_units, 50 * UNITS_PER_POINT);
    assert_eq!(out.tier, 3);
    assert_eq!(out.name, "Opportunistic");
    assert_eq!(out.action, "✓ PURSUE");
}

#[test]
fn strong_and_speculative_wording() {
    // 15 + 15 + 20 + 20 + 0 + 0 = 70 points
    let strong = calculate_score(&input(500_000, 80_000, 5_000_000, 10, 0, 0));
    assert_eq!(strong.tier, 2);
    assert_eq!(strong.name, "Strong/Selective");
    assert_eq!(
        strong.recommendation,
        "Solid market; focus on specific neighborhood due diligence."
    );
    // 15 + 15 + 0 + 0 + 0 + 0 = 30 points
    let speculative = calculate_score(&input(500_000, 80_000, 0, 100, 0, 0));
    assert_eq!(speculative.score_units, 30 * UNITS_PER_POINT);
    assert_eq!(speculative.tier, 4);
    assert_eq!(speculative.name, "Speculative");
    assert_eq!(speculative.action, "⚠ CAUTION");
    assert_eq!(speculative.recommendation, "Limited liquidity; higher exit risk.");
}

#[test]
fn scoring_twice_gives_identical_output() {
    let i = input(123_456, 65_432, 3_210_000, 47, 2_345, 94_120_000);
    let a = calculate_score(&i);
    let b = calculate_score(&i);
    assert_eq!(a.score_units, b.score_units);
    assert_eq!(a.tier, b.tier);
    assert_eq!(a.name, b.name);
    assert_eq!(a.action, b.action);
    assert_eq!(a.recommendation, b.recommendation);
}

#[test]
fn growth_never_lowers_score() {
    let mut last = 0;
    for step in 0..=500i64 {
        let g = step * 10_000;
        let s = calculate_score(&input(100_000, 50_000, g, 45, 1_000, 92_000_000)).score_units;
        assert!(s >= last);
        last = s;
    }
}

#[test]
fn days_on_market_never_raise_score() {
    let mut last = u64::MAX;
    for d in 30..=200u16 {
        let s = calculate_score(&input(100_000, 50_000, 2_000_000, d, 1_000, 92_000_000)).score_units;
        assert!(s <= last);
        last = s;
    }
}

#[test]
fn same_tier_same_wording() {
    let a = calculate_score(&input(500_000, 80_000, 5_000_000, 29, 10_000, 96_000_000));
    let b = calculate_score(&input(450_000, 75_000, 4_500_000, 35, 9_000, 95_000_000));
    assert_eq!(a.tier, b.tier);
    assert_eq!(a.name, b.name);
    assert_eq!(a.action, b.action);
    assert_eq!(a.recommendation, b.recommendation);
}

#[test]
fn score_stays_within_scale_on_extremes() {
    let high = calculate_score(&input(u32::MAX, u32::MAX, i64::MAX, 0, u32::MAX, i64::MAX));
    assert_eq!(high.score_units, MAX_SCORE_UNITS);
    let low = calculate_score(&input(0, 0, i64::MIN, u16::MAX, 0, i64::MIN));
    assert_eq!(low.score_units, 0);
}
