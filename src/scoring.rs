//! The six-factor desirability engine: market metrics in, a score on a
//! 0..100 scale, a tier and its fixed wording out.
//!
//! Scores are held exactly. One point is `UNITS_PER_POINT` score units, a
//! scale at which every factor of the weighting table is a whole number, so
//! that no rounding stands between the inputs and the tier.
use vstd::prelude::*;
use vstd::arithmetic::div_mod::lemma_div_multiples_vanish;
use vstd::string::StringExecFns;

verus! {

/// Score units in one point of the 0..100 scale.
pub const UNITS_PER_POINT: u64 = 6_000_000;

/// The largest score, 100 points.
pub const MAX_SCORE_UNITS: u64 = 600_000_000;

/// Market metrics of one area. Percentages are given in millionths of a
/// percent: 5.25% is 5,250,000.
#[derive(Clone, Copy, Debug, PartialEq, Eq)]
pub struct AnalysisInput {
    pub population: u32,
    pub median_income: u32,
    pub growth_yoy_micropct: i64,
    pub days_on_market: u16,
    pub transaction_volume: u32,
    pub employment_rate_micropct: i64,
}

/// The verdict on one `AnalysisInput`. `score_units / UNITS_PER_POINT` is
/// the score in points.
#[derive(Clone, Debug)]
pub struct AnalysisOutput {
    pub score_units: u64,
    pub tier: u8,
    pub name: String,
    pub action: String,
    pub recommendation: String,
}

pub open spec fn min_int(a: int, b: int) -> int {
    if a <= b { a } else { b }
}

pub open spec fn clamp_int(x: int, lo: int, hi: int) -> int {
    if x < lo { lo } else if x > hi { hi } else { x }
}

/// Population: weight 15, saturating at 500,000 residents.
pub open spec fn population_units(population: int) -> int {
    15 * UNITS_PER_POINT * min_int(population, 500_000) / 500_000
}

/// Median income: weight 15, saturating at 80,000 a year.
pub open spec fn income_units(income: int) -> int {
    15 * UNITS_PER_POINT * min_int(income, 80_000) / 80_000
}

/// Growth: weight 20, from 0% (or below) up to 5%.
pub open spec fn growth_units(growth: int) -> int {
    20 * UNITS_PER_POINT * clamp_int(growth, 0, 5_000_000) / 5_000_000
}

/// Days on market: weight 20, full under 30 days, none over 90, linear
/// in between.
pub open spec fn days_on_market_units(days: int) -> int {
    if days < 30 {
        20 * UNITS_PER_POINT
    } else if days > 90 {
        0
    } else {
        20 * UNITS_PER_POINT * (90 - days) / 60
    }
}

/// Transaction volume: weight 15, saturating at 10,000 sales.
pub open spec fn volume_units(volume: int) -> int {
    15 * UNITS_PER_POINT * min_int(volume, 10_000) / 10_000
}

/// Employment: weight 15, from 90% up to 96%.
pub open spec fn employment_units(rate: int) -> int {
    15 * UNITS_PER_POINT * clamp_int(rate - 90_000_000, 0, 6_000_000) / 6_000_000
}

/// The weighted sum of the six factors, in score units.
pub open spec fn score_of(input: AnalysisInput) -> int {
    population_units(input.population as int) + income_units(input.median_income as int)
        + growth_units(input.growth_yoy_micropct as int) + days_on_market_units(
        input.days_on_market as int,
    ) + volume_units(input.transaction_volume as int) + employment_units(
        input.employment_rate_micropct as int,
    )
}

/// Tier of a score: thresholds at 85, 70, 50 and 30 points, each boundary
/// belonging to the better tier.
pub open spec fn tier_of(score: int) -> u8 {
    if score >= 85 * UNITS_PER_POINT {
        1
    } else if score >= 70 * UNITS_PER_POINT {
        2
    } else if score >= 50 * UNITS_PER_POINT {
        3
    } else if score >= 30 * UNITS_PER_POINT {
        4
    } else {
        5
    }
}

pub open spec fn tier_name(tier: u8) -> Seq<char> {
    if tier == 1 {
        "Prime Investor"@
    } else if tier == 2 {
        "Strong/Selective"@
    } else if tier == 3 {
        "Opportunistic"@
    } else if tier == 4 {
        "Speculative"@
    } else {
        "Capital Trap"@
    }
}

pub open spec fn tier_action(tier: u8) -> Seq<char> {
    if tier <= 3 {
        "✓ PURSUE"@
    } else if tier == 4 {
        "⚠ CAUTION"@
    } else {
        "✗ AVOID"@
    }
}

pub open spec fn tier_recommendation(tier: u8) -> Seq<char> {
    if tier == 1 {
        "Exceptional liquidity and growth fundamentals."@
    } else if tier == 2 {
        "Solid market; focus on specific neighborhood due diligence."@
    } else if tier == 3 {
        "Stable regional hub; steady cash flow potential."@
    } else if tier == 4 {
        "Limited liquidity; higher exit risk."@
    } else {
        "Weak fundamentals; significant risk of illiquidity."@
    }
}

/// `out` is the verdict on `input`: its score, the tier of that score and
/// the tier's wording.
pub open spec fn describes(input: AnalysisInput, out: AnalysisOutput) -> bool {
    &&& out.score_units == score_of(input)
    &&& out.tier == tier_of(score_of(input))
    &&& out.name@ == tier_name(out.tier)
    &&& out.action@ == tier_action(out.tier)
    &&& out.recommendation@ == tier_recommendation(out.tier)
}

proof fn lemma_population_units(population: int)
    ensures
        population_units(population) == 180 * min_int(population, 500_000),
{
    let m = min_int(population, 500_000);
    lemma_div_multiples_vanish(180 * m, 500_000);
    assert(500_000 * (180 * m) == 90_000_000 * m);
    assert(15 * UNITS_PER_POINT == 90_000_000);
}

proof fn lemma_income_units(income: int)
    ensures
        income_units(income) == 1_125 * min_int(income, 80_000),
{
    let m = min_int(income, 80_000);
    lemma_div_multiples_vanish(1_125 * m, 80_000);
    assert(80_000 * (1_125 * m) == 90_000_000 * m);
    assert(15 * UNITS_PER_POINT == 90_000_000);
}

proof fn lemma_growth_units(growth: int)
    ensures
        growth_units(growth) == 24 * clamp_int(growth, 0, 5_000_000),
{
    let g = clamp_int(growth, 0, 5_000_000);
    lemma_div_multiples_vanish(24 * g, 5_000_000);
    assert(5_000_000 * (24 * g) == 120_000_000 * g);
    assert(20 * UNITS_PER_POINT == 120_000_000);
}

proof fn lemma_days_on_market_units(days: int)
    ensures
        30 <= days <= 90 ==> days_on_market_units(days) == 2_000_000 * (90 - days),
{
    let l = 90 - days;
    lemma_div_multiples_vanish(2_000_000 * l, 60);
    assert(60 * (2_000_000 * l) == 120_000_000 * l);
    assert(20 * UNITS_PER_POINT == 120_000_000);
}

proof fn lemma_volume_units(volume: int)
    ensures
        volume_units(volume) == 9_000 * min_int(volume, 10_000),
{
    let m = min_int(volume, 10_000);
    lemma_div_multiples_vanish(9_000 * m, 10_000);
    assert(10_000 * (9_000 * m) == 90_000_000 * m);
    assert(15 * UNITS_PER_POINT == 90_000_000);
}

proof fn lemma_employment_units(rate: int)
    ensures
        employment_units(rate) == 15 * clamp_int(rate - 90_000_000, 0, 6_000_000),
{
    let e = clamp_int(rate - 90_000_000, 0, 6_000_000);
    lemma_div_multiples_vanish(15 * e, 6_000_000);
    assert(6_000_000 * (15 * e) == 90_000_000 * e);
    assert(15 * UNITS_PER_POINT == 90_000_000);
}

proof fn lemma_score_closed_form(input: AnalysisInput)
    ensures
        population_units(input.population as int) == 180 * min_int(input.population as int, 500_000),
        income_units(input.median_income as int) == 1_125 * min_int(input.median_income as int, 80_000),
        growth_units(input.growth_yoy_micropct as int) == 24 * clamp_int(
            input.growth_yoy_micropct as int,
            0,
            5_000_000,
        ),
        30 <= input.days_on_market <= 90 ==> days_on_market_units(input.days_on_market as int)
            == 2_000_000 * (90 - input.days_on_market),
        volume_units(input.transaction_volume as int) == 9_000 * min_int(input.transaction_volume as int, 10_000),
        employment_units(input.employment_rate_micropct as int) == 15 * clamp_int(
            input.employment_rate_micropct - 90_000_000,
            0,
            6_000_000,
        ),
{
    lemma_population_units(input.population as int);
    lemma_income_units(input.median_income as int);
    lemma_growth_units(input.growth_yoy_micropct as int);
    lemma_days_on_market_units(input.days_on_market as int);
    lemma_volume_units(input.transaction_volume as int);
    lemma_employment_units(input.employment_rate_micropct as int);
}

/// Every input scores between 0 and 100 points: each factor is clamped to
/// its weight, and the weights sum to 100.
pub proof fn lemma_score_within_scale(input: AnalysisInput)
    ensures
        0 <= score_of(input) <= MAX_SCORE_UNITS,
{
    lemma_score_closed_form(input);
}

/// Scoring has no hidden state: two verdicts on the same input agree in
/// score, tier and every string.
pub proof fn lemma_verdict_deterministic(input: AnalysisInput, a: AnalysisOutput, b: AnalysisOutput)
    requires
        describes(input, a),
        describes(input, b),
    ensures
        a.score_units == b.score_units,
        a.tier == b.tier,
        a.name@ == b.name@,
        a.action@ == b.action@,
        a.recommendation@ == b.recommendation@,
{
}

/// With every other metric held fixed, more growth never lowers the score.
pub proof fn lemma_growth_monotone(input: AnalysisInput, lower: i64, higher: i64)
    requires
        lower <= higher,
    ensures
        score_of(AnalysisInput { growth_yoy_micropct: lower, ..input }) <= score_of(
            AnalysisInput { growth_yoy_micropct: higher, ..input },
        ),
{
    lemma_growth_units(lower as int);
    lemma_growth_units(higher as int);
}

/// With every other metric held fixed, more days on market never raise the
/// score.
pub proof fn lemma_days_on_market_antitone(input: AnalysisInput, fewer: u16, more: u16)
    requires
        fewer <= more,
    ensures
        score_of(AnalysisInput { days_on_market: more, ..input }) <= score_of(
            AnalysisInput { days_on_market: fewer, ..input },
        ),
{
    lemma_days_on_market_units(fewer as int);
    lemma_days_on_market_units(more as int);
}

/// Two verdicts of the same tier carry the same name, action and
/// recommendation.
pub proof fn lemma_tier_fixes_wording(
    a_input: AnalysisInput,
    a: AnalysisOutput,
    b_input: AnalysisInput,
    b: AnalysisOutput,
)
    requires
        describes(a_input, a),
        describes(b_input, b),
        a.tier == b.tier,
    ensures
        a.name@ == b.name@,
        a.action@ == b.action@,
        a.recommendation@ == b.recommendation@,
{
}

pub fn population_score(population: u32) -> (r: u64)
    ensures
        r == population_units(population as int),
        r <= 90_000_000,
{
    let p: u64 = if population < 500_000 { population as u64 } else { 500_000 };
    proof {
        lemma_population_units(population as int);
    }
    180 * p
}

pub fn income_score(median_income: u32) -> (r: u64)
    ensures
        r == income_units(median_income as int),
        r <= 90_000_000,
{
    let i: u64 = if median_income < 80_000 { median_income as u64 } else { 80_000 };
    proof {
        lemma_income_units(median_income as int);
    }
    1_125 * i
}

pub fn growth_score(growth_yoy_micropct: i64) -> (r: u64)
    ensures
        r == growth_units(growth_yoy_micropct as int),
        r <= 120_000_000,
{
    let g: u64 = if growth_yoy_micropct < 0 {
        0
    } else if growth_yoy_micropct > 5_000_000 {
        5_000_000
    } else {
        growth_yoy_micropct as u64
    };
    proof {
        lemma_growth_units(growth_yoy_micropct as int);
    }
    24 * g
}

pub fn days_on_market_score(days_on_market: u16) -> (r: u64)
    ensures
        r == days_on_market_units(days_on_market as int),
        r <= 120_000_000,
{
    if days_on_market < 30 {
        120_000_000
    } else if days_on_market > 90 {
        0
    } else {
        proof {
            lemma_days_on_market_units(days_on_market as int);
        }
        2_000_000 * (90 - days_on_market as u64)
    }
}

pub fn volume_score(transaction_volume: u32) -> (r: u64)
    ensures
        r == volume_units(transaction_volume as int),
        r <= 90_000_000,
{
    let v: u64 = if transaction_volume < 10_000 { transaction_volume as u64 } else { 10_000 };
    proof {
        lemma_volume_units(transaction_volume as int);
    }
    9_000 * v
}

pub fn employment_score(employment_rate_micropct: i64) -> (r: u64)
    ensures
        r == employment_units(employment_rate_micropct as int),
        r <= 90_000_000,
{
    let e: u64 = if employment_rate_micropct < 90_000_000 {
        0
    } else if employment_rate_micropct > 96_000_000 {
        6_000_000
    } else {
        (employment_rate_micropct - 90_000_000) as u64
    };
    proof {
        lemma_employment_units(employment_rate_micropct as int);
    }
    15 * e
}

/// The tier of a score given in score units.
pub fn tier_for_score(score_units: u64) -> (r: u8)
    ensures
        r == tier_of(score_units as int),
        1 <= r <= 5,
{
    if score_units >= 85 * UNITS_PER_POINT {
        1
    } else if score_units >= 70 * UNITS_PER_POINT {
        2
    } else if score_units >= 50 * UNITS_PER_POINT {
        3
    } else if score_units >= 30 * UNITS_PER_POINT {
        4
    } else {
        5
    }
}

/// Scores `input` and classifies it.
pub fn calculate_score(input: &AnalysisInput) -> (r: AnalysisOutput)
    ensures
        describes(*input, r),
{
    let score = population_score(input.population) + income_score(input.median_income)
        + growth_score(input.growth_yoy_micropct) + days_on_market_score(input.days_on_market)
        + volume_score(input.transaction_volume) + employment_score(input.employment_rate_micropct);
    let tier = tier_for_score(score);
    let (name, action, recommendation) = if tier == 1 {
        (
            "Prime Investor",
            "✓ PURSUE",
            "Exceptional liquidity and growth fundamentals.",
        )
    } else if tier == 2 {
        (
            "Strong/Selective",
            "✓ PURSUE",
            "Solid market; focus on specific neighborhood due diligence.",
        )
    } else if tier == 3 {
        ("Opportunistic", "✓ PURSUE", "Stable regional hub; steady cash flow potential.")
    } else if tier == 4 {
        ("Speculative", "⚠ CAUTION", "Limited liquidity; higher exit risk.")
    } else {
        ("Capital Trap", "✗ AVOID", "Weak fundamentals; significant risk of illiquidity.")
    };
    AnalysisOutput {
        score_units: score,
        tier,
        name: String::from_str(name),
        action: String::from_str(action),
        recommendation: String::from_str(recommendation),
    }
}

} // verus!
