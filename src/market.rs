//! Headline mortgage rates, economic indicators and housing figures.
use vstd::prelude::*;
use vstd::string::StringExecFns;

verus! {

/// Mortgage rates in basis points: 6.62% is 662.
#[derive(Clone, Debug)]
pub struct MortgageRates {
    pub rate_30yr_bp: i32,
    pub rate_15yr_bp: i32,
    pub rate_5yr_arm_bp: i32,
    /// Week-over-week change of the 30-year rate.
    pub change_30yr_bp: i32,
    pub change_15yr_bp: i32,
    pub updated: String,
    pub source: String,
}

/// One economic indicator; value and change in thousandths of its unit.
#[derive(Clone, Debug)]
pub struct EconomicIndicator {
    pub name: String,
    pub value_milli: i64,
    pub unit: String,
    pub change_milli: i64,
    /// "up", "down" or "stable", as the change goes.
    pub trend: String,
    pub updated: String,
}

/// Nation-wide housing figures.
#[derive(Clone, Debug)]
pub struct HousingStats {
    pub median_home_price_dollars: u64,
    /// Year-over-year change in percent, in tenths.
    pub yoy_change_tenths: i32,
    /// Months of supply, in tenths.
    pub inventory_months_tenths: i32,
    pub days_on_market: i32,
}

/// Everything the market overview shows at one moment.
#[derive(Clone, Debug)]
pub struct MarketData {
    pub mortgage_rates: MortgageRates,
    pub indicators: Vec<EconomicIndicator>,
    pub housing_stats: HousingStats,
    pub timestamp: String,
}

/// The word for the direction of a change.
pub open spec fn trend_of(change: int) -> Seq<char> {
    if change > 0 {
        "up"@
    } else if change < 0 {
        "down"@
    } else {
        "stable"@
    }
}

/// Name, value, unit and change of each indicator, in the order they are
/// shown.
pub open spec fn indicator_values() -> Seq<(Seq<char>, int, Seq<char>, int)> {
    seq![
        ("Federal Funds Rate"@, 4_330, "%"@, 0),
        ("Inflation Rate (CPI)"@, 2_900, "%"@, -100),
        ("Unemployment Rate"@, 4_100, "%"@, 0),
        ("Housing Starts"@, 1_499, "M units"@, 30),
        ("10-Year Treasury"@, 4_680, "%"@, 50),
        ("Consumer Confidence"@, 104_700, "index"@, 2_300),
    ]
}

pub open spec fn indicator_value(i: EconomicIndicator) -> (Seq<char>, int, Seq<char>, int) {
    (i.name@, i.value_milli as int, i.unit@, i.change_milli as int)
}

/// Every indicator of `s` is stamped `updated` and carries the trend word
/// of its change.
pub open spec fn stamped_with_trends(s: Seq<EconomicIndicator>, updated: Seq<char>) -> bool {
    forall|k: int|
        0 <= k < s.len() ==> (#[trigger] s[k]).trend@ == trend_of(s[k].change_milli as int)
            && s[k].updated@ == updated
}

/// Whether market data fetched `elapsed_minutes` ago may still be served:
/// it is kept for 15 minutes.
pub fn market_cache_fresh(elapsed_minutes: i64) -> (r: bool)
    ensures
        r == (elapsed_minutes < 15),
{
    elapsed_minutes < 15
}

/// The current mortgage rates, stamped `updated`.
pub fn get_current_rates(updated: &str) -> (r: MortgageRates)
    ensures
        r.rate_30yr_bp == 662,
        r.rate_15yr_bp == 589,
        r.rate_5yr_arm_bp == 608,
        r.change_30yr_bp == -4,
        r.change_15yr_bp == -2,
        r.updated@ == updated@,
        r.source@ == "Federal Reserve (FRED)"@,
{
    MortgageRates {
        rate_30yr_bp: 662,
        rate_15yr_bp: 589,
        rate_5yr_arm_bp: 608,
        change_30yr_bp: -4,
        change_15yr_bp: -2,
        updated: String::from_str(updated),
        source: String::from_str("Federal Reserve (FRED)"),
    }
}

fn indicator(name: &str, value_milli: i64, unit: &str, change_milli: i64, updated: &str) -> (r:
    EconomicIndicator)
    ensures
        r.name@ == name@,
        r.value_milli == value_milli,
        r.unit@ == unit@,
        r.change_milli == change_milli,
        r.trend@ == trend_of(change_milli as int),
        r.updated@ == updated@,
{
    let trend = if change_milli > 0 {
        "up"
    } else if change_milli < 0 {
        "down"
    } else {
        "stable"
    };
    EconomicIndicator {
        name: String::from_str(name),
        value_milli,
        unit: String::from_str(unit),
        change_milli,
        trend: String::from_str(trend),
        updated: String::from_str(updated),
    }
}

/// The economic indicators, stamped `updated`; each one's trend word
/// follows the sign of its change.
pub fn get_economic_indicators(updated: &str) -> (r: Vec<EconomicIndicator>)
    ensures
        r@.map_values(|i: EconomicIndicator| indicator_value(i)) == indicator_values(),
        stamped_with_trends(r@, updated@),
{
    let r = vec![
        indicator("Federal Funds Rate", 4_330, "%", 0, updated),
        indicator("Inflation Rate (CPI)", 2_900, "%", -100, updated),
        indicator("Unemployment Rate", 4_100, "%", 0, updated),
        indicator("Housing Starts", 1_499, "M units", 30, updated),
        indicator("10-Year Treasury", 4_680, "%", 50, updated),
        indicator("Consumer Confidence", 104_700, "index", 2_300, updated),
    ];
    assert(r@.map_values(|i: EconomicIndicator| indicator_value(i)) =~= indicator_values());
    r
}

/// The housing figures.
pub fn get_housing_stats() -> (r: HousingStats)
    ensures
        r.median_home_price_dollars == 417_700,
        r.yoy_change_tenths == 42,
        r.inventory_months_tenths == 38,
        r.days_on_market == 62,
{
    HousingStats {
        median_home_price_dollars: 417_700,
        yoy_change_tenths: 42,
        inventory_months_tenths: 38,
        days_on_market: 62,
    }
}

/// A fresh market overview: rates stamped `rates_updated`, indicators
/// stamped `today`, the whole stamped `timestamp`.
pub fn build_market_data(rates_updated: &str, today: &str, timestamp: &str) -> (r: MarketData)
    ensures
        r.mortgage_rates.rate_30yr_bp == 662,
        r.mortgage_rates.rate_15yr_bp == 589,
        r.mortgage_rates.rate_5yr_arm_bp == 608,
        r.mortgage_rates.change_30yr_bp == -4,
        r.mortgage_rates.change_15yr_bp == -2,
        r.mortgage_rates.updated@ == rates_updated@,
        r.mortgage_rates.source@ == "Federal Reserve (FRED)"@,
        r.indicators@.map_values(|i: EconomicIndicator| indicator_value(i)) == indicator_values(),
        stamped_with_trends(r.indicators@, today@),
        r.housing_stats.median_home_price_dollars == 417_700,
        r.housing_stats.yoy_change_tenths == 42,
        r.housing_stats.inventory_months_tenths == 38,
        r.housing_stats.days_on_market == 62,
        r.timestamp@ == timestamp@,
{
    MarketData {
        mortgage_rates: get_current_rates(rates_updated),
        indicators: get_economic_indicators(today),
        housing_stats: get_housing_stats(),
        timestamp: String::from_str(timestamp),
    }
}

} // verus!
