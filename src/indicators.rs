//! Economic-data series that the service follows, with their display names
//! and units, and the live-rates record built from the latest observations.
use vstd::prelude::*;
use vstd::string::StringExecFns;
use crate::foreclosure::rounded_div;

verus! {

pub const SERIES_MORTGAGE_30YR: &'static str = "MORTGAGE30US";
pub const SERIES_MORTGAGE_15YR: &'static str = "MORTGAGE15US";
pub const SERIES_FED_FUNDS: &'static str = "FEDFUNDS";
pub const SERIES_CPI: &'static str = "CPIAUCSL";
pub const SERIES_UNEMPLOYMENT: &'static str = "UNRATE";
pub const SERIES_HOUSING_STARTS: &'static str = "HOUST";
pub const SERIES_TREASURY_10YR: &'static str = "DGS10";

/// Series id, display name and unit of each series followed, one entry per
/// series.
pub open spec fn indicator_rows() -> Seq<(Seq<char>, Seq<char>, Seq<char>)> {
    seq![
        ("MORTGAGE30US"@, "30-Year Fixed Mortgage"@, "%"@),
        ("MORTGAGE15US"@, "15-Year Fixed Mortgage"@, "%"@),
        ("FEDFUNDS"@, "Federal Funds Rate"@, "%"@),
        ("CPIAUCSL"@, "Consumer Price Index"@, "%"@),
        ("UNRATE"@, "Unemployment Rate"@, "%"@),
        ("HOUST"@, "Housing Starts"@, "M units"@),
        ("DGS10"@, "10-Year Treasury"@, "%"@),
    ]
}

pub open spec fn entry_view(e: (&str, (&str, &str))) -> (Seq<char>, Seq<char>, Seq<char>) {
    (e.0@, e.1.0@, e.1.1@)
}

/// Each series id with its display name and unit.
pub fn get_indicator_metadata() -> (r: Vec<(&'static str, (&'static str, &'static str))>)
    ensures
        r@.map_values(|e: (&str, (&str, &str))| entry_view(e)) == indicator_rows(),
{
    let r = vec![
        (SERIES_MORTGAGE_30YR, ("30-Year Fixed Mortgage", "%")),
        (SERIES_MORTGAGE_15YR, ("15-Year Fixed Mortgage", "%")),
        (SERIES_FED_FUNDS, ("Federal Funds Rate", "%")),
        (SERIES_CPI, ("Consumer Price Index", "%")),
        (SERIES_UNEMPLOYMENT, ("Unemployment Rate", "%")),
        (SERIES_HOUSING_STARTS, ("Housing Starts", "M units")),
        (SERIES_TREASURY_10YR, ("10-Year Treasury", "%")),
    ];
    assert(r@.map_values(|e: (&str, (&str, &str))| entry_view(e)) =~= indicator_rows());
    r
}

/// Rates and indicators of the economic-data service, in thousandths of
/// their unit: 6.72% is 6,720.
#[derive(Clone, Debug)]
pub struct LiveRatesData {
    pub mortgage_30yr_milli: i64,
    pub mortgage_15yr_milli: i64,
    pub mortgage_30yr_change_milli: i64,
    pub fed_funds_milli: i64,
    pub cpi_yoy_milli: i64,
    pub unemployment_milli: i64,
    pub housing_starts_milli: i64,
    pub treasury_10yr_milli: i64,
    pub updated: String,
    pub source: String,
}

/// A key is worth a live fetch when it is given, not empty and not the
/// placeholder demo key.
pub open spec fn usable_key(api_key: Option<Seq<char>>) -> bool {
    match api_key {
        Some(k) => k.len() > 0 && k != "DEMO_API_KEY"@,
        None => false,
    }
}

pub open spec fn key_view(api_key: Option<&str>) -> Option<Seq<char>> {
    match api_key {
        Some(k) => Some(k@),
        None => None,
    }
}

/// Whether live rates should be fetched with `api_key`.
pub fn live_fetch_allowed(api_key: Option<&str>) -> (r: bool)
    ensures
        r == usable_key(key_view(api_key)),
{
    match api_key {
        Some(k) => {
            let key = String::from_str(k);
            let demo = String::from_str("DEMO_API_KEY");
            key.as_str().unicode_len() > 0 && !(key == demo)
        },
        None => false,
    }
}

/// The rates served when no live figure is to be had, stamped `updated`.
pub fn fallback_rates(updated: &str) -> (r: LiveRatesData)
    ensures
        r.mortgage_30yr_milli == 6_720,
        r.mortgage_15yr_milli == 5_920,
        r.mortgage_30yr_change_milli == 120,
        r.fed_funds_milli == 4_330,
        r.cpi_yoy_milli == 2_900,
        r.unemployment_milli == 4_100,
        r.housing_starts_milli == 1_499,
        r.treasury_10yr_milli == 4_680,
        r.updated@ == updated@,
        r.source@ == "Fallback Data"@,
{
    LiveRatesData {
        mortgage_30yr_milli: 6_720,
        mortgage_15yr_milli: 5_920,
        mortgage_30yr_change_milli: 120,
        fed_funds_milli: 4_330,
        cpi_yoy_milli: 2_900,
        unemployment_milli: 4_100,
        housing_starts_milli: 1_499,
        treasury_10yr_milli: 4_680,
        updated: String::from_str(updated),
        source: String::from_str("Fallback Data"),
    }
}

/// The starting record for `api_key`: the fallback figures, labelled as live
/// when a live fetch is to follow.
pub fn initial_rates(api_key: Option<&str>, updated: &str) -> (r: LiveRatesData)
    ensures
        r.mortgage_30yr_milli == 6_720,
        r.mortgage_15yr_milli == 5_920,
        r.mortgage_30yr_change_milli == 120,
        r.fed_funds_milli == 4_330,
        r.cpi_yoy_milli == 2_900,
        r.unemployment_milli == 4_100,
        r.housing_starts_milli == 1_499,
        r.treasury_10yr_milli == 4_680,
        r.updated@ == updated@,
        usable_key(key_view(api_key)) ==> r.source@ == "FRED API (Live)"@,
        !usable_key(key_view(api_key)) ==> r.source@ == "Fallback Data"@,
{
    let mut r = fallback_rates(updated);
    if live_fetch_allowed(api_key) {
        r.source = String::from_str("FRED API (Live)");
    }
    r
}

/// Takes in the latest observations of the 30-year mortgage rate, newest
/// first: the newest sets the rate and the date, and with the one before
/// it the week's change, rounded to hundredths of a percent.
pub fn apply_mortgage_history(data: &mut LiveRatesData, history: &Vec<(String, i64)>)
    requires
        forall|i: int|
            0 <= i < history@.len() ==> -1_000_000_000_000 <= (#[trigger] history@[i]).1
                <= 1_000_000_000_000,
    ensures
        history@.len() == 0 ==> final(data).mortgage_30yr_milli == old(
            data,
        ).mortgage_30yr_milli && final(data).updated@ == old(data).updated@
            && final(data).mortgage_30yr_change_milli == old(data).mortgage_30yr_change_milli,
        history@.len() > 0 ==> final(data).mortgage_30yr_milli == history@[0].1
            && final(data).updated@ == history@[0].0@,
        history@.len() == 1 ==> final(data).mortgage_30yr_change_milli == old(
            data,
        ).mortgage_30yr_change_milli,
        history@.len() > 1 ==> final(data).mortgage_30yr_change_milli == 10 * rounded_div(
            history@[0].1 - history@[1].1,
            10,
        ),
        final(data).source@ == old(data).source@,
        final(data).mortgage_15yr_milli == old(data).mortgage_15yr_milli,
        final(data).fed_funds_milli == old(data).fed_funds_milli,
        final(data).cpi_yoy_milli == old(data).cpi_yoy_milli,
        final(data).housing_starts_milli == old(data).housing_starts_milli,
        final(data).unemployment_milli == old(data).unemployment_milli,
        final(data).treasury_10yr_milli == old(data).treasury_10yr_milli,
{
    if history.len() > 0 {
        let current = history[0].1;
        data.mortgage_30yr_milli = current;
        data.updated = history[0].0.clone();
        if history.len() > 1 {
            let previous = history[1].1;
            assert(-1_000_000_000_000 <= history@[0].1 <= 1_000_000_000_000);
            assert(-1_000_000_000_000 <= history@[1].1 <= 1_000_000_000_000);
            let diff: i64 = current - previous;
            let q = if diff >= 0 {
                (2 * diff + 10) / 20
            } else {
                let m: i64 = 10 - 2 * diff;
                -(m / 20)
            };
            data.mortgage_30yr_change_milli = 10 * q;
        }
    }
}

} // verus!
