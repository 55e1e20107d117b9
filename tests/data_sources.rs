use auction_intel::auctions::{auctions_in, get_state_auctions, get_upcoming_auctions};
use auction_intel::census::{
    census_cache_fresh, count_by_state, count_by_tier, counties_from_rows, county_from_row, state_for_fips,
    CountyCensusData,
};
use auction_intel::counties::{county_database, database_counties_in, get_counties, rank_key};
use auction_intel::foreclosure::{
    get_all_foreclosure_stats, get_foreclosure_stats, get_hud_sample_data, get_national_trends,
    national_trends, sample_listings, ForeclosureSummary,
};
use auction_intel::indicators::{
    apply_mortgage_history, fallback_rates, initial_rates, live_fetch_allowed,
};
use auction_intel::market::{
    build_market_data, get_current_rates, get_economic_indicators, get_housing_stats,
    market_cache_fresh,
};

fn row(fields: &[&str]) -> Vec<String> {
    fields.iter().map(|f| f.to_string()).collect()
}

#[test]
fn upcoming_auctions_by_state() {
    let all = get_upcoming_auctions();
    assert_eq!(all.len(), 18);
    assert_eq!(all[0].id, "PA-MONROE-2026-01");
    assert_eq!(all[0].deposit_required_dollars, 500);
    let pa = get_state_auctions("pa");
    assert!(!pa.is_empty());
    assert!(pa.iter().all(|a| a.state == "PA"));
    assert_eq!(pa.len(), all.iter().filter(|a| a.state == "PA").count());
    assert!(auctions_in("pa").is_empty());
    assert!(get_state_auctions("ZZ").is_empty());
}

#[test]
fn hud_samples_of_a_market() {
    let fl = get_hud_sample_data("fl", "2026-01-15");
    assert_eq!(fl.len(), 5);
    assert_eq!(fl[0].address, "1234 Palm Ave");
    assert_eq!(fl[0].price_dollars, 285_000);
    assert_eq!(fl[1].bathrooms_tenths, 15);
    assert!(fl.iter().all(|p| p.listing_date == "2026-01-15" && p.status == "Available"));
    let tx = get_hud_sample_data("TX", "d");
    assert_eq!(tx.len(), 5);
    assert_eq!(tx[4].address, "5678 Rio Grande");
    let dc = get_hud_sample_data("dc", "d");
    assert_eq!(dc[0].city, "Washington");
    assert!(get_hud_sample_data("ZZ", "d").is_empty());
    assert!(sample_listings("fl", "d").is_empty());
}

#[test]
fn foreclosure_stats_cover_every_state() {
    let stats = get_foreclosure_stats("2026-01-15");
    assert_eq!(stats.len(), 51);
    assert_eq!(stats[0].state, "FL");
    assert_eq!(stats[0].avg_price_dollars, 285_000);
    assert_eq!(stats[0].foreclosure_rate_tenths, 48);
    assert_eq!(stats[0].yoy_change_tenths, 125);
    assert!(stats.iter().all(|s| s.updated == "2026-01-15"));
    assert_eq!(get_all_foreclosure_stats("x").len(), 51);
}

fn summary(state: &str, total: i32, rate_tenths: i32) -> ForeclosureSummary {
    ForeclosureSummary {
        state: state.to_string(),
        state_name: String::new(),
        total_listings: total,
        avg_price_dollars: 0,
        hud_count: 1,
        fannie_count: 2,
        freddie_count: 3,
        foreclosure_rate_tenths: rate_tenths,
        yoy_change_tenths: 0,
        avg_days_on_market: 0,
        updated: String::new(),
    }
}

#[test]
fn national_trends_totals_and_top() {
    let t = national_trends(&vec![summary("AA", 10, 20), summary("BB", 30, 25), summary("CC", 30, 30)]);
    assert_eq!(t.total_foreclosures, 70);
    assert_eq!(t.total_hud, 3);
    assert_eq!(t.total_fannie, 6);
    assert_eq!(t.total_freddie, 9);
    assert_eq!(t.total_states, 3);
    // (2.0 + 2.5 + 3.0) / 3 = 2.5
    assert_eq!(t.avg_foreclosure_rate_hundredths, Some(250));
    assert_eq!(t.top_state, "CC");
    assert_eq!(t.top_state_count, 30);
    assert_eq!(t.month, "January");
    assert_eq!(t.year, 2026);
    // 1.0 + 1.0 + 1.1 = 3.1 / 3 = 1.0333.. -> 1.03
    let r = national_trends(&vec![summary("A", 1, 10), summary("B", 1, 10), summary("C", 1, 11)]);
    assert_eq!(r.avg_foreclosure_rate_hundredths, Some(103));
    let empty = national_trends(&vec![]);
    assert_eq!(empty.avg_foreclosure_rate_hundredths, None);
    assert_eq!(empty.top_state, "FL");
    assert_eq!(empty.top_state_count, 0);
}

#[test]
fn national_trends_of_the_data() {
    let t = get_national_trends();
    assert_eq!(t.total_states, 51);
    assert_eq!(t.top_state, "FL");
    assert_eq!(t.top_state_count, 45_000);
}

#[test]
fn county_database_ranked() {
    let all = county_database();
    let ranked = get_counties(None);
    assert_eq!(ranked.len(), all.len());
    for w in ranked.windows(2) {
        assert!(rank_key(&w[0]) <= rank_key(&w[1]));
    }
    let tx = get_counties(Some("tx"));
    assert_eq!(tx.len(), 5);
    assert_eq!(tx[0].name, "Travis");
    assert_eq!(tx[0].growth_bp, 650);
    assert_eq!(database_counties_in("TX").len(), 5);
    assert!(database_counties_in("tx").is_empty());
    assert!(get_counties(Some("ZZ")).is_empty());
}

#[test]
fn census_rows_become_counties() {
    let c = county_from_row(&row(&[
        "Travis County, Texas", "1290188", "85000", "520000", "500000", "20000", "48", "453",
    ]))
    .unwrap();
    assert_eq!(c.name, "Travis");
    assert_eq!(c.state, "TX");
    assert_eq!(c.fips, "48453");
    assert_eq!(c.population, 1_290_188);
    assert_eq!(c.tier, 1);
    let parish = county_from_row(&row(&[
        "Orleans Parish, Louisiana", "383997", "45000", "x", "1", "-", "22", "071",
    ]))
    .unwrap();
    assert_eq!(parish.name, "Orleans");
    assert_eq!(parish.median_home_value, 0);
    assert_eq!(parish.vacant_units, 0);
    let spaced = county_from_row(&row(&["  Ada County , Idaho", "1", "1", "1", "1", "1", "16", "001"]))
        .unwrap();
    assert_eq!(spaced.name, "Ada");
    assert!(county_from_row(&row(&["A", "1", "1", "1", "1", "1", "99", "001"])).is_none());
    assert!(county_from_row(&row(&["A", "0", "1", "1", "1", "1", "48", "001"])).is_none());
    assert!(county_from_row(&row(&["A", "5", "-1", "1", "1", "1", "48", "001"])).is_none());
    assert!(county_from_row(&row(&["A", "5", "1"])).is_none());
    let rows = vec![
        row(&["NAME", "P", "I", "H", "U", "V", "state", "county"]),
        row(&["Ada County, Idaho", "494967", "72000", "520000", "1", "1", "16", "001"]),
        row(&["Nowhere", "0", "0", "0", "0", "0", "16", "003"]),
        row(&["Juneau City and Borough, Alaska", "32000", "90000", "400000", "1", "1", "02", "110"]),
    ];
    let counties = counties_from_rows(&rows);
    assert_eq!(counties.len(), 2);
    assert_eq!(counties[0].name, "Ada");
    assert_eq!(counties[1].name, "Juneau City and");
    assert!(counties_from_rows(&vec![]).is_empty());
    assert_eq!(state_for_fips("06"), Some("CA".to_string()));
    assert_eq!(state_for_fips("03"), None);
}

#[test]
fn counties_counted_by_tier() {
    let mk = |tier: i32| CountyCensusData {
        name: String::new(),
        state: String::new(),
        fips: String::new(),
        population: 0,
        median_income: 0,
        median_home_value: 0,
        total_housing_units: 0,
        vacant_units: 0,
        tier,
    };
    let m = count_by_tier(&vec![mk(1), mk(3), mk(1), mk(5)]);
    assert_eq!(m.len(), 3);
    assert_eq!(m[&1], 2);
    assert_eq!(m[&3], 1);
    assert_eq!(m[&5], 1);
    assert!(count_by_tier(&vec![]).is_empty());
}

#[test]
fn counties_counted_by_state() {
    let mk = |state: &str| CountyCensusData {
        name: String::new(),
        state: state.to_string(),
        fips: String::new(),
        population: 0,
        median_income: 0,
        median_home_value: 0,
        total_housing_units: 0,
        vacant_units: 0,
        tier: 1,
    };
    let counts = count_by_state(&vec![mk("TX"), mk("CA"), mk("TX"), mk("TX"), mk("WA")]);
    assert_eq!(
        counts,
        vec![("TX".to_string(), 3), ("CA".to_string(), 1), ("WA".to_string(), 1)]
    );
    assert!(count_by_state(&vec![]).is_empty());
}

#[test]
fn caches_expire() {
    assert!(census_cache_fresh(86_399));
    assert!(!census_cache_fresh(86_400));
    assert!(market_cache_fresh(14));
    assert!(!market_cache_fresh(15));
}

#[test]
fn market_figures() {
    let r = get_current_rates("now");
    assert_eq!(r.rate_30yr_bp, 662);
    assert_eq!(r.change_30yr_bp, -4);
    let ind = get_economic_indicators("today");
    assert_eq!(ind.len(), 6);
    assert_eq!(ind[1].trend, "down");
    assert_eq!(ind[3].trend, "up");
    assert_eq!(ind[0].trend, "stable");
    assert_eq!(get_housing_stats().median_home_price_dollars, 417_700);
    let m = build_market_data("a", "b", "c");
    assert_eq!(m.timestamp, "c");
    assert_eq!(m.indicators[5].value_milli, 104_700);
}

#[test]
fn live_rates_decisions() {
    assert!(!live_fetch_allowed(None));
    assert!(!live_fetch_allowed(Some("")));
    assert!(!live_fetch_allowed(Some("DEMO_API_KEY")));
    assert!(live_fetch_allowed(Some("abc")));
    let f = fallback_rates("t");
    assert_eq!(f.mortgage_30yr_milli, 6_720);
    assert_eq!(f.source, "Fallback Data");
    assert_eq!(initial_rates(Some("abc"), "t").source, "FRED API (Live)");
    assert_eq!(initial_rates(None, "t").source, "Fallback Data");
    let mut d = fallback_rates("t");
    apply_mortgage_history(&mut d, &vec![("2026-01-08".to_string(), 6_850), ("2026-01-01".to_string(), 6_726)]);
    assert_eq!(d.mortgage_30yr_milli, 6_850);
    assert_eq!(d.updated, "2026-01-08");
    // 0.124 rounds to 0.12
    assert_eq!(d.mortgage_30yr_change_milli, 120);
    let mut e = fallback_rates("t");
    apply_mortgage_history(&mut e, &vec![("x".to_string(), 6_700), ("y".to_string(), 6_745)]);
    // -0.045 rounds to -0.05
    assert_eq!(e.mortgage_30yr_change_milli, -50);
    let mut g = fallback_rates("t");
    apply_mortgage_history(&mut g, &vec![]);
    assert_eq!(g.mortgage_30yr_milli, 6_720);
    assert_eq!(g.updated, "t");
}

#[test]
fn whole_records_of_the_tables() {
    let al = get_state_schedule_for_test("al");
    assert_eq!(al.0, "Tax Lien");
    assert_eq!(al.1, vec!["May".to_string(), "June".to_string()]);
    let fl = get_hud_sample_data("FL", "d");
    assert_eq!(fl[0].city, "Miami");
    assert_eq!(fl[0].zip, "33125");
    assert_eq!(fl[0].bedrooms, 3);
    assert_eq!(fl[0].source, "HUD");
    assert_eq!(fl[0].state, "FL");
    let stats = get_foreclosure_stats("d");
    assert_eq!(stats[0].state_name, "Florida");
    assert_eq!(stats[0].total_listings, 45_000);
    assert_eq!(stats[0].hud_count, 1_200);
    assert_eq!(stats[0].avg_days_on_market, 45);
    let t = get_national_trends();
    assert_eq!(t.total_foreclosures, 388_950);
    assert_eq!(t.avg_foreclosure_rate_hundredths, Some(253));
    let i = initial_rates(None, "t");
    assert_eq!(
        (i.mortgage_15yr_milli, i.fed_funds_milli, i.cpi_yoy_milli, i.unemployment_milli),
        (5_920, 4_330, 2_900, 4_100)
    );
    assert_eq!((i.housing_starts_milli, i.treasury_10yr_milli), (1_499, 4_680));
    let m = build_market_data("a", "b", "c");
    assert_eq!(m.housing_stats.yoy_change_tenths, 42);
    assert_eq!(m.mortgage_rates.rate_15yr_bp, 589);
    assert_eq!(m.indicators[3].unit, "M units");
    let first = get_upcoming_auctions();
    assert_eq!(first[0].county, "Monroe");
    assert_eq!(first[0].property_count, 150);
}

fn get_state_schedule_for_test(code: &str) -> (String, Vec<String>) {
    let s = auction_intel::auctions::get_state_schedule(code).unwrap();
    (s.sale_type, s.typical_months)
}
