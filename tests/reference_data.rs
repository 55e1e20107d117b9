use auction_intel::auctions::{get_all_schedules, get_platforms, get_state_schedule, schedule_for};
use auction_intel::census::{calculate_tier, counties_with_state, state_counties, CountyCensusData};
use auction_intel::indicators::{get_indicator_metadata, SERIES_HOUSING_STARTS, SERIES_MORTGAGE_30YR};
use auction_intel::states::{
    all_state_info, health, list_state_info, state_codes, state_info, state_info_for,
    state_info_with_type,
};

fn county(name: &str, state: &str, tier: i32) -> CountyCensusData {
    CountyCensusData {
        name: name.to_string(),
        state: state.to_string(),
        fips: String::new(),
        population: 1,
        median_income: 1,
        median_home_value: 1,
        total_housing_units: 0,
        vacant_units: 0,
        tier,
    }
}

#[test]
fn demographic_tier_thresholds() {
    // 25 + 25 + 50 = 100
    assert_eq!(calculate_tier(500_000, 80_000, 400_000), 1);
    assert_eq!(calculate_tier(10_000_000, 1_000_000, 9_000_000), 1);
    // 25 + 25 + 30 = 80
    assert_eq!(calculate_tier(500_000, 80_000, 240_000), 1);
    // 79.99... truncates to 79
    assert_eq!(calculate_tier(500_000, 80_000, 239_999), 2);
    // 25 + 25 + 10 = 60
    assert_eq!(calculate_tier(500_000, 80_000, 80_000), 2);
    // 25 + 15 = 40
    assert_eq!(calculate_tier(500_000, 48_000, 0), 3);
    // 20
    assert_eq!(calculate_tier(400_000, 0, 0), 4);
    assert_eq!(calculate_tier(399_999, 0, 0), 5);
    assert_eq!(calculate_tier(0, 0, 0), 5);
    assert_eq!(calculate_tier(i64::MIN, i64::MIN, i64::MIN), 5);
    // -25 + 25 + 50 = 50
    assert_eq!(calculate_tier(-500_000, 80_000, 400_000), 3);
}

#[test]
fn counties_of_one_state_keep_their_order() {
    let all = vec![
        county("Ada", "ID", 1),
        county("King", "WA", 1),
        county("Canyon", "ID", 2),
        county("Pierce", "WA", 1),
    ];
    let idaho = state_counties(all, "id");
    let names: Vec<&str> = idaho.iter().map(|c| c.name.as_str()).collect();
    assert_eq!(names, vec!["Ada", "Canyon"]);
    let none = counties_with_state(vec![county("Ada", "ID", 1)], "id");
    assert!(none.is_empty());
}

#[test]
fn platforms_listed() {
    let p = get_platforms();
    assert_eq!(p.len(), 6);
    assert_eq!(p[0].name, "Bid4Assets");
    assert_eq!(p[5].name, "CivicSource");
    assert_eq!(p[5].states_covered, vec!["LA".to_string()]);
    assert!(p.iter().all(|x| x.registration_required));
    assert_eq!(p[0].auction_types.len(), 3);
}

#[test]
fn schedule_lookup_any_case() {
    let fl = get_state_schedule("fl").unwrap();
    assert_eq!(fl.state, "FL");
    let tx = get_state_schedule("Tx").unwrap();
    assert_eq!(tx.state, "TX");
    assert!(get_state_schedule("ZZ").is_none());
    assert!(schedule_for("fl").is_none());
    assert_eq!(schedule_for("AL").unwrap().sale_type, "Tax Lien");
}

#[test]
fn all_schedules_cover_every_jurisdiction() {
    let all = get_all_schedules();
    assert_eq!(all.len(), 51);
    let mut codes: Vec<String> = all.iter().map(|s| s.state.clone()).collect();
    codes.sort();
    codes.dedup();
    assert_eq!(codes.len(), 51);
}

#[test]
fn state_info_by_code() {
    let az = state_info("az").unwrap();
    assert_eq!(az.abbr, "AZ");
    assert_eq!(az.name, "Arizona");
    assert_eq!(az.sale_type, "Lien");
    assert_eq!(az.interest_rate, "16%");
    assert_eq!(az.redemption_period, "3 years");
    assert_eq!(az.notes, "Bid-down process; max 16% simple interest");
    assert!(state_info("XX").is_none());
    assert!(state_info_for("az").is_none());
    assert_eq!(state_info_for("DC").unwrap().name, "District of Columbia");
}

#[test]
fn state_info_sorted_by_name_and_filtered() {
    let all = all_state_info();
    assert_eq!(all.len(), 51);
    for w in all.windows(2) {
        assert!(w[0].name < w[1].name);
    }
    let liens = list_state_info(Some("LIEN"));
    assert_eq!(liens.len(), 26);
    assert!(liens.iter().all(|s| s.sale_type == "Lien"));
    let deeds = list_state_info(Some("deed"));
    assert_eq!(deeds.len(), 25);
    assert_eq!(list_state_info(None).len(), 51);
    assert!(list_state_info(Some("auction")).is_empty());
    assert_eq!(state_info_with_type("deed").len(), 25);
    assert!(state_info_with_type("Deed").is_empty());
}

#[test]
fn state_codes_sorted() {
    let codes = state_codes();
    assert_eq!(codes.len(), 51);
    assert_eq!(codes[0], "AK");
    assert_eq!(codes[50], "WY");
    for w in codes.windows(2) {
        assert!(w[0] < w[1]);
    }
}

#[test]
fn health_reports_status() {
    let h = health();
    assert_eq!(h.status, "healthy");
    assert_eq!(h.version, "1.0.0");
    assert_eq!(h.endpoints.len(), 6);
    assert_eq!(h.endpoints[5], "/api/analyze");
}

#[test]
fn indicator_metadata_entries() {
    let m = get_indicator_metadata();
    assert_eq!(m.len(), 7);
    assert_eq!(m[0], (SERIES_MORTGAGE_30YR, ("30-Year Fixed Mortgage", "%")));
    assert!(m.contains(&(SERIES_HOUSING_STARTS, ("Housing Starts", "M units"))));
}
