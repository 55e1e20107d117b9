//! County records of the statistics bureau and their coarse investment
//! tier.
use vstd::prelude::*;
use std::collections::HashMap;
use vstd::string::StringExecFns;
use crate::text::{
    before_first, first_piece, i64_of, parse_i64, replace, replace_all, to_upper, trim,
    trim_spaces, upper_of,
};

verus! {

/// One county as the statistics bureau reports it, with its tier.
#[derive(Clone, Debug)]
pub struct CountyCensusData {
    pub name: String,
    pub state: String,
    pub fips: String,
    pub population: i64,
    pub median_income: i64,
    pub median_home_value: i64,
    pub total_housing_units: i64,
    pub vacant_units: i64,
    pub tier: i32,
}

/// Demographic scores are held exactly in units of 1/80,000 of a point.
pub const DEMOGRAPHIC_UNITS_PER_POINT: i128 = 80_000;

pub open spec fn cap(x: int, limit: int) -> int {
    if x <= limit { x } else { limit }
}

/// Population (weight 25, full at 500,000), income (weight 25, full at
/// 80,000) and home value (weight 50, full at 400,000), in score units.
/// Values over a threshold count as the threshold; values below zero are
/// not raised.
pub open spec fn demographic_units(population: int, income: int, home_value: int) -> int {
    25 * DEMOGRAPHIC_UNITS_PER_POINT * cap(population, 500_000) / 500_000 + 25
        * DEMOGRAPHIC_UNITS_PER_POINT * cap(income, 80_000) / 80_000 + 50
        * DEMOGRAPHIC_UNITS_PER_POINT * cap(home_value, 400_000) / 400_000
}

/// The score in whole points, its fraction dropped (rounded toward zero).
pub open spec fn demographic_points(population: int, income: int, home_value: int) -> int {
    let u = demographic_units(population, income, home_value);
    if u >= 0 {
        u / DEMOGRAPHIC_UNITS_PER_POINT as int
    } else {
        -((-u) / DEMOGRAPHIC_UNITS_PER_POINT as int)
    }
}

/// Tier of whole points: 80..=100 is 1, 60..=79 is 2, 40..=59 is 3,
/// 20..=39 is 4, anything else 5.
pub open spec fn tier_of_points(points: int) -> i32 {
    if 80 <= points <= 100 {
        1
    } else if 60 <= points <= 79 {
        2
    } else if 40 <= points <= 59 {
        3
    } else if 20 <= points <= 39 {
        4
    } else {
        5
    }
}

pub open spec fn demographic_tier(population: int, income: int, home_value: int) -> i32 {
    tier_of_points(demographic_points(population, income, home_value))
}

proof fn lemma_demographic_closed_form(population: int, income: int, home_value: int)
    ensures
        demographic_units(population, income, home_value) == 4 * cap(population, 500_000) + 25
            * cap(income, 80_000) + 10 * cap(home_value, 400_000),
{
    let p = cap(population, 500_000);
    let i = cap(income, 80_000);
    let h = cap(home_value, 400_000);
    vstd::arithmetic::div_mod::lemma_div_multiples_vanish(4 * p, 500_000);
    vstd::arithmetic::div_mod::lemma_div_multiples_vanish(25 * i, 80_000);
    vstd::arithmetic::div_mod::lemma_div_multiples_vanish(10 * h, 400_000);
    assert(500_000 * (4 * p) == 2_000_000 * p);
    assert(80_000 * (25 * i) == 2_000_000 * i);
    assert(400_000 * (10 * h) == 4_000_000 * h);
    assert(25 * DEMOGRAPHIC_UNITS_PER_POINT == 2_000_000);
    assert(50 * DEMOGRAPHIC_UNITS_PER_POINT == 4_000_000);
}

/// The demographic tier of a county, from 1 (prime) to 5 (avoid).
pub fn calculate_tier(population: i64, income: i64, home_value: i64) -> (r: i32)
    ensures
        r == demographic_tier(population as int, income as int, home_value as int),
        1 <= r <= 5,
{
    let p: i128 = if population <= 500_000 { population as i128 } else { 500_000 };
    let i: i128 = if income <= 80_000 { income as i128 } else { 80_000 };
    let h: i128 = if home_value <= 400_000 { home_value as i128 } else { 400_000 };
    let units: i128 = 4 * p + 25 * i + 10 * h;
    proof {
        lemma_demographic_closed_form(population as int, income as int, home_value as int);
    }
    let points: i128 = if units >= 0 {
        units / DEMOGRAPHIC_UNITS_PER_POINT
    } else {
        -((-units) / DEMOGRAPHIC_UNITS_PER_POINT)
    };
    if 80 <= points && points <= 100 {
        1
    } else if 60 <= points && points <= 79 {
        2
    } else if 40 <= points && points <= 59 {
        3
    } else if 20 <= points && points <= 39 {
        4
    } else {
        5
    }
}

pub open spec fn in_state(key: Seq<char>) -> spec_fn(CountyCensusData) -> bool {
    |c: CountyCensusData| c.state@ == key
}

/// The counties whose state is `key`, in their order.
pub fn counties_with_state(counties: Vec<CountyCensusData>, key: &str) -> (r: Vec<
    CountyCensusData,
>)
    ensures
        r@ == counties@.filter(in_state(key@)),
{
    let ghost all = counties@;
    let wanted = String::from_str(key);
    let mut r: Vec<CountyCensusData> = Vec::new();
    for c in it: counties.into_iter()
        invariant
            it.seq() == all,
            wanted@ == key@,
            r@ == all.take(it.index() as int).filter(in_state(key@)),
    {
        proof {
            let n = it.index() as int;
            assert(all.take(n + 1).drop_last() =~= all.take(n));
            reveal(Seq::filter);
        }
        if c.state == wanted {
            r.push(c);
        }
    }
    proof {
        assert(all.take(all.len() as int) =~= all);
    }
    r
}

/// The counties of one state, the state given in any case.
pub fn state_counties(counties: Vec<CountyCensusData>, state_abbr: &str) -> (r: Vec<
    CountyCensusData,
>)
    ensures
        r@ == counties@.filter(in_state(upper_of(state_abbr@))),
{
    let key = to_upper(state_abbr);
    counties_with_state(counties, key.as_str())
}

/// What a `CountyCensusData` holds.
pub struct CountyView {
    pub name: Seq<char>,
    pub state: Seq<char>,
    pub fips: Seq<char>,
    pub population: int,
    pub median_income: int,
    pub median_home_value: int,
    pub total_housing_units: int,
    pub vacant_units: int,
    pub tier: int,
}

impl View for CountyCensusData {
    type V = CountyView;

    open spec fn view(&self) -> CountyView {
        CountyView {
            name: self.name@,
            state: self.state@,
            fips: self.fips@,
            population: self.population as int,
            median_income: self.median_income as int,
            median_home_value: self.median_home_value as int,
            total_housing_units: self.total_housing_units as int,
            vacant_units: self.vacant_units as int,
            tier: self.tier as int,
        }
    }
}

/// State code and two-digit FIPS code of each jurisdiction.
pub open spec fn fips_rows() -> Seq<(Seq<char>, Seq<char>)> {
    seq![
        ("AL"@, "01"@),
        ("AK"@, "02"@),
        ("AZ"@, "04"@),
        ("AR"@, "05"@),
        ("CA"@, "06"@),
        ("CO"@, "08"@),
        ("CT"@, "09"@),
        ("DE"@, "10"@),
        ("DC"@, "11"@),
        ("FL"@, "12"@),
        ("GA"@, "13"@),
        ("HI"@, "15"@),
        ("ID"@, "16"@),
        ("IL"@, "17"@),
        ("IN"@, "18"@),
        ("IA"@, "19"@),
        ("KS"@, "20"@),
        ("KY"@, "21"@),
        ("LA"@, "22"@),
        ("ME"@, "23"@),
        ("MD"@, "24"@),
        ("MA"@, "25"@),
        ("MI"@, "26"@),
        ("MN"@, "27"@),
        ("MS"@, "28"@),
        ("MO"@, "29"@),
        ("MT"@, "30"@),
        ("NE"@, "31"@),
        ("NV"@, "32"@),
        ("NH"@, "33"@),
        ("NJ"@, "34"@),
        ("NM"@, "35"@),
        ("NY"@, "36"@),
        ("NC"@, "37"@),
        ("ND"@, "38"@),
        ("OH"@, "39"@),
        ("OK"@, "40"@),
        ("OR"@, "41"@),
        ("PA"@, "42"@),
        ("RI"@, "44"@),
        ("SC"@, "45"@),
        ("SD"@, "46"@),
        ("TN"@, "47"@),
        ("TX"@, "48"@),
        ("UT"@, "49"@),
        ("VT"@, "50"@),
        ("VA"@, "51"@),
        ("WA"@, "53"@),
        ("WV"@, "54"@),
        ("WI"@, "55"@),
        ("WY"@, "56"@),
    ]
}

/// The state of the first row of `rows` whose FIPS code is `code`.
pub open spec fn state_of_fips(rows: Seq<(Seq<char>, Seq<char>)>, code: Seq<char>) -> Option<
    Seq<char>,
>
    decreases rows.len(),
{
    if rows.len() == 0 {
        None
    } else if rows[0].1 == code {
        Some(rows[0].0)
    } else {
        state_of_fips(rows.skip(1), code)
    }
}

/// A county's name as the bureau writes it ("Travis County, Texas"), cut
/// to its own name ("Travis").
pub open spec fn county_name_of(field: Seq<char>) -> Seq<char> {
    trim_spaces(
        replace_all(
            replace_all(replace_all(first_piece(field, ','), " County"@, ""@), " Parish"@, ""@),
            " Borough"@,
            ""@,
        ),
    )
}

pub open spec fn number_or_zero(s: Seq<char>) -> int {
    match i64_of(s) {
        Some(v) => v,
        None => 0,
    }
}

/// The county that a data row of the bureau's table describes: name,
/// population, income, home value, housing units, vacant units, state FIPS
/// and county FIPS, in that order. Rows that are short, name an unknown
/// state, have no population or a negative income describe none.
pub open spec fn county_of_row(row: Seq<Seq<char>>) -> Option<CountyView> {
    if row.len() < 8 {
        None
    } else {
        match state_of_fips(fips_rows(), row[6]) {
            None => None,
            Some(state) => {
                let population = number_or_zero(row[1]);
                let income = number_or_zero(row[2]);
                let home_value = number_or_zero(row[3]);
                if population == 0 || income < 0 {
                    None
                } else {
                    Some(
                        CountyView {
                            name: county_name_of(row[0]),
                            state,
                            fips: row[6] + row[7],
                            population,
                            median_income: income,
                            median_home_value: home_value,
                            total_housing_units: number_or_zero(row[4]),
                            vacant_units: number_or_zero(row[5]),
                            tier: demographic_tier(population, income, home_value) as int,
                        },
                    )
                }
            },
        }
    }
}

pub open spec fn row_view(row: Vec<String>) -> Seq<Seq<char>> {
    row@.map_values(|s: String| s@)
}

fn fips_table() -> (r: Vec<(String, String)>)
    ensures
        r@.map_values(|e: (String, String)| (e.0@, e.1@)) == fips_rows(),
{
    let mut r: Vec<(String, String)> = Vec::new();
    r.push((String::from_str("AL"), String::from_str("01")));
    r.push((String::from_str("AK"), String::from_str("02")));
    r.push((String::from_str("AZ"), String::from_str("04")));
    r.push((String::from_str("AR"), String::from_str("05")));
    r.push((String::from_str("CA"), String::from_str("06")));
    r.push((String::from_str("CO"), String::from_str("08")));
    r.push((String::from_str("CT"), String::from_str("09")));
    r.push((String::from_str("DE"), String::from_str("10")));
    r.push((String::from_str("DC"), String::from_str("11")));
    r.push((String::from_str("FL"), String::from_str("12")));
    r.push((String::from_str("GA"), String::from_str("13")));
    r.push((String::from_str("HI"), String::from_str("15")));
    r.push((String::from_str("ID"), String::from_str("16")));
    r.push((String::from_str("IL"), String::from_str("17")));
    r.push((String::from_str("IN"), String::from_str("18")));
    r.push((String::from_str("IA"), String::from_str("19")));
    r.push((String::from_str("KS"), String::from_str("20")));
    r.push((String::from_str("KY"), String::from_str("21")));
    r.push((String::from_str("LA"), String::from_str("22")));
    r.push((String::from_str("ME"), String::from_str("23")));
    r.push((String::from_str("MD"), String::from_str("24")));
    r.push((String::from_str("MA"), String::from_str("25")));
    r.push((String::from_str("MI"), String::from_str("26")));
    r.push((String::from_str("MN"), String::from_str("27")));
    r.push((String::from_str("MS"), String::from_str("28")));
    r.push((String::from_str("MO"), String::from_str("29")));
    r.push((String::from_str("MT"), String::from_str("30")));
    r.push((String::from_str("NE"), String::from_str("31")));
    r.push((String::from_str("NV"), String::from_str("32")));
    r.push((String::from_str("NH"), String::from_str("33")));
    r.push((String::from_str("NJ"), String::from_str("34")));
    r.push((String::from_str("NM"), String::from_str("35")));
    r.push((String::from_str("NY"), String::from_str("36")));
    r.push((String::from_str("NC"), String::from_str("37")));
    r.push((String::from_str("ND"), String::from_str("38")));
    r.push((String::from_str("OH"), String::from_str("39")));
    r.push((String::from_str("OK"), String::from_str("40")));
    r.push((String::from_str("OR"), String::from_str("41")));
    r.push((String::from_str("PA"), String::from_str("42")));
    r.push((String::from_str("RI"), String::from_str("44")));
    r.push((String::from_str("SC"), String::from_str("45")));
    r.push((String::from_str("SD"), String::from_str("46")));
    r.push((String::from_str("TN"), String::from_str("47")));
    r.push((String::from_str("TX"), String::from_str("48")));
    r.push((String::from_str("UT"), String::from_str("49")));
    r.push((String::from_str("VT"), String::from_str("50")));
    r.push((String::from_str("VA"), String::from_str("51")));
    r.push((String::from_str("WA"), String::from_str("53")));
    r.push((String::from_str("WV"), String::from_str("54")));
    r.push((String::from_str("WI"), String::from_str("55")));
    r.push((String::from_str("WY"), String::from_str("56")));
    assert(r@.map_values(|e: (String, String)| (e.0@, e.1@)) =~= fips_rows());
    r
}

/// The state whose FIPS code is `code`.
pub fn state_for_fips(code: &str) -> (r: Option<String>)
    ensures
        r matches Some(s) ==> state_of_fips(fips_rows(), code@) == Some(s@),
        r is None ==> state_of_fips(fips_rows(), code@) is None,
{
    let table = fips_table();
    let ghost rows = fips_rows();
    let wanted = String::from_str(code);
    let mut i: usize = 0;
    assert(rows.skip(0) =~= rows);
    while i < table.len()
        invariant
            table@.map_values(|e: (String, String)| (e.0@, e.1@)) == rows,
            rows == fips_rows(),
            i <= table.len(),
            wanted@ == code@,
            state_of_fips(rows, code@) == state_of_fips(rows.skip(i as int), code@),
        decreases table.len() - i,
    {
        proof {
            assert(rows.skip(i as int)[0] == rows[i as int]);
            assert(rows.skip(i as int).skip(1) =~= rows.skip(i + 1));
        }
        if table[i].1 == wanted {
            return Some(table[i].0.clone());
        }
        i += 1;
    }
    None
}

fn number_or_zero_of(s: &str) -> (r: i64)
    ensures
        r == number_or_zero(s@),
{
    match parse_i64(s) {
        Some(v) => v,
        None => 0,
    }
}

/// The county a data row of the bureau's table describes, if any.
pub fn county_from_row(row: &Vec<String>) -> (r: Option<CountyCensusData>)
    ensures
        r matches Some(c) ==> county_of_row(row_view(*row)) == Some(c@),
        r is None ==> county_of_row(row_view(*row)) is None,
{
    let ghost v = row_view(*row);
    if row.len() < 8 {
        return None;
    }
    assert(forall|i: int| 0 <= i < row@.len() ==> v[i] == (#[trigger] row@[i])@);
    let state = match state_for_fips(row[6].as_str()) {
        Some(s) => s,
        None => return None,
    };
    let population = number_or_zero_of(row[1].as_str());
    let income = number_or_zero_of(row[2].as_str());
    let home_value = number_or_zero_of(row[3].as_str());
    if population == 0 || income < 0 {
        return None;
    }
    let first = before_first(row[0].as_str(), ',');
    proof {
        reveal_strlit(" County");
        reveal_strlit(" Parish");
        reveal_strlit(" Borough");
    }
    let a = replace(first.as_str(), " County", "");
    let b = replace(a.as_str(), " Parish", "");
    let c = replace(b.as_str(), " Borough", "");
    let name = trim(c.as_str());
    let fips = row[6].clone().concat(row[7].as_str());
    let tier = calculate_tier(population, income, home_value);
    Some(
        CountyCensusData {
            name,
            state,
            fips,
            population,
            median_income: income,
            median_home_value: home_value,
            total_housing_units: number_or_zero_of(row[4].as_str()),
            vacant_units: number_or_zero_of(row[5].as_str()),
            tier,
        },
    )
}

/// The counties that the data rows of the bureau's table describe, the
/// first row (the header) left out, in row order.
pub fn counties_from_rows(rows: &Vec<Vec<String>>) -> (r: Vec<CountyCensusData>)
    ensures
        rows@.len() == 0 ==> r@.len() == 0,
        rows@.len() > 0 ==> r@.map_values(|c: CountyCensusData| c@) == rows@.map_values(
            |row: Vec<String>| row_view(row),
        ).skip(1).filter_map(|row: Seq<Seq<char>>| county_of_row(row)),
{
    let ghost all = rows@.map_values(|row: Vec<String>| row_view(row));
    let mut r: Vec<CountyCensusData> = Vec::new();
    if rows.len() == 0 {
        return r;
    }
    let ghost data = all.skip(1);
    let mut i: usize = 1;
    while i < rows.len()
        invariant
            1 <= i <= rows.len(),
            all == rows@.map_values(|row: Vec<String>| row_view(row)),
            data == all.skip(1),
            r@.map_values(|c: CountyCensusData| c@) == data.take(i - 1).filter_map(
                |row: Seq<Seq<char>>| county_of_row(row),
            ),
        decreases rows.len() - i,
    {
        proof {
            data.lemma_filter_map_take_succ(|row: Seq<Seq<char>>| county_of_row(row), i - 1);
            assert(data[i - 1] == row_view(rows@[i as int]));
        }
        let ghost before = r@;
        match county_from_row(&rows[i]) {
            Some(c) => {
                r.push(c);
                assert(r@.map_values(|c: CountyCensusData| c@) =~= before.map_values(
                    |c: CountyCensusData| c@,
                ) + seq![c@]);
            },
            None => {},
        }
        i += 1;
    }
    proof {
        assert(data.take(data.len() as int) =~= data);
    }
    r
}

/// Whether county data fetched `elapsed_secs` seconds ago may still be
/// served: it is kept for a day.
pub fn census_cache_fresh(elapsed_secs: u64) -> (r: bool)
    ensures
        r == (elapsed_secs < 86_400),
{
    elapsed_secs < 86_400
}

pub open spec fn with_tier(t: i32) -> spec_fn(CountyCensusData) -> bool {
    |c: CountyCensusData| c.tier == t
}

/// How many of `s` have tier `t`.
pub open spec fn tier_count(s: Seq<CountyCensusData>, t: i32) -> nat {
    s.filter(with_tier(t)).len()
}

proof fn lemma_tier_count_step(s: Seq<CountyCensusData>, i: int, t: i32)
    requires
        0 <= i < s.len(),
    ensures
        tier_count(s.take(i + 1), t) == tier_count(s.take(i), t) + if s[i].tier == t {
            1int
        } else {
            0int
        },
{
    assert(s.take(i + 1).drop_last() =~= s.take(i));
    reveal(Seq::filter);
}

/// How many counties there are of each tier that occurs.
pub fn count_by_tier(counties: &Vec<CountyCensusData>) -> (r: HashMap<i32, usize>)
    ensures
        forall|t: i32|
            r@.contains_key(t) <==> exists|j: int|
                0 <= j < counties@.len() && (#[trigger] counties@[j]).tier == t,
        forall|t: i32| #[trigger] r@.contains_key(t) ==> r@[t] == tier_count(counties@, t),
{
    broadcast use vstd::std_specs::hash::group_hash_axioms;
    let ghost s = counties@;
    let mut r: HashMap<i32, usize> = HashMap::new();
    let mut i: usize = 0;
    while i < counties.len()
        invariant
            s == counties@,
            i <= s.len(),
            forall|t: i32|
                r@.contains_key(t) <==> exists|j: int| 0 <= j < i && (#[trigger] s[j]).tier == t,
            forall|t: i32| #[trigger] r@.contains_key(t) ==> r@[t] == tier_count(s.take(i as int), t),
            forall|t: i32| #[trigger] r@.contains_key(t) ==> r@[t] <= i,
        decreases s.len() - i,
    {
        let t = counties[i].tier;
        proof {
            assert forall|u: i32| true implies tier_count(s.take(i + 1), u) == tier_count(
                s.take(i as int),
                u,
            ) + if s[i as int].tier == u {
                1int
            } else {
                0int
            } by {
                lemma_tier_count_step(s, i as int, u);
            }
        }
        let n: usize = match r.get(&t) {
            Some(c) => *c,
            None => 0,
        };
        proof {
            if !r@.contains_key(t) {
                assert forall|j: int| 0 <= j < i implies s[j].tier != t by {
                    if s[j].tier == t {
                        assert(r@.contains_key(s[j].tier));
                    }
                }
                assert(tier_count(s.take(i as int), t) == 0) by {
                    let f = s.take(i as int).filter(with_tier(t));
                    if f.len() > 0 {
                        s.take(i as int).lemma_filter_contains_rev(with_tier(t), f[0]);
                        s.take(i as int).filter_lemma(with_tier(t));
                    }
                }
            }
        }
        r.insert(t, n + 1);
        i += 1;
    }
    proof {
        assert(s.take(s.len() as int) =~= s);
    }
    r
}


pub open spec fn state_of(c: CountyCensusData) -> Seq<char> {
    c.state@
}

/// The distinct values of `s`, each where it first occurs.
pub open spec fn first_occurrences(s: Seq<Seq<char>>) -> Seq<Seq<char>>
    decreases s.len(),
{
    if s.len() == 0 {
        Seq::empty()
    } else {
        let before = first_occurrences(s.drop_last());
        if before.contains(s.last()) {
            before
        } else {
            before.push(s.last())
        }
    }
}

/// How many of `s` have state `key`.
pub open spec fn state_count(s: Seq<CountyCensusData>, key: Seq<char>) -> nat {
    s.filter(in_state(key)).len()
}

proof fn lemma_state_count_step(s: Seq<CountyCensusData>, i: int, key: Seq<char>)
    requires
        0 <= i < s.len(),
    ensures
        state_count(s.take(i + 1), key) == state_count(s.take(i), key) + if s[i].state@ == key {
            1int
        } else {
            0int
        },
{
    assert(s.take(i + 1).drop_last() =~= s.take(i));
    reveal(Seq::filter);
}

/// Where `key` stands among the states of `r`, or `r.len()` if nowhere.
fn position_of(r: &Vec<(String, usize)>, key: &String) -> (k: usize)
    ensures
        k <= r@.len(),
        k < r@.len() ==> r@[k as int].0@ == key@,
        k == r@.len() ==> forall|a: int| 0 <= a < r@.len() ==> (#[trigger] r@[a]).0@ != key@,
{
    let mut k: usize = 0;
    while k < r.len()
        invariant
            k <= r@.len(),
            forall|a: int| 0 <= a < k ==> (#[trigger] r@[a]).0@ != key@,
        decreases r@.len() - k,
    {
        if r[k].0 == *key {
            return k;
        }
        k += 1;
    }
    k
}

pub open spec fn entry_state(e: (String, usize)) -> Seq<char> {
    e.0@
}

/// How many counties there are of each state that occurs: one entry per
/// state, in the order the states first occur.
pub fn count_by_state(counties: &Vec<CountyCensusData>) -> (r: Vec<(String, usize)>)
    ensures
        r@.map_values(|e: (String, usize)| entry_state(e)) == first_occurrences(
            counties@.map_values(|c: CountyCensusData| state_of(c)),
        ),
        forall|a: int|
            0 <= a < r@.len() ==> (#[trigger] r@[a]).1 == state_count(counties@, r@[a].0@),
{
    let ghost s = counties@;
    let ghost states = s.map_values(|c: CountyCensusData| state_of(c));
    let mut r: Vec<(String, usize)> = Vec::new();
    let mut i: usize = 0;
    while i < counties.len()
        invariant
            s == counties@,
            states == s.map_values(|c: CountyCensusData| state_of(c)),
            i <= s.len(),
            r@.map_values(|e: (String, usize)| entry_state(e)) == first_occurrences(
                states.take(i as int),
            ),
            forall|a: int|
                0 <= a < r@.len() ==> (#[trigger] r@[a]).1 == state_count(
                    s.take(i as int),
                    r@[a].0@,
                ),
            forall|a: int| 0 <= a < r@.len() ==> (#[trigger] r@[a]).1 <= i,
        decreases s.len() - i,
    {
        let ghost ii = i as int;
        let ghost keys = r@.map_values(|e: (String, usize)| entry_state(e));
        let k = position_of(&r, &counties[i].state);
        proof {
            assert(states.take(ii + 1).drop_last() =~= states.take(ii));
            assert(states.take(ii + 1).last() == s[ii].state@);
            assert forall|key: Seq<char>| true implies state_count(s.take(ii + 1), key)
                == state_count(s.take(ii), key) + if s[ii].state@ == key {
                1int
            } else {
                0int
            } by {
                lemma_state_count_step(s, ii, key);
            }
        }
        let ghost before = r@;
        if k < r.len() {
            proof {
                assert(keys[k as int] == s[ii].state@);
                assert(keys.contains(s[ii].state@));
                lemma_first_occurrences_distinct(states.take(ii));
            }
            let n = r[k].1;
            let key = r[k].0.clone();
            r.set(k, (key, n + 1));
            proof {
                assert(r@.map_values(|e: (String, usize)| entry_state(e)) =~= keys);
                assert forall|a: int| 0 <= a < r@.len() implies (#[trigger] r@[a]).1
                    == state_count(s.take(ii + 1), r@[a].0@) by {
                    if a != k {
                        assert(r@[a] == before[a]);
                        assert(keys[a] == before[a].0@);
                        assert(keys[a] != keys[k as int]);
                    }
                }
            }
        } else {
            proof {
                assert(!keys.contains(s[ii].state@)) by {
                    if keys.contains(s[ii].state@) {
                        let a = choose|a: int| 0 <= a < keys.len() && keys[a] == s[ii].state@;
                        assert(before[a].0@ == s[ii].state@);
                    }
                }
            }
            let key = counties[i].state.clone();
            proof {
                assert(state_count(s.take(ii), key@) == 0) by {
                    let f = s.take(ii).filter(in_state(key@));
                    if f.len() > 0 {
                        s.take(ii).lemma_filter_contains_rev(in_state(key@), f[0]);
                        s.take(ii).filter_lemma(in_state(key@));
                        let j = choose|j: int| 0 <= j < ii && s.take(ii)[j] == f[0];
                        assert(states.take(ii)[j] == key@);
                        lemma_first_occurrences_contains(states.take(ii), j);
                    }
                }
            }
            r.push((key, 1));
            proof {
                assert(r@.map_values(|e: (String, usize)| entry_state(e)) =~= keys.push(s[ii].state@));
                assert forall|a: int| 0 <= a < r@.len() implies (#[trigger] r@[a]).1
                    == state_count(s.take(ii + 1), r@[a].0@) by {
                    if a < before.len() {
                        assert(r@[a] == before[a]);
                        assert(keys[a] == before[a].0@);
                    }
                }
            }
        }
        i += 1;
    }
    proof {
        assert(s.take(s.len() as int) =~= s);
        assert(states.take(states.len() as int) =~= states);
    }
    r
}

/// No value stands twice among the first occurrences.
proof fn lemma_first_occurrences_distinct(s: Seq<Seq<char>>)
    ensures
        forall|a: int, b: int|
            0 <= a < b < first_occurrences(s).len() ==> first_occurrences(s)[a]
                != first_occurrences(s)[b],
    decreases s.len(),
{
    if s.len() > 0 {
        lemma_first_occurrences_distinct(s.drop_last());
        let before = first_occurrences(s.drop_last());
        if !before.contains(s.last()) {
            assert forall|a: int, b: int|
                0 <= a < b < before.len() + 1 implies before.push(s.last())[a] != before.push(
                s.last(),
            )[b] by {
                if b == before.len() {
                    assert(before.push(s.last())[a] == before[a]);
                }
            }
        }
    }
}

/// Every value of `s` is among its first occurrences.
proof fn lemma_first_occurrences_contains(s: Seq<Seq<char>>, j: int)
    requires
        0 <= j < s.len(),
    ensures
        first_occurrences(s).contains(s[j]),
    decreases s.len(),
{
    let before = first_occurrences(s.drop_last());
    if j < s.len() - 1 {
        lemma_first_occurrences_contains(s.drop_last(), j);
        assert(s.drop_last()[j] == s[j]);
        if !before.contains(s.last()) {
            let a = choose|a: int| 0 <= a < before.len() && before[a] == s[j];
            assert(before.push(s.last())[a] == s[j]);
        }
    } else {
        if !before.contains(s.last()) {
            assert(before.push(s.last())[before.len() as int] == s[j]);
        }
    }
}

} // verus!
