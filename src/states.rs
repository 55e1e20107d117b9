//! Tax-sale rules of each state, and the service's own status.
use vstd::prelude::*;
use vstd::string::StringExecFns;
use crate::text::{lower_of, to_lower, to_upper, upper_of};

verus! {

/// The kind of tax sale a state holds and its headline terms.
#[derive(Clone, Debug)]
pub struct StateAuctionInfo {
    pub abbr: String,
    pub name: String,
    pub sale_type: String,
    pub interest_rate: String,
    pub redemption_period: String,
    pub notes: String,
}

/// What the service reports of itself.
#[derive(Clone, Debug)]
pub struct HealthResponse {
    pub status: String,
    pub version: String,
    pub endpoints: Vec<String>,
}

/// What a `StateAuctionInfo` holds.
pub struct StateInfoView {
    pub abbr: Seq<char>,
    pub name: Seq<char>,
    pub sale_type: Seq<char>,
    pub interest_rate: Seq<char>,
    pub redemption_period: Seq<char>,
    pub notes: Seq<char>,
}

/// Every field of a record.
pub open spec fn row_of(s: StateAuctionInfo) -> StateInfoView {
    StateInfoView {
        abbr: s.abbr@,
        name: s.name@,
        sale_type: s.sale_type@,
        interest_rate: s.interest_rate@,
        redemption_period: s.redemption_period@,
        notes: s.notes@,
    }
}

/// The record of every jurisdiction (50 states and DC), in the order of
/// their names.
pub open spec fn state_rows() -> Seq<StateInfoView> {
    seq![
        StateInfoView {
            abbr: "AL"@,
            name: "Alabama"@,
            sale_type: "Lien"@,
            interest_rate: "12%"@,
            redemption_period: "3 years"@,
            notes: "Most sales May-June; 12% interest from date of sale"@,
        },
        StateInfoView {
            abbr: "AK"@,
            name: "Alaska"@,
            sale_type: "Deed"@,
            interest_rate: "N/A"@,
            redemption_period: "1 year"@,
            notes: "Municipal foreclosure; deeded to borough/city if unredeemed"@,
        },
        StateInfoView {
            abbr: "AZ"@,
            name: "Arizona"@,
            sale_type: "Lien"@,
            interest_rate: "16%"@,
            redemption_period: "3 years"@,
            notes: "Bid-down process; max 16% simple interest"@,
        },
        StateInfoView {
            abbr: "AR"@,
            name: "Arkansas"@,
            sale_type: "Deed"@,
            interest_rate: "N/A"@,
            redemption_period: "30 days"@,
            notes: "Forfeited to state; limited warranty deed after 30 days"@,
        },
        StateInfoView {
            abbr: "CA"@,
            name: "California"@,
            sale_type: "Deed"@,
            interest_rate: "N/A"@,
            redemption_period: "5 years (3 for some)"@,
            notes: "Tax Collector's Deed; free of pre-existing encumbrances"@,
        },
        StateInfoView {
            abbr: "CO"@,
            name: "Colorado"@,
            sale_type: "Lien"@,
            interest_rate: "Fed rate + 9pts"@,
            redemption_period: "3 years"@,
            notes: "Premium bidding; no premium reimbursement"@,
        },
        StateInfoView {
            abbr: "CT"@,
            name: "Connecticut"@,
            sale_type: "Lien"@,
            interest_rate: "18%"@,
            redemption_period: "6 months"@,
            notes: "Combined lien/deed format; larger towns only"@,
        },
        StateInfoView {
            abbr: "DE"@,
            name: "Delaware"@,
            sale_type: "Deed"@,
            interest_rate: "15%"@,
            redemption_period: "60 days"@,
            notes: "Judicial foreclosure; 15% penalty on redemption"@,
        },
        StateInfoView {
            abbr: "DC"@,
            name: "District of Columbia"@,
            sale_type: "Lien"@,
            interest_rate: "18%"@,
            redemption_period: "6 months - 1 year"@,
            notes: "Premium bidding; no interest on overbid"@,
        },
        StateInfoView {
            abbr: "FL"@,
            name: "Florida"@,
            sale_type: "Lien"@,
            interest_rate: "18%"@,
            redemption_period: "2 years"@,
            notes: "Bid-down; guaranteed 5% minimum return"@,
        },
        StateInfoView {
            abbr: "GA"@,
            name: "Georgia"@,
            sale_type: "Lien"@,
            interest_rate: "20-40%"@,
            redemption_period: "1 year"@,
            notes: "20% year 1; escalates to 30% after 2yrs, 40% after 3yrs"@,
        },
        StateInfoView {
            abbr: "HI"@,
            name: "Hawaii"@,
            sale_type: "Deed"@,
            interest_rate: "N/A"@,
            redemption_period: "1 year"@,
            notes: "3-year lien before auction; 1-year redemption after sale"@,
        },
        StateInfoView {
            abbr: "ID"@,
            name: "Idaho"@,
            sale_type: "Deed"@,
            interest_rate: "N/A"@,
            redemption_period: "3 years before deed"@,
            notes: "Tax deed to county after 3 years; then sold at auction"@,
        },
        StateInfoView {
            abbr: "IL"@,
            name: "Illinois"@,
            sale_type: "Lien"@,
            interest_rate: "18%"@,
            redemption_period: "2 years"@,
            notes: "Bid-down from 18%; graduated penalty redemption"@,
        },
        StateInfoView {
            abbr: "IN"@,
            name: "Indiana"@,
            sale_type: "Lien"@,
            interest_rate: "Graduated"@,
            redemption_period: "1 year"@,
            notes: "A/B/C Sales process; Commissioner's Sale for county-titled"@,
        },
        StateInfoView {
            abbr: "IA"@,
            name: "Iowa"@,
            sale_type: "Lien"@,
            interest_rate: "24%"@,
            redemption_period: "1 year 9 months"@,
            notes: "Bid least undivided ownership interest; highest rate"@,
        },
        StateInfoView {
            abbr: "KS"@,
            name: "Kansas"@,
            sale_type: "Deed"@,
            interest_rate: "N/A"@,
            redemption_period: "Court judgment"@,
            notes: "Bid off to county; court petition for foreclosure"@,
        },
        StateInfoView {
            abbr: "KY"@,
            name: "Kentucky"@,
            sale_type: "Lien"@,
            interest_rate: "12%"@,
            redemption_period: "1 year"@,
            notes: "12% interest from date of issuance"@,
        },
        StateInfoView {
            abbr: "LA"@,
            name: "Louisiana"@,
            sale_type: "Lien"@,
            interest_rate: "Bid-down"@,
            redemption_period: "3 years"@,
            notes: "2024-2025 reform: bid-down interest system; online now available"@,
        },
        StateInfoView {
            abbr: "ME"@,
            name: "Maine"@,
            sale_type: "Deed"@,
            interest_rate: "N/A"@,
            redemption_period: "18 months"@,
            notes: "Tax lien mortgage auto-forecloses after 18 months"@,
        },
        StateInfoView {
            abbr: "MD"@,
            name: "Maryland"@,
            sale_type: "Lien"@,
            interest_rate: "18-24%"@,
            redemption_period: "6 months"@,
            notes: "Statutory 6% but most counties charge 18-24%"@,
        },
        StateInfoView {
            abbr: "MA"@,
            name: "Massachusetts"@,
            sale_type: "Lien"@,
            interest_rate: "16%"@,
            redemption_period: "Collector's deed"@,
            notes: "Smallest undivided part auction; 16% rate"@,
        },
        StateInfoView {
            abbr: "MI"@,
            name: "Michigan"@,
            sale_type: "Deed"@,
            interest_rate: "N/A"@,
            redemption_period: "None after sale"@,
            notes: "Forfeit lands; auction 3rd Tuesday July; min bid = taxes + FMV"@,
        },
        StateInfoView {
            abbr: "MN"@,
            name: "Minnesota"@,
            sale_type: "Deed"@,
            interest_rate: "N/A"@,
            redemption_period: "None after sale"@,
            notes: "Tax-forfeited land auctions; cash or installment"@,
        },
        StateInfoView {
            abbr: "MS"@,
            name: "Mississippi"@,
            sale_type: "Lien"@,
            interest_rate: "18%"@,
            redemption_period: "2 years"@,
            notes: "Tax lien state"@,
        },
        StateInfoView {
            abbr: "MO"@,
            name: "Missouri"@,
            sale_type: "Lien"@,
            interest_rate: "10%"@,
            redemption_period: "2 years"@,
            notes: "10% interest; 18% penalty each year delinquent"@,
        },
        StateInfoView {
            abbr: "MT"@,
            name: "Montana"@,
            sale_type: "Lien"@,
            interest_rate: "10%"@,
            redemption_period: "2-3 years"@,
            notes: "5/6 of 1% per month (10% per annum)"@,
        },
        StateInfoView {
            abbr: "NE"@,
            name: "Nebraska"@,
            sale_type: "Lien"@,
            interest_rate: "14%"@,
            redemption_period: "3 years"@,
            notes: "Undivided interest at 14% per annum"@,
        },
        StateInfoView {
            abbr: "NV"@,
            name: "Nevada"@,
            sale_type: "Deed"@,
            interest_rate: "N/A"@,
            redemption_period: "2 years before deed"@,
            notes: "Tax deed to Treasurer after 2yr; then auction"@,
        },
        StateInfoView {
            abbr: "NH"@,
            name: "New Hampshire"@,
            sale_type: "Lien"@,
            interest_rate: "18%"@,
            redemption_period: "2 years"@,
            notes: "Auction for percentage of undivided interest"@,
        },
        StateInfoView {
            abbr: "NJ"@,
            name: "New Jersey"@,
            sale_type: "Lien"@,
            interest_rate: "18%"@,
            redemption_period: "2 years"@,
            notes: "Bid-down from 18%; active market"@,
        },
        StateInfoView {
            abbr: "NM"@,
            name: "New Mexico"@,
            sale_type: "Deed"@,
            interest_rate: "N/A"@,
            redemption_period: "120 days IRS only"@,
            notes: "No owner redemption; Quitclaim Deed issued"@,
        },
        StateInfoView {
            abbr: "NY"@,
            name: "New York"@,
            sale_type: "Deed"@,
            interest_rate: "N/A"@,
            redemption_period: "2-4 years"@,
            notes: "2yr standard; 3-4yr for residential/farm; judicial foreclosure"@,
        },
        StateInfoView {
            abbr: "NC"@,
            name: "North Carolina"@,
            sale_type: "Deed"@,
            interest_rate: "N/A"@,
            redemption_period: "Upset bid period"@,
            notes: "Judicial foreclosure or docketing certificate"@,
        },
        StateInfoView {
            abbr: "ND"@,
            name: "North Dakota"@,
            sale_type: "Deed"@,
            interest_rate: "Max 9%"@,
            redemption_period: "4 years"@,
            notes: "Bid-down from 9%; 4yr redemption from due date"@,
        },
        StateInfoView {
            abbr: "OH"@,
            name: "Ohio"@,
            sale_type: "Deed"@,
            interest_rate: "N/A"@,
            redemption_period: "None after sale"@,
            notes: "Judicial foreclosure after 2yr delinquent; Sheriff's sale"@,
        },
        StateInfoView {
            abbr: "OK"@,
            name: "Oklahoma"@,
            sale_type: "Lien"@,
            interest_rate: "8%"@,
            redemption_period: "2 years"@,
            notes: "Multiple bidders decided by random drawing"@,
        },
        StateInfoView {
            abbr: "OR"@,
            name: "Oregon"@,
            sale_type: "Deed"@,
            interest_rate: "N/A"@,
            redemption_period: "2 years before deed"@,
            notes: "Foreclosure after 3yr; sold to county; 2yr redemption"@,
        },
        StateInfoView {
            abbr: "PA"@,
            name: "Pennsylvania"@,
            sale_type: "Deed"@,
            interest_rate: "N/A"@,
            redemption_period: "None after sale"@,
            notes: "Upset Sale; min bid = taxes + interest + costs"@,
        },
        StateInfoView {
            abbr: "RI"@,
            name: "Rhode Island"@,
            sale_type: "Lien"@,
            interest_rate: "10% + 1%/mo"@,
            redemption_period: "1 year"@,
            notes: "Collector's Deed; 10% first 6mo, 1%/mo after"@,
        },
        StateInfoView {
            abbr: "SC"@,
            name: "South Carolina"@,
            sale_type: "Lien"@,
            interest_rate: "8% penalty"@,
            redemption_period: "1 year"@,
            notes: "Highest and best bidder wins"@,
        },
        StateInfoView {
            abbr: "SD"@,
            name: "South Dakota"@,
            sale_type: "Lien"@,
            interest_rate: "12% (max 10% bid)"@,
            redemption_period: "3-4 years"@,
            notes: "Bid-down from 10%; 12% statutory"@,
        },
        StateInfoView {
            abbr: "TN"@,
            name: "Tennessee"@,
            sale_type: "Deed"@,
            interest_rate: "N/A"@,
            redemption_period: "1 year"@,
            notes: "2yr delinquent before Chancery Court suit"@,
        },
        StateInfoView {
            abbr: "TX"@,
            name: "Texas"@,
            sale_type: "Deed"@,
            interest_rate: "25% penalty"@,
            redemption_period: "6mo-2yr"@,
            notes: "6mo non-Homestead; 2yr Homestead/Ag; 25% penalty"@,
        },
        StateInfoView {
            abbr: "UT"@,
            name: "Utah"@,
            sale_type: "Deed"@,
            interest_rate: "N/A"@,
            redemption_period: "4 years"@,
            notes: "Preliminary sale Jan 16; final sale May 4yr later"@,
        },
        StateInfoView {
            abbr: "VT"@,
            name: "Vermont"@,
            sale_type: "Deed"@,
            interest_rate: "N/A"@,
            redemption_period: "1 year"@,
            notes: "Foreclosure after 2yr; Collector's Deed after 1yr redemption"@,
        },
        StateInfoView {
            abbr: "VA"@,
            name: "Virginia"@,
            sale_type: "Deed"@,
            interest_rate: "N/A"@,
            redemption_period: "Surplus rights only"@,
            notes: "Judicial foreclosure; 3yr after due date; surplus to former owner"@,
        },
        StateInfoView {
            abbr: "WA"@,
            name: "Washington"@,
            sale_type: "Deed"@,
            interest_rate: "N/A"@,
            redemption_period: "3 years before sale"@,
            notes: "Certificate of delinquency after 3yr; foreclosure judgment"@,
        },
        StateInfoView {
            abbr: "WV"@,
            name: "West Virginia"@,
            sale_type: "Lien"@,
            interest_rate: "12%"@,
            redemption_period: "1 year"@,
            notes: "Highest bidder at public auction"@,
        },
        StateInfoView {
            abbr: "WI"@,
            name: "Wisconsin"@,
            sale_type: "Deed"@,
            interest_rate: "N/A"@,
            redemption_period: "2 years"@,
            notes: "Tax deed after 2yr certificate; county cannot sell certificate"@,
        },
        StateInfoView {
            abbr: "WY"@,
            name: "Wyoming"@,
            sale_type: "Lien"@,
            interest_rate: "15% + 3% penalty"@,
            redemption_period: "4 years"@,
            notes: "Longest redemption; 15% + 3% penalty + fees"@,
        },
    ]
}

/// The codes of all jurisdictions, in alphabetical order.
pub open spec fn state_code_list() -> Seq<Seq<char>> {
    seq![
        "AK"@,
        "AL"@,
        "AR"@,
        "AZ"@,
        "CA"@,
        "CO"@,
        "CT"@,
        "DC"@,
        "DE"@,
        "FL"@,
        "GA"@,
        "HI"@,
        "IA"@,
        "ID"@,
        "IL"@,
        "IN"@,
        "KS"@,
        "KY"@,
        "LA"@,
        "MA"@,
        "MD"@,
        "ME"@,
        "MI"@,
        "MN"@,
        "MO"@,
        "MS"@,
        "MT"@,
        "NC"@,
        "ND"@,
        "NE"@,
        "NH"@,
        "NJ"@,
        "NM"@,
        "NV"@,
        "NY"@,
        "OH"@,
        "OK"@,
        "OR"@,
        "PA"@,
        "RI"@,
        "SC"@,
        "SD"@,
        "TN"@,
        "TX"@,
        "UT"@,
        "VA"@,
        "VT"@,
        "WA"@,
        "WI"@,
        "WV"@,
        "WY"@,
    ]
}

pub open spec fn has_code(key: Seq<char>) -> bool {
    exists|i: int| 0 <= i < state_rows().len() && #[trigger] state_rows()[i].abbr == key
}

pub open spec fn of_type(lowered: Seq<char>) -> spec_fn(StateInfoView) -> bool {
    |row: StateInfoView| lower_of(row.sale_type) == lowered
}

/// `s` is the first row of the table whose code is `key`.
pub open spec fn is_row_for(s: StateAuctionInfo, key: Seq<char>) -> bool {
    exists|k: int|
        0 <= k < state_rows().len() && #[trigger] state_rows()[k] == row_of(s) && state_rows()[k].abbr
            == key && forall|j: int| 0 <= j < k ==> (#[trigger] state_rows()[j]).abbr != key
}

/// No two records are for the same code.
#[verifier::rlimit(100)]
pub proof fn lemma_state_codes_distinct()
    ensures
        forall|i: int, j: int|
            0 <= i < j < state_rows().len() ==> (#[trigger] state_rows()[i]).abbr
                != (#[trigger] state_rows()[j]).abbr,
{
    reveal_strlit("AL");
    reveal_strlit("AK");
    reveal_strlit("AZ");
    reveal_strlit("AR");
    reveal_strlit("CA");
    reveal_strlit("CO");
    reveal_strlit("CT");
    reveal_strlit("DE");
    reveal_strlit("DC");
    reveal_strlit("FL");
    reveal_strlit("GA");
    reveal_strlit("HI");
    reveal_strlit("ID");
    reveal_strlit("IL");
    reveal_strlit("IN");
    reveal_strlit("IA");
    reveal_strlit("KS");
    reveal_strlit("KY");
    reveal_strlit("LA");
    reveal_strlit("ME");
    reveal_strlit("MD");
    reveal_strlit("MA");
    reveal_strlit("MI");
    reveal_strlit("MN");
    reveal_strlit("MS");
    reveal_strlit("MO");
    reveal_strlit("MT");
    reveal_strlit("NE");
    reveal_strlit("NV");
    reveal_strlit("NH");
    reveal_strlit("NJ");
    reveal_strlit("NM");
    reveal_strlit("NY");
    reveal_strlit("NC");
    reveal_strlit("ND");
    reveal_strlit("OH");
    reveal_strlit("OK");
    reveal_strlit("OR");
    reveal_strlit("PA");
    reveal_strlit("RI");
    reveal_strlit("SC");
    reveal_strlit("SD");
    reveal_strlit("TN");
    reveal_strlit("TX");
    reveal_strlit("UT");
    reveal_strlit("VT");
    reveal_strlit("VA");
    reveal_strlit("WA");
    reveal_strlit("WV");
    reveal_strlit("WI");
    reveal_strlit("WY");
    assert forall|i: int, j: int|
        0 <= i < j < state_rows().len() implies (#[trigger] state_rows()[i]).abbr
            != (#[trigger] state_rows()[j]).abbr by {
        assert(state_rows()[i].abbr.len() == 2);
        assert(state_rows()[j].abbr.len() == 2);
        assert(state_rows()[i].abbr[0] != state_rows()[j].abbr[0]
            || state_rows()[i].abbr[1] != state_rows()[j].abbr[1]);
    }
}

/// Looking up the code of any listed record gives back that record whole.
pub proof fn lemma_state_lookup_is_listed(s: StateAuctionInfo, k: int)
    requires
        0 <= k < state_rows().len(),
        is_row_for(s, state_rows()[k].abbr),
    ensures
        row_of(s) == state_rows()[k],
{
    lemma_state_codes_distinct();
    let j = choose|j: int|
        0 <= j < state_rows().len() && #[trigger] state_rows()[j] == row_of(s)
            && state_rows()[j].abbr == state_rows()[k].abbr && forall|m: int|
            0 <= m < j ==> (#[trigger] state_rows()[m]).abbr != state_rows()[k].abbr;
    if j != k {
        if j < k {
            assert(state_rows()[j].abbr != state_rows()[k].abbr);
        } else {
            assert(state_rows()[k].abbr != state_rows()[j].abbr);
        }
    }
}

fn info(
    abbr: &str,
    name: &str,
    sale_type: &str,
    interest_rate: &str,
    redemption_period: &str,
    notes: &str,
) -> (r: StateAuctionInfo)
    ensures
        r.abbr@ == abbr@,
        r.name@ == name@,
        r.sale_type@ == sale_type@,
        r.interest_rate@ == interest_rate@,
        r.redemption_period@ == redemption_period@,
        r.notes@ == notes@,
{
    StateAuctionInfo {
        abbr: String::from_str(abbr),
        name: String::from_str(name),
        sale_type: String::from_str(sale_type),
        interest_rate: String::from_str(interest_rate),
        redemption_period: String::from_str(redemption_period),
        notes: String::from_str(notes),
    }
}

/// The records of every jurisdiction, in the order of their names.
pub fn all_state_info() -> (r: Vec<StateAuctionInfo>)
    ensures
        r@.map_values(|s: StateAuctionInfo| row_of(s)) == state_rows(),
{
    let mut r: Vec<StateAuctionInfo> = Vec::new();
    r.push(info("AL", "Alabama", "Lien", "12%", "3 years", "Most sales May-June; 12% interest from date of sale"));
    r.push(info("AK", "Alaska", "Deed", "N/A", "1 year", "Municipal foreclosure; deeded to borough/city if unredeemed"));
    r.push(info("AZ", "Arizona", "Lien", "16%", "3 years", "Bid-down process; max 16% simple interest"));
    r.push(info("AR", "Arkansas", "Deed", "N/A", "30 days", "Forfeited to state; limited warranty deed after 30 days"));
    r.push(info("CA", "California", "Deed", "N/A", "5 years (3 for some)", "Tax Collector's Deed; free of pre-existing encumbrances"));
    r.push(info("CO", "Colorado", "Lien", "Fed rate + 9pts", "3 years", "Premium bidding; no premium reimbursement"));
    r.push(info("CT", "Connecticut", "Lien", "18%", "6 months", "Combined lien/deed format; larger towns only"));
    r.push(info("DE", "Delaware", "Deed", "15%", "60 days", "Judicial foreclosure; 15% penalty on redemption"));
    r.push(info("DC", "District of Columbia", "Lien", "18%", "6 months - 1 year", "Premium bidding; no interest on overbid"));
    r.push(info("FL", "Florida", "Lien", "18%", "2 years", "Bid-down; guaranteed 5% minimum return"));
    r.push(info("GA", "Georgia", "Lien", "20-40%", "1 year", "20% year 1; escalates to 30% after 2yrs, 40% after 3yrs"));
    r.push(info("HI", "Hawaii", "Deed", "N/A", "1 year", "3-year lien before auction; 1-year redemption after sale"));
    r.push(info("ID", "Idaho", "Deed", "N/A", "3 years before deed", "Tax deed to county after 3 years; then sold at auction"));
    r.push(info("IL", "Illinois", "Lien", "18%", "2 years", "Bid-down from 18%; graduated penalty redemption"));
    r.push(info("IN", "Indiana", "Lien", "Graduated", "1 year", "A/B/C Sales process; Commissioner's Sale for county-titled"));
    r.push(info("IA", "Iowa", "Lien", "24%", "1 year 9 months", "Bid least undivided ownership interest; highest rate"));
    r.push(info("KS", "Kansas", "Deed", "N/A", "Court judgment", "Bid off to county; court petition for foreclosure"));
    r.push(info("KY", "Kentucky", "Lien", "12%", "1 year", "12% interest from date of issuance"));
    r.push(info("LA", "Louisiana", "Lien", "Bid-down", "3 years", "2024-2025 reform: bid-down interest system; online now available"));
    r.push(info("ME", "Maine", "Deed", "N/A", "18 months", "Tax lien mortgage auto-forecloses after 18 months"));
    r.push(info("MD", "Maryland", "Lien", "18-24%", "6 months", "Statutory 6% but most counties charge 18-24%"));
    r.push(info("MA", "Massachusetts", "Lien", "16%", "Collector's deed", "Smallest undivided part auction; 16% rate"));
    r.push(info("MI", "Michigan", "Deed", "N/A", "None after sale", "Forfeit lands; auction 3rd Tuesday July; min bid = taxes + FMV"));
    r.push(info("MN", "Minnesota", "Deed", "N/A", "None after sale", "Tax-forfeited land auctions; cash or installment"));
    r.push(info("MS", "Mississippi", "Lien", "18%", "2 years", "Tax lien state"));
    r.push(info("MO", "Missouri", "Lien", "10%", "2 years", "10% interest; 18% penalty each year delinquent"));
    r.push(info("MT", "Montana", "Lien", "10%", "2-3 years", "5/6 of 1% per month (10% per annum)"));
    r.push(info("NE", "Nebraska", "Lien", "14%", "3 years", "Undivided interest at 14% per annum"));
    r.push(info("NV", "Nevada", "Deed", "N/A", "2 years before deed", "Tax deed to Treasurer after 2yr; then auction"));
    r.push(info("NH", "New Hampshire", "Lien", "18%", "2 years", "Auction for percentage of undivided interest"));
    r.push(info("NJ", "New Jersey", "Lien", "18%", "2 years", "Bid-down from 18%; active market"));
    r.push(info("NM", "New Mexico", "Deed", "N/A", "120 days IRS only", "No owner redemption; Quitclaim Deed issued"));
    r.push(info("NY", "New York", "Deed", "N/A", "2-4 years", "2yr standard; 3-4yr for residential/farm; judicial foreclosure"));
    r.push(info("NC", "North Carolina", "Deed", "N/A", "Upset bid period", "Judicial foreclosure or docketing certificate"));
    r.push(info("ND", "North Dakota", "Deed", "Max 9%", "4 years", "Bid-down from 9%; 4yr redemption from due date"));
    r.push(info("OH", "Ohio", "Deed", "N/A", "None after sale", "Judicial foreclosure after 2yr delinquent; Sheriff's sale"));
    r.push(info("OK", "Oklahoma", "Lien", "8%", "2 years", "Multiple bidders decided by random drawing"));
    r.push(info("OR", "Oregon", "Deed", "N/A", "2 years before deed", "Foreclosure after 3yr; sold to county; 2yr redemption"));
    r.push(info("PA", "Pennsylvania", "Deed", "N/A", "None after sale", "Upset Sale; min bid = taxes + interest + costs"));
    r.push(info("RI", "Rhode Island", "Lien", "10% + 1%/mo", "1 year", "Collector's Deed; 10% first 6mo, 1%/mo after"));
    r.push(info("SC", "South Carolina", "Lien", "8% penalty", "1 year", "Highest and best bidder wins"));
    r.push(info("SD", "South Dakota", "Lien", "12% (max 10% bid)", "3-4 years", "Bid-down from 10%; 12% statutory"));
    r.push(info("TN", "Tennessee", "Deed", "N/A", "1 year", "2yr delinquent before Chancery Court suit"));
    r.push(info("TX", "Texas", "Deed", "25% penalty", "6mo-2yr", "6mo non-Homestead; 2yr Homestead/Ag; 25% penalty"));
    r.push(info("UT", "Utah", "Deed", "N/A", "4 years", "Preliminary sale Jan 16; final sale May 4yr later"));
    r.push(info("VT", "Vermont", "Deed", "N/A", "1 year", "Foreclosure after 2yr; Collector's Deed after 1yr redemption"));
    r.push(info("VA", "Virginia", "Deed", "N/A", "Surplus rights only", "Judicial foreclosure; 3yr after due date; surplus to former owner"));
    r.push(info("WA", "Washington", "Deed", "N/A", "3 years before sale", "Certificate of delinquency after 3yr; foreclosure judgment"));
    r.push(info("WV", "West Virginia", "Lien", "12%", "1 year", "Highest bidder at public auction"));
    r.push(info("WI", "Wisconsin", "Deed", "N/A", "2 years", "Tax deed after 2yr certificate; county cannot sell certificate"));
    r.push(info("WY", "Wyoming", "Lien", "15% + 3% penalty", "4 years", "Longest redemption; 15% + 3% penalty + fees"));
    assert(r@.map_values(|s: StateAuctionInfo| row_of(s)) =~= state_rows());
    r
}

/// The codes of all jurisdictions, in alphabetical order.
pub fn state_codes() -> (r: Vec<String>)
    ensures
        r@.map_values(|s: String| s@) == state_code_list(),
{
    let mut r: Vec<String> = Vec::new();
    r.push(String::from_str("AK"));
    r.push(String::from_str("AL"));
    r.push(String::from_str("AR"));
    r.push(String::from_str("AZ"));
    r.push(String::from_str("CA"));
    r.push(String::from_str("CO"));
    r.push(String::from_str("CT"));
    r.push(String::from_str("DC"));
    r.push(String::from_str("DE"));
    r.push(String::from_str("FL"));
    r.push(String::from_str("GA"));
    r.push(String::from_str("HI"));
    r.push(String::from_str("IA"));
    r.push(String::from_str("ID"));
    r.push(String::from_str("IL"));
    r.push(String::from_str("IN"));
    r.push(String::from_str("KS"));
    r.push(String::from_str("KY"));
    r.push(String::from_str("LA"));
    r.push(String::from_str("MA"));
    r.push(String::from_str("MD"));
    r.push(String::from_str("ME"));
    r.push(String::from_str("MI"));
    r.push(String::from_str("MN"));
    r.push(String::from_str("MO"));
    r.push(String::from_str("MS"));
    r.push(String::from_str("MT"));
    r.push(String::from_str("NC"));
    r.push(String::from_str("ND"));
    r.push(String::from_str("NE"));
    r.push(String::from_str("NH"));
    r.push(String::from_str("NJ"));
    r.push(String::from_str("NM"));
    r.push(String::from_str("NV"));
    r.push(String::from_str("NY"));
    r.push(String::from_str("OH"));
    r.push(String::from_str("OK"));
    r.push(String::from_str("OR"));
    r.push(String::from_str("PA"));
    r.push(String::from_str("RI"));
    r.push(String::from_str("SC"));
    r.push(String::from_str("SD"));
    r.push(String::from_str("TN"));
    r.push(String::from_str("TX"));
    r.push(String::from_str("UT"));
    r.push(String::from_str("VA"));
    r.push(String::from_str("VT"));
    r.push(String::from_str("WA"));
    r.push(String::from_str("WI"));
    r.push(String::from_str("WV"));
    r.push(String::from_str("WY"));
    assert(r@.map_values(|s: String| s@) =~= state_code_list());
    r
}

/// The record whose code is exactly `key`, if there is one.
pub fn state_info_for(key: &str) -> (r: Option<StateAuctionInfo>)
    ensures
        r is Some <==> has_code(key@),
        r matches Some(s) ==> s.abbr@ == key@ && is_row_for(s, key@),
{
    let mut table = all_state_info();
    let wanted = String::from_str(key);
    let mut i: usize = 0;
    while i < table.len()
        invariant
            table@.map_values(|s: StateAuctionInfo| row_of(s)) == state_rows(),
            i <= table.len(),
            wanted@ == key@,
            forall|j: int| 0 <= j < i ==> (#[trigger] state_rows()[j]).abbr != key@,
        decreases table.len() - i,
    {
        if table[i].abbr == wanted {
            assert(state_rows()[i as int].abbr == key@);
            assert(state_rows()[i as int] == row_of(table@[i as int]));
            return Some(table.swap_remove(i));
        }
        i += 1;
    }
    None
}

/// The record of a state, its code given in any case.
pub fn state_info(abbr: &str) -> (r: Option<StateAuctionInfo>)
    ensures
        r is Some <==> has_code(upper_of(abbr@)),
        r matches Some(s) ==> s.abbr@ == upper_of(abbr@) && is_row_for(s, upper_of(abbr@)),
{
    let key = to_upper(abbr);
    state_info_for(key.as_str())
}

/// The records whose sale type, lower-cased, is `lowered`, in the order of
/// their names.
pub fn state_info_with_type(lowered: &str) -> (r: Vec<StateAuctionInfo>)
    ensures
        r@.map_values(|s: StateAuctionInfo| row_of(s)) == state_rows().filter(of_type(lowered@)),
{
    let table = all_state_info();
    let ghost all = table@;
    let wanted = String::from_str(lowered);
    let mut r: Vec<StateAuctionInfo> = Vec::new();
    for s in it: table.into_iter()
        invariant
            it.seq() == all,
            all.map_values(|s: StateAuctionInfo| row_of(s)) == state_rows(),
            wanted@ == lowered@,
            r@.map_values(|s: StateAuctionInfo| row_of(s)) == state_rows().take(
                it.index() as int,
            ).filter(of_type(lowered@)),
    {
        proof {
            let n = it.index() as int;
            assert(state_rows().take(n + 1).drop_last() =~= state_rows().take(n));
            assert(state_rows()[n] == row_of(s));
            reveal(Seq::filter);
        }
        let ghost before = r@;
        let t = to_lower(s.sale_type.as_str());
        if t == wanted {
            r.push(s);
            assert(r@.map_values(|s: StateAuctionInfo| row_of(s)) =~= before.map_values(
                |s: StateAuctionInfo| row_of(s),
            ).push(row_of(s)));
        }
    }
    proof {
        assert(state_rows().take(state_rows().len() as int) =~= state_rows());
    }
    r
}

/// The records of every jurisdiction, or of those whose sale type matches
/// `sale_type` regardless of case; in the order of their names.
pub fn list_state_info(sale_type: Option<&str>) -> (r: Vec<StateAuctionInfo>)
    ensures
        sale_type is None ==> r@.map_values(|s: StateAuctionInfo| row_of(s)) == state_rows(),
        sale_type matches Some(t) ==> r@.map_values(|s: StateAuctionInfo| row_of(s))
            == state_rows().filter(of_type(lower_of(t@))),
{
    match sale_type {
        None => all_state_info(),
        Some(t) => {
            let lowered = to_lower(t);
            state_info_with_type(lowered.as_str())
        },
    }
}

/// The service's status, version and main endpoints.
pub fn health() -> (r: HealthResponse)
    ensures
        r.status@ == "healthy"@,
        r.version@ == "1.0.0"@,
        r.endpoints@.map_values(|s: String| s@) == seq![
            "/api/health"@,
            "/api/states"@,
            "/api/state-info"@,
            "/api/state-info/:abbr"@,
            "/api/counties"@,
            "/api/analyze"@,
        ],
{
    let endpoints = vec![
        String::from_str("/api/health"),
        String::from_str("/api/states"),
        String::from_str("/api/state-info"),
        String::from_str("/api/state-info/:abbr"),
        String::from_str("/api/counties"),
        String::from_str("/api/analyze"),
    ];
    assert(endpoints@.map_values(|s: String| s@) =~= seq![
        "/api/health"@,
        "/api/states"@,
        "/api/state-info"@,
        "/api/state-info/:abbr"@,
        "/api/counties"@,
        "/api/analyze"@,
    ]);
    HealthResponse {
        status: String::from_str("healthy"),
        version: String::from_str("1.0.0"),
        endpoints,
    }
}

} // verus!
