//! Tax-sale platforms, the auction calendar and rules of each state, and
//! the upcoming sales.
use vstd::prelude::*;
use vstd::string::StringExecFns;
use crate::text::{texts, to_upper, upper_of, words};

verus! {

/// How and when one state sells tax liens or tax deeds.
#[derive(Clone, Debug)]
pub struct StateAuctionSchedule {
    pub state: String,
    pub sale_type: String,
    pub frequency: String,
    pub typical_months: Vec<String>,
    pub typical_day: String,
    pub interest_rate: String,
    pub redemption_period: String,
    pub bidding_method: String,
    pub online_available: bool,
    pub primary_platform: String,
    pub deposit_range: String,
    pub notes: String,
}

/// An online service that runs tax sales for counties.
#[derive(Clone, Debug)]
pub struct AuctionPlatform {
    pub name: String,
    pub url: String,
    pub states_covered: Vec<String>,
    pub auction_types: Vec<String>,
    pub registration_required: bool,
    pub deposit_info: String,
}

/// One scheduled tax sale.
#[derive(Clone, Debug)]
pub struct AuctionListing {
    pub id: String,
    pub state: String,
    pub county: String,
    pub sale_type: String,
    pub sale_date: String,
    pub property_count: i32,
    /// The deposit a bidder must place, in whole dollars.
    pub deposit_required_dollars: u64,
    pub registration_deadline: String,
    pub platform: String,
    pub platform_url: String,
    pub auction_type: String,
    pub notes: String,
    pub interest_rate: String,
    pub redemption_period: String,
    pub bidding_method: String,
    pub min_bid: String,
    pub payment_deadline: String,
}

/// What a `StateAuctionSchedule` holds.
pub struct ScheduleView {
    pub state: Seq<char>,
    pub sale_type: Seq<char>,
    pub frequency: Seq<char>,
    pub typical_months: Seq<Seq<char>>,
    pub typical_day: Seq<char>,
    pub interest_rate: Seq<char>,
    pub redemption_period: Seq<char>,
    pub bidding_method: Seq<char>,
    pub online_available: bool,
    pub primary_platform: Seq<char>,
    pub deposit_range: Seq<char>,
    pub notes: Seq<char>,
}

/// What an `AuctionPlatform` holds.
pub struct PlatformView {
    pub name: Seq<char>,
    pub url: Seq<char>,
    pub states_covered: Seq<Seq<char>>,
    pub auction_types: Seq<Seq<char>>,
    pub registration_required: bool,
    pub deposit_info: Seq<char>,
}

/// What an `AuctionListing` holds.
pub struct ListingView {
    pub id: Seq<char>,
    pub state: Seq<char>,
    pub county: Seq<char>,
    pub sale_type: Seq<char>,
    pub sale_date: Seq<char>,
    pub property_count: int,
    pub deposit_required_dollars: int,
    pub registration_deadline: Seq<char>,
    pub platform: Seq<char>,
    pub platform_url: Seq<char>,
    pub auction_type: Seq<char>,
    pub notes: Seq<char>,
    pub interest_rate: Seq<char>,
    pub redemption_period: Seq<char>,
    pub bidding_method: Seq<char>,
    pub min_bid: Seq<char>,
    pub payment_deadline: Seq<char>,
}

pub open spec fn texts_of(v: Vec<String>) -> Seq<Seq<char>> {
    v@.map_values(|s: String| s@)
}

pub open spec fn schedule_view(s: StateAuctionSchedule) -> ScheduleView {
    ScheduleView {
        state: s.state@,
        sale_type: s.sale_type@,
        frequency: s.frequency@,
        typical_months: texts_of(s.typical_months),
        typical_day: s.typical_day@,
        interest_rate: s.interest_rate@,
        redemption_period: s.redemption_period@,
        bidding_method: s.bidding_method@,
        online_available: s.online_available,
        primary_platform: s.primary_platform@,
        deposit_range: s.deposit_range@,
        notes: s.notes@,
    }
}

pub open spec fn platform_view(p: AuctionPlatform) -> PlatformView {
    PlatformView {
        name: p.name@,
        url: p.url@,
        states_covered: texts_of(p.states_covered),
        auction_types: texts_of(p.auction_types),
        registration_required: p.registration_required,
        deposit_info: p.deposit_info@,
    }
}

pub open spec fn listing_view(a: AuctionListing) -> ListingView {
    ListingView {
        id: a.id@,
        state: a.state@,
        county: a.county@,
        sale_type: a.sale_type@,
        sale_date: a.sale_date@,
        property_count: a.property_count as int,
        deposit_required_dollars: a.deposit_required_dollars as int,
        registration_deadline: a.registration_deadline@,
        platform: a.platform@,
        platform_url: a.platform_url@,
        auction_type: a.auction_type@,
        notes: a.notes@,
        interest_rate: a.interest_rate@,
        redemption_period: a.redemption_period@,
        bidding_method: a.bidding_method@,
        min_bid: a.min_bid@,
        payment_deadline: a.payment_deadline@,
    }
}

/// Every platform known, in the order they are listed.
pub open spec fn platform_rows() -> Seq<PlatformView> {
    seq![
        PlatformView {
            name: "Bid4Assets"@,
            url: "https://www.bid4assets.com"@,
            states_covered: words(seq!["PA", "CA", "WA", "NJ", "MD", "VA", "GA", "NC", "DE"]),
            auction_types: words(seq!["Tax Deed", "Sheriff Sale", "Tax Lien"]),
            registration_required: true,
            deposit_info: "$500-$2,500 depending on county"@,
        },
        PlatformView {
            name: "RealAuction"@,
            url: "https://www.realauction.com"@,
            states_covered: words(seq!["FL", "TX", "AZ", "GA", "CO"]),
            auction_types: words(seq!["Tax Lien", "Tax Deed"]),
            registration_required: true,
            deposit_info: "$500-$2,000 depending on county"@,
        },
        PlatformView {
            name: "GovEase"@,
            url: "https://www.govease.com"@,
            states_covered: words(seq!["IN", "IL", "MI", "OH", "NE"]),
            auction_types: words(seq!["Tax Lien", "Tax Deed"]),
            registration_required: true,
            deposit_info: "Varies by county - typically $200-$1,000"@,
        },
        PlatformView {
            name: "Zeusauction"@,
            url: "https://www.zeusauction.com"@,
            states_covered: words(seq!["NJ", "NY"]),
            auction_types: words(seq!["Tax Lien"]),
            registration_required: true,
            deposit_info: "Varies by municipality"@,
        },
        PlatformView {
            name: "SRI (Grant Street Group)"@,
            url: "https://www.tax-sale.info"@,
            states_covered: words(seq!["TX", "GA", "FL"]),
            auction_types: words(seq!["Tax Deed"]),
            registration_required: true,
            deposit_info: "$1,000-$5,000"@,
        },
        PlatformView {
            name: "CivicSource"@,
            url: "https://www.civicsource.com"@,
            states_covered: words(seq!["LA"]),
            auction_types: words(seq!["Tax Lien"]),
            registration_required: true,
            deposit_info: "Varies by parish"@,
        },
    ]
}

/// The schedule of every jurisdiction (50 states and DC), lien states
/// first, in the order they are listed.
pub open spec fn schedule_rows() -> Seq<ScheduleView> {
    seq![
        ScheduleView {
            state: "AL"@,
            sale_type: "Tax Lien"@,
            frequency: "Annual"@,
            typical_months: words(seq!["May", "June"]),
            typical_day: "Varies by county"@,
            interest_rate: "12%"@,
            redemption_period: "3 years"@,
            bidding_method: "Premium bidding"@,
            online_available: true,
            primary_platform: "County"@,
            deposit_range: "$50-$200"@,
            notes: "12% interest from date of sale; premium not refunded if redeemed"@,
        },
        ScheduleView {
            state: "AZ"@,
            sale_type: "Tax Lien"@,
            frequency: "Annual"@,
            typical_months: words(seq!["February"]),
            typical_day: "2nd Tuesday"@,
            interest_rate: "16% max (bid down)"@,
            redemption_period: "3 years"@,
            bidding_method: "Bid down interest rate"@,
            online_available: true,
            primary_platform: "RealAuction / County"@,
            deposit_range: "$500-$2,000"@,
            notes: "Most counties online; Maricopa is largest sale in US; bid starts at 16% and goes down"@,
        },
        ScheduleView {
            state: "CO"@,
            sale_type: "Tax Lien"@,
            frequency: "Annual"@,
            typical_months: words(seq!["November"]),
            typical_day: "Varies"@,
            interest_rate: "Federal discount + 9%"@,
            redemption_period: "3 years"@,
            bidding_method: "Premium bidding"@,
            online_available: true,
            primary_platform: "RealAuction"@,
            deposit_range: "$200-$1,000"@,
            notes: "Rate tied to federal discount rate; premium lost if redeemed"@,
        },
        ScheduleView {
            state: "FL"@,
            sale_type: "Tax Lien"@,
            frequency: "Annual"@,
            typical_months: words(seq!["May", "June"]),
            typical_day: "Varies by county"@,
            interest_rate: "18% max (bid down) - 5% minimum guaranteed"@,
            redemption_period: "2 years"@,
            bidding_method: "Bid down interest rate"@,
            online_available: true,
            primary_platform: "RealAuction"@,
            deposit_range: "$500-$2,500"@,
            notes: "Guaranteed 5% minimum return; most competitive state; major counties all online"@,
        },
        ScheduleView {
            state: "GA"@,
            sale_type: "Tax Lien"@,
            frequency: "Monthly"@,
            typical_months: words(seq!["Year-round"]),
            typical_day: "1st Tuesday of month"@,
            interest_rate: "20% (escalates to 30%, then 40%)"@,
            redemption_period: "1 year"@,
            bidding_method: "Premium bidding"@,
            online_available: true,
            primary_platform: "County / Bid4Assets"@,
            deposit_range: "$1,000-$5,000"@,
            notes: "Highest escalating rate in US; 20% year 1, 30% year 2, 40% year 3"@,
        },
        ScheduleView {
            state: "IL"@,
            sale_type: "Tax Lien"@,
            frequency: "Annual"@,
            typical_months: words(seq!["October", "November"]),
            typical_day: "Varies by county"@,
            interest_rate: "18% (bid down)"@,
            redemption_period: "2-3 years"@,
            bidding_method: "Bid down interest rate"@,
            online_available: true,
            primary_platform: "GovEase / County"@,
            deposit_range: "$500-$2,000"@,
            notes: "Cook County largest sale; graduated penalty system on redemption"@,
        },
        ScheduleView {
            state: "IN"@,
            sale_type: "Tax Lien"@,
            frequency: "Annual/Semi-annual"@,
            typical_months: words(seq!["September", "October"]),
            typical_day: "Varies"@,
            interest_rate: "10-15% graduated"@,
            redemption_period: "1 year"@,
            bidding_method: "A/B/C tiered sales"@,
            online_available: true,
            primary_platform: "GovEase / SRI"@,
            deposit_range: "$200-$500"@,
            notes: "A sale = certified; B/C = commissioner sales; complex system"@,
        },
        ScheduleView {
            state: "IA"@,
            sale_type: "Tax Lien"@,
            frequency: "Annual"@,
            typical_months: words(seq!["June"]),
            typical_day: "3rd Monday"@,
            interest_rate: "24% (HIGHEST IN US)"@,
            redemption_period: "1 year 9 months"@,
            bidding_method: "Bid down ownership percentage"@,
            online_available: false,
            primary_platform: "County (in-person)"@,
            deposit_range: "$200-$500"@,
            notes: "Highest rate in nation; bid for smallest undivided interest; must negotiate deed"@,
        },
        ScheduleView {
            state: "KY"@,
            sale_type: "Tax Lien"@,
            frequency: "Annual"@,
            typical_months: words(seq!["July", "August"]),
            typical_day: "Varies"@,
            interest_rate: "12%"@,
            redemption_period: "1 year"@,
            bidding_method: "First-come or auction"@,
            online_available: false,
            primary_platform: "County"@,
            deposit_range: "$100-$300"@,
            notes: "12% from date of issuance; smaller market"@,
        },
        ScheduleView {
            state: "LA"@,
            sale_type: "Tax Lien"@,
            frequency: "Varies by parish"@,
            typical_months: words(seq!["June", "July"]),
            typical_day: "Varies"@,
            interest_rate: "Bid-down (2024-2025 reform)"@,
            redemption_period: "3 years"@,
            bidding_method: "Bid down interest rate (new system)"@,
            online_available: true,
            primary_platform: "CivicSource"@,
            deposit_range: "$300-$1,000"@,
            notes: "Major 2024-2025 reform: now bid-down system; previously 12% + 5% penalty"@,
        },
        ScheduleView {
            state: "MD"@,
            sale_type: "Tax Lien"@,
            frequency: "Annual"@,
            typical_months: words(seq!["May", "June"]),
            typical_day: "Varies by county"@,
            interest_rate: "18-24%"@,
            redemption_period: "6 months"@,
            bidding_method: "Bid down or premium"@,
            online_available: true,
            primary_platform: "Bid4Assets"@,
            deposit_range: "$1,000-$2,500"@,
            notes: "Short 6-month redemption; near DC; high rates; competitive"@,
        },
        ScheduleView {
            state: "NJ"@,
            sale_type: "Tax Lien"@,
            frequency: "Varies by municipality"@,
            typical_months: words(seq!["October", "November", "December"]),
            typical_day: "Varies"@,
            interest_rate: "18% (bid down)"@,
            redemption_period: "2 years"@,
            bidding_method: "Bid down interest rate"@,
            online_available: true,
            primary_platform: "Zeusauction / Bid4Assets"@,
            deposit_range: "$1,000-$5,000"@,
            notes: "Active market; high property values; each municipality runs own sale"@,
        },
        ScheduleView {
            state: "CT"@,
            sale_type: "Tax Lien"@,
            frequency: "Annual"@,
            typical_months: words(seq!["June", "July"]),
            typical_day: "Varies"@,
            interest_rate: "18%"@,
            redemption_period: "6 months"@,
            bidding_method: "Premium bidding"@,
            online_available: false,
            primary_platform: "County (in-person)"@,
            deposit_range: "$500-$2,000"@,
            notes: "Combined lien/deed format; larger towns only; limited availability"@,
        },
        ScheduleView {
            state: "DC"@,
            sale_type: "Tax Lien"@,
            frequency: "Annual"@,
            typical_months: words(seq!["July"]),
            typical_day: "Varies"@,
            interest_rate: "18%"@,
            redemption_period: "6 months"@,
            bidding_method: "Premium bidding"@,
            online_available: true,
            primary_platform: "DC Government"@,
            deposit_range: "$1,000-$5,000"@,
            notes: "Short 6-month redemption; premium bidding; high competition"@,
        },
        ScheduleView {
            state: "MA"@,
            sale_type: "Tax Lien"@,
            frequency: "Annual"@,
            typical_months: words(seq!["Varies"]),
            typical_day: "Varies by town"@,
            interest_rate: "16%"@,
            redemption_period: "Collector's deed"@,
            bidding_method: "Bid down ownership percentage"@,
            online_available: false,
            primary_platform: "Town Collector"@,
            deposit_range: "$500-$2,000"@,
            notes: "Bid for smallest undivided part; complex process; high property values"@,
        },
        ScheduleView {
            state: "MS"@,
            sale_type: "Tax Lien"@,
            frequency: "Annual"@,
            typical_months: words(seq!["August"]),
            typical_day: "Last Monday"@,
            interest_rate: "18%"@,
            redemption_period: "2 years"@,
            bidding_method: "Premium bidding"@,
            online_available: false,
            primary_platform: "County"@,
            deposit_range: "$100-$500"@,
            notes: "Less competition; in-person required; smaller market"@,
        },
        ScheduleView {
            state: "MO"@,
            sale_type: "Tax Lien"@,
            frequency: "Annual"@,
            typical_months: words(seq!["August"]),
            typical_day: "4th Monday"@,
            interest_rate: "10%"@,
            redemption_period: "2 years"@,
            bidding_method: "Premium bidding"@,
            online_available: false,
            primary_platform: "County"@,
            deposit_range: "$100-$500"@,
            notes: "10% interest; 18% penalty each year delinquent; in-person sales"@,
        },
        ScheduleView {
            state: "MT"@,
            sale_type: "Tax Lien"@,
            frequency: "Annual"@,
            typical_months: words(seq!["July"]),
            typical_day: "Varies"@,
            interest_rate: "10%"@,
            redemption_period: "2-3 years"@,
            bidding_method: "Premium bidding"@,
            online_available: false,
            primary_platform: "County"@,
            deposit_range: "$100-$500"@,
            notes: "5/6 of 1% per month (10% annual); small market; rural properties"@,
        },
        ScheduleView {
            state: "NE"@,
            sale_type: "Tax Lien"@,
            frequency: "Annual"@,
            typical_months: words(seq!["March"]),
            typical_day: "1st Monday"@,
            interest_rate: "14%"@,
            redemption_period: "3 years"@,
            bidding_method: "Premium bidding"@,
            online_available: true,
            primary_platform: "GovEase / County"@,
            deposit_range: "$200-$500"@,
            notes: "14% annual interest; undivided interest system; moderate market"@,
        },
        ScheduleView {
            state: "NH"@,
            sale_type: "Tax Lien"@,
            frequency: "Annual"@,
            typical_months: words(seq!["May", "June"]),
            typical_day: "Varies"@,
            interest_rate: "18%"@,
            redemption_period: "2 years"@,
            bidding_method: "Bid down ownership percentage"@,
            online_available: false,
            primary_platform: "Town"@,
            deposit_range: "$500-$1,000"@,
            notes: "Bid for percentage of undivided interest; high property values"@,
        },
        ScheduleView {
            state: "OK"@,
            sale_type: "Tax Lien"@,
            frequency: "Annual"@,
            typical_months: words(seq!["June"]),
            typical_day: "2nd Monday"@,
            interest_rate: "8%"@,
            redemption_period: "2 years"@,
            bidding_method: "Random drawing"@,
            online_available: false,
            primary_platform: "County"@,
            deposit_range: "$100-$500"@,
            notes: "Unique random drawing for ties; 8% rate is lower; in-person"@,
        },
        ScheduleView {
            state: "RI"@,
            sale_type: "Tax Lien"@,
            frequency: "Annual"@,
            typical_months: words(seq!["December"]),
            typical_day: "Varies"@,
            interest_rate: "10% + 1%/month"@,
            redemption_period: "1 year"@,
            bidding_method: "Premium bidding"@,
            online_available: false,
            primary_platform: "City/Town"@,
            deposit_range: "$500-$1,000"@,
            notes: "10% first 6 months, 1%/month after; Collector's Deed; small state"@,
        },
        ScheduleView {
            state: "SC"@,
            sale_type: "Tax Lien"@,
            frequency: "Annual"@,
            typical_months: words(seq!["October", "November"]),
            typical_day: "Varies"@,
            interest_rate: "8% penalty"@,
            redemption_period: "1 year"@,
            bidding_method: "Highest and best bid"@,
            online_available: false,
            primary_platform: "County"@,
            deposit_range: "$100-$500"@,
            notes: "8% penalty rather than interest; short 1-year redemption"@,
        },
        ScheduleView {
            state: "SD"@,
            sale_type: "Tax Lien"@,
            frequency: "Annual"@,
            typical_months: words(seq!["December"]),
            typical_day: "3rd Tuesday"@,
            interest_rate: "12% (max 10% bid)"@,
            redemption_period: "3-4 years"@,
            bidding_method: "Bid down interest rate"@,
            online_available: false,
            primary_platform: "County"@,
            deposit_range: "$100-$300"@,
            notes: "Bid down from 10% max; 12% statutory; long redemption"@,
        },
        ScheduleView {
            state: "VT"@,
            sale_type: "Tax Lien"@,
            frequency: "Annual"@,
            typical_months: words(seq!["April", "May", "June", "July"]),
            typical_day: "Varies"@,
            interest_rate: "12%"@,
            redemption_period: "1 year"@,
            bidding_method: "Premium bidding"@,
            online_available: false,
            primary_platform: "Town"@,
            deposit_range: "$200-$500"@,
            notes: "12% interest; 1-year redemption; small rural market"@,
        },
        ScheduleView {
            state: "WV"@,
            sale_type: "Tax Lien"@,
            frequency: "Annual"@,
            typical_months: words(seq!["October", "November"]),
            typical_day: "Varies"@,
            interest_rate: "12%"@,
            redemption_period: "1 year"@,
            bidding_method: "Highest bidder"@,
            online_available: false,
            primary_platform: "County"@,
            deposit_range: "$100-$500"@,
            notes: "12% interest; highest bidder at public auction; rural properties"@,
        },
        ScheduleView {
            state: "WY"@,
            sale_type: "Tax Lien"@,
            frequency: "Annual"@,
            typical_months: words(seq!["September"]),
            typical_day: "Varies"@,
            interest_rate: "15% + 3% penalty"@,
            redemption_period: "4 years"@,
            bidding_method: "Premium bidding"@,
            online_available: false,
            primary_platform: "County"@,
            deposit_range: "$100-$500"@,
            notes: "Longest redemption period; 15% interest + 3% penalty + fees"@,
        },
        ScheduleView {
            state: "TX"@,
            sale_type: "Tax Deed"@,
            frequency: "Monthly"@,
            typical_months: words(seq!["Year-round"]),
            typical_day: "1st Tuesday of month"@,
            interest_rate: "25% penalty on redemption"@,
            redemption_period: "6 months (non-homestead) / 2 years (homestead)"@,
            bidding_method: "Highest bidder"@,
            online_available: true,
            primary_platform: "County / RealAuction"@,
            deposit_range: "$2,000-$5,000"@,
            notes: "25% penalty if redeemed; largest deed state; no state income tax"@,
        },
        ScheduleView {
            state: "CA"@,
            sale_type: "Tax Deed"@,
            frequency: "Varies"@,
            typical_months: words(seq!["March", "April", "September"]),
            typical_day: "Varies by county"@,
            interest_rate: "N/A"@,
            redemption_period: "5 years (pre-sale)"@,
            bidding_method: "Highest bidder"@,
            online_available: true,
            primary_platform: "Bid4Assets"@,
            deposit_range: "$2,500-$5,000"@,
            notes: "Clear title; high values; 5-year pre-sale redemption; very competitive"@,
        },
        ScheduleView {
            state: "MI"@,
            sale_type: "Tax Deed"@,
            frequency: "Annual"@,
            typical_months: words(seq!["July"]),
            typical_day: "3rd Tuesday"@,
            interest_rate: "N/A"@,
            redemption_period: "None after sale"@,
            bidding_method: "Highest bidder"@,
            online_available: true,
            primary_platform: "GovEase / County"@,
            deposit_range: "$500-$2,000"@,
            notes: "No redemption after sale; min bid = taxes + estimated FMV; Detroit challenges"@,
        },
        ScheduleView {
            state: "OH"@,
            sale_type: "Tax Deed"@,
            frequency: "Varies"@,
            typical_months: words(seq!["Year-round"]),
            typical_day: "Varies by county"@,
            interest_rate: "N/A"@,
            redemption_period: "None after sale"@,
            bidding_method: "Highest bidder"@,
            online_available: true,
            primary_platform: "GovEase / County"@,
            deposit_range: "$500-$2,000"@,
            notes: "Sheriff's sale after judicial foreclosure; no redemption; large market"@,
        },
        ScheduleView {
            state: "PA"@,
            sale_type: "Tax Deed"@,
            frequency: "Monthly/Quarterly"@,
            typical_months: words(seq!["Year-round"]),
            typical_day: "Varies by county"@,
            interest_rate: "N/A"@,
            redemption_period: "None after upset sale"@,
            bidding_method: "Highest bidder"@,
            online_available: true,
            primary_platform: "Bid4Assets"@,
            deposit_range: "$500-$2,500"@,
            notes: "Upset sale then free & clear sale; no redemption after upset; Philadelphia active"@,
        },
        ScheduleView {
            state: "NY"@,
            sale_type: "Tax Deed"@,
            frequency: "Varies"@,
            typical_months: words(seq!["Spring", "Fall"]),
            typical_day: "Varies"@,
            interest_rate: "N/A"@,
            redemption_period: "2-4 years (varies by property type)"@,
            bidding_method: "Highest bidder"@,
            online_available: true,
            primary_platform: "Zeusauction / County"@,
            deposit_range: "$1,000-$5,000"@,
            notes: "2yr standard; 3-4yr residential/farm; judicial process; high values"@,
        },
        ScheduleView {
            state: "AK"@,
            sale_type: "Tax Deed"@,
            frequency: "Varies"@,
            typical_months: words(seq!["Varies"]),
            typical_day: "Varies"@,
            interest_rate: "N/A"@,
            redemption_period: "1 year"@,
            bidding_method: "Highest bidder"@,
            online_available: false,
            primary_platform: "Borough/City"@,
            deposit_range: "$500-$2,000"@,
            notes: "Municipal foreclosure; deeded to borough/city if unredeemed; limited sales"@,
        },
        ScheduleView {
            state: "AR"@,
            sale_type: "Tax Deed"@,
            frequency: "Varies"@,
            typical_months: words(seq!["Varies"]),
            typical_day: "Varies"@,
            interest_rate: "N/A"@,
            redemption_period: "30 days"@,
            bidding_method: "Highest bidder"@,
            online_available: false,
            primary_platform: "County"@,
            deposit_range: "$200-$1,000"@,
            notes: "Forfeited to state; limited warranty deed after 30 days; short redemption"@,
        },
        ScheduleView {
            state: "DE"@,
            sale_type: "Tax Deed"@,
            frequency: "Annual"@,
            typical_months: words(seq!["Varies"]),
            typical_day: "Varies"@,
            interest_rate: "15%"@,
            redemption_period: "60 days"@,
            bidding_method: "Highest bidder"@,
            online_available: true,
            primary_platform: "Bid4Assets"@,
            deposit_range: "$500-$2,000"@,
            notes: "Judicial foreclosure; 15% penalty on redemption; 60-day redemption"@,
        },
        ScheduleView {
            state: "HI"@,
            sale_type: "Tax Deed"@,
            frequency: "Varies"@,
            typical_months: words(seq!["Varies"]),
            typical_day: "Varies"@,
            interest_rate: "N/A"@,
            redemption_period: "1 year"@,
            bidding_method: "Highest bidder"@,
            online_available: false,
            primary_platform: "County"@,
            deposit_range: "$1,000-$5,000"@,
            notes: "3-year lien before auction; 1-year redemption after sale; high values"@,
        },
        ScheduleView {
            state: "ID"@,
            sale_type: "Tax Deed"@,
            frequency: "Annual"@,
            typical_months: words(seq!["January"]),
            typical_day: "Varies"@,
            interest_rate: "N/A"@,
            redemption_period: "3 years before deed"@,
            bidding_method: "Highest bidder"@,
            online_available: false,
            primary_platform: "County"@,
            deposit_range: "$200-$1,000"@,
            notes: "Tax deed to county after 3 years; then sold at auction"@,
        },
        ScheduleView {
            state: "KS"@,
            sale_type: "Tax Deed"@,
            frequency: "Varies"@,
            typical_months: words(seq!["September"]),
            typical_day: "Varies"@,
            interest_rate: "N/A"@,
            redemption_period: "Court judgment"@,
            bidding_method: "Highest bidder"@,
            online_available: false,
            primary_platform: "County"@,
            deposit_range: "$200-$1,000"@,
            notes: "Bid off to county; court petition for foreclosure"@,
        },
        ScheduleView {
            state: "ME"@,
            sale_type: "Tax Deed"@,
            frequency: "Varies"@,
            typical_months: words(seq!["Varies"]),
            typical_day: "Varies"@,
            interest_rate: "N/A"@,
            redemption_period: "18 months"@,
            bidding_method: "Highest bidder"@,
            online_available: false,
            primary_platform: "Town"@,
            deposit_range: "$500-$2,000"@,
            notes: "Tax lien mortgage auto-forecloses after 18 months"@,
        },
        ScheduleView {
            state: "MN"@,
            sale_type: "Tax Deed"@,
            frequency: "Annual"@,
            typical_months: words(seq!["May"]),
            typical_day: "Varies"@,
            interest_rate: "N/A"@,
            redemption_period: "None after sale"@,
            bidding_method: "Highest bidder"@,
            online_available: true,
            primary_platform: "County"@,
            deposit_range: "$500-$2,000"@,
            notes: "Tax-forfeited land auctions; cash or installment; no redemption"@,
        },
        ScheduleView {
            state: "NC"@,
            sale_type: "Tax Deed"@,
            frequency: "Varies"@,
            typical_months: words(seq!["Varies"]),
            typical_day: "Varies"@,
            interest_rate: "N/A"@,
            redemption_period: "Upset bid period"@,
            bidding_method: "Highest bidder"@,
            online_available: true,
            primary_platform: "Bid4Assets"@,
            deposit_range: "$500-$2,500"@,
            notes: "Judicial foreclosure or docketing certificate; upset bid period"@,
        },
        ScheduleView {
            state: "ND"@,
            sale_type: "Tax Deed"@,
            frequency: "Annual"@,
            typical_months: words(seq!["October"]),
            typical_day: "Varies"@,
            interest_rate: "Max 9%"@,
            redemption_period: "4 years"@,
            bidding_method: "Bid down interest rate"@,
            online_available: false,
            primary_platform: "County"@,
            deposit_range: "$100-$500"@,
            notes: "Bid down from 9%; 4-year redemption from due date"@,
        },
        ScheduleView {
            state: "NM"@,
            sale_type: "Tax Deed"@,
            frequency: "Varies"@,
            typical_months: words(seq!["Varies"]),
            typical_day: "Varies"@,
            interest_rate: "N/A"@,
            redemption_period: "120 days IRS only"@,
            bidding_method: "Highest bidder"@,
            online_available: false,
            primary_platform: "County"@,
            deposit_range: "$200-$1,000"@,
            notes: "No owner redemption; Quitclaim Deed issued; IRS has 120 days"@,
        },
        ScheduleView {
            state: "NV"@,
            sale_type: "Tax Deed"@,
            frequency: "Annual"@,
            typical_months: words(seq!["June"]),
            typical_day: "Varies"@,
            interest_rate: "N/A"@,
            redemption_period: "2 years before deed"@,
            bidding_method: "Highest bidder"@,
            online_available: true,
            primary_platform: "County"@,
            deposit_range: "$500-$2,000"@,
            notes: "Tax deed to Treasurer after 2 years; then auction; Las Vegas active"@,
        },
        ScheduleView {
            state: "OR"@,
            sale_type: "Tax Deed"@,
            frequency: "Annual"@,
            typical_months: words(seq!["Varies"]),
            typical_day: "Varies"@,
            interest_rate: "N/A"@,
            redemption_period: "2 years"@,
            bidding_method: "Highest bidder"@,
            online_available: false,
            primary_platform: "County"@,
            deposit_range: "$500-$2,000"@,
            notes: "Foreclosure after 3 years; sold to county; 2-year redemption"@,
        },
        ScheduleView {
            state: "TN"@,
            sale_type: "Tax Deed"@,
            frequency: "Varies"@,
            typical_months: words(seq!["Varies"]),
            typical_day: "Varies"@,
            interest_rate: "N/A"@,
            redemption_period: "1 year"@,
            bidding_method: "Highest bidder"@,
            online_available: false,
            primary_platform: "County"@,
            deposit_range: "$500-$2,000"@,
            notes: "2-year delinquent before Chancery Court suit; 1-year redemption"@,
        },
        ScheduleView {
            state: "UT"@,
            sale_type: "Tax Deed"@,
            frequency: "Annual"@,
            typical_months: words(seq!["May"]),
            typical_day: "Varies"@,
            interest_rate: "N/A"@,
            redemption_period: "4 years"@,
            bidding_method: "Highest bidder"@,
            online_available: true,
            primary_platform: "County"@,
            deposit_range: "$500-$2,000"@,
            notes: "Preliminary sale Jan 16; final sale May 4 years later"@,
        },
        ScheduleView {
            state: "VA"@,
            sale_type: "Tax Deed"@,
            frequency: "Varies"@,
            typical_months: words(seq!["Varies"]),
            typical_day: "Varies"@,
            interest_rate: "N/A"@,
            redemption_period: "Surplus rights only"@,
            bidding_method: "Highest bidder"@,
            online_available: true,
            primary_platform: "Bid4Assets"@,
            deposit_range: "$1,000-$5,000"@,
            notes: "Judicial foreclosure; 3 years after due date; surplus to former owner"@,
        },
        ScheduleView {
            state: "WA"@,
            sale_type: "Tax Deed"@,
            frequency: "Annual"@,
            typical_months: words(seq!["Varies"]),
            typical_day: "Varies"@,
            interest_rate: "N/A"@,
            redemption_period: "3 years before sale"@,
            bidding_method: "Highest bidder"@,
            online_available: true,
            primary_platform: "Bid4Assets"@,
            deposit_range: "$500-$2,500"@,
            notes: "Certificate of delinquency after 3 years; foreclosure judgment"@,
        },
        ScheduleView {
            state: "WI"@,
            sale_type: "Tax Deed"@,
            frequency: "Annual"@,
            typical_months: words(seq!["September"]),
            typical_day: "Varies"@,
            interest_rate: "N/A"@,
            redemption_period: "2 years"@,
            bidding_method: "Highest bidder"@,
            online_available: true,
            primary_platform: "County"@,
            deposit_range: "$500-$2,000"@,
            notes: "Tax deed after 2-year certificate; county cannot sell certificate"@,
        },
    ]
}

/// The upcoming sales, in date order.
pub open spec fn listing_rows() -> Seq<ListingView> {
    seq![
        ListingView {
            id: "PA-MONROE-2026-01"@,
            state: "PA"@,
            county: "Monroe"@,
            sale_type: "Repository Sale"@,
            sale_date: "2026-01-14"@,
            property_count: 150,
            deposit_required_dollars: 500,
            registration_deadline: "2026-01-07"@,
            platform: "Bid4Assets"@,
            platform_url: "https://www.bid4assets.com/monroe-pa"@,
            auction_type: "Online"@,
            notes: "Poconos region - Repository sale; no redemption"@,
            interest_rate: "N/A - Deed sale"@,
            redemption_period: "None"@,
            bidding_method: "Highest bidder"@,
            min_bid: "Taxes owed"@,
            payment_deadline: "24 hours"@,
        },
        ListingView {
            id: "PA-PHILA-2026-01"@,
            state: "PA"@,
            county: "Philadelphia"@,
            sale_type: "Sheriff Sale"@,
            sale_date: "2026-01-21"@,
            property_count: 400,
            deposit_required_dollars: 600,
            registration_deadline: "2026-01-14"@,
            platform: "Bid4Assets"@,
            platform_url: "https://www.bid4assets.com/philadelphia"@,
            auction_type: "Online"@,
            notes: "Largest urban market in PA; real property only"@,
            interest_rate: "N/A - Deed sale"@,
            redemption_period: "None"@,
            bidding_method: "Highest bidder"@,
            min_bid: "Upset amount"@,
            payment_deadline: "30 days"@,
        },
        ListingView {
            id: "NJ-ESSEX-2026-01"@,
            state: "NJ"@,
            county: "Essex"@,
            sale_type: "Tax Lien"@,
            sale_date: "2026-01-28"@,
            property_count: 180,
            deposit_required_dollars: 1000,
            registration_deadline: "2026-01-21"@,
            platform: "Zeusauction"@,
            platform_url: "https://www.zeusauction.com"@,
            auction_type: "Online"@,
            notes: "Newark area - high property values; bid-down from 18%"@,
            interest_rate: "18% max (bid down)"@,
            redemption_period: "2 years"@,
            bidding_method: "Bid down interest rate"@,
            min_bid: "Taxes + fees"@,
            payment_deadline: "Same day"@,
        },
        ListingView {
            id: "TX-HARRIS-2026-02"@,
            state: "TX"@,
            county: "Harris"@,
            sale_type: "Tax Deed"@,
            sale_date: "2026-02-03"@,
            property_count: 450,
            deposit_required_dollars: 2500,
            registration_deadline: "2026-01-27"@,
            platform: "County"@,
            platform_url: "https://www.hctax.net"@,
            auction_type: "In-Person"@,
            notes: "Houston metro - largest TX county; 25% penalty if redeemed"@,
            interest_rate: "25% penalty on redemption"@,
            redemption_period: "6 months (2 years homestead)"@,
            bidding_method: "Highest bidder"@,
            min_bid: "Judgment amount"@,
            payment_deadline: "Same day"@,
        },
        ListingView {
            id: "TX-DALLAS-2026-02"@,
            state: "TX"@,
            county: "Dallas"@,
            sale_type: "Tax Deed"@,
            sale_date: "2026-02-03"@,
            property_count: 380,
            deposit_required_dollars: 2000,
            registration_deadline: "2026-01-27"@,
            platform: "RealAuction"@,
            platform_url: "https://www.realauction.com"@,
            auction_type: "Online"@,
            notes: "DFW metro - online auction; 25% penalty if redeemed"@,
            interest_rate: "25% penalty on redemption"@,
            redemption_period: "6 months (2 years homestead)"@,
            bidding_method: "Highest bidder"@,
            min_bid: "Min upset"@,
            payment_deadline: "Same day"@,
        },
        ListingView {
            id: "TX-TARRANT-2026-02"@,
            state: "TX"@,
            county: "Tarrant"@,
            sale_type: "Tax Deed"@,
            sale_date: "2026-02-03"@,
            property_count: 280,
            deposit_required_dollars: 2000,
            registration_deadline: "2026-01-27"@,
            platform: "County"@,
            platform_url: "https://www.tarrantcounty.com"@,
            auction_type: "In-Person"@,
            notes: "Fort Worth metro - courthouse steps"@,
            interest_rate: "25% penalty on redemption"@,
            redemption_period: "6 months (2 years homestead)"@,
            bidding_method: "Highest bidder"@,
            min_bid: "Judgment amount"@,
            payment_deadline: "Same day"@,
        },
        ListingView {
            id: "AZ-MARICOPA-2026-02"@,
            state: "AZ"@,
            county: "Maricopa"@,
            sale_type: "Tax Lien"@,
            sale_date: "2026-02-10"@,
            property_count: 2800,
            deposit_required_dollars: 500,
            registration_deadline: "2026-02-01"@,
            platform: "RealAuction"@,
            platform_url: "https://treasurer.maricopa.gov"@,
            auction_type: "Online"@,
            notes: "LARGEST TAX LIEN SALE IN US - Phoenix metro; bid down from 16%"@,
            interest_rate: "16% max (bid down to 0%)"@,
            redemption_period: "3 years"@,
            bidding_method: "Bid down interest rate"@,
            min_bid: "Taxes + fees"@,
            payment_deadline: "Varies"@,
        },
        ListingView {
            id: "AZ-PIMA-2026-02"@,
            state: "AZ"@,
            county: "Pima"@,
            sale_type: "Tax Lien"@,
            sale_date: "2026-02-17"@,
            property_count: 850,
            deposit_required_dollars: 300,
            registration_deadline: "2026-02-07"@,
            platform: "RealAuction"@,
            platform_url: "https://www.pima.gov"@,
            auction_type: "Online"@,
            notes: "Tucson area - 2nd largest AZ sale; online"@,
            interest_rate: "16% max (bid down)"@,
            redemption_period: "3 years"@,
            bidding_method: "Bid down interest rate"@,
            min_bid: "Taxes owed"@,
            payment_deadline: "10 days"@,
        },
        ListingView {
            id: "GA-FULTON-2026-02"@,
            state: "GA"@,
            county: "Fulton"@,
            sale_type: "Tax Lien"@,
            sale_date: "2026-02-03"@,
            property_count: 320,
            deposit_required_dollars: 1000,
            registration_deadline: "2026-01-27"@,
            platform: "County"@,
            platform_url: "https://www.fultoncountyga.gov"@,
            auction_type: "In-Person"@,
            notes: "Atlanta metro - HIGHEST ESCALATING RATE (20% → 30% → 40%)"@,
            interest_rate: "20% (escalates to 40%)"@,
            redemption_period: "1 year"@,
            bidding_method: "Premium bidding"@,
            min_bid: "Taxes + fees"@,
            payment_deadline: "Same day"@,
        },
        ListingView {
            id: "GA-DEKALB-2026-02"@,
            state: "GA"@,
            county: "DeKalb"@,
            sale_type: "Tax Lien"@,
            sale_date: "2026-02-03"@,
            property_count: 250,
            deposit_required_dollars: 1000,
            registration_deadline: "2026-01-27"@,
            platform: "County"@,
            platform_url: "https://www.dekalbcountyga.gov"@,
            auction_type: "In-Person"@,
            notes: "Atlanta suburbs - 20% escalating rate"@,
            interest_rate: "20% (escalates to 40%)"@,
            redemption_period: "1 year"@,
            bidding_method: "Premium bidding"@,
            min_bid: "Taxes + fees"@,
            payment_deadline: "Same day"@,
        },
        ListingView {
            id: "FL-BROWARD-2026-03"@,
            state: "FL"@,
            county: "Broward"@,
            sale_type: "Tax Deed"@,
            sale_date: "2026-03-04"@,
            property_count: 45,
            deposit_required_dollars: 1000,
            registration_deadline: "2026-02-25"@,
            platform: "RealAuction"@,
            platform_url: "https://www.broward.org/RecordsTaxesTreasury"@,
            auction_type: "Online"@,
            notes: "Fort Lauderdale - weekly auction; pre-registration required"@,
            interest_rate: "N/A - Deed sale"@,
            redemption_period: "None"@,
            bidding_method: "Highest bidder"@,
            min_bid: "Opening bid"@,
            payment_deadline: "24 hours"@,
        },
        ListingView {
            id: "FL-PALM-2026-03"@,
            state: "FL"@,
            county: "Palm Beach"@,
            sale_type: "Tax Deed"@,
            sale_date: "2026-03-11"@,
            property_count: 55,
            deposit_required_dollars: 1000,
            registration_deadline: "2026-03-04"@,
            platform: "RealAuction"@,
            platform_url: "https://www.mypalmbeachclerk.com"@,
            auction_type: "Online"@,
            notes: "Wednesdays 9:30am ET; affluent area"@,
            interest_rate: "N/A - Deed sale"@,
            redemption_period: "None"@,
            bidding_method: "Highest bidder"@,
            min_bid: "Opening bid"@,
            payment_deadline: "24 hours"@,
        },
        ListingView {
            id: "MD-BALTIMORE-2026-03"@,
            state: "MD"@,
            county: "Baltimore City"@,
            sale_type: "Tax Lien"@,
            sale_date: "2026-03-15"@,
            property_count: 600,
            deposit_required_dollars: 2000,
            registration_deadline: "2026-03-01"@,
            platform: "Bid4Assets"@,
            platform_url: "https://www.bid4assets.com"@,
            auction_type: "Online"@,
            notes: "Urban properties; 20% rate; short 6-month redemption"@,
            interest_rate: "20%"@,
            redemption_period: "6 months"@,
            bidding_method: "Premium bidding"@,
            min_bid: "Taxes + fees"@,
            payment_deadline: "10 days"@,
        },
        ListingView {
            id: "FL-MIAMI-2026-05"@,
            state: "FL"@,
            county: "Miami-Dade"@,
            sale_type: "Tax Lien"@,
            sale_date: "2026-05-15"@,
            property_count: 3500,
            deposit_required_dollars: 2500,
            registration_deadline: "2026-05-01"@,
            platform: "RealAuction"@,
            platform_url: "https://www.miamidade.gov/taxcollector"@,
            auction_type: "Online"@,
            notes: "MAJOR SALE - 5% minimum guaranteed; very competitive"@,
            interest_rate: "18% max (bid down) - 5% GUARANTEED"@,
            redemption_period: "2 years"@,
            bidding_method: "Bid down interest rate"@,
            min_bid: "Taxes + fees"@,
            payment_deadline: "Varies"@,
        },
        ListingView {
            id: "FL-HILLSBOROUGH-2026-05"@,
            state: "FL"@,
            county: "Hillsborough"@,
            sale_type: "Tax Lien"@,
            sale_date: "2026-05-20"@,
            property_count: 2200,
            deposit_required_dollars: 2000,
            registration_deadline: "2026-05-10"@,
            platform: "RealAuction"@,
            platform_url: "https://www.hillstax.org"@,
            auction_type: "Online"@,
            notes: "Tampa Bay - large sale; 5% minimum guaranteed"@,
            interest_rate: "18% max (bid down) - 5% GUARANTEED"@,
            redemption_period: "2 years"@,
            bidding_method: "Bid down interest rate"@,
            min_bid: "Taxes + fees"@,
            payment_deadline: "Varies"@,
        },
        ListingView {
            id: "IA-POLK-2026-06"@,
            state: "IA"@,
            county: "Polk"@,
            sale_type: "Tax Lien"@,
            sale_date: "2026-06-15"@,
            property_count: 220,
            deposit_required_dollars: 500,
            registration_deadline: "2026-06-01"@,
            platform: "County"@,
            platform_url: "https://www.polkcountyiowa.gov"@,
            auction_type: "In-Person"@,
            notes: "Des Moines - 24% HIGHEST RATE IN US; bid for ownership %"@,
            interest_rate: "24% (HIGHEST IN US)"@,
            redemption_period: "1 year 9 months"@,
            bidding_method: "Bid down ownership percentage"@,
            min_bid: "Taxes owed"@,
            payment_deadline: "Same day"@,
        },
        ListingView {
            id: "IA-LINN-2026-06"@,
            state: "IA"@,
            county: "Linn"@,
            sale_type: "Tax Lien"@,
            sale_date: "2026-06-16"@,
            property_count: 120,
            deposit_required_dollars: 300,
            registration_deadline: "2026-06-01"@,
            platform: "County"@,
            platform_url: "https://www.linncountyiowa.gov"@,
            auction_type: "In-Person"@,
            notes: "Cedar Rapids - 24% rate; unique bidding system"@,
            interest_rate: "24% (HIGHEST IN US)"@,
            redemption_period: "1 year 9 months"@,
            bidding_method: "Bid down ownership percentage"@,
            min_bid: "Taxes owed"@,
            payment_deadline: "Same day"@,
        },
        ListingView {
            id: "IL-COOK-2026-06"@,
            state: "IL"@,
            county: "Cook"@,
            sale_type: "Tax Lien"@,
            sale_date: "2026-10-15"@,
            property_count: 5000,
            deposit_required_dollars: 2500,
            registration_deadline: "2026-10-01"@,
            platform: "County"@,
            platform_url: "https://www.cookcountytreasurer.com"@,
            auction_type: "Online"@,
            notes: "Chicago metro - LARGEST LIEN SALE; bid down from 18%"@,
            interest_rate: "18% (bid down)"@,
            redemption_period: "2-3 years"@,
            bidding_method: "Bid down interest rate"@,
            min_bid: "Taxes + fees"@,
            payment_deadline: "Varies"@,
        },
    ]
}

/// `s` is the first schedule of the table whose state is `key`.
pub open spec fn is_schedule_for(s: StateAuctionSchedule, key: Seq<char>) -> bool {
    exists|k: int|
        0 <= k < schedule_rows().len() && #[trigger] schedule_rows()[k] == schedule_view(s)
            && schedule_rows()[k].state == key && forall|j: int|
            0 <= j < k ==> (#[trigger] schedule_rows()[j]).state != key
}

pub open spec fn has_schedule(key: Seq<char>) -> bool {
    exists|k: int| 0 <= k < schedule_rows().len() && (#[trigger] schedule_rows()[k]).state == key
}

pub open spec fn listed_in(key: Seq<char>) -> spec_fn(ListingView) -> bool {
    |a: ListingView| a.state == key
}

/// No two schedules are for the same state, so a lookup by code finds the
/// one record that the full list holds for it.
#[verifier::rlimit(100)]
pub proof fn lemma_schedule_states_distinct()
    ensures
        forall|i: int, j: int|
            0 <= i < j < schedule_rows().len() ==> (#[trigger] schedule_rows()[i]).state
                != (#[trigger] schedule_rows()[j]).state,
{
    reveal_strlit("AL");
    reveal_strlit("AZ");
    reveal_strlit("CO");
    reveal_strlit("FL");
    reveal_strlit("GA");
    reveal_strlit("IL");
    reveal_strlit("IN");
    reveal_strlit("IA");
    reveal_strlit("KY");
    reveal_strlit("LA");
    reveal_strlit("MD");
    reveal_strlit("NJ");
    reveal_strlit("CT");
    reveal_strlit("DC");
    reveal_strlit("MA");
    reveal_strlit("MS");
    reveal_strlit("MO");
    reveal_strlit("MT");
    reveal_strlit("NE");
    reveal_strlit("NH");
    reveal_strlit("OK");
    reveal_strlit("RI");
    reveal_strlit("SC");
    reveal_strlit("SD");
    reveal_strlit("VT");
    reveal_strlit("WV");
    reveal_strlit("WY");
    reveal_strlit("TX");
    reveal_strlit("CA");
    reveal_strlit("MI");
    reveal_strlit("OH");
    reveal_strlit("PA");
    reveal_strlit("NY");
    reveal_strlit("AK");
    reveal_strlit("AR");
    reveal_strlit("DE");
    reveal_strlit("HI");
    reveal_strlit("ID");
    reveal_strlit("KS");
    reveal_strlit("ME");
    reveal_strlit("MN");
    reveal_strlit("NC");
    reveal_strlit("ND");
    reveal_strlit("NM");
    reveal_strlit("NV");
    reveal_strlit("OR");
    reveal_strlit("TN");
    reveal_strlit("UT");
    reveal_strlit("VA");
    reveal_strlit("WA");
    reveal_strlit("WI");
    assert forall|i: int, j: int|
        0 <= i < j < schedule_rows().len() implies (#[trigger] schedule_rows()[i]).state
            != (#[trigger] schedule_rows()[j]).state by {
        assert(schedule_rows()[i].state.len() == 2);
        assert(schedule_rows()[j].state.len() == 2);
        assert(schedule_rows()[i].state[0] != schedule_rows()[j].state[0]
            || schedule_rows()[i].state[1] != schedule_rows()[j].state[1]);
    }
}

/// Looking up the state of any listed schedule gives back that schedule
/// whole.
pub proof fn lemma_schedule_lookup_is_listed(s: StateAuctionSchedule, k: int)
    requires
        0 <= k < schedule_rows().len(),
        is_schedule_for(s, schedule_rows()[k].state),
    ensures
        schedule_view(s) == schedule_rows()[k],
{
    lemma_schedule_states_distinct();
    let j = choose|j: int|
        0 <= j < schedule_rows().len() && #[trigger] schedule_rows()[j] == schedule_view(s)
            && schedule_rows()[j].state == schedule_rows()[k].state && forall|m: int|
            0 <= m < j ==> (#[trigger] schedule_rows()[m]).state != schedule_rows()[k].state;
    if j != k {
        if j < k {
            assert(schedule_rows()[j].state != schedule_rows()[k].state);
        } else {
            assert(schedule_rows()[k].state != schedule_rows()[j].state);
        }
    }
}

/// Every platform known.
pub fn get_platforms() -> (r: Vec<AuctionPlatform>)
    ensures
        r@.map_values(|p: AuctionPlatform| platform_view(p)) == platform_rows(),
{
    let mut r: Vec<AuctionPlatform> = Vec::new();
    {
        let states_covered = vec!["PA", "CA", "WA", "NJ", "MD", "VA", "GA", "NC", "DE"];
        assert(states_covered@ =~= seq!["PA", "CA", "WA", "NJ", "MD", "VA", "GA", "NC", "DE"]);
        let auction_types = vec!["Tax Deed", "Sheriff Sale", "Tax Lien"];
        assert(auction_types@ =~= seq!["Tax Deed", "Sheriff Sale", "Tax Lien"]);
        r.push(
        AuctionPlatform {
            name: String::from_str("Bid4Assets"),
            url: String::from_str("https://www.bid4assets.com"),
            states_covered: texts(states_covered),
            auction_types: texts(auction_types),
            registration_required: true,
            deposit_info: String::from_str("$500-$2,500 depending on county"),
        },
        );
    }
    {
        let states_covered = vec!["FL", "TX", "AZ", "GA", "CO"];
        assert(states_covered@ =~= seq!["FL", "TX", "AZ", "GA", "CO"]);
        let auction_types = vec!["Tax Lien", "Tax Deed"];
        assert(auction_types@ =~= seq!["Tax Lien", "Tax Deed"]);
        r.push(
        AuctionPlatform {
            name: String::from_str("RealAuction"),
            url: String::from_str("https://www.realauction.com"),
            states_covered: texts(states_covered),
            auction_types: texts(auction_types),
            registration_required: true,
            deposit_info: String::from_str("$500-$2,000 depending on county"),
        },
        );
    }
    {
        let states_covered = vec!["IN", "IL", "MI", "OH", "NE"];
        assert(states_covered@ =~= seq!["IN", "IL", "MI", "OH", "NE"]);
        let auction_types = vec!["Tax Lien", "Tax Deed"];
        assert(auction_types@ =~= seq!["Tax Lien", "Tax Deed"]);
        r.push(
        AuctionPlatform {
            name: String::from_str("GovEase"),
            url: String::from_str("https://www.govease.com"),
            states_covered: texts(states_covered),
            auction_types: texts(auction_types),
            registration_required: true,
            deposit_info: String::from_str("Varies by county - typically $200-$1,000"),
        },
        );
    }
    {
        let states_covered = vec!["NJ", "NY"];
        assert(states_covered@ =~= seq!["NJ", "NY"]);
        let auction_types = vec!["Tax Lien"];
        assert(auction_types@ =~= seq!["Tax Lien"]);
        r.push(
        AuctionPlatform {
            name: String::from_str("Zeusauction"),
            url: String::from_str("https://www.zeusauction.com"),
            states_covered: texts(states_covered),
            auction_types: texts(auction_types),
            registration_required: true,
            deposit_info: String::from_str("Varies by municipality"),
        },
        );
    }
    {
        let states_covered = vec!["TX", "GA", "FL"];
        assert(states_covered@ =~= seq!["TX", "GA", "FL"]);
        let auction_types = vec!["Tax Deed"];
        assert(auction_types@ =~= seq!["Tax Deed"]);
        r.push(
        AuctionPlatform {
            name: String::from_str("SRI (Grant Street Group)"),
            url: String::from_str("https://www.tax-sale.info"),
            states_covered: texts(states_covered),
            auction_types: texts(auction_types),
            registration_required: true,
            deposit_info: String::from_str("$1,000-$5,000"),
        },
        );
    }
    {
        let states_covered = vec!["LA"];
        assert(states_covered@ =~= seq!["LA"]);
        let auction_types = vec!["Tax Lien"];
        assert(auction_types@ =~= seq!["Tax Lien"]);
        r.push(
        AuctionPlatform {
            name: String::from_str("CivicSource"),
            url: String::from_str("https://www.civicsource.com"),
            states_covered: texts(states_covered),
            auction_types: texts(auction_types),
            registration_required: true,
            deposit_info: String::from_str("Varies by parish"),
        },
        );
    }
    assert(r@.map_values(|p: AuctionPlatform| platform_view(p)) =~= platform_rows());
    r
}

/// Appends schedules 0 to 8.
fn push_schedules_0_to_8(r: &mut Vec<StateAuctionSchedule>)
    ensures
        final(r)@.map_values(|x: StateAuctionSchedule| schedule_view(x)) == old(r)@.map_values(|x: StateAuctionSchedule| schedule_view(x)) + schedule_rows().subrange(
            0,
            9,
        ),
{
    let ghost before = r@;
    {
        let typical_months = vec!["May", "June"];
        assert(typical_months@ =~= seq!["May", "June"]);
        r.push(
        StateAuctionSchedule {
            state: String::from_str("AL"),
            sale_type: String::from_str("Tax Lien"),
            frequency: String::from_str("Annual"),
            typical_months: texts(typical_months),
            typical_day: String::from_str("Varies by county"),
            interest_rate: String::from_str("12%"),
            redemption_period: String::from_str("3 years"),
            bidding_method: String::from_str("Premium bidding"),
            online_available: true,
            primary_platform: String::from_str("County"),
            deposit_range: String::from_str("$50-$200"),
            notes: String::from_str("12% interest from date of sale; premium not refunded if redeemed"),
        },
        );
    }
    {
        let typical_months = vec!["February"];
        assert(typical_months@ =~= seq!["February"]);
        r.push(
        StateAuctionSchedule {
            state: String::from_str("AZ"),
            sale_type: String::from_str("Tax Lien"),
            frequency: String::from_str("Annual"),
            typical_months: texts(typical_months),
            typical_day: String::from_str("2nd Tuesday"),
            interest_rate: String::from_str("16% max (bid down)"),
            redemption_period: String::from_str("3 years"),
            bidding_method: String::from_str("Bid down interest rate"),
            online_available: true,
            primary_platform: String::from_str("RealAuction / County"),
            deposit_range: String::from_str("$500-$2,000"),
            notes: String::from_str("Most counties online; Maricopa is largest sale in US; bid starts at 16% and goes down"),
        },
        );
    }
    {
        let typical_months = vec!["November"];
        assert(typical_months@ =~= seq!["November"]);
        r.push(
        StateAuctionSchedule {
            state: String::from_str("CO"),
            sale_type: String::from_str("Tax Lien"),
            frequency: String::from_str("Annual"),
            typical_months: texts(typical_months),
            typical_day: String::from_str("Varies"),
            interest_rate: String::from_str("Federal discount + 9%"),
            redemption_period: String::from_str("3 years"),
            bidding_method: String::from_str("Premium bidding"),
            online_available: true,
            primary_platform: String::from_str("RealAuction"),
            deposit_range: String::from_str("$200-$1,000"),
            notes: String::from_str("Rate tied to federal discount rate; premium lost if redeemed"),
        },
        );
    }
    {
        let typical_months = vec!["May", "June"];
        assert(typical_months@ =~= seq!["May", "June"]);
        r.push(
        StateAuctionSchedule {
            state: String::from_str("FL"),
            sale_type: String::from_str("Tax Lien"),
            frequency: String::from_str("Annual"),
            typical_months: texts(typical_months),
            typical_day: String::from_str("Varies by county"),
            interest_rate: String::from_str("18% max (bid down) - 5% minimum guaranteed"),
            redemption_period: String::from_str("2 years"),
            bidding_method: String::from_str("Bid down interest rate"),
            online_available: true,
            primary_platform: String::from_str("RealAuction"),
            deposit_range: String::from_str("$500-$2,500"),
            notes: String::from_str("Guaranteed 5% minimum return; most competitive state; major counties all online"),
        },
        );
    }
    {
        let typical_months = vec!["Year-round"];
        assert(typical_months@ =~= seq!["Year-round"]);
        r.push(
        StateAuctionSchedule {
            state: String::from_str("GA"),
            sale_type: String::from_str("Tax Lien"),
            frequency: String::from_str("Monthly"),
            typical_months: texts(typical_months),
            typical_day: String::from_str("1st Tuesday of month"),
            interest_rate: String::from_str("20% (escalates to 30%, then 40%)"),
            redemption_period: String::from_str("1 year"),
            bidding_method: String::from_str("Premium bidding"),
            online_available: true,
            primary_platform: String::from_str("County / Bid4Assets"),
            deposit_range: String::from_str("$1,000-$5,000"),
            notes: String::from_str("Highest escalating rate in US; 20% year 1, 30% year 2, 40% year 3"),
        },
        );
    }
    {
        let typical_months = vec!["October", "November"];
        assert(typical_months@ =~= seq!["October", "November"]);
        r.push(
        StateAuctionSchedule {
            state: String::from_str("IL"),
            sale_type: String::from_str("Tax Lien"),
            frequency: String::from_str("Annual"),
            typical_months: texts(typical_months),
            typical_day: String::from_str("Varies by county"),
            interest_rate: String::from_str("18% (bid down)"),
            redemption_period: String::from_str("2-3 years"),
            bidding_method: String::from_str("Bid down interest rate"),
            online_available: true,
            primary_platform: String::from_str("GovEase / County"),
            deposit_range: String::from_str("$500-$2,000"),
            notes: String::from_str("Cook County largest sale; graduated penalty system on redemption"),
        },
        );
    }
    {
        let typical_months = vec!["September", "October"];
        assert(typical_months@ =~= seq!["September", "October"]);
        r.push(
        StateAuctionSchedule {
            state: String::from_str("IN"),
            sale_type: String::from_str("Tax Lien"),
            frequency: String::from_str("Annual/Semi-annual"),
            typical_months: texts(typical_months),
            typical_day: String::from_str("Varies"),
            interest_rate: String::from_str("10-15% graduated"),
            redemption_period: String::from_str("1 year"),
            bidding_method: String::from_str("A/B/C tiered sales"),
            online_available: true,
            primary_platform: String::from_str("GovEase / SRI"),
            deposit_range: String::from_str("$200-$500"),
            notes: String::from_str("A sale = certified; B/C = commissioner sales; complex system"),
        },
        );
    }
    {
        let typical_months = vec!["June"];
        assert(typical_months@ =~= seq!["June"]);
        r.push(
        StateAuctionSchedule {
            state: String::from_str("IA"),
            sale_type: String::from_str("Tax Lien"),
            frequency: String::from_str("Annual"),
            typical_months: texts(typical_months),
            typical_day: String::from_str("3rd Monday"),
            interest_rate: String::from_str("24% (HIGHEST IN US)"),
            redemption_period: String::from_str("1 year 9 months"),
            bidding_method: String::from_str("Bid down ownership percentage"),
            online_available: false,
            primary_platform: String::from_str("County (in-person)"),
            deposit_range: String::from_str("$200-$500"),
            notes: String::from_str("Highest rate in nation; bid for smallest undivided interest; must negotiate deed"),
        },
        );
    }
    {
        let typical_months = vec!["July", "August"];
        assert(typical_months@ =~= seq!["July", "August"]);
        r.push(
        StateAuctionSchedule {
            state: String::from_str("KY"),
            sale_type: String::from_str("Tax Lien"),
            frequency: String::from_str("Annual"),
            typical_months: texts(typical_months),
            typical_day: String::from_str("Varies"),
            interest_rate: String::from_str("12%"),
            redemption_period: String::from_str("1 year"),
            bidding_method: String::from_str("First-come or auction"),
            online_available: false,
            primary_platform: String::from_str("County"),
            deposit_range: String::from_str("$100-$300"),
            notes: String::from_str("12% from date of issuance; smaller market"),
        },
        );
    }
    assert(r@.map_values(|x: StateAuctionSchedule| schedule_view(x)) =~= before.map_values(|x: StateAuctionSchedule| schedule_view(x)) + schedule_rows().subrange(
        0,
        9,
    ));
}

/// Appends schedules 9 to 17.
fn push_schedules_9_to_17(r: &mut Vec<StateAuctionSchedule>)
    ensures
        final(r)@.map_values(|x: StateAuctionSchedule| schedule_view(x)) == old(r)@.map_values(|x: StateAuctionSchedule| schedule_view(x)) + schedule_rows().subrange(
            9,
            18,
        ),
{
    let ghost before = r@;
    {
        let typical_months = vec!["June", "July"];
        assert(typical_months@ =~= seq!["June", "July"]);
        r.push(
        StateAuctionSchedule {
            state: String::from_str("LA"),
            sale_type: String::from_str("Tax Lien"),
            frequency: String::from_str("Varies by parish"),
            typical_months: texts(typical_months),
            typical_day: String::from_str("Varies"),
            interest_rate: String::from_str("Bid-down (2024-2025 reform)"),
            redemption_period: String::from_str("3 years"),
            bidding_method: String::from_str("Bid down interest rate (new system)"),
            online_available: true,
            primary_platform: String::from_str("CivicSource"),
            deposit_range: String::from_str("$300-$1,000"),
            notes: String::from_str("Major 2024-2025 reform: now bid-down system; previously 12% + 5% penalty"),
        },
        );
    }
    {
        let typical_months = vec!["May", "June"];
        assert(typical_months@ =~= seq!["May", "June"]);
        r.push(
        StateAuctionSchedule {
            state: String::from_str("MD"),
            sale_type: String::from_str("Tax Lien"),
            frequency: String::from_str("Annual"),
            typical_months: texts(typical_months),
            typical_day: String::from_str("Varies by county"),
            interest_rate: String::from_str("18-24%"),
            redemption_period: String::from_str("6 months"),
            bidding_method: String::from_str("Bid down or premium"),
            online_available: true,
            primary_platform: String::from_str("Bid4Assets"),
            deposit_range: String::from_str("$1,000-$2,500"),
            notes: String::from_str("Short 6-month redemption; near DC; high rates; competitive"),
        },
        );
    }
    {
        let typical_months = vec!["October", "November", "December"];
        assert(typical_months@ =~= seq!["October", "November", "December"]);
        r.push(
        StateAuctionSchedule {
            state: String::from_str("NJ"),
            sale_type: String::from_str("Tax Lien"),
            frequency: String::from_str("Varies by municipality"),
            typical_months: texts(typical_months),
            typical_day: String::from_str("Varies"),
            interest_rate: String::from_str("18% (bid down)"),
            redemption_period: String::from_str("2 years"),
            bidding_method: String::from_str("Bid down interest rate"),
            online_available: true,
            primary_platform: String::from_str("Zeusauction / Bid4Assets"),
            deposit_range: String::from_str("$1,000-$5,000"),
            notes: String::from_str("Active market; high property values; each municipality runs own sale"),
        },
        );
    }
    {
        let typical_months = vec!["June", "July"];
        assert(typical_months@ =~= seq!["June", "July"]);
        r.push(
        StateAuctionSchedule {
            state: String::from_str("CT"),
            sale_type: String::from_str("Tax Lien"),
            frequency: String::from_str("Annual"),
            typical_months: texts(typical_months),
            typical_day: String::from_str("Varies"),
            interest_rate: String::from_str("18%"),
            redemption_period: String::from_str("6 months"),
            bidding_method: String::from_str("Premium bidding"),
            online_available: false,
            primary_platform: String::from_str("County (in-person)"),
            deposit_range: String::from_str("$500-$2,000"),
            notes: String::from_str("Combined lien/deed format; larger towns only; limited availability"),
        },
        );
    }
    {
        let typical_months = vec!["July"];
        assert(typical_months@ =~= seq!["July"]);
        r.push(
        StateAuctionSchedule {
            state: String::from_str("DC"),
            sale_type: String::from_str("Tax Lien"),
            frequency: String::from_str("Annual"),
            typical_months: texts(typical_months),
            typical_day: String::from_str("Varies"),
            interest_rate: String::from_str("18%"),
            redemption_period: String::from_str("6 months"),
            bidding_method: String::from_str("Premium bidding"),
            online_available: true,
            primary_platform: String::from_str("DC Government"),
            deposit_range: String::from_str("$1,000-$5,000"),
            notes: String::from_str("Short 6-month redemption; premium bidding; high competition"),
        },
        );
    }
    {
        let typical_months = vec!["Varies"];
        assert(typical_months@ =~= seq!["Varies"]);
        r.push(
        StateAuctionSchedule {
            state: String::from_str("MA"),
            sale_type: String::from_str("Tax Lien"),
            frequency: String::from_str("Annual"),
            typical_months: texts(typical_months),
            typical_day: String::from_str("Varies by town"),
            interest_rate: String::from_str("16%"),
            redemption_period: String::from_str("Collector's deed"),
            bidding_method: String::from_str("Bid down ownership percentage"),
            online_available: false,
            primary_platform: String::from_str("Town Collector"),
            deposit_range: String::from_str("$500-$2,000"),
            notes: String::from_str("Bid for smallest undivided part; complex process; high property values"),
        },
        );
    }
    {
        let typical_months = vec!["August"];
        assert(typical_months@ =~= seq!["August"]);
        r.push(
        StateAuctionSchedule {
            state: String::from_str("MS"),
            sale_type: String::from_str("Tax Lien"),
            frequency: String::from_str("Annual"),
            typical_months: texts(typical_months),
            typical_day: String::from_str("Last Monday"),
            interest_rate: String::from_str("18%"),
            redemption_period: String::from_str("2 years"),
            bidding_method: String::from_str("Premium bidding"),
            online_available: false,
            primary_platform: String::from_str("County"),
            deposit_range: String::from_str("$100-$500"),
            notes: String::from_str("Less competition; in-person required; smaller market"),
        },
        );
    }
    {
        let typical_months = vec!["August"];
        assert(typical_months@ =~= seq!["August"]);
        r.push(
        StateAuctionSchedule {
            state: String::from_str("MO"),
            sale_type: String::from_str("Tax Lien"),
            frequency: String::from_str("Annual"),
            typical_months: texts(typical_months),
            typical_day: String::from_str("4th Monday"),
            interest_rate: String::from_str("10%"),
            redemption_period: String::from_str("2 years"),
            bidding_method: String::from_str("Premium bidding"),
            online_available: false,
            primary_platform: String::from_str("County"),
            deposit_range: String::from_str("$100-$500"),
            notes: String::from_str("10% interest; 18% penalty each year delinquent; in-person sales"),
        },
        );
    }
    {
        let typical_months = vec!["July"];
        assert(typical_months@ =~= seq!["July"]);
        r.push(
        StateAuctionSchedule {
            state: String::from_str("MT"),
            sale_type: String::from_str("Tax Lien"),
            frequency: String::from_str("Annual"),
            typical_months: texts(typical_months),
            typical_day: String::from_str("Varies"),
            interest_rate: String::from_str("10%"),
            redemption_period: String::from_str("2-3 years"),
            bidding_method: String::from_str("Premium bidding"),
            online_available: false,
            primary_platform: String::from_str("County"),
            deposit_range: String::from_str("$100-$500"),
            notes: String::from_str("5/6 of 1% per month (10% annual); small market; rural properties"),
        },
        );
    }
    assert(r@.map_values(|x: StateAuctionSchedule| schedule_view(x)) =~= before.map_values(|x: StateAuctionSchedule| schedule_view(x)) + schedule_rows().subrange(
        9,
        18,
    ));
}

/// Appends schedules 18 to 26.
fn push_schedules_18_to_26(r: &mut Vec<StateAuctionSchedule>)
    ensures
        final(r)@.map_values(|x: StateAuctionSchedule| schedule_view(x)) == old(r)@.map_values(|x: StateAuctionSchedule| schedule_view(x)) + schedule_rows().subrange(
            18,
            27,
        ),
{
    let ghost before = r@;
    {
        let typical_months = vec!["March"];
        assert(typical_months@ =~= seq!["March"]);
        r.push(
        StateAuctionSchedule {
            state: String::from_str("NE"),
            sale_type: String::from_str("Tax Lien"),
            frequency: String::from_str("Annual"),
            typical_months: texts(typical_months),
            typical_day: String::from_str("1st Monday"),
            interest_rate: String::from_str("14%"),
            redemption_period: String::from_str("3 years"),
            bidding_method: String::from_str("Premium bidding"),
            online_available: true,
            primary_platform: String::from_str("GovEase / County"),
            deposit_range: String::from_str("$200-$500"),
            notes: String::from_str("14% annual interest; undivided interest system; moderate market"),
        },
        );
    }
    {
        let typical_months = vec!["May", "June"];
        assert(typical_months@ =~= seq!["May", "June"]);
        r.push(
        StateAuctionSchedule {
            state: String::from_str("NH"),
            sale_type: String::from_str("Tax Lien"),
            frequency: String::from_str("Annual"),
            typical_months: texts(typical_months),
            typical_day: String::from_str("Varies"),
            interest_rate: String::from_str("18%"),
            redemption_period: String::from_str("2 years"),
            bidding_method: String::from_str("Bid down ownership percentage"),
            online_available: false,
            primary_platform: String::from_str("Town"),
            deposit_range: String::from_str("$500-$1,000"),
            notes: String::from_str("Bid for percentage of undivided interest; high property values"),
        },
        );
    }
    {
        let typical_months = vec!["June"];
        assert(typical_months@ =~= seq!["June"]);
        r.push(
        StateAuctionSchedule {
            state: String::from_str("OK"),
            sale_type: String::from_str("Tax Lien"),
            frequency: String::from_str("Annual"),
            typical_months: texts(typical_months),
            typical_day: String::from_str("2nd Monday"),
            interest_rate: String::from_str("8%"),
            redemption_period: String::from_str("2 years"),
            bidding_method: String::from_str("Random drawing"),
            online_available: false,
            primary_platform: String::from_str("County"),
            deposit_range: String::from_str("$100-$500"),
            notes: String::from_str("Unique random drawing for ties; 8% rate is lower; in-person"),
        },
        );
    }
    {
        let typical_months = vec!["December"];
        assert(typical_months@ =~= seq!["December"]);
        r.push(
        StateAuctionSchedule {
            state: String::from_str("RI"),
            sale_type: String::from_str("Tax Lien"),
            frequency: String::from_str("Annual"),
            typical_months: texts(typical_months),
            typical_day: String::from_str("Varies"),
            interest_rate: String::from_str("10% + 1%/month"),
            redemption_period: String::from_str("1 year"),
            bidding_method: String::from_str("Premium bidding"),
            online_available: false,
            primary_platform: String::from_str("City/Town"),
            deposit_range: String::from_str("$500-$1,000"),
            notes: String::from_str("10% first 6 months, 1%/month after; Collector's Deed; small state"),
        },
        );
    }
    {
        let typical_months = vec!["October", "November"];
        assert(typical_months@ =~= seq!["October", "November"]);
        r.push(
        StateAuctionSchedule {
            state: String::from_str("SC"),
            sale_type: String::from_str("Tax Lien"),
            frequency: String::from_str("Annual"),
            typical_months: texts(typical_months),
            typical_day: String::from_str("Varies"),
            interest_rate: String::from_str("8% penalty"),
            redemption_period: String::from_str("1 year"),
            bidding_method: String::from_str("Highest and best bid"),
            online_available: false,
            primary_platform: String::from_str("County"),
            deposit_range: String::from_str("$100-$500"),
            notes: String::from_str("8% penalty rather than interest; short 1-year redemption"),
        },
        );
    }
    {
        let typical_months = vec!["December"];
        assert(typical_months@ =~= seq!["December"]);
        r.push(
        StateAuctionSchedule {
            state: String::from_str("SD"),
            sale_type: String::from_str("Tax Lien"),
            frequency: String::from_str("Annual"),
            typical_months: texts(typical_months),
            typical_day: String::from_str("3rd Tuesday"),
            interest_rate: String::from_str("12% (max 10% bid)"),
            redemption_period: String::from_str("3-4 years"),
            bidding_method: String::from_str("Bid down interest rate"),
            online_available: false,
            primary_platform: String::from_str("County"),
            deposit_range: String::from_str("$100-$300"),
            notes: String::from_str("Bid down from 10% max; 12% statutory; long redemption"),
        },
        );
    }
    {
        let typical_months = vec!["April", "May", "June", "July"];
        assert(typical_months@ =~= seq!["April", "May", "June", "July"]);
        r.push(
        StateAuctionSchedule {
            state: String::from_str("VT"),
            sale_type: String::from_str("Tax Lien"),
            frequency: String::from_str("Annual"),
            typical_months: texts(typical_months),
            typical_day: String::from_str("Varies"),
            interest_rate: String::from_str("12%"),
            redemption_period: String::from_str("1 year"),
            bidding_method: String::from_str("Premium bidding"),
            online_available: false,
            primary_platform: String::from_str("Town"),
            deposit_range: String::from_str("$200-$500"),
            notes: String::from_str("12% interest; 1-year redemption; small rural market"),
        },
        );
    }
    {
        let typical_months = vec!["October", "November"];
        assert(typical_months@ =~= seq!["October", "November"]);
        r.push(
        StateAuctionSchedule {
            state: String::from_str("WV"),
            sale_type: String::from_str("Tax Lien"),
            frequency: String::from_str("Annual"),
            typical_months: texts(typical_months),
            typical_day: String::from_str("Varies"),
            interest_rate: String::from_str("12%"),
            redemption_period: String::from_str("1 year"),
            bidding_method: String::from_str("Highest bidder"),
            online_available: false,
            primary_platform: String::from_str("County"),
            deposit_range: String::from_str("$100-$500"),
            notes: String::from_str("12% interest; highest bidder at public auction; rural properties"),
        },
        );
    }
    {
        let typical_months = vec!["September"];
        assert(typical_months@ =~= seq!["September"]);
        r.push(
        StateAuctionSchedule {
            state: String::from_str("WY"),
            sale_type: String::from_str("Tax Lien"),
            frequency: String::from_str("Annual"),
            typical_months: texts(typical_months),
            typical_day: String::from_str("Varies"),
            interest_rate: String::from_str("15% + 3% penalty"),
            redemption_period: String::from_str("4 years"),
            bidding_method: String::from_str("Premium bidding"),
            online_available: false,
            primary_platform: String::from_str("County"),
            deposit_range: String::from_str("$100-$500"),
            notes: String::from_str("Longest redemption period; 15% interest + 3% penalty + fees"),
        },
        );
    }
    assert(r@.map_values(|x: StateAuctionSchedule| schedule_view(x)) =~= before.map_values(|x: StateAuctionSchedule| schedule_view(x)) + schedule_rows().subrange(
        18,
        27,
    ));
}

/// Appends schedules 27 to 35.
fn push_schedules_27_to_35(r: &mut Vec<StateAuctionSchedule>)
    ensures
        final(r)@.map_values(|x: StateAuctionSchedule| schedule_view(x)) == old(r)@.map_values(|x: StateAuctionSchedule| schedule_view(x)) + schedule_rows().subrange(
            27,
            36,
        ),
{
    let ghost before = r@;
    {
        let typical_months = vec!["Year-round"];
        assert(typical_months@ =~= seq!["Year-round"]);
        r.push(
        StateAuctionSchedule {
            state: String::from_str("TX"),
            sale_type: String::from_str("Tax Deed"),
            frequency: String::from_str("Monthly"),
            typical_months: texts(typical_months),
            typical_day: String::from_str("1st Tuesday of month"),
            interest_rate: String::from_str("25% penalty on redemption"),
            redemption_period: String::from_str("6 months (non-homestead) / 2 years (homestead)"),
            bidding_method: String::from_str("Highest bidder"),
            online_available: true,
            primary_platform: String::from_str("County / RealAuction"),
            deposit_range: String::from_str("$2,000-$5,000"),
            notes: String::from_str("25% penalty if redeemed; largest deed state; no state income tax"),
        },
        );
    }
    {
        let typical_months = vec!["March", "April", "September"];
        assert(typical_months@ =~= seq!["March", "April", "September"]);
        r.push(
        StateAuctionSchedule {
            state: String::from_str("CA"),
            sale_type: String::from_str("Tax Deed"),
            frequency: String::from_str("Varies"),
            typical_months: texts(typical_months),
            typical_day: String::from_str("Varies by county"),
            interest_rate: String::from_str("N/A"),
            redemption_period: String::from_str("5 years (pre-sale)"),
            bidding_method: String::from_str("Highest bidder"),
            online_available: true,
            primary_platform: String::from_str("Bid4Assets"),
            deposit_range: String::from_str("$2,500-$5,000"),
            notes: String::from_str("Clear title; high values; 5-year pre-sale redemption; very competitive"),
        },
        );
    }
    {
        let typical_months = vec!["July"];
        assert(typical_months@ =~= seq!["July"]);
        r.push(
        StateAuctionSchedule {
            state: String::from_str("MI"),
            sale_type: String::from_str("Tax Deed"),
            frequency: String::from_str("Annual"),
            typical_months: texts(typical_months),
            typical_day: String::from_str("3rd Tuesday"),
            interest_rate: String::from_str("N/A"),
            redemption_period: String::from_str("None after sale"),
            bidding_method: String::from_str("Highest bidder"),
            online_available: true,
            primary_platform: String::from_str("GovEase / County"),
            deposit_range: String::from_str("$500-$2,000"),
            notes: String::from_str("No redemption after sale; min bid = taxes + estimated FMV; Detroit challenges"),
        },
        );
    }
    {
        let typical_months = vec!["Year-round"];
        assert(typical_months@ =~= seq!["Year-round"]);
        r.push(
        StateAuctionSchedule {
            state: String::from_str("OH"),
            sale_type: String::from_str("Tax Deed"),
            frequency: String::from_str("Varies"),
            typical_months: texts(typical_months),
            typical_day: String::from_str("Varies by county"),
            interest_rate: String::from_str("N/A"),
            redemption_period: String::from_str("None after sale"),
            bidding_method: String::from_str("Highest bidder"),
            online_available: true,
            primary_platform: String::from_str("GovEase / County"),
            deposit_range: String::from_str("$500-$2,000"),
            notes: String::from_str("Sheriff's sale after judicial foreclosure; no redemption; large market"),
        },
        );
    }
    {
        let typical_months = vec!["Year-round"];
        assert(typical_months@ =~= seq!["Year-round"]);
        r.push(
        StateAuctionSchedule {
            state: String::from_str("PA"),
            sale_type: String::from_str("Tax Deed"),
            frequency: String::from_str("Monthly/Quarterly"),
            typical_months: texts(typical_months),
            typical_day: String::from_str("Varies by county"),
            interest_rate: String::from_str("N/A"),
            redemption_period: String::from_str("None after upset sale"),
            bidding_method: String::from_str("Highest bidder"),
            online_available: true,
            primary_platform: String::from_str("Bid4Assets"),
            deposit_range: String::from_str("$500-$2,500"),
            notes: String::from_str("Upset sale then free & clear sale; no redemption after upset; Philadelphia active"),
        },
        );
    }
    {
        let typical_months = vec!["Spring", "Fall"];
        assert(typical_months@ =~= seq!["Spring", "Fall"]);
        r.push(
        StateAuctionSchedule {
            state: String::from_str("NY"),
            sale_type: String::from_str("Tax Deed"),
            frequency: String::from_str("Varies"),
            typical_months: texts(typical_months),
            typical_day: String::from_str("Varies"),
            interest_rate: String::from_str("N/A"),
            redemption_period: String::from_str("2-4 years (varies by property type)"),
            bidding_method: String::from_str("Highest bidder"),
            online_available: true,
            primary_platform: String::from_str("Zeusauction / County"),
            deposit_range: String::from_str("$1,000-$5,000"),
            notes: String::from_str("2yr standard; 3-4yr residential/farm; judicial process; high values"),
        },
        );
    }
    {
        let typical_months = vec!["Varies"];
        assert(typical_months@ =~= seq!["Varies"]);
        r.push(
        StateAuctionSchedule {
            state: String::from_str("AK"),
            sale_type: String::from_str("Tax Deed"),
            frequency: String::from_str("Varies"),
            typical_months: texts(typical_months),
            typical_day: String::from_str("Varies"),
            interest_rate: String::from_str("N/A"),
            redemption_period: String::from_str("1 year"),
            bidding_method: String::from_str("Highest bidder"),
            online_available: false,
            primary_platform: String::from_str("Borough/City"),
            deposit_range: String::from_str("$500-$2,000"),
            notes: String::from_str("Municipal foreclosure; deeded to borough/city if unredeemed; limited sales"),
        },
        );
    }
    {
        let typical_months = vec!["Varies"];
        assert(typical_months@ =~= seq!["Varies"]);
        r.push(
        StateAuctionSchedule {
            state: String::from_str("AR"),
            sale_type: String::from_str("Tax Deed"),
            frequency: String::from_str("Varies"),
            typical_months: texts(typical_months),
            typical_day: String::from_str("Varies"),
            interest_rate: String::from_str("N/A"),
            redemption_period: String::from_str("30 days"),
            bidding_method: String::from_str("Highest bidder"),
            online_available: false,
            primary_platform: String::from_str("County"),
            deposit_range: String::from_str("$200-$1,000"),
            notes: String::from_str("Forfeited to state; limited warranty deed after 30 days; short redemption"),
        },
        );
    }
    {
        let typical_months = vec!["Varies"];
        assert(typical_months@ =~= seq!["Varies"]);
        r.push(
        StateAuctionSchedule {
            state: String::from_str("DE"),
            sale_type: String::from_str("Tax Deed"),
            frequency: String::from_str("Annual"),
            typical_months: texts(typical_months),
            typical_day: String::from_str("Varies"),
            interest_rate: String::from_str("15%"),
            redemption_period: String::from_str("60 days"),
            bidding_method: String::from_str("Highest bidder"),
            online_available: true,
            primary_platform: String::from_str("Bid4Assets"),
            deposit_range: String::from_str("$500-$2,000"),
            notes: String::from_str("Judicial foreclosure; 15% penalty on redemption; 60-day redemption"),
        },
        );
    }
    assert(r@.map_values(|x: StateAuctionSchedule| schedule_view(x)) =~= before.map_values(|x: StateAuctionSchedule| schedule_view(x)) + schedule_rows().subrange(
        27,
        36,
    ));
}

/// Appends schedules 36 to 44.
fn push_schedules_36_to_44(r: &mut Vec<StateAuctionSchedule>)
    ensures
        final(r)@.map_values(|x: StateAuctionSchedule| schedule_view(x)) == old(r)@.map_values(|x: StateAuctionSchedule| schedule_view(x)) + schedule_rows().subrange(
            36,
            45,
        ),
{
    let ghost before = r@;
    {
        let typical_months = vec!["Varies"];
        assert(typical_months@ =~= seq!["Varies"]);
        r.push(
        StateAuctionSchedule {
            state: String::from_str("HI"),
            sale_type: String::from_str("Tax Deed"),
            frequency: String::from_str("Varies"),
            typical_months: texts(typical_months),
            typical_day: String::from_str("Varies"),
            interest_rate: String::from_str("N/A"),
            redemption_period: String::from_str("1 year"),
            bidding_method: String::from_str("Highest bidder"),
            online_available: false,
            primary_platform: String::from_str("County"),
            deposit_range: String::from_str("$1,000-$5,000"),
            notes: String::from_str("3-year lien before auction; 1-year redemption after sale; high values"),
        },
        );
    }
    {
        let typical_months = vec!["January"];
        assert(typical_months@ =~= seq!["January"]);
        r.push(
        StateAuctionSchedule {
            state: String::from_str("ID"),
            sale_type: String::from_str("Tax Deed"),
            frequency: String::from_str("Annual"),
            typical_months: texts(typical_months),
            typical_day: String::from_str("Varies"),
            interest_rate: String::from_str("N/A"),
            redemption_period: String::from_str("3 years before deed"),
            bidding_method: String::from_str("Highest bidder"),
            online_available: false,
            primary_platform: String::from_str("County"),
            deposit_range: String::from_str("$200-$1,000"),
            notes: String::from_str("Tax deed to county after 3 years; then sold at auction"),
        },
        );
    }
    {
        let typical_months = vec!["September"];
        assert(typical_months@ =~= seq!["September"]);
        r.push(
        StateAuctionSchedule {
            state: String::from_str("KS"),
            sale_type: String::from_str("Tax Deed"),
            frequency: String::from_str("Varies"),
            typical_months: texts(typical_months),
            typical_day: String::from_str("Varies"),
            interest_rate: String::from_str("N/A"),
            redemption_period: String::from_str("Court judgment"),
            bidding_method: String::from_str("Highest bidder"),
            online_available: false,
            primary_platform: String::from_str("County"),
            deposit_range: String::from_str("$200-$1,000"),
            notes: String::from_str("Bid off to county; court petition for foreclosure"),
        },
        );
    }
    {
        let typical_months = vec!["Varies"];
        assert(typical_months@ =~= seq!["Varies"]);
        r.push(
        StateAuctionSchedule {
            state: String::from_str("ME"),
            sale_type: String::from_str("Tax Deed"),
            frequency: String::from_str("Varies"),
            typical_months: texts(typical_months),
            typical_day: String::from_str("Varies"),
            interest_rate: String::from_str("N/A"),
            redemption_period: String::from_str("18 months"),
            bidding_method: String::from_str("Highest bidder"),
            online_available: false,
            primary_platform: String::from_str("Town"),
            deposit_range: String::from_str("$500-$2,000"),
            notes: String::from_str("Tax lien mortgage auto-forecloses after 18 months"),
        },
        );
    }
    {
        let typical_months = vec!["May"];
        assert(typical_months@ =~= seq!["May"]);
        r.push(
        StateAuctionSchedule {
            state: String::from_str("MN"),
            sale_type: String::from_str("Tax Deed"),
            frequency: String::from_str("Annual"),
            typical_months: texts(typical_months),
            typical_day: String::from_str("Varies"),
            interest_rate: String::from_str("N/A"),
            redemption_period: String::from_str("None after sale"),
            bidding_method: String::from_str("Highest bidder"),
            online_available: true,
            primary_platform: String::from_str("County"),
            deposit_range: String::from_str("$500-$2,000"),
            notes: String::from_str("Tax-forfeited land auctions; cash or installment; no redemption"),
        },
        );
    }
    {
        let typical_months = vec!["Varies"];
        assert(typical_months@ =~= seq!["Varies"]);
        r.push(
        StateAuctionSchedule {
            state: String::from_str("NC"),
            sale_type: String::from_str("Tax Deed"),
            frequency: String::from_str("Varies"),
            typical_months: texts(typical_months),
            typical_day: String::from_str("Varies"),
            interest_rate: String::from_str("N/A"),
            redemption_period: String::from_str("Upset bid period"),
            bidding_method: String::from_str("Highest bidder"),
            online_available: true,
            primary_platform: String::from_str("Bid4Assets"),
            deposit_range: String::from_str("$500-$2,500"),
            notes: String::from_str("Judicial foreclosure or docketing certificate; upset bid period"),
        },
        );
    }
    {
        let typical_months = vec!["October"];
        assert(typical_months@ =~= seq!["October"]);
        r.push(
        StateAuctionSchedule {
            state: String::from_str("ND"),
            sale_type: String::from_str("Tax Deed"),
            frequency: String::from_str("Annual"),
            typical_months: texts(typical_months),
            typical_day: String::from_str("Varies"),
            interest_rate: String::from_str("Max 9%"),
            redemption_period: String::from_str("4 years"),
            bidding_method: String::from_str("Bid down interest rate"),
            online_available: false,
            primary_platform: String::from_str("County"),
            deposit_range: String::from_str("$100-$500"),
            notes: String::from_str("Bid down from 9%; 4-year redemption from due date"),
        },
        );
    }
    {
        let typical_months = vec!["Varies"];
        assert(typical_months@ =~= seq!["Varies"]);
        r.push(
        StateAuctionSchedule {
            state: String::from_str("NM"),
            sale_type: String::from_str("Tax Deed"),
            frequency: String::from_str("Varies"),
            typical_months: texts(typical_months),
            typical_day: String::from_str("Varies"),
            interest_rate: String::from_str("N/A"),
            redemption_period: String::from_str("120 days IRS only"),
            bidding_method: String::from_str("Highest bidder"),
            online_available: false,
            primary_platform: String::from_str("County"),
            deposit_range: String::from_str("$200-$1,000"),
            notes: String::from_str("No owner redemption; Quitclaim Deed issued; IRS has 120 days"),
        },
        );
    }
    {
        let typical_months = vec!["June"];
        assert(typical_months@ =~= seq!["June"]);
        r.push(
        StateAuctionSchedule {
            state: String::from_str("NV"),
            sale_type: String::from_str("Tax Deed"),
            frequency: String::from_str("Annual"),
            typical_months: texts(typical_months),
            typical_day: String::from_str("Varies"),
            interest_rate: String::from_str("N/A"),
            redemption_period: String::from_str("2 years before deed"),
            bidding_method: String::from_str("Highest bidder"),
            online_available: true,
            primary_platform: String::from_str("County"),
            deposit_range: String::from_str("$500-$2,000"),
            notes: String::from_str("Tax deed to Treasurer after 2 years; then auction; Las Vegas active"),
        },
        );
    }
    assert(r@.map_values(|x: StateAuctionSchedule| schedule_view(x)) =~= before.map_values(|x: StateAuctionSchedule| schedule_view(x)) + schedule_rows().subrange(
        36,
        45,
    ));
}

/// Appends schedules 45 to 50.
fn push_schedules_45_to_50(r: &mut Vec<StateAuctionSchedule>)
    ensures
        final(r)@.map_values(|x: StateAuctionSchedule| schedule_view(x)) == old(r)@.map_values(|x: StateAuctionSchedule| schedule_view(x)) + schedule_rows().subrange(
            45,
            51,
        ),
{
    let ghost before = r@;
    {
        let typical_months = vec!["Varies"];
        assert(typical_months@ =~= seq!["Varies"]);
        r.push(
        StateAuctionSchedule {
            state: String::from_str("OR"),
            sale_type: String::from_str("Tax Deed"),
            frequency: String::from_str("Annual"),
            typical_months: texts(typical_months),
            typical_day: String::from_str("Varies"),
            interest_rate: String::from_str("N/A"),
            redemption_period: String::from_str("2 years"),
            bidding_method: String::from_str("Highest bidder"),
            online_available: false,
            primary_platform: String::from_str("County"),
            deposit_range: String::from_str("$500-$2,000"),
            notes: String::from_str("Foreclosure after 3 years; sold to county; 2-year redemption"),
        },
        );
    }
    {
        let typical_months = vec!["Varies"];
        assert(typical_months@ =~= seq!["Varies"]);
        r.push(
        StateAuctionSchedule {
            state: String::from_str("TN"),
            sale_type: String::from_str("Tax Deed"),
            frequency: String::from_str("Varies"),
            typical_months: texts(typical_months),
            typical_day: String::from_str("Varies"),
            interest_rate: String::from_str("N/A"),
            redemption_period: String::from_str("1 year"),
            bidding_method: String::from_str("Highest bidder"),
            online_available: false,
            primary_platform: String::from_str("County"),
            deposit_range: String::from_str("$500-$2,000"),
            notes: String::from_str("2-year delinquent before Chancery Court suit; 1-year redemption"),
        },
        );
    }
    {
        let typical_months = vec!["May"];
        assert(typical_months@ =~= seq!["May"]);
        r.push(
        StateAuctionSchedule {
            state: String::from_str("UT"),
            sale_type: String::from_str("Tax Deed"),
            frequency: String::from_str("Annual"),
            typical_months: texts(typical_months),
            typical_day: String::from_str("Varies"),
            interest_rate: String::from_str("N/A"),
            redemption_period: String::from_str("4 years"),
            bidding_method: String::from_str("Highest bidder"),
            online_available: true,
            primary_platform: String::from_str("County"),
            deposit_range: String::from_str("$500-$2,000"),
            notes: String::from_str("Preliminary sale Jan 16; final sale May 4 years later"),
        },
        );
    }
    {
        let typical_months = vec!["Varies"];
        assert(typical_months@ =~= seq!["Varies"]);
        r.push(
        StateAuctionSchedule {
            state: String::from_str("VA"),
            sale_type: String::from_str("Tax Deed"),
            frequency: String::from_str("Varies"),
            typical_months: texts(typical_months),
            typical_day: String::from_str("Varies"),
            interest_rate: String::from_str("N/A"),
            redemption_period: String::from_str("Surplus rights only"),
            bidding_method: String::from_str("Highest bidder"),
            online_available: true,
            primary_platform: String::from_str("Bid4Assets"),
            deposit_range: String::from_str("$1,000-$5,000"),
            notes: String::from_str("Judicial foreclosure; 3 years after due date; surplus to former owner"),
        },
        );
    }
    {
        let typical_months = vec!["Varies"];
        assert(typical_months@ =~= seq!["Varies"]);
        r.push(
        StateAuctionSchedule {
            state: String::from_str("WA"),
            sale_type: String::from_str("Tax Deed"),
            frequency: String::from_str("Annual"),
            typical_months: texts(typical_months),
            typical_day: String::from_str("Varies"),
            interest_rate: String::from_str("N/A"),
            redemption_period: String::from_str("3 years before sale"),
            bidding_method: String::from_str("Highest bidder"),
            online_available: true,
            primary_platform: String::from_str("Bid4Assets"),
            deposit_range: String::from_str("$500-$2,500"),
            notes: String::from_str("Certificate of delinquency after 3 years; foreclosure judgment"),
        },
        );
    }
    {
        let typical_months = vec!["September"];
        assert(typical_months@ =~= seq!["September"]);
        r.push(
        StateAuctionSchedule {
            state: String::from_str("WI"),
            sale_type: String::from_str("Tax Deed"),
            frequency: String::from_str("Annual"),
            typical_months: texts(typical_months),
            typical_day: String::from_str("Varies"),
            interest_rate: String::from_str("N/A"),
            redemption_period: String::from_str("2 years"),
            bidding_method: String::from_str("Highest bidder"),
            online_available: true,
            primary_platform: String::from_str("County"),
            deposit_range: String::from_str("$500-$2,000"),
            notes: String::from_str("Tax deed after 2-year certificate; county cannot sell certificate"),
        },
        );
    }
    assert(r@.map_values(|x: StateAuctionSchedule| schedule_view(x)) =~= before.map_values(|x: StateAuctionSchedule| schedule_view(x)) + schedule_rows().subrange(
        45,
        51,
    ));
}

/// Appends listings 0 to 5.
fn push_listings_0_to_5(r: &mut Vec<AuctionListing>)
    ensures
        final(r)@.map_values(|x: AuctionListing| listing_view(x)) == old(r)@.map_values(|x: AuctionListing| listing_view(x)) + listing_rows().subrange(
            0,
            6,
        ),
{
    let ghost before = r@;
    r.push(
        AuctionListing {
            id: String::from_str("PA-MONROE-2026-01"),
            state: String::from_str("PA"),
            county: String::from_str("Monroe"),
            sale_type: String::from_str("Repository Sale"),
            sale_date: String::from_str("2026-01-14"),
            property_count: 150,
            deposit_required_dollars: 500,
            registration_deadline: String::from_str("2026-01-07"),
            platform: String::from_str("Bid4Assets"),
            platform_url: String::from_str("https://www.bid4assets.com/monroe-pa"),
            auction_type: String::from_str("Online"),
            notes: String::from_str("Poconos region - Repository sale; no redemption"),
            interest_rate: String::from_str("N/A - Deed sale"),
            redemption_period: String::from_str("None"),
            bidding_method: String::from_str("Highest bidder"),
            min_bid: String::from_str("Taxes owed"),
            payment_deadline: String::from_str("24 hours"),
        },
    );
    r.push(
        AuctionListing {
            id: String::from_str("PA-PHILA-2026-01"),
            state: String::from_str("PA"),
            county: String::from_str("Philadelphia"),
            sale_type: String::from_str("Sheriff Sale"),
            sale_date: String::from_str("2026-01-21"),
            property_count: 400,
            deposit_required_dollars: 600,
            registration_deadline: String::from_str("2026-01-14"),
            platform: String::from_str("Bid4Assets"),
            platform_url: String::from_str("https://www.bid4assets.com/philadelphia"),
            auction_type: String::from_str("Online"),
            notes: String::from_str("Largest urban market in PA; real property only"),
            interest_rate: String::from_str("N/A - Deed sale"),
            redemption_period: String::from_str("None"),
            bidding_method: String::from_str("Highest bidder"),
            min_bid: String::from_str("Upset amount"),
            payment_deadline: String::from_str("30 days"),
        },
    );
    r.push(
        AuctionListing {
            id: String::from_str("NJ-ESSEX-2026-01"),
            state: String::from_str("NJ"),
            county: String::from_str("Essex"),
            sale_type: String::from_str("Tax Lien"),
            sale_date: String::from_str("2026-01-28"),
            property_count: 180,
            deposit_required_dollars: 1000,
            registration_deadline: String::from_str("2026-01-21"),
            platform: String::from_str("Zeusauction"),
            platform_url: String::from_str("https://www.zeusauction.com"),
            auction_type: String::from_str("Online"),
            notes: String::from_str("Newark area - high property values; bid-down from 18%"),
            interest_rate: String::from_str("18% max (bid down)"),
            redemption_period: String::from_str("2 years"),
            bidding_method: String::from_str("Bid down interest rate"),
            min_bid: String::from_str("Taxes + fees"),
            payment_deadline: String::from_str("Same day"),
        },
    );
    r.push(
        AuctionListing {
            id: String::from_str("TX-HARRIS-2026-02"),
            state: String::from_str("TX"),
            county: String::from_str("Harris"),
            sale_type: String::from_str("Tax Deed"),
            sale_date: String::from_str("2026-02-03"),
            property_count: 450,
            deposit_required_dollars: 2500,
            registration_deadline: String::from_str("2026-01-27"),
            platform: String::from_str("County"),
            platform_url: String::from_str("https://www.hctax.net"),
            auction_type: String::from_str("In-Person"),
            notes: String::from_str("Houston metro - largest TX county; 25% penalty if redeemed"),
            interest_rate: String::from_str("25% penalty on redemption"),
            redemption_period: String::from_str("6 months (2 years homestead)"),
            bidding_method: String::from_str("Highest bidder"),
            min_bid: String::from_str("Judgment amount"),
            payment_deadline: String::from_str("Same day"),
        },
    );
    r.push(
        AuctionListing {
            id: String::from_str("TX-DALLAS-2026-02"),
            state: String::from_str("TX"),
            county: String::from_str("Dallas"),
            sale_type: String::from_str("Tax Deed"),
            sale_date: String::from_str("2026-02-03"),
            property_count: 380,
            deposit_required_dollars: 2000,
            registration_deadline: String::from_str("2026-01-27"),
            platform: String::from_str("RealAuction"),
            platform_url: String::from_str("https://www.realauction.com"),
            auction_type: String::from_str("Online"),
            notes: String::from_str("DFW metro - online auction; 25% penalty if redeemed"),
            interest_rate: String::from_str("25% penalty on redemption"),
            redemption_period: String::from_str("6 months (2 years homestead)"),
            bidding_method: String::from_str("Highest bidder"),
            min_bid: String::from_str("Min upset"),
            payment_deadline: String::from_str("Same day"),
        },
    );
    r.push(
        AuctionListing {
            id: String::from_str("TX-TARRANT-2026-02"),
            state: String::from_str("TX"),
            county: String::from_str("Tarrant"),
            sale_type: String::from_str("Tax Deed"),
            sale_date: String::from_str("2026-02-03"),
            property_count: 280,
            deposit_required_dollars: 2000,
            registration_deadline: String::from_str("2026-01-27"),
            platform: String::from_str("County"),
            platform_url: String::from_str("https://www.tarrantcounty.com"),
            auction_type: String::from_str("In-Person"),
            notes: String::from_str("Fort Worth metro - courthouse steps"),
            interest_rate: String::from_str("25% penalty on redemption"),
            redemption_period: String::from_str("6 months (2 years homestead)"),
            bidding_method: String::from_str("Highest bidder"),
            min_bid: String::from_str("Judgment amount"),
            payment_deadline: String::from_str("Same day"),
        },
    );
    assert(r@.map_values(|x: AuctionListing| listing_view(x)) =~= before.map_values(|x: AuctionListing| listing_view(x)) + listing_rows().subrange(
        0,
        6,
    ));
}

/// Appends listings 6 to 11.
fn push_listings_6_to_11(r: &mut Vec<AuctionListing>)
    ensures
        final(r)@.map_values(|x: AuctionListing| listing_view(x)) == old(r)@.map_values(|x: AuctionListing| listing_view(x)) + listing_rows().subrange(
            6,
            12,
        ),
{
    let ghost before = r@;
    r.push(
        AuctionListing {
            id: String::from_str("AZ-MARICOPA-2026-02"),
            state: String::from_str("AZ"),
            county: String::from_str("Maricopa"),
            sale_type: String::from_str("Tax Lien"),
            sale_date: String::from_str("2026-02-10"),
            property_count: 2800,
            deposit_required_dollars: 500,
            registration_deadline: String::from_str("2026-02-01"),
            platform: String::from_str("RealAuction"),
            platform_url: String::from_str("https://treasurer.maricopa.gov"),
            auction_type: String::from_str("Online"),
            notes: String::from_str("LARGEST TAX LIEN SALE IN US - Phoenix metro; bid down from 16%"),
            interest_rate: String::from_str("16% max (bid down to 0%)"),
            redemption_period: String::from_str("3 years"),
            bidding_method: String::from_str("Bid down interest rate"),
            min_bid: String::from_str("Taxes + fees"),
            payment_deadline: String::from_str("Varies"),
        },
    );
    r.push(
        AuctionListing {
            id: String::from_str("AZ-PIMA-2026-02"),
            state: String::from_str("AZ"),
            county: String::from_str("Pima"),
            sale_type: String::from_str("Tax Lien"),
            sale_date: String::from_str("2026-02-17"),
            property_count: 850,
            deposit_required_dollars: 300,
            registration_deadline: String::from_str("2026-02-07"),
            platform: String::from_str("RealAuction"),
            platform_url: String::from_str("https://www.pima.gov"),
            auction_type: String::from_str("Online"),
            notes: String::from_str("Tucson area - 2nd largest AZ sale; online"),
            interest_rate: String::from_str("16% max (bid down)"),
            redemption_period: String::from_str("3 years"),
            bidding_method: String::from_str("Bid down interest rate"),
            min_bid: String::from_str("Taxes owed"),
            payment_deadline: String::from_str("10 days"),
        },
    );
    r.push(
        AuctionListing {
            id: String::from_str("GA-FULTON-2026-02"),
            state: String::from_str("GA"),
            county: String::from_str("Fulton"),
            sale_type: String::from_str("Tax Lien"),
            sale_date: String::from_str("2026-02-03"),
            property_count: 320,
            deposit_required_dollars: 1000,
            registration_deadline: String::from_str("2026-01-27"),
            platform: String::from_str("County"),
            platform_url: String::from_str("https://www.fultoncountyga.gov"),
            auction_type: String::from_str("In-Person"),
            notes: String::from_str("Atlanta metro - HIGHEST ESCALATING RATE (20% → 30% → 40%)"),
            interest_rate: String::from_str("20% (escalates to 40%)"),
            redemption_period: String::from_str("1 year"),
            bidding_method: String::from_str("Premium bidding"),
            min_bid: String::from_str("Taxes + fees"),
            payment_deadline: String::from_str("Same day"),
        },
    );
    r.push(
        AuctionListing {
            id: String::from_str("GA-DEKALB-2026-02"),
            state: String::from_str("GA"),
            county: String::from_str("DeKalb"),
            sale_type: String::from_str("Tax Lien"),
            sale_date: String::from_str("2026-02-03"),
            property_count: 250,
            deposit_required_dollars: 1000,
            registration_deadline: String::from_str("2026-01-27"),
            platform: String::from_str("County"),
            platform_url: String::from_str("https://www.dekalbcountyga.gov"),
            auction_type: String::from_str("In-Person"),
            notes: String::from_str("Atlanta suburbs - 20% escalating rate"),
            interest_rate: String::from_str("20% (escalates to 40%)"),
            redemption_period: String::from_str("1 year"),
            bidding_method: String::from_str("Premium bidding"),
            min_bid: String::from_str("Taxes + fees"),
            payment_deadline: String::from_str("Same day"),
        },
    );
    r.push(
        AuctionListing {
            id: String::from_str("FL-BROWARD-2026-03"),
            state: String::from_str("FL"),
            county: String::from_str("Broward"),
            sale_type: String::from_str("Tax Deed"),
            sale_date: String::from_str("2026-03-04"),
            property_count: 45,
            deposit_required_dollars: 1000,
            registration_deadline: String::from_str("2026-02-25"),
            platform: String::from_str("RealAuction"),
            platform_url: String::from_str("https://www.broward.org/RecordsTaxesTreasury"),
            auction_type: String::from_str("Online"),
            notes: String::from_str("Fort Lauderdale - weekly auction; pre-registration required"),
            interest_rate: String::from_str("N/A - Deed sale"),
            redemption_period: String::from_str("None"),
            bidding_method: String::from_str("Highest bidder"),
            min_bid: String::from_str("Opening bid"),
            payment_deadline: String::from_str("24 hours"),
        },
    );
    r.push(
        AuctionListing {
            id: String::from_str("FL-PALM-2026-03"),
            state: String::from_str("FL"),
            county: String::from_str("Palm Beach"),
            sale_type: String::from_str("Tax Deed"),
            sale_date: String::from_str("2026-03-11"),
            property_count: 55,
            deposit_required_dollars: 1000,
            registration_deadline: String::from_str("2026-03-04"),
            platform: String::from_str("RealAuction"),
            platform_url: String::from_str("https://www.mypalmbeachclerk.com"),
            auction_type: String::from_str("Online"),
            notes: String::from_str("Wednesdays 9:30am ET; affluent area"),
            interest_rate: String::from_str("N/A - Deed sale"),
            redemption_period: String::from_str("None"),
            bidding_method: String::from_str("Highest bidder"),
            min_bid: String::from_str("Opening bid"),
            payment_deadline: String::from_str("24 hours"),
        },
    );
    assert(r@.map_values(|x: AuctionListing| listing_view(x)) =~= before.map_values(|x: AuctionListing| listing_view(x)) + listing_rows().subrange(
        6,
        12,
    ));
}

/// Appends listings 12 to 17.
fn push_listings_12_to_17(r: &mut Vec<AuctionListing>)
    ensures
        final(r)@.map_values(|x: AuctionListing| listing_view(x)) == old(r)@.map_values(|x: AuctionListing| listing_view(x)) + listing_rows().subrange(
            12,
            18,
        ),
{
    let ghost before = r@;
    r.push(
        AuctionListing {
            id: String::from_str("MD-BALTIMORE-2026-03"),
            state: String::from_str("MD"),
            county: String::from_str("Baltimore City"),
            sale_type: String::from_str("Tax Lien"),
            sale_date: String::from_str("2026-03-15"),
            property_count: 600,
            deposit_required_dollars: 2000,
            registration_deadline: String::from_str("2026-03-01"),
            platform: String::from_str("Bid4Assets"),
            platform_url: String::from_str("https://www.bid4assets.com"),
            auction_type: String::from_str("Online"),
            notes: String::from_str("Urban properties; 20% rate; short 6-month redemption"),
            interest_rate: String::from_str("20%"),
            redemption_period: String::from_str("6 months"),
            bidding_method: String::from_str("Premium bidding"),
            min_bid: String::from_str("Taxes + fees"),
            payment_deadline: String::from_str("10 days"),
        },
    );
    r.push(
        AuctionListing {
            id: String::from_str("FL-MIAMI-2026-05"),
            state: String::from_str("FL"),
            county: String::from_str("Miami-Dade"),
            sale_type: String::from_str("Tax Lien"),
            sale_date: String::from_str("2026-05-15"),
            property_count: 3500,
            deposit_required_dollars: 2500,
            registration_deadline: String::from_str("2026-05-01"),
            platform: String::from_str("RealAuction"),
            platform_url: String::from_str("https://www.miamidade.gov/taxcollector"),
            auction_type: String::from_str("Online"),
            notes: String::from_str("MAJOR SALE - 5% minimum guaranteed; very competitive"),
            interest_rate: String::from_str("18% max (bid down) - 5% GUARANTEED"),
            redemption_period: String::from_str("2 years"),
            bidding_method: String::from_str("Bid down interest rate"),
            min_bid: String::from_str("Taxes + fees"),
            payment_deadline: String::from_str("Varies"),
        },
    );
    r.push(
        AuctionListing {
            id: String::from_str("FL-HILLSBOROUGH-2026-05"),
            state: String::from_str("FL"),
            county: String::from_str("Hillsborough"),
            sale_type: String::from_str("Tax Lien"),
            sale_date: String::from_str("2026-05-20"),
            property_count: 2200,
            deposit_required_dollars: 2000,
            registration_deadline: String::from_str("2026-05-10"),
            platform: String::from_str("RealAuction"),
            platform_url: String::from_str("https://www.hillstax.org"),
            auction_type: String::from_str("Online"),
            notes: String::from_str("Tampa Bay - large sale; 5% minimum guaranteed"),
            interest_rate: String::from_str("18% max (bid down) - 5% GUARANTEED"),
            redemption_period: String::from_str("2 years"),
            bidding_method: String::from_str("Bid down interest rate"),
            min_bid: String::from_str("Taxes + fees"),
            payment_deadline: String::from_str("Varies"),
        },
    );
    r.push(
        AuctionListing {
            id: String::from_str("IA-POLK-2026-06"),
            state: String::from_str("IA"),
            county: String::from_str("Polk"),
            sale_type: String::from_str("Tax Lien"),
            sale_date: String::from_str("2026-06-15"),
            property_count: 220,
            deposit_required_dollars: 500,
            registration_deadline: String::from_str("2026-06-01"),
            platform: String::from_str("County"),
            platform_url: String::from_str("https://www.polkcountyiowa.gov"),
            auction_type: String::from_str("In-Person"),
            notes: String::from_str("Des Moines - 24% HIGHEST RATE IN US; bid for ownership %"),
            interest_rate: String::from_str("24% (HIGHEST IN US)"),
            redemption_period: String::from_str("1 year 9 months"),
            bidding_method: String::from_str("Bid down ownership percentage"),
            min_bid: String::from_str("Taxes owed"),
            payment_deadline: String::from_str("Same day"),
        },
    );
    r.push(
        AuctionListing {
            id: String::from_str("IA-LINN-2026-06"),
            state: String::from_str("IA"),
            county: String::from_str("Linn"),
            sale_type: String::from_str("Tax Lien"),
            sale_date: String::from_str("2026-06-16"),
            property_count: 120,
            deposit_required_dollars: 300,
            registration_deadline: String::from_str("2026-06-01"),
            platform: String::from_str("County"),
            platform_url: String::from_str("https://www.linncountyiowa.gov"),
            auction_type: String::from_str("In-Person"),
            notes: String::from_str("Cedar Rapids - 24% rate; unique bidding system"),
            interest_rate: String::from_str("24% (HIGHEST IN US)"),
            redemption_period: String::from_str("1 year 9 months"),
            bidding_method: String::from_str("Bid down ownership percentage"),
            min_bid: String::from_str("Taxes owed"),
            payment_deadline: String::from_str("Same day"),
        },
    );
    r.push(
        AuctionListing {
            id: String::from_str("IL-COOK-2026-06"),
            state: String::from_str("IL"),
            county: String::from_str("Cook"),
            sale_type: String::from_str("Tax Lien"),
            sale_date: String::from_str("2026-10-15"),
            property_count: 5000,
            deposit_required_dollars: 2500,
            registration_deadline: String::from_str("2026-10-01"),
            platform: String::from_str("County"),
            platform_url: String::from_str("https://www.cookcountytreasurer.com"),
            auction_type: String::from_str("Online"),
            notes: String::from_str("Chicago metro - LARGEST LIEN SALE; bid down from 18%"),
            interest_rate: String::from_str("18% (bid down)"),
            redemption_period: String::from_str("2-3 years"),
            bidding_method: String::from_str("Bid down interest rate"),
            min_bid: String::from_str("Taxes + fees"),
            payment_deadline: String::from_str("Varies"),
        },
    );
    assert(r@.map_values(|x: AuctionListing| listing_view(x)) =~= before.map_values(|x: AuctionListing| listing_view(x)) + listing_rows().subrange(
        12,
        18,
    ));
}

/// Every state's schedule, in the order of `schedule_rows`.
pub fn get_all_schedules() -> (r: Vec<StateAuctionSchedule>)
    ensures
        r@.map_values(|x: StateAuctionSchedule| schedule_view(x)) == schedule_rows(),
{
    let mut r: Vec<StateAuctionSchedule> = Vec::new();
    push_schedules_0_to_8(&mut r);
    push_schedules_9_to_17(&mut r);
    push_schedules_18_to_26(&mut r);
    push_schedules_27_to_35(&mut r);
    push_schedules_36_to_44(&mut r);
    push_schedules_45_to_50(&mut r);
    assert(schedule_rows().subrange(0, 9) + schedule_rows().subrange(9, 18) + schedule_rows().subrange(18, 27) + schedule_rows().subrange(27, 36) + schedule_rows().subrange(36, 45) + schedule_rows().subrange(45, 51) =~= schedule_rows());
    r
}

/// The schedule of the state whose code is exactly `key`, if there is one.
pub fn schedule_for(key: &str) -> (r: Option<StateAuctionSchedule>)
    ensures
        r is Some <==> has_schedule(key@),
        r matches Some(s) ==> is_schedule_for(s, key@),
{
    let mut table = get_all_schedules();
    let wanted = String::from_str(key);
    let mut i: usize = 0;
    while i < table.len()
        invariant
            table@.map_values(|x: StateAuctionSchedule| schedule_view(x)) == schedule_rows(),
            i <= table.len(),
            wanted@ == key@,
            forall|j: int| 0 <= j < i ==> (#[trigger] schedule_rows()[j]).state != key@,
        decreases table.len() - i,
    {
        if table[i].state == wanted {
            assert(schedule_rows()[i as int] == schedule_view(table@[i as int]));
            return Some(table.swap_remove(i));
        }
        i += 1;
    }
    None
}

/// The schedule of a state, its code given in any case.
pub fn get_state_schedule(state: &str) -> (r: Option<StateAuctionSchedule>)
    ensures
        r is Some <==> has_schedule(upper_of(state@)),
        r matches Some(s) ==> is_schedule_for(s, upper_of(state@)),
{
    let key = to_upper(state);
    schedule_for(key.as_str())
}

/// The tax sales scheduled for the coming months, in date order.
pub fn get_upcoming_auctions() -> (r: Vec<AuctionListing>)
    ensures
        r@.map_values(|x: AuctionListing| listing_view(x)) == listing_rows(),
{
    let mut r: Vec<AuctionListing> = Vec::new();
    push_listings_0_to_5(&mut r);
    push_listings_6_to_11(&mut r);
    push_listings_12_to_17(&mut r);
    assert(listing_rows().subrange(0, 6) + listing_rows().subrange(6, 12) + listing_rows().subrange(12, 18) =~= listing_rows());
    r
}

/// The upcoming sales whose state is exactly `key`, in date order.
pub fn auctions_in(key: &str) -> (r: Vec<AuctionListing>)
    ensures
        r@.map_values(|a: AuctionListing| listing_view(a)) == listing_rows().filter(listed_in(key@)),
{
    let all = get_upcoming_auctions();
    let ghost listed = all@;
    let wanted = String::from_str(key);
    let mut r: Vec<AuctionListing> = Vec::new();
    for a in it: all.into_iter()
        invariant
            it.seq() == listed,
            listed.map_values(|a: AuctionListing| listing_view(a)) == listing_rows(),
            wanted@ == key@,
            r@.map_values(|a: AuctionListing| listing_view(a)) == listing_rows().take(
                it.index() as int,
            ).filter(listed_in(key@)),
    {
        proof {
            let n = it.index() as int;
            assert(listing_rows().take(n + 1).drop_last() =~= listing_rows().take(n));
            assert(listing_rows()[n] == listing_view(a));
            reveal(Seq::filter);
        }
        let ghost before = r@;
        if a.state == wanted {
            r.push(a);
            assert(r@.map_values(|a: AuctionListing| listing_view(a)) =~= before.map_values(
                |a: AuctionListing| listing_view(a),
            ).push(listing_view(a)));
        }
    }
    proof {
        assert(listing_rows().take(listing_rows().len() as int) =~= listing_rows());
    }
    r
}

/// The upcoming sales of a state, its code given in any case: exactly the
/// listings of `get_upcoming_auctions` with that state, in the same order.
pub fn get_state_auctions(state: &str) -> (r: Vec<AuctionListing>)
    ensures
        r@.map_values(|a: AuctionListing| listing_view(a)) == listing_rows().filter(
            listed_in(upper_of(state@)),
        ),
{
    let key = to_upper(state);
    auctions_in(key.as_str())
}

} // verus!
