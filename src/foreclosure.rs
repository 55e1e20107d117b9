//! Foreclosure listings and per-state foreclosure statistics, and the
//! national figures drawn from them.
use vstd::prelude::*;
use vstd::string::StringExecFns;
use crate::text::{to_upper, upper_of};

verus! {

/// One bank-owned or government-owned home for sale.
#[derive(Clone, Debug)]
pub struct ForeclosureProperty {
    pub address: String,
    pub city: String,
    pub state: String,
    pub zip: String,
    /// Asking price in whole dollars.
    pub price_dollars: u64,
    pub bedrooms: i32,
    /// Bathrooms in tenths: 2.5 bathrooms is 25.
    pub bathrooms_tenths: u32,
    pub sqft: i32,
    pub property_type: String,
    pub source: String,
    pub listing_date: String,
    pub status: String,
}

/// Foreclosure activity in one state.
#[derive(Clone, Debug)]
pub struct ForeclosureSummary {
    pub state: String,
    pub state_name: String,
    pub total_listings: i32,
    /// Average listing price in whole dollars.
    pub avg_price_dollars: u64,
    pub hud_count: i32,
    pub fannie_count: i32,
    pub freddie_count: i32,
    /// Foreclosures per 10,000 housing units, in tenths.
    pub foreclosure_rate_tenths: i32,
    /// Year-over-year change in percent, in tenths.
    pub yoy_change_tenths: i32,
    pub avg_days_on_market: i32,
    pub updated: String,
}

/// What a `ForeclosureProperty` holds, but for its listing date and
/// status.
pub struct PropertyView {
    pub address: Seq<char>,
    pub city: Seq<char>,
    pub state: Seq<char>,
    pub zip: Seq<char>,
    pub price_dollars: int,
    pub bedrooms: int,
    pub bathrooms_tenths: int,
    pub sqft: int,
    pub property_type: Seq<char>,
    pub source: Seq<char>,
}

/// What a `ForeclosureSummary` holds, but for its date.
pub struct SummaryView {
    pub state: Seq<char>,
    pub state_name: Seq<char>,
    pub total_listings: int,
    pub avg_price_dollars: int,
    pub hud_count: int,
    pub fannie_count: int,
    pub freddie_count: int,
    pub foreclosure_rate_tenths: int,
    pub yoy_change_tenths: int,
    pub avg_days_on_market: int,
}

pub open spec fn property_view(p: ForeclosureProperty) -> PropertyView {
    PropertyView {
        address: p.address@,
        city: p.city@,
        state: p.state@,
        zip: p.zip@,
        price_dollars: p.price_dollars as int,
        bedrooms: p.bedrooms as int,
        bathrooms_tenths: p.bathrooms_tenths as int,
        sqft: p.sqft as int,
        property_type: p.property_type@,
        source: p.source@,
    }
}

pub open spec fn summary_view(s: ForeclosureSummary) -> SummaryView {
    SummaryView {
        state: s.state@,
        state_name: s.state_name@,
        total_listings: s.total_listings as int,
        avg_price_dollars: s.avg_price_dollars as int,
        hud_count: s.hud_count as int,
        fannie_count: s.fannie_count as int,
        freddie_count: s.freddie_count as int,
        foreclosure_rate_tenths: s.foreclosure_rate_tenths as int,
        yoy_change_tenths: s.yoy_change_tenths as int,
        avg_days_on_market: s.avg_days_on_market as int,
    }
}

pub open spec fn summaries(s: Seq<ForeclosureSummary>) -> Seq<SummaryView> {
    s.map_values(|x: ForeclosureSummary| summary_view(x))
}

/// The sample listings, each with the market it is filed under.
pub open spec fn sample_rows() -> Seq<(Seq<char>, PropertyView)> {
    seq![
        (
            "FL"@,
            PropertyView {
                address: "1234 Palm Ave"@,
                city: "Miami"@,
                state: "FL"@,
                zip: "33125"@,
                price_dollars: 285000,
                bedrooms: 3,
                bathrooms_tenths: 20,
                sqft: 1450,
                property_type: "Single Family"@,
                source: "HUD"@,
            },
        ),
        (
            "FL"@,
            PropertyView {
                address: "5678 Ocean Dr"@,
                city: "Tampa"@,
                state: "FL"@,
                zip: "33602"@,
                price_dollars: 195000,
                bedrooms: 2,
                bathrooms_tenths: 15,
                sqft: 1100,
                property_type: "Condo"@,
                source: "HUD"@,
            },
        ),
        (
            "FL"@,
            PropertyView {
                address: "9012 Sunset Blvd"@,
                city: "Orlando"@,
                state: "FL"@,
                zip: "32801"@,
                price_dollars: 225000,
                bedrooms: 3,
                bathrooms_tenths: 20,
                sqft: 1350,
                property_type: "Single Family"@,
                source: "Fannie Mae"@,
            },
        ),
        (
            "FL"@,
            PropertyView {
                address: "3456 Beach Rd"@,
                city: "Jacksonville"@,
                state: "FL"@,
                zip: "32202"@,
                price_dollars: 165000,
                bedrooms: 2,
                bathrooms_tenths: 10,
                sqft: 950,
                property_type: "Townhouse"@,
                source: "Freddie Mac"@,
            },
        ),
        (
            "FL"@,
            PropertyView {
                address: "7890 Keys Way"@,
                city: "Fort Lauderdale"@,
                state: "FL"@,
                zip: "33301"@,
                price_dollars: 315000,
                bedrooms: 4,
                bathrooms_tenths: 25,
                sqft: 1800,
                property_type: "Single Family"@,
                source: "HUD"@,
            },
        ),
        (
            "TX"@,
            PropertyView {
                address: "9012 Longhorn Blvd"@,
                city: "Houston"@,
                state: "TX"@,
                zip: "77001"@,
                price_dollars: 175000,
                bedrooms: 3,
                bathrooms_tenths: 20,
                sqft: 1600,
                property_type: "Single Family"@,
                source: "HUD"@,
            },
        ),
        (
            "TX"@,
            PropertyView {
                address: "3456 Ranch Rd"@,
                city: "Dallas"@,
                state: "TX"@,
                zip: "75201"@,
                price_dollars: 225000,
                bedrooms: 4,
                bathrooms_tenths: 25,
                sqft: 1850,
                property_type: "Single Family"@,
                source: "HUD"@,
            },
        ),
        (
            "TX"@,
            PropertyView {
                address: "7890 Alamo St"@,
                city: "San Antonio"@,
                state: "TX"@,
                zip: "78201"@,
                price_dollars: 145000,
                bedrooms: 3,
                bathrooms_tenths: 15,
                sqft: 1200,
                property_type: "Single Family"@,
                source: "Fannie Mae"@,
            },
        ),
        (
            "TX"@,
            PropertyView {
                address: "1234 Capital Ave"@,
                city: "Austin"@,
                state: "TX"@,
                zip: "78701"@,
                price_dollars: 325000,
                bedrooms: 3,
                bathrooms_tenths: 20,
                sqft: 1500,
                property_type: "Single Family"@,
                source: "Freddie Mac"@,
            },
        ),
        (
            "TX"@,
            PropertyView {
                address: "5678 Rio Grande"@,
                city: "El Paso"@,
                state: "TX"@,
                zip: "79901"@,
                price_dollars: 135000,
                bedrooms: 3,
                bathrooms_tenths: 20,
                sqft: 1300,
                property_type: "Single Family"@,
                source: "HUD"@,
            },
        ),
        (
            "CA"@,
            PropertyView {
                address: "1234 Hollywood Blvd"@,
                city: "Los Angeles"@,
                state: "CA"@,
                zip: "90028"@,
                price_dollars: 585000,
                bedrooms: 3,
                bathrooms_tenths: 20,
                sqft: 1400,
                property_type: "Single Family"@,
                source: "HUD"@,
            },
        ),
        (
            "CA"@,
            PropertyView {
                address: "5678 Bay St"@,
                city: "San Francisco"@,
                state: "CA"@,
                zip: "94102"@,
                price_dollars: 725000,
                bedrooms: 2,
                bathrooms_tenths: 10,
                sqft: 1100,
                property_type: "Condo"@,
                source: "Fannie Mae"@,
            },
        ),
        (
            "CA"@,
            PropertyView {
                address: "9012 Valley Way"@,
                city: "Fresno"@,
                state: "CA"@,
                zip: "93701"@,
                price_dollars: 285000,
                bedrooms: 3,
                bathrooms_tenths: 20,
                sqft: 1500,
                property_type: "Single Family"@,
                source: "HUD"@,
            },
        ),
        (
            "CA"@,
            PropertyView {
                address: "3456 Coast Hwy"@,
                city: "San Diego"@,
                state: "CA"@,
                zip: "92101"@,
                price_dollars: 485000,
                bedrooms: 3,
                bathrooms_tenths: 20,
                sqft: 1350,
                property_type: "Single Family"@,
                source: "Freddie Mac"@,
            },
        ),
        (
            "CA"@,
            PropertyView {
                address: "7890 Wine Country"@,
                city: "Sacramento"@,
                state: "CA"@,
                zip: "95814"@,
                price_dollars: 345000,
                bedrooms: 4,
                bathrooms_tenths: 25,
                sqft: 1700,
                property_type: "Single Family"@,
                source: "HUD"@,
            },
        ),
        (
            "GA"@,
            PropertyView {
                address: "7890 Peachtree St"@,
                city: "Atlanta"@,
                state: "GA"@,
                zip: "30301"@,
                price_dollars: 265000,
                bedrooms: 3,
                bathrooms_tenths: 20,
                sqft: 1700,
                property_type: "Single Family"@,
                source: "HUD"@,
            },
        ),
        (
            "GA"@,
            PropertyView {
                address: "1234 Magnolia Ln"@,
                city: "Savannah"@,
                state: "GA"@,
                zip: "31401"@,
                price_dollars: 185000,
                bedrooms: 3,
                bathrooms_tenths: 20,
                sqft: 1400,
                property_type: "Single Family"@,
                source: "Fannie Mae"@,
            },
        ),
        (
            "GA"@,
            PropertyView {
                address: "5678 Augusta Way"@,
                city: "Augusta"@,
                state: "GA"@,
                zip: "30901"@,
                price_dollars: 125000,
                bedrooms: 2,
                bathrooms_tenths: 10,
                sqft: 1000,
                property_type: "Single Family"@,
                source: "HUD"@,
            },
        ),
        (
            "GA"@,
            PropertyView {
                address: "9012 Macon Rd"@,
                city: "Macon"@,
                state: "GA"@,
                zip: "31201"@,
                price_dollars: 115000,
                bedrooms: 3,
                bathrooms_tenths: 15,
                sqft: 1200,
                property_type: "Single Family"@,
                source: "Freddie Mac"@,
            },
        ),
        (
            "OH"@,
            PropertyView {
                address: "1234 Buckeye St"@,
                city: "Columbus"@,
                state: "OH"@,
                zip: "43215"@,
                price_dollars: 145000,
                bedrooms: 3,
                bathrooms_tenths: 15,
                sqft: 1300,
                property_type: "Single Family"@,
                source: "HUD"@,
            },
        ),
        (
            "OH"@,
            PropertyView {
                address: "5678 Lake Erie Dr"@,
                city: "Cleveland"@,
                state: "OH"@,
                zip: "44114"@,
                price_dollars: 85000,
                bedrooms: 3,
                bathrooms_tenths: 10,
                sqft: 1100,
                property_type: "Single Family"@,
                source: "HUD"@,
            },
        ),
        (
            "OH"@,
            PropertyView {
                address: "9012 River Rd"@,
                city: "Cincinnati"@,
                state: "OH"@,
                zip: "45202"@,
                price_dollars: 125000,
                bedrooms: 2,
                bathrooms_tenths: 10,
                sqft: 950,
                property_type: "Single Family"@,
                source: "Fannie Mae"@,
            },
        ),
        (
            "OH"@,
            PropertyView {
                address: "3456 Dayton Ave"@,
                city: "Dayton"@,
                state: "OH"@,
                zip: "45402"@,
                price_dollars: 95000,
                bedrooms: 3,
                bathrooms_tenths: 15,
                sqft: 1200,
                property_type: "Single Family"@,
                source: "HUD"@,
            },
        ),
        (
            "MI"@,
            PropertyView {
                address: "1234 Motor City Blvd"@,
                city: "Detroit"@,
                state: "MI"@,
                zip: "48201"@,
                price_dollars: 45000,
                bedrooms: 3,
                bathrooms_tenths: 10,
                sqft: 1200,
                property_type: "Single Family"@,
                source: "HUD"@,
            },
        ),
        (
            "MI"@,
            PropertyView {
                address: "5678 Grand Rapids Ave"@,
                city: "Grand Rapids"@,
                state: "MI"@,
                zip: "49503"@,
                price_dollars: 165000,
                bedrooms: 3,
                bathrooms_tenths: 20,
                sqft: 1400,
                property_type: "Single Family"@,
                source: "Fannie Mae"@,
            },
        ),
        (
            "MI"@,
            PropertyView {
                address: "9012 Lansing Way"@,
                city: "Lansing"@,
                state: "MI"@,
                zip: "48933"@,
                price_dollars: 115000,
                bedrooms: 3,
                bathrooms_tenths: 15,
                sqft: 1250,
                property_type: "Single Family"@,
                source: "HUD"@,
            },
        ),
        (
            "PA"@,
            PropertyView {
                address: "1234 Liberty Bell Ln"@,
                city: "Philadelphia"@,
                state: "PA"@,
                zip: "19103"@,
                price_dollars: 175000,
                bedrooms: 3,
                bathrooms_tenths: 15,
                sqft: 1300,
                property_type: "Rowhouse"@,
                source: "HUD"@,
            },
        ),
        (
            "PA"@,
            PropertyView {
                address: "5678 Steel City Rd"@,
                city: "Pittsburgh"@,
                state: "PA"@,
                zip: "15222"@,
                price_dollars: 125000,
                bedrooms: 3,
                bathrooms_tenths: 10,
                sqft: 1100,
                property_type: "Single Family"@,
                source: "HUD"@,
            },
        ),
        (
            "PA"@,
            PropertyView {
                address: "9012 Allentown Ave"@,
                city: "Allentown"@,
                state: "PA"@,
                zip: "18101"@,
                price_dollars: 145000,
                bedrooms: 3,
                bathrooms_tenths: 15,
                sqft: 1200,
                property_type: "Single Family"@,
                source: "Fannie Mae"@,
            },
        ),
        (
            "NJ"@,
            PropertyView {
                address: "1234 Garden State Pkwy"@,
                city: "Newark"@,
                state: "NJ"@,
                zip: "07102"@,
                price_dollars: 225000,
                bedrooms: 3,
                bathrooms_tenths: 15,
                sqft: 1200,
                property_type: "Single Family"@,
                source: "HUD"@,
            },
        ),
        (
            "NJ"@,
            PropertyView {
                address: "5678 Shore Dr"@,
                city: "Jersey City"@,
                state: "NJ"@,
                zip: "07302"@,
                price_dollars: 345000,
                bedrooms: 2,
                bathrooms_tenths: 10,
                sqft: 950,
                property_type: "Condo"@,
                source: "Fannie Mae"@,
            },
        ),
        (
            "NJ"@,
            PropertyView {
                address: "9012 Trenton Way"@,
                city: "Trenton"@,
                state: "NJ"@,
                zip: "08608"@,
                price_dollars: 145000,
                bedrooms: 3,
                bathrooms_tenths: 15,
                sqft: 1150,
                property_type: "Single Family"@,
                source: "HUD"@,
            },
        ),
        (
            "IL"@,
            PropertyView {
                address: "1234 Windy City Ave"@,
                city: "Chicago"@,
                state: "IL"@,
                zip: "60601"@,
                price_dollars: 185000,
                bedrooms: 3,
                bathrooms_tenths: 15,
                sqft: 1300,
                property_type: "Single Family"@,
                source: "HUD"@,
            },
        ),
        (
            "IL"@,
            PropertyView {
                address: "5678 Prairie Rd"@,
                city: "Springfield"@,
                state: "IL"@,
                zip: "62701"@,
                price_dollars: 95000,
                bedrooms: 3,
                bathrooms_tenths: 10,
                sqft: 1100,
                property_type: "Single Family"@,
                source: "HUD"@,
            },
        ),
        (
            "IL"@,
            PropertyView {
                address: "9012 Rockford St"@,
                city: "Rockford"@,
                state: "IL"@,
                zip: "61101"@,
                price_dollars: 85000,
                bedrooms: 3,
                bathrooms_tenths: 15,
                sqft: 1200,
                property_type: "Single Family"@,
                source: "Fannie Mae"@,
            },
        ),
        (
            "NC"@,
            PropertyView {
                address: "1234 Tar Heel Way"@,
                city: "Charlotte"@,
                state: "NC"@,
                zip: "28202"@,
                price_dollars: 245000,
                bedrooms: 3,
                bathrooms_tenths: 20,
                sqft: 1500,
                property_type: "Single Family"@,
                source: "HUD"@,
            },
        ),
        (
            "NC"@,
            PropertyView {
                address: "5678 Research Triangle"@,
                city: "Raleigh"@,
                state: "NC"@,
                zip: "27601"@,
                price_dollars: 275000,
                bedrooms: 4,
                bathrooms_tenths: 25,
                sqft: 1800,
                property_type: "Single Family"@,
                source: "Fannie Mae"@,
            },
        ),
        (
            "NC"@,
            PropertyView {
                address: "9012 Blue Ridge Pkwy"@,
                city: "Asheville"@,
                state: "NC"@,
                zip: "28801"@,
                price_dollars: 285000,
                bedrooms: 3,
                bathrooms_tenths: 20,
                sqft: 1450,
                property_type: "Single Family"@,
                source: "HUD"@,
            },
        ),
        (
            "NY"@,
            PropertyView {
                address: "1234 Empire State Rd"@,
                city: "Buffalo"@,
                state: "NY"@,
                zip: "14201"@,
                price_dollars: 95000,
                bedrooms: 3,
                bathrooms_tenths: 10,
                sqft: 1200,
                property_type: "Single Family"@,
                source: "HUD"@,
            },
        ),
        (
            "NY"@,
            PropertyView {
                address: "5678 Hudson Valley"@,
                city: "Albany"@,
                state: "NY"@,
                zip: "12207"@,
                price_dollars: 145000,
                bedrooms: 3,
                bathrooms_tenths: 15,
                sqft: 1300,
                property_type: "Single Family"@,
                source: "Fannie Mae"@,
            },
        ),
        (
            "NY"@,
            PropertyView {
                address: "9012 Syracuse Way"@,
                city: "Syracuse"@,
                state: "NY"@,
                zip: "13202"@,
                price_dollars: 115000,
                bedrooms: 3,
                bathrooms_tenths: 15,
                sqft: 1150,
                property_type: "Single Family"@,
                source: "HUD"@,
            },
        ),
        (
            "AZ"@,
            PropertyView {
                address: "2468 Desert View"@,
                city: "Phoenix"@,
                state: "AZ"@,
                zip: "85001"@,
                price_dollars: 315000,
                bedrooms: 4,
                bathrooms_tenths: 25,
                sqft: 2100,
                property_type: "Single Family"@,
                source: "HUD"@,
            },
        ),
        (
            "AZ"@,
            PropertyView {
                address: "1357 Saguaro Dr"@,
                city: "Tucson"@,
                state: "AZ"@,
                zip: "85701"@,
                price_dollars: 195000,
                bedrooms: 3,
                bathrooms_tenths: 20,
                sqft: 1500,
                property_type: "Single Family"@,
                source: "Fannie Mae"@,
            },
        ),
        (
            "AZ"@,
            PropertyView {
                address: "9876 Mesa Rd"@,
                city: "Mesa"@,
                state: "AZ"@,
                zip: "85201"@,
                price_dollars: 245000,
                bedrooms: 3,
                bathrooms_tenths: 20,
                sqft: 1650,
                property_type: "Single Family"@,
                source: "HUD"@,
            },
        ),
        (
            "IN"@,
            PropertyView {
                address: "1234 Hoosier Way"@,
                city: "Indianapolis"@,
                state: "IN"@,
                zip: "46204"@,
                price_dollars: 125000,
                bedrooms: 3,
                bathrooms_tenths: 15,
                sqft: 1300,
                property_type: "Single Family"@,
                source: "HUD"@,
            },
        ),
        (
            "IN"@,
            PropertyView {
                address: "5678 Fort Wayne Ave"@,
                city: "Fort Wayne"@,
                state: "IN"@,
                zip: "46802"@,
                price_dollars: 95000,
                bedrooms: 3,
                bathrooms_tenths: 10,
                sqft: 1100,
                property_type: "Single Family"@,
                source: "Fannie Mae"@,
            },
        ),
        (
            "IA"@,
            PropertyView {
                address: "1234 Hawkeye St"@,
                city: "Des Moines"@,
                state: "IA"@,
                zip: "50309"@,
                price_dollars: 145000,
                bedrooms: 3,
                bathrooms_tenths: 20,
                sqft: 1400,
                property_type: "Single Family"@,
                source: "HUD"@,
            },
        ),
        (
            "IA"@,
            PropertyView {
                address: "5678 Cedar Rapids Rd"@,
                city: "Cedar Rapids"@,
                state: "IA"@,
                zip: "52401"@,
                price_dollars: 125000,
                bedrooms: 3,
                bathrooms_tenths: 15,
                sqft: 1250,
                property_type: "Single Family"@,
                source: "HUD"@,
            },
        ),
        (
            "MD"@,
            PropertyView {
                address: "1234 Chesapeake Bay Dr"@,
                city: "Baltimore"@,
                state: "MD"@,
                zip: "21201"@,
                price_dollars: 165000,
                bedrooms: 3,
                bathrooms_tenths: 15,
                sqft: 1200,
                property_type: "Rowhouse"@,
                source: "HUD"@,
            },
        ),
        (
            "MD"@,
            PropertyView {
                address: "5678 Annapolis Way"@,
                city: "Annapolis"@,
                state: "MD"@,
                zip: "21401"@,
                price_dollars: 285000,
                bedrooms: 3,
                bathrooms_tenths: 20,
                sqft: 1450,
                property_type: "Single Family"@,
                source: "Fannie Mae"@,
            },
        ),
        (
            "NV"@,
            PropertyView {
                address: "1234 Las Vegas Blvd"@,
                city: "Las Vegas"@,
                state: "NV"@,
                zip: "89101"@,
                price_dollars: 285000,
                bedrooms: 3,
                bathrooms_tenths: 20,
                sqft: 1600,
                property_type: "Single Family"@,
                source: "HUD"@,
            },
        ),
        (
            "NV"@,
            PropertyView {
                address: "5678 Reno Ave"@,
                city: "Reno"@,
                state: "NV"@,
                zip: "89501"@,
                price_dollars: 245000,
                bedrooms: 3,
                bathrooms_tenths: 20,
                sqft: 1450,
                property_type: "Single Family"@,
                source: "Fannie Mae"@,
            },
        ),
        (
            "VA"@,
            PropertyView {
                address: "1234 Colonial Way"@,
                city: "Virginia Beach"@,
                state: "VA"@,
                zip: "23451"@,
                price_dollars: 285000,
                bedrooms: 4,
                bathrooms_tenths: 25,
                sqft: 1800,
                property_type: "Single Family"@,
                source: "HUD"@,
            },
        ),
        (
            "VA"@,
            PropertyView {
                address: "5678 Richmond Rd"@,
                city: "Richmond"@,
                state: "VA"@,
                zip: "23219"@,
                price_dollars: 195000,
                bedrooms: 3,
                bathrooms_tenths: 20,
                sqft: 1400,
                property_type: "Single Family"@,
                source: "Fannie Mae"@,
            },
        ),
        (
            "VA"@,
            PropertyView {
                address: "9012 Norfolk Ave"@,
                city: "Norfolk"@,
                state: "VA"@,
                zip: "23510"@,
                price_dollars: 165000,
                bedrooms: 3,
                bathrooms_tenths: 15,
                sqft: 1250,
                property_type: "Single Family"@,
                source: "HUD"@,
            },
        ),
        (
            "TN"@,
            PropertyView {
                address: "1234 Music Row"@,
                city: "Nashville"@,
                state: "TN"@,
                zip: "37203"@,
                price_dollars: 285000,
                bedrooms: 3,
                bathrooms_tenths: 20,
                sqft: 1550,
                property_type: "Single Family"@,
                source: "HUD"@,
            },
        ),
        (
            "TN"@,
            PropertyView {
                address: "5678 Beale St"@,
                city: "Memphis"@,
                state: "TN"@,
                zip: "38103"@,
                price_dollars: 145000,
                bedrooms: 3,
                bathrooms_tenths: 15,
                sqft: 1300,
                property_type: "Single Family"@,
                source: "Fannie Mae"@,
            },
        ),
        (
            "TN"@,
            PropertyView {
                address: "9012 Smoky Mountain Rd"@,
                city: "Knoxville"@,
                state: "TN"@,
                zip: "37902"@,
                price_dollars: 175000,
                bedrooms: 3,
                bathrooms_tenths: 20,
                sqft: 1400,
                property_type: "Single Family"@,
                source: "HUD"@,
            },
        ),
        (
            "SC"@,
            PropertyView {
                address: "1234 Palmetto Ave"@,
                city: "Charleston"@,
                state: "SC"@,
                zip: "29401"@,
                price_dollars: 285000,
                bedrooms: 3,
                bathrooms_tenths: 20,
                sqft: 1500,
                property_type: "Single Family"@,
                source: "HUD"@,
            },
        ),
        (
            "SC"@,
            PropertyView {
                address: "5678 Columbia Way"@,
                city: "Columbia"@,
                state: "SC"@,
                zip: "29201"@,
                price_dollars: 165000,
                bedrooms: 3,
                bathrooms_tenths: 15,
                sqft: 1300,
                property_type: "Single Family"@,
                source: "Fannie Mae"@,
            },
        ),
        (
            "AL"@,
            PropertyView {
                address: "1234 Crimson Tide Blvd"@,
                city: "Birmingham"@,
                state: "AL"@,
                zip: "35203"@,
                price_dollars: 145000,
                bedrooms: 3,
                bathrooms_tenths: 20,
                sqft: 1400,
                property_type: "Single Family"@,
                source: "HUD"@,
            },
        ),
        (
            "AL"@,
            PropertyView {
                address: "5678 Mobile Bay Dr"@,
                city: "Mobile"@,
                state: "AL"@,
                zip: "36602"@,
                price_dollars: 125000,
                bedrooms: 3,
                bathrooms_tenths: 15,
                sqft: 1250,
                property_type: "Single Family"@,
                source: "Fannie Mae"@,
            },
        ),
        (
            "MO"@,
            PropertyView {
                address: "1234 Gateway Arch Way"@,
                city: "St. Louis"@,
                state: "MO"@,
                zip: "63101"@,
                price_dollars: 125000,
                bedrooms: 3,
                bathrooms_tenths: 15,
                sqft: 1300,
                property_type: "Single Family"@,
                source: "HUD"@,
            },
        ),
        (
            "MO"@,
            PropertyView {
                address: "5678 Kansas City Blvd"@,
                city: "Kansas City"@,
                state: "MO"@,
                zip: "64102"@,
                price_dollars: 145000,
                bedrooms: 3,
                bathrooms_tenths: 20,
                sqft: 1400,
                property_type: "Single Family"@,
                source: "Fannie Mae"@,
            },
        ),
        (
            "WI"@,
            PropertyView {
                address: "1234 Dairy State Dr"@,
                city: "Milwaukee"@,
                state: "WI"@,
                zip: "53202"@,
                price_dollars: 145000,
                bedrooms: 3,
                bathrooms_tenths: 15,
                sqft: 1300,
                property_type: "Single Family"@,
                source: "HUD"@,
            },
        ),
        (
            "WI"@,
            PropertyView {
                address: "5678 Madison Ave"@,
                city: "Madison"@,
                state: "WI"@,
                zip: "53703"@,
                price_dollars: 225000,
                bedrooms: 3,
                bathrooms_tenths: 20,
                sqft: 1450,
                property_type: "Single Family"@,
                source: "Fannie Mae"@,
            },
        ),
        (
            "LA"@,
            PropertyView {
                address: "1234 Bourbon St"@,
                city: "New Orleans"@,
                state: "LA"@,
                zip: "70112"@,
                price_dollars: 185000,
                bedrooms: 3,
                bathrooms_tenths: 20,
                sqft: 1400,
                property_type: "Single Family"@,
                source: "HUD"@,
            },
        ),
        (
            "LA"@,
            PropertyView {
                address: "5678 Baton Rouge Rd"@,
                city: "Baton Rouge"@,
                state: "LA"@,
                zip: "70801"@,
                price_dollars: 145000,
                bedrooms: 3,
                bathrooms_tenths: 15,
                sqft: 1250,
                property_type: "Single Family"@,
                source: "Fannie Mae"@,
            },
        ),
        (
            "KY"@,
            PropertyView {
                address: "1234 Bluegrass Way"@,
                city: "Louisville"@,
                state: "KY"@,
                zip: "40202"@,
                price_dollars: 145000,
                bedrooms: 3,
                bathrooms_tenths: 15,
                sqft: 1300,
                property_type: "Single Family"@,
                source: "HUD"@,
            },
        ),
        (
            "KY"@,
            PropertyView {
                address: "5678 Lexington Ave"@,
                city: "Lexington"@,
                state: "KY"@,
                zip: "40507"@,
                price_dollars: 165000,
                bedrooms: 3,
                bathrooms_tenths: 20,
                sqft: 1400,
                property_type: "Single Family"@,
                source: "Fannie Mae"@,
            },
        ),
        (
            "OK"@,
            PropertyView {
                address: "1234 Sooner State Dr"@,
                city: "Oklahoma City"@,
                state: "OK"@,
                zip: "73102"@,
                price_dollars: 135000,
                bedrooms: 3,
                bathrooms_tenths: 20,
                sqft: 1400,
                property_type: "Single Family"@,
                source: "HUD"@,
            },
        ),
        (
            "OK"@,
            PropertyView {
                address: "5678 Tulsa Way"@,
                city: "Tulsa"@,
                state: "OK"@,
                zip: "74103"@,
                price_dollars: 125000,
                bedrooms: 3,
                bathrooms_tenths: 15,
                sqft: 1300,
                property_type: "Single Family"@,
                source: "Fannie Mae"@,
            },
        ),
        (
            "OR"@,
            PropertyView {
                address: "1234 Rose City Ave"@,
                city: "Portland"@,
                state: "OR"@,
                zip: "97201"@,
                price_dollars: 385000,
                bedrooms: 3,
                bathrooms_tenths: 20,
                sqft: 1450,
                property_type: "Single Family"@,
                source: "HUD"@,
            },
        ),
        (
            "OR"@,
            PropertyView {
                address: "5678 Eugene Way"@,
                city: "Eugene"@,
                state: "OR"@,
                zip: "97401"@,
                price_dollars: 285000,
                bedrooms: 3,
                bathrooms_tenths: 20,
                sqft: 1350,
                property_type: "Single Family"@,
                source: "Fannie Mae"@,
            },
        ),
        (
            "CO"@,
            PropertyView {
                address: "1234 Rocky Mountain Blvd"@,
                city: "Denver"@,
                state: "CO"@,
                zip: "80202"@,
                price_dollars: 385000,
                bedrooms: 3,
                bathrooms_tenths: 20,
                sqft: 1500,
                property_type: "Single Family"@,
                source: "HUD"@,
            },
        ),
        (
            "CO"@,
            PropertyView {
                address: "5678 Springs Way"@,
                city: "Colorado Springs"@,
                state: "CO"@,
                zip: "80903"@,
                price_dollars: 285000,
                bedrooms: 3,
                bathrooms_tenths: 20,
                sqft: 1400,
                property_type: "Single Family"@,
                source: "Fannie Mae"@,
            },
        ),
        (
            "WA"@,
            PropertyView {
                address: "1234 Emerald City Ave"@,
                city: "Seattle"@,
                state: "WA"@,
                zip: "98101"@,
                price_dollars: 485000,
                bedrooms: 3,
                bathrooms_tenths: 20,
                sqft: 1400,
                property_type: "Single Family"@,
                source: "HUD"@,
            },
        ),
        (
            "WA"@,
            PropertyView {
                address: "5678 Tacoma Way"@,
                city: "Tacoma"@,
                state: "WA"@,
                zip: "98402"@,
                price_dollars: 345000,
                bedrooms: 3,
                bathrooms_tenths: 20,
                sqft: 1350,
                property_type: "Single Family"@,
                source: "Fannie Mae"@,
            },
        ),
        (
            "WA"@,
            PropertyView {
                address: "9012 Spokane Rd"@,
                city: "Spokane"@,
                state: "WA"@,
                zip: "99201"@,
                price_dollars: 225000,
                bedrooms: 3,
                bathrooms_tenths: 15,
                sqft: 1250,
                property_type: "Single Family"@,
                source: "HUD"@,
            },
        ),
        (
            "CT"@,
            PropertyView {
                address: "1234 Constitution Ave"@,
                city: "Hartford"@,
                state: "CT"@,
                zip: "06103"@,
                price_dollars: 185000,
                bedrooms: 3,
                bathrooms_tenths: 15,
                sqft: 1250,
                property_type: "Single Family"@,
                source: "HUD"@,
            },
        ),
        (
            "CT"@,
            PropertyView {
                address: "5678 New Haven Way"@,
                city: "New Haven"@,
                state: "CT"@,
                zip: "06510"@,
                price_dollars: 225000,
                bedrooms: 3,
                bathrooms_tenths: 20,
                sqft: 1350,
                property_type: "Single Family"@,
                source: "Fannie Mae"@,
            },
        ),
        (
            "MA"@,
            PropertyView {
                address: "1234 Pilgrim Way"@,
                city: "Boston"@,
                state: "MA"@,
                zip: "02108"@,
                price_dollars: 485000,
                bedrooms: 2,
                bathrooms_tenths: 10,
                sqft: 1100,
                property_type: "Condo"@,
                source: "HUD"@,
            },
        ),
        (
            "MA"@,
            PropertyView {
                address: "5678 Worcester Rd"@,
                city: "Worcester"@,
                state: "MA"@,
                zip: "01608"@,
                price_dollars: 285000,
                bedrooms: 3,
                bathrooms_tenths: 15,
                sqft: 1300,
                property_type: "Single Family"@,
                source: "Fannie Mae"@,
            },
        ),
        (
            "MN"@,
            PropertyView {
                address: "1234 Twin Cities Blvd"@,
                city: "Minneapolis"@,
                state: "MN"@,
                zip: "55401"@,
                price_dollars: 225000,
                bedrooms: 3,
                bathrooms_tenths: 20,
                sqft: 1400,
                property_type: "Single Family"@,
                source: "HUD"@,
            },
        ),
        (
            "MN"@,
            PropertyView {
                address: "5678 St. Paul Ave"@,
                city: "St. Paul"@,
                state: "MN"@,
                zip: "55101"@,
                price_dollars: 195000,
                bedrooms: 3,
                bathrooms_tenths: 15,
                sqft: 1300,
                property_type: "Single Family"@,
                source: "Fannie Mae"@,
            },
        ),
        (
            "KS"@,
            PropertyView {
                address: "1234 Sunflower Way"@,
                city: "Wichita"@,
                state: "KS"@,
                zip: "67202"@,
                price_dollars: 125000,
                bedrooms: 3,
                bathrooms_tenths: 15,
                sqft: 1300,
                property_type: "Single Family"@,
                source: "HUD"@,
            },
        ),
        (
            "KS"@,
            PropertyView {
                address: "5678 Topeka Ave"@,
                city: "Topeka"@,
                state: "KS"@,
                zip: "66603"@,
                price_dollars: 105000,
                bedrooms: 3,
                bathrooms_tenths: 10,
                sqft: 1150,
                property_type: "Single Family"@,
                source: "Fannie Mae"@,
            },
        ),
        (
            "AR"@,
            PropertyView {
                address: "1234 Natural State Dr"@,
                city: "Little Rock"@,
                state: "AR"@,
                zip: "72201"@,
                price_dollars: 145000,
                bedrooms: 3,
                bathrooms_tenths: 20,
                sqft: 1400,
                property_type: "Single Family"@,
                source: "HUD"@,
            },
        ),
        (
            "AR"@,
            PropertyView {
                address: "5678 Fayetteville Rd"@,
                city: "Fayetteville"@,
                state: "AR"@,
                zip: "72701"@,
                price_dollars: 185000,
                bedrooms: 3,
                bathrooms_tenths: 20,
                sqft: 1450,
                property_type: "Single Family"@,
                source: "Fannie Mae"@,
            },
        ),
        (
            "MS"@,
            PropertyView {
                address: "1234 Magnolia State Ave"@,
                city: "Jackson"@,
                state: "MS"@,
                zip: "39201"@,
                price_dollars: 115000,
                bedrooms: 3,
                bathrooms_tenths: 15,
                sqft: 1300,
                property_type: "Single Family"@,
                source: "HUD"@,
            },
        ),
        (
            "MS"@,
            PropertyView {
                address: "5678 Gulf Coast Dr"@,
                city: "Gulfport"@,
                state: "MS"@,
                zip: "39501"@,
                price_dollars: 145000,
                bedrooms: 3,
                bathrooms_tenths: 20,
                sqft: 1400,
                property_type: "Single Family"@,
                source: "Fannie Mae"@,
            },
        ),
        (
            "NE"@,
            PropertyView {
                address: "1234 Cornhusker Way"@,
                city: "Omaha"@,
                state: "NE"@,
                zip: "68102"@,
                price_dollars: 165000,
                bedrooms: 3,
                bathrooms_tenths: 20,
                sqft: 1400,
                property_type: "Single Family"@,
                source: "HUD"@,
            },
        ),
        (
            "NE"@,
            PropertyView {
                address: "5678 Lincoln Ave"@,
                city: "Lincoln"@,
                state: "NE"@,
                zip: "68508"@,
                price_dollars: 145000,
                bedrooms: 3,
                bathrooms_tenths: 15,
                sqft: 1300,
                property_type: "Single Family"@,
                source: "Fannie Mae"@,
            },
        ),
        (
            "NM"@,
            PropertyView {
                address: "1234 Land of Enchantment"@,
                city: "Albuquerque"@,
                state: "NM"@,
                zip: "87102"@,
                price_dollars: 225000,
                bedrooms: 3,
                bathrooms_tenths: 20,
                sqft: 1450,
                property_type: "Single Family"@,
                source: "HUD"@,
            },
        ),
        (
            "NM"@,
            PropertyView {
                address: "5678 Santa Fe Trail"@,
                city: "Santa Fe"@,
                state: "NM"@,
                zip: "87501"@,
                price_dollars: 285000,
                bedrooms: 3,
                bathrooms_tenths: 20,
                sqft: 1500,
                property_type: "Single Family"@,
                source: "Fannie Mae"@,
            },
        ),
        (
            "UT"@,
            PropertyView {
                address: "1234 Beehive State Dr"@,
                city: "Salt Lake City"@,
                state: "UT"@,
                zip: "84101"@,
                price_dollars: 345000,
                bedrooms: 3,
                bathrooms_tenths: 20,
                sqft: 1500,
                property_type: "Single Family"@,
                source: "HUD"@,
            },
        ),
        (
            "UT"@,
            PropertyView {
                address: "5678 Provo Way"@,
                city: "Provo"@,
                state: "UT"@,
                zip: "84601"@,
                price_dollars: 285000,
                bedrooms: 3,
                bathrooms_tenths: 20,
                sqft: 1400,
                property_type: "Single Family"@,
                source: "Fannie Mae"@,
            },
        ),
        (
            "WV"@,
            PropertyView {
                address: "1234 Mountain State Way"@,
                city: "Charleston"@,
                state: "WV"@,
                zip: "25301"@,
                price_dollars: 95000,
                bedrooms: 3,
                bathrooms_tenths: 15,
                sqft: 1250,
                property_type: "Single Family"@,
                source: "HUD"@,
            },
        ),
        (
            "WV"@,
            PropertyView {
                address: "5678 Huntington Ave"@,
                city: "Huntington"@,
                state: "WV"@,
                zip: "25701"@,
                price_dollars: 85000,
                bedrooms: 3,
                bathrooms_tenths: 10,
                sqft: 1100,
                property_type: "Single Family"@,
                source: "Fannie Mae"@,
            },
        ),
        (
            "ID"@,
            PropertyView {
                address: "1234 Gem State Blvd"@,
                city: "Boise"@,
                state: "ID"@,
                zip: "83702"@,
                price_dollars: 325000,
                bedrooms: 3,
                bathrooms_tenths: 20,
                sqft: 1500,
                property_type: "Single Family"@,
                source: "HUD"@,
            },
        ),
        (
            "ID"@,
            PropertyView {
                address: "5678 Idaho Falls Rd"@,
                city: "Idaho Falls"@,
                state: "ID"@,
                zip: "83402"@,
                price_dollars: 225000,
                bedrooms: 3,
                bathrooms_tenths: 20,
                sqft: 1350,
                property_type: "Single Family"@,
                source: "Fannie Mae"@,
            },
        ),
        (
            "HI"@,
            PropertyView {
                address: "1234 Aloha Way"@,
                city: "Honolulu"@,
                state: "HI"@,
                zip: "96813"@,
                price_dollars: 685000,
                bedrooms: 3,
                bathrooms_tenths: 20,
                sqft: 1400,
                property_type: "Single Family"@,
                source: "HUD"@,
            },
        ),
        (
            "HI"@,
            PropertyView {
                address: "5678 Maui Dr"@,
                city: "Kahului"@,
                state: "HI"@,
                zip: "96732"@,
                price_dollars: 545000,
                bedrooms: 3,
                bathrooms_tenths: 20,
                sqft: 1350,
                property_type: "Single Family"@,
                source: "Fannie Mae"@,
            },
        ),
        (
            "ME"@,
            PropertyView {
                address: "1234 Pine Tree Way"@,
                city: "Portland"@,
                state: "ME"@,
                zip: "04101"@,
                price_dollars: 245000,
                bedrooms: 3,
                bathrooms_tenths: 15,
                sqft: 1300,
                property_type: "Single Family"@,
                source: "HUD"@,
            },
        ),
        (
            "NH"@,
            PropertyView {
                address: "1234 Granite State Dr"@,
                city: "Manchester"@,
                state: "NH"@,
                zip: "03101"@,
                price_dollars: 285000,
                bedrooms: 3,
                bathrooms_tenths: 20,
                sqft: 1400,
                property_type: "Single Family"@,
                source: "HUD"@,
            },
        ),
        (
            "RI"@,
            PropertyView {
                address: "1234 Ocean State Ave"@,
                city: "Providence"@,
                state: "RI"@,
                zip: "02903"@,
                price_dollars: 265000,
                bedrooms: 3,
                bathrooms_tenths: 15,
                sqft: 1250,
                property_type: "Single Family"@,
                source: "HUD"@,
            },
        ),
        (
            "VT"@,
            PropertyView {
                address: "1234 Green Mountain Rd"@,
                city: "Burlington"@,
                state: "VT"@,
                zip: "05401"@,
                price_dollars: 285000,
                bedrooms: 3,
                bathrooms_tenths: 20,
                sqft: 1350,
                property_type: "Single Family"@,
                source: "HUD"@,
            },
        ),
        (
            "DE"@,
            PropertyView {
                address: "1234 First State Way"@,
                city: "Wilmington"@,
                state: "DE"@,
                zip: "19801"@,
                price_dollars: 225000,
                bedrooms: 3,
                bathrooms_tenths: 15,
                sqft: 1300,
                property_type: "Single Family"@,
                source: "HUD"@,
            },
        ),
        (
            "DC"@,
            PropertyView {
                address: "1234 Capitol Hill"@,
                city: "Washington"@,
                state: "DC"@,
                zip: "20001"@,
                price_dollars: 485000,
                bedrooms: 3,
                bathrooms_tenths: 20,
                sqft: 1400,
                property_type: "Rowhouse"@,
                source: "HUD"@,
            },
        ),
        (
            "MT"@,
            PropertyView {
                address: "1234 Big Sky Way"@,
                city: "Billings"@,
                state: "MT"@,
                zip: "59101"@,
                price_dollars: 285000,
                bedrooms: 3,
                bathrooms_tenths: 20,
                sqft: 1450,
                property_type: "Single Family"@,
                source: "HUD"@,
            },
        ),
        (
            "ND"@,
            PropertyView {
                address: "1234 Peace Garden State"@,
                city: "Fargo"@,
                state: "ND"@,
                zip: "58102"@,
                price_dollars: 225000,
                bedrooms: 3,
                bathrooms_tenths: 20,
                sqft: 1400,
                property_type: "Single Family"@,
                source: "HUD"@,
            },
        ),
        (
            "SD"@,
            PropertyView {
                address: "1234 Mount Rushmore Way"@,
                city: "Sioux Falls"@,
                state: "SD"@,
                zip: "57104"@,
                price_dollars: 225000,
                bedrooms: 3,
                bathrooms_tenths: 20,
                sqft: 1400,
                property_type: "Single Family"@,
                source: "HUD"@,
            },
        ),
        (
            "WY"@,
            PropertyView {
                address: "1234 Equality State Dr"@,
                city: "Cheyenne"@,
                state: "WY"@,
                zip: "82001"@,
                price_dollars: 265000,
                bedrooms: 3,
                bathrooms_tenths: 20,
                sqft: 1450,
                property_type: "Single Family"@,
                source: "HUD"@,
            },
        ),
        (
            "AK"@,
            PropertyView {
                address: "1234 Last Frontier Way"@,
                city: "Anchorage"@,
                state: "AK"@,
                zip: "99501"@,
                price_dollars: 325000,
                bedrooms: 3,
                bathrooms_tenths: 20,
                sqft: 1500,
                property_type: "Single Family"@,
                source: "HUD"@,
            },
        ),
    ]
}

/// The statistics of every state (50 states and DC), in the order they are
/// listed.
pub open spec fn summary_rows() -> Seq<SummaryView> {
    seq![
        SummaryView {
            state: "FL"@,
            state_name: "Florida"@,
            total_listings: 45000,
            avg_price_dollars: 285000,
            hud_count: 1200,
            fannie_count: 800,
            freddie_count: 500,
            foreclosure_rate_tenths: 48,
            yoy_change_tenths: 125,
            avg_days_on_market: 45,
        },
        SummaryView {
            state: "TX"@,
            state_name: "Texas"@,
            total_listings: 38000,
            avg_price_dollars: 225000,
            hud_count: 950,
            fannie_count: 700,
            freddie_count: 450,
            foreclosure_rate_tenths: 32,
            yoy_change_tenths: 82,
            avg_days_on_market: 42,
        },
        SummaryView {
            state: "CA"@,
            state_name: "California"@,
            total_listings: 35000,
            avg_price_dollars: 485000,
            hud_count: 850,
            fannie_count: 650,
            freddie_count: 400,
            foreclosure_rate_tenths: 24,
            yoy_change_tenths: 153,
            avg_days_on_market: 55,
        },
        SummaryView {
            state: "GA"@,
            state_name: "Georgia"@,
            total_listings: 22000,
            avg_price_dollars: 265000,
            hud_count: 600,
            fannie_count: 400,
            freddie_count: 250,
            foreclosure_rate_tenths: 45,
            yoy_change_tenths: 108,
            avg_days_on_market: 38,
        },
        SummaryView {
            state: "OH"@,
            state_name: "Ohio"@,
            total_listings: 18000,
            avg_price_dollars: 145000,
            hud_count: 500,
            fannie_count: 350,
            freddie_count: 200,
            foreclosure_rate_tenths: 38,
            yoy_change_tenths: 52,
            avg_days_on_market: 52,
        },
        SummaryView {
            state: "MI"@,
            state_name: "Michigan"@,
            total_listings: 16000,
            avg_price_dollars: 165000,
            hud_count: 450,
            fannie_count: 300,
            freddie_count: 180,
            foreclosure_rate_tenths: 35,
            yoy_change_tenths: 68,
            avg_days_on_market: 48,
        },
        SummaryView {
            state: "IL"@,
            state_name: "Illinois"@,
            total_listings: 15000,
            avg_price_dollars: 195000,
            hud_count: 420,
            fannie_count: 280,
            freddie_count: 170,
            foreclosure_rate_tenths: 29,
            yoy_change_tenths: 45,
            avg_days_on_market: 65,
        },
        SummaryView {
            state: "NJ"@,
            state_name: "New Jersey"@,
            total_listings: 14000,
            avg_price_dollars: 325000,
            hud_count: 400,
            fannie_count: 260,
            freddie_count: 160,
            foreclosure_rate_tenths: 38,
            yoy_change_tenths: 182,
            avg_days_on_market: 75,
        },
        SummaryView {
            state: "PA"@,
            state_name: "Pennsylvania"@,
            total_listings: 13000,
            avg_price_dollars: 175000,
            hud_count: 380,
            fannie_count: 240,
            freddie_count: 150,
            foreclosure_rate_tenths: 25,
            yoy_change_tenths: 38,
            avg_days_on_market: 58,
        },
        SummaryView {
            state: "AZ"@,
            state_name: "Arizona"@,
            total_listings: 12000,
            avg_price_dollars: 315000,
            hud_count: 350,
            fannie_count: 220,
            freddie_count: 140,
            foreclosure_rate_tenths: 39,
            yoy_change_tenths: 225,
            avg_days_on_market: 35,
        },
        SummaryView {
            state: "NC"@,
            state_name: "North Carolina"@,
            total_listings: 11000,
            avg_price_dollars: 245000,
            hud_count: 320,
            fannie_count: 200,
            freddie_count: 130,
            foreclosure_rate_tenths: 26,
            yoy_change_tenths: 75,
            avg_days_on_market: 42,
        },
        SummaryView {
            state: "NY"@,
            state_name: "New York"@,
            total_listings: 10000,
            avg_price_dollars: 385000,
            hud_count: 300,
            fannie_count: 180,
            freddie_count: 120,
            foreclosure_rate_tenths: 12,
            yoy_change_tenths: 28,
            avg_days_on_market: 95,
        },
        SummaryView {
            state: "IN"@,
            state_name: "Indiana"@,
            total_listings: 9000,
            avg_price_dollars: 155000,
            hud_count: 280,
            fannie_count: 170,
            freddie_count: 110,
            foreclosure_rate_tenths: 34,
            yoy_change_tenths: 42,
            avg_days_on_market: 45,
        },
        SummaryView {
            state: "TN"@,
            state_name: "Tennessee"@,
            total_listings: 8500,
            avg_price_dollars: 235000,
            hud_count: 260,
            fannie_count: 160,
            freddie_count: 100,
            foreclosure_rate_tenths: 30,
            yoy_change_tenths: 95,
            avg_days_on_market: 40,
        },
        SummaryView {
            state: "SC"@,
            state_name: "South Carolina"@,
            total_listings: 8000,
            avg_price_dollars: 225000,
            hud_count: 240,
            fannie_count: 150,
            freddie_count: 95,
            foreclosure_rate_tenths: 36,
            yoy_change_tenths: 112,
            avg_days_on_market: 38,
        },
        SummaryView {
            state: "NV"@,
            state_name: "Nevada"@,
            total_listings: 7500,
            avg_price_dollars: 345000,
            hud_count: 220,
            fannie_count: 140,
            freddie_count: 90,
            foreclosure_rate_tenths: 52,
            yoy_change_tenths: 285,
            avg_days_on_market: 32,
        },
        SummaryView {
            state: "MD"@,
            state_name: "Maryland"@,
            total_listings: 7000,
            avg_price_dollars: 295000,
            hud_count: 200,
            fannie_count: 130,
            freddie_count: 85,
            foreclosure_rate_tenths: 28,
            yoy_change_tenths: 55,
            avg_days_on_market: 62,
        },
        SummaryView {
            state: "MO"@,
            state_name: "Missouri"@,
            total_listings: 6500,
            avg_price_dollars: 165000,
            hud_count: 190,
            fannie_count: 120,
            freddie_count: 80,
            foreclosure_rate_tenths: 26,
            yoy_change_tenths: 32,
            avg_days_on_market: 48,
        },
        SummaryView {
            state: "CO"@,
            state_name: "Colorado"@,
            total_listings: 6000,
            avg_price_dollars: 425000,
            hud_count: 175,
            fannie_count: 110,
            freddie_count: 75,
            foreclosure_rate_tenths: 25,
            yoy_change_tenths: 188,
            avg_days_on_market: 38,
        },
        SummaryView {
            state: "VA"@,
            state_name: "Virginia"@,
            total_listings: 5800,
            avg_price_dollars: 315000,
            hud_count: 170,
            fannie_count: 105,
            freddie_count: 70,
            foreclosure_rate_tenths: 18,
            yoy_change_tenths: 45,
            avg_days_on_market: 52,
        },
        SummaryView {
            state: "AL"@,
            state_name: "Alabama"@,
            total_listings: 5500,
            avg_price_dollars: 165000,
            hud_count: 160,
            fannie_count: 100,
            freddie_count: 65,
            foreclosure_rate_tenths: 28,
            yoy_change_tenths: 25,
            avg_days_on_market: 55,
        },
        SummaryView {
            state: "WI"@,
            state_name: "Wisconsin"@,
            total_listings: 5200,
            avg_price_dollars: 185000,
            hud_count: 155,
            fannie_count: 95,
            freddie_count: 60,
            foreclosure_rate_tenths: 22,
            yoy_change_tenths: 38,
            avg_days_on_market: 58,
        },
        SummaryView {
            state: "LA"@,
            state_name: "Louisiana"@,
            total_listings: 5000,
            avg_price_dollars: 175000,
            hud_count: 150,
            fannie_count: 90,
            freddie_count: 55,
            foreclosure_rate_tenths: 29,
            yoy_change_tenths: 52,
            avg_days_on_market: 62,
        },
        SummaryView {
            state: "OK"@,
            state_name: "Oklahoma"@,
            total_listings: 4800,
            avg_price_dollars: 145000,
            hud_count: 140,
            fannie_count: 85,
            freddie_count: 50,
            foreclosure_rate_tenths: 30,
            yoy_change_tenths: 48,
            avg_days_on_market: 48,
        },
        SummaryView {
            state: "KY"@,
            state_name: "Kentucky"@,
            total_listings: 4500,
            avg_price_dollars: 155000,
            hud_count: 135,
            fannie_count: 80,
            freddie_count: 45,
            foreclosure_rate_tenths: 25,
            yoy_change_tenths: 35,
            avg_days_on_market: 52,
        },
        SummaryView {
            state: "OR"@,
            state_name: "Oregon"@,
            total_listings: 4200,
            avg_price_dollars: 385000,
            hud_count: 125,
            fannie_count: 75,
            freddie_count: 40,
            foreclosure_rate_tenths: 24,
            yoy_change_tenths: 125,
            avg_days_on_market: 45,
        },
        SummaryView {
            state: "CT"@,
            state_name: "Connecticut"@,
            total_listings: 4000,
            avg_price_dollars: 285000,
            hud_count: 120,
            fannie_count: 70,
            freddie_count: 35,
            foreclosure_rate_tenths: 28,
            yoy_change_tenths: 85,
            avg_days_on_market: 72,
        },
        SummaryView {
            state: "WA"@,
            state_name: "Washington"@,
            total_listings: 3800,
            avg_price_dollars: 425000,
            hud_count: 115,
            fannie_count: 65,
            freddie_count: 30,
            foreclosure_rate_tenths: 20,
            yoy_change_tenths: 102,
            avg_days_on_market: 42,
        },
        SummaryView {
            state: "KS"@,
            state_name: "Kansas"@,
            total_listings: 3500,
            avg_price_dollars: 145000,
            hud_count: 110,
            fannie_count: 60,
            freddie_count: 28,
            foreclosure_rate_tenths: 26,
            yoy_change_tenths: 28,
            avg_days_on_market: 55,
        },
        SummaryView {
            state: "IA"@,
            state_name: "Iowa"@,
            total_listings: 3200,
            avg_price_dollars: 165000,
            hud_count: 100,
            fannie_count: 55,
            freddie_count: 25,
            foreclosure_rate_tenths: 22,
            yoy_change_tenths: 15,
            avg_days_on_market: 48,
        },
        SummaryView {
            state: "AR"@,
            state_name: "Arkansas"@,
            total_listings: 3000,
            avg_price_dollars: 135000,
            hud_count: 95,
            fannie_count: 50,
            freddie_count: 22,
            foreclosure_rate_tenths: 24,
            yoy_change_tenths: 32,
            avg_days_on_market: 52,
        },
        SummaryView {
            state: "MS"@,
            state_name: "Mississippi"@,
            total_listings: 2800,
            avg_price_dollars: 125000,
            hud_count: 90,
            fannie_count: 45,
            freddie_count: 20,
            foreclosure_rate_tenths: 26,
            yoy_change_tenths: 28,
            avg_days_on_market: 58,
        },
        SummaryView {
            state: "NE"@,
            state_name: "Nebraska"@,
            total_listings: 2500,
            avg_price_dollars: 175000,
            hud_count: 80,
            fannie_count: 40,
            freddie_count: 18,
            foreclosure_rate_tenths: 20,
            yoy_change_tenths: 18,
            avg_days_on_market: 45,
        },
        SummaryView {
            state: "UT"@,
            state_name: "Utah"@,
            total_listings: 2400,
            avg_price_dollars: 385000,
            hud_count: 75,
            fannie_count: 38,
            freddie_count: 16,
            foreclosure_rate_tenths: 18,
            yoy_change_tenths: 155,
            avg_days_on_market: 35,
        },
        SummaryView {
            state: "NM"@,
            state_name: "New Mexico"@,
            total_listings: 2200,
            avg_price_dollars: 225000,
            hud_count: 70,
            fannie_count: 35,
            freddie_count: 14,
            foreclosure_rate_tenths: 28,
            yoy_change_tenths: 52,
            avg_days_on_market: 58,
        },
        SummaryView {
            state: "WV"@,
            state_name: "West Virginia"@,
            total_listings: 2000,
            avg_price_dollars: 95000,
            hud_count: 65,
            fannie_count: 32,
            freddie_count: 12,
            foreclosure_rate_tenths: 25,
            yoy_change_tenths: 12,
            avg_days_on_market: 65,
        },
        SummaryView {
            state: "ID"@,
            state_name: "Idaho"@,
            total_listings: 1800,
            avg_price_dollars: 345000,
            hud_count: 60,
            fannie_count: 28,
            freddie_count: 10,
            foreclosure_rate_tenths: 22,
            yoy_change_tenths: 185,
            avg_days_on_market: 38,
        },
        SummaryView {
            state: "ME"@,
            state_name: "Maine"@,
            total_listings: 1600,
            avg_price_dollars: 225000,
            hud_count: 55,
            fannie_count: 25,
            freddie_count: 8,
            foreclosure_rate_tenths: 20,
            yoy_change_tenths: 45,
            avg_days_on_market: 62,
        },
        SummaryView {
            state: "NH"@,
            state_name: "New Hampshire"@,
            total_listings: 1500,
            avg_price_dollars: 325000,
            hud_count: 50,
            fannie_count: 22,
            freddie_count: 6,
            foreclosure_rate_tenths: 18,
            yoy_change_tenths: 58,
            avg_days_on_market: 55,
        },
        SummaryView {
            state: "RI"@,
            state_name: "Rhode Island"@,
            total_listings: 1400,
            avg_price_dollars: 285000,
            hud_count: 45,
            fannie_count: 20,
            freddie_count: 5,
            foreclosure_rate_tenths: 25,
            yoy_change_tenths: 62,
            avg_days_on_market: 65,
        },
        SummaryView {
            state: "MT"@,
            state_name: "Montana"@,
            total_listings: 1200,
            avg_price_dollars: 325000,
            hud_count: 40,
            fannie_count: 18,
            freddie_count: 4,
            foreclosure_rate_tenths: 15,
            yoy_change_tenths: 85,
            avg_days_on_market: 48,
        },
        SummaryView {
            state: "DE"@,
            state_name: "Delaware"@,
            total_listings: 1100,
            avg_price_dollars: 265000,
            hud_count: 38,
            fannie_count: 16,
            freddie_count: 3,
            foreclosure_rate_tenths: 24,
            yoy_change_tenths: 42,
            avg_days_on_market: 58,
        },
        SummaryView {
            state: "HI"@,
            state_name: "Hawaii"@,
            total_listings: 1000,
            avg_price_dollars: 685000,
            hud_count: 35,
            fannie_count: 14,
            freddie_count: 2,
            foreclosure_rate_tenths: 12,
            yoy_change_tenths: 55,
            avg_days_on_market: 72,
        },
        SummaryView {
            state: "SD"@,
            state_name: "South Dakota"@,
            total_listings: 900,
            avg_price_dollars: 225000,
            hud_count: 32,
            fannie_count: 12,
            freddie_count: 2,
            foreclosure_rate_tenths: 14,
            yoy_change_tenths: 28,
            avg_days_on_market: 45,
        },
        SummaryView {
            state: "ND"@,
            state_name: "North Dakota"@,
            total_listings: 800,
            avg_price_dollars: 225000,
            hud_count: 28,
            fannie_count: 10,
            freddie_count: 2,
            foreclosure_rate_tenths: 12,
            yoy_change_tenths: 15,
            avg_days_on_market: 52,
        },
        SummaryView {
            state: "AK"@,
            state_name: "Alaska"@,
            total_listings: 700,
            avg_price_dollars: 325000,
            hud_count: 25,
            fannie_count: 8,
            freddie_count: 2,
            foreclosure_rate_tenths: 15,
            yoy_change_tenths: 32,
            avg_days_on_market: 65,
        },
        SummaryView {
            state: "DC"@,
            state_name: "District of Columbia"@,
            total_listings: 650,
            avg_price_dollars: 485000,
            hud_count: 22,
            fannie_count: 6,
            freddie_count: 2,
            foreclosure_rate_tenths: 20,
            yoy_change_tenths: 85,
            avg_days_on_market: 75,
        },
        SummaryView {
            state: "VT"@,
            state_name: "Vermont"@,
            total_listings: 600,
            avg_price_dollars: 285000,
            hud_count: 20,
            fannie_count: 5,
            freddie_count: 2,
            foreclosure_rate_tenths: 12,
            yoy_change_tenths: 25,
            avg_days_on_market: 68,
        },
        SummaryView {
            state: "WY"@,
            state_name: "Wyoming"@,
            total_listings: 500,
            avg_price_dollars: 285000,
            hud_count: 18,
            fannie_count: 4,
            freddie_count: 2,
            foreclosure_rate_tenths: 10,
            yoy_change_tenths: 22,
            avg_days_on_market: 52,
        },
        SummaryView {
            state: "MN"@,
            state_name: "Minnesota"@,
            total_listings: 4800,
            avg_price_dollars: 245000,
            hud_count: 145,
            fannie_count: 85,
            freddie_count: 50,
            foreclosure_rate_tenths: 20,
            yoy_change_tenths: 35,
            avg_days_on_market: 48,
        },
        SummaryView {
            state: "MA"@,
            state_name: "Massachusetts"@,
            total_listings: 4500,
            avg_price_dollars: 425000,
            hud_count: 140,
            fannie_count: 80,
            freddie_count: 45,
            foreclosure_rate_tenths: 15,
            yoy_change_tenths: 42,
            avg_days_on_market: 72,
        },
    ]
}

pub open spec fn filed_under(key: Seq<char>) -> spec_fn((Seq<char>, PropertyView)) -> bool {
    |row: (Seq<char>, PropertyView)| row.0 == key
}

/// Every listing of `s` is listed on `today` and available.
pub open spec fn listed_on(s: Seq<ForeclosureProperty>, today: Seq<char>) -> bool {
    forall|i: int|
        0 <= i < s.len() ==> (#[trigger] s[i]).listing_date@ == today && s[i].status@
            == "Available"@
}

fn prop(
    address: &str,
    city: &str,
    state: &str,
    zip: &str,
    price_dollars: u64,
    bedrooms: i32,
    bathrooms_tenths: u32,
    sqft: i32,
    property_type: &str,
    source: &str,
    today: &str,
) -> (r: ForeclosureProperty)
    ensures
        property_view(r) == (PropertyView {
            address: address@,
            city: city@,
            state: state@,
            zip: zip@,
            price_dollars: price_dollars as int,
            bedrooms: bedrooms as int,
            bathrooms_tenths: bathrooms_tenths as int,
            sqft: sqft as int,
            property_type: property_type@,
            source: source@,
        }),
        r.listing_date@ == today@,
        r.status@ == "Available"@,
{
    ForeclosureProperty {
        address: String::from_str(address),
        city: String::from_str(city),
        state: String::from_str(state),
        zip: String::from_str(zip),
        price_dollars,
        bedrooms,
        bathrooms_tenths,
        sqft,
        property_type: String::from_str(property_type),
        source: String::from_str(source),
        listing_date: String::from_str(today),
        status: String::from_str("Available"),
    }
}

pub open spec fn sample_row(e: (String, ForeclosureProperty)) -> (Seq<char>, PropertyView) {
    (e.0@, property_view(e.1))
}

pub open spec fn table_listed_on(s: Seq<(String, ForeclosureProperty)>, today: Seq<char>) -> bool {
    forall|i: int|
        0 <= i < s.len() ==> (#[trigger] s[i]).1.listing_date@ == today && s[i].1.status@
            == "Available"@
}

/// Appends sample listings 0 to 11, listed on `today`.
fn push_samples_0_to_11(r: &mut Vec<(String, ForeclosureProperty)>, today: &str)
    requires
        table_listed_on(old(r)@, today@),
    ensures
        final(r)@.map_values(|e: (String, ForeclosureProperty)| sample_row(e)) == old(r)@.map_values(
            |e: (String, ForeclosureProperty)| sample_row(e),
        ) + sample_rows().subrange(0, 12),
        table_listed_on(final(r)@, today@),
{
    let ghost before = r@;
    r.push((String::from_str("FL"), prop("1234 Palm Ave", "Miami", "FL", "33125", 285000, 3, 20, 1450, "Single Family", "HUD", today)));
    r.push((String::from_str("FL"), prop("5678 Ocean Dr", "Tampa", "FL", "33602", 195000, 2, 15, 1100, "Condo", "HUD", today)));
    r.push((String::from_str("FL"), prop("9012 Sunset Blvd", "Orlando", "FL", "32801", 225000, 3, 20, 1350, "Single Family", "Fannie Mae", today)));
    r.push((String::from_str("FL"), prop("3456 Beach Rd", "Jacksonville", "FL", "32202", 165000, 2, 10, 950, "Townhouse", "Freddie Mac", today)));
    r.push((String::from_str("FL"), prop("7890 Keys Way", "Fort Lauderdale", "FL", "33301", 315000, 4, 25, 1800, "Single Family", "HUD", today)));
    r.push((String::from_str("TX"), prop("9012 Longhorn Blvd", "Houston", "TX", "77001", 175000, 3, 20, 1600, "Single Family", "HUD", today)));
    r.push((String::from_str("TX"), prop("3456 Ranch Rd", "Dallas", "TX", "75201", 225000, 4, 25, 1850, "Single Family", "HUD", today)));
    r.push((String::from_str("TX"), prop("7890 Alamo St", "San Antonio", "TX", "78201", 145000, 3, 15, 1200, "Single Family", "Fannie Mae", today)));
    r.push((String::from_str("TX"), prop("1234 Capital Ave", "Austin", "TX", "78701", 325000, 3, 20, 1500, "Single Family", "Freddie Mac", today)));
    r.push((String::from_str("TX"), prop("5678 Rio Grande", "El Paso", "TX", "79901", 135000, 3, 20, 1300, "Single Family", "HUD", today)));
    r.push((String::from_str("CA"), prop("1234 Hollywood Blvd", "Los Angeles", "CA", "90028", 585000, 3, 20, 1400, "Single Family", "HUD", today)));
    r.push((String::from_str("CA"), prop("5678 Bay St", "San Francisco", "CA", "94102", 725000, 2, 10, 1100, "Condo", "Fannie Mae", today)));
    assert(r@.map_values(|e: (String, ForeclosureProperty)| sample_row(e)) =~= before.map_values(
        |e: (String, ForeclosureProperty)| sample_row(e),
    ) + sample_rows().subrange(0, 12));
}

/// Appends sample listings 12 to 23, listed on `today`.
fn push_samples_12_to_23(r: &mut Vec<(String, ForeclosureProperty)>, today: &str)
    requires
        table_listed_on(old(r)@, today@),
    ensures
        final(r)@.map_values(|e: (String, ForeclosureProperty)| sample_row(e)) == old(r)@.map_values(
            |e: (String, ForeclosureProperty)| sample_row(e),
        ) + sample_rows().subrange(12, 24),
        table_listed_on(final(r)@, today@),
{
    let ghost before = r@;
    r.push((String::from_str("CA"), prop("9012 Valley Way", "Fresno", "CA", "93701", 285000, 3, 20, 1500, "Single Family", "HUD", today)));
    r.push((String::from_str("CA"), prop("3456 Coast Hwy", "San Diego", "CA", "92101", 485000, 3, 20, 1350, "Single Family", "Freddie Mac", today)));
    r.push((String::from_str("CA"), prop("7890 Wine Country", "Sacramento", "CA", "95814", 345000, 4, 25, 1700, "Single Family", "HUD", today)));
    r.push((String::from_str("GA"), prop("7890 Peachtree St", "Atlanta", "GA", "30301", 265000, 3, 20, 1700, "Single Family", "HUD", today)));
    r.push((String::from_str("GA"), prop("1234 Magnolia Ln", "Savannah", "GA", "31401", 185000, 3, 20, 1400, "Single Family", "Fannie Mae", today)));
    r.push((String::from_str("GA"), prop("5678 Augusta Way", "Augusta", "GA", "30901", 125000, 2, 10, 1000, "Single Family", "HUD", today)));
    r.push((String::from_str("GA"), prop("9012 Macon Rd", "Macon", "GA", "31201", 115000, 3, 15, 1200, "Single Family", "Freddie Mac", today)));
    r.push((String::from_str("OH"), prop("1234 Buckeye St", "Columbus", "OH", "43215", 145000, 3, 15, 1300, "Single Family", "HUD", today)));
    r.push((String::from_str("OH"), prop("5678 Lake Erie Dr", "Cleveland", "OH", "44114", 85000, 3, 10, 1100, "Single Family", "HUD", today)));
    r.push((String::from_str("OH"), prop("9012 River Rd", "Cincinnati", "OH", "45202", 125000, 2, 10, 950, "Single Family", "Fannie Mae", today)));
    r.push((String::from_str("OH"), prop("3456 Dayton Ave", "Dayton", "OH", "45402", 95000, 3, 15, 1200, "Single Family", "HUD", today)));
    r.push((String::from_str("MI"), prop("1234 Motor City Blvd", "Detroit", "MI", "48201", 45000, 3, 10, 1200, "Single Family", "HUD", today)));
    assert(r@.map_values(|e: (String, ForeclosureProperty)| sample_row(e)) =~= before.map_values(
        |e: (String, ForeclosureProperty)| sample_row(e),
    ) + sample_rows().subrange(12, 24));
}

/// Appends sample listings 24 to 35, listed on `today`.
fn push_samples_24_to_35(r: &mut Vec<(String, ForeclosureProperty)>, today: &str)
    requires
        table_listed_on(old(r)@, today@),
    ensures
        final(r)@.map_values(|e: (String, ForeclosureProperty)| sample_row(e)) == old(r)@.map_values(
            |e: (String, ForeclosureProperty)| sample_row(e),
        ) + sample_rows().subrange(24, 36),
        table_listed_on(final(r)@, today@),
{
    let ghost before = r@;
    r.push((String::from_str("MI"), prop("5678 Grand Rapids Ave", "Grand Rapids", "MI", "49503", 165000, 3, 20, 1400, "Single Family", "Fannie Mae", today)));
    r.push((String::from_str("MI"), prop("9012 Lansing Way", "Lansing", "MI", "48933", 115000, 3, 15, 1250, "Single Family", "HUD", today)));
    r.push((String::from_str("PA"), prop("1234 Liberty Bell Ln", "Philadelphia", "PA", "19103", 175000, 3, 15, 1300, "Rowhouse", "HUD", today)));
    r.push((String::from_str("PA"), prop("5678 Steel City Rd", "Pittsburgh", "PA", "15222", 125000, 3, 10, 1100, "Single Family", "HUD", today)));
    r.push((String::from_str("PA"), prop("9012 Allentown Ave", "Allentown", "PA", "18101", 145000, 3, 15, 1200, "Single Family", "Fannie Mae", today)));
    r.push((String::from_str("NJ"), prop("1234 Garden State Pkwy", "Newark", "NJ", "07102", 225000, 3, 15, 1200, "Single Family", "HUD", today)));
    r.push((String::from_str("NJ"), prop("5678 Shore Dr", "Jersey City", "NJ", "07302", 345000, 2, 10, 950, "Condo", "Fannie Mae", today)));
    r.push((String::from_str("NJ"), prop("9012 Trenton Way", "Trenton", "NJ", "08608", 145000, 3, 15, 1150, "Single Family", "HUD", today)));
    r.push((String::from_str("IL"), prop("1234 Windy City Ave", "Chicago", "IL", "60601", 185000, 3, 15, 1300, "Single Family", "HUD", today)));
    r.push((String::from_str("IL"), prop("5678 Prairie Rd", "Springfield", "IL", "62701", 95000, 3, 10, 1100, "Single Family", "HUD", today)));
    r.push((String::from_str("IL"), prop("9012 Rockford St", "Rockford", "IL", "61101", 85000, 3, 15, 1200, "Single Family", "Fannie Mae", today)));
    r.push((String::from_str("NC"), prop("1234 Tar Heel Way", "Charlotte", "NC", "28202", 245000, 3, 20, 1500, "Single Family", "HUD", today)));
    assert(r@.map_values(|e: (String, ForeclosureProperty)| sample_row(e)) =~= before.map_values(
        |e: (String, ForeclosureProperty)| sample_row(e),
    ) + sample_rows().subrange(24, 36));
}

/// Appends sample listings 36 to 47, listed on `today`.
fn push_samples_36_to_47(r: &mut Vec<(String, ForeclosureProperty)>, today: &str)
    requires
        table_listed_on(old(r)@, today@),
    ensures
        final(r)@.map_values(|e: (String, ForeclosureProperty)| sample_row(e)) == old(r)@.map_values(
            |e: (String, ForeclosureProperty)| sample_row(e),
        ) + sample_rows().subrange(36, 48),
        table_listed_on(final(r)@, today@),
{
    let ghost before = r@;
    r.push((String::from_str("NC"), prop("5678 Research Triangle", "Raleigh", "NC", "27601", 275000, 4, 25, 1800, "Single Family", "Fannie Mae", today)));
    r.push((String::from_str("NC"), prop("9012 Blue Ridge Pkwy", "Asheville", "NC", "28801", 285000, 3, 20, 1450, "Single Family", "HUD", today)));
    r.push((String::from_str("NY"), prop("1234 Empire State Rd", "Buffalo", "NY", "14201", 95000, 3, 10, 1200, "Single Family", "HUD", today)));
    r.push((String::from_str("NY"), prop("5678 Hudson Valley", "Albany", "NY", "12207", 145000, 3, 15, 1300, "Single Family", "Fannie Mae", today)));
    r.push((String::from_str("NY"), prop("9012 Syracuse Way", "Syracuse", "NY", "13202", 115000, 3, 15, 1150, "Single Family", "HUD", today)));
    r.push((String::from_str("AZ"), prop("2468 Desert View", "Phoenix", "AZ", "85001", 315000, 4, 25, 2100, "Single Family", "HUD", today)));
    r.push((String::from_str("AZ"), prop("1357 Saguaro Dr", "Tucson", "AZ", "85701", 195000, 3, 20, 1500, "Single Family", "Fannie Mae", today)));
    r.push((String::from_str("AZ"), prop("9876 Mesa Rd", "Mesa", "AZ", "85201", 245000, 3, 20, 1650, "Single Family", "HUD", today)));
    r.push((String::from_str("IN"), prop("1234 Hoosier Way", "Indianapolis", "IN", "46204", 125000, 3, 15, 1300, "Single Family", "HUD", today)));
    r.push((String::from_str("IN"), prop("5678 Fort Wayne Ave", "Fort Wayne", "IN", "46802", 95000, 3, 10, 1100, "Single Family", "Fannie Mae", today)));
    r.push((String::from_str("IA"), prop("1234 Hawkeye St", "Des Moines", "IA", "50309", 145000, 3, 20, 1400, "Single Family", "HUD", today)));
    r.push((String::from_str("IA"), prop("5678 Cedar Rapids Rd", "Cedar Rapids", "IA", "52401", 125000, 3, 15, 1250, "Single Family", "HUD", today)));
    assert(r@.map_values(|e: (String, ForeclosureProperty)| sample_row(e)) =~= before.map_values(
        |e: (String, ForeclosureProperty)| sample_row(e),
    ) + sample_rows().subrange(36, 48));
}

/// Appends sample listings 48 to 59, listed on `today`.
fn push_samples_48_to_59(r: &mut Vec<(String, ForeclosureProperty)>, today: &str)
    requires
        table_listed_on(old(r)@, today@),
    ensures
        final(r)@.map_values(|e: (String, ForeclosureProperty)| sample_row(e)) == old(r)@.map_values(
            |e: (String, ForeclosureProperty)| sample_row(e),
        ) + sample_rows().subrange(48, 60),
        table_listed_on(final(r)@, today@),
{
    let ghost before = r@;
    r.push((String::from_str("MD"), prop("1234 Chesapeake Bay Dr", "Baltimore", "MD", "21201", 165000, 3, 15, 1200, "Rowhouse", "HUD", today)));
    r.push((String::from_str("MD"), prop("5678 Annapolis Way", "Annapolis", "MD", "21401", 285000, 3, 20, 1450, "Single Family", "Fannie Mae", today)));
    r.push((String::from_str("NV"), prop("1234 Las Vegas Blvd", "Las Vegas", "NV", "89101", 285000, 3, 20, 1600, "Single Family", "HUD", today)));
    r.push((String::from_str("NV"), prop("5678 Reno Ave", "Reno", "NV", "89501", 245000, 3, 20, 1450, "Single Family", "Fannie Mae", today)));
    r.push((String::from_str("VA"), prop("1234 Colonial Way", "Virginia Beach", "VA", "23451", 285000, 4, 25, 1800, "Single Family", "HUD", today)));
    r.push((String::from_str("VA"), prop("5678 Richmond Rd", "Richmond", "VA", "23219", 195000, 3, 20, 1400, "Single Family", "Fannie Mae", today)));
    r.push((String::from_str("VA"), prop("9012 Norfolk Ave", "Norfolk", "VA", "23510", 165000, 3, 15, 1250, "Single Family", "HUD", today)));
    r.push((String::from_str("TN"), prop("1234 Music Row", "Nashville", "TN", "37203", 285000, 3, 20, 1550, "Single Family", "HUD", today)));
    r.push((String::from_str("TN"), prop("5678 Beale St", "Memphis", "TN", "38103", 145000, 3, 15, 1300, "Single Family", "Fannie Mae", today)));
    r.push((String::from_str("TN"), prop("9012 Smoky Mountain Rd", "Knoxville", "TN", "37902", 175000, 3, 20, 1400, "Single Family", "HUD", today)));
    r.push((String::from_str("SC"), prop("1234 Palmetto Ave", "Charleston", "SC", "29401", 285000, 3, 20, 1500, "Single Family", "HUD", today)));
    r.push((String::from_str("SC"), prop("5678 Columbia Way", "Columbia", "SC", "29201", 165000, 3, 15, 1300, "Single Family", "Fannie Mae", today)));
    assert(r@.map_values(|e: (String, ForeclosureProperty)| sample_row(e)) =~= before.map_values(
        |e: (String, ForeclosureProperty)| sample_row(e),
    ) + sample_rows().subrange(48, 60));
}

/// Appends sample listings 60 to 71, listed on `today`.
fn push_samples_60_to_71(r: &mut Vec<(String, ForeclosureProperty)>, today: &str)
    requires
        table_listed_on(old(r)@, today@),
    ensures
        final(r)@.map_values(|e: (String, ForeclosureProperty)| sample_row(e)) == old(r)@.map_values(
            |e: (String, ForeclosureProperty)| sample_row(e),
        ) + sample_rows().subrange(60, 72),
        table_listed_on(final(r)@, today@),
{
    let ghost before = r@;
    r.push((String::from_str("AL"), prop("1234 Crimson Tide Blvd", "Birmingham", "AL", "35203", 145000, 3, 20, 1400, "Single Family", "HUD", today)));
    r.push((String::from_str("AL"), prop("5678 Mobile Bay Dr", "Mobile", "AL", "36602", 125000, 3, 15, 1250, "Single Family", "Fannie Mae", today)));
    r.push((String::from_str("MO"), prop("1234 Gateway Arch Way", "St. Louis", "MO", "63101", 125000, 3, 15, 1300, "Single Family", "HUD", today)));
    r.push((String::from_str("MO"), prop("5678 Kansas City Blvd", "Kansas City", "MO", "64102", 145000, 3, 20, 1400, "Single Family", "Fannie Mae", today)));
    r.push((String::from_str("WI"), prop("1234 Dairy State Dr", "Milwaukee", "WI", "53202", 145000, 3, 15, 1300, "Single Family", "HUD", today)));
    r.push((String::from_str("WI"), prop("5678 Madison Ave", "Madison", "WI", "53703", 225000, 3, 20, 1450, "Single Family", "Fannie Mae", today)));
    r.push((String::from_str("LA"), prop("1234 Bourbon St", "New Orleans", "LA", "70112", 185000, 3, 20, 1400, "Single Family", "HUD", today)));
    r.push((String::from_str("LA"), prop("5678 Baton Rouge Rd", "Baton Rouge", "LA", "70801", 145000, 3, 15, 1250, "Single Family", "Fannie Mae", today)));
    r.push((String::from_str("KY"), prop("1234 Bluegrass Way", "Louisville", "KY", "40202", 145000, 3, 15, 1300, "Single Family", "HUD", today)));
    r.push((String::from_str("KY"), prop("5678 Lexington Ave", "Lexington", "KY", "40507", 165000, 3, 20, 1400, "Single Family", "Fannie Mae", today)));
    r.push((String::from_str("OK"), prop("1234 Sooner State Dr", "Oklahoma City", "OK", "73102", 135000, 3, 20, 1400, "Single Family", "HUD", today)));
    r.push((String::from_str("OK"), prop("5678 Tulsa Way", "Tulsa", "OK", "74103", 125000, 3, 15, 1300, "Single Family", "Fannie Mae", today)));
    assert(r@.map_values(|e: (String, ForeclosureProperty)| sample_row(e)) =~= before.map_values(
        |e: (String, ForeclosureProperty)| sample_row(e),
    ) + sample_rows().subrange(60, 72));
}

/// Appends sample listings 72 to 83, listed on `today`.
fn push_samples_72_to_83(r: &mut Vec<(String, ForeclosureProperty)>, today: &str)
    requires
        table_listed_on(old(r)@, today@),
    ensures
        final(r)@.map_values(|e: (String, ForeclosureProperty)| sample_row(e)) == old(r)@.map_values(
            |e: (String, ForeclosureProperty)| sample_row(e),
        ) + sample_rows().subrange(72, 84),
        table_listed_on(final(r)@, today@),
{
    let ghost before = r@;
    r.push((String::from_str("OR"), prop("1234 Rose City Ave", "Portland", "OR", "97201", 385000, 3, 20, 1450, "Single Family", "HUD", today)));
    r.push((String::from_str("OR"), prop("5678 Eugene Way", "Eugene", "OR", "97401", 285000, 3, 20, 1350, "Single Family", "Fannie Mae", today)));
    r.push((String::from_str("CO"), prop("1234 Rocky Mountain Blvd", "Denver", "CO", "80202", 385000, 3, 20, 1500, "Single Family", "HUD", today)));
    r.push((String::from_str("CO"), prop("5678 Springs Way", "Colorado Springs", "CO", "80903", 285000, 3, 20, 1400, "Single Family", "Fannie Mae", today)));
    r.push((String::from_str("WA"), prop("1234 Emerald City Ave", "Seattle", "WA", "98101", 485000, 3, 20, 1400, "Single Family", "HUD", today)));
    r.push((String::from_str("WA"), prop("5678 Tacoma Way", "Tacoma", "WA", "98402", 345000, 3, 20, 1350, "Single Family", "Fannie Mae", today)));
    r.push((String::from_str("WA"), prop("9012 Spokane Rd", "Spokane", "WA", "99201", 225000, 3, 15, 1250, "Single Family", "HUD", today)));
    r.push((String::from_str("CT"), prop("1234 Constitution Ave", "Hartford", "CT", "06103", 185000, 3, 15, 1250, "Single Family", "HUD", today)));
    r.push((String::from_str("CT"), prop("5678 New Haven Way", "New Haven", "CT", "06510", 225000, 3, 20, 1350, "Single Family", "Fannie Mae", today)));
    r.push((String::from_str("MA"), prop("1234 Pilgrim Way", "Boston", "MA", "02108", 485000, 2, 10, 1100, "Condo", "HUD", today)));
    r.push((String::from_str("MA"), prop("5678 Worcester Rd", "Worcester", "MA", "01608", 285000, 3, 15, 1300, "Single Family", "Fannie Mae", today)));
    r.push((String::from_str("MN"), prop("1234 Twin Cities Blvd", "Minneapolis", "MN", "55401", 225000, 3, 20, 1400, "Single Family", "HUD", today)));
    assert(r@.map_values(|e: (String, ForeclosureProperty)| sample_row(e)) =~= before.map_values(
        |e: (String, ForeclosureProperty)| sample_row(e),
    ) + sample_rows().subrange(72, 84));
}

/// Appends sample listings 84 to 95, listed on `today`.
fn push_samples_84_to_95(r: &mut Vec<(String, ForeclosureProperty)>, today: &str)
    requires
        table_listed_on(old(r)@, today@),
    ensures
        final(r)@.map_values(|e: (String, ForeclosureProperty)| sample_row(e)) == old(r)@.map_values(
            |e: (String, ForeclosureProperty)| sample_row(e),
        ) + sample_rows().subrange(84, 96),
        table_listed_on(final(r)@, today@),
{
    let ghost before = r@;
    r.push((String::from_str("MN"), prop("5678 St. Paul Ave", "St. Paul", "MN", "55101", 195000, 3, 15, 1300, "Single Family", "Fannie Mae", today)));
    r.push((String::from_str("KS"), prop("1234 Sunflower Way", "Wichita", "KS", "67202", 125000, 3, 15, 1300, "Single Family", "HUD", today)));
    r.push((String::from_str("KS"), prop("5678 Topeka Ave", "Topeka", "KS", "66603", 105000, 3, 10, 1150, "Single Family", "Fannie Mae", today)));
    r.push((String::from_str("AR"), prop("1234 Natural State Dr", "Little Rock", "AR", "72201", 145000, 3, 20, 1400, "Single Family", "HUD", today)));
    r.push((String::from_str("AR"), prop("5678 Fayetteville Rd", "Fayetteville", "AR", "72701", 185000, 3, 20, 1450, "Single Family", "Fannie Mae", today)));
    r.push((String::from_str("MS"), prop("1234 Magnolia State Ave", "Jackson", "MS", "39201", 115000, 3, 15, 1300, "Single Family", "HUD", today)));
    r.push((String::from_str("MS"), prop("5678 Gulf Coast Dr", "Gulfport", "MS", "39501", 145000, 3, 20, 1400, "Single Family", "Fannie Mae", today)));
    r.push((String::from_str("NE"), prop("1234 Cornhusker Way", "Omaha", "NE", "68102", 165000, 3, 20, 1400, "Single Family", "HUD", today)));
    r.push((String::from_str("NE"), prop("5678 Lincoln Ave", "Lincoln", "NE", "68508", 145000, 3, 15, 1300, "Single Family", "Fannie Mae", today)));
    r.push((String::from_str("NM"), prop("1234 Land of Enchantment", "Albuquerque", "NM", "87102", 225000, 3, 20, 1450, "Single Family", "HUD", today)));
    r.push((String::from_str("NM"), prop("5678 Santa Fe Trail", "Santa Fe", "NM", "87501", 285000, 3, 20, 1500, "Single Family", "Fannie Mae", today)));
    r.push((String::from_str("UT"), prop("1234 Beehive State Dr", "Salt Lake City", "UT", "84101", 345000, 3, 20, 1500, "Single Family", "HUD", today)));
    assert(r@.map_values(|e: (String, ForeclosureProperty)| sample_row(e)) =~= before.map_values(
        |e: (String, ForeclosureProperty)| sample_row(e),
    ) + sample_rows().subrange(84, 96));
}

/// Appends sample listings 96 to 107, listed on `today`.
fn push_samples_96_to_107(r: &mut Vec<(String, ForeclosureProperty)>, today: &str)
    requires
        table_listed_on(old(r)@, today@),
    ensures
        final(r)@.map_values(|e: (String, ForeclosureProperty)| sample_row(e)) == old(r)@.map_values(
            |e: (String, ForeclosureProperty)| sample_row(e),
        ) + sample_rows().subrange(96, 108),
        table_listed_on(final(r)@, today@),
{
    let ghost before = r@;
    r.push((String::from_str("UT"), prop("5678 Provo Way", "Provo", "UT", "84601", 285000, 3, 20, 1400, "Single Family", "Fannie Mae", today)));
    r.push((String::from_str("WV"), prop("1234 Mountain State Way", "Charleston", "WV", "25301", 95000, 3, 15, 1250, "Single Family", "HUD", today)));
    r.push((String::from_str("WV"), prop("5678 Huntington Ave", "Huntington", "WV", "25701", 85000, 3, 10, 1100, "Single Family", "Fannie Mae", today)));
    r.push((String::from_str("ID"), prop("1234 Gem State Blvd", "Boise", "ID", "83702", 325000, 3, 20, 1500, "Single Family", "HUD", today)));
    r.push((String::from_str("ID"), prop("5678 Idaho Falls Rd", "Idaho Falls", "ID", "83402", 225000, 3, 20, 1350, "Single Family", "Fannie Mae", today)));
    r.push((String::from_str("HI"), prop("1234 Aloha Way", "Honolulu", "HI", "96813", 685000, 3, 20, 1400, "Single Family", "HUD", today)));
    r.push((String::from_str("HI"), prop("5678 Maui Dr", "Kahului", "HI", "96732", 545000, 3, 20, 1350, "Single Family", "Fannie Mae", today)));
    r.push((String::from_str("ME"), prop("1234 Pine Tree Way", "Portland", "ME", "04101", 245000, 3, 15, 1300, "Single Family", "HUD", today)));
    r.push((String::from_str("NH"), prop("1234 Granite State Dr", "Manchester", "NH", "03101", 285000, 3, 20, 1400, "Single Family", "HUD", today)));
    r.push((String::from_str("RI"), prop("1234 Ocean State Ave", "Providence", "RI", "02903", 265000, 3, 15, 1250, "Single Family", "HUD", today)));
    r.push((String::from_str("VT"), prop("1234 Green Mountain Rd", "Burlington", "VT", "05401", 285000, 3, 20, 1350, "Single Family", "HUD", today)));
    r.push((String::from_str("DE"), prop("1234 First State Way", "Wilmington", "DE", "19801", 225000, 3, 15, 1300, "Single Family", "HUD", today)));
    assert(r@.map_values(|e: (String, ForeclosureProperty)| sample_row(e)) =~= before.map_values(
        |e: (String, ForeclosureProperty)| sample_row(e),
    ) + sample_rows().subrange(96, 108));
}

/// Appends sample listings 108 to 113, listed on `today`.
fn push_samples_108_to_113(r: &mut Vec<(String, ForeclosureProperty)>, today: &str)
    requires
        table_listed_on(old(r)@, today@),
    ensures
        final(r)@.map_values(|e: (String, ForeclosureProperty)| sample_row(e)) == old(r)@.map_values(
            |e: (String, ForeclosureProperty)| sample_row(e),
        ) + sample_rows().subrange(108, 114),
        table_listed_on(final(r)@, today@),
{
    let ghost before = r@;
    r.push((String::from_str("DC"), prop("1234 Capitol Hill", "Washington", "DC", "20001", 485000, 3, 20, 1400, "Rowhouse", "HUD", today)));
    r.push((String::from_str("MT"), prop("1234 Big Sky Way", "Billings", "MT", "59101", 285000, 3, 20, 1450, "Single Family", "HUD", today)));
    r.push((String::from_str("ND"), prop("1234 Peace Garden State", "Fargo", "ND", "58102", 225000, 3, 20, 1400, "Single Family", "HUD", today)));
    r.push((String::from_str("SD"), prop("1234 Mount Rushmore Way", "Sioux Falls", "SD", "57104", 225000, 3, 20, 1400, "Single Family", "HUD", today)));
    r.push((String::from_str("WY"), prop("1234 Equality State Dr", "Cheyenne", "WY", "82001", 265000, 3, 20, 1450, "Single Family", "HUD", today)));
    r.push((String::from_str("AK"), prop("1234 Last Frontier Way", "Anchorage", "AK", "99501", 325000, 3, 20, 1500, "Single Family", "HUD", today)));
    assert(r@.map_values(|e: (String, ForeclosureProperty)| sample_row(e)) =~= before.map_values(
        |e: (String, ForeclosureProperty)| sample_row(e),
    ) + sample_rows().subrange(108, 114));
}

/// Every sample listing with the market it is filed under, listed on
/// `today`.
fn sample_table(today: &str) -> (r: Vec<(String, ForeclosureProperty)>)
    ensures
        r@.map_values(|e: (String, ForeclosureProperty)| sample_row(e)) == sample_rows(),
        table_listed_on(r@, today@),
{
    let mut r: Vec<(String, ForeclosureProperty)> = Vec::new();
    push_samples_0_to_11(&mut r, today);
    push_samples_12_to_23(&mut r, today);
    push_samples_24_to_35(&mut r, today);
    push_samples_36_to_47(&mut r, today);
    push_samples_48_to_59(&mut r, today);
    push_samples_60_to_71(&mut r, today);
    push_samples_72_to_83(&mut r, today);
    push_samples_84_to_95(&mut r, today);
    push_samples_96_to_107(&mut r, today);
    push_samples_108_to_113(&mut r, today);
    assert(Seq::<(Seq<char>, PropertyView)>::empty() + sample_rows().subrange(0, 12) + sample_rows().subrange(12, 24) + sample_rows().subrange(24, 36) + sample_rows().subrange(36, 48) + sample_rows().subrange(48, 60) + sample_rows().subrange(60, 72) + sample_rows().subrange(72, 84) + sample_rows().subrange(84, 96) + sample_rows().subrange(96, 108) + sample_rows().subrange(108, 114) =~= sample_rows());
    r
}

/// The sample listings filed under the market `key`, listed on `today`.
pub fn sample_listings(key: &str, today: &str) -> (r: Vec<ForeclosureProperty>)
    ensures
        r@.map_values(|p: ForeclosureProperty| (key@, property_view(p))) == sample_rows().filter(
            filed_under(key@),
        ),
        listed_on(r@, today@),
{
    let table = sample_table(today);
    let ghost all = table@;
    let wanted = String::from_str(key);
    let mut r: Vec<ForeclosureProperty> = Vec::new();
    for e in it: table.into_iter()
        invariant
            it.seq() == all,
            all.map_values(|e: (String, ForeclosureProperty)| sample_row(e)) == sample_rows(),
            table_listed_on(all, today@),
            wanted@ == key@,
            r@.map_values(|p: ForeclosureProperty| (key@, property_view(p))) == sample_rows().take(
                it.index() as int,
            ).filter(filed_under(key@)),
            listed_on(r@, today@),
    {
        proof {
            let n = it.index() as int;
            assert(sample_rows().take(n + 1).drop_last() =~= sample_rows().take(n));
            assert(sample_rows()[n] == sample_row(e));
            assert(all[n] == e);
            reveal(Seq::filter);
        }
        let ghost before = r@;
        let (market, p) = e;
        if market == wanted {
            r.push(p);
            assert(r@.map_values(|p: ForeclosureProperty| (key@, property_view(p))) =~= before.map_values(
                |p: ForeclosureProperty| (key@, property_view(p)),
            ).push((key@, property_view(p))));
        }
    }
    proof {
        assert(sample_rows().take(sample_rows().len() as int) =~= sample_rows());
    }
    r
}

/// The sample listings of a market, its state code given in any case.
pub fn get_hud_sample_data(state: &str, today: &str) -> (r: Vec<ForeclosureProperty>)
    ensures
        r@.map_values(|p: ForeclosureProperty| (upper_of(state@), property_view(p)))
            == sample_rows().filter(filed_under(upper_of(state@))),
        listed_on(r@, today@),
{
    let key = to_upper(state);
    sample_listings(key.as_str(), today)
}

fn summary(
    state: &str,
    state_name: &str,
    total_listings: i32,
    avg_price_dollars: u64,
    hud_count: i32,
    fannie_count: i32,
    freddie_count: i32,
    foreclosure_rate_tenths: i32,
    yoy_change_tenths: i32,
    avg_days_on_market: i32,
    today: &str,
) -> (r: ForeclosureSummary)
    ensures
        summary_view(r) == (SummaryView {
            state: state@,
            state_name: state_name@,
            total_listings: total_listings as int,
            avg_price_dollars: avg_price_dollars as int,
            hud_count: hud_count as int,
            fannie_count: fannie_count as int,
            freddie_count: freddie_count as int,
            foreclosure_rate_tenths: foreclosure_rate_tenths as int,
            yoy_change_tenths: yoy_change_tenths as int,
            avg_days_on_market: avg_days_on_market as int,
        }),
        r.updated@ == today@,
{
    ForeclosureSummary {
        state: String::from_str(state),
        state_name: String::from_str(state_name),
        total_listings,
        avg_price_dollars,
        hud_count,
        fannie_count,
        freddie_count,
        foreclosure_rate_tenths,
        yoy_change_tenths,
        avg_days_on_market,
        updated: String::from_str(today),
    }
}

/// Foreclosure statistics of every state (50 states and DC), dated
/// `today`.
pub fn get_foreclosure_stats(today: &str) -> (r: Vec<ForeclosureSummary>)
    ensures
        summaries(r@) == summary_rows(),
        forall|i: int| 0 <= i < r@.len() ==> (#[trigger] r@[i]).updated@ == today@,
{
    let mut r: Vec<ForeclosureSummary> = Vec::new();
    r.push(summary("FL", "Florida", 45000, 285000, 1200, 800, 500, 48, 125, 45, today));
    r.push(summary("TX", "Texas", 38000, 225000, 950, 700, 450, 32, 82, 42, today));
    r.push(summary("CA", "California", 35000, 485000, 850, 650, 400, 24, 153, 55, today));
    r.push(summary("GA", "Georgia", 22000, 265000, 600, 400, 250, 45, 108, 38, today));
    r.push(summary("OH", "Ohio", 18000, 145000, 500, 350, 200, 38, 52, 52, today));
    r.push(summary("MI", "Michigan", 16000, 165000, 450, 300, 180, 35, 68, 48, today));
    r.push(summary("IL", "Illinois", 15000, 195000, 420, 280, 170, 29, 45, 65, today));
    r.push(summary("NJ", "New Jersey", 14000, 325000, 400, 260, 160, 38, 182, 75, today));
    r.push(summary("PA", "Pennsylvania", 13000, 175000, 380, 240, 150, 25, 38, 58, today));
    r.push(summary("AZ", "Arizona", 12000, 315000, 350, 220, 140, 39, 225, 35, today));
    r.push(summary("NC", "North Carolina", 11000, 245000, 320, 200, 130, 26, 75, 42, today));
    r.push(summary("NY", "New York", 10000, 385000, 300, 180, 120, 12, 28, 95, today));
    r.push(summary("IN", "Indiana", 9000, 155000, 280, 170, 110, 34, 42, 45, today));
    r.push(summary("TN", "Tennessee", 8500, 235000, 260, 160, 100, 30, 95, 40, today));
    r.push(summary("SC", "South Carolina", 8000, 225000, 240, 150, 95, 36, 112, 38, today));
    r.push(summary("NV", "Nevada", 7500, 345000, 220, 140, 90, 52, 285, 32, today));
    r.push(summary("MD", "Maryland", 7000, 295000, 200, 130, 85, 28, 55, 62, today));
    r.push(summary("MO", "Missouri", 6500, 165000, 190, 120, 80, 26, 32, 48, today));
    r.push(summary("CO", "Colorado", 6000, 425000, 175, 110, 75, 25, 188, 38, today));
    r.push(summary("VA", "Virginia", 5800, 315000, 170, 105, 70, 18, 45, 52, today));
    r.push(summary("AL", "Alabama", 5500, 165000, 160, 100, 65, 28, 25, 55, today));
    r.push(summary("WI", "Wisconsin", 5200, 185000, 155, 95, 60, 22, 38, 58, today));
    r.push(summary("LA", "Louisiana", 5000, 175000, 150, 90, 55, 29, 52, 62, today));
    r.push(summary("OK", "Oklahoma", 4800, 145000, 140, 85, 50, 30, 48, 48, today));
    r.push(summary("KY", "Kentucky", 4500, 155000, 135, 80, 45, 25, 35, 52, today));
    r.push(summary("OR", "Oregon", 4200, 385000, 125, 75, 40, 24, 125, 45, today));
    r.push(summary("CT", "Connecticut", 4000, 285000, 120, 70, 35, 28, 85, 72, today));
    r.push(summary("WA", "Washington", 3800, 425000, 115, 65, 30, 20, 102, 42, today));
    r.push(summary("KS", "Kansas", 3500, 145000, 110, 60, 28, 26, 28, 55, today));
    r.push(summary("IA", "Iowa", 3200, 165000, 100, 55, 25, 22, 15, 48, today));
    r.push(summary("AR", "Arkansas", 3000, 135000, 95, 50, 22, 24, 32, 52, today));
    r.push(summary("MS", "Mississippi", 2800, 125000, 90, 45, 20, 26, 28, 58, today));
    r.push(summary("NE", "Nebraska", 2500, 175000, 80, 40, 18, 20, 18, 45, today));
    r.push(summary("UT", "Utah", 2400, 385000, 75, 38, 16, 18, 155, 35, today));
    r.push(summary("NM", "New Mexico", 2200, 225000, 70, 35, 14, 28, 52, 58, today));
    r.push(summary("WV", "West Virginia", 2000, 95000, 65, 32, 12, 25, 12, 65, today));
    r.push(summary("ID", "Idaho", 1800, 345000, 60, 28, 10, 22, 185, 38, today));
    r.push(summary("ME", "Maine", 1600, 225000, 55, 25, 8, 20, 45, 62, today));
    r.push(summary("NH", "New Hampshire", 1500, 325000, 50, 22, 6, 18, 58, 55, today));
    r.push(summary("RI", "Rhode Island", 1400, 285000, 45, 20, 5, 25, 62, 65, today));
    r.push(summary("MT", "Montana", 1200, 325000, 40, 18, 4, 15, 85, 48, today));
    r.push(summary("DE", "Delaware", 1100, 265000, 38, 16, 3, 24, 42, 58, today));
    r.push(summary("HI", "Hawaii", 1000, 685000, 35, 14, 2, 12, 55, 72, today));
    r.push(summary("SD", "South Dakota", 900, 225000, 32, 12, 2, 14, 28, 45, today));
    r.push(summary("ND", "North Dakota", 800, 225000, 28, 10, 2, 12, 15, 52, today));
    r.push(summary("AK", "Alaska", 700, 325000, 25, 8, 2, 15, 32, 65, today));
    r.push(summary("DC", "District of Columbia", 650, 485000, 22, 6, 2, 20, 85, 75, today));
    r.push(summary("VT", "Vermont", 600, 285000, 20, 5, 2, 12, 25, 68, today));
    r.push(summary("WY", "Wyoming", 500, 285000, 18, 4, 2, 10, 22, 52, today));
    r.push(summary("MN", "Minnesota", 4800, 245000, 145, 85, 50, 20, 35, 48, today));
    r.push(summary("MA", "Massachusetts", 4500, 425000, 140, 80, 45, 15, 42, 72, today));
    assert(summaries(r@) =~= summary_rows());
    r
}

/// Statistics of every state, as `get_foreclosure_stats` gives them.
pub fn get_all_foreclosure_stats(today: &str) -> (r: Vec<ForeclosureSummary>)
    ensures
        summaries(r@) == summary_rows(),
        forall|i: int| 0 <= i < r@.len() ==> (#[trigger] r@[i]).updated@ == today@,
{
    get_foreclosure_stats(today)
}

/// Nation-wide foreclosure figures.
#[derive(Clone, Debug)]
pub struct NationalTrends {
    pub total_foreclosures: i64,
    pub total_states: i64,
    /// Mean foreclosure rate per 10,000 units, in hundredths, rounded half
    /// away from zero; `None` when there are no states to average.
    pub avg_foreclosure_rate_hundredths: Option<i64>,
    pub top_state: String,
    pub top_state_count: i64,
    pub total_hud: i64,
    pub total_fannie: i64,
    pub total_freddie: i64,
    pub month: String,
    pub year: i32,
}

pub open spec fn sum_by(s: Seq<SummaryView>, f: spec_fn(SummaryView) -> int) -> int
    decreases s.len(),
{
    if s.len() == 0 {
        0
    } else {
        sum_by(s.drop_last(), f) + f(s.last())
    }
}

pub open spec fn listings_of() -> spec_fn(SummaryView) -> int {
    |s: SummaryView| s.total_listings
}

pub open spec fn hud_of() -> spec_fn(SummaryView) -> int {
    |s: SummaryView| s.hud_count
}

pub open spec fn fannie_of() -> spec_fn(SummaryView) -> int {
    |s: SummaryView| s.fannie_count
}

pub open spec fn freddie_of() -> spec_fn(SummaryView) -> int {
    |s: SummaryView| s.freddie_count
}

pub open spec fn rate_of() -> spec_fn(SummaryView) -> int {
    |s: SummaryView| s.foreclosure_rate_tenths
}

/// `a / b` rounded to the nearest whole number, halves away from zero.
pub open spec fn rounded_div(a: int, b: int) -> int {
    if a >= 0 {
        (2 * a + b) / (2 * b)
    } else {
        -((-2 * a + b) / (2 * b))
    }
}

/// `k` holds the most listings of `s`, and no later state holds as many.
pub open spec fn is_last_top(s: Seq<SummaryView>, k: int) -> bool {
    &&& 0 <= k < s.len()
    &&& forall|j: int| 0 <= j < s.len() ==> #[trigger] s[j].total_listings <= s[k].total_listings
    &&& forall|j: int| k < j < s.len() ==> #[trigger] s[j].total_listings < s[k].total_listings
}

proof fn lemma_sum_step(s: Seq<SummaryView>, i: int, f: spec_fn(SummaryView) -> int)
    requires
        0 <= i < s.len(),
    ensures
        sum_by(s.take(i + 1), f) == sum_by(s.take(i), f) + f(s[i]),
{
    assert(s.take(i + 1).drop_last() =~= s.take(i));
}

/// Totals, mean rate and leading state over the statistics `stats`.
pub fn national_trends(stats: &Vec<ForeclosureSummary>) -> (r: NationalTrends)
    requires
        stats@.len() <= u32::MAX,
    ensures
        r.total_foreclosures == sum_by(summaries(stats@), listings_of()),
        r.total_hud == sum_by(summaries(stats@), hud_of()),
        r.total_fannie == sum_by(summaries(stats@), fannie_of()),
        r.total_freddie == sum_by(summaries(stats@), freddie_of()),
        r.total_states == stats@.len(),
        stats@.len() == 0 ==> r.avg_foreclosure_rate_hundredths is None && r.top_state@ == "FL"@
            && r.top_state_count == 0,
        stats@.len() > 0 ==> r.avg_foreclosure_rate_hundredths == Some(
            rounded_div(10 * sum_by(summaries(stats@), rate_of()), stats@.len() as int) as i64,
        ),
        stats@.len() > 0 ==> exists|k: int|
            is_last_top(summaries(stats@), k) && r.top_state@ == summaries(stats@)[k].state
                && r.top_state_count == summaries(stats@)[k].total_listings,
        r.month@ == "January"@,
        r.year == 2026,
{
    let n = stats.len();
    let mut listings: i64 = 0;
    let mut hud: i64 = 0;
    let mut fannie: i64 = 0;
    let mut freddie: i64 = 0;
    let mut rate: i64 = 0;
    let mut top: usize = 0;
    let mut i: usize = 0;
    while i < n
        invariant
            n == stats@.len(),
            n <= u32::MAX,
            i <= n,
            listings == sum_by(summaries(stats@).take(i as int), listings_of()),
            hud == sum_by(summaries(stats@).take(i as int), hud_of()),
            fannie == sum_by(summaries(stats@).take(i as int), fannie_of()),
            freddie == sum_by(summaries(stats@).take(i as int), freddie_of()),
            rate == sum_by(summaries(stats@).take(i as int), rate_of()),
            -(i as int) * 0x8000_0000 <= listings <= (i as int) * 0x8000_0000,
            -(i as int) * 0x8000_0000 <= hud <= (i as int) * 0x8000_0000,
            -(i as int) * 0x8000_0000 <= fannie <= (i as int) * 0x8000_0000,
            -(i as int) * 0x8000_0000 <= freddie <= (i as int) * 0x8000_0000,
            -(i as int) * 0x8000_0000 <= rate <= (i as int) * 0x8000_0000,
            i > 0 ==> is_last_top(summaries(stats@).take(i as int), top as int),
        decreases n - i,
    {
        let s = &stats[i];
        proof {
            let v = summaries(stats@);
            assert(v[i as int] == summary_view(stats@[i as int]));
            lemma_sum_step(v, i as int, listings_of());
            lemma_sum_step(v, i as int, hud_of());
            lemma_sum_step(v, i as int, fannie_of());
            lemma_sum_step(v, i as int, freddie_of());
            lemma_sum_step(v, i as int, rate_of());
        }
        listings = listings + s.total_listings as i64;
        hud = hud + s.hud_count as i64;
        fannie = fannie + s.fannie_count as i64;
        freddie = freddie + s.freddie_count as i64;
        rate = rate + s.foreclosure_rate_tenths as i64;
        if i == 0 || s.total_listings >= stats[top].total_listings {
            top = i;
        }
        proof {
            let v = summaries(stats@);
            let t = v.take(i + 1);
            assert(forall|j: int| 0 <= j < i ==> t[j] == v.take(i as int)[j]);
            assert(t[i as int] == summary_view(stats@[i as int]));
            assert(v[top as int] == summary_view(stats@[top as int]));
        }
        i = i + 1;
    }
    proof {
        assert(summaries(stats@).take(n as int) =~= summaries(stats@));
        if n > 0 {
            assert(summaries(stats@)[top as int] == summary_view(stats@[top as int]));
        }
    }
    let avg = if n == 0 {
        None
    } else {
        let a: i128 = 10 * rate as i128;
        let b: i128 = n as i128;
        let q: i128 = if a >= 0 {
            (2 * a + b) / (2 * b)
        } else {
            -((-2 * a + b) / (2 * b))
        };
        proof {
            vstd::arithmetic::div_mod::lemma_div_is_ordered_by_denominator(
                if a >= 0 { 2 * a + b } else { -2 * a + b } as int,
                2,
                2 * b as int,
            );
        }
        Some(q as i64)
    };
    let (top_state, top_state_count) = if n == 0 {
        (String::from_str("FL"), 0)
    } else {
        (stats[top].state.clone(), stats[top].total_listings as i64)
    };
    NationalTrends {
        total_foreclosures: listings,
        total_states: n as i64,
        avg_foreclosure_rate_hundredths: avg,
        top_state,
        top_state_count,
        total_hud: hud,
        total_fannie: fannie,
        total_freddie: freddie,
        month: String::from_str("January"),
        year: 2026,
    }
}

/// The totals of the statistics as listed.
#[verifier::rlimit(100)]
proof fn lemma_listed_totals()
    ensures
        sum_by(summary_rows(), listings_of()) == 388_950,
        sum_by(summary_rows(), rate_of()) == 1_289,
{
    let rows = summary_rows();
    assert(rows.take(0) =~= Seq::<SummaryView>::empty());
    lemma_sum_step(rows, 0, listings_of());
    lemma_sum_step(rows, 0, rate_of());
    lemma_sum_step(rows, 1, listings_of());
    lemma_sum_step(rows, 1, rate_of());
    lemma_sum_step(rows, 2, listings_of());
    lemma_sum_step(rows, 2, rate_of());
    lemma_sum_step(rows, 3, listings_of());
    lemma_sum_step(rows, 3, rate_of());
    lemma_sum_step(rows, 4, listings_of());
    lemma_sum_step(rows, 4, rate_of());
    lemma_sum_step(rows, 5, listings_of());
    lemma_sum_step(rows, 5, rate_of());
    lemma_sum_step(rows, 6, listings_of());
    lemma_sum_step(rows, 6, rate_of());
    lemma_sum_step(rows, 7, listings_of());
    lemma_sum_step(rows, 7, rate_of());
    lemma_sum_step(rows, 8, listings_of());
    lemma_sum_step(rows, 8, rate_of());
    lemma_sum_step(rows, 9, listings_of());
    lemma_sum_step(rows, 9, rate_of());
    lemma_sum_step(rows, 10, listings_of());
    lemma_sum_step(rows, 10, rate_of());
    lemma_sum_step(rows, 11, listings_of());
    lemma_sum_step(rows, 11, rate_of());
    lemma_sum_step(rows, 12, listings_of());
    lemma_sum_step(rows, 12, rate_of());
    lemma_sum_step(rows, 13, listings_of());
    lemma_sum_step(rows, 13, rate_of());
    lemma_sum_step(rows, 14, listings_of());
    lemma_sum_step(rows, 14, rate_of());
    lemma_sum_step(rows, 15, listings_of());
    lemma_sum_step(rows, 15, rate_of());
    lemma_sum_step(rows, 16, listings_of());
    lemma_sum_step(rows, 16, rate_of());
    lemma_sum_step(rows, 17, listings_of());
    lemma_sum_step(rows, 17, rate_of());
    lemma_sum_step(rows, 18, listings_of());
    lemma_sum_step(rows, 18, rate_of());
    lemma_sum_step(rows, 19, listings_of());
    lemma_sum_step(rows, 19, rate_of());
    lemma_sum_step(rows, 20, listings_of());
    lemma_sum_step(rows, 20, rate_of());
    lemma_sum_step(rows, 21, listings_of());
    lemma_sum_step(rows, 21, rate_of());
    lemma_sum_step(rows, 22, listings_of());
    lemma_sum_step(rows, 22, rate_of());
    lemma_sum_step(rows, 23, listings_of());
    lemma_sum_step(rows, 23, rate_of());
    lemma_sum_step(rows, 24, listings_of());
    lemma_sum_step(rows, 24, rate_of());
    lemma_sum_step(rows, 25, listings_of());
    lemma_sum_step(rows, 25, rate_of());
    lemma_sum_step(rows, 26, listings_of());
    lemma_sum_step(rows, 26, rate_of());
    lemma_sum_step(rows, 27, listings_of());
    lemma_sum_step(rows, 27, rate_of());
    lemma_sum_step(rows, 28, listings_of());
    lemma_sum_step(rows, 28, rate_of());
    lemma_sum_step(rows, 29, listings_of());
    lemma_sum_step(rows, 29, rate_of());
    lemma_sum_step(rows, 30, listings_of());
    lemma_sum_step(rows, 30, rate_of());
    lemma_sum_step(rows, 31, listings_of());
    lemma_sum_step(rows, 31, rate_of());
    lemma_sum_step(rows, 32, listings_of());
    lemma_sum_step(rows, 32, rate_of());
    lemma_sum_step(rows, 33, listings_of());
    lemma_sum_step(rows, 33, rate_of());
    lemma_sum_step(rows, 34, listings_of());
    lemma_sum_step(rows, 34, rate_of());
    lemma_sum_step(rows, 35, listings_of());
    lemma_sum_step(rows, 35, rate_of());
    lemma_sum_step(rows, 36, listings_of());
    lemma_sum_step(rows, 36, rate_of());
    lemma_sum_step(rows, 37, listings_of());
    lemma_sum_step(rows, 37, rate_of());
    lemma_sum_step(rows, 38, listings_of());
    lemma_sum_step(rows, 38, rate_of());
    lemma_sum_step(rows, 39, listings_of());
    lemma_sum_step(rows, 39, rate_of());
    lemma_sum_step(rows, 40, listings_of());
    lemma_sum_step(rows, 40, rate_of());
    lemma_sum_step(rows, 41, listings_of());
    lemma_sum_step(rows, 41, rate_of());
    lemma_sum_step(rows, 42, listings_of());
    lemma_sum_step(rows, 42, rate_of());
    lemma_sum_step(rows, 43, listings_of());
    lemma_sum_step(rows, 43, rate_of());
    lemma_sum_step(rows, 44, listings_of());
    lemma_sum_step(rows, 44, rate_of());
    lemma_sum_step(rows, 45, listings_of());
    lemma_sum_step(rows, 45, rate_of());
    lemma_sum_step(rows, 46, listings_of());
    lemma_sum_step(rows, 46, rate_of());
    lemma_sum_step(rows, 47, listings_of());
    lemma_sum_step(rows, 47, rate_of());
    lemma_sum_step(rows, 48, listings_of());
    lemma_sum_step(rows, 48, rate_of());
    lemma_sum_step(rows, 49, listings_of());
    lemma_sum_step(rows, 49, rate_of());
    lemma_sum_step(rows, 50, listings_of());
    lemma_sum_step(rows, 50, rate_of());
    assert(rows.take(51) =~= rows);
}

/// Florida alone holds the most listings.
#[verifier::rlimit(100)]
proof fn lemma_florida_leads(k: int)
    requires
        is_last_top(summary_rows(), k),
    ensures
        k == 0,
        summary_rows()[k].state == "FL"@,
        summary_rows()[k].total_listings == 45_000,
{
    assert(summary_rows()[0].total_listings == 45_000);
}

/// National figures over every state's statistics.
pub fn get_national_trends() -> (r: NationalTrends)
    ensures
        r.total_foreclosures == sum_by(summary_rows(), listings_of()),
        r.total_hud == sum_by(summary_rows(), hud_of()),
        r.total_fannie == sum_by(summary_rows(), fannie_of()),
        r.total_freddie == sum_by(summary_rows(), freddie_of()),
        r.total_states == 51,
        r.avg_foreclosure_rate_hundredths == Some(
            rounded_div(10 * sum_by(summary_rows(), rate_of()), 51) as i64,
        ),
        exists|k: int|
            is_last_top(summary_rows(), k) && r.top_state@ == summary_rows()[k].state
                && r.top_state_count == summary_rows()[k].total_listings,
        r.total_foreclosures == 388_950,
        r.avg_foreclosure_rate_hundredths == Some(253i64),
        r.top_state@ == "FL"@,
        r.top_state_count == 45_000,
        r.month@ == "January"@,
        r.year == 2026,
{
    let stats = get_foreclosure_stats("");
    assert(stats@.len() == summaries(stats@).len());
    let r = national_trends(&stats);
    proof {
        lemma_listed_totals();
        let k = choose|k: int|
            is_last_top(summary_rows(), k) && r.top_state@ == summary_rows()[k].state
                && r.top_state_count == summary_rows()[k].total_listings;
        lemma_florida_leads(k);
    }
    r
}

} // verus!
