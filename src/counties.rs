//! The curated county database: demographics and market figures of the
//! counties the service follows, and their ranking.
use vstd::prelude::*;
use vstd::string::StringExecFns;
use crate::text::{to_upper, upper_of};

verus! {

/// One county of the curated database.
#[derive(Clone, Debug)]
pub struct CountyData {
    pub name: String,
    pub state: String,
    pub tier: u8,
    pub pop: u32,
    pub income: u32,
    pub zhvi: u32,
    /// Year-over-year growth in basis points: 5.8% is 580.
    pub growth_bp: i32,
    pub dom: u32,
    pub notes: String,
}

/// What a `CountyData` holds.
pub struct CountyView {
    pub state: Seq<char>,
    pub name: Seq<char>,
    pub pop: int,
    pub income: int,
    pub zhvi: int,
    pub growth_bp: int,
    pub dom: int,
    pub tier: int,
    pub notes: Seq<char>,
}

/// Every county of the database, in the order they are listed.
pub open spec fn county_rows() -> Seq<CountyView> {
    seq![
        CountyView {
            state: "AL"@,
            name: "Shelby"@,
            pop: 223024,
            income: 85678,
            zhvi: 345000,
            growth_bp: 580,
            dom: 32,
            tier: 1,
            notes: "Birmingham suburb"@,
        },
        CountyView {
            state: "AL"@,
            name: "Madison"@,
            pop: 387545,
            income: 68234,
            zhvi: 285000,
            growth_bp: 550,
            dom: 32,
            tier: 1,
            notes: "Huntsville tech"@,
        },
        CountyView {
            state: "AL"@,
            name: "Baldwin"@,
            pop: 231767,
            income: 62481,
            zhvi: 320000,
            growth_bp: 580,
            dom: 38,
            tier: 1,
            notes: "Gulf Coast"@,
        },
        CountyView {
            state: "AL"@,
            name: "Jefferson"@,
            pop: 674721,
            income: 52891,
            zhvi: 185000,
            growth_bp: 320,
            dom: 42,
            tier: 2,
            notes: "Birmingham"@,
        },
        CountyView {
            state: "AL"@,
            name: "Mobile"@,
            pop: 414809,
            income: 48234,
            zhvi: 165000,
            growth_bp: 300,
            dom: 48,
            tier: 2,
            notes: "Port city"@,
        },
        CountyView {
            state: "AK"@,
            name: "Anchorage"@,
            pop: 291247,
            income: 84567,
            zhvi: 365000,
            growth_bp: 280,
            dom: 45,
            tier: 1,
            notes: "Urban center"@,
        },
        CountyView {
            state: "AK"@,
            name: "Matanuska-Susitna"@,
            pop: 108317,
            income: 75678,
            zhvi: 325000,
            growth_bp: 450,
            dom: 48,
            tier: 2,
            notes: "Mat-Su"@,
        },
        CountyView {
            state: "AK"@,
            name: "Fairbanks"@,
            pop: 97121,
            income: 72345,
            zhvi: 275000,
            growth_bp: 250,
            dom: 55,
            tier: 2,
            notes: "Interior"@,
        },
        CountyView {
            state: "AZ"@,
            name: "Maricopa"@,
            pop: 4420568,
            income: 68234,
            zhvi: 420000,
            growth_bp: 550,
            dom: 30,
            tier: 1,
            notes: "Phoenix"@,
        },
        CountyView {
            state: "AZ"@,
            name: "Pima"@,
            pop: 1043433,
            income: 55234,
            zhvi: 320000,
            growth_bp: 420,
            dom: 42,
            tier: 1,
            notes: "Tucson"@,
        },
        CountyView {
            state: "AZ"@,
            name: "Pinal"@,
            pop: 464474,
            income: 58234,
            zhvi: 345000,
            growth_bp: 580,
            dom: 38,
            tier: 2,
            notes: "Phoenix spillover"@,
        },
        CountyView {
            state: "CA"@,
            name: "Los Angeles"@,
            pop: 9829544,
            income: 72000,
            zhvi: 850000,
            growth_bp: 380,
            dom: 35,
            tier: 1,
            notes: "LA metro"@,
        },
        CountyView {
            state: "CA"@,
            name: "San Diego"@,
            pop: 3286069,
            income: 82000,
            zhvi: 880000,
            growth_bp: 450,
            dom: 28,
            tier: 1,
            notes: "Biotech"@,
        },
        CountyView {
            state: "CA"@,
            name: "Orange"@,
            pop: 3167809,
            income: 100000,
            zhvi: 1050000,
            growth_bp: 420,
            dom: 30,
            tier: 1,
            notes: "OC"@,
        },
        CountyView {
            state: "CA"@,
            name: "San Francisco"@,
            pop: 815201,
            income: 140000,
            zhvi: 1350000,
            growth_bp: 250,
            dom: 30,
            tier: 1,
            notes: "SF"@,
        },
        CountyView {
            state: "CO"@,
            name: "Denver"@,
            pop: 715522,
            income: 78000,
            zhvi: 580000,
            growth_bp: 480,
            dom: 28,
            tier: 1,
            notes: "Denver"@,
        },
        CountyView {
            state: "CO"@,
            name: "El Paso"@,
            pop: 730395,
            income: 68000,
            zhvi: 420000,
            growth_bp: 450,
            dom: 32,
            tier: 1,
            notes: "CO Springs"@,
        },
        CountyView {
            state: "CO"@,
            name: "Boulder"@,
            pop: 330758,
            income: 88000,
            zhvi: 680000,
            growth_bp: 380,
            dom: 35,
            tier: 1,
            notes: "CU"@,
        },
        CountyView {
            state: "FL"@,
            name: "Miami-Dade"@,
            pop: 2701767,
            income: 58000,
            zhvi: 520000,
            growth_bp: 580,
            dom: 35,
            tier: 1,
            notes: "Miami"@,
        },
        CountyView {
            state: "FL"@,
            name: "Broward"@,
            pop: 1944375,
            income: 62000,
            zhvi: 450000,
            growth_bp: 520,
            dom: 32,
            tier: 1,
            notes: "Ft Lauderdale"@,
        },
        CountyView {
            state: "FL"@,
            name: "Palm Beach"@,
            pop: 1492191,
            income: 72000,
            zhvi: 520000,
            growth_bp: 480,
            dom: 38,
            tier: 1,
            notes: "Palm Beach"@,
        },
        CountyView {
            state: "FL"@,
            name: "Hillsborough"@,
            pop: 1459762,
            income: 62000,
            zhvi: 380000,
            growth_bp: 550,
            dom: 30,
            tier: 1,
            notes: "Tampa"@,
        },
        CountyView {
            state: "FL"@,
            name: "Orange"@,
            pop: 1393452,
            income: 58000,
            zhvi: 385000,
            growth_bp: 520,
            dom: 32,
            tier: 1,
            notes: "Orlando"@,
        },
        CountyView {
            state: "GA"@,
            name: "Fulton"@,
            pop: 1066710,
            income: 72000,
            zhvi: 420000,
            growth_bp: 520,
            dom: 28,
            tier: 1,
            notes: "Atlanta"@,
        },
        CountyView {
            state: "GA"@,
            name: "Gwinnett"@,
            pop: 936250,
            income: 72000,
            zhvi: 380000,
            growth_bp: 480,
            dom: 32,
            tier: 1,
            notes: "Atlanta NE"@,
        },
        CountyView {
            state: "GA"@,
            name: "Cobb"@,
            pop: 760141,
            income: 78000,
            zhvi: 420000,
            growth_bp: 450,
            dom: 30,
            tier: 1,
            notes: "Marietta"@,
        },
        CountyView {
            state: "HI"@,
            name: "Honolulu"@,
            pop: 974563,
            income: 92000,
            zhvi: 950000,
            growth_bp: 320,
            dom: 35,
            tier: 1,
            notes: "Oahu"@,
        },
        CountyView {
            state: "HI"@,
            name: "Hawaii"@,
            pop: 200983,
            income: 68000,
            zhvi: 520000,
            growth_bp: 350,
            dom: 48,
            tier: 2,
            notes: "Big Island"@,
        },
        CountyView {
            state: "HI"@,
            name: "Maui"@,
            pop: 164637,
            income: 78000,
            zhvi: 980000,
            growth_bp: 300,
            dom: 52,
            tier: 2,
            notes: "Maui"@,
        },
        CountyView {
            state: "NY"@,
            name: "Kings"@,
            pop: 2559903,
            income: 67000,
            zhvi: 850000,
            growth_bp: 510,
            dom: 25,
            tier: 1,
            notes: "Brooklyn"@,
        },
        CountyView {
            state: "NY"@,
            name: "Queens"@,
            pop: 2253858,
            income: 72500,
            zhvi: 680000,
            growth_bp: 480,
            dom: 30,
            tier: 1,
            notes: "Queens"@,
        },
        CountyView {
            state: "NY"@,
            name: "New York"@,
            pop: 1629153,
            income: 93651,
            zhvi: 1150000,
            growth_bp: 420,
            dom: 28,
            tier: 1,
            notes: "Manhattan"@,
        },
        CountyView {
            state: "NY"@,
            name: "Nassau"@,
            pop: 1356924,
            income: 120000,
            zhvi: 620000,
            growth_bp: 550,
            dom: 28,
            tier: 1,
            notes: "Long Island"@,
        },
        CountyView {
            state: "TX"@,
            name: "Harris"@,
            pop: 4731145,
            income: 63000,
            zhvi: 285000,
            growth_bp: 450,
            dom: 32,
            tier: 1,
            notes: "Houston"@,
        },
        CountyView {
            state: "TX"@,
            name: "Dallas"@,
            pop: 2613539,
            income: 62000,
            zhvi: 320000,
            growth_bp: 520,
            dom: 28,
            tier: 1,
            notes: "Dallas"@,
        },
        CountyView {
            state: "TX"@,
            name: "Tarrant"@,
            pop: 2110640,
            income: 68000,
            zhvi: 310000,
            growth_bp: 480,
            dom: 30,
            tier: 1,
            notes: "Fort Worth"@,
        },
        CountyView {
            state: "TX"@,
            name: "Travis"@,
            pop: 1290188,
            income: 85000,
            zhvi: 520000,
            growth_bp: 650,
            dom: 25,
            tier: 1,
            notes: "Austin"@,
        },
        CountyView {
            state: "TX"@,
            name: "Collin"@,
            pop: 1064465,
            income: 110000,
            zhvi: 480000,
            growth_bp: 580,
            dom: 28,
            tier: 1,
            notes: "Plano"@,
        },
        CountyView {
            state: "ID"@,
            name: "Ada"@,
            pop: 494967,
            income: 72000,
            zhvi: 520000,
            growth_bp: 550,
            dom: 28,
            tier: 1,
            notes: "Boise"@,
        },
        CountyView {
            state: "ID"@,
            name: "Canyon"@,
            pop: 229849,
            income: 55000,
            zhvi: 380000,
            growth_bp: 580,
            dom: 35,
            tier: 2,
            notes: "Nampa"@,
        },
        CountyView {
            state: "IL"@,
            name: "Cook"@,
            pop: 5173146,
            income: 65000,
            zhvi: 310000,
            growth_bp: 320,
            dom: 35,
            tier: 1,
            notes: "Chicago"@,
        },
        CountyView {
            state: "IL"@,
            name: "DuPage"@,
            pop: 932877,
            income: 95000,
            zhvi: 380000,
            growth_bp: 280,
            dom: 32,
            tier: 1,
            notes: "West suburbs"@,
        },
        CountyView {
            state: "IN"@,
            name: "Hamilton"@,
            pop: 338011,
            income: 105000,
            zhvi: 385000,
            growth_bp: 450,
            dom: 32,
            tier: 1,
            notes: "Carmel"@,
        },
        CountyView {
            state: "IN"@,
            name: "Marion"@,
            pop: 977203,
            income: 52000,
            zhvi: 215000,
            growth_bp: 420,
            dom: 35,
            tier: 2,
            notes: "Indianapolis"@,
        },
        CountyView {
            state: "IA"@,
            name: "Polk"@,
            pop: 492401,
            income: 68000,
            zhvi: 265000,
            growth_bp: 380,
            dom: 35,
            tier: 2,
            notes: "Des Moines"@,
        },
        CountyView {
            state: "KS"@,
            name: "Johnson"@,
            pop: 609863,
            income: 92000,
            zhvi: 350000,
            growth_bp: 380,
            dom: 32,
            tier: 1,
            notes: "KC suburbs"@,
        },
        CountyView {
            state: "KY"@,
            name: "Jefferson"@,
            pop: 782969,
            income: 55000,
            zhvi: 225000,
            growth_bp: 350,
            dom: 38,
            tier: 2,
            notes: "Louisville"@,
        },
        CountyView {
            state: "KY"@,
            name: "Fayette"@,
            pop: 323152,
            income: 58000,
            zhvi: 265000,
            growth_bp: 380,
            dom: 35,
            tier: 2,
            notes: "Lexington"@,
        },
        CountyView {
            state: "LA"@,
            name: "East Baton Rouge"@,
            pop: 456781,
            income: 55000,
            zhvi: 235000,
            growth_bp: 320,
            dom: 42,
            tier: 2,
            notes: "Baton Rouge"@,
        },
        CountyView {
            state: "LA"@,
            name: "Orleans"@,
            pop: 383997,
            income: 45000,
            zhvi: 285000,
            growth_bp: 350,
            dom: 42,
            tier: 2,
            notes: "New Orleans"@,
        },
        CountyView {
            state: "ME"@,
            name: "Cumberland"@,
            pop: 303069,
            income: 78000,
            zhvi: 450000,
            growth_bp: 350,
            dom: 38,
            tier: 2,
            notes: "Portland"@,
        },
        CountyView {
            state: "MD"@,
            name: "Montgomery"@,
            pop: 1062061,
            income: 115000,
            zhvi: 580000,
            growth_bp: 320,
            dom: 32,
            tier: 1,
            notes: "DC suburbs"@,
        },
        CountyView {
            state: "MD"@,
            name: "Prince George's"@,
            pop: 967201,
            income: 82000,
            zhvi: 380000,
            growth_bp: 380,
            dom: 35,
            tier: 1,
            notes: "DC suburbs"@,
        },
        CountyView {
            state: "MA"@,
            name: "Middlesex"@,
            pop: 1632002,
            income: 105000,
            zhvi: 680000,
            growth_bp: 320,
            dom: 28,
            tier: 1,
            notes: "Cambridge"@,
        },
        CountyView {
            state: "MA"@,
            name: "Suffolk"@,
            pop: 803907,
            income: 78000,
            zhvi: 680000,
            growth_bp: 300,
            dom: 30,
            tier: 1,
            notes: "Boston"@,
        },
        CountyView {
            state: "MI"@,
            name: "Oakland"@,
            pop: 1274395,
            income: 78000,
            zhvi: 320000,
            growth_bp: 380,
            dom: 32,
            tier: 1,
            notes: "Detroit N"@,
        },
        CountyView {
            state: "MI"@,
            name: "Wayne"@,
            pop: 1773922,
            income: 48000,
            zhvi: 145000,
            growth_bp: 450,
            dom: 38,
            tier: 2,
            notes: "Detroit"@,
        },
        CountyView {
            state: "MN"@,
            name: "Hennepin"@,
            pop: 1281565,
            income: 78000,
            zhvi: 350000,
            growth_bp: 350,
            dom: 28,
            tier: 1,
            notes: "Minneapolis"@,
        },
        CountyView {
            state: "MN"@,
            name: "Ramsey"@,
            pop: 552352,
            income: 65000,
            zhvi: 295000,
            growth_bp: 320,
            dom: 32,
            tier: 1,
            notes: "St. Paul"@,
        },
        CountyView {
            state: "MS"@,
            name: "DeSoto"@,
            pop: 184945,
            income: 68000,
            zhvi: 265000,
            growth_bp: 420,
            dom: 38,
            tier: 2,
            notes: "Memphis sub"@,
        },
        CountyView {
            state: "MO"@,
            name: "St. Louis County"@,
            pop: 1004125,
            income: 72000,
            zhvi: 265000,
            growth_bp: 280,
            dom: 38,
            tier: 2,
            notes: "STL suburbs"@,
        },
        CountyView {
            state: "MO"@,
            name: "Jackson"@,
            pop: 717204,
            income: 55000,
            zhvi: 215000,
            growth_bp: 320,
            dom: 40,
            tier: 2,
            notes: "Kansas City"@,
        },
        CountyView {
            state: "MT"@,
            name: "Yellowstone"@,
            pop: 164731,
            income: 58000,
            zhvi: 350000,
            growth_bp: 420,
            dom: 42,
            tier: 2,
            notes: "Billings"@,
        },
        CountyView {
            state: "MT"@,
            name: "Gallatin"@,
            pop: 114434,
            income: 68000,
            zhvi: 620000,
            growth_bp: 520,
            dom: 38,
            tier: 2,
            notes: "Bozeman"@,
        },
        CountyView {
            state: "NE"@,
            name: "Douglas"@,
            pop: 584526,
            income: 68000,
            zhvi: 265000,
            growth_bp: 350,
            dom: 35,
            tier: 2,
            notes: "Omaha"@,
        },
        CountyView {
            state: "NV"@,
            name: "Clark"@,
            pop: 2265461,
            income: 58000,
            zhvi: 420000,
            growth_bp: 550,
            dom: 32,
            tier: 1,
            notes: "Las Vegas"@,
        },
        CountyView {
            state: "NV"@,
            name: "Washoe"@,
            pop: 486492,
            income: 65000,
            zhvi: 520000,
            growth_bp: 500,
            dom: 35,
            tier: 1,
            notes: "Reno"@,
        },
        CountyView {
            state: "NH"@,
            name: "Hillsborough"@,
            pop: 422937,
            income: 82000,
            zhvi: 420000,
            growth_bp: 380,
            dom: 32,
            tier: 1,
            notes: "Manchester"@,
        },
        CountyView {
            state: "NJ"@,
            name: "Bergen"@,
            pop: 955732,
            income: 105000,
            zhvi: 580000,
            growth_bp: 320,
            dom: 32,
            tier: 1,
            notes: "NYC suburbs"@,
        },
        CountyView {
            state: "NJ"@,
            name: "Middlesex"@,
            pop: 863162,
            income: 92000,
            zhvi: 480000,
            growth_bp: 350,
            dom: 32,
            tier: 1,
            notes: "Central NJ"@,
        },
        CountyView {
            state: "NM"@,
            name: "Bernalillo"@,
            pop: 679121,
            income: 52000,
            zhvi: 295000,
            growth_bp: 420,
            dom: 42,
            tier: 2,
            notes: "Albuquerque"@,
        },
        CountyView {
            state: "NC"@,
            name: "Wake"@,
            pop: 1129410,
            income: 82000,
            zhvi: 420000,
            growth_bp: 520,
            dom: 28,
            tier: 1,
            notes: "Raleigh"@,
        },
        CountyView {
            state: "NC"@,
            name: "Mecklenburg"@,
            pop: 1115482,
            income: 72000,
            zhvi: 380000,
            growth_bp: 480,
            dom: 30,
            tier: 1,
            notes: "Charlotte"@,
        },
        CountyView {
            state: "ND"@,
            name: "Cass"@,
            pop: 184525,
            income: 62000,
            zhvi: 295000,
            growth_bp: 320,
            dom: 38,
            tier: 2,
            notes: "Fargo"@,
        },
        CountyView {
            state: "OH"@,
            name: "Franklin"@,
            pop: 1323807,
            income: 62000,
            zhvi: 285000,
            growth_bp: 480,
            dom: 28,
            tier: 1,
            notes: "Columbus"@,
        },
        CountyView {
            state: "OH"@,
            name: "Cuyahoga"@,
            pop: 1235072,
            income: 52000,
            zhvi: 165000,
            growth_bp: 250,
            dom: 42,
            tier: 2,
            notes: "Cleveland"@,
        },
        CountyView {
            state: "OK"@,
            name: "Oklahoma"@,
            pop: 797434,
            income: 55000,
            zhvi: 195000,
            growth_bp: 350,
            dom: 38,
            tier: 2,
            notes: "OKC"@,
        },
        CountyView {
            state: "OK"@,
            name: "Tulsa"@,
            pop: 669279,
            income: 55000,
            zhvi: 195000,
            growth_bp: 320,
            dom: 40,
            tier: 2,
            notes: "Tulsa"@,
        },
        CountyView {
            state: "OR"@,
            name: "Multnomah"@,
            pop: 812855,
            income: 72000,
            zhvi: 520000,
            growth_bp: 400,
            dom: 32,
            tier: 1,
            notes: "Portland"@,
        },
        CountyView {
            state: "OR"@,
            name: "Washington"@,
            pop: 600372,
            income: 85000,
            zhvi: 550000,
            growth_bp: 450,
            dom: 30,
            tier: 1,
            notes: "Hillsboro"@,
        },
        CountyView {
            state: "PA"@,
            name: "Philadelphia"@,
            pop: 1576251,
            income: 52000,
            zhvi: 220000,
            growth_bp: 450,
            dom: 35,
            tier: 2,
            notes: "Philadelphia"@,
        },
        CountyView {
            state: "PA"@,
            name: "Allegheny"@,
            pop: 1218380,
            income: 62000,
            zhvi: 225000,
            growth_bp: 380,
            dom: 38,
            tier: 2,
            notes: "Pittsburgh"@,
        },
        CountyView {
            state: "PA"@,
            name: "Montgomery"@,
            pop: 856553,
            income: 95000,
            zhvi: 420000,
            growth_bp: 350,
            dom: 32,
            tier: 1,
            notes: "Main Line"@,
        },
        CountyView {
            state: "RI"@,
            name: "Providence"@,
            pop: 660741,
            income: 58000,
            zhvi: 350000,
            growth_bp: 380,
            dom: 38,
            tier: 2,
            notes: "Providence"@,
        },
        CountyView {
            state: "SC"@,
            name: "Charleston"@,
            pop: 411406,
            income: 68000,
            zhvi: 420000,
            growth_bp: 480,
            dom: 35,
            tier: 1,
            notes: "Charleston"@,
        },
        CountyView {
            state: "SC"@,
            name: "Greenville"@,
            pop: 523542,
            income: 62000,
            zhvi: 285000,
            growth_bp: 450,
            dom: 35,
            tier: 2,
            notes: "Greenville"@,
        },
        CountyView {
            state: "SD"@,
            name: "Minnehaha"@,
            pop: 197214,
            income: 62000,
            zhvi: 295000,
            growth_bp: 400,
            dom: 35,
            tier: 2,
            notes: "Sioux Falls"@,
        },
        CountyView {
            state: "TN"@,
            name: "Davidson"@,
            pop: 715884,
            income: 62000,
            zhvi: 380000,
            growth_bp: 520,
            dom: 32,
            tier: 1,
            notes: "Nashville"@,
        },
        CountyView {
            state: "TN"@,
            name: "Shelby"@,
            pop: 937166,
            income: 52000,
            zhvi: 225000,
            growth_bp: 380,
            dom: 38,
            tier: 2,
            notes: "Memphis"@,
        },
        CountyView {
            state: "UT"@,
            name: "Salt Lake"@,
            pop: 1160437,
            income: 72000,
            zhvi: 520000,
            growth_bp: 550,
            dom: 28,
            tier: 1,
            notes: "Salt Lake City"@,
        },
        CountyView {
            state: "UT"@,
            name: "Utah"@,
            pop: 659399,
            income: 72000,
            zhvi: 480000,
            growth_bp: 580,
            dom: 30,
            tier: 1,
            notes: "Provo"@,
        },
        CountyView {
            state: "VT"@,
            name: "Chittenden"@,
            pop: 168323,
            income: 78000,
            zhvi: 450000,
            growth_bp: 350,
            dom: 38,
            tier: 2,
            notes: "Burlington"@,
        },
        CountyView {
            state: "VA"@,
            name: "Fairfax"@,
            pop: 1150309,
            income: 130000,
            zhvi: 680000,
            growth_bp: 350,
            dom: 28,
            tier: 1,
            notes: "Fairfax"@,
        },
        CountyView {
            state: "VA"@,
            name: "Prince William"@,
            pop: 482204,
            income: 105000,
            zhvi: 480000,
            growth_bp: 450,
            dom: 32,
            tier: 1,
            notes: "Woodbridge"@,
        },
        CountyView {
            state: "VA"@,
            name: "Loudoun"@,
            pop: 420959,
            income: 155000,
            zhvi: 680000,
            growth_bp: 400,
            dom: 30,
            tier: 1,
            notes: "Leesburg"@,
        },
        CountyView {
            state: "WA"@,
            name: "King"@,
            pop: 2269675,
            income: 105000,
            zhvi: 780000,
            growth_bp: 450,
            dom: 25,
            tier: 1,
            notes: "Seattle"@,
        },
        CountyView {
            state: "WA"@,
            name: "Pierce"@,
            pop: 921130,
            income: 72000,
            zhvi: 480000,
            growth_bp: 520,
            dom: 32,
            tier: 1,
            notes: "Tacoma"@,
        },
        CountyView {
            state: "WA"@,
            name: "Snohomish"@,
            pop: 827957,
            income: 88000,
            zhvi: 620000,
            growth_bp: 500,
            dom: 30,
            tier: 1,
            notes: "Everett"@,
        },
        CountyView {
            state: "WV"@,
            name: "Berkeley"@,
            pop: 119171,
            income: 62000,
            zhvi: 265000,
            growth_bp: 400,
            dom: 45,
            tier: 2,
            notes: "Martinsburg"@,
        },
        CountyView {
            state: "WI"@,
            name: "Milwaukee"@,
            pop: 939489,
            income: 48000,
            zhvi: 185000,
            growth_bp: 400,
            dom: 38,
            tier: 2,
            notes: "Milwaukee"@,
        },
        CountyView {
            state: "WI"@,
            name: "Dane"@,
            pop: 561504,
            income: 72000,
            zhvi: 380000,
            growth_bp: 450,
            dom: 32,
            tier: 1,
            notes: "Madison"@,
        },
        CountyView {
            state: "WY"@,
            name: "Laramie"@,
            pop: 100512,
            income: 58000,
            zhvi: 295000,
            growth_bp: 350,
            dom: 48,
            tier: 3,
            notes: "Cheyenne"@,
        },
        CountyView {
            state: "WY"@,
            name: "Teton"@,
            pop: 23464,
            income: 92000,
            zhvi: 1250000,
            growth_bp: 400,
            dom: 55,
            tier: 2,
            notes: "Jackson"@,
        },
        CountyView {
            state: "AR"@,
            name: "Benton"@,
            pop: 284333,
            income: 72345,
            zhvi: 295000,
            growth_bp: 580,
            dom: 32,
            tier: 1,
            notes: "NW Arkansas"@,
        },
        CountyView {
            state: "AR"@,
            name: "Washington"@,
            pop: 245871,
            income: 55678,
            zhvi: 285000,
            growth_bp: 520,
            dom: 35,
            tier: 1,
            notes: "Fayetteville"@,
        },
        CountyView {
            state: "CT"@,
            name: "Fairfield"@,
            pop: 943332,
            income: 105000,
            zhvi: 580000,
            growth_bp: 320,
            dom: 38,
            tier: 1,
            notes: "NYC suburbs"@,
        },
        CountyView {
            state: "DE"@,
            name: "New Castle"@,
            pop: 570719,
            income: 72000,
            zhvi: 320000,
            growth_bp: 350,
            dom: 38,
            tier: 2,
            notes: "Wilmington"@,
        },
    ]
}

/// Every field of a county.
pub open spec fn county_row(c: CountyData) -> CountyView {
    CountyView {
        state: c.state@,
        name: c.name@,
        pop: c.pop as int,
        income: c.income as int,
        zhvi: c.zhvi as int,
        growth_bp: c.growth_bp as int,
        dom: c.dom as int,
        tier: c.tier as int,
        notes: c.notes@,
    }
}

fn county(
    state: &str,
    name: &str,
    pop: u32,
    income: u32,
    zhvi: u32,
    growth_bp: i32,
    dom: u32,
    tier: u8,
    notes: &str,
) -> (r: CountyData)
    ensures
        county_row(r) == (CountyView {
            state: state@,
            name: name@,
            pop: pop as int,
            income: income as int,
            zhvi: zhvi as int,
            growth_bp: growth_bp as int,
            dom: dom as int,
            tier: tier as int,
            notes: notes@,
        }),
{
    CountyData {
        name: String::from_str(name),
        state: String::from_str(state),
        tier,
        pop,
        income,
        zhvi,
        growth_bp,
        dom,
        notes: String::from_str(notes),
    }
}

/// Appends counties 0 to 24 of the database.
fn push_counties_0(r: &mut Vec<CountyData>)
    ensures
        final(r)@.map_values(|c: CountyData| county_row(c)) == old(r)@.map_values(
            |c: CountyData| county_row(c),
        ) + county_rows().subrange(0, 25),
{
    let ghost before = r@;
    r.push(county("AL", "Shelby", 223024, 85678, 345000, 580, 32, 1, "Birmingham suburb"));
    r.push(county("AL", "Madison", 387545, 68234, 285000, 550, 32, 1, "Huntsville tech"));
    r.push(county("AL", "Baldwin", 231767, 62481, 320000, 580, 38, 1, "Gulf Coast"));
    r.push(county("AL", "Jefferson", 674721, 52891, 185000, 320, 42, 2, "Birmingham"));
    r.push(county("AL", "Mobile", 414809, 48234, 165000, 300, 48, 2, "Port city"));
    r.push(county("AK", "Anchorage", 291247, 84567, 365000, 280, 45, 1, "Urban center"));
    r.push(county("AK", "Matanuska-Susitna", 108317, 75678, 325000, 450, 48, 2, "Mat-Su"));
    r.push(county("AK", "Fairbanks", 97121, 72345, 275000, 250, 55, 2, "Interior"));
    r.push(county("AZ", "Maricopa", 4420568, 68234, 420000, 550, 30, 1, "Phoenix"));
    r.push(county("AZ", "Pima", 1043433, 55234, 320000, 420, 42, 1, "Tucson"));
    r.push(county("AZ", "Pinal", 464474, 58234, 345000, 580, 38, 2, "Phoenix spillover"));
    r.push(county("CA", "Los Angeles", 9829544, 72000, 850000, 380, 35, 1, "LA metro"));
    r.push(county("CA", "San Diego", 3286069, 82000, 880000, 450, 28, 1, "Biotech"));
    r.push(county("CA", "Orange", 3167809, 100000, 1050000, 420, 30, 1, "OC"));
    r.push(county("CA", "San Francisco", 815201, 140000, 1350000, 250, 30, 1, "SF"));
    r.push(county("CO", "Denver", 715522, 78000, 580000, 480, 28, 1, "Denver"));
    r.push(county("CO", "El Paso", 730395, 68000, 420000, 450, 32, 1, "CO Springs"));
    r.push(county("CO", "Boulder", 330758, 88000, 680000, 380, 35, 1, "CU"));
    r.push(county("FL", "Miami-Dade", 2701767, 58000, 520000, 580, 35, 1, "Miami"));
    r.push(county("FL", "Broward", 1944375, 62000, 450000, 520, 32, 1, "Ft Lauderdale"));
    r.push(county("FL", "Palm Beach", 1492191, 72000, 520000, 480, 38, 1, "Palm Beach"));
    r.push(county("FL", "Hillsborough", 1459762, 62000, 380000, 550, 30, 1, "Tampa"));
    r.push(county("FL", "Orange", 1393452, 58000, 385000, 520, 32, 1, "Orlando"));
    r.push(county("GA", "Fulton", 1066710, 72000, 420000, 520, 28, 1, "Atlanta"));
    r.push(county("GA", "Gwinnett", 936250, 72000, 380000, 480, 32, 1, "Atlanta NE"));
    assert(r@.map_values(|c: CountyData| county_row(c)) =~= before.map_values(
        |c: CountyData| county_row(c),
    ) + county_rows().subrange(0, 25));
}

/// Appends counties 25 to 49 of the database.
fn push_counties_1(r: &mut Vec<CountyData>)
    ensures
        final(r)@.map_values(|c: CountyData| county_row(c)) == old(r)@.map_values(
            |c: CountyData| county_row(c),
        ) + county_rows().subrange(25, 50),
{
    let ghost before = r@;
    r.push(county("GA", "Cobb", 760141, 78000, 420000, 450, 30, 1, "Marietta"));
    r.push(county("HI", "Honolulu", 974563, 92000, 950000, 320, 35, 1, "Oahu"));
    r.push(county("HI", "Hawaii", 200983, 68000, 520000, 350, 48, 2, "Big Island"));
    r.push(county("HI", "Maui", 164637, 78000, 980000, 300, 52, 2, "Maui"));
    r.push(county("NY", "Kings", 2559903, 67000, 850000, 510, 25, 1, "Brooklyn"));
    r.push(county("NY", "Queens", 2253858, 72500, 680000, 480, 30, 1, "Queens"));
    r.push(county("NY", "New York", 1629153, 93651, 1150000, 420, 28, 1, "Manhattan"));
    r.push(county("NY", "Nassau", 1356924, 120000, 620000, 550, 28, 1, "Long Island"));
    r.push(county("TX", "Harris", 4731145, 63000, 285000, 450, 32, 1, "Houston"));
    r.push(county("TX", "Dallas", 2613539, 62000, 320000, 520, 28, 1, "Dallas"));
    r.push(county("TX", "Tarrant", 2110640, 68000, 310000, 480, 30, 1, "Fort Worth"));
    r.push(county("TX", "Travis", 1290188, 85000, 520000, 650, 25, 1, "Austin"));
    r.push(county("TX", "Collin", 1064465, 110000, 480000, 580, 28, 1, "Plano"));
    r.push(county("ID", "Ada", 494967, 72000, 520000, 550, 28, 1, "Boise"));
    r.push(county("ID", "Canyon", 229849, 55000, 380000, 580, 35, 2, "Nampa"));
    r.push(county("IL", "Cook", 5173146, 65000, 310000, 320, 35, 1, "Chicago"));
    r.push(county("IL", "DuPage", 932877, 95000, 380000, 280, 32, 1, "West suburbs"));
    r.push(county("IN", "Hamilton", 338011, 105000, 385000, 450, 32, 1, "Carmel"));
    r.push(county("IN", "Marion", 977203, 52000, 215000, 420, 35, 2, "Indianapolis"));
    r.push(county("IA", "Polk", 492401, 68000, 265000, 380, 35, 2, "Des Moines"));
    r.push(county("KS", "Johnson", 609863, 92000, 350000, 380, 32, 1, "KC suburbs"));
    r.push(county("KY", "Jefferson", 782969, 55000, 225000, 350, 38, 2, "Louisville"));
    r.push(county("KY", "Fayette", 323152, 58000, 265000, 380, 35, 2, "Lexington"));
    r.push(county("LA", "East Baton Rouge", 456781, 55000, 235000, 320, 42, 2, "Baton Rouge"));
    r.push(county("LA", "Orleans", 383997, 45000, 285000, 350, 42, 2, "New Orleans"));
    assert(r@.map_values(|c: CountyData| county_row(c)) =~= before.map_values(
        |c: CountyData| county_row(c),
    ) + county_rows().subrange(25, 50));
}

/// Appends counties 50 to 74 of the database.
fn push_counties_2(r: &mut Vec<CountyData>)
    ensures
        final(r)@.map_values(|c: CountyData| county_row(c)) == old(r)@.map_values(
            |c: CountyData| county_row(c),
        ) + county_rows().subrange(50, 75),
{
    let ghost before = r@;
    r.push(county("ME", "Cumberland", 303069, 78000, 450000, 350, 38, 2, "Portland"));
    r.push(county("MD", "Montgomery", 1062061, 115000, 580000, 320, 32, 1, "DC suburbs"));
    r.push(county("MD", "Prince George's", 967201, 82000, 380000, 380, 35, 1, "DC suburbs"));
    r.push(county("MA", "Middlesex", 1632002, 105000, 680000, 320, 28, 1, "Cambridge"));
    r.push(county("MA", "Suffolk", 803907, 78000, 680000, 300, 30, 1, "Boston"));
    r.push(county("MI", "Oakland", 1274395, 78000, 320000, 380, 32, 1, "Detroit N"));
    r.push(county("MI", "Wayne", 1773922, 48000, 145000, 450, 38, 2, "Detroit"));
    r.push(county("MN", "Hennepin", 1281565, 78000, 350000, 350, 28, 1, "Minneapolis"));
    r.push(county("MN", "Ramsey", 552352, 65000, 295000, 320, 32, 1, "St. Paul"));
    r.push(county("MS", "DeSoto", 184945, 68000, 265000, 420, 38, 2, "Memphis sub"));
    r.push(county("MO", "St. Louis County", 1004125, 72000, 265000, 280, 38, 2, "STL suburbs"));
    r.push(county("MO", "Jackson", 717204, 55000, 215000, 320, 40, 2, "Kansas City"));
    r.push(county("MT", "Yellowstone", 164731, 58000, 350000, 420, 42, 2, "Billings"));
    r.push(county("MT", "Gallatin", 114434, 68000, 620000, 520, 38, 2, "Bozeman"));
    r.push(county("NE", "Douglas", 584526, 68000, 265000, 350, 35, 2, "Omaha"));
    r.push(county("NV", "Clark", 2265461, 58000, 420000, 550, 32, 1, "Las Vegas"));
    r.push(county("NV", "Washoe", 486492, 65000, 520000, 500, 35, 1, "Reno"));
    r.push(county("NH", "Hillsborough", 422937, 82000, 420000, 380, 32, 1, "Manchester"));
    r.push(county("NJ", "Bergen", 955732, 105000, 580000, 320, 32, 1, "NYC suburbs"));
    r.push(county("NJ", "Middlesex", 863162, 92000, 480000, 350, 32, 1, "Central NJ"));
    r.push(county("NM", "Bernalillo", 679121, 52000, 295000, 420, 42, 2, "Albuquerque"));
    r.push(county("NC", "Wake", 1129410, 82000, 420000, 520, 28, 1, "Raleigh"));
    r.push(county("NC", "Mecklenburg", 1115482, 72000, 380000, 480, 30, 1, "Charlotte"));
    r.push(county("ND", "Cass", 184525, 62000, 295000, 320, 38, 2, "Fargo"));
    r.push(county("OH", "Franklin", 1323807, 62000, 285000, 480, 28, 1, "Columbus"));
    assert(r@.map_values(|c: CountyData| county_row(c)) =~= before.map_values(
        |c: CountyData| county_row(c),
    ) + county_rows().subrange(50, 75));
}

/// Appends counties 75 to 99 of the database.
fn push_counties_3(r: &mut Vec<CountyData>)
    ensures
        final(r)@.map_values(|c: CountyData| county_row(c)) == old(r)@.map_values(
            |c: CountyData| county_row(c),
        ) + county_rows().subrange(75, 100),
{
    let ghost before = r@;
    r.push(county("OH", "Cuyahoga", 1235072, 52000, 165000, 250, 42, 2, "Cleveland"));
    r.push(county("OK", "Oklahoma", 797434, 55000, 195000, 350, 38, 2, "OKC"));
    r.push(county("OK", "Tulsa", 669279, 55000, 195000, 320, 40, 2, "Tulsa"));
    r.push(county("OR", "Multnomah", 812855, 72000, 520000, 400, 32, 1, "Portland"));
    r.push(county("OR", "Washington", 600372, 85000, 550000, 450, 30, 1, "Hillsboro"));
    r.push(county("PA", "Philadelphia", 1576251, 52000, 220000, 450, 35, 2, "Philadelphia"));
    r.push(county("PA", "Allegheny", 1218380, 62000, 225000, 380, 38, 2, "Pittsburgh"));
    r.push(county("PA", "Montgomery", 856553, 95000, 420000, 350, 32, 1, "Main Line"));
    r.push(county("RI", "Providence", 660741, 58000, 350000, 380, 38, 2, "Providence"));
    r.push(county("SC", "Charleston", 411406, 68000, 420000, 480, 35, 1, "Charleston"));
    r.push(county("SC", "Greenville", 523542, 62000, 285000, 450, 35, 2, "Greenville"));
    r.push(county("SD", "Minnehaha", 197214, 62000, 295000, 400, 35, 2, "Sioux Falls"));
    r.push(county("TN", "Davidson", 715884, 62000, 380000, 520, 32, 1, "Nashville"));
    r.push(county("TN", "Shelby", 937166, 52000, 225000, 380, 38, 2, "Memphis"));
    r.push(county("UT", "Salt Lake", 1160437, 72000, 520000, 550, 28, 1, "Salt Lake City"));
    r.push(county("UT", "Utah", 659399, 72000, 480000, 580, 30, 1, "Provo"));
    r.push(county("VT", "Chittenden", 168323, 78000, 450000, 350, 38, 2, "Burlington"));
    r.push(county("VA", "Fairfax", 1150309, 130000, 680000, 350, 28, 1, "Fairfax"));
    r.push(county("VA", "Prince William", 482204, 105000, 480000, 450, 32, 1, "Woodbridge"));
    r.push(county("VA", "Loudoun", 420959, 155000, 680000, 400, 30, 1, "Leesburg"));
    r.push(county("WA", "King", 2269675, 105000, 780000, 450, 25, 1, "Seattle"));
    r.push(county("WA", "Pierce", 921130, 72000, 480000, 520, 32, 1, "Tacoma"));
    r.push(county("WA", "Snohomish", 827957, 88000, 620000, 500, 30, 1, "Everett"));
    r.push(county("WV", "Berkeley", 119171, 62000, 265000, 400, 45, 2, "Martinsburg"));
    r.push(county("WI", "Milwaukee", 939489, 48000, 185000, 400, 38, 2, "Milwaukee"));
    assert(r@.map_values(|c: CountyData| county_row(c)) =~= before.map_values(
        |c: CountyData| county_row(c),
    ) + county_rows().subrange(75, 100));
}

/// Appends counties 100 to 106 of the database.
fn push_counties_4(r: &mut Vec<CountyData>)
    ensures
        final(r)@.map_values(|c: CountyData| county_row(c)) == old(r)@.map_values(
            |c: CountyData| county_row(c),
        ) + county_rows().subrange(100, 107),
{
    let ghost before = r@;
    r.push(county("WI", "Dane", 561504, 72000, 380000, 450, 32, 1, "Madison"));
    r.push(county("WY", "Laramie", 100512, 58000, 295000, 350, 48, 3, "Cheyenne"));
    r.push(county("WY", "Teton", 23464, 92000, 1250000, 400, 55, 2, "Jackson"));
    r.push(county("AR", "Benton", 284333, 72345, 295000, 580, 32, 1, "NW Arkansas"));
    r.push(county("AR", "Washington", 245871, 55678, 285000, 520, 35, 1, "Fayetteville"));
    r.push(county("CT", "Fairfield", 943332, 105000, 580000, 320, 38, 1, "NYC suburbs"));
    r.push(county("DE", "New Castle", 570719, 72000, 320000, 350, 38, 2, "Wilmington"));
    assert(r@.map_values(|c: CountyData| county_row(c)) =~= before.map_values(
        |c: CountyData| county_row(c),
    ) + county_rows().subrange(100, 107));
}

/// Every county of the database, in the order they are listed.
pub fn county_database() -> (r: Vec<CountyData>)
    ensures
        r@.map_values(|c: CountyData| county_row(c)) == county_rows(),
{
    let mut r: Vec<CountyData> = Vec::new();
    push_counties_0(&mut r);
    push_counties_1(&mut r);
    push_counties_2(&mut r);
    push_counties_3(&mut r);
    push_counties_4(&mut r);
    assert(Seq::<CountyView>::empty() + county_rows().subrange(0, 25) + county_rows().subrange(25, 50) + county_rows().subrange(50, 75) + county_rows().subrange(75, 100) + county_rows().subrange(100, 107) =~= county_rows());
    r
}

/// `a` ranks no lower than `b`: a better (smaller) tier, or the same tier
/// and at least as much growth.
pub open spec fn ranks_with_or_before(a: CountyData, b: CountyData) -> bool {
    a.tier < b.tier || (a.tier == b.tier && a.growth_bp >= b.growth_bp)
}

/// Best tier first, and within a tier the fastest growth first.
pub open spec fn is_ranked(s: Seq<CountyData>) -> bool {
    forall|i: int, j: int| 0 <= i < j < s.len() ==> ranks_with_or_before(#[trigger] s[i], #[trigger] s[j])
}

pub open spec fn of_state(key: Seq<char>) -> spec_fn(CountyView) -> bool {
    |row: CountyView| row.state == key
}

/// The key counties are ranked by: tier, then growth with the larger first.
pub fn rank_key(c: &CountyData) -> (r: (u8, i64))
    ensures
        r.0 == c.tier,
        r.1 == -(c.growth_bp as int),
{
    (c.tier, -(c.growth_bp as i64))
}

/// Relies on `slice::sort_by_key`: it reorders the items so that their
/// keys ascend, tuples compared field by field.
#[verifier::external_body]
fn sort_by_rank(v: &mut Vec<CountyData>)
    ensures
        is_ranked(final(v)@),
        final(v)@.to_multiset() == old(v)@.to_multiset(),
        final(v)@.map_values(|c: CountyData| county_row(c)).to_multiset() == old(v)@.map_values(
            |c: CountyData| county_row(c),
        ).to_multiset(),
{
    v.sort_by_key(|c| rank_key(c))
}

/// The counties of the database whose state is exactly `key`, in the order
/// they are listed.
pub fn database_counties_in(key: &str) -> (r: Vec<CountyData>)
    ensures
        r@.map_values(|c: CountyData| county_row(c)) == county_rows().filter(of_state(key@)),
{
    let all = county_database();
    let ghost listed = all@;
    let wanted = String::from_str(key);
    let mut r: Vec<CountyData> = Vec::new();
    for c in it: all.into_iter()
        invariant
            it.seq() == listed,
            listed.map_values(|c: CountyData| county_row(c)) == county_rows(),
            wanted@ == key@,
            r@.map_values(|c: CountyData| county_row(c)) == county_rows().take(
                it.index() as int,
            ).filter(of_state(key@)),
    {
        proof {
            let n = it.index() as int;
            assert(county_rows().take(n + 1).drop_last() =~= county_rows().take(n));
            assert(county_rows()[n] == county_row(c));
            reveal(Seq::filter);
        }
        let ghost before = r@;
        if c.state == wanted {
            r.push(c);
            assert(r@.map_values(|c: CountyData| county_row(c)) =~= before.map_values(
                |c: CountyData| county_row(c),
            ).push(county_row(c)));
        }
    }
    proof {
        assert(county_rows().take(county_rows().len() as int) =~= county_rows());
    }
    r
}

/// The counties of one state (its code given in any case), or of all
/// states; ranked best tier first and, within a tier, fastest growth
/// first.
pub fn get_counties(state: Option<&str>) -> (r: Vec<CountyData>)
    ensures
        is_ranked(r@),
        state is None ==> r@.map_values(|c: CountyData| county_row(c)).to_multiset()
            == county_rows().to_multiset(),
        state matches Some(s) ==> r@.map_values(|c: CountyData| county_row(c)).to_multiset()
            == county_rows().filter(of_state(upper_of(s@))).to_multiset(),
{
    let mut r = match state {
        Some(s) => {
            let key = to_upper(s);
            database_counties_in(key.as_str())
        },
        None => county_database(),
    };
    sort_by_rank(&mut r);
    r
}

} // verus!
