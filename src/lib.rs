//! Reference data and investment scoring for real-estate tax auctions.
pub mod auctions;
pub mod census;
pub mod counties;
pub mod foreclosure;
pub mod indicators;
pub mod market;
pub mod scoring;
pub mod states;
pub mod text;
