//! A verified core for a stock-data protocol adapter.
//!
//! The library holds the operation registry, parameter-schema validation,
//! dispatch planning and error normalization for a line-oriented JSON
//! request/response service with three operations: fetching historical
//! prices, fetching the latest quote, and searching ticker symbols.
//! The network transport and the calls to the external data provider live
//! outside the library; the library decides, for every request and every
//! provider outcome, exactly which response is owed, and renders each
//! success payload as JSON text.
use vstd::prelude::*;

pub mod dispatch;
pub mod outcome;
pub mod params;
pub mod registry;
pub mod render;

verus! {

/// Default period used by a historical-price request that names none.
pub fn default_period() -> (r: String)
    ensures
        r@ == "1mo"@,
{
    "1mo".to_owned()
}

/// Default interval used by a historical-price request that names none.
pub fn default_interval() -> (r: String)
    ensures
        r@ == "1d"@,
{
    "1d".to_owned()
}

} // verus!
