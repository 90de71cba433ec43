//! A price oracle: reporters fetch quotes for tracked symbols, record them in a
//! shared ledger while a fetch window is open, and reduce them to one price when
//! the window's deadline has passed.
//!
//! - [`record`]: the records, and how a quote is read from the answer of a
//!   price source; [`json`] and [`decimal`] do the reading.
//! - [`fetch`]: what is decided between the steps of an HTTP request.
//! - [`model`] and [`ledger`]: the ledger and the calls that change it.
//! - [`aggregate`]: the mean of a window's observations.
//! - [`scheduler`]: what a reporter does at each tick.
//! - [`laws`]: what holds of the ledger whatever calls reach it.
//! - [`weights`]: what the calls of the pool module cost.
//!
//! Requests over the network, keys and signatures, and the storage of the
//! ledger are left to the program that uses the library.

use vstd::prelude::*;

pub mod aggregate;
pub mod bytes;
pub mod decimal;
pub mod error;
pub mod fetch;
pub mod json;
pub mod laws;
pub mod ledger;
pub mod model;
pub mod record;
pub mod scheduler;
pub mod symbol_map;
pub mod weights;

verus! {

/// The name of a tracked asset, such as the ticker `ETH`.
pub type Symbol = Vec<u8>;

/// A fixed-point price: the number of 10^-18 units.
pub type Price = u128;

/// The number of decimal places that a price keeps.
pub const PRICE_DECIMALS: u32 = 18;

/// The identity under which offchain reporters sign.
pub struct TestAuthId;

impl TestAuthId {
    /// The four-byte tag of the key type that reporters sign with.
    pub fn key_type() -> (tag: [u8; 4])
        ensures
            tag@ == seq![0x70u8, 0x6fu8, 0x63u8, 0x77u8],
    {
        [0x70u8, 0x6fu8, 0x63u8, 0x77u8]
    }
}

} // verus!
