//! The location section of the configuration file, as plain values.

use vstd::prelude::*;

verus! {

/// The configured fallback: the cities of interest and the canteen ids
/// queried when an invocation names neither an id nor a location.
/// Geographic coordinates from the configuration file are not carried
/// here: no decision reads them.
#[derive(Debug)]
pub struct Location {
    pub cities: Vec<String>,
    pub canteens: Vec<u32>,
}

} // verus!
