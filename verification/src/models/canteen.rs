//! The canteen as the meal provider lists it.

use vstd::prelude::*;

verus! {

/// A dining facility. Identity is the id; the other fields are display
/// data. Geographic coordinates are not carried: no decision reads them.
#[derive(Debug)]
pub struct Canteen {
    pub id: u32,
    pub name: String,
    pub city: String,
    pub address: String,
}

} // verus!
