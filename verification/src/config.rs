//! The process configuration, loaded once at startup and read-only after.

use crate::models::location::Location;
use vstd::prelude::*;

verus! {

/// The parsed configuration file. Loading and parsing happen at the
/// process's edge; the library receives the plain values.
#[derive(Debug)]
pub struct Configs {
    pub locations: Location,
}

} // verus!
