//! The recoverable errors the library reports. A configuration file that
//! cannot be read is fatal at startup and never reaches the library; every
//! error here is converted to a user-facing line and ends only the current
//! invocation.

use vstd::prelude::*;
use vstd::string::StringExecFns;

verus! {

/// A conflicting invocation: both the canteen id and the location override
/// were supplied. The two are mutually exclusive.
#[derive(Clone, Copy, Debug, PartialEq, Eq, Structural)]
pub struct ValidationError;

impl ValidationError {
    /// The user-facing line for the conflict.
    pub fn message(&self) -> (m: String)
        ensures
            m@ == "Use either location or id"@,
    {
        String::from_str("Use either location or id")
    }
}

/// A failed call to an outside service: either the transport failed or the
/// body did not decode. The carried text is the error as the caller saw it.
#[derive(Debug)]
pub enum FetchError {
    Transport { message: String },
    Deserialization { message: String },
}

impl FetchError {
    pub open spec fn spec_message(&self) -> Seq<char> {
        match *self {
            FetchError::Transport { message } => message@,
            FetchError::Deserialization { message } => message@,
        }
    }

    pub fn message(&self) -> (m: &String)
        ensures
            m@ == self.spec_message(),
    {
        match self {
            FetchError::Transport { message } => message,
            FetchError::Deserialization { message } => message,
        }
    }
}

} // verus!
