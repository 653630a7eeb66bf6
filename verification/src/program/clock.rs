//! The clock of the run-time model.  It stands still: every reading gives the
//! same moment, so that a check does not depend on when it runs.

use vstd::prelude::*;
use crate::program::error::Error;

verus! {

/// A slot of the ledger.
pub type Slot = u64;

/// The moment that every reading of the clock gives, in seconds.
pub const NOW: i64 = 1697536229;

/// A reading of the clock.
#[derive(Debug, PartialEq, Eq, Clone, Copy, Structural)]
pub struct Clock {
    pub unix_timestamp: i64,
}

impl Clock {
    /// Reads the clock.
    pub fn get() -> (r: Result<Self, Error>)
        ensures
            r == Ok::<Clock, Error>(Clock { unix_timestamp: NOW }),
    {
        let secs: i64 = NOW;
        Ok(Self { unix_timestamp: secs })
    }
}

impl Default for Clock {
    /// The reading at the start of time.
    fn default() -> (c: Self)
        ensures
            c.unix_timestamp == 0,
    {
        Clock { unix_timestamp: 0 }
    }
}

} // verus!
