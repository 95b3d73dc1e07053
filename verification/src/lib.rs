//! Snapshot-based IP geolocation library.
//!
//! The library models the lifecycle of a periodically refreshed geolocation
//! snapshot: deriving the calendar period and the names of dataset files,
//! planning downloads and retention, validating fetched payloads, holding the
//! current snapshot in a store that is replaced atomically, and answering
//! lookups with a locale-aware record extraction policy.

use vstd::prelude::*;

pub mod fetch;
pub mod gate;
pub mod record;
pub mod retention;
pub mod scheduler;
pub mod snapshot;
pub mod store;
pub mod text;

verus! {

/// A calendar period (UTC year and month) used to name dataset files and
/// derive download URLs.
#[derive(Clone, Copy, PartialEq, Eq, Structural, Debug)]
pub struct Period {
    pub year: u32,
    pub month: u8,
}

impl Period {
    /// A period is well formed when the month is a calendar month.
    pub open spec fn wf(self) -> bool {
        1 <= self.month <= 12
    }

    /// Builds a period from a year and month, rejecting impossible months.
    pub fn new(year: u32, month: u8) -> (r: Option<Period>)
        ensures
            r is Some <==> 1 <= month <= 12,
            r is Some ==> r->0 == (Period { year, month }) && r->0.wf(),
    {
        if 1 <= month && month <= 12 {
            Some(Period { year, month })
        } else {
            None
        }
    }
}

} // verus!
