//! The shared cell holding "the current snapshot, or none yet".
//!
//! The store exposes only "read the current snapshot" and "replace it
//! wholly"; a replacement is a single value swap, so a reader sees either
//! the old snapshot or the new one, never a mixture. A failed load never
//! touches the held snapshot, and the version number never decreases.

use vstd::prelude::*;
use crate::record::GeoLocation;
use crate::snapshot::DecodeError;
use crate::snapshot::GeoDatabase;
use crate::snapshot::LookupError;
use crate::snapshot::lookup_answers;
use crate::snapshot::parsed_ip_of;

verus! {

/// Zero-or-one current snapshot, with a version that counts replacements.
pub struct SnapshotStore {
    current: Option<GeoDatabase>,
    version: u64,
}

impl SnapshotStore {
    /// A snapshot has been published.
    pub closed spec fn spec_ready(self) -> bool {
        self.current is Some
    }

    /// The held snapshot.
    pub closed spec fn spec_current(self) -> Option<GeoDatabase> {
        self.current
    }

    /// How many snapshots have been published (saturating).
    pub closed spec fn spec_version(self) -> u64 {
        self.version
    }

    /// An empty store: not ready, version zero.
    pub fn new() -> (s: SnapshotStore)
        ensures
            !s.spec_ready(),
            s.spec_version() == 0,
    {
        SnapshotStore { current: None, version: 0 }
    }

    /// Whether a snapshot is available.
    pub fn is_ready(&self) -> (r: bool)
        ensures
            r == self.spec_ready(),
    {
        self.current.is_some()
    }

    /// The current version.
    pub fn version(&self) -> (v: u64)
        ensures
            v == self.spec_version(),
    {
        self.version
    }

    /// Publishes a snapshot: the store afterwards holds exactly the given
    /// handle, and the version has grown.
    pub fn publish(&mut self, db: GeoDatabase)
        ensures
            final(self).spec_ready(),
            final(self).spec_current() == Some(db),
            final(self).spec_version() >= old(self).spec_version(),
            old(self).spec_version() < u64::MAX ==> final(self).spec_version() == old(
                self,
            ).spec_version() + 1,
    {
        self.current = Some(db);
        if self.version < u64::MAX {
            self.version = self.version + 1;
        }
    }

    /// Applies the outcome of a reload: a successfully decoded snapshot is
    /// published; a decode failure leaves the store exactly as it was, so a
    /// corrupt file never evicts a working snapshot.
    pub fn apply_load(&mut self, loaded: Result<GeoDatabase, DecodeError>) -> (ok: bool)
        ensures
            ok == (loaded is Ok),
            loaded is Ok ==> final(self).spec_ready(),
            loaded matches Ok(db) ==> final(self).spec_current() == Some(db),
            loaded is Err ==> *final(self) == *old(self),
            old(self).spec_ready() ==> final(self).spec_ready(),
            final(self).spec_version() >= old(self).spec_version(),
    {
        match loaded {
            Ok(db) => {
                self.publish(db);
                true
            },
            Err(_) => false,
        }
    }

    /// Answers one lookup from the current snapshot: `NotReady` exactly as
    /// long as no snapshot has been published; afterwards, malformed input
    /// is `InvalidInput` exactly when the address grammar rejects it, and
    /// for a parsed address the answer classifies the query of the held
    /// handle's dataset image exactly — fault, no record, or the record's
    /// extraction with the input text echoed.
    pub fn lookup(&self, ip_str: &str) -> (r: Result<GeoLocation, LookupError>)
        ensures
            !self.spec_ready() <==> r == Err::<GeoLocation, LookupError>(LookupError::NotReady),
            self.spec_ready() ==> ((r == Err::<GeoLocation, LookupError>(
                LookupError::InvalidInput,
            )) <==> parsed_ip_of(ip_str@) is None),
            self.spec_ready() ==> (parsed_ip_of(ip_str@) matches Some(a) ==> lookup_answers(
                r,
                ip_str@,
                self.spec_current()->0.spec_bytes(),
                a,
            )),
            r matches Ok(g) ==> g.ip@ == ip_str@,
    {
        match &self.current {
            None => Err(LookupError::NotReady),
            Some(db) => db.lookup(ip_str),
        }
    }
}

/// The HTTP status the read path answers with: 200 for a record, 503 while
/// no snapshot has loaded, 404 for malformed input, an absent record, or a
/// backend fault — the three are indistinguishable to the client beyond the
/// status code.
pub fn lookup_status(r: &Result<GeoLocation, LookupError>) -> (code: u16)
    ensures
        code == spec_lookup_status(*r),
{
    match r {
        Ok(_) => 200,
        Err(LookupError::NotReady) => 503,
        Err(_) => 404,
    }
}

/// The status mapping of the read path.
pub open spec fn spec_lookup_status(r: Result<GeoLocation, LookupError>) -> u16 {
    match r {
        Ok(_) => 200,
        Err(LookupError::NotReady) => 503,
        Err(_) => 404,
    }
}

} // verus!
