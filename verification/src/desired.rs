//! The desired set: which package instances should currently be
//! subscribed, as handed over by the externally owned configuration.
//!
//! The collaborator enumerates one record per package identity (the most
//! recent instance); `uuid + timestamp` is the identity used for "most
//! recent" comparisons.

use vstd::prelude::*;

verus! {

/// One most-recent package instance of the desired set.
pub struct PackageInstance {
    /// Hex object id without the `0x` prefix.
    pub package_id: String,
    pub package_uuid: String,
    pub package_name: String,
    pub package_timestamp: String,
}

/// Snapshot of the desired set: the most-recent instance of each managed
/// package, one record per package identity.
pub struct DesiredSet {
    pub items: Vec<PackageInstance>,
}

impl DesiredSet {
    /// One record per package identity.
    pub open spec fn wf(self) -> bool {
        forall|i: int, j: int|
            0 <= i < j < self.items@.len() ==> self.items@[i].package_id@
                != self.items@[j].package_id@
    }

    /// Whether the identity `uuid + timestamp` is still the current
    /// instance of its package.
    pub open spec fn spec_is_most_recent(self, uuid: Seq<char>, timestamp: Seq<char>) -> bool {
        exists|i: int|
            0 <= i < self.items@.len() && self.items@[i].package_uuid@ == uuid
                && self.items@[i].package_timestamp@ == timestamp
    }

    /// Whether some desired instance carries this package id.
    pub open spec fn spec_has_package_id(self, package_id: Seq<char>) -> bool {
        exists|i: int| 0 <= i < self.items@.len() && self.items@[i].package_id@ == package_id
    }

    pub fn new() -> (r: DesiredSet)
        ensures
            r.items@.len() == 0,
            r.wf(),
    {
        DesiredSet { items: Vec::new() }
    }

    /// Tells whether a given identity is still current.
    pub fn is_most_recent(&self, uuid: &String, timestamp: &String) -> (r: bool)
        ensures
            r == self.spec_is_most_recent(uuid@, timestamp@),
    {
        let mut i: usize = 0;
        while i < self.items.len()
            invariant
                i <= self.items@.len(),
                forall|k: int|
                    0 <= k < i ==> !(self.items@[k].package_uuid@ == uuid@
                        && self.items@[k].package_timestamp@ == timestamp@),
            decreases self.items@.len() - i,
        {
            if self.items[i].package_uuid == *uuid && self.items[i].package_timestamp
                == *timestamp {
                return true;
            }
            i = i + 1;
        }
        false
    }
}

} // verus!
