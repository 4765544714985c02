//! Reference counts for one category of GPU objects.  Each live object
//! identifier maps to the number of handles that currently share it; the
//! entry is created at allocation with count one, raised by handle
//! duplication, lowered by handle release, and removed — exactly once — when
//! the last handle goes.

use std::collections::HashMap;
use vstd::prelude::*;

verus! {

broadcast use vstd::std_specs::hash::group_hash_axioms;

/// What a release did to an object's reference count.
#[derive(Debug, Clone, Copy, PartialEq, Eq, Structural)]
pub enum ReleaseOutcome {
    /// The identifier was not registered; nothing changed.
    Absent,
    /// Other handles still share the object; the count went down by one.
    Decremented,
    /// This was the last handle; the entry is gone and the object must be
    /// deleted.
    Deleted,
}

/// The reference counts of one object category.
pub struct RefCounts {
    counts: HashMap<u32, u64>,
}

impl View for RefCounts {
    type V = Map<u32, u64>;

    closed spec fn view(&self) -> Map<u32, u64> {
        self.counts@
    }
}

impl RefCounts {
    /// An empty registry: no object is live.
    pub fn new() -> (r: RefCounts)
        ensures
            r@ == Map::<u32, u64>::empty(),
    {
        RefCounts { counts: HashMap::new() }
    }

    /// The number of handles sharing the object, zero if it is not live.
    pub fn count(&self, id: u32) -> (r: u64)
        ensures
            r == if self@.contains_key(id) {
                self@[id]
            } else {
                0u64
            },
    {
        match self.counts.get(&id) {
            Some(c) => *c,
            None => 0,
        }
    }

    /// Whether the object is live.
    pub fn is_live(&self, id: u32) -> (r: bool)
        ensures
            r == self@.contains_key(id),
    {
        self.counts.contains_key(&id)
    }

    /// Registers a freshly generated object with one owning handle.
    /// Returns false, changing nothing, if the identifier is already live:
    /// an object may be shared only by duplicating a handle, never by
    /// registering the same identifier twice.
    pub fn register(&mut self, id: u32) -> (r: bool)
        ensures
            r == !old(self)@.contains_key(id),
            final(self)@ == if old(self)@.contains_key(id) {
                old(self)@
            } else {
                old(self)@.insert(id, 1u64)
            },
    {
        if self.counts.contains_key(&id) {
            false
        } else {
            self.counts.insert(id, 1);
            true
        }
    }

    /// Records one more handle sharing a live object.  Returns false,
    /// changing nothing, if the object is not live or its count cannot be
    /// raised further.
    pub fn acquire(&mut self, id: u32) -> (r: bool)
        ensures
            r == (old(self)@.contains_key(id) && old(self)@[id] < u64::MAX),
            final(self)@ == if old(self)@.contains_key(id) && old(self)@[id] < u64::MAX {
                old(self)@.insert(id, (old(self)@[id] + 1) as u64)
            } else {
                old(self)@
            },
    {
        let c: u64 = match self.counts.get(&id) {
            Some(c) => *c,
            None => {
                return false;
            },
        };
        if c < u64::MAX {
            self.counts.insert(id, c + 1);
            true
        } else {
            false
        }
    }

    /// Records that one handle let go of the object.  The entry disappears
    /// exactly when the last handle goes, and only then does the caller owe
    /// the underlying API a deletion call.
    pub fn release(&mut self, id: u32) -> (r: ReleaseOutcome)
        ensures
            r == (if !old(self)@.contains_key(id) {
                ReleaseOutcome::Absent
            } else if old(self)@[id] <= 1 {
                ReleaseOutcome::Deleted
            } else {
                ReleaseOutcome::Decremented
            }),
            final(self)@ == (if !old(self)@.contains_key(id) {
                old(self)@
            } else if old(self)@[id] <= 1 {
                old(self)@.remove(id)
            } else {
                old(self)@.insert(id, (old(self)@[id] - 1) as u64)
            }),
    {
        let c: u64 = match self.counts.get(&id) {
            Some(c) => *c,
            None => {
                return ReleaseOutcome::Absent;
            },
        };
        if c <= 1 {
            self.counts.remove(&id);
            ReleaseOutcome::Deleted
        } else {
            self.counts.insert(id, c - 1);
            ReleaseOutcome::Decremented
        }
    }
}

} // verus!
