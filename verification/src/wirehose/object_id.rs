//! Type for representing PipeWire object IDs.

use std::cmp::Ordering;

use vstd::prelude::*;
use vstd::std_specs::cmp::PartialOrdSpecImpl;

verus! {

/// A PipeWire object ID.
#[derive(Debug, Clone, Copy, PartialEq, Eq, Structural, Hash, Ord)]
pub struct ObjectId(pub u32);

/// Ids order as their numbers.
pub open spec fn id_order(a: ObjectId, b: ObjectId) -> Option<Ordering> {
    if a.0 < b.0 {
        Some(Ordering::Less)
    } else if a.0 == b.0 {
        Some(Ordering::Equal)
    } else {
        Some(Ordering::Greater)
    }
}

impl PartialOrd for ObjectId {
    fn partial_cmp(&self, other: &ObjectId) -> (r: Option<Ordering>) {
        if self.0 < other.0 {
            Some(Ordering::Less)
        } else if self.0 == other.0 {
            Some(Ordering::Equal)
        } else {
            Some(Ordering::Greater)
        }
    }
}

impl PartialOrdSpecImpl for ObjectId {
    open spec fn obeys_partial_cmp_spec() -> bool {
        true
    }

    open spec fn partial_cmp_spec(&self, other: &ObjectId) -> Option<Ordering> {
        id_order(*self, *other)
    }
}

impl Default for ObjectId {
    /// The id 0.
    fn default() -> (r: ObjectId)
        ensures
            r.0 == 0,
    {
        ObjectId(0)
    }
}

impl ObjectId {
    /// Wrap a raw PipeWire id.
    pub fn from_raw_id(id: u32) -> (r: ObjectId)
        ensures
            r.0 == id,
    {
        ObjectId(id)
    }

    /// The raw PipeWire id.
    pub fn raw(self) -> (r: u32)
        ensures
            r == self.0,
    {
        self.0
    }
}

impl From<ObjectId> for u32 {
    /// The raw PipeWire id.
    fn from(id: ObjectId) -> (r: u32) {
        id.0
    }
}

impl vstd::std_specs::convert::FromSpecImpl<ObjectId> for u32 {
    open spec fn obeys_from_spec() -> bool {
        true
    }

    open spec fn from_spec(v: ObjectId) -> u32 {
        v.0
    }
}

} // verus!
