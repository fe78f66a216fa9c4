//! Revisions and durabilities.
//!
//! A [`Revision`] is a point on the logical global clock of the surrounding
//! engine. A [`Durability`] is a hint about how frequently a dependency
//! changes; interned content is always reported at the maximum durability,
//! since its validity is governed solely by table resets.

use vstd::prelude::*;

verus! {

/// A point on the engine's logical clock. Revisions are compared by their
/// generation number; the clock starts at generation zero.
#[derive(Clone, Copy, PartialEq, Eq, Hash, Debug, Structural)]
pub struct Revision {
    pub generation: u64,
}

impl Revision {
    /// The revision at which every store begins.
    pub fn start() -> (revision: Revision)
        ensures
            revision.generation == 0,
    {
        Revision { generation: 0 }
    }

    pub fn from_u64(generation: u64) -> (revision: Revision)
        ensures
            revision.generation == generation,
    {
        Revision { generation }
    }

    pub fn as_u64(self) -> (generation: u64)
        ensures
            generation == self.generation,
    {
        self.generation
    }
}

/// How frequently a dependency is expected to change, from most to least
/// volatile. The maximum durability is [`Durability::High`].
#[derive(Clone, Copy, PartialEq, Eq, Hash, Debug, Structural)]
pub enum Durability {
    Low,
    Medium,
    High,
}

impl Durability {
    /// The maximum durability: interned values never change in place, so
    /// reads of an interning table are reported at this level.
    pub fn max_durability() -> (durability: Durability)
        ensures
            durability == Durability::High,
    {
        Durability::High
    }
}

} // verus!
