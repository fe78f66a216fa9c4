//! The dependency-tracking context.
//!
//! Every table access registers a read against a [`Runtime`] before its
//! result is returned, so no caller ever observes table data without the
//! read being recorded. The runtime here is the collaborator the table
//! consumes: it keeps the log of reads reported to it, in order.

use vstd::prelude::*;

use crate::id::{Id, IngredientIndex};
use crate::revision::{Durability, Revision};

verus! {

/// What a read depends on: an ingredient, and optionally one key within it.
/// A read of an interning table as a whole carries no key.
#[derive(Clone, Copy, PartialEq, Eq, Debug)]
pub struct DependencyIndex {
    pub ingredient_index: IngredientIndex,
    pub key_index: Option<Id>,
}

impl DependencyIndex {
    /// The dependency on a whole table, as registered by intern and lookup.
    pub fn for_table(ingredient_index: IngredientIndex) -> (dependency: DependencyIndex)
        ensures
            dependency.ingredient_index == ingredient_index,
            dependency.key_index is None,
    {
        DependencyIndex { ingredient_index, key_index: None }
    }
}

/// One recorded read: which dependency was read, at what durability, and the
/// revision at which the read-from state last changed.
#[derive(Clone, Copy, PartialEq, Eq, Debug)]
pub struct ReadRecord {
    pub dependency: DependencyIndex,
    pub durability: Durability,
    pub changed_at: Revision,
}

/// The dependency-tracking context: accumulates the reads reported to it.
pub struct Runtime {
    reads: Vec<ReadRecord>,
}

impl View for Runtime {
    type V = Seq<ReadRecord>;

    closed spec fn view(&self) -> Seq<ReadRecord> {
        self.reads@
    }
}

impl Runtime {
    /// A fresh context with no reads recorded.
    pub fn new() -> (runtime: Runtime)
        ensures
            runtime@ == Seq::<ReadRecord>::empty(),
    {
        Runtime { reads: Vec::new() }
    }

    /// Records that the caller read `dependency` at `durability`, where the
    /// state read was last changed at `changed_at`. The record is appended
    /// to the log.
    pub fn report_tracked_read(
        &mut self,
        dependency: DependencyIndex,
        durability: Durability,
        changed_at: Revision,
    )
        ensures
            final(self)@ == old(self)@.push(
                (ReadRecord { dependency, durability, changed_at }),
            ),
    {
        self.reads.push(ReadRecord { dependency, durability, changed_at });
    }

    /// The reads recorded so far, oldest first.
    pub fn reads(&self) -> (reads: &Vec<ReadRecord>)
        ensures
            reads@ == self@,
    {
        &self.reads
    }
}

} // verus!
