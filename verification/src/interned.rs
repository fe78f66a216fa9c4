//! The interning table: a content-addressed, bidirectional map from values
//! to small stable ids.
//!
//! [`InternedIngredient::intern`] deduplicates a value into an id,
//! [`InternedIngredient::data`] maps an id back to its value, and
//! [`InternedIngredient::reset`] wholly clears the table at a strictly
//! greater revision. Every access first registers a read dependency against
//! the caller's [`Runtime`], at maximum durability and the table's current
//! reset revision: an interned value's validity is governed solely by
//! whether the table has been reset since, never by content change.
//!
//! The contracts are stated over the ghost [`TableModel`] and the spec
//! transitions of [`crate::model`], which pin down the id returned and the
//! table state after each operation.

use vstd::prelude::*;
use vstd::string::StringExecFns;

use crossbeam::atomic::AtomicCell;
use dashmap::DashMap;

use crate::id::{Id, IngredientIndex};
use crate::model::{empty_table, intern_id, intern_table, reset_table, table_wf, TableModel};
use crate::model::{lemma_empty_table_wf, lemma_intern_preserves_wf};
use crate::revision::{Durability, Revision};
use crate::render::{fmt_index_spec, push_digits};
use crate::runtime::{DependencyIndex, ReadRecord, Runtime};
use crate::sync::{cell_model, counter_fetch_add_one, counter_new};
use crate::sync::{key_map_clear, key_map_get, key_map_insert, key_map_model, key_map_new};
use crate::sync::{value_map_clear, value_map_get, value_map_insert, value_map_model, value_map_new};

verus! {

/// A table that hashes values to produce ids, holding one canonical copy of
/// each distinct value until the next reset.
pub struct InternedIngredient {
    /// The slot of this ingredient in the owning store.
    ingredient_index: IngredientIndex,
    /// Forward index: value to id.
    ///
    /// Lock order: where an operation touches both indices, it locks (a
    /// region of) `key_map` before `value_map`, never the reverse.
    key_map: DashMap<String, u32>,
    /// Backward index: id to the table's canonical copy of the value.
    value_map: DashMap<u32, String>,
    /// The next id to mint; advances monotonically and is never rewound,
    /// not even by a reset.
    counter: AtomicCell<u32>,
    /// The revision at which this table was last wholly cleared.
    reset_at: Revision,
    /// The name under which diagnostics render this table.
    debug_name: &'static str,
}

impl InternedIngredient {
    /// The ghost state of this table.
    pub closed spec fn model(self) -> TableModel {
        TableModel {
            keys: key_map_model(self.key_map),
            values: value_map_model(self.value_map),
            counter: cell_model(self.counter),
            reset_at: self.reset_at.generation,
        }
    }

    /// The table's state is well formed: see [`table_wf`].
    pub open spec fn wf(self) -> bool {
        table_wf(self.model())
    }

    pub closed spec fn spec_ingredient_index(self) -> IngredientIndex {
        self.ingredient_index
    }

    pub closed spec fn spec_debug_name(self) -> Seq<char> {
        self.debug_name@
    }

    /// The read that intern and lookup register: a dependency on the whole
    /// table, at maximum durability, as of the table's last reset.
    pub open spec fn table_read(self) -> ReadRecord {
        ReadRecord {
            dependency: DependencyIndex {
                ingredient_index: self.spec_ingredient_index(),
                key_index: None,
            },
            durability: Durability::High,
            changed_at: Revision { generation: self.model().reset_at },
        }
    }

    /// A fresh table in slot `ingredient_index`: both indices empty, ids
    /// starting at zero, never yet reset.
    pub fn new(ingredient_index: IngredientIndex, debug_name: &'static str) -> (table: Self)
        ensures
            table.wf(),
            table.model() == empty_table(),
            table.spec_ingredient_index() == ingredient_index,
            table.spec_debug_name() == debug_name@,
    {
        let table = InternedIngredient {
            ingredient_index,
            key_map: key_map_new(),
            value_map: value_map_new(),
            counter: counter_new(0),
            reset_at: Revision::start(),
            debug_name,
        };
        proof {
            lemma_empty_table_wf();
            assert(table.model() =~= empty_table());
        }
        table
    }

    /// Interns `data` to its unique id.
    ///
    /// Registers the table read against `runtime` first. On a hit the
    /// existing id is returned and the table is unchanged; on a miss a new
    /// id is minted, the backward index is published before the forward
    /// index, and the new id is returned. Id-space exhaustion is excluded
    /// by precondition: the original signals it as a fatal condition.
    pub fn intern(&mut self, runtime: &mut Runtime, data: String) -> (id: Id)
        requires
            old(self).wf(),
            old(self).model().keys.contains_key(data@) || old(self).model().counter < u32::MAX,
        ensures
            final(self).wf(),
            id.value == intern_id(old(self).model(), data@),
            final(self).model() == intern_table(old(self).model(), data@),
            final(self).spec_ingredient_index() == old(self).spec_ingredient_index(),
            final(self).spec_debug_name() == old(self).spec_debug_name(),
            final(runtime)@ == old(runtime)@.push(old(self).table_read()),
    {
        runtime.report_tracked_read(
            DependencyIndex::for_table(self.ingredient_index),
            Durability::max_durability(),
            self.reset_at,
        );

        match key_map_get(&self.key_map, &data) {
            Some(existing) => Id::from_u32(existing),
            None => {
                proof {
                    lemma_intern_preserves_wf(self.model(), data@);
                }
                let next_id = counter_fetch_add_one(&mut self.counter);
                // The backward index gains the new entry first, so no
                // caller can see an id through the forward index without
                // complete backing data.
                let previous = value_map_insert(&mut self.value_map, next_id, data.clone());
                // Freshly minted ids are never already in use.
                assert(previous is None);
                key_map_insert(&mut self.key_map, data, next_id);
                Id::from_u32(next_id)
            },
        }
    }

    /// Wholly clears the table at `revision`, which must be strictly
    /// greater than the revision of the last reset; a non-increasing
    /// revision is a precondition violation. Ids already minted are gone
    /// from both indices, and the counter does not rewind: no id is ever
    /// reused, even across resets.
    pub fn reset(&mut self, revision: Revision)
        requires
            old(self).wf(),
            revision.generation > old(self).model().reset_at,
        ensures
            final(self).wf(),
            final(self).model() == reset_table(old(self).model(), revision.generation),
            final(self).spec_ingredient_index() == old(self).spec_ingredient_index(),
            final(self).spec_debug_name() == old(self).spec_debug_name(),
    {
        self.reset_at = revision;
        key_map_clear(&mut self.key_map);
        value_map_clear(&mut self.value_map);
    }

    /// Returns the value interned under `id`, as an owned copy whose
    /// validity no longer depends on the table. Registers the table read
    /// against `runtime` first. An id unknown to this table is a caller
    /// bug — ids are minted only by their owning table — and is excluded by
    /// precondition: the original fails fatally on it.
    pub fn data(&self, runtime: &mut Runtime, id: Id) -> (data: String)
        requires
            self.model().values.contains_key(id.value),
        ensures
            data@ == self.model().values[id.value],
            final(runtime)@ == old(runtime)@.push(self.table_read()),
    {
        runtime.report_tracked_read(
            DependencyIndex::for_table(self.ingredient_index),
            Durability::max_durability(),
            self.reset_at,
        );

        match value_map_get(&self.value_map, id.as_u32()) {
            Some(data) => data,
            None => vstd::pervasive::unreached(),
        }
    }

    /// Like [`Self::data`], but total: returns `None` exactly when `id` is
    /// unknown to this table, as every id is after a reset. The table read
    /// is registered either way.
    pub fn try_data(&self, runtime: &mut Runtime, id: Id) -> (data: Option<String>)
        ensures
            (match data {
                Some(value) => self.model().values.contains_key(id.value) && value@
                    == self.model().values[id.value],
                None => !self.model().values.contains_key(id.value),
            }),
            final(runtime)@ == old(runtime)@.push(self.table_read()),
    {
        runtime.report_tracked_read(
            DependencyIndex::for_table(self.ingredient_index),
            Durability::max_durability(),
            self.reset_at,
        );
        value_map_get(&self.value_map, id.as_u32())
    }

    /// The slot this table was assigned at construction.
    pub fn ingredient_index(&self) -> (index: IngredientIndex)
        ensures
            index == self.spec_ingredient_index(),
    {
        self.ingredient_index
    }

    /// Whether this table's contents might have changed since `revision`:
    /// true exactly when the table was reset at a revision strictly
    /// greater. Interned content is never individually revalidated, so
    /// this depends on nothing but the last reset.
    pub fn maybe_changed_after(&self, _input: DependencyIndex, revision: Revision) -> (changed:
        bool)
        ensures
            changed == (revision.generation < self.model().reset_at),
    {
        revision.as_u64() < self.reset_at.as_u64()
    }

    /// Interning never re-enters the engine while resolving a request, so
    /// it can never participate in a dependency cycle: a cycle through this
    /// table is fatal.
    pub fn cycle_recovery_strategy(&self) -> (strategy: crate::cycle::CycleRecoveryStrategy)
        ensures
            strategy == crate::cycle::CycleRecoveryStrategy::Panic,
    {
        crate::cycle::CycleRecoveryStrategy::Panic
    }

    /// Renders this table's debug name and `index` for diagnostics, as
    /// [`fmt_index_spec`] lays it out.
    pub fn fmt_index(&self, index: Option<Id>) -> (rendered: String)
        ensures
            rendered@ == fmt_index_spec(self.spec_debug_name(), index),
    {
        let mut rendered = String::from_str(self.debug_name);
        rendered.append("(");
        match index {
            Some(id) => push_digits(&mut rendered, id.as_u32()),
            None => (),
        }
        rendered.append(")");
        proof {
            reveal_strlit("(");
            reveal_strlit(")");
            assert(rendered@ =~= fmt_index_spec(self.spec_debug_name(), index));
        }
        rendered
    }
}

} // verus!
