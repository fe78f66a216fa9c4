//! The mathematical model of an interning table, and the laws it obeys.
//!
//! A [`TableModel`] is the ghost state of one table: its two indices, the
//! next id, and the revision of its last reset. The spec functions
//! [`intern_id`], [`intern_table`] and [`reset_table`] say exactly what each
//! table operation returns and how it changes this state; the executable
//! table's contracts are stated in terms of them, and the proof functions
//! below establish the laws that follow.

use vstd::prelude::*;

verus! {

/// The ghost state of one interning table.
pub ghost struct TableModel {
    /// Forward index: value to id, one entry per distinct value.
    pub keys: Map<Seq<char>, u32>,
    /// Backward index: id to the value interned under it.
    pub values: Map<u32, Seq<char>>,
    /// The next id to allocate; ids already minted are all below it.
    pub counter: u32,
    /// The revision at which the table was last wholly cleared.
    pub reset_at: u64,
}

/// The state of a table that was just assembled: both indices empty, the
/// counter at zero, and no reset yet.
pub open spec fn empty_table() -> TableModel {
    TableModel {
        keys: Map::<Seq<char>, u32>::empty(),
        values: Map::<u32, Seq<char>>::empty(),
        counter: 0u32,
        reset_at: 0u64,
    }
}

/// Well-formedness: the two indices are a bijection on committed pairs, and
/// every id either index knows was minted below the counter.
pub open spec fn table_wf(m: TableModel) -> bool {
    &&& forall|v: Seq<char>| #[trigger] m.keys.contains_key(v) ==> {
        &&& m.keys[v] < m.counter
        &&& m.values.contains_key(m.keys[v])
        &&& m.values[m.keys[v]] == v
    }
    &&& forall|id: u32| #[trigger] m.values.contains_key(id) ==> {
        &&& id < m.counter
        &&& m.keys.contains_key(m.values[id])
        &&& m.keys[m.values[id]] == id
    }
}

/// The id interning `v` returns: the existing id on a hit, the counter's
/// value on a miss.
pub open spec fn intern_id(m: TableModel, v: Seq<char>) -> u32 {
    if m.keys.contains_key(v) {
        m.keys[v]
    } else {
        m.counter
    }
}

/// The table state after interning `v`: unchanged on a hit; on a miss, both
/// indices gain the new pair and the counter advances.
pub open spec fn intern_table(m: TableModel, v: Seq<char>) -> TableModel {
    if m.keys.contains_key(v) {
        m
    } else {
        TableModel {
            keys: m.keys.insert(v, m.counter),
            values: m.values.insert(m.counter, v),
            counter: (m.counter + 1) as u32,
            reset_at: m.reset_at,
        }
    }
}

/// The table state after a reset to `revision`: both indices wholly
/// cleared, the counter kept (ids are never reused, even across resets),
/// and the reset revision advanced.
pub open spec fn reset_table(m: TableModel, revision: u64) -> TableModel {
    TableModel {
        keys: Map::<Seq<char>, u32>::empty(),
        values: Map::<u32, Seq<char>>::empty(),
        counter: m.counter,
        reset_at: revision,
    }
}

/// A table that was just assembled is well formed.
pub proof fn lemma_empty_table_wf()
    ensures
        table_wf(empty_table()),
{
}

/// Interning preserves well-formedness, as long as the id space is not
/// already exhausted on a miss.
pub proof fn lemma_intern_preserves_wf(m: TableModel, v: Seq<char>)
    requires
        table_wf(m),
        m.keys.contains_key(v) || m.counter < u32::MAX,
    ensures
        table_wf(intern_table(m, v)),
{
}

/// Law: interning is idempotent. Interning the same value again returns the
/// same id and leaves the table unchanged; so any number of repeated
/// interns of one value, until the next reset, converge on one id.
pub proof fn lemma_intern_idempotent(m: TableModel, v: Seq<char>)
    requires
        table_wf(m),
    ensures
        intern_id(intern_table(m, v), v) == intern_id(m, v),
        intern_table(intern_table(m, v), v) == intern_table(m, v),
{
}

/// Law: minted ids are stable until the next reset. Interning any further
/// value leaves an already-interned value mapped to the id it was minted,
/// so its id holds across any volume of later interning.
pub proof fn lemma_intern_stable(m: TableModel, v: Seq<char>, w: Seq<char>)
    requires
        table_wf(m),
        m.keys.contains_key(v),
    ensures
        intern_table(m, w).keys.contains_key(v),
        intern_table(m, w).keys[v] == m.keys[v],
        intern_id(intern_table(m, w), v) == intern_id(m, v),
{
}

/// Law: interning is injective within one reset epoch. Distinct values
/// interned one after the other receive distinct ids.
pub proof fn lemma_intern_injective(m: TableModel, v1: Seq<char>, v2: Seq<char>)
    requires
        table_wf(m),
        v1 != v2,
    ensures
        intern_id(intern_table(m, v1), v2) != intern_id(m, v1),
{
    let m1 = intern_table(m, v1);
    let id1 = intern_id(m, v1);
    let id2 = intern_id(m1, v2);
    if m.keys.contains_key(v1) {
        assert(m.keys[v1] < m.counter && m.values[m.keys[v1]] == v1);
        if m1.keys.contains_key(v2) {
            assert(m.values[m.keys[v2]] == v2);
            if id1 == id2 {
                assert(v1 == v2);
            }
        } else {
            assert(id2 == m.counter);
        }
    } else {
        assert(id1 == m.counter);
        if m1.keys.contains_key(v2) {
            assert(m.keys.contains_key(v2));
            assert(m.keys[v2] < m.counter);
        } else {
            if m.counter == u32::MAX {
                let c = m.counter;
                assert((c + 1) as u32 == 0) by (bit_vector)
                    requires
                        c == u32::MAX,
                ;
                assert(id2 == 0);
            } else {
                assert(id2 == m.counter + 1);
            }
        }
    }
}

/// Law: a round trip returns the value. The id minted for `v` is mapped,
/// in the resulting table, back to `v` by the backward index.
pub proof fn lemma_intern_round_trip(m: TableModel, v: Seq<char>)
    requires
        table_wf(m),
    ensures
        intern_table(m, v).values.contains_key(intern_id(m, v)),
        intern_table(m, v).values[intern_id(m, v)] == v,
{
}

/// Law: resets are monotonic. A reset leaves its revision as the table's
/// reset revision, so a second reset at a revision that is not strictly
/// greater fails the precondition of reset rather than touching the table.
pub proof fn lemma_reset_monotonic(m: TableModel, r1: u64, r2: u64)
    requires
        r2 <= r1,
    ensures
        reset_table(m, r1).reset_at == r1,
        !(r2 > reset_table(m, r1).reset_at),
{
}

/// Law: after a reset, no id is known to the table any more; every lookup
/// of a previously minted id misses.
pub proof fn lemma_reset_isolates(m: TableModel, revision: u64, id: u32)
    ensures
        !reset_table(m, revision).values.contains_key(id),
{
}

/// Law: re-interning after a reset never reuses a stale mapping. The reset
/// table is well formed, and the id minted next is the counter's value,
/// strictly above every id the table had minted before the reset.
pub proof fn lemma_reset_no_reuse(m: TableModel, revision: u64, v: Seq<char>)
    requires
        table_wf(m),
    ensures
        table_wf(reset_table(m, revision)),
        intern_id(reset_table(m, revision), v) == m.counter,
        forall|id: u32| #[trigger] m.values.contains_key(id) ==> id < intern_id(
            reset_table(m, revision),
            v,
        ),
{
}

/// Law: freshness is independent of intern call volume. Interning never
/// moves the reset revision, so the answer to "has this table been cleared
/// since revision `r`" does not change with interning.
pub proof fn lemma_intern_keeps_reset_at(m: TableModel, v: Seq<char>, r: u64)
    ensures
        intern_table(m, v).reset_at == m.reset_at,
        (r < intern_table(m, v).reset_at) <==> (r < m.reset_at),
{
}

/// Law: freshness after a reset. Once the table is reset to `revision`,
/// it reads as changed since `r` exactly when `r` is below `revision`.
pub proof fn lemma_freshness_after_reset(m: TableModel, revision: u64, r: u64)
    ensures
        (r < reset_table(m, revision).reset_at) <==> (r < revision),
{
}

} // verus!
