//! Tests of the interning table: the interning scenario, idempotence,
//! injectivity, round trips, reset behaviour, freshness, and the recorded
//! read dependencies.

use interning::{
    CycleRecoveryStrategy, DependencyIndex, Durability, Id, IngredientIndex, InternedIngredient,
    ReadRecord, Revision, Runtime,
};

fn fresh_table(slot: u32) -> InternedIngredient {
    InternedIngredient::new(IngredientIndex::from_u32(slot), "tbl")
}

#[test]
fn scenario_intern_lookup_reset() {
    let mut runtime = Runtime::new();
    let mut table = fresh_table(0);

    let foo = table.intern(&mut runtime, String::from("foo"));
    assert_eq!(foo.as_u32(), 0);
    let bar = table.intern(&mut runtime, String::from("bar"));
    assert_eq!(bar.as_u32(), 1);
    let foo_again = table.intern(&mut runtime, String::from("foo"));
    assert_eq!(foo_again.as_u32(), 0);

    assert_eq!(table.data(&mut runtime, foo), "foo");

    table.reset(Revision::from_u64(1));
    assert!(table.try_data(&mut runtime, foo).is_none());

    let foo_later = table.intern(&mut runtime, String::from("foo"));
    assert_eq!(foo_later.as_u32(), 2);
}

#[test]
fn intern_is_idempotent() {
    let mut runtime = Runtime::new();
    let mut table = fresh_table(1);

    let first = table.intern(&mut runtime, String::from("value"));
    for _ in 0..5 {
        let again = table.intern(&mut runtime, String::from("value"));
        assert_eq!(again, first);
    }
}

#[test]
fn intern_is_injective() {
    let mut runtime = Runtime::new();
    let mut table = fresh_table(2);

    let a = table.intern(&mut runtime, String::from("a"));
    let b = table.intern(&mut runtime, String::from("b"));
    let c = table.intern(&mut runtime, String::from("c"));
    assert_ne!(a, b);
    assert_ne!(a, c);
    assert_ne!(b, c);
}

#[test]
fn lookup_round_trips() {
    let mut runtime = Runtime::new();
    let mut table = fresh_table(3);

    let values = ["", "x", "some longer value", "x"];
    let mut ids = Vec::new();
    for value in values {
        ids.push(table.intern(&mut runtime, String::from(value)));
    }
    for (value, id) in values.iter().zip(ids.iter()) {
        assert_eq!(table.data(&mut runtime, *id), *value);
    }
}

#[test]
fn reset_revision_advances() {
    let mut runtime = Runtime::new();
    let mut table = fresh_table(4);
    let input = DependencyIndex::for_table(IngredientIndex::from_u32(4));

    table.reset(Revision::from_u64(1));
    table.reset(Revision::from_u64(2));
    assert!(table.maybe_changed_after(input, Revision::from_u64(1)));
    assert!(!table.maybe_changed_after(input, Revision::from_u64(2)));

    // The id counter does not rewind across resets.
    let id = table.intern(&mut runtime, String::from("kept"));
    assert_eq!(id.as_u32(), 0);
    table.reset(Revision::from_u64(3));
    let id_later = table.intern(&mut runtime, String::from("kept"));
    assert_eq!(id_later.as_u32(), 1);
}

#[test]
fn reset_isolates_old_ids() {
    let mut runtime = Runtime::new();
    let mut table = fresh_table(5);

    let a = table.intern(&mut runtime, String::from("a"));
    let b = table.intern(&mut runtime, String::from("b"));
    table.reset(Revision::from_u64(7));

    assert!(table.try_data(&mut runtime, a).is_none());
    assert!(table.try_data(&mut runtime, b).is_none());

    // Re-interning allocates fresh ids rather than reviving stale mappings.
    let a_later = table.intern(&mut runtime, String::from("a"));
    assert_eq!(a_later.as_u32(), 2);
    assert_eq!(table.data(&mut runtime, a_later), "a");
}

#[test]
fn freshness_tracks_resets_only() {
    let mut runtime = Runtime::new();
    let mut table = fresh_table(6);
    let input = DependencyIndex::for_table(IngredientIndex::from_u32(6));

    assert!(!table.maybe_changed_after(input, Revision::from_u64(0)));

    // Intern volume does not affect freshness.
    for i in 0..10 {
        table.intern(&mut runtime, format!("v{}", i));
    }
    assert!(!table.maybe_changed_after(input, Revision::from_u64(0)));

    table.reset(Revision::from_u64(3));
    assert!(table.maybe_changed_after(input, Revision::from_u64(2)));
    assert!(!table.maybe_changed_after(input, Revision::from_u64(3)));
    assert!(!table.maybe_changed_after(input, Revision::from_u64(4)));
}

#[test]
fn every_access_records_a_read() {
    let mut runtime = Runtime::new();
    let slot = IngredientIndex::from_u32(9);
    let mut table = InternedIngredient::new(slot, "tbl");

    let id = table.intern(&mut runtime, String::from("foo"));
    table.data(&mut runtime, id);
    table.try_data(&mut runtime, Id::from_u32(99));

    let expected = ReadRecord {
        dependency: DependencyIndex::for_table(slot),
        durability: Durability::High,
        changed_at: Revision::from_u64(0),
    };
    assert_eq!(runtime.reads().len(), 3);
    for read in runtime.reads() {
        assert_eq!(*read, expected);
    }

    // After a reset, reads are recorded as of the new revision.
    table.reset(Revision::from_u64(4));
    table.intern(&mut runtime, String::from("foo"));
    assert_eq!(runtime.reads().len(), 4);
    assert_eq!(runtime.reads()[3].changed_at, Revision::from_u64(4));
    assert_eq!(runtime.reads()[3].durability, Durability::High);
}

#[test]
fn table_identity_and_cycle_policy() {
    let table = fresh_table(11);
    assert_eq!(table.ingredient_index(), IngredientIndex::from_u32(11));
    assert_eq!(table.cycle_recovery_strategy(), CycleRecoveryStrategy::Panic);
    assert_eq!(Durability::max_durability(), Durability::High);
    assert_eq!(Revision::start().as_u64(), 0);
}

#[test]
fn fmt_index_renders_name_and_id() {
    let table = InternedIngredient::new(IngredientIndex::from_u32(12), "strings");
    assert_eq!(table.fmt_index(Some(Id::from_u32(42))), "strings(42)");
    assert_eq!(table.fmt_index(Some(Id::from_u32(0))), "strings(0)");
    assert_eq!(table.fmt_index(Some(Id::from_u32(4294967295))), "strings(4294967295)");
    assert_eq!(table.fmt_index(None), "strings()");
}
