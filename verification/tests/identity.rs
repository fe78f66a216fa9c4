//! Tests of the identity interner: interning an id-like value converts it,
//! and lookup converts back.

use interning::{Configuration, Id, IdentityInterner, Runtime};

struct IdConfig;

impl Configuration for IdConfig {
    type Data = Id;
}

#[test]
fn identity_interner_round_trips() {
    let runtime = Runtime::new();
    let interner: IdentityInterner<IdConfig> = IdentityInterner::new();

    let id = Id::from_u32(17);
    let interned = interner.intern(&runtime, id);
    assert_eq!(interned, id);
    assert_eq!(interner.data(&runtime, interned), id);
}

#[test]
fn identity_interner_is_the_conversion() {
    let runtime = Runtime::new();
    let interner: IdentityInterner<IdConfig> = IdentityInterner::new();

    for raw in [0u32, 1, 2, 1000, u32::MAX] {
        let interned = interner.intern(&runtime, Id::from_u32(raw));
        assert_eq!(interned.as_u32(), raw);
        assert_eq!(interner.data(&runtime, interned).as_u32(), raw);
    }
}
