//! Interning for values that already are ids.
//!
//! Some value types are, up to representation, an [`Id`] themselves; for
//! those the [`IdentityInterner`] interns and looks up by mere conversion,
//! touching no table and registering no dependency.

use vstd::prelude::*;

use crate::id::{AsId, Id};
use crate::runtime::Runtime;

verus! {

/// Data that an interning table can deduplicate: sized, with an equality
/// relation, hashable consistently with it, and clonable so the table can
/// keep its own canonical copy.
pub trait InternedData: Sized + Eq + core::hash::Hash + Clone {
}

impl<T: Eq + core::hash::Hash + Clone> InternedData for T {
}

/// The configuration of one interning ingredient: which data it interns.
pub trait Configuration {
    type Data: InternedData;
}

/// An interner for configurations whose data already is an id: interning
/// converts the value to its id, and lookup converts the id back.
pub struct IdentityInterner<C: Configuration> where C::Data: AsId {
    data: core::marker::PhantomData<C>,
}

impl<C: Configuration> IdentityInterner<C> where C::Data: AsId {
    pub fn new() -> (interner: Self) {
        IdentityInterner { data: core::marker::PhantomData }
    }

    /// Interning an id-like value is the conversion to its id.
    pub fn intern(&self, _runtime: &Runtime, id: C::Data) -> (interned: Id)
        ensures
            interned == id.as_id_spec(),
    {
        id.as_id()
    }

    /// Looking an id up yields the value it converts back to.
    pub fn data(&self, _runtime: &Runtime, id: Id) -> (data: C::Data)
        ensures
            data.as_id_spec() == id,
    {
        <C::Data as AsId>::from_id(id)
    }
}

} // verus!
