//! Ids and ingredient indices.
//!
//! An [`Id`] is an opaque 32-bit handle minted by an interning table; it is
//! totally ordered by allocation order and valid only until the next reset of
//! its originating table. An [`IngredientIndex`] is the stable slot a registry
//! assigns to each ingredient when the owning store is assembled.

use vstd::prelude::*;

verus! {

/// A small integer handle produced by interning.
#[derive(Clone, Copy, PartialEq, Eq, Hash, Debug, Structural)]
pub struct Id {
    pub value: u32,
}

impl Id {
    pub fn from_u32(value: u32) -> (id: Id)
        ensures
            id.value == value,
    {
        Id { value }
    }

    pub fn as_u32(self) -> (value: u32)
        ensures
            value == self.value,
    {
        self.value
    }
}

/// Types that are, up to representation, an [`Id`]: they can be converted to
/// and from an id without loss. Implementors choose the spec-level id of each
/// value via [`AsId::as_id_spec`]; both conversions must agree with it.
pub trait AsId: Sized {
    spec fn as_id_spec(&self) -> Id;

    fn as_id(&self) -> (id: Id)
        ensures
            id == self.as_id_spec(),
    ;

    fn from_id(id: Id) -> (data: Self)
        ensures
            data.as_id_spec() == id,
    ;
}

impl AsId for Id {
    open spec fn as_id_spec(&self) -> Id {
        *self
    }

    fn as_id(&self) -> (id: Id) {
        *self
    }

    fn from_id(id: Id) -> (data: Self) {
        id
    }
}

/// The stable slot of an ingredient within the owning store; assigned once at
/// construction and immutable thereafter.
#[derive(Clone, Copy, PartialEq, Eq, Hash, Debug, Structural)]
pub struct IngredientIndex {
    pub value: u32,
}

impl IngredientIndex {
    pub fn from_u32(value: u32) -> (index: IngredientIndex)
        ensures
            index.value == value,
    {
        IngredientIndex { value }
    }

    pub fn as_u32(self) -> (value: u32)
        ensures
            value == self.value,
    {
        self.value
    }
}

} // verus!
