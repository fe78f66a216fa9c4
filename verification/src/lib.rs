//! An interning ingredient: a content-addressed table that deduplicates
//! values into small stable integer ids, participating in a surrounding
//! revision/dependency-tracking protocol.
//!
//! The table keeps a forward index (value to id) and a backward index (id to
//! value) in concurrent maps, allocates ids from a monotonic counter, and
//! records the revision at which it was last wholly cleared. Every access
//! registers a read dependency with the caller's runtime before any result is
//! returned.

pub mod cycle;
pub mod id;
pub mod identity;
pub mod interned;
pub mod model;
pub mod render;
pub mod revision;
pub mod runtime;
mod sync;

pub use cycle::CycleRecoveryStrategy;
pub use id::{AsId, Id, IngredientIndex};
pub use identity::{Configuration, IdentityInterner, InternedData};
pub use interned::InternedIngredient;
pub use model::TableModel;
pub use revision::{Durability, Revision};
pub use runtime::{DependencyIndex, ReadRecord, Runtime};
