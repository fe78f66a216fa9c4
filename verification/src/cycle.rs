//! Cycle recovery policies.

use vstd::prelude::*;

verus! {

/// What an ingredient does when the engine detects a dependency cycle
/// through it. An interning table never re-enters the engine while resolving
/// a request, so it can never participate in a cycle; its policy is
/// [`CycleRecoveryStrategy::Panic`].
#[derive(Clone, Copy, PartialEq, Eq, Hash, Debug, Structural)]
pub enum CycleRecoveryStrategy {
    Panic,
    Fallback,
}

} // verus!
