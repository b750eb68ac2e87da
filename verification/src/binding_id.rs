//! Node local unique identifier for name bindings.
//! Handles shadowing without parent-pointer traversal.
//! Constructed through static name resolution passes.
use vstd::prelude::*;

verus! {

/// Identifier of one name binding.
#[derive(Debug, Clone, Copy, PartialEq, Eq, Hash, Structural)]
pub struct BindingId(pub u64);

} // verus!
