//! A numeric representation of an identifier or symbol.
use vstd::prelude::*;

verus! {

/// Identifier handed out by the interner; the number is the position of the
/// interned string.
#[derive(Debug, Clone, Copy, PartialEq, Eq, Hash, Structural)]
pub struct Symbol(pub u32);

} // verus!
