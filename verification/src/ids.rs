//! Identifiers of the entities that an object owns.
//!
//! Each store of an object is append-only, so an identifier is the position
//! at which its entity was added and stays valid for the life of the object.

use vstd::prelude::*;

verus! {

/// An identifier used to reference a section.
#[derive(Debug, Clone, Copy, PartialEq, Eq, PartialOrd, Ord, Hash, Structural)]
pub struct SectionId(pub usize);

/// An identifier used to reference a symbol.
#[derive(Debug, Clone, Copy, PartialEq, Eq, PartialOrd, Ord, Hash, Structural)]
pub struct SymbolId(pub usize);

/// An identifier used to reference a COMDAT section group.
#[derive(Debug, Clone, Copy, PartialEq, Eq, PartialOrd, Ord, Hash, Structural)]
pub struct ComdatId(pub usize);

} // verus!
