//! A builder for relocatable object files.
//!
//! An [`Object`] collects sections, symbols, relocations and COMDAT groups
//! through one format-neutral interface, and adapts each request to the
//! conventions of the container format it was created for: the names and
//! flags of standard sections, the mangling of symbol names, the encoding
//! of relocations and the place where their addends are kept.
//!
//! What an object holds is described by [`ObjectView`], and each function
//! of the builder by the function of `ObjectView` that bears its name.

pub mod bytes;
pub mod comdat;
pub mod common;
pub mod error;
pub mod ids;
pub mod index;
pub mod laws;
pub mod model;
pub mod object;
pub mod policy;
pub mod relocation;
pub mod section;
pub mod symbol;

pub use crate::comdat::{Comdat, ComdatView};
pub use crate::common::{
    AddressSize, Architecture, BinaryFormat, ComdatKind, Endianness, FileFlags, RelocationEncoding,
    RelocationFlags, RelocationKind, SectionFlags, SectionKind, SubArchitecture, SymbolKind,
    SymbolScope,
};
pub use crate::error::{Error, ErrorKind};
pub use crate::ids::{ComdatId, SectionId, SymbolId};
pub use crate::model::ObjectView;
pub use crate::object::Object;
pub use crate::relocation::Relocation;
pub use crate::section::{Section, SectionView, StandardSection, StandardSegment};
pub use crate::symbol::{Mangling, Symbol, SymbolFlags, SymbolSection, SymbolView};
