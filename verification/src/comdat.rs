//! COMDAT section groups.

use vstd::prelude::*;
use crate::common::ComdatKind;
use crate::ids::{SectionId, SymbolId};

verus! {

/// What a COMDAT section group holds, as plain values.
pub struct ComdatView {
    pub kind: ComdatKind,
    pub symbol: SymbolId,
    pub sections: Seq<SectionId>,
}

/// A COMDAT section group.
#[derive(Debug)]
pub struct Comdat {
    /// The COMDAT selection kind.
    ///
    /// This determines the way in which the linker resolves multiple definitions of the COMDAT
    /// sections.
    pub kind: ComdatKind,
    /// The COMDAT symbol.
    ///
    /// If this symbol is referenced, then all sections in the group will be included by the
    /// linker.
    pub symbol: SymbolId,
    /// The sections in the group.
    pub sections: Vec<SectionId>,
}

impl View for Comdat {
    type V = ComdatView;

    open spec fn view(&self) -> ComdatView {
        ComdatView { kind: self.kind, symbol: self.symbol, sections: self.sections@ }
    }
}

} // verus!
