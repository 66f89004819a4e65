//! Symbols, the sections they are defined in, and name mangling.

use vstd::prelude::*;
use crate::bytes::{spec_text, text};
use crate::common::{Architecture, BinaryFormat, SymbolKind, SymbolScope};
use crate::ids::{SectionId, SymbolId};

verus! {

/// The section where a symbol is defined.
#[derive(Debug, Clone, Copy, PartialEq, Eq, Hash, Structural)]
#[non_exhaustive]
pub enum SymbolSection {
    /// The section is not applicable for this symbol (such as file symbols).
    NotApplicable,
    /// The symbol is undefined.
    Undefined,
    /// The symbol has an absolute value.
    Absolute,
    /// The symbol is a zero-initialized symbol that will be combined with duplicate definitions.
    Common,
    /// The symbol is defined in the given section.
    Section(SectionId),
}

impl SymbolSection {
    /// The section in which the symbol is defined, if it is defined in one.
    pub open spec fn spec_id(self) -> Option<SectionId> {
        match self {
            SymbolSection::Section(id) => Some(id),
            _ => None,
        }
    }

    /// Returns the section id for the section where the symbol is defined.
    ///
    /// May return `None` if the symbol is not defined in a section.
    #[inline]
    #[verifier::when_used_as_spec(spec_id)]
    pub fn id(self) -> (r: Option<SectionId>)
        ensures
            r == self.spec_id(),
    {
        if let SymbolSection::Section(id) = self {
            Some(id)
        } else {
            None
        }
    }
}

/// Symbol flags that are specific to each file format.
#[derive(Debug, Clone, Copy, PartialEq, Eq, Hash)]
pub enum SymbolFlags {
    /// No flags have been chosen: they are derived from the kind and scope of the symbol.
    Unset,
    /// ELF symbol flags.
    Elf { st_info: u8, st_other: u8 },
    /// Mach-O symbol flags.
    MachO { n_desc: u16 },
    /// COFF flags for a section symbol.
    CoffSection { selection: u8, associative_section: Option<SectionId> },
    /// XCOFF symbol flags.
    Xcoff { n_sclass: u8, x_smtyp: u8, x_smclas: u8, containing_csect: Option<SymbolId> },
}

impl SymbolFlags {
    /// True if no flags have been chosen.
    pub open spec fn spec_is_unset(&self) -> bool {
        *self == SymbolFlags::Unset
    }

    /// Return true if no flags have been chosen.
    #[verifier::when_used_as_spec(spec_is_unset)]
    pub fn is_unset(&self) -> (r: bool)
        ensures
            r == self.spec_is_unset(),
    {
        match self {
            SymbolFlags::Unset => true,
            _ => false,
        }
    }
}

/// What a symbol holds, as plain values.
pub struct SymbolView {
    pub name: Seq<u8>,
    pub value: u64,
    pub size: u64,
    pub kind: SymbolKind,
    pub scope: SymbolScope,
    pub weak: bool,
    pub section: SymbolSection,
    pub flags: SymbolFlags,
}

impl SymbolView {
    /// A defined symbol has a scope.
    pub open spec fn wf(self) -> bool {
        self.section == SymbolSection::Undefined || self.scope != SymbolScope::Unknown
    }

    /// True if the symbol can be found by its name: it has one, and is code,
    /// data or thread-local data.
    pub open spec fn is_linkable(self) -> bool {
        self.name.len() != 0 && (self.kind == SymbolKind::Text || self.kind == SymbolKind::Data
            || self.kind == SymbolKind::Tls)
    }

    /// The symbol that stands for a section: local, at offset 0 of it.
    pub open spec fn for_section(name: Seq<u8>, section: SectionId) -> SymbolView {
        SymbolView {
            name,
            value: 0,
            size: 0,
            kind: SymbolKind::Section,
            scope: SymbolScope::Compilation,
            weak: false,
            section: SymbolSection::Section(section),
            flags: SymbolFlags::Unset,
        }
    }

    /// The symbol that names a file.
    pub open spec fn for_file(name: Seq<u8>) -> SymbolView {
        SymbolView {
            name,
            value: 0,
            size: 0,
            kind: SymbolKind::File,
            scope: SymbolScope::Compilation,
            weak: false,
            section: SymbolSection::NotApplicable,
            flags: SymbolFlags::Unset,
        }
    }

    /// The symbol, placed at `offset` of `section` with the given size.
    pub open spec fn placed(self, section: SectionId, offset: u64, size: u64) -> SymbolView {
        SymbolView { value: offset, size, section: SymbolSection::Section(section), ..self }
    }
}

/// A symbol in an object file.
#[derive(Debug)]
pub struct Symbol {
    /// The name of the symbol.
    pub name: Vec<u8>,
    /// The value of the symbol.
    ///
    /// If the symbol defined in a section, then this is the section offset of the symbol.
    pub value: u64,
    /// The size of the symbol.
    pub size: u64,
    /// The kind of the symbol.
    pub kind: SymbolKind,
    /// The scope of the symbol.
    pub scope: SymbolScope,
    /// Whether the symbol has weak binding.
    pub weak: bool,
    /// The section containing the symbol.
    pub section: SymbolSection,
    /// Symbol flags that are specific to each file format.
    pub flags: SymbolFlags,
}

impl View for Symbol {
    type V = SymbolView;

    open spec fn view(&self) -> SymbolView {
        SymbolView {
            name: self.name@,
            value: self.value,
            size: self.size,
            kind: self.kind,
            scope: self.scope,
            weak: self.weak,
            section: self.section,
            flags: self.flags,
        }
    }
}

impl Symbol {
    /// Try to convert the name to a utf8 string.
    #[inline]
    pub fn name(&self) -> (r: Option<&str>)
        ensures
            spec_text(self@.name, r),
    {
        text(self.name.as_slice())
    }

    /// Return true if the symbol is undefined.
    #[inline]
    pub fn is_undefined(&self) -> (r: bool)
        ensures
            r == (self@.section == SymbolSection::Undefined),
    {
        self.section == SymbolSection::Undefined
    }

    /// Return true if the symbol is common data.
    ///
    /// Note: does not check for `SymbolSection::Section` with `SectionKind::Common`.
    #[inline]
    pub fn is_common(&self) -> (r: bool)
        ensures
            r == (self@.section == SymbolSection::Common),
    {
        self.section == SymbolSection::Common
    }

    /// Return true if the symbol scope is local.
    #[inline]
    pub fn is_local(&self) -> (r: bool)
        ensures
            r == (self@.scope == SymbolScope::Compilation),
    {
        self.scope == SymbolScope::Compilation
    }
}

/// The symbol name mangling scheme.
#[derive(Debug, Clone, Copy, PartialEq, Eq, Hash, Structural)]
#[non_exhaustive]
pub enum Mangling {
    /// No symbol mangling.
    Plain,
    /// Windows COFF symbol mangling.
    Coff,
    /// Windows COFF i386 symbol mangling.
    CoffI386,
    /// ELF symbol mangling.
    Elf,
    /// Mach-O symbol mangling.
    MachO,
    /// Xcoff symbol mangling.
    Xcoff,
}

impl Mangling {
    /// The mangling that an object of the given format and architecture starts with.
    pub open spec fn spec_default(format: BinaryFormat, architecture: Architecture) -> Mangling {
        match format {
            BinaryFormat::Coff => if architecture == Architecture::I386 {
                Mangling::CoffI386
            } else {
                Mangling::Coff
            },
            BinaryFormat::Elf => Mangling::Elf,
            BinaryFormat::MachO => Mangling::MachO,
            BinaryFormat::Xcoff => Mangling::Xcoff,
            _ => Mangling::Plain,
        }
    }

    /// Return the default symboling mangling for the given format and architecture.
    #[verifier::when_used_as_spec(spec_default)]
    pub fn default(format: BinaryFormat, architecture: Architecture) -> (mangling: Mangling)
        ensures
            mangling == Mangling::spec_default(format, architecture),
    {
        match (format, architecture) {
            (BinaryFormat::Coff, Architecture::I386) => Mangling::CoffI386,
            (BinaryFormat::Coff, _) => Mangling::Coff,
            (BinaryFormat::Elf, _) => Mangling::Elf,
            (BinaryFormat::MachO, _) => Mangling::MachO,
            (BinaryFormat::Xcoff, _) => Mangling::Xcoff,
            _ => Mangling::Plain,
        }
    }

    /// The byte that is put before the name of a symbol that can be found by
    /// its name, if the scheme has one: an underscore for Mach-O and for COFF
    /// on i386.
    pub open spec fn spec_global_prefix(self) -> Option<u8> {
        match self {
            Mangling::CoffI386 | Mangling::MachO => Some(0x5fu8),
            _ => None,
        }
    }

    /// Return the prefix to use for global symbols.
    #[verifier::when_used_as_spec(spec_global_prefix)]
    pub fn global_prefix(self) -> (prefix: Option<u8>)
        ensures
            prefix == self.spec_global_prefix(),
    {
        match self {
            Mangling::Plain | Mangling::Elf | Mangling::Coff | Mangling::Xcoff => None,
            Mangling::CoffI386 | Mangling::MachO => Some(0x5f),
        }
    }

    /// The name under which a symbol that can be found by `name` is stored.
    pub open spec fn mangle(self, name: Seq<u8>) -> Seq<u8> {
        match self.spec_global_prefix() {
            Some(prefix) => seq![prefix] + name,
            None => name,
        }
    }
}

} // verus!
