//! The builder.

use vstd::prelude::*;
use vstd::string::*;
use crate::bytes::{append_bytes, append_zeros, bytes_eq, bytes_to_vec};
use crate::comdat::Comdat;
use crate::common::{
    Architecture, BinaryFormat, Endianness, FileFlags, RelocationEncoding, RelocationFlags,
    RelocationKind, SectionFlags, SectionKind, SubArchitecture, SymbolKind, SymbolScope,
};
use crate::error::{Error, ErrorKind};
use crate::ids::{ComdatId, SectionId, SymbolId};
use crate::index::{
    name_index_entries, name_index_get, name_index_insert, name_index_new, role_index_entries,
    role_index_get, role_index_insert, role_index_new, NameIndex, RoleIndex,
};
use crate::model::{tlv_relocation, ObjectView};
use crate::policy;
use crate::relocation::{addend_bytes, Relocation};
use crate::section::{is_power_of_two, Section, StandardSection, StandardSegment};
use crate::symbol::{Mangling, Symbol, SymbolFlags, SymbolSection, SymbolView};

verus! {

/// A writable relocatable object file.
#[derive(Debug)]
pub struct Object {
    format: BinaryFormat,
    architecture: Architecture,
    sub_architecture: Option<SubArchitecture>,
    endian: Endianness,
    sections: Vec<Section>,
    standard_sections: RoleIndex,
    symbols: Vec<Symbol>,
    symbol_map: NameIndex,
    comdats: Vec<Comdat>,
    flags: FileFlags,
    mangling: Mangling,
    tlv_bootstrap: Option<SymbolId>,
    subsections_via_symbols: bool,
}

/// The standard sections that a table of positions stands for.
pub closed spec fn roles_of(entries: Map<usize, usize>) -> Map<StandardSection, SectionId> {
    Map::new(
        |role: StandardSection| entries.contains_key(role.spec_index()),
        |role: StandardSection| SectionId(entries[role.spec_index()]),
    )
}

/// The symbols that a table of positions stands for.
pub closed spec fn names_of(entries: Map<Seq<u8>, usize>) -> Map<Seq<u8>, SymbolId> {
    Map::new(|name: Seq<u8>| entries.contains_key(name), |name: Seq<u8>| SymbolId(entries[name]))
}

/// The table of standard sections after a section with the given segment,
/// name and kind was added at position `id`: the section stands for each
/// standard section below position `upto` that it matches and that had
/// none.
spec fn registered(
    entries: Map<usize, usize>,
    format: BinaryFormat,
    segment: Seq<u8>,
    name: Seq<u8>,
    kind: SectionKind,
    id: usize,
    upto: usize,
) -> Map<usize, usize> {
    Map::new(
        |key: usize|
            entries.contains_key(key) || (key < upto && policy::spec_section_info(
                format,
                StandardSection::spec_at(key),
            ).matches(segment, name, kind)),
        |key: usize|
            if entries.contains_key(key) {
                entries[key]
            } else {
                id
            },
    )
}

/// Let the section at position `id` stand for each standard section that it
/// matches and that has none.
fn register_roles(
    index: &mut RoleIndex,
    format: BinaryFormat,
    segment: &[u8],
    name: &[u8],
    kind: SectionKind,
    id: usize,
)
    requires
        format.is_writable(),
    ensures
        role_index_entries(*final(index)) == registered(
            role_index_entries(*old(index)),
            format,
            segment@,
            name@,
            kind,
            id,
            11,
        ),
{
    let ghost entries = role_index_entries(*index);
    let all = StandardSection::all();
    let mut i: usize = 0;
    assert(role_index_entries(*index) =~= registered(entries, format, segment@, name@, kind, id, 0));
    while i < 11
        invariant
            i <= 11,
            format.is_writable(),
            forall|k: int| 0 <= k < 11 ==> #[trigger] all@[k] == StandardSection::spec_at(k as usize),
            forall|k: int| 0 <= k < 11 ==> (#[trigger] all@[k]).spec_index() == k,
            role_index_entries(*index) == registered(entries, format, segment@, name@, kind, id, i),
        decreases 11 - i,
    {
        let role = all[i];
        let ghost current = role_index_entries(*index);
        if role_index_get(index, role.index()).is_none() {
            let info = policy::section_info(format, role);
            if bytes_eq(info.0.as_slice(), segment) && bytes_eq(info.1.as_slice(), name) && info.2
                == kind {
                role_index_insert(index, role.index(), id);
            }
        }
        assert(role_index_entries(*index) =~= registered(
            entries,
            format,
            segment@,
            name@,
            kind,
            id,
            (i + 1) as usize,
        ));
        i = i + 1;
    }
}

impl View for Object {
    type V = ObjectView;

    closed spec fn view(&self) -> ObjectView {
        ObjectView {
            format: self.format,
            architecture: self.architecture,
            sub_architecture: self.sub_architecture,
            endian: self.endian,
            sections: self.sections@.map_values(|s: Section| s@),
            standard_sections: roles_of(role_index_entries(self.standard_sections)),
            symbols: self.symbols@.map_values(|s: Symbol| s@),
            symbol_map: names_of(name_index_entries(self.symbol_map)),
            comdats: self.comdats@.map_values(|c: Comdat| c@),
            flags: self.flags,
            mangling: self.mangling,
            tlv_bootstrap: self.tlv_bootstrap,
            subsections_via_symbols: self.subsections_via_symbols,
        }
    }
}

impl Object {
    /// The invariant of an object.
    pub open spec fn wf(&self) -> bool {
        self@.wf()
    }

    /// Create an empty object file.
    pub fn new(format: BinaryFormat, architecture: Architecture, endian: Endianness) -> (object:
        Object)
        ensures
            object@ == ObjectView::new(format, architecture, endian),
            object.wf(),
    {
        let object = Object {
            format,
            architecture,
            sub_architecture: None,
            endian,
            sections: Vec::new(),
            standard_sections: role_index_new(),
            symbols: Vec::new(),
            symbol_map: name_index_new(),
            comdats: Vec::new(),
            flags: FileFlags::Unset,
            mangling: Mangling::default(format, architecture),
            tlv_bootstrap: None,
            subsections_via_symbols: false,
        };
        proof {
            let view = ObjectView::new(format, architecture, endian);
            assert(object@.sections =~= view.sections);
            assert(object@.symbols =~= view.symbols);
            assert(object@.comdats =~= view.comdats);
            assert(object@.standard_sections =~= view.standard_sections);
            assert(object@.symbol_map =~= view.symbol_map);
            assert forall|role: StandardSection| #[trigger] view.standard_section_wf(role) by {}
        }
        object
    }

    /// Return the file format.
    #[inline]
    pub fn format(&self) -> (format: BinaryFormat)
        ensures
            format == self@.format,
    {
        self.format
    }

    /// Return the architecture.
    #[inline]
    pub fn architecture(&self) -> (architecture: Architecture)
        ensures
            architecture == self@.architecture,
    {
        self.architecture
    }

    /// Return the sub-architecture.
    #[inline]
    pub fn sub_architecture(&self) -> (sub_architecture: Option<SubArchitecture>)
        ensures
            sub_architecture == self@.sub_architecture,
    {
        self.sub_architecture
    }

    /// Specify the sub-architecture.
    pub fn set_sub_architecture(&mut self, sub_architecture: Option<SubArchitecture>)
        ensures
            final(self)@ == (ObjectView { sub_architecture, ..old(self)@ }),
            old(self).wf() ==> final(self).wf(),
    {
        let ghost before = self@;
        self.sub_architecture = sub_architecture;
        proof {
            if before.wf() {
                crate::model::lemma_wf_of_parts(before, self@);
            }
        }
    }

    /// Return the byte order.
    #[inline]
    pub fn endian(&self) -> (endian: Endianness)
        ensures
            endian == self@.endian,
    {
        self.endian
    }

    /// Return the file flags.
    #[inline]
    pub fn flags(&self) -> (flags: FileFlags)
        ensures
            flags == self@.flags,
    {
        self.flags
    }

    /// Specify the file flags.
    pub fn set_flags(&mut self, flags: FileFlags)
        ensures
            final(self)@ == (ObjectView { flags, ..old(self)@ }),
            old(self).wf() ==> final(self).wf(),
    {
        let ghost before = self@;
        self.flags = flags;
        proof {
            if before.wf() {
                crate::model::lemma_wf_of_parts(before, self@);
            }
        }
    }

    /// Return the current mangling setting.
    #[inline]
    pub fn mangling(&self) -> (mangling: Mangling)
        ensures
            mangling == self@.mangling,
    {
        self.mangling
    }

    /// Specify the mangling setting.
    #[inline]
    pub fn set_mangling(&mut self, mangling: Mangling)
        ensures
            final(self)@ == (ObjectView { mangling, ..old(self)@ }),
            old(self).wf() ==> final(self).wf(),
    {
        let ghost before = self@;
        self.mangling = mangling;
        proof {
            if before.wf() {
                crate::model::lemma_wf_of_parts(before, self@);
            }
        }
    }

    /// Return the name for a standard segment.
    ///
    /// This will vary based on the file format.
    pub fn segment_name(&self, segment: StandardSegment) -> (name: Vec<u8>)
        requires
            policy::spec_has_segment_names(self@.format),
        ensures
            name@ == policy::spec_segment_name(self@.format, segment),
    {
        policy::segment_name(self.format, segment)
    }

    /// Get the section with the given `SectionId`.
    #[inline]
    pub fn section(&self, section: SectionId) -> (r: &Section)
        requires
            self@.has_section(section),
        ensures
            r@ == self@.sections[section.0 as int],
    {
        &self.sections[section.0]
    }

    /// Mutably get the section with the given `SectionId`.
    ///
    /// The object is well formed again once the section is, with its
    /// segment, name, kind, relocations and symbol unchanged.
    #[inline]
    pub fn section_mut(&mut self, section: SectionId) -> (r: &mut Section)
        requires
            old(self)@.has_section(section),
        ensures
            r@ == old(self)@.sections[section.0 as int],
            final(self)@ == old(self)@.with_section(section, final(r)@),
    {
        let ghost before = self@;
        let r = &mut self.sections[section.0];
        proof {
            assert(after_borrow(self)@.sections =~= before.sections.update(
                section.0 as int,
                final(r)@,
            ));
        }
        r
    }

    /// Add a new section and return its `SectionId`.
    ///
    /// The section also comes to stand for each standard section that it
    /// matches in segment, name and kind, and that had no section yet.
    pub fn add_section(&mut self, segment: Vec<u8>, name: Vec<u8>, kind: SectionKind) -> (id:
        SectionId)
        requires
            old(self).wf(),
            old(self)@.format.is_writable(),
        ensures
            id == old(self)@.next_section_id(),
            final(self)@ == old(self)@.add_section(segment@, name@, kind),
            final(self).wf(),
    {
        let ghost before = self@;
        let ghost old_entries = role_index_entries(self.standard_sections);
        let id = SectionId(self.sections.len());
        register_roles(
            &mut self.standard_sections,
            self.format,
            segment.as_slice(),
            name.as_slice(),
            kind,
            id.0,
        );
        self.sections.push(Section::new(segment, name, kind));
        assert(self.sections.len() == before.sections.len() + 1);
        proof {
            let after = before.add_section(segment@, name@, kind);
            assert(self@.sections =~= after.sections);
            assert(self@.standard_sections =~= after.standard_sections) by {
                assert forall|r: StandardSection|
                    self@.standard_sections.contains_key(r)
                        == after.standard_sections.contains_key(r) by {
                    r.lemma_index();
                }
                assert forall|r: StandardSection| self@.standard_sections.contains_key(r) implies
                    self@.standard_sections[r] == after.standard_sections[r] by {
                    r.lemma_index();
                }
            }
            assert(self@.symbols == before.symbols);
            assert(self@.comdats == before.comdats);
            assert(self@ == after);
            crate::model::lemma_add_section_wf(before, segment@, name@, kind);
        }
        id
    }
}

impl Object {
    /// Return the number of sections. The identifiers of the sections are
    /// the numbers below it.
    pub fn section_count(&self) -> (count: usize)
        ensures
            count == self@.sections.len(),
    {
        self.sections.len()
    }

    /// Return the number of symbols. The identifiers of the symbols are the
    /// numbers below it.
    pub fn symbol_count(&self) -> (count: usize)
        ensures
            count == self@.symbols.len(),
    {
        self.symbols.len()
    }

    /// Return the number of COMDAT groups. The identifiers of the groups are
    /// the numbers below it.
    pub fn comdat_count(&self) -> (count: usize)
        ensures
            count == self@.comdats.len(),
    {
        self.comdats.len()
    }

    /// Set the flags of a section.
    fn set_section_flags(&mut self, id: SectionId, flags: SectionFlags)
        requires
            old(self)@.has_section(id),
        ensures
            final(self)@ == old(self)@.with_section(
                id,
                old(self)@.sections[id.0 as int].with_flags(flags),
            ),
    {
        let section = self.section_mut(id);
        section.set_flags(flags);
    }

    /// Return the `SectionId` of a standard section.
    ///
    /// If the section doesn't already exist then it is created.
    pub fn section_id(&mut self, section: StandardSection) -> (id: SectionId)
        requires
            old(self).wf(),
            old(self)@.format.is_writable(),
        ensures
            id == old(self)@.section_id(section).1,
            final(self)@ == old(self)@.section_id(section).0,
            final(self).wf(),
            final(self)@.has_section(id),
    {
        let ghost before = self@;
        proof {
            assert(self.sections.len() == before.sections.len());
        }
        match role_index_get(&self.standard_sections, section.index()) {
            Some(id) => {
                proof {
                    assert(before.standard_section_wf(section));
                }
                SectionId(id)
            },
            None => {
                let info = policy::section_info(self.format, section);
                let id = self.add_section(info.0, info.1, info.2);
                let _count = self.section_count();
                self.set_section_flags(id, info.3);
                proof {
                    crate::model::lemma_section_id_wf(before, section);
                }
                id
            },
        }
    }

    /// Add a subsection. Returns the `SectionId` of the subsection.
    ///
    /// For Mach-O, this does not create a subsection, and instead uses the
    /// section from [`Self::section_id`]. Use [`Self::set_subsections_via_symbols`]
    /// to enable subsections via symbols.
    pub fn add_subsection(&mut self, section: StandardSection, name: &[u8]) -> (id: SectionId)
        requires
            old(self).wf(),
            old(self)@.format == BinaryFormat::MachO || policy::spec_has_subsection_names(
                old(self)@.format,
            ),
        ensures
            id == old(self)@.add_subsection(section, name@).1,
            final(self)@ == old(self)@.add_subsection(section, name@).0,
            final(self).wf(),
            final(self)@.has_section(id),
    {
        let ghost before = self@;
        if policy::has_subsections_via_symbols(self.format) {
            self.section_id(section)
        } else {
            let info = policy::section_info(self.format, section);
            let sub = policy::subsection_name(self.format, info.1.as_slice(), name);
            let id = self.add_section(info.0, sub, info.2);
            let _count = self.section_count();
            self.set_section_flags(id, info.3);
            proof {
                crate::model::lemma_add_subsection_wf(before, section, name@);
            }
            id
        }
    }

    /// Enable subsections via symbols if supported.
    ///
    /// This should be called before adding any subsections or symbols.
    ///
    /// For Mach-O, this sets the `MH_SUBSECTIONS_VIA_SYMBOLS` flag.
    /// For other formats, this does nothing.
    pub fn set_subsections_via_symbols(&mut self)
        ensures
            final(self)@ == (ObjectView {
                subsections_via_symbols: old(self)@.subsections_via_symbols || old(self)@.format
                    == BinaryFormat::MachO,
                ..old(self)@
            }),
            old(self).wf() ==> final(self).wf(),
    {
        let ghost before = self@;
        if self.format == BinaryFormat::MachO {
            self.subsections_via_symbols = true;
        }
        proof {
            if before.wf() {
                crate::model::lemma_wf_of_parts(before, self@);
            }
        }
    }

    /// Return the default flags for a section.
    ///
    /// The default flags are the section flags that will be written if
    /// the section flags are not set.
    /// These flags are determined by the file format and fields in the section
    /// such as the section kind.
    ///
    /// This may return `SectionFlags::Unset` if the file format does not support
    /// the section kind.
    pub fn default_section_flags(&self, section: &Section) -> (flags: SectionFlags)
        ensures
            flags == policy::spec_section_flags(self@.format, section@.kind),
    {
        policy::section_flags(self.format, section.kind())
    }

    /// Return the flags for a section.
    ///
    /// If the flags of the section are not set, then returns
    /// [`Self::default_section_flags`].
    /// Otherwise, the flags of the section are returned as is.
    pub fn section_flags(&self, section: &Section) -> (flags: SectionFlags)
        ensures
            flags == self@.section_flags(section@),
    {
        match section.flags() {
            SectionFlags::Unset => self.default_section_flags(section),
            flags => flags,
        }
    }
}

impl Object {
    /// Set the data for an existing section.
    ///
    /// Must not be called for sections that already have data, or that contain uninitialized data.
    /// `align` must be a power of two.
    pub fn set_section_data(&mut self, section: SectionId, data: Vec<u8>, align: u64)
        requires
            old(self).wf(),
            old(self)@.can_set_section_data(section, align),
        ensures
            final(self)@ == old(self)@.set_section_data(section, data@, align),
            final(self).wf(),
    {
        let ghost before = self@;
        proof {
            assert(before.sections[section.0 as int].wf());
        }
        let target = self.section_mut(section);
        target.set_data(data, align);
        proof {
            crate::model::lemma_with_section_wf(
                before,
                section,
                before.sections[section.0 as int].set_data(data@, align),
            );
        }
    }

    /// Append data to an existing section. Returns the section offset of the data.
    ///
    /// Must not be called for sections that contain uninitialized data.
    /// `align` must be a power of two.
    pub fn append_section_data(&mut self, section: SectionId, data: &[u8], align: u64) -> (offset:
        u64)
        requires
            old(self).wf(),
            old(self)@.can_append_section_data(section, data@.len(), align),
        ensures
            offset == old(self)@.sections[section.0 as int].append_offset(align),
            offset as int % align as int == 0,
            final(self)@ == old(self)@.append_section_data(section, data@, align),
            final(self).wf(),
    {
        let ghost before = self@;
        proof {
            assert(before.sections[section.0 as int].wf());
        }
        let target = self.section_mut(section);
        let offset = target.append_data(data, align);
        proof {
            crate::model::lemma_with_section_wf(
                before,
                section,
                before.sections[section.0 as int].append_data(data@, align),
            );
        }
        offset
    }

    /// Append zero-initialized data to an existing section. Returns the section offset of the data.
    ///
    /// Must not be called for sections that contain initialized data.
    /// `align` must be a power of two.
    pub fn append_section_bss(&mut self, section: SectionId, size: u64, align: u64) -> (offset: u64)
        requires
            old(self).wf(),
            old(self)@.can_append_section_bss(section, size, align),
        ensures
            offset == old(self)@.sections[section.0 as int].append_offset(align),
            offset as int % align as int == 0,
            final(self)@ == old(self)@.append_section_bss(section, size, align),
            final(self).wf(),
    {
        let ghost before = self@;
        proof {
            assert(before.sections[section.0 as int].wf());
        }
        let target = self.section_mut(section);
        let offset = target.append_bss(size, align);
        proof {
            crate::model::lemma_with_section_wf(
                before,
                section,
                before.sections[section.0 as int].append_bss(size, align),
            );
        }
        offset
    }
}

impl Object {
    /// Get the symbol with the given `SymbolId`.
    #[inline]
    pub fn symbol(&self, symbol: SymbolId) -> (r: &Symbol)
        requires
            self@.has_symbol(symbol),
        ensures
            r@ == self@.symbols[symbol.0 as int],
    {
        &self.symbols[symbol.0]
    }

    /// Mutably get the symbol with the given `SymbolId`.
    ///
    /// The object is well formed again once the symbol is one that it accepts.
    #[inline]
    pub fn symbol_mut(&mut self, symbol: SymbolId) -> (r: &mut Symbol)
        requires
            old(self)@.has_symbol(symbol),
        ensures
            r@ == old(self)@.symbols[symbol.0 as int],
            final(self)@ == old(self)@.with_symbol(symbol, final(r)@),
    {
        let ghost before = self@;
        let r = &mut self.symbols[symbol.0];
        proof {
            assert(after_borrow(self)@.symbols =~= before.symbols.update(
                symbol.0 as int,
                final(r)@,
            ));
        }
        r
    }

    /// Get the `SymbolId` of the symbol with the given name.
    pub fn symbol_id(&self, name: &[u8]) -> (id: Option<SymbolId>)
        ensures
            id == self@.symbol_id(name@),
            self.wf() && id is Some ==> self@.has_symbol(id->0),
    {
        match name_index_get(&self.symbol_map, name) {
            Some(id) => Some(SymbolId(id)),
            None => None,
        }
    }

    /// Store one more symbol as it is given.
    fn add_raw_symbol(&mut self, symbol: Symbol) -> (id: SymbolId)
        requires
            old(self).wf(),
            old(self)@.accepts_symbol(symbol@),
        ensures
            id == old(self)@.next_symbol_id(),
            final(self)@ == old(self)@.add_raw_symbol(symbol@),
            final(self).wf(),
            old(self)@.symbols.len() < usize::MAX,
    {
        let ghost before = self@;
        let id = SymbolId(self.symbols.len());
        self.symbols.push(symbol);
        assert(self.symbols.len() == before.symbols.len() + 1);
        proof {
            assert(self@.symbols =~= before.symbols.push(symbol@));
            assert(self@.sections == before.sections);
            assert(self@.comdats == before.comdats);
            crate::model::lemma_add_raw_symbol_wf(before, symbol@);
        }
        id
    }

    /// Add a new file symbol and return its `SymbolId`.
    pub fn add_file_symbol(&mut self, name: Vec<u8>) -> (id: SymbolId)
        requires
            old(self).wf(),
        ensures
            id == old(self)@.next_symbol_id(),
            final(self)@ == old(self)@.add_raw_symbol(SymbolView::for_file(name@)),
            final(self).wf(),
            final(self)@.has_symbol(id),
    {
        self.add_raw_symbol(
            Symbol {
                name,
                value: 0,
                size: 0,
                kind: SymbolKind::File,
                scope: SymbolScope::Compilation,
                weak: false,
                section: SymbolSection::NotApplicable,
                flags: SymbolFlags::Unset,
            },
        )
    }

    /// Get the symbol for a section.
    ///
    /// The symbol is made the first time it is asked for.
    pub fn section_symbol(&mut self, section_id: SectionId) -> (id: SymbolId)
        requires
            old(self).wf(),
            old(self)@.has_section(section_id),
        ensures
            id == old(self)@.section_symbol(section_id).1,
            final(self)@ == old(self)@.section_symbol(section_id).0,
            final(self).wf(),
            final(self)@.has_symbol(id),
    {
        let ghost before = self@;
        proof {
            assert(before.section_refs_wf(section_id.0 as int));
        }
        match self.section(section_id).symbol() {
            Some(symbol) => symbol,
            None => {
                let name = if self.format == BinaryFormat::Coff {
                    bytes_to_vec(self.section(section_id).name_bytes())
                } else {
                    Vec::new()
                };
                let symbol_id = self.add_raw_symbol(
                    Symbol {
                        name,
                        value: 0,
                        size: 0,
                        kind: SymbolKind::Section,
                        scope: SymbolScope::Compilation,
                        weak: false,
                        section: SymbolSection::Section(section_id),
                        flags: SymbolFlags::Unset,
                    },
                );
                let target = self.section_mut(section_id);
                target.set_symbol(symbol_id);
                proof {
                    crate::model::lemma_section_symbol_wf(before, section_id);
                }
                symbol_id
            },
        }
    }

    /// Add a new symbol and return its `SymbolId`.
    ///
    /// If the symbol is a section symbol that is already defined,
    /// it will update the flags of the existing section symbol
    /// instead of adding a new symbol.
    ///
    /// The symbol name will be modified to include the global prefix
    /// if the mangling scheme has one.
    pub fn add_symbol(&mut self, symbol: Symbol) -> (id: SymbolId)
        requires
            old(self).wf(),
            old(self)@.can_add_symbol(symbol@),
        ensures
            id == old(self)@.add_symbol(symbol@).1,
            final(self)@ == old(self)@.add_symbol(symbol@).0,
            final(self).wf(),
            final(self)@.has_symbol(id),
    {
        let ghost before = self@;
        let ghost given = symbol@;
        let mut symbol = symbol;
        if symbol.kind == SymbolKind::Section {
            if let SymbolSection::Section(section) = symbol.section {
                let symbol_id = self.section_symbol(section);
                let _count = self.symbol_count();
                if !symbol.flags.is_unset() {
                    let target = self.symbol_mut(symbol_id);
                    target.flags = symbol.flags;
                }
                proof {
                    crate::model::lemma_section_symbol_wf(before, section);
                    crate::model::lemma_add_symbol_wf(before, given);
                }
                return symbol_id;
            }
        }
        if symbol.name.len() != 0 && (symbol.kind == SymbolKind::Text || symbol.kind
            == SymbolKind::Data || symbol.kind == SymbolKind::Tls) {
            let unmangled_name = bytes_to_vec(symbol.name.as_slice());
            match self.mangling.global_prefix() {
                Some(prefix) => {
                    symbol.name.insert(0, prefix);
                    assert(symbol.name@ =~= before.mangling.mangle(given.name));
                },
                None => {},
            }
            let symbol_id = self.add_raw_symbol(symbol);
            name_index_insert(&mut self.symbol_map, unmangled_name, symbol_id.0);
            proof {
                assert(self@.symbol_map =~= before.symbol_map.insert(given.name, symbol_id));
                crate::model::lemma_add_symbol_wf(before, given);
            }
            symbol_id
        } else {
            self.add_raw_symbol(symbol)
        }
    }

    /// Return the default flags for a symbol.
    ///
    /// The default flags are the symbol flags that will be written if the
    /// symbol flags are not set. These flags are determined
    /// by the file format and fields in the symbol such as the symbol kind and
    /// scope. Therefore you should call this function after the symbol
    /// has been fully defined.
    ///
    /// This may return `SymbolFlags::Unset` if the file format does not
    /// support symbol flags, or does not support the symbol kind or scope.
    pub fn default_symbol_flags(&self, symbol: &Symbol) -> (flags: SymbolFlags)
        ensures
            flags == policy::spec_symbol_flags(self@.format, symbol@),
    {
        policy::symbol_flags(self.format, symbol)
    }

    /// Return the flags for a symbol.
    ///
    /// If the flags of the symbol are not set, then returns
    /// [`Self::default_symbol_flags`].
    /// Otherwise, the flags of the symbol are returned as is.
    pub fn symbol_flags(&self, symbol: &Symbol) -> (flags: SymbolFlags)
        ensures
            flags == self@.symbol_flags(symbol@),
    {
        if !symbol.flags.is_unset() {
            symbol.flags
        } else {
            self.default_symbol_flags(symbol)
        }
    }

    /// Return true if the file format supports `StandardSection::UninitializedTls`.
    #[inline]
    pub fn has_uninitialized_tls(&self) -> (r: bool)
        ensures
            r == (self@.format != BinaryFormat::Coff),
    {
        self.format != BinaryFormat::Coff
    }

    /// Return true if the file format supports `StandardSection::Common`.
    #[inline]
    pub fn has_common(&self) -> (r: bool)
        ensures
            r == (self@.format == BinaryFormat::MachO),
    {
        self.format == BinaryFormat::MachO
    }

    /// Get the COMDAT section group with the given `ComdatId`.
    #[inline]
    pub fn comdat(&self, comdat: ComdatId) -> (r: &Comdat)
        requires
            self@.has_comdat(comdat),
        ensures
            r@ == self@.comdats[comdat.0 as int],
    {
        &self.comdats[comdat.0]
    }

    /// Mutably get the COMDAT section group with the given `ComdatId`.
    #[inline]
    pub fn comdat_mut(&mut self, comdat: ComdatId) -> (r: &mut Comdat)
        requires
            old(self)@.has_comdat(comdat),
        ensures
            r@ == old(self)@.comdats[comdat.0 as int],
            final(self)@ == old(self)@.with_comdat(comdat, final(r)@),
    {
        let ghost before = self@;
        let r = &mut self.comdats[comdat.0];
        proof {
            assert(after_borrow(self)@.comdats =~= before.comdats.update(
                comdat.0 as int,
                final(r)@,
            ));
        }
        r
    }

    /// Add a new COMDAT section group and return its `ComdatId`.
    pub fn add_comdat(&mut self, comdat: Comdat) -> (id: ComdatId)
        ensures
            id.0 == old(self)@.comdats.len(),
            final(self)@ == old(self)@.add_comdat(comdat@),
            old(self).wf() ==> final(self).wf(),
    {
        let ghost before = self@;
        let comdat_id = ComdatId(self.comdats.len());
        self.comdats.push(comdat);
        proof {
            let after = before.add_comdat(comdat@);
            assert(self@.comdats =~= after.comdats);
            assert(self@.sections == before.sections);
            assert(self@.symbols == before.symbols);
            if before.wf() {
                crate::model::lemma_add_comdat_wf(before, comdat@);
            }
        }
        comdat_id
    }
}

impl Object {
    /// Add a relocation after those that a section has.
    fn push_relocation(&mut self, section: SectionId, relocation: Relocation)
        requires
            old(self)@.has_section(section),
        ensures
            final(self)@ == old(self)@.push_relocation(section, relocation),
    {
        let target = self.section_mut(section);
        target.push_relocation(relocation);
    }

    /// Write the addend of a relocation into the data of a section, at the
    /// place of the relocation.
    fn write_relocation_addend(&mut self, section: SectionId, relocation: &Relocation) -> (r: Result<
        (),
        Error,
    >)
        requires
            old(self).wf(),
            old(self)@.format.is_writable(),
            old(self)@.has_section(section),
        ensures
            match old(self)@.write_relocation_addend(section, *relocation) {
                Ok(written) => r is Ok && final(self)@ == written,
                Err(e) => r == Err::<(), Error>(e) && final(self)@ == old(self)@,
            },
    {
        let ghost before = self@;
        let size = match policy::relocation_size(self.format, self.architecture, relocation.flags) {
            Ok(size) => size,
            Err(e) => {
                return Err(e);
            },
        };
        let width: usize = if size == 32 {
            4
        } else if size == 64 {
            8
        } else {
            return Err(Error::of_kind(ErrorKind::UnsupportedAddendSize));
        };
        assert(width == size / 8);
        let len: usize = self.section(section).data_len();
        if relocation.offset > len as u64 || (len as u64) - relocation.offset < (width as u64) {
            return Err(Error::invalid_offset(relocation.offset, size, len as u64));
        }
        let bytes = addend_bytes(relocation.addend, width, self.endian);
        proof {
            crate::relocation::lemma_le_bytes_len(
                crate::relocation::twos_complement(relocation.addend),
                width as nat,
            );
            assert(before.sections[section.0 as int].wf());
        }
        let target = self.section_mut(section);
        target.write_at(relocation.offset as usize, &bytes);
        Ok(())
    }

    /// Add a relocation to a section.
    ///
    /// Relocations must only be added after the referenced symbols have been added
    /// and defined (if applicable).
    ///
    /// On failure the object is left as it was.
    pub fn add_relocation(&mut self, section: SectionId, relocation: Relocation) -> (r: Result<
        (),
        Error,
    >)
        requires
            old(self).wf(),
            old(self)@.can_add_relocation(section, relocation),
        ensures
            match old(self)@.add_relocation(section, relocation) {
                Ok(added) => r is Ok && final(self)@ == added,
                Err(e) => r == Err::<(), Error>(e) && final(self)@ == old(self)@,
            },
            final(self).wf(),
    {
        let ghost before = self@;
        proof {
            crate::model::lemma_add_relocation_wf(before, section, relocation);
            crate::model::lemma_translation_keeps_target(
                before.format,
                before.architecture,
                relocation,
            );
        }
        let translated = match policy::translate(self.format, self.architecture, relocation) {
            Ok(translated) => translated,
            Err(e) => {
                return Err(e);
            },
        };
        let adjusted = match policy::adjust_addend(self.format, self.architecture, translated) {
            Ok(adjusted) => adjusted,
            Err(e) => {
                return Err(e);
            },
        };
        let mut stored = adjusted.relocation;
        if adjusted.implicit && stored.addend != 0 {
            match self.write_relocation_addend(section, &stored) {
                Ok(()) => {},
                Err(e) => {
                    return Err(e);
                },
            }
            stored.addend = 0;
        }
        let _count = self.section_count();
        self.push_relocation(section, stored);
        Ok(())
    }
}

impl Object {
    /// Get the Mach-O symbol `_tlv_bootstrap`, which is made the first time
    /// it is asked for.
    fn macho_tlv_bootstrap(&mut self) -> (id: SymbolId)
        requires
            old(self).wf(),
        ensures
            id == old(self)@.tlv_bootstrap().1,
            final(self)@ == old(self)@.tlv_bootstrap().0,
            final(self).wf(),
            final(self)@.has_symbol(id),
            final(self)@.sections == old(self)@.sections,
            final(self)@.format == old(self)@.format,
            final(self)@.architecture == old(self)@.architecture,
            old(self)@.symbols.len() <= final(self)@.symbols.len(),
            forall|i: int|
                0 <= i < old(self)@.symbols.len() ==> final(self)@.symbols[i] == old(
                    self,
                )@.symbols[i],
    {
        match self.tlv_bootstrap {
            Some(id) => id,
            None => {
                let id = self.add_symbol(
                    Symbol {
                        name: "_tlv_bootstrap".as_bytes_vec(),
                        value: 0,
                        size: 0,
                        kind: SymbolKind::Text,
                        scope: SymbolScope::Dynamic,
                        weak: false,
                        section: SymbolSection::Undefined,
                        flags: SymbolFlags::Unset,
                    },
                );
                let ghost added = self@;
                self.tlv_bootstrap = Some(id);
                proof {
                    crate::model::lemma_wf_of_parts(added, self@);
                }
                id
            },
        }
    }

    /// Make the Mach-O structure of a thread-local variable for a symbol,
    /// and return the symbol that data is to be attached to in its place.
    fn macho_add_thread_var(&mut self, symbol_id: SymbolId) -> (id: SymbolId)
        requires
            old(self).wf(),
            old(self)@.format == BinaryFormat::MachO,
            old(self)@.has_symbol(symbol_id),
            old(self)@.symbols[symbol_id.0 as int].scope != SymbolScope::Unknown,
            old(self)@.can_add_thread_var(symbol_id),
        ensures
            id == old(self)@.add_thread_var(symbol_id).1,
            final(self)@ == old(self)@.add_thread_var(symbol_id).0,
            final(self).wf(),
            final(self)@.has_symbol(id),
            final(self)@.symbols[id.0 as int].scope != SymbolScope::Unknown,
            old(self)@.sections.len() <= final(self)@.sections.len(),
    {
        let ghost before = self@;
        if self.symbol(symbol_id).kind != SymbolKind::Tls {
            return symbol_id;
        }
        // The symbol of the initializer.
        let mut name = bytes_to_vec(self.symbol(symbol_id).name.as_slice());
        append_bytes(&mut name, "$tlv$init".as_bytes());
        let init_symbol_id = self.add_raw_symbol(
            Symbol {
                name,
                value: 0,
                size: 0,
                kind: SymbolKind::Tls,
                scope: SymbolScope::Compilation,
                weak: false,
                section: SymbolSection::Undefined,
                flags: SymbolFlags::Unset,
            },
        );
        let ghost pushed = self@;
        // The structure: three addresses.
        let section = self.section_id(StandardSection::TlsVariables);
        let _count = self.section_count();
        let ghost made = self@;
        proof {
            crate::model::lemma_section_id_wf(pushed, StandardSection::TlsVariables);
            crate::model::lemma_tlv_relocation(before, section, 0, symbol_id);
        }
        let address_size: u8 = match self.architecture.address_size() {
            Some(size) => size.bytes(),
            None => 0,
        };
        assert(is_power_of_two(4)) by (bit_vector);
        assert(is_power_of_two(8)) by (bit_vector);
        let size: u64 = 3 * (address_size as u64);
        let mut data: Vec<u8> = Vec::new();
        append_zeros(&mut data, size as usize);
        assert(data@ =~= crate::bytes::zeros(size as nat));
        let offset = self.append_section_data(section, data.as_slice(), address_size as u64);
        let ghost appended = self@;
        let tlv_bootstrap = self.macho_tlv_bootstrap();
        proof {
            crate::model::lemma_tlv_relocation(self@, section, offset, tlv_bootstrap);
        }
        let first = self.add_relocation(
            section,
            Relocation {
                offset,
                symbol: tlv_bootstrap,
                addend: 0,
                flags: RelocationFlags::Generic {
                    kind: RelocationKind::Absolute,
                    encoding: RelocationEncoding::Generic,
                    size: address_size * 8,
                },
            },
        );
        proof {
            crate::model::lemma_add_relocation_wf(
                appended.tlv_bootstrap().0,
                section,
                tlv_relocation(offset, tlv_bootstrap, address_size),
            );
            crate::model::lemma_tlv_relocation(
                self@,
                section,
                (offset + 2 * address_size) as u64,
                init_symbol_id,
            );
        }
        let ghost once = self@;
        let second = self.add_relocation(
            section,
            Relocation {
                offset: offset + 2 * (address_size as u64),
                symbol: init_symbol_id,
                addend: 0,
                flags: RelocationFlags::Generic {
                    kind: RelocationKind::Absolute,
                    encoding: RelocationEncoding::Generic,
                    size: address_size * 8,
                },
            },
        );
        proof {
            crate::model::lemma_add_relocation_wf(
                once,
                section,
                tlv_relocation((offset + 2 * address_size) as u64, init_symbol_id, address_size),
            );
        }
        // The symbol points at the structure.
        let ghost twice = self@;
        let symbol = self.symbol_mut(symbol_id);
        symbol.value = offset;
        symbol.size = size;
        symbol.section = SymbolSection::Section(section);
        proof {
            assert(twice.symbol_wf(symbol_id.0 as int));
            crate::model::lemma_with_symbol_wf(
                twice,
                symbol_id,
                twice.symbols[symbol_id.0 as int].placed(section, offset, size),
            );
        }
        init_symbol_id
    }
}

impl Object {
    /// Update a symbol to refer to the given data within a section.
    ///
    /// For Mach-O, this also creates a `__thread_vars` entry for TLS symbols, and the
    /// symbol will indirectly point to the data via the `__thread_vars` entry.
    pub fn set_symbol_data(&mut self, symbol_id: SymbolId, section: SectionId, offset: u64, size: u64)
        requires
            old(self).wf(),
            old(self)@.can_set_symbol_data(symbol_id, section),
        ensures
            final(self)@ == old(self)@.set_symbol_data(symbol_id, section, offset, size),
            final(self).wf(),
    {
        let target = if self.format == BinaryFormat::MachO {
            self.macho_add_thread_var(symbol_id)
        } else {
            symbol_id
        };
        let ghost made = self@;
        let symbol = self.symbol_mut(target);
        symbol.value = offset;
        symbol.size = size;
        symbol.section = SymbolSection::Section(section);
        proof {
            assert(made.symbol_wf(target.0 as int));
            crate::model::lemma_with_symbol_wf(
                made,
                target,
                made.symbols[target.0 as int].placed(section, offset, size),
            );
        }
    }

    /// Append data to an existing section, and update a symbol to refer to it.
    ///
    /// For Mach-O, this also creates a `__thread_vars` entry for TLS symbols, and the
    /// symbol will indirectly point to the added data via the `__thread_vars` entry.
    ///
    /// For Mach-O, if [`Self::set_subsections_via_symbols`] is enabled, this will
    /// automatically ensure the data size is at least 1.
    ///
    /// Returns the section offset of the data.
    ///
    /// Must not be called for sections that contain uninitialized data.
    /// `align` must be a power of two.
    pub fn add_symbol_data(
        &mut self,
        symbol_id: SymbolId,
        section: SectionId,
        data: &[u8],
        align: u64,
    ) -> (offset: u64)
        requires
            old(self).wf(),
            old(self)@.can_add_symbol_data(symbol_id, section, data@, align),
        ensures
            offset == old(self)@.sections[section.0 as int].append_offset(align),
            offset as int % align as int == 0,
            final(self)@ == old(self)@.add_symbol_data(symbol_id, section, data@, align),
            final(self).wf(),
    {
        if data.len() == 0 && self.subsections_via_symbols {
            let one: Vec<u8> = vec![0u8];
            assert(one@ =~= seq![0u8]);
            let offset = self.append_section_data(section, one.as_slice(), align);
            self.set_symbol_data(symbol_id, section, offset, 1);
            offset
        } else {
            let offset = self.append_section_data(section, data, align);
            self.set_symbol_data(symbol_id, section, offset, data.len() as u64);
            offset
        }
    }

    /// Append zero-initialized data to an existing section, and update a symbol to refer to it.
    ///
    /// For Mach-O, this also creates a `__thread_vars` entry for TLS symbols, and the
    /// symbol will indirectly point to the added data via the `__thread_vars` entry.
    ///
    /// For Mach-O, if [`Self::set_subsections_via_symbols`] is enabled, this will
    /// automatically ensure the data size is at least 1.
    ///
    /// Returns the section offset of the data.
    ///
    /// Must not be called for sections that contain initialized data.
    /// `align` must be a power of two.
    pub fn add_symbol_bss(&mut self, symbol_id: SymbolId, section: SectionId, size: u64, align: u64) -> (offset:
        u64)
        requires
            old(self).wf(),
            old(self)@.can_add_symbol_bss(symbol_id, section, size, align),
        ensures
            offset == old(self)@.sections[section.0 as int].append_offset(align),
            offset as int % align as int == 0,
            final(self)@ == old(self)@.add_symbol_bss(symbol_id, section, size, align),
            final(self).wf(),
    {
        let space: u64 = if size == 0 && self.subsections_via_symbols {
            1
        } else {
            size
        };
        let offset = self.append_section_bss(section, space, align);
        self.set_symbol_data(symbol_id, section, offset, space);
        offset
    }

    /// Add a new common symbol and return its `SymbolId`.
    ///
    /// For Mach-O, this appends the symbol to the `__common` section.
    ///
    /// `align` must be a power of two.
    pub fn add_common_symbol(&mut self, symbol: Symbol, size: u64, align: u64) -> (id: SymbolId)
        requires
            old(self).wf(),
            old(self)@.can_add_common_symbol(symbol@, size, align),
        ensures
            id == old(self)@.add_common_symbol(symbol@, size, align).1,
            final(self)@ == old(self)@.add_common_symbol(symbol@, size, align).0,
            final(self).wf(),
            final(self)@.has_symbol(id),
    {
        if self.has_common() {
            let symbol_id = self.add_symbol(symbol);
            let section = self.section_id(StandardSection::Common);
            let _offset = self.add_symbol_bss(symbol_id, section, size, align);
            symbol_id
        } else {
            let mut symbol = symbol;
            symbol.section = SymbolSection::Common;
            symbol.size = size;
            self.add_symbol(symbol)
        }
    }

    /// Convert a symbol to a section symbol and offset.
    ///
    /// Returns `None` if the symbol does not have a section.
    pub fn symbol_section_and_offset(&mut self, symbol_id: SymbolId) -> (r: Option<(SymbolId, u64)>)
        requires
            old(self).wf(),
            old(self)@.has_symbol(symbol_id),
        ensures
            r == old(self)@.symbol_section_and_offset(symbol_id).1,
            final(self)@ == old(self)@.symbol_section_and_offset(symbol_id).0,
            final(self).wf(),
            match r {
                Some(found) => final(self)@.has_symbol(found.0),
                None => true,
            },
    {
        proof {
            assert(self@.symbol_wf(symbol_id.0 as int));
        }
        let symbol = self.symbol(symbol_id);
        if symbol.kind == SymbolKind::Section {
            return Some((symbol_id, 0));
        }
        let symbol_offset = symbol.value;
        match symbol.section {
            SymbolSection::Section(section) => {
                let section_symbol = self.section_symbol(section);
                Some((section_symbol, symbol_offset))
            },
            _ => None,
        }
    }
}

} // verus!
