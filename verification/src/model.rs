//! What an object holds, as plain values, and what each operation of the
//! builder makes of it.
//!
//! The functions of [`Object`](crate::object::Object) are specified by the
//! functions of [`ObjectView`] that bear their names.

use vstd::prelude::*;
use vstd::string::*;
use crate::bytes::zeros;
use crate::comdat::ComdatView;
use crate::common::{
    Architecture, BinaryFormat, Endianness, FileFlags, RelocationEncoding, RelocationFlags,
    RelocationKind, SectionFlags, SectionKind, SubArchitecture, SymbolKind, SymbolScope,
};
use crate::error::{Error, ErrorKind};
use crate::ids::{ComdatId, SectionId, SymbolId};
use crate::policy::{
    macho, spec_adjust_addend, spec_relocation_size, spec_section_flags, spec_section_info,
    spec_subsection_name, spec_symbol_flags, spec_translate,
};
use crate::relocation::{encode_addend, patch, Relocation};
use crate::section::{spec_is_power_of_two, SectionView, StandardSection};
use crate::symbol::{Mangling, SymbolFlags, SymbolSection, SymbolView};

verus! {

/// What an object holds.
pub struct ObjectView {
    pub format: BinaryFormat,
    pub architecture: Architecture,
    pub sub_architecture: Option<SubArchitecture>,
    pub endian: Endianness,
    pub sections: Seq<SectionView>,
    /// The section that stands for each standard section that has one.
    pub standard_sections: Map<StandardSection, SectionId>,
    pub symbols: Seq<SymbolView>,
    /// The symbols that can be found by name, under the names that their
    /// makers gave them.
    pub symbol_map: Map<Seq<u8>, SymbolId>,
    pub comdats: Seq<ComdatView>,
    pub flags: FileFlags,
    pub mangling: Mangling,
    /// The Mach-O symbol `_tlv_bootstrap`, once it has been made.
    pub tlv_bootstrap: Option<SymbolId>,
    /// True if Mach-O subsections via symbols have been switched on.
    pub subsections_via_symbols: bool,
}

/// The Mach-O symbol that the structures of thread-local variables refer to.
pub open spec fn tlv_bootstrap_symbol() -> SymbolView {
    SymbolView {
        name: "_tlv_bootstrap".spec_bytes(),
        value: 0,
        size: 0,
        kind: SymbolKind::Text,
        scope: SymbolScope::Dynamic,
        weak: false,
        section: SymbolSection::Undefined,
        flags: SymbolFlags::Unset,
    }
}

/// The Mach-O symbol for the initializer of the thread-local symbol of the
/// given name, as it is made.
pub open spec fn tlv_init_symbol(name: Seq<u8>) -> SymbolView {
    SymbolView {
        name: name + "$tlv$init".spec_bytes(),
        value: 0,
        size: 0,
        kind: SymbolKind::Tls,
        scope: SymbolScope::Compilation,
        weak: false,
        section: SymbolSection::Undefined,
        flags: SymbolFlags::Unset,
    }
}

/// The relocation of one address of a structure of a thread-local variable.
pub open spec fn tlv_relocation(offset: u64, symbol: SymbolId, address_bytes: u8) -> Relocation {
    Relocation {
        offset,
        symbol,
        addend: 0,
        flags: RelocationFlags::Generic {
            kind: RelocationKind::Absolute,
            encoding: RelocationEncoding::Generic,
            size: (address_bytes * 8) as u8,
        },
    }
}

impl ObjectView {
    /// The object that `new` makes: empty, with the mangling of its format.
    pub open spec fn new(
        format: BinaryFormat,
        architecture: Architecture,
        endian: Endianness,
    ) -> ObjectView {
        ObjectView {
            format,
            architecture,
            sub_architecture: None,
            endian,
            sections: Seq::empty(),
            standard_sections: Map::empty(),
            symbols: Seq::empty(),
            symbol_map: Map::empty(),
            comdats: Seq::empty(),
            flags: FileFlags::Unset,
            mangling: Mangling::default(format, architecture),
            tlv_bootstrap: None,
            subsections_via_symbols: false,
        }
    }

    /// True if `id` is the identifier of a section of the object.
    pub open spec fn has_section(self, id: SectionId) -> bool {
        id.0 < self.sections.len()
    }

    /// True if `id` is the identifier of a symbol of the object.
    pub open spec fn has_symbol(self, id: SymbolId) -> bool {
        id.0 < self.symbols.len()
    }

    /// True if `id` is the identifier of a COMDAT group of the object.
    pub open spec fn has_comdat(self, id: ComdatId) -> bool {
        id.0 < self.comdats.len()
    }

    /// True if the section at position `i` is the one that the object's
    /// format has for the standard section: same segment, name and kind.
    pub open spec fn section_matches(self, i: int, role: StandardSection) -> bool {
        spec_section_info(self.format, role).matches(
            self.sections[i].segment,
            self.sections[i].name,
            self.sections[i].kind,
        )
    }

    /// A standard section is stood for by the first section that matches
    /// it, and by none where no section matches.
    pub open spec fn standard_section_wf(self, role: StandardSection) -> bool {
        if self.standard_sections.contains_key(role) {
            let id = self.standard_sections[role];
            &&& self.has_section(id)
            &&& self.section_matches(id.0 as int, role)
            &&& forall|j: int| 0 <= j < id.0 ==> !self.section_matches(j, role)
        } else {
            forall|j: int| 0 <= j < self.sections.len() ==> !self.section_matches(j, role)
        }
    }

    /// True if every identifier that the section holds is one of the object.
    pub open spec fn section_refs_wf(self, i: int) -> bool {
        &&& match self.sections[i].symbol {
            Some(symbol) => self.has_symbol(symbol),
            None => true,
        }
        &&& forall|j: int|
            0 <= j < self.sections[i].relocations.len() ==> self.has_symbol(
                #[trigger] self.sections[i].relocations[j].symbol,
            )
    }

    /// True if the symbol at position `i` is well formed and lies in a
    /// section of the object, if it lies in one.
    pub open spec fn symbol_wf(self, i: int) -> bool {
        &&& self.symbols[i].wf()
        &&& match self.symbols[i].section {
            SymbolSection::Section(section) => self.has_section(section),
            _ => true,
        }
    }

    /// The invariant of an object: every section and symbol is well formed,
    /// no identifier dangles, and the standard sections are those that the
    /// sections determine.
    pub open spec fn wf(self) -> bool {
        &&& forall|i: int| 0 <= i < self.sections.len() ==> (#[trigger] self.sections[i]).wf()
        &&& forall|i: int| 0 <= i < self.sections.len() ==> #[trigger] self.section_refs_wf(i)
        &&& forall|i: int| 0 <= i < self.symbols.len() ==> #[trigger] self.symbol_wf(i)
        &&& forall|name: Seq<u8>| #[trigger]
            self.symbol_map.contains_key(name) ==> self.has_symbol(self.symbol_map[name])
        &&& match self.tlv_bootstrap {
            Some(symbol) => self.has_symbol(symbol),
            None => true,
        }
        &&& forall|role: StandardSection| #[trigger] self.standard_section_wf(role)
    }

    /// The identifier that the next section gets.
    pub open spec fn next_section_id(self) -> SectionId {
        SectionId(self.sections.len() as usize)
    }

    /// The identifier that the next symbol gets.
    pub open spec fn next_symbol_id(self) -> SymbolId {
        SymbolId(self.symbols.len() as usize)
    }

    /// The object with another section in the place of one.
    pub open spec fn with_section(self, id: SectionId, section: SectionView) -> ObjectView {
        ObjectView { sections: self.sections.update(id.0 as int, section), ..self }
    }

    /// The object with another symbol in the place of one.
    pub open spec fn with_symbol(self, id: SymbolId, symbol: SymbolView) -> ObjectView {
        ObjectView { symbols: self.symbols.update(id.0 as int, symbol), ..self }
    }

    /// The object with another COMDAT group in the place of one.
    pub open spec fn with_comdat(self, id: ComdatId, comdat: ComdatView) -> ObjectView {
        ObjectView { comdats: self.comdats.update(id.0 as int, comdat), ..self }
    }

    /// The object with one more symbol, stored as it is given.
    pub open spec fn add_raw_symbol(self, symbol: SymbolView) -> ObjectView {
        ObjectView { symbols: self.symbols.push(symbol), ..self }
    }

    /// The object after `add_section`. The new section is empty. It comes to
    /// stand for every standard section that it matches and that no section
    /// stood for before.
    pub open spec fn add_section(
        self,
        segment: Seq<u8>,
        name: Seq<u8>,
        kind: SectionKind,
    ) -> ObjectView {
        let id = self.next_section_id();
        ObjectView {
            sections: self.sections.push(SectionView::new(segment, name, kind)),
            standard_sections: Map::new(
                |role: StandardSection|
                    self.standard_sections.contains_key(role) || spec_section_info(
                        self.format,
                        role,
                    ).matches(segment, name, kind),
                |role: StandardSection|
                    if self.standard_sections.contains_key(role) {
                        self.standard_sections[role]
                    } else {
                        id
                    },
            ),
            ..self
        }
    }

    /// The object after `section_id`, and the identifier it returns: that
    /// of the section that stands for the standard section, which is made,
    /// with the flags of the format, where there was none.
    pub open spec fn section_id(self, role: StandardSection) -> (ObjectView, SectionId) {
        if self.standard_sections.contains_key(role) {
            (self, self.standard_sections[role])
        } else {
            let info = spec_section_info(self.format, role);
            let id = self.next_section_id();
            let added = self.add_section(info.segment, info.name, info.kind);
            (added.with_section(id, added.sections[id.0 as int].with_flags(info.flags)), id)
        }
    }

    /// The object after `add_subsection`, and the identifier it returns.
    /// Where the format tells subsections apart by symbols, that is the
    /// standard section; elsewhere it is a new section, with the name that
    /// the format gives the subsection.
    pub open spec fn add_subsection(self, role: StandardSection, name: Seq<u8>) -> (
        ObjectView,
        SectionId,
    ) {
        if self.format == BinaryFormat::MachO {
            self.section_id(role)
        } else {
            let info = spec_section_info(self.format, role);
            let id = self.next_section_id();
            let added = self.add_section(
                info.segment,
                spec_subsection_name(self.format, info.name, name),
                info.kind,
            );
            (added.with_section(id, added.sections[id.0 as int].with_flags(info.flags)), id)
        }
    }

    /// What `set_section_data` requires: a section of bytes that has none yet.
    pub open spec fn can_set_section_data(self, id: SectionId, align: u64) -> bool {
        &&& self.has_section(id)
        &&& !self.sections[id.0 as int].kind.is_bss()
        &&& self.sections[id.0 as int].data.len() == 0
        &&& spec_is_power_of_two(align)
    }

    /// The object after `set_section_data`.
    pub open spec fn set_section_data(self, id: SectionId, data: Seq<u8>, align: u64) -> ObjectView {
        self.with_section(id, self.sections[id.0 as int].set_data(data, align))
    }

    /// What `append_section_data` requires: a section of bytes, an
    /// alignment that is a power of two, and a size that the machine can hold.
    pub open spec fn can_append_section_data(self, id: SectionId, len: nat, align: u64) -> bool {
        &&& self.has_section(id)
        &&& !self.sections[id.0 as int].kind.is_bss()
        &&& spec_is_power_of_two(align)
        &&& self.sections[id.0 as int].append_offset(align) + len <= usize::MAX
    }

    /// The object after `append_section_data`.
    pub open spec fn append_section_data(self, id: SectionId, data: Seq<u8>, align: u64) -> ObjectView {
        self.with_section(id, self.sections[id.0 as int].append_data(data, align))
    }

    /// What `append_section_bss` requires: a section of zero-fill space, an
    /// alignment that is a power of two, and a size that fits 64 bits.
    pub open spec fn can_append_section_bss(self, id: SectionId, size: u64, align: u64) -> bool {
        &&& self.has_section(id)
        &&& self.sections[id.0 as int].kind.is_bss()
        &&& spec_is_power_of_two(align)
        &&& self.sections[id.0 as int].append_offset(align) + size <= u64::MAX
    }

    /// The object after `append_section_bss`.
    pub open spec fn append_section_bss(self, id: SectionId, size: u64, align: u64) -> ObjectView {
        self.with_section(id, self.sections[id.0 as int].append_bss(size, align))
    }

    /// The object after `section_symbol`, and the identifier it returns:
    /// that of the symbol of the section, which is made where there was
    /// none. The symbol is local, at offset 0 of the section, and bears the
    /// name of the section in COFF and no name elsewhere.
    pub open spec fn section_symbol(self, id: SectionId) -> (ObjectView, SymbolId) {
        match self.sections[id.0 as int].symbol {
            Some(symbol) => (self, symbol),
            None => {
                let name = if self.format == BinaryFormat::Coff {
                    self.sections[id.0 as int].name
                } else {
                    Seq::empty()
                };
                let symbol = self.next_symbol_id();
                (
                    self.add_raw_symbol(SymbolView::for_section(name, id)).with_section(
                        id,
                        self.sections[id.0 as int].with_symbol(symbol),
                    ),
                    symbol,
                )
            },
        }
    }

    /// True if the symbol can be stored in the object: it is well formed,
    /// and the section that it lies in, if any, is one of the object.
    pub open spec fn accepts_symbol(self, symbol: SymbolView) -> bool {
        &&& symbol.wf()
        &&& match symbol.section {
            SymbolSection::Section(section) => self.has_section(section),
            _ => true,
        }
    }

    /// What `add_symbol` requires: a symbol that the object accepts, which
    /// lies in a section if it is a section symbol.
    pub open spec fn can_add_symbol(self, symbol: SymbolView) -> bool {
        &&& self.accepts_symbol(symbol)
        &&& symbol.kind == SymbolKind::Section ==> symbol.section is Section
    }

    /// The object after `add_symbol`, and the identifier it returns.
    ///
    /// A section symbol is not added: the symbol of its section takes its
    /// place, and takes its flags if it has any. A symbol that can be found
    /// by name is entered in the map of names under the name given, and
    /// stored under the mangled name. Any other symbol is stored as it is.
    pub open spec fn add_symbol(self, symbol: SymbolView) -> (ObjectView, SymbolId) {
        if symbol.kind == SymbolKind::Section {
            match symbol.section {
                SymbolSection::Section(section) => {
                    let (made, id) = self.section_symbol(section);
                    if symbol.flags != SymbolFlags::Unset {
                        (
                            made.with_symbol(
                                id,
                                SymbolView { flags: symbol.flags, ..made.symbols[id.0 as int] },
                            ),
                            id,
                        )
                    } else {
                        (made, id)
                    }
                },
                _ => (self, self.next_symbol_id()),
            }
        } else if symbol.is_linkable() {
            let id = self.next_symbol_id();
            (
                ObjectView {
                    symbols: self.symbols.push(
                        SymbolView { name: self.mangling.mangle(symbol.name), ..symbol },
                    ),
                    symbol_map: self.symbol_map.insert(symbol.name, id),
                    ..self
                },
                id,
            )
        } else {
            (self.add_raw_symbol(symbol), self.next_symbol_id())
        }
    }

    /// The identifier that `symbol_id` returns for a name.
    pub open spec fn symbol_id(self, name: Seq<u8>) -> Option<SymbolId> {
        if self.symbol_map.contains_key(name) {
            Some(self.symbol_map[name])
        } else {
            None
        }
    }

    /// The object after `add_comdat`.
    pub open spec fn add_comdat(self, comdat: ComdatView) -> ObjectView {
        ObjectView { comdats: self.comdats.push(comdat), ..self }
    }

    /// The object with one more relocation in a section.
    pub open spec fn push_relocation(self, section: SectionId, relocation: Relocation) -> ObjectView {
        self.with_section(section, self.sections[section.0 as int].push_relocation(relocation))
    }

    /// What `add_relocation` requires: a section and a symbol of the object.
    pub open spec fn can_add_relocation(self, section: SectionId, relocation: Relocation) -> bool {
        &&& self.format.is_writable()
        &&& self.has_section(section)
        &&& self.has_symbol(relocation.symbol)
    }

    /// The object after the addend of a relocation was written into the
    /// data of a section, at the place of the relocation: in the byte order
    /// of the object and the width of the relocation, which must be 32 or
    /// 64 bits. The write fails where it would end beyond the data.
    pub open spec fn write_relocation_addend(
        self,
        section: SectionId,
        relocation: Relocation,
    ) -> Result<ObjectView, Error> {
        let data = self.sections[section.0 as int].data;
        match spec_relocation_size(self.format, self.architecture, relocation.flags) {
            Err(e) => Err(e),
            Ok(size) => if size != 32 && size != 64 {
                Err(Error::of_kind(ErrorKind::UnsupportedAddendSize))
            } else if relocation.offset + size / 8 > data.len() {
                Err(Error::invalid_offset(relocation.offset, size, data.len() as u64))
            } else {
                Ok(
                    self.with_section(
                        section,
                        self.sections[section.0 as int].with_data(
                            patch(
                                data,
                                relocation.offset as int,
                                encode_addend(relocation.addend, (size / 8) as nat, self.endian),
                            ),
                        ),
                    ),
                )
            },
        }
    }

    /// The outcome of `add_relocation`: the object with the relocation
    /// added, or the reason why it cannot be added.
    ///
    /// The relocation is translated to the fields of the format, and its
    /// addend is counted as the format counts it. Where the format keeps the
    /// addend in the section data and the addend is not zero, it is written
    /// there, and the relocation is stored with the addend zero. The
    /// relocation comes after those that the section has.
    pub open spec fn add_relocation(self, section: SectionId, relocation: Relocation) -> Result<
        ObjectView,
        Error,
    > {
        match spec_translate(self.format, self.architecture, relocation) {
            Err(e) => Err(e),
            Ok(translated) => match spec_adjust_addend(self.format, self.architecture, translated) {
                Err(e) => Err(e),
                Ok(adjusted) => if adjusted.implicit && adjusted.relocation.addend != 0 {
                    match self.write_relocation_addend(section, adjusted.relocation) {
                        Err(e) => Err(e),
                        Ok(written) => Ok(
                            written.push_relocation(
                                section,
                                Relocation { addend: 0, ..adjusted.relocation },
                            ),
                        ),
                    }
                } else {
                    Ok(self.push_relocation(section, adjusted.relocation))
                },
            },
        }
    }

    /// The object after the Mach-O symbol `_tlv_bootstrap` was asked for,
    /// and its identifier. The symbol is made where there was none:
    /// undefined code of dynamic scope.
    pub open spec fn tlv_bootstrap(self) -> (ObjectView, SymbolId) {
        match self.tlv_bootstrap {
            Some(id) => (self, id),
            None => {
                let (added, id) = self.add_symbol(tlv_bootstrap_symbol());
                (ObjectView { tlv_bootstrap: Some(id), ..added }, id)
            },
        }
    }

    /// The number of bytes of an address in the object, or 0 where the
    /// architecture does not say.
    pub open spec fn address_bytes(self) -> u8 {
        match self.architecture.address_size() {
            Some(size) => size.bytes(),
            None => 0,
        }
    }

    /// The section of thread-local variable structures, as it is before the
    /// structure of the symbol is added.
    pub open spec fn thread_vars_before(self, symbol_id: SymbolId) -> (ObjectView, SectionId) {
        self.add_raw_symbol(tlv_init_symbol(self.symbols[symbol_id.0 as int].name)).section_id(
            StandardSection::TlsVariables,
        )
    }

    /// What Mach-O requires of a symbol that data is attached to: where the
    /// symbol is thread-local, Mach-O must have relocations for the
    /// architecture, and the machine must be able to hold the section of
    /// thread-local variable structures with one more structure.
    pub open spec fn can_add_thread_var(self, symbol_id: SymbolId) -> bool {
        self.symbols[symbol_id.0 as int].kind == SymbolKind::Tls ==> {
            let (made, section) = self.thread_vars_before(symbol_id);
            &&& macho::spec_supports(self.architecture)
            &&& made.sections[section.0 as int].append_offset(self.address_bytes() as u64) + 3
                * self.address_bytes() <= usize::MAX
        }
    }

    /// The object after Mach-O made the thread-local variable structure of a
    /// symbol, and the identifier of the symbol that the data is to be
    /// attached to in its place.
    ///
    /// A symbol that is not thread-local has no structure: it stays as it is.
    /// For a thread-local symbol, a local symbol for its initializer is made,
    /// named after it. A structure of three addresses is appended to the
    /// section of thread-local variable structures: its first address is
    /// relocated to `_tlv_bootstrap`, its third to the initializer. The
    /// symbol itself is placed at the structure, and the initializer is
    /// returned.
    pub open spec fn add_thread_var(self, symbol_id: SymbolId) -> (ObjectView, SymbolId) {
        if self.symbols[symbol_id.0 as int].kind != SymbolKind::Tls {
            (self, symbol_id)
        } else {
            let init_id = self.next_symbol_id();
            let (made, section) = self.thread_vars_before(symbol_id);
            let address = self.address_bytes();
            let size = (3 * address) as u64;
            let offset = made.sections[section.0 as int].append_offset(address as u64) as u64;
            let appended = made.append_section_data(section, zeros(size as nat), address as u64);
            let (with_bootstrap, bootstrap) = appended.tlv_bootstrap();
            let first = with_bootstrap.add_relocation(
                section,
                tlv_relocation(offset, bootstrap, address),
            )->Ok_0;
            let second = first.add_relocation(
                section,
                tlv_relocation((offset + 2 * address) as u64, init_id, address),
            )->Ok_0;
            (
                second.with_symbol(
                    symbol_id,
                    second.symbols[symbol_id.0 as int].placed(section, offset, size),
                ),
                init_id,
            )
        }
    }

    /// What `set_symbol_data` requires: a section of the object, and a
    /// symbol of the object that has a scope.
    pub open spec fn can_set_symbol_data(self, symbol_id: SymbolId, section: SectionId) -> bool {
        &&& self.has_symbol(symbol_id)
        &&& self.has_section(section)
        &&& self.symbols[symbol_id.0 as int].scope != SymbolScope::Unknown
        &&& self.format == BinaryFormat::MachO ==> self.can_add_thread_var(symbol_id)
    }

    /// The object after `set_symbol_data`: the symbol is placed at the
    /// offset of the section, with the size. In Mach-O the initializer of a
    /// thread-local symbol is placed there in its stead.
    pub open spec fn set_symbol_data(
        self,
        symbol_id: SymbolId,
        section: SectionId,
        offset: u64,
        size: u64,
    ) -> ObjectView {
        let (made, target) = if self.format == BinaryFormat::MachO {
            self.add_thread_var(symbol_id)
        } else {
            (self, symbol_id)
        };
        made.with_symbol(target, made.symbols[target.0 as int].placed(section, offset, size))
    }

    /// The bytes that are attached to a symbol: those given, or one zero
    /// byte in their place where none are given and subsections via symbols
    /// are switched on, so that no two symbols share a place.
    pub open spec fn symbol_data(self, data: Seq<u8>) -> Seq<u8> {
        if data.len() == 0 && self.subsections_via_symbols {
            seq![0u8]
        } else {
            data
        }
    }

    /// The amount of zero-fill space that is attached to a symbol: that
    /// given, or one byte in place of none where subsections via symbols are
    /// switched on.
    pub open spec fn symbol_bss(self, size: u64) -> u64 {
        if size == 0 && self.subsections_via_symbols {
            1
        } else {
            size
        }
    }

    /// What `add_symbol_data` requires: what the append to the section
    /// requires, and what `set_symbol_data` requires after it.
    pub open spec fn can_add_symbol_data(
        self,
        symbol_id: SymbolId,
        section: SectionId,
        data: Seq<u8>,
        align: u64,
    ) -> bool {
        &&& self.can_append_section_data(section, self.symbol_data(data).len(), align)
        &&& self.append_section_data(section, self.symbol_data(data), align).can_set_symbol_data(
            symbol_id,
            section,
        )
    }

    /// The object after `add_symbol_data`: the bytes are appended to the
    /// section, and the symbol is placed at them.
    pub open spec fn add_symbol_data(
        self,
        symbol_id: SymbolId,
        section: SectionId,
        data: Seq<u8>,
        align: u64,
    ) -> ObjectView {
        let bytes = self.symbol_data(data);
        self.append_section_data(section, bytes, align).set_symbol_data(
            symbol_id,
            section,
            self.sections[section.0 as int].append_offset(align) as u64,
            bytes.len() as u64,
        )
    }

    /// What `add_symbol_bss` requires: what the append to the section
    /// requires, and what `set_symbol_data` requires after it.
    pub open spec fn can_add_symbol_bss(
        self,
        symbol_id: SymbolId,
        section: SectionId,
        size: u64,
        align: u64,
    ) -> bool {
        &&& self.can_append_section_bss(section, self.symbol_bss(size), align)
        &&& self.append_section_bss(section, self.symbol_bss(size), align).can_set_symbol_data(
            symbol_id,
            section,
        )
    }

    /// The object after `add_symbol_bss`: the space is appended to the
    /// section, and the symbol is placed at it.
    pub open spec fn add_symbol_bss(
        self,
        symbol_id: SymbolId,
        section: SectionId,
        size: u64,
        align: u64,
    ) -> ObjectView {
        let space = self.symbol_bss(size);
        self.append_section_bss(section, space, align).set_symbol_data(
            symbol_id,
            section,
            self.sections[section.0 as int].append_offset(align) as u64,
            space,
        )
    }

    /// What `add_common_symbol` requires. Where the format has a section
    /// for common data, the symbol must be one that can be added, and the
    /// space one that can be attached to it in that section. Elsewhere the
    /// symbol must have a scope.
    pub open spec fn can_add_common_symbol(self, symbol: SymbolView, size: u64, align: u64) -> bool {
        if self.format == BinaryFormat::MachO {
            let (added, id) = self.add_symbol(symbol);
            let (made, section) = added.section_id(StandardSection::Common);
            &&& self.can_add_symbol(symbol)
            &&& made.can_add_symbol_bss(id, section, size, align)
        } else {
            self.can_add_symbol(SymbolView { section: SymbolSection::Common, size, ..symbol })
        }
    }

    /// The object after `add_common_symbol`, and the identifier it
    /// returns. Where the format has a section for common data, the symbol
    /// is added and space for it is appended to that section. Elsewhere the
    /// symbol is added as common data of the given size.
    pub open spec fn add_common_symbol(self, symbol: SymbolView, size: u64, align: u64) -> (
        ObjectView,
        SymbolId,
    ) {
        if self.format == BinaryFormat::MachO {
            let (added, id) = self.add_symbol(symbol);
            let (made, section) = added.section_id(StandardSection::Common);
            (made.add_symbol_bss(id, section, size, align), id)
        } else {
            self.add_symbol(SymbolView { section: SymbolSection::Common, size, ..symbol })
        }
    }

    /// The object after `symbol_section_and_offset`, and what it returns:
    /// for a section symbol, the symbol itself and offset 0; for any other
    /// symbol that lies in a section, the symbol of that section, which is
    /// made where there was none, and the value of the symbol; for a symbol
    /// that lies in no section, nothing.
    pub open spec fn symbol_section_and_offset(self, symbol_id: SymbolId) -> (
        ObjectView,
        Option<(SymbolId, u64)>,
    ) {
        let symbol = self.symbols[symbol_id.0 as int];
        if symbol.kind == SymbolKind::Section {
            (self, Some((symbol_id, 0u64)))
        } else {
            match symbol.section {
                SymbolSection::Section(section) => {
                    let (made, section_symbol) = self.section_symbol(section);
                    (made, Some((section_symbol, symbol.value)))
                },
                _ => (self, None),
            }
        }
    }

    /// The flags that `section_flags` returns for a section: those set on
    /// it, or those that the format gives its kind where none are set.
    pub open spec fn section_flags(self, section: SectionView) -> SectionFlags {
        if section.flags != SectionFlags::Unset {
            section.flags
        } else {
            spec_section_flags(self.format, section.kind)
        }
    }

    /// The flags that `symbol_flags` returns for a symbol: those set on it,
    /// or those that the format gives it where none are set.
    pub open spec fn symbol_flags(self, symbol: SymbolView) -> SymbolFlags {
        if symbol.flags != SymbolFlags::Unset {
            symbol.flags
        } else {
            spec_symbol_flags(self.format, symbol)
        }
    }
}

/// Adding a section keeps the object well formed.
pub proof fn lemma_add_section_wf(
    object: ObjectView,
    segment: Seq<u8>,
    name: Seq<u8>,
    kind: SectionKind,
)
    requires
        object.wf(),
        object.sections.len() < usize::MAX,
    ensures
        object.add_section(segment, name, kind).wf(),
{
    let added = object.add_section(segment, name, kind);
    let n = object.sections.len() as int;
    assert(SectionView::new(segment, name, kind).wf()) by {
        assert(spec_is_power_of_two(1)) by (bit_vector);
    }
    assert forall|i: int| 0 <= i < added.sections.len() implies (#[trigger] added.sections[i]).wf() by {
        if i < n {
            assert(object.sections[i].wf());
        }
    }
    assert forall|i: int| 0 <= i < added.sections.len() implies #[trigger] added.section_refs_wf(
        i,
    ) by {
        if i < n {
            assert(object.section_refs_wf(i));
        }
    }
    assert forall|i: int| 0 <= i < added.symbols.len() implies #[trigger] added.symbol_wf(i) by {
        assert(object.symbol_wf(i));
    }
    assert forall|role: StandardSection| #[trigger] added.standard_section_wf(role) by {
        assert(object.standard_section_wf(role));
        assert forall|j: int| 0 <= j < n implies added.section_matches(j, role)
            == object.section_matches(j, role) by {}
    }
}

/// Putting a well-formed section in the place of one that differs from it
/// in data, size, alignment and flags only keeps the object well formed.
pub proof fn lemma_with_section_wf(object: ObjectView, id: SectionId, section: SectionView)
    requires
        object.wf(),
        object.has_section(id),
        section.wf(),
        section.same_identity(object.sections[id.0 as int]),
    ensures
        object.with_section(id, section).wf(),
{
    let after = object.with_section(id, section);
    assert forall|i: int| 0 <= i < after.sections.len() implies (#[trigger] after.sections[i]).wf() by {
        if i != id.0 {
            assert(object.sections[i].wf());
        }
    }
    assert forall|i: int| 0 <= i < after.sections.len() implies #[trigger] after.section_refs_wf(
        i,
    ) by {
        assert(object.section_refs_wf(i));
    }
    assert forall|i: int| 0 <= i < after.symbols.len() implies #[trigger] after.symbol_wf(i) by {
        assert(object.symbol_wf(i));
    }
    assert forall|role: StandardSection| #[trigger] after.standard_section_wf(role) by {
        assert(object.standard_section_wf(role));
        assert forall|j: int| 0 <= j < object.sections.len() implies after.section_matches(j, role)
            == object.section_matches(j, role) by {}
    }
}

/// Asking for a standard section keeps the object well formed, and the
/// section returned is one of the object, of the kind that the format has
/// for the standard section.
pub proof fn lemma_section_id_wf(object: ObjectView, role: StandardSection)
    requires
        object.wf(),
        object.section_id(role).0.sections.len() <= usize::MAX,
    ensures
        object.section_id(role).0.wf(),
        object.section_id(role).0.has_section(object.section_id(role).1),
        object.section_id(role).0.sections[object.section_id(role).1.0 as int].kind
            == spec_section_info(object.format, role).kind,
        object.section_id(role).0.standard_sections.contains_key(role),
        object.section_id(role).0.standard_sections[role] == object.section_id(role).1,
        object.sections.len() <= object.section_id(role).0.sections.len(),
        object.section_id(role).0.symbols == object.symbols,
{
    assert(object.standard_section_wf(role));
    if !object.standard_sections.contains_key(role) {
        let info = spec_section_info(object.format, role);
        let id = object.next_section_id();
        let added = object.add_section(info.segment, info.name, info.kind);
        lemma_add_section_wf(object, info.segment, info.name, info.kind);
        let flagged = added.sections[id.0 as int].with_flags(info.flags);
        assert(added.sections[id.0 as int].wf());
        lemma_with_section_wf(added, id, flagged);
    }
}

/// Adding a subsection keeps the object well formed, and the section
/// returned is one of the object, of the kind of the standard section.
pub proof fn lemma_add_subsection_wf(object: ObjectView, role: StandardSection, name: Seq<u8>)
    requires
        object.wf(),
        object.add_subsection(role, name).0.sections.len() <= usize::MAX,
    ensures
        object.add_subsection(role, name).0.wf(),
        object.add_subsection(role, name).0.has_section(object.add_subsection(role, name).1),
{
    if object.format == BinaryFormat::MachO {
        lemma_section_id_wf(object, role);
    } else {
        let info = spec_section_info(object.format, role);
        let id = object.next_section_id();
        let sub = spec_subsection_name(object.format, info.name, name);
        let added = object.add_section(info.segment, sub, info.kind);
        lemma_add_section_wf(object, info.segment, sub, info.kind);
        assert(added.sections[id.0 as int].wf());
        lemma_with_section_wf(added, id, added.sections[id.0 as int].with_flags(info.flags));
    }
}

/// Storing one more symbol that the object accepts keeps it well formed.
pub proof fn lemma_add_raw_symbol_wf(object: ObjectView, symbol: SymbolView)
    requires
        object.wf(),
        object.accepts_symbol(symbol),
    ensures
        object.add_raw_symbol(symbol).wf(),
{
    let after = object.add_raw_symbol(symbol);
    assert forall|i: int| 0 <= i < after.sections.len() implies #[trigger] after.section_refs_wf(
        i,
    ) by {
        assert(object.section_refs_wf(i));
    }
    assert forall|i: int| 0 <= i < after.symbols.len() implies #[trigger] after.symbol_wf(i) by {
        if i < object.symbols.len() {
            assert(object.symbol_wf(i));
        }
    }
    assert forall|role: StandardSection| #[trigger] after.standard_section_wf(role) by {
        assert(object.standard_section_wf(role));
        assert forall|j: int| 0 <= j < object.sections.len() implies after.section_matches(j, role)
            == object.section_matches(j, role) by {}
    }
}

/// Putting a symbol that the object accepts in the place of one keeps the
/// object well formed.
pub proof fn lemma_with_symbol_wf(object: ObjectView, id: SymbolId, symbol: SymbolView)
    requires
        object.wf(),
        object.has_symbol(id),
        object.accepts_symbol(symbol),
    ensures
        object.with_symbol(id, symbol).wf(),
{
    let after = object.with_symbol(id, symbol);
    assert forall|i: int| 0 <= i < after.sections.len() implies #[trigger] after.section_refs_wf(
        i,
    ) by {
        assert(object.section_refs_wf(i));
    }
    assert forall|i: int| 0 <= i < after.symbols.len() implies #[trigger] after.symbol_wf(i) by {
        if i != id.0 {
            assert(object.symbol_wf(i));
        }
    }
    assert forall|role: StandardSection| #[trigger] after.standard_section_wf(role) by {
        assert(object.standard_section_wf(role));
        assert forall|j: int| 0 <= j < object.sections.len() implies after.section_matches(j, role)
            == object.section_matches(j, role) by {}
    }
}

/// Asking for the symbol of a section keeps the object well formed, and the
/// symbol returned is one of the object. No section is added.
pub proof fn lemma_section_symbol_wf(object: ObjectView, id: SectionId)
    requires
        object.wf(),
        object.has_section(id),
        object.section_symbol(id).0.symbols.len() <= usize::MAX,
    ensures
        object.section_symbol(id).0.wf(),
        object.section_symbol(id).0.has_symbol(object.section_symbol(id).1),
        object.section_symbol(id).0.sections.len() == object.sections.len(),
        object.section_symbol(id).0.sections[id.0 as int].symbol == Some(
            object.section_symbol(id).1,
        ),
        object.symbols.len() <= object.section_symbol(id).0.symbols.len(),
{
    assert(object.section_refs_wf(id.0 as int));
    if object.sections[id.0 as int].symbol is None {
        let name = if object.format == BinaryFormat::Coff {
            object.sections[id.0 as int].name
        } else {
            Seq::empty()
        };
        let symbol = object.next_symbol_id();
        let pushed = object.add_raw_symbol(SymbolView::for_section(name, id));
        lemma_add_raw_symbol_wf(object, SymbolView::for_section(name, id));
        let after = pushed.with_section(id, object.sections[id.0 as int].with_symbol(symbol));
        assert(object.sections[id.0 as int].wf());
        assert forall|i: int| 0 <= i < after.sections.len() implies (#[trigger] after.sections[i]).wf() by {
            if i != id.0 {
                assert(pushed.sections[i].wf());
            }
        }
        assert forall|i: int| 0 <= i < after.sections.len() implies #[trigger] after.section_refs_wf(
            i,
        ) by {
            assert(pushed.section_refs_wf(i));
        }
        assert forall|i: int| 0 <= i < after.symbols.len() implies #[trigger] after.symbol_wf(i) by {
            assert(pushed.symbol_wf(i));
        }
        assert forall|role: StandardSection| #[trigger] after.standard_section_wf(role) by {
            assert(pushed.standard_section_wf(role));
            assert forall|j: int| 0 <= j < object.sections.len() implies after.section_matches(
                j,
                role,
            ) == pushed.section_matches(j, role) by {}
        }
    }
}

/// Adding a symbol keeps the object well formed, and the symbol returned is
/// one of the object. No section is added.
pub proof fn lemma_add_symbol_wf(object: ObjectView, symbol: SymbolView)
    requires
        object.wf(),
        object.can_add_symbol(symbol),
        object.add_symbol(symbol).0.symbols.len() <= usize::MAX,
    ensures
        object.add_symbol(symbol).0.wf(),
        object.add_symbol(symbol).0.has_symbol(object.add_symbol(symbol).1),
        object.add_symbol(symbol).0.sections.len() == object.sections.len(),
        object.symbols.len() <= object.add_symbol(symbol).0.symbols.len(),
{
    if symbol.kind == SymbolKind::Section {
        match symbol.section {
            SymbolSection::Section(section) => {
                lemma_section_symbol_wf(object, section);
                let (made, id) = object.section_symbol(section);
                if symbol.flags != SymbolFlags::Unset {
                    assert(made.symbol_wf(id.0 as int));
                    lemma_with_symbol_wf(
                        made,
                        id,
                        SymbolView { flags: symbol.flags, ..made.symbols[id.0 as int] },
                    );
                }
            },
            _ => {},
        }
    } else if symbol.is_linkable() {
        let id = object.next_symbol_id();
        let stored = SymbolView { name: object.mangling.mangle(symbol.name), ..symbol };
        let pushed = object.add_raw_symbol(stored);
        lemma_add_raw_symbol_wf(object, stored);
        let after = object.add_symbol(symbol).0;
        assert(after == ObjectView { symbol_map: object.symbol_map.insert(symbol.name, id), ..pushed });
        assert forall|i: int| 0 <= i < after.sections.len() implies #[trigger] after.section_refs_wf(
            i,
        ) by {
            assert(pushed.section_refs_wf(i));
        }
        assert forall|i: int| 0 <= i < after.symbols.len() implies #[trigger] after.symbol_wf(i) by {
            assert(pushed.symbol_wf(i));
        }
        assert forall|role: StandardSection| #[trigger] after.standard_section_wf(role) by {
            assert(pushed.standard_section_wf(role));
            assert forall|j: int| 0 <= j < object.sections.len() implies after.section_matches(
                j,
                role,
            ) == pushed.section_matches(j, role) by {}
        }
    } else {
        lemma_add_raw_symbol_wf(object, symbol);
    }
}

/// Adding a COMDAT group keeps the object well formed.
pub proof fn lemma_add_comdat_wf(object: ObjectView, comdat: ComdatView)
    requires
        object.wf(),
    ensures
        object.add_comdat(comdat).wf(),
{
    let after = object.add_comdat(comdat);
    assert forall|i: int| 0 <= i < after.sections.len() implies #[trigger] after.section_refs_wf(
        i,
    ) by {
        assert(object.section_refs_wf(i));
    }
    assert forall|i: int| 0 <= i < after.symbols.len() implies #[trigger] after.symbol_wf(i) by {
        assert(object.symbol_wf(i));
    }
    assert forall|role: StandardSection| #[trigger] after.standard_section_wf(role) by {
        assert(object.standard_section_wf(role));
        assert forall|j: int| 0 <= j < object.sections.len() implies after.section_matches(j, role)
            == object.section_matches(j, role) by {}
    }
}

/// Adding a relocation that refers to a symbol of the object keeps the
/// object well formed.
pub proof fn lemma_push_relocation_wf(object: ObjectView, section: SectionId, relocation: Relocation)
    requires
        object.wf(),
        object.has_section(section),
        object.has_symbol(relocation.symbol),
    ensures
        object.push_relocation(section, relocation).wf(),
{
    let after = object.push_relocation(section, relocation);
    assert forall|i: int| 0 <= i < after.sections.len() implies (#[trigger] after.sections[i]).wf() by {
        assert(object.sections[i].wf());
    }
    assert forall|i: int| 0 <= i < after.sections.len() implies #[trigger] after.section_refs_wf(
        i,
    ) by {
        assert(object.section_refs_wf(i));
        if i == section.0 {
            let before = object.sections[i].relocations;
            assert forall|j: int| 0 <= j < after.sections[i].relocations.len() implies after.has_symbol(
                #[trigger] after.sections[i].relocations[j].symbol,
            ) by {
                if j < before.len() {
                    assert(object.has_symbol(before[j].symbol));
                }
            }
        }
    }
    assert forall|i: int| 0 <= i < after.symbols.len() implies #[trigger] after.symbol_wf(i) by {
        assert(object.symbol_wf(i));
    }
    assert forall|role: StandardSection| #[trigger] after.standard_section_wf(role) by {
        assert(object.standard_section_wf(role));
        assert forall|j: int| 0 <= j < object.sections.len() implies after.section_matches(j, role)
            == object.section_matches(j, role) by {}
    }
}

/// The translation of a relocation and the count of its addend leave the
/// symbol and the place of the relocation as they are.
pub proof fn lemma_translation_keeps_target(
    format: BinaryFormat,
    architecture: Architecture,
    relocation: Relocation,
)
    ensures
        match spec_translate(format, architecture, relocation) {
            Ok(translated) => {
                &&& translated.symbol == relocation.symbol
                &&& translated.offset == relocation.offset
                &&& translated.addend == relocation.addend
                &&& match spec_adjust_addend(format, architecture, translated) {
                    Ok(adjusted) => adjusted.relocation.symbol == relocation.symbol
                        && adjusted.relocation.offset == relocation.offset
                        && adjusted.relocation.flags == translated.flags,
                    Err(_) => true,
                }
            },
            Err(_) => true,
        },
{
}

/// Writing the addend of a relocation keeps the object well formed, and
/// changes the data of the section only.
pub proof fn lemma_write_relocation_addend_wf(
    object: ObjectView,
    section: SectionId,
    relocation: Relocation,
)
    requires
        object.wf(),
        object.has_section(section),
    ensures
        match object.write_relocation_addend(section, relocation) {
            Ok(written) => {
                &&& written.wf()
                &&& written.symbols == object.symbols
                &&& written.sections.len() == object.sections.len()
                &&& !object.sections[section.0 as int].kind.is_bss()
                &&& written.sections[section.0 as int].data.len()
                    == object.sections[section.0 as int].data.len()
            },
            Err(_) => true,
        },
{
    match object.write_relocation_addend(section, relocation) {
        Ok(written) => {
            let size = spec_relocation_size(object.format, object.architecture, relocation.flags)->Ok_0;
            let old_section = object.sections[section.0 as int];
            assert(old_section.wf());
            crate::relocation::lemma_le_bytes_len(
                crate::relocation::twos_complement(relocation.addend),
                (size / 8) as nat,
            );
            let bytes = encode_addend(relocation.addend, (size / 8) as nat, object.endian);
            assert(bytes.len() == size / 8);
            let data = patch(old_section.data, relocation.offset as int, bytes);
            assert(data.len() == old_section.data.len());
            lemma_with_section_wf(object, section, old_section.with_data(data));
        },
        Err(_) => {},
    }
}

/// Adding a relocation keeps the object well formed.
pub proof fn lemma_add_relocation_wf(object: ObjectView, section: SectionId, relocation: Relocation)
    requires
        object.wf(),
        object.can_add_relocation(section, relocation),
    ensures
        match object.add_relocation(section, relocation) {
            Ok(added) => {
                &&& added.wf()
                &&& added.symbols == object.symbols
                &&& added.sections.len() == object.sections.len()
            },
            Err(_) => true,
        },
{
    lemma_translation_keeps_target(object.format, object.architecture, relocation);
    match spec_translate(object.format, object.architecture, relocation) {
        Ok(translated) => match spec_adjust_addend(object.format, object.architecture, translated) {
            Ok(adjusted) => {
                if adjusted.implicit && adjusted.relocation.addend != 0 {
                    lemma_write_relocation_addend_wf(object, section, adjusted.relocation);
                    match object.write_relocation_addend(section, adjusted.relocation) {
                        Ok(written) => {
                            lemma_push_relocation_wf(
                                written,
                                section,
                                Relocation { addend: 0, ..adjusted.relocation },
                            );
                        },
                        Err(_) => {},
                    }
                } else {
                    lemma_push_relocation_wf(object, section, adjusted.relocation);
                }
            },
            Err(_) => {},
        },
        Err(_) => {},
    }
}

/// Whether an object is well formed depends only on its format, sections,
/// symbols, maps and bootstrap symbol.
pub proof fn lemma_wf_of_parts(object: ObjectView, other: ObjectView)
    requires
        object.wf(),
        other.format == object.format,
        other.sections == object.sections,
        other.symbols == object.symbols,
        other.symbol_map == object.symbol_map,
        other.standard_sections == object.standard_sections,
        match other.tlv_bootstrap {
            Some(symbol) => other.has_symbol(symbol),
            None => true,
        },
    ensures
        other.wf(),
{
    assert forall|i: int| 0 <= i < other.sections.len() implies #[trigger] other.section_refs_wf(
        i,
    ) by {
        assert(object.section_refs_wf(i));
    }
    assert forall|i: int| 0 <= i < other.symbols.len() implies #[trigger] other.symbol_wf(i) by {
        assert(object.symbol_wf(i));
    }
    assert forall|role: StandardSection| #[trigger] other.standard_section_wf(role) by {
        assert(object.standard_section_wf(role));
        assert forall|j: int| 0 <= j < object.sections.len() implies other.section_matches(j, role)
            == object.section_matches(j, role) by {}
    }
}

/// In Mach-O, on an architecture that it has relocations for, the
/// relocation of an address of a structure of a thread-local variable can
/// be added, and nothing is written into the section for it.
pub proof fn lemma_tlv_relocation(
    object: ObjectView,
    section: SectionId,
    offset: u64,
    symbol: SymbolId,
)
    requires
        object.format == BinaryFormat::MachO,
        macho::spec_supports(object.architecture),
    ensures
        object.add_relocation(
            section,
            tlv_relocation(offset, symbol, object.address_bytes()),
        ) is Ok,
        3 * object.address_bytes() <= 24,
        object.address_bytes() == 4 || object.address_bytes() == 8,
{
    let relocation = tlv_relocation(offset, symbol, object.address_bytes());
    let translated = spec_translate(object.format, object.architecture, relocation);
    assert(translated is Ok);
    let adjusted = spec_adjust_addend(object.format, object.architecture, translated->Ok_0);
    assert(adjusted is Ok);
    assert(adjusted->Ok_0.relocation.addend == 0);
}

} // verus!
