use object_write::{
    Architecture, BinaryFormat, Comdat, ComdatId, ComdatKind, Endianness, Mangling, Object,
    SectionId, SectionKind, StandardSection, Symbol, SymbolFlags, SymbolId, SymbolKind,
    SymbolScope, SymbolSection,
};

fn object(format: BinaryFormat, architecture: Architecture) -> Object {
    Object::new(format, architecture, Endianness::Little)
}

fn symbol(name: &[u8], kind: SymbolKind) -> Symbol {
    Symbol {
        name: name.to_vec(),
        value: 0,
        size: 0,
        kind,
        scope: SymbolScope::Linkage,
        weak: false,
        section: SymbolSection::Undefined,
        flags: SymbolFlags::Unset,
    }
}

#[test]
fn default_mangling_per_format() {
    assert_eq!(Mangling::default(BinaryFormat::Coff, Architecture::I386), Mangling::CoffI386);
    assert_eq!(Mangling::default(BinaryFormat::Coff, Architecture::X86_64), Mangling::Coff);
    assert_eq!(Mangling::default(BinaryFormat::Elf, Architecture::I386), Mangling::Elf);
    assert_eq!(Mangling::default(BinaryFormat::MachO, Architecture::Aarch64), Mangling::MachO);
    assert_eq!(Mangling::default(BinaryFormat::Xcoff, Architecture::PowerPc64), Mangling::Xcoff);
    assert_eq!(Mangling::default(BinaryFormat::Pe, Architecture::I386), Mangling::Plain);
    assert_eq!(Mangling::default(BinaryFormat::Wasm, Architecture::Wasm32), Mangling::Plain);
}

#[test]
fn global_prefix_per_mangling() {
    assert_eq!(Mangling::Plain.global_prefix(), None);
    assert_eq!(Mangling::Elf.global_prefix(), None);
    assert_eq!(Mangling::Coff.global_prefix(), None);
    assert_eq!(Mangling::Xcoff.global_prefix(), None);
    assert_eq!(Mangling::CoffI386.global_prefix(), Some(b'_'));
    assert_eq!(Mangling::MachO.global_prefix(), Some(b'_'));
}

#[test]
fn symbol_section_id() {
    assert_eq!(SymbolSection::Section(SectionId(3)).id(), Some(SectionId(3)));
    assert_eq!(SymbolSection::NotApplicable.id(), None);
    assert_eq!(SymbolSection::Undefined.id(), None);
    assert_eq!(SymbolSection::Absolute.id(), None);
    assert_eq!(SymbolSection::Common.id(), None);
}

#[test]
fn symbol_predicates() {
    let mut s = symbol(b"f", SymbolKind::Text);
    assert!(s.is_undefined());
    assert!(!s.is_common());
    assert!(!s.is_local());
    assert_eq!(s.name(), Some("f"));
    s.section = SymbolSection::Common;
    s.scope = SymbolScope::Compilation;
    assert!(!s.is_undefined());
    assert!(s.is_common());
    assert!(s.is_local());
    s.name = vec![0x80];
    assert_eq!(s.name(), None);
    assert!(SymbolFlags::Unset.is_unset());
    assert!(!SymbolFlags::MachO { n_desc: 0 }.is_unset());
}

#[test]
fn linkable_symbol_is_found_by_name() {
    let mut object = object(BinaryFormat::Elf, Architecture::X86_64);
    assert_eq!(object.symbol_id(b"main"), None);
    let id = object.add_symbol(symbol(b"main", SymbolKind::Text));
    assert_eq!(id, SymbolId(0));
    assert_eq!(object.symbol_id(b"main"), Some(id));
    assert_eq!(object.symbol_id(b"mai"), None);
    assert_eq!(object.symbol_id(b""), None);
    assert_eq!(object.symbol(id).name, b"main".to_vec());
    let data = object.add_symbol(symbol(b"table", SymbolKind::Data));
    let tls = object.add_symbol(symbol(b"local", SymbolKind::Tls));
    assert_eq!(object.symbol_id(b"table"), Some(data));
    assert_eq!(object.symbol_id(b"local"), Some(tls));
    assert_eq!(object.symbol_count(), 3);
}

#[test]
fn later_symbol_of_a_name_is_found() {
    let mut object = object(BinaryFormat::Elf, Architecture::X86_64);
    let first = object.add_symbol(symbol(b"twice", SymbolKind::Text));
    let second = object.add_symbol(symbol(b"twice", SymbolKind::Data));
    assert_ne!(first, second);
    assert_eq!(object.symbol_id(b"twice"), Some(second));
    assert_eq!(object.symbol_count(), 2);
}

#[test]
fn global_prefix_is_stored_and_not_looked_up() {
    let mut macho = object(BinaryFormat::MachO, Architecture::X86_64);
    let mut elf = object(BinaryFormat::Elf, Architecture::X86_64);
    let mut coff = object(BinaryFormat::Coff, Architecture::I386);
    let in_macho = macho.add_symbol(symbol(b"foo", SymbolKind::Text));
    let in_elf = elf.add_symbol(symbol(b"foo", SymbolKind::Text));
    let in_coff = coff.add_symbol(symbol(b"foo", SymbolKind::Text));
    assert_eq!(in_macho, in_elf);
    assert_eq!(in_coff, in_elf);
    assert_eq!(macho.symbol_id(b"foo"), Some(in_macho));
    assert_eq!(elf.symbol_id(b"foo"), Some(in_elf));
    assert_eq!(coff.symbol_id(b"foo"), Some(in_coff));
    assert_eq!(macho.symbol_id(b"_foo"), None);
    assert_eq!(macho.symbol(in_macho).name, b"_foo".to_vec());
    assert_eq!(coff.symbol(in_coff).name, b"_foo".to_vec());
    assert_eq!(elf.symbol(in_elf).name, b"foo".to_vec());
    // The mangling at the time of the call decides.
    macho.set_mangling(Mangling::Plain);
    let bare = macho.add_symbol(symbol(b"bar", SymbolKind::Data));
    assert_eq!(macho.symbol(bare).name, b"bar".to_vec());
    assert_eq!(macho.symbol_id(b"bar"), Some(bare));
}

#[test]
fn symbols_that_are_not_linkable_are_stored_as_given() {
    let mut object = object(BinaryFormat::MachO, Architecture::X86_64);
    let unnamed = object.add_symbol(symbol(b"", SymbolKind::Text));
    let label = object.add_symbol(symbol(b"here", SymbolKind::Label));
    let unknown = object.add_symbol(symbol(b"here", SymbolKind::Unknown));
    assert_eq!(object.symbol(unnamed).name, b"".to_vec());
    assert_eq!(object.symbol(label).name, b"here".to_vec());
    assert_eq!(object.symbol(unknown).name, b"here".to_vec());
    assert_eq!(object.symbol_id(b""), None);
    assert_eq!(object.symbol_id(b"here"), None);
    assert_eq!(object.symbol_count(), 3);
}

#[test]
fn file_symbol() {
    let mut object = object(BinaryFormat::Elf, Architecture::X86_64);
    let id = object.add_file_symbol(b"main.c".to_vec());
    let again = object.add_file_symbol(b"main.c".to_vec());
    assert_ne!(id, again);
    let s = object.symbol(id);
    assert_eq!(s.name, b"main.c".to_vec());
    assert_eq!(s.value, 0);
    assert_eq!(s.size, 0);
    assert_eq!(s.kind, SymbolKind::File);
    assert_eq!(s.scope, SymbolScope::Compilation);
    assert!(!s.weak);
    assert_eq!(s.section, SymbolSection::NotApplicable);
    assert_eq!(s.flags, SymbolFlags::Unset);
    assert_eq!(object.symbol_id(b"main.c"), None);
}

#[test]
fn section_symbol_is_made_once() {
    let mut object = object(BinaryFormat::Elf, Architecture::X86_64);
    let text = object.section_id(StandardSection::Text);
    assert_eq!(object.section(text).symbol(), None);
    let id = object.section_symbol(text);
    assert_eq!(object.section_symbol(text), id);
    assert_eq!(object.symbol_count(), 1);
    assert_eq!(object.section(text).symbol(), Some(id));
    let s = object.symbol(id);
    assert_eq!(s.name, b"".to_vec());
    assert_eq!(s.kind, SymbolKind::Section);
    assert_eq!(s.scope, SymbolScope::Compilation);
    assert_eq!(s.section, SymbolSection::Section(text));
    assert_eq!(s.value, 0);
    assert_eq!(s.size, 0);
}

#[test]
fn coff_section_symbol_bears_the_section_name() {
    let mut object = object(BinaryFormat::Coff, Architecture::X86_64);
    let text = object.section_id(StandardSection::Text);
    let id = object.section_symbol(text);
    assert_eq!(object.symbol(id).name, b".text".to_vec());
    assert_eq!(object.symbol_id(b".text"), None);
}

#[test]
fn adding_a_section_symbol_twice_adds_one() {
    let mut object = object(BinaryFormat::Elf, Architecture::X86_64);
    let text = object.section_id(StandardSection::Text);
    let data = object.section_id(StandardSection::Data);
    let mut first = symbol(b"ignored", SymbolKind::Section);
    first.scope = SymbolScope::Compilation;
    first.section = SymbolSection::Section(text);
    let id = object.add_symbol(first);
    assert_eq!(object.symbol_count(), 1);
    assert_eq!(object.symbol(id).flags, SymbolFlags::Unset);
    assert_eq!(object.symbol(id).name, b"".to_vec());

    let mut second = symbol(b"", SymbolKind::Section);
    second.scope = SymbolScope::Compilation;
    second.section = SymbolSection::Section(text);
    second.flags = SymbolFlags::Elf { st_info: 3, st_other: 2 };
    assert_eq!(object.add_symbol(second), id);
    assert_eq!(object.symbol_count(), 1);
    assert_eq!(object.symbol(id).flags, SymbolFlags::Elf { st_info: 3, st_other: 2 });

    // A symbol without flags leaves the flags as they are.
    let mut third = symbol(b"", SymbolKind::Section);
    third.scope = SymbolScope::Compilation;
    third.section = SymbolSection::Section(text);
    assert_eq!(object.add_symbol(third), id);
    assert_eq!(object.symbol_count(), 1);
    assert_eq!(object.symbol(id).flags, SymbolFlags::Elf { st_info: 3, st_other: 2 });
    assert_eq!(object.section_symbol(text), id);

    let mut other = symbol(b"", SymbolKind::Section);
    other.scope = SymbolScope::Compilation;
    other.section = SymbolSection::Section(data);
    let other_id = object.add_symbol(other);
    assert_ne!(other_id, id);
    assert_eq!(object.symbol_count(), 2);
}

#[test]
fn symbol_mut_changes_a_symbol() {
    let mut object = object(BinaryFormat::Elf, Architecture::X86_64);
    let id = object.add_symbol(symbol(b"f", SymbolKind::Text));
    object.symbol_mut(id).weak = true;
    object.symbol_mut(id).name.push(b'2');
    assert!(object.symbol(id).weak);
    assert_eq!(object.symbol(id).name, b"f2".to_vec());
    assert_eq!(object.symbol_id(b"f"), Some(id));
}

#[test]
fn set_symbol_data_places_the_symbol() {
    let mut object = object(BinaryFormat::Elf, Architecture::X86_64);
    let text = object.section_id(StandardSection::Text);
    let id = object.add_symbol(symbol(b"f", SymbolKind::Text));
    object.set_symbol_data(id, text, 16, 4);
    let s = object.symbol(id);
    assert_eq!(s.value, 16);
    assert_eq!(s.size, 4);
    assert_eq!(s.section, SymbolSection::Section(text));
    assert_eq!(s.name, b"f".to_vec());
    assert_eq!(s.kind, SymbolKind::Text);
    assert_eq!(object.symbol_count(), 1);
}

#[test]
fn elf_tls_symbol_needs_no_structure() {
    let mut object = object(BinaryFormat::Elf, Architecture::X86_64);
    let tdata = object.section_id(StandardSection::Tls);
    let id = object.add_symbol(symbol(b"t", SymbolKind::Tls));
    let offset = object.add_symbol_data(id, tdata, &[1, 2, 3, 4], 4);
    assert_eq!(offset, 0);
    assert_eq!(object.symbol(id).section, SymbolSection::Section(tdata));
    assert_eq!(object.symbol(id).size, 4);
    assert_eq!(object.section_count(), 1);
    assert_eq!(object.symbol_count(), 1);
}

#[test]
fn add_symbol_data_appends_and_places() {
    let mut object = object(BinaryFormat::Elf, Architecture::X86_64);
    let text = object.section_id(StandardSection::Text);
    let f = object.add_symbol(symbol(b"f", SymbolKind::Text));
    let g = object.add_symbol(symbol(b"g", SymbolKind::Text));
    let empty = object.add_symbol(symbol(b"e", SymbolKind::Text));
    assert_eq!(object.add_symbol_data(f, text, &[0x90, 0x90, 0xc3], 16), 0);
    assert_eq!(object.add_symbol_data(g, text, &[0xc3], 16), 16);
    assert_eq!(object.add_symbol_data(empty, text, &[], 1), 17);
    assert_eq!(object.symbol(f).value, 0);
    assert_eq!(object.symbol(f).size, 3);
    assert_eq!(object.symbol(g).value, 16);
    assert_eq!(object.symbol(g).size, 1);
    assert_eq!(object.symbol(empty).value, 17);
    assert_eq!(object.symbol(empty).size, 0);
    assert_eq!(object.section(text).size(), 17);
    assert_eq!(object.section(text).align(), 16);
    assert_eq!(object.section(text).data()[..3], [0x90, 0x90, 0xc3]);
    assert_eq!(object.section(text).data()[16], 0xc3);
}

#[test]
fn add_symbol_bss_appends_and_places() {
    let mut object = object(BinaryFormat::Elf, Architecture::X86_64);
    let bss = object.section_id(StandardSection::UninitializedData);
    let a = object.add_symbol(symbol(b"a", SymbolKind::Data));
    let b = object.add_symbol(symbol(b"b", SymbolKind::Data));
    assert_eq!(object.add_symbol_bss(a, bss, 10, 8), 0);
    assert_eq!(object.add_symbol_bss(b, bss, 0, 4), 12);
    assert_eq!(object.symbol(a).size, 10);
    assert_eq!(object.symbol(b).value, 12);
    assert_eq!(object.symbol(b).size, 0);
    assert_eq!(object.section(bss).size(), 12);
}

#[test]
fn subsections_via_symbols_give_every_symbol_a_byte() {
    let mut object = object(BinaryFormat::MachO, Architecture::X86_64);
    object.set_subsections_via_symbols();
    let text = object.section_id(StandardSection::Text);
    let bss = object.section_id(StandardSection::UninitializedData);
    let a = object.add_symbol(symbol(b"a", SymbolKind::Text));
    let b = object.add_symbol(symbol(b"b", SymbolKind::Text));
    let c = object.add_symbol(symbol(b"c", SymbolKind::Data));
    assert_eq!(object.add_symbol_data(a, text, &[], 1), 0);
    assert_eq!(object.add_symbol_data(b, text, &[], 1), 1);
    assert_eq!(object.symbol(a).size, 1);
    assert_eq!(object.symbol(b).value, 1);
    assert_eq!(object.section(text).data(), &[0, 0]);
    assert_eq!(object.add_symbol_bss(c, bss, 0, 1), 0);
    assert_eq!(object.symbol(c).size, 1);
    assert_eq!(object.section(bss).size(), 1);
}

#[test]
fn subsections_via_symbols_are_for_macho_only() {
    let mut object = object(BinaryFormat::Elf, Architecture::X86_64);
    object.set_subsections_via_symbols();
    let text = object.section_id(StandardSection::Text);
    let a = object.add_symbol(symbol(b"a", SymbolKind::Text));
    assert_eq!(object.add_symbol_data(a, text, &[], 1), 0);
    assert_eq!(object.symbol(a).size, 0);
    assert_eq!(object.section(text).size(), 0);
}

#[test]
fn common_symbol_without_a_common_section() {
    let mut object = object(BinaryFormat::Elf, Architecture::X86_64);
    let id = object.add_common_symbol(symbol(b"buffer", SymbolKind::Data), 64, 16);
    let s = object.symbol(id);
    assert_eq!(s.section, SymbolSection::Common);
    assert_eq!(s.size, 64);
    assert_eq!(s.value, 0);
    assert_eq!(object.section_count(), 0);
    assert_eq!(object.symbol_id(b"buffer"), Some(id));
}

#[test]
fn macho_common_symbol_lies_in_the_common_section() {
    let mut object = object(BinaryFormat::MachO, Architecture::X86_64);
    let first = object.add_common_symbol(symbol(b"one", SymbolKind::Data), 10, 4);
    let second = object.add_common_symbol(symbol(b"two", SymbolKind::Data), 64, 16);
    let common = object.section_id(StandardSection::Common);
    assert_eq!(object.section_count(), 1);
    assert_eq!(object.section(common).name(), Some("__common"));
    assert_eq!(object.section(common).kind(), SectionKind::Common);
    assert_eq!(object.section(common).size(), 80);
    assert_eq!(object.section(common).align(), 16);
    assert_eq!(object.symbol(first).section, SymbolSection::Section(common));
    assert_eq!(object.symbol(first).value, 0);
    assert_eq!(object.symbol(first).size, 10);
    assert_eq!(object.symbol(second).value, 16);
    assert_eq!(object.symbol(second).size, 64);
    assert_eq!(object.symbol(second).name, b"_two".to_vec());
}

#[test]
fn symbol_section_and_offset() {
    let mut object = object(BinaryFormat::Elf, Architecture::X86_64);
    let text = object.section_id(StandardSection::Text);
    let f = object.add_symbol(symbol(b"f", SymbolKind::Text));
    let undefined = object.add_symbol(symbol(b"u", SymbolKind::Text));
    object.append_section_data(text, &[0; 8], 1);
    object.add_symbol_data(f, text, &[0xc3], 1);
    assert_eq!(object.symbol_section_and_offset(undefined), None);
    assert_eq!(object.symbol_count(), 2);
    let (section_symbol, offset) = object.symbol_section_and_offset(f).unwrap();
    assert_eq!(offset, 8);
    assert_eq!(object.symbol_count(), 3);
    assert_eq!(object.section_symbol(text), section_symbol);
    assert_eq!(object.symbol(section_symbol).kind, SymbolKind::Section);
    assert_eq!(
        object.symbol_section_and_offset(section_symbol),
        Some((section_symbol, 0))
    );
    assert_eq!(object.symbol_section_and_offset(f), Some((section_symbol, 8)));
    assert_eq!(object.symbol_count(), 3);
}

#[test]
fn elf_symbol_flags() {
    let object = object(BinaryFormat::Elf, Architecture::X86_64);
    let mut s = symbol(b"f", SymbolKind::Text);
    assert_eq!(
        object.default_symbol_flags(&s),
        SymbolFlags::Elf { st_info: 0x10, st_other: 2 }
    );
    s.section = SymbolSection::Section(SectionId(0));
    assert_eq!(object.symbol_flags(&s), SymbolFlags::Elf { st_info: 0x12, st_other: 2 });
    s.scope = SymbolScope::Compilation;
    assert_eq!(object.symbol_flags(&s), SymbolFlags::Elf { st_info: 0x02, st_other: 0 });
    s.weak = true;
    assert_eq!(object.symbol_flags(&s), SymbolFlags::Elf { st_info: 0x22, st_other: 0 });
    s.weak = false;
    s.scope = SymbolScope::Dynamic;
    s.kind = SymbolKind::Data;
    assert_eq!(object.symbol_flags(&s), SymbolFlags::Elf { st_info: 0x11, st_other: 0 });
    s.section = SymbolSection::Common;
    assert_eq!(object.symbol_flags(&s), SymbolFlags::Elf { st_info: 0x15, st_other: 0 });
    s.kind = SymbolKind::Tls;
    assert_eq!(object.symbol_flags(&s), SymbolFlags::Elf { st_info: 0x16, st_other: 0 });
    s.kind = SymbolKind::File;
    assert_eq!(object.symbol_flags(&s), SymbolFlags::Elf { st_info: 0x14, st_other: 0 });
    s.kind = SymbolKind::Section;
    assert_eq!(object.symbol_flags(&s), SymbolFlags::Elf { st_info: 0x13, st_other: 0 });
    s.kind = SymbolKind::Unknown;
    assert_eq!(object.symbol_flags(&s), SymbolFlags::Unset);
    s.section = SymbolSection::Undefined;
    assert_eq!(object.symbol_flags(&s), SymbolFlags::Elf { st_info: 0x10, st_other: 0 });
    // Flags that are set win.
    s.flags = SymbolFlags::Elf { st_info: 0xff, st_other: 3 };
    assert_eq!(object.symbol_flags(&s), SymbolFlags::Elf { st_info: 0xff, st_other: 3 });
    assert_eq!(
        object.default_symbol_flags(&s),
        SymbolFlags::Elf { st_info: 0x10, st_other: 0 }
    );
}

#[test]
fn symbol_flags_of_other_formats() {
    let mut s = symbol(b"f", SymbolKind::Text);
    let coff = object(BinaryFormat::Coff, Architecture::X86_64);
    assert_eq!(coff.symbol_flags(&s), SymbolFlags::Unset);
    let macho = object(BinaryFormat::MachO, Architecture::X86_64);
    assert_eq!(macho.symbol_flags(&s), SymbolFlags::MachO { n_desc: 0 });
    s.weak = true;
    assert_eq!(macho.symbol_flags(&s), SymbolFlags::MachO { n_desc: 0x40 });
    s.section = SymbolSection::Section(SectionId(0));
    assert_eq!(macho.symbol_flags(&s), SymbolFlags::MachO { n_desc: 0x80 });
    let xcoff = object(BinaryFormat::Xcoff, Architecture::PowerPc64);
    assert_eq!(
        xcoff.symbol_flags(&s),
        SymbolFlags::Xcoff { n_sclass: 111, x_smtyp: 2, x_smclas: 0, containing_csect: None }
    );
    s.weak = false;
    s.scope = SymbolScope::Compilation;
    s.kind = SymbolKind::Data;
    assert_eq!(
        xcoff.symbol_flags(&s),
        SymbolFlags::Xcoff { n_sclass: 107, x_smtyp: 2, x_smclas: 5, containing_csect: None }
    );
    s.section = SymbolSection::Undefined;
    assert_eq!(
        xcoff.symbol_flags(&s),
        SymbolFlags::Xcoff { n_sclass: 2, x_smtyp: 0, x_smclas: 5, containing_csect: None }
    );
    s.kind = SymbolKind::File;
    s.section = SymbolSection::NotApplicable;
    assert_eq!(
        xcoff.symbol_flags(&s),
        SymbolFlags::Xcoff { n_sclass: 103, x_smtyp: 2, x_smclas: 4, containing_csect: None }
    );
}

#[test]
fn comdat_groups() {
    let mut object = object(BinaryFormat::Elf, Architecture::X86_64);
    let text = object.section_id(StandardSection::Text);
    let f = object.add_symbol(symbol(b"f", SymbolKind::Text));
    let id = object.add_comdat(Comdat { kind: ComdatKind::Any, symbol: f, sections: vec![text] });
    assert_eq!(id, ComdatId(0));
    let other =
        object.add_comdat(Comdat { kind: ComdatKind::Largest, symbol: f, sections: Vec::new() });
    assert_eq!(other, ComdatId(1));
    assert_eq!(object.comdat_count(), 2);
    assert_eq!(object.comdat(id).kind, ComdatKind::Any);
    assert_eq!(object.comdat(id).symbol, f);
    assert_eq!(object.comdat(id).sections, vec![text]);
    object.comdat_mut(other).sections.push(text);
    object.comdat_mut(other).kind = ComdatKind::Newest;
    assert_eq!(object.comdat(other).sections, vec![text]);
    assert_eq!(object.comdat(other).kind, ComdatKind::Newest);
    assert_eq!(object.comdat(id).kind, ComdatKind::Any);
}
