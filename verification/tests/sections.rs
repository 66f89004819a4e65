use object_write::section::is_power_of_two;
use object_write::{
    Architecture, BinaryFormat, Endianness, FileFlags, Mangling, Object, SectionFlags, SectionId,
    SectionKind, StandardSection, StandardSegment, SubArchitecture,
};

fn object(format: BinaryFormat) -> Object {
    Object::new(format, Architecture::X86_64, Endianness::Little)
}

fn names(object: &Object) -> Vec<Vec<u8>> {
    let mut names = Vec::new();
    for i in 0..object.section_count() {
        names.push(object.section(SectionId(i)).name_bytes().to_vec());
    }
    names.sort();
    names
}

#[test]
fn new_object_is_empty() {
    let object = object(BinaryFormat::Elf);
    assert_eq!(object.section_count(), 0);
    assert_eq!(object.symbol_count(), 0);
    assert_eq!(object.comdat_count(), 0);
    assert_eq!(object.format(), BinaryFormat::Elf);
    assert_eq!(object.architecture(), Architecture::X86_64);
    assert_eq!(object.endian(), Endianness::Little);
    assert_eq!(object.sub_architecture(), None);
    assert_eq!(object.flags(), FileFlags::Unset);
    assert_eq!(object.mangling(), Mangling::Elf);
}

#[test]
fn setters_change_what_they_name() {
    let mut object = object(BinaryFormat::MachO);
    object.set_sub_architecture(Some(SubArchitecture::Arm64E));
    assert_eq!(object.sub_architecture(), Some(SubArchitecture::Arm64E));
    object.set_flags(FileFlags::MachO { flags: 7 });
    assert_eq!(object.flags(), FileFlags::MachO { flags: 7 });
    object.set_mangling(Mangling::Plain);
    assert_eq!(object.mangling(), Mangling::Plain);
    assert_eq!(object.format(), BinaryFormat::MachO);
}

#[test]
fn segment_names_per_format() {
    let elf = object(BinaryFormat::Elf);
    assert_eq!(elf.segment_name(StandardSegment::Text), b"".to_vec());
    let coff = object(BinaryFormat::Coff);
    assert_eq!(coff.segment_name(StandardSegment::Data), b"".to_vec());
    let macho = object(BinaryFormat::MachO);
    assert_eq!(macho.segment_name(StandardSegment::Text), b"__TEXT".to_vec());
    assert_eq!(macho.segment_name(StandardSegment::Data), b"__DATA".to_vec());
    assert_eq!(macho.segment_name(StandardSegment::Debug), b"__DWARF".to_vec());
}

#[test]
fn standard_section_is_created_once() {
    let mut object = object(BinaryFormat::Elf);
    let text = object.section_id(StandardSection::Text);
    assert_eq!(text, SectionId(0));
    assert_eq!(object.section_id(StandardSection::Text), text);
    assert_eq!(object.section_count(), 1);
    let section = object.section(text);
    assert_eq!(section.name(), Some(".text"));
    assert_eq!(section.segment(), Some(""));
    assert_eq!(section.kind(), SectionKind::Text);
    assert_eq!(section.flags(), SectionFlags::Unset);
    assert_eq!(section.align(), 1);
    assert_eq!(section.size(), 0);
    assert_eq!(section.symbol(), None);
    assert!(section.relocations().is_empty());
    assert!(!section.is_bss());
}

#[test]
fn elf_standard_sections() {
    let mut object = object(BinaryFormat::Elf);
    let expected: [(StandardSection, &str, SectionKind); 8] = [
        (StandardSection::Text, ".text", SectionKind::Text),
        (StandardSection::Data, ".data", SectionKind::Data),
        (StandardSection::ReadOnlyData, ".rodata", SectionKind::ReadOnlyData),
        (StandardSection::ReadOnlyDataWithRel, ".data.rel.ro", SectionKind::ReadOnlyDataWithRel),
        (StandardSection::UninitializedData, ".bss", SectionKind::UninitializedData),
        (StandardSection::Tls, ".tdata", SectionKind::Tls),
        (StandardSection::UninitializedTls, ".tbss", SectionKind::UninitializedTls),
        (StandardSection::GnuProperty, ".note.gnu.property", SectionKind::Note),
    ];
    for (role, name, kind) in expected {
        let id = object.section_id(role);
        let section = object.section(id);
        assert_eq!(section.name(), Some(name));
        assert_eq!(section.segment(), Some(""));
        assert_eq!(section.kind(), kind);
    }
    let note = object.section_id(StandardSection::GnuProperty);
    assert_eq!(object.section(note).flags(), SectionFlags::Elf { sh_flags: 2 });
    assert_eq!(object.section_count(), 8);
}

#[test]
fn elf_read_only_string_shares_rodata() {
    let mut object = object(BinaryFormat::Elf);
    let rodata = object.section_id(StandardSection::ReadOnlyData);
    let strings = object.section_id(StandardSection::ReadOnlyString);
    assert_eq!(rodata, strings);
    assert_eq!(object.section_count(), 1);
}

#[test]
fn coff_read_only_roles_share_rdata() {
    let mut object = object(BinaryFormat::Coff);
    let strings = object.section_id(StandardSection::ReadOnlyString);
    assert_eq!(object.section(strings).name(), Some(".rdata"));
    assert_eq!(object.section_id(StandardSection::ReadOnlyData), strings);
    assert_eq!(object.section_id(StandardSection::ReadOnlyDataWithRel), strings);
    let tls = object.section_id(StandardSection::Tls);
    assert_eq!(object.section(tls).name(), Some(".tls$"));
    assert_eq!(object.section(tls).kind(), SectionKind::Data);
    assert_eq!(object.section_count(), 2);
}

#[test]
fn macho_standard_sections() {
    let mut object = object(BinaryFormat::MachO);
    let expected: [(StandardSection, &str, &str, SectionKind); 10] = [
        (StandardSection::Text, "__TEXT", "__text", SectionKind::Text),
        (StandardSection::Data, "__DATA", "__data", SectionKind::Data),
        (StandardSection::ReadOnlyData, "__TEXT", "__const", SectionKind::ReadOnlyData),
        (StandardSection::ReadOnlyDataWithRel, "__DATA", "__const", SectionKind::ReadOnlyDataWithRel),
        (StandardSection::ReadOnlyString, "__TEXT", "__cstring", SectionKind::ReadOnlyString),
        (StandardSection::UninitializedData, "__DATA", "__bss", SectionKind::UninitializedData),
        (StandardSection::Tls, "__DATA", "__thread_data", SectionKind::Tls),
        (StandardSection::UninitializedTls, "__DATA", "__thread_bss", SectionKind::UninitializedTls),
        (StandardSection::TlsVariables, "__DATA", "__thread_vars", SectionKind::TlsVariables),
        (StandardSection::Common, "__DATA", "__common", SectionKind::Common),
    ];
    for (role, segment, name, kind) in expected {
        let id = object.section_id(role);
        let section = object.section(id);
        assert_eq!(section.segment(), Some(segment));
        assert_eq!(section.name(), Some(name));
        assert_eq!(section.kind(), kind);
        assert_eq!(section.flags(), SectionFlags::Unset);
    }
    assert_eq!(object.section_count(), 10);
}

#[test]
fn xcoff_standard_sections() {
    let mut object = object(BinaryFormat::Xcoff);
    let text = object.section_id(StandardSection::Text);
    assert_eq!(object.section(text).name(), Some(".text"));
    let tbss = object.section_id(StandardSection::UninitializedTls);
    assert_eq!(object.section(tbss).name(), Some(".tbss"));
    assert!(object.section(tbss).is_bss());
    let rdata = object.section_id(StandardSection::ReadOnlyString);
    assert_eq!(object.section(rdata).name(), Some(".rdata"));
    assert_eq!(object.section(rdata).kind(), SectionKind::ReadOnlyData);
}

#[test]
fn added_section_stands_for_matching_standard_section() {
    let mut object = object(BinaryFormat::Elf);
    let id = object.add_section(Vec::new(), b".rodata".to_vec(), SectionKind::ReadOnlyData);
    assert_eq!(object.section_id(StandardSection::ReadOnlyData), id);
    assert_eq!(object.section_id(StandardSection::ReadOnlyString), id);
    assert_eq!(object.section_count(), 1);
}

#[test]
fn first_matching_section_stands_for_standard_section() {
    let mut object = object(BinaryFormat::Elf);
    let first = object.add_section(Vec::new(), b".text".to_vec(), SectionKind::Text);
    let second = object.add_section(Vec::new(), b".text".to_vec(), SectionKind::Text);
    assert_ne!(first, second);
    assert_eq!(object.section_id(StandardSection::Text), first);
}

#[test]
fn plain_sections_stand_for_no_standard_section() {
    let mut object = object(BinaryFormat::Elf);
    object.add_section(Vec::new(), b".mine".to_vec(), SectionKind::Data);
    object.add_section(Vec::new(), b".text".to_vec(), SectionKind::Data);
    object.add_section(b"seg".to_vec(), b".data".to_vec(), SectionKind::Data);
    assert_eq!(object.section_count(), 3);
    // Each standard section is still to be made.
    assert_eq!(object.section_id(StandardSection::Text), SectionId(3));
    assert_eq!(object.section_id(StandardSection::Data), SectionId(4));
    assert_eq!(object.section_id(StandardSection::ReadOnlyData), SectionId(5));
    assert_eq!(object.section_id(StandardSection::UninitializedData), SectionId(6));
    assert_eq!(object.section_count(), 7);
}

#[test]
fn standard_sections_in_any_order() {
    let roles = [
        StandardSection::Text,
        StandardSection::Data,
        StandardSection::ReadOnlyString,
        StandardSection::ReadOnlyData,
        StandardSection::UninitializedData,
    ];
    let mut forward = object(BinaryFormat::Elf);
    for role in roles {
        forward.section_id(role);
    }
    let mut backward = object(BinaryFormat::Elf);
    for role in roles.iter().rev() {
        backward.section_id(*role);
        backward.section_id(*role);
    }
    assert_eq!(forward.section_count(), 4);
    assert_eq!(names(&forward), names(&backward));
    assert_eq!(
        names(&forward),
        vec![b".bss".to_vec(), b".data".to_vec(), b".rodata".to_vec(), b".text".to_vec()]
    );
    for role in roles {
        let a = forward.section_id(role);
        let b = backward.section_id(role);
        assert_eq!(forward.section(a).name_bytes(), backward.section(b).name_bytes());
        assert_eq!(forward.section(a).kind(), backward.section(b).kind());
        assert_eq!(forward.section(a).flags(), backward.section(b).flags());
    }
    assert_eq!(forward.section_count(), 4);
    assert_eq!(backward.section_count(), 4);
}

#[test]
fn subsection_names() {
    let mut elf = object(BinaryFormat::Elf);
    let id = elf.add_subsection(StandardSection::Text, b"main");
    assert_eq!(elf.section(id).name(), Some(".text.main"));
    assert_eq!(elf.section(id).kind(), SectionKind::Text);
    let plain = elf.add_subsection(StandardSection::Text, b"");
    assert_eq!(elf.section(plain).name(), Some(".text"));
    assert_ne!(plain, id);
    let note = elf.add_subsection(StandardSection::GnuProperty, b"x");
    assert_eq!(elf.section(note).name(), Some(".note.gnu.property.x"));
    assert_eq!(elf.section(note).flags(), SectionFlags::Elf { sh_flags: 2 });

    let mut coff = object(BinaryFormat::Coff);
    let id = coff.add_subsection(StandardSection::Data, b"main");
    assert_eq!(coff.section(id).name(), Some(".data$main"));
    let plain = coff.add_subsection(StandardSection::Data, b"");
    assert_eq!(coff.section(plain).name(), Some(".data"));
}

#[test]
fn macho_subsection_is_the_standard_section() {
    let mut object = object(BinaryFormat::MachO);
    let a = object.add_subsection(StandardSection::Text, b"main");
    let b = object.add_subsection(StandardSection::Text, b"other");
    assert_eq!(a, b);
    assert_eq!(object.section_id(StandardSection::Text), a);
    assert_eq!(object.section(a).name(), Some("__text"));
    assert_eq!(object.section_count(), 1);
}

#[test]
fn append_data_pads_to_alignment() {
    let mut object = object(BinaryFormat::Elf);
    let data = object.section_id(StandardSection::Data);
    assert_eq!(object.append_section_data(data, &[1, 2, 3], 1), 0);
    assert_eq!(object.append_section_data(data, &[4, 5], 4), 4);
    assert_eq!(object.append_section_data(data, &[6], 2), 6);
    assert_eq!(object.append_section_data(data, &[], 8), 8);
    assert_eq!(object.append_section_data(data, &[7], 1), 8);
    let section = object.section(data);
    assert_eq!(section.data(), &[1, 2, 3, 0, 4, 5, 6, 0, 7]);
    assert_eq!(section.align(), 8);
    assert_eq!(section.size(), 9);
    assert_eq!(section.data_len(), 9);
}

#[test]
fn append_offsets_never_decrease() {
    let mut object = object(BinaryFormat::Elf);
    let data = object.section_id(StandardSection::Data);
    let aligns = [1u64, 16, 2, 64, 4, 1, 32, 8];
    let mut last = 0;
    let mut greatest = 1;
    for (i, align) in aligns.iter().enumerate() {
        let bytes = vec![0xaa; i * 3 + 1];
        let offset = object.append_section_data(data, &bytes, *align);
        assert!(offset >= last);
        assert_eq!(offset % align, 0);
        last = offset;
        greatest = greatest.max(*align);
        assert_eq!(object.section(data).align(), greatest);
    }
    assert_eq!(object.section(data).align(), 64);
}

#[test]
fn append_bss_counts_space() {
    let mut object = object(BinaryFormat::Elf);
    let bss = object.section_id(StandardSection::UninitializedData);
    assert!(object.section(bss).is_bss());
    assert_eq!(object.append_section_bss(bss, 3, 1), 0);
    assert_eq!(object.append_section_bss(bss, 8, 8), 8);
    assert_eq!(object.append_section_bss(bss, 0, 32), 32);
    assert_eq!(object.append_section_bss(bss, 1, 2), 32);
    let section = object.section(bss);
    assert_eq!(section.size(), 33);
    assert_eq!(section.align(), 32);
    assert_eq!(section.data_len(), 0);
}

#[test]
fn set_section_data_replaces_empty_data() {
    let mut object = object(BinaryFormat::Elf);
    let id = object.add_section(Vec::new(), b".blob".to_vec(), SectionKind::ReadOnlyData);
    object.set_section_data(id, vec![9, 8, 7], 16);
    let section = object.section(id);
    assert_eq!(section.data(), &[9, 8, 7]);
    assert_eq!(section.size(), 3);
    assert_eq!(section.align(), 16);
    assert_eq!(object.append_section_data(id, &[1], 2), 4);
    assert_eq!(object.section(id).data(), &[9, 8, 7, 0, 1]);
    assert_eq!(object.section(id).align(), 16);
}

#[test]
fn section_mut_gives_access_to_content() {
    let mut object = object(BinaryFormat::Elf);
    let id = object.section_id(StandardSection::Data);
    object.section_mut(id).append_data(&[1, 2, 3, 4], 4);
    object.section_mut(id).data_mut()[2] = 0x55;
    object.section_mut(id).set_flags(SectionFlags::Elf { sh_flags: 3 });
    let section = object.section(id);
    assert_eq!(section.data(), &[1, 2, 0x55, 4]);
    assert_eq!(section.flags(), SectionFlags::Elf { sh_flags: 3 });
    assert_eq!(object.section_flags(object.section(id)), SectionFlags::Elf { sh_flags: 3 });
}

#[test]
fn section_name_that_is_not_text() {
    let mut object = object(BinaryFormat::Elf);
    let id = object.add_section(vec![0xff], vec![0xc3, 0x28], SectionKind::Data);
    assert_eq!(object.section(id).name(), None);
    assert_eq!(object.section(id).segment(), None);
    assert_eq!(object.section(id).name_bytes(), &[0xc3, 0x28]);
    assert_eq!(object.section(id).segment_bytes(), &[0xff]);
    let ok = object.add_section(Vec::new(), "caf\u{e9}".as_bytes().to_vec(), SectionKind::Data);
    assert_eq!(object.section(ok).name(), Some("caf\u{e9}"));
}

#[test]
fn standard_section_kinds() {
    assert_eq!(StandardSection::Text.kind(), SectionKind::Text);
    assert_eq!(StandardSection::Data.kind(), SectionKind::Data);
    assert_eq!(StandardSection::ReadOnlyData.kind(), SectionKind::ReadOnlyData);
    assert_eq!(StandardSection::ReadOnlyDataWithRel.kind(), SectionKind::ReadOnlyDataWithRel);
    assert_eq!(StandardSection::ReadOnlyString.kind(), SectionKind::ReadOnlyString);
    assert_eq!(StandardSection::UninitializedData.kind(), SectionKind::UninitializedData);
    assert_eq!(StandardSection::Tls.kind(), SectionKind::Tls);
    assert_eq!(StandardSection::UninitializedTls.kind(), SectionKind::UninitializedTls);
    assert_eq!(StandardSection::TlsVariables.kind(), SectionKind::TlsVariables);
    assert_eq!(StandardSection::Common.kind(), SectionKind::Common);
    assert_eq!(StandardSection::GnuProperty.kind(), SectionKind::Note);
}

#[test]
fn all_standard_sections_by_index() {
    let all = StandardSection::all();
    assert_eq!(all.len(), 11);
    for (i, role) in all.iter().enumerate() {
        assert_eq!(role.index(), i);
    }
    assert_eq!(all[0], StandardSection::Text);
    assert_eq!(all[10], StandardSection::GnuProperty);
}

#[test]
fn bss_kinds() {
    assert!(SectionKind::UninitializedData.is_bss());
    assert!(SectionKind::UninitializedTls.is_bss());
    assert!(SectionKind::Common.is_bss());
    assert!(!SectionKind::Data.is_bss());
    assert!(!SectionKind::Tls.is_bss());
    assert!(!SectionKind::TlsVariables.is_bss());
    assert!(!SectionKind::Elf(8).is_bss());
}

#[test]
fn powers_of_two() {
    assert!(is_power_of_two(1));
    assert!(is_power_of_two(2));
    assert!(is_power_of_two(1 << 63));
    assert!(!is_power_of_two(0));
    assert!(!is_power_of_two(3));
    assert!(!is_power_of_two(12));
    assert!(!is_power_of_two(u64::MAX));
}

#[test]
fn default_section_flags_per_format() {
    let mut elf = object(BinaryFormat::Elf);
    let text = elf.section_id(StandardSection::Text);
    assert_eq!(elf.default_section_flags(elf.section(text)), SectionFlags::Elf { sh_flags: 0x6 });
    assert_eq!(elf.section_flags(elf.section(text)), SectionFlags::Elf { sh_flags: 0x6 });
    let data = elf.section_id(StandardSection::Data);
    assert_eq!(elf.section_flags(elf.section(data)), SectionFlags::Elf { sh_flags: 0x3 });
    let tbss = elf.section_id(StandardSection::UninitializedTls);
    assert_eq!(elf.section_flags(elf.section(tbss)), SectionFlags::Elf { sh_flags: 0x403 });
    let strings = elf.add_section(Vec::new(), b".str".to_vec(), SectionKind::ReadOnlyString);
    assert_eq!(elf.section_flags(elf.section(strings)), SectionFlags::Elf { sh_flags: 0x32 });
    let debug = elf.add_section(Vec::new(), b".debug_info".to_vec(), SectionKind::Debug);
    assert_eq!(elf.section_flags(elf.section(debug)), SectionFlags::Elf { sh_flags: 0 });
    let common = elf.add_section(Vec::new(), b".c".to_vec(), SectionKind::Common);
    assert_eq!(elf.section_flags(elf.section(common)), SectionFlags::Unset);
    // Flags that are set win, the default stays what the kind gives.
    let note = elf.section_id(StandardSection::GnuProperty);
    assert_eq!(elf.section_flags(elf.section(note)), SectionFlags::Elf { sh_flags: 2 });
    assert_eq!(elf.default_section_flags(elf.section(note)), SectionFlags::Elf { sh_flags: 0 });

    let mut coff = object(BinaryFormat::Coff);
    let text = coff.section_id(StandardSection::Text);
    assert_eq!(
        coff.section_flags(coff.section(text)),
        SectionFlags::Coff { characteristics: 0x6000_0020 }
    );
    let data = coff.section_id(StandardSection::Data);
    assert_eq!(
        coff.section_flags(coff.section(data)),
        SectionFlags::Coff { characteristics: 0xc000_0040 }
    );
    let bss = coff.section_id(StandardSection::UninitializedData);
    assert_eq!(
        coff.section_flags(coff.section(bss)),
        SectionFlags::Coff { characteristics: 0xc000_0080 }
    );
    let rdata = coff.section_id(StandardSection::ReadOnlyData);
    assert_eq!(
        coff.section_flags(coff.section(rdata)),
        SectionFlags::Coff { characteristics: 0x4000_0040 }
    );
    let linker = coff.add_section(Vec::new(), b".drectve".to_vec(), SectionKind::Linker);
    assert_eq!(
        coff.section_flags(coff.section(linker)),
        SectionFlags::Coff { characteristics: 0xa00 }
    );

    let mut macho = object(BinaryFormat::MachO);
    let text = macho.section_id(StandardSection::Text);
    assert_eq!(
        macho.section_flags(macho.section(text)),
        SectionFlags::MachO { flags: 0x8000_0400 }
    );
    let vars = macho.section_id(StandardSection::TlsVariables);
    assert_eq!(macho.section_flags(macho.section(vars)), SectionFlags::MachO { flags: 0x13 });
    let common = macho.section_id(StandardSection::Common);
    assert_eq!(macho.section_flags(macho.section(common)), SectionFlags::MachO { flags: 0x1 });
    let strings = macho.section_id(StandardSection::ReadOnlyString);
    assert_eq!(macho.section_flags(macho.section(strings)), SectionFlags::MachO { flags: 0x2 });

    let mut xcoff = object(BinaryFormat::Xcoff);
    let text = xcoff.section_id(StandardSection::Text);
    assert_eq!(xcoff.section_flags(xcoff.section(text)), SectionFlags::Xcoff { s_flags: 0x20 });
    let data = xcoff.section_id(StandardSection::Data);
    assert_eq!(xcoff.section_flags(xcoff.section(data)), SectionFlags::Xcoff { s_flags: 0x40 });
    let tdata = xcoff.section_id(StandardSection::Tls);
    assert_eq!(xcoff.section_flags(xcoff.section(tdata)), SectionFlags::Xcoff { s_flags: 0x400 });
}

#[test]
fn format_capabilities() {
    assert!(BinaryFormat::Elf.is_writable());
    assert!(BinaryFormat::Coff.is_writable());
    assert!(BinaryFormat::MachO.is_writable());
    assert!(BinaryFormat::Xcoff.is_writable());
    assert!(!BinaryFormat::Pe.is_writable());
    assert!(!BinaryFormat::Wasm.is_writable());
    assert!(object(BinaryFormat::Elf).has_uninitialized_tls());
    assert!(!object(BinaryFormat::Coff).has_uninitialized_tls());
    assert!(object(BinaryFormat::MachO).has_common());
    assert!(!object(BinaryFormat::Elf).has_common());
}
