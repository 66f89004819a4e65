use object_write::relocation::{addend_bits, addend_bytes};
use object_write::{
    Architecture, BinaryFormat, Endianness, Error, ErrorKind, Object, Relocation,
    RelocationEncoding, RelocationFlags, RelocationKind, SectionId, StandardSection, Symbol,
    SymbolFlags, SymbolId, SymbolKind, SymbolScope, SymbolSection,
};

fn symbol(name: &[u8], kind: SymbolKind) -> Symbol {
    Symbol {
        name: name.to_vec(),
        value: 0,
        size: 0,
        kind,
        scope: SymbolScope::Linkage,
        weak: false,
        section: SymbolSection::Undefined,
        flags: SymbolFlags::Unset,
    }
}

/// An object with a text section of 16 bytes of 0xcc and one symbol.
fn build(
    format: BinaryFormat,
    architecture: Architecture,
    endian: Endianness,
) -> (Object, SectionId, SymbolId) {
    let mut object = Object::new(format, architecture, endian);
    let text = object.section_id(StandardSection::Text);
    object.append_section_data(text, &[0xcc; 16], 1);
    let target = object.add_symbol(symbol(b"target", SymbolKind::Text));
    (object, text, target)
}

fn generic(kind: RelocationKind, encoding: RelocationEncoding, size: u8) -> RelocationFlags {
    RelocationFlags::Generic { kind, encoding, size }
}

fn relocation(offset: u64, symbol: SymbolId, addend: i64, flags: RelocationFlags) -> Relocation {
    Relocation { offset, symbol, addend, flags }
}

fn absolute(size: u8) -> RelocationFlags {
    generic(RelocationKind::Absolute, RelocationEncoding::Generic, size)
}

fn relative(size: u8) -> RelocationFlags {
    generic(RelocationKind::Relative, RelocationEncoding::Generic, size)
}

#[test]
fn addend_in_twos_complement() {
    assert_eq!(addend_bits(0), 0);
    assert_eq!(addend_bits(1), 1);
    assert_eq!(addend_bits(-1), u64::MAX);
    assert_eq!(addend_bits(i64::MIN), 1 << 63);
    assert_eq!(addend_bits(i64::MAX), (1 << 63) - 1);
    assert_eq!(addend_bytes(0x0102_0304, 4, Endianness::Little), vec![4, 3, 2, 1]);
    assert_eq!(addend_bytes(0x0102_0304, 4, Endianness::Big), vec![1, 2, 3, 4]);
    assert_eq!(addend_bytes(-2, 4, Endianness::Little), vec![0xfe, 0xff, 0xff, 0xff]);
    assert_eq!(addend_bytes(-2, 8, Endianness::Big), vec![0xff, 0xff, 0xff, 0xff, 0xff, 0xff, 0xff, 0xfe]);
    assert_eq!(
        addend_bytes(0x0102_0304_0506_0708, 8, Endianness::Little),
        vec![8, 7, 6, 5, 4, 3, 2, 1]
    );
    // A field that is narrower than the addend holds its low bytes.
    assert_eq!(addend_bytes(0x0102_0304_0506_0708, 4, Endianness::Big), vec![5, 6, 7, 8]);
    assert_eq!(addend_bytes(5, 0, Endianness::Big), Vec::<u8>::new());
}

#[test]
fn explicit_addend_stays_in_the_relocation() {
    let (mut object, text, target) =
        build(BinaryFormat::Elf, Architecture::X86_64, Endianness::Little);
    assert_eq!(object.add_relocation(text, relocation(4, target, -4, relative(32))), Ok(()));
    let section = object.section(text);
    assert_eq!(
        section.relocations(),
        &[relocation(4, target, -4, RelocationFlags::Elf { r_type: 2 })]
    );
    assert_eq!(section.data(), &[0xcc; 16]);
}

#[test]
fn implicit_addend_is_written_little_endian() {
    let (mut object, text, target) =
        build(BinaryFormat::Elf, Architecture::I386, Endianness::Little);
    assert_eq!(
        object.add_relocation(text, relocation(4, target, 0x1234_5678, absolute(32))),
        Ok(())
    );
    let section = object.section(text);
    assert_eq!(
        section.relocations(),
        &[relocation(4, target, 0, RelocationFlags::Elf { r_type: 1 })]
    );
    assert_eq!(
        section.data(),
        &[0xcc, 0xcc, 0xcc, 0xcc, 0x78, 0x56, 0x34, 0x12, 0xcc, 0xcc, 0xcc, 0xcc, 0xcc, 0xcc, 0xcc, 0xcc]
    );
}

#[test]
fn implicit_addend_is_written_big_endian() {
    let (mut object, text, target) = build(BinaryFormat::Elf, Architecture::Mips, Endianness::Big);
    assert_eq!(object.add_relocation(text, relocation(12, target, -2, absolute(32))), Ok(()));
    let section = object.section(text);
    assert_eq!(
        section.relocations(),
        &[relocation(12, target, 0, RelocationFlags::Elf { r_type: 2 })]
    );
    assert_eq!(section.data()[..12], [0xcc; 12]);
    assert_eq!(section.data()[12..], [0xff, 0xff, 0xff, 0xfe]);
}

#[test]
fn implicit_addend_of_64_bits() {
    let (mut object, text, target) =
        build(BinaryFormat::Elf, Architecture::Bpf, Endianness::Little);
    assert_eq!(
        object.add_relocation(text, relocation(8, target, 0x0102_0304_0506_0708, absolute(64))),
        Ok(())
    );
    let section = object.section(text);
    assert_eq!(
        section.relocations(),
        &[relocation(8, target, 0, RelocationFlags::Elf { r_type: 1 })]
    );
    assert_eq!(section.data()[..8], [0xcc; 8]);
    assert_eq!(section.data()[8..], [8, 7, 6, 5, 4, 3, 2, 1]);
}

#[test]
fn implicit_zero_addend_writes_nothing() {
    let (mut object, text, target) =
        build(BinaryFormat::Elf, Architecture::I386, Endianness::Little);
    // Beyond the data: nothing is written, so nothing fails.
    assert_eq!(object.add_relocation(text, relocation(100, target, 0, absolute(32))), Ok(()));
    assert_eq!(object.section(text).data(), &[0xcc; 16]);
    assert_eq!(object.section(text).relocations().len(), 1);
}

#[test]
fn relocations_keep_their_order() {
    let (mut object, text, target) =
        build(BinaryFormat::Elf, Architecture::X86_64, Endianness::Little);
    let other = object.add_symbol(symbol(b"other", SymbolKind::Data));
    for (i, offset) in [8u64, 0, 12, 4].iter().enumerate() {
        let to = if i % 2 == 0 { target } else { other };
        assert_eq!(object.add_relocation(text, relocation(*offset, to, i as i64, absolute(32))), Ok(()));
    }
    let elf32 = RelocationFlags::Elf { r_type: 10 };
    assert_eq!(
        object.section(text).relocations(),
        &[
            relocation(8, target, 0, elf32),
            relocation(0, other, 1, elf32),
            relocation(12, target, 2, elf32),
            relocation(4, other, 3, elf32),
        ]
    );
}

#[test]
fn write_beyond_the_data_fails() {
    let (mut object, text, target) =
        build(BinaryFormat::Elf, Architecture::I386, Endianness::Little);
    let expected =
        |offset| Err(Error { kind: ErrorKind::InvalidOffset, offset, size: 32, len: 16 });
    assert_eq!(object.add_relocation(text, relocation(13, target, 1, absolute(32))), expected(13));
    assert_eq!(object.add_relocation(text, relocation(16, target, 1, absolute(32))), expected(16));
    assert_eq!(
        object.add_relocation(text, relocation(u64::MAX, target, 1, absolute(32))),
        expected(u64::MAX)
    );
    // The object is as it was.
    assert_eq!(object.section(text).data(), &[0xcc; 16]);
    assert!(object.section(text).relocations().is_empty());
    // The last place that fits.
    assert_eq!(object.add_relocation(text, relocation(12, target, 1, absolute(32))), Ok(()));
    assert_eq!(object.section(text).data()[12..], [1, 0, 0, 0]);
    let error = Error::invalid_offset(13, 32, 16);
    assert!(!error.is_unsupported());
    assert_eq!(error, Error { kind: ErrorKind::InvalidOffset, offset: 13, size: 32, len: 16 });
}

#[test]
fn write_into_zero_fill_space_fails() {
    let mut object = Object::new(BinaryFormat::Elf, Architecture::I386, Endianness::Little);
    let bss = object.section_id(StandardSection::UninitializedData);
    object.append_section_bss(bss, 64, 8);
    let target = object.add_symbol(symbol(b"target", SymbolKind::Data));
    assert_eq!(
        object.add_relocation(bss, relocation(0, target, 5, absolute(32))),
        Err(Error { kind: ErrorKind::InvalidOffset, offset: 0, size: 32, len: 0 })
    );
    assert!(object.section(bss).relocations().is_empty());
}

#[test]
fn unsupported_relocations() {
    let (mut object, text, target) =
        build(BinaryFormat::Elf, Architecture::X86_64, Endianness::Little);
    let unsupported = Err(Error::of_kind(ErrorKind::UnsupportedRelocation));
    assert_eq!(object.add_relocation(text, relocation(0, target, 0, absolute(24))), unsupported);
    assert_eq!(
        object.add_relocation(
            text,
            relocation(0, target, 0, generic(RelocationKind::SectionIndex, RelocationEncoding::Generic, 16))
        ),
        unsupported
    );
    assert!(object.section(text).relocations().is_empty());
    assert!(Error::of_kind(ErrorKind::UnsupportedRelocation).is_unsupported());
    assert_eq!(
        Error::of_kind(ErrorKind::UnsupportedRelocation),
        Error { kind: ErrorKind::UnsupportedRelocation, offset: 0, size: 0, len: 0 }
    );
}

#[test]
fn unsupported_architectures() {
    let unsupported = Err(Error::of_kind(ErrorKind::UnsupportedArchitecture));
    let (mut elf, text, target) = build(BinaryFormat::Elf, Architecture::Unknown, Endianness::Little);
    assert_eq!(elf.add_relocation(text, relocation(0, target, 0, absolute(32))), unsupported);
    // Fields of the format pass the translation, and fail where the addend is counted.
    assert_eq!(
        elf.add_relocation(text, relocation(0, target, 0, RelocationFlags::Elf { r_type: 1 })),
        unsupported
    );
    let (mut coff, text, target) = build(BinaryFormat::Coff, Architecture::Riscv64, Endianness::Little);
    assert_eq!(coff.add_relocation(text, relocation(0, target, 0, absolute(32))), unsupported);
    let (mut macho, text, target) = build(BinaryFormat::MachO, Architecture::Arm, Endianness::Little);
    assert_eq!(macho.add_relocation(text, relocation(0, target, 0, absolute(32))), unsupported);
}

#[test]
fn fields_of_another_format_are_refused() {
    let foreign = Err(Error::of_kind(ErrorKind::InvalidRelocationFlags));
    let elf_fields = RelocationFlags::Elf { r_type: 1 };
    let (mut coff, text, target) = build(BinaryFormat::Coff, Architecture::X86_64, Endianness::Little);
    assert_eq!(coff.add_relocation(text, relocation(0, target, 0, elf_fields)), foreign);
    let (mut macho, text, target) = build(BinaryFormat::MachO, Architecture::X86_64, Endianness::Little);
    assert_eq!(macho.add_relocation(text, relocation(0, target, 0, elf_fields)), foreign);
    let (mut xcoff, text, target) = build(BinaryFormat::Xcoff, Architecture::PowerPc64, Endianness::Big);
    assert_eq!(xcoff.add_relocation(text, relocation(0, target, 0, elf_fields)), foreign);
    // ELF looks at the fields only where it writes the addend.
    let coff_fields = RelocationFlags::Coff { typ: 6 };
    let (mut elf, text, target) = build(BinaryFormat::Elf, Architecture::I386, Endianness::Little);
    assert_eq!(elf.add_relocation(text, relocation(0, target, 0, coff_fields)), Ok(()));
    assert_eq!(elf.add_relocation(text, relocation(0, target, 1, coff_fields)), foreign);
    assert_eq!(elf.section(text).relocations(), &[relocation(0, target, 0, coff_fields)]);
}

#[test]
fn addend_width_that_cannot_be_written() {
    let (mut object, text, target) =
        build(BinaryFormat::Elf, Architecture::I386, Endianness::Little);
    let too_narrow = Err(Error::of_kind(ErrorKind::UnsupportedAddendSize));
    assert_eq!(object.add_relocation(text, relocation(0, target, 1, absolute(16))), too_narrow);
    assert_eq!(object.add_relocation(text, relocation(0, target, 1, absolute(8))), too_narrow);
    assert_eq!(object.section(text).data(), &[0xcc; 16]);
    assert!(object.section(text).relocations().is_empty());
    assert_eq!(object.add_relocation(text, relocation(0, target, 0, absolute(16))), Ok(()));
    assert_eq!(
        object.section(text).relocations(),
        &[relocation(0, target, 0, RelocationFlags::Elf { r_type: 20 })]
    );
}

#[test]
fn elf_relocation_types() {
    let cases: [(Architecture, RelocationFlags, u32); 22] = [
        (Architecture::X86_64, absolute(64), 1),
        (Architecture::X86_64, relative(32), 2),
        (Architecture::X86_64, generic(RelocationKind::Relative, RelocationEncoding::X86Branch, 32), 4),
        (Architecture::X86_64, generic(RelocationKind::Got, RelocationEncoding::Generic, 32), 3),
        (Architecture::X86_64, generic(RelocationKind::PltRelative, RelocationEncoding::Generic, 32), 4),
        (Architecture::X86_64, generic(RelocationKind::GotRelative, RelocationEncoding::Generic, 32), 9),
        (Architecture::X86_64, absolute(32), 10),
        (Architecture::X86_64, generic(RelocationKind::Absolute, RelocationEncoding::X86Signed, 32), 11),
        (Architecture::X86_64, absolute(16), 12),
        (Architecture::X86_64, relative(8), 15),
        (Architecture::X86_64_X32, absolute(32), 10),
        (Architecture::Aarch64, absolute(64), 257),
        (Architecture::Aarch64, relative(32), 261),
        (Architecture::Aarch64, generic(RelocationKind::PltRelative, RelocationEncoding::AArch64Call, 26), 283),
        (Architecture::Riscv64, absolute(64), 2),
        (Architecture::Riscv32, relative(32), 57),
        (Architecture::PowerPc64, absolute(64), 38),
        (Architecture::S390x, generic(RelocationKind::Relative, RelocationEncoding::S390xDbl, 32), 19),
        (Architecture::S390x, absolute(64), 22),
        (Architecture::LoongArch64, generic(RelocationKind::Relative, RelocationEncoding::LoongArchBranch, 26), 66),
        (Architecture::Sparc64, absolute(64), 54),
        (Architecture::Mips64, absolute(64), 18),
    ];
    for (architecture, flags, r_type) in cases {
        let (mut object, text, target) = build(BinaryFormat::Elf, architecture, Endianness::Little);
        assert_eq!(object.add_relocation(text, relocation(0, target, 3, flags)), Ok(()));
        assert_eq!(
            object.section(text).relocations(),
            &[relocation(0, target, 3, RelocationFlags::Elf { r_type })]
        );
        assert_eq!(object.section(text).data(), &[0xcc; 16]);
    }
}

#[test]
fn coff_counts_the_addend_from_the_next_instruction() {
    let (mut object, text, target) =
        build(BinaryFormat::Coff, Architecture::X86_64, Endianness::Little);
    assert_eq!(object.add_relocation(text, relocation(0, target, -4, relative(32))), Ok(()));
    assert_eq!(object.add_relocation(text, relocation(4, target, -5, relative(32))), Ok(()));
    assert_eq!(object.add_relocation(text, relocation(8, target, 0, relative(32))), Ok(()));
    assert_eq!(
        object.add_relocation(
            text,
            relocation(12, target, -2, generic(RelocationKind::PltRelative, RelocationEncoding::X86Branch, 32))
        ),
        Ok(())
    );
    assert_eq!(
        object.section(text).relocations(),
        &[
            relocation(0, target, 0, RelocationFlags::Coff { typ: 4 }),
            relocation(4, target, 0, RelocationFlags::Coff { typ: 5 }),
            relocation(8, target, 0, RelocationFlags::Coff { typ: 4 }),
            relocation(12, target, 0, RelocationFlags::Coff { typ: 4 }),
        ]
    );
    let mut expected = [0xcc; 16];
    expected[8..12].copy_from_slice(&[4, 0, 0, 0]);
    expected[12..16].copy_from_slice(&[2, 0, 0, 0]);
    assert_eq!(object.section(text).data(), &expected);
}

#[test]
fn coff_relocation_types() {
    let (mut object, text, target) =
        build(BinaryFormat::Coff, Architecture::X86_64, Endianness::Little);
    assert_eq!(object.add_relocation(text, relocation(0, target, 1, absolute(64))), Ok(()));
    assert_eq!(
        object.add_relocation(
            text,
            relocation(8, target, 0, generic(RelocationKind::ImageOffset, RelocationEncoding::Generic, 32))
        ),
        Ok(())
    );
    assert_eq!(
        object.add_relocation(
            text,
            relocation(12, target, 0, generic(RelocationKind::SectionOffset, RelocationEncoding::Generic, 32))
        ),
        Ok(())
    );
    assert_eq!(
        object.add_relocation(
            text,
            relocation(0, target, 0, generic(RelocationKind::GotRelative, RelocationEncoding::Generic, 32))
        ),
        Err(Error::of_kind(ErrorKind::UnsupportedRelocation))
    );
    assert_eq!(
        object.section(text).relocations(),
        &[
            relocation(0, target, 0, RelocationFlags::Coff { typ: 1 }),
            relocation(8, target, 0, RelocationFlags::Coff { typ: 3 }),
            relocation(12, target, 0, RelocationFlags::Coff { typ: 0xb }),
        ]
    );
    assert_eq!(object.section(text).data()[..8], [1, 0, 0, 0, 0, 0, 0, 0]);

    let (mut i386, text, target) = build(BinaryFormat::Coff, Architecture::I386, Endianness::Little);
    assert_eq!(i386.add_relocation(text, relocation(0, target, -4, relative(32))), Ok(()));
    assert_eq!(
        i386.add_relocation(text, relocation(4, target, 1, absolute(16))),
        Err(Error::of_kind(ErrorKind::UnsupportedAddendSize))
    );
    assert_eq!(
        i386.section(text).relocations(),
        &[relocation(0, target, 0, RelocationFlags::Coff { typ: 0x14 })]
    );
}

#[test]
fn macho_relocations() {
    let (mut object, text, target) =
        build(BinaryFormat::MachO, Architecture::X86_64, Endianness::Little);
    assert_eq!(object.add_relocation(text, relocation(0, target, 2, absolute(64))), Ok(()));
    assert_eq!(object.add_relocation(text, relocation(8, target, -4, relative(32))), Ok(()));
    assert_eq!(
        object.add_relocation(
            text,
            relocation(12, target, -3, generic(RelocationKind::Relative, RelocationEncoding::X86Branch, 32))
        ),
        Ok(())
    );
    assert_eq!(
        object.add_relocation(text, relocation(0, target, 0, absolute(24))),
        Err(Error::of_kind(ErrorKind::UnsupportedRelocation))
    );
    assert_eq!(
        object.add_relocation(
            text,
            relocation(0, target, 0, generic(RelocationKind::Got, RelocationEncoding::Generic, 32))
        ),
        Err(Error::of_kind(ErrorKind::UnsupportedRelocation))
    );
    assert_eq!(
        object.section(text).relocations(),
        &[
            relocation(0, target, 0, RelocationFlags::MachO { r_type: 0, r_pcrel: false, r_length: 3 }),
            relocation(8, target, 0, RelocationFlags::MachO { r_type: 1, r_pcrel: true, r_length: 2 }),
            relocation(12, target, 0, RelocationFlags::MachO { r_type: 2, r_pcrel: true, r_length: 2 }),
        ]
    );
    let mut expected = [0xcc; 16];
    expected[..8].copy_from_slice(&[2, 0, 0, 0, 0, 0, 0, 0]);
    expected[12..].copy_from_slice(&[1, 0, 0, 0]);
    assert_eq!(object.section(text).data(), &expected);
}

#[test]
fn macho_aarch64_branch_keeps_its_addend() {
    let (mut object, text, target) =
        build(BinaryFormat::MachO, Architecture::Aarch64, Endianness::Little);
    assert_eq!(
        object.add_relocation(
            text,
            relocation(0, target, 8, generic(RelocationKind::Relative, RelocationEncoding::AArch64Call, 26))
        ),
        Ok(())
    );
    assert_eq!(object.add_relocation(text, relocation(8, target, 8, absolute(64))), Ok(()));
    assert_eq!(
        object.section(text).relocations(),
        &[
            relocation(0, target, 8, RelocationFlags::MachO { r_type: 2, r_pcrel: true, r_length: 2 }),
            relocation(8, target, 0, RelocationFlags::MachO { r_type: 0, r_pcrel: false, r_length: 3 }),
        ]
    );
    assert_eq!(object.section(text).data()[..8], [0xcc; 8]);
    assert_eq!(object.section(text).data()[8..], [8, 0, 0, 0, 0, 0, 0, 0]);
}

#[test]
fn xcoff_relocations() {
    let (mut object, text, target) =
        build(BinaryFormat::Xcoff, Architecture::PowerPc64, Endianness::Big);
    assert_eq!(object.add_relocation(text, relocation(0, target, 0x0a0b, absolute(64))), Ok(()));
    assert_eq!(object.add_relocation(text, relocation(8, target, -4, relative(32))), Ok(()));
    assert_eq!(object.add_relocation(text, relocation(12, target, 1, relative(32))), Ok(()));
    assert_eq!(
        object.add_relocation(text, relocation(0, target, 0, absolute(0))),
        Err(Error::of_kind(ErrorKind::UnsupportedRelocation))
    );
    assert_eq!(
        object.add_relocation(
            text,
            relocation(0, target, 0, generic(RelocationKind::PltRelative, RelocationEncoding::Generic, 32))
        ),
        Err(Error::of_kind(ErrorKind::UnsupportedRelocation))
    );
    assert_eq!(
        object.section(text).relocations(),
        &[
            relocation(0, target, 0, RelocationFlags::Xcoff { r_rtype: 0, r_rsize: 63 }),
            relocation(8, target, 0, RelocationFlags::Xcoff { r_rtype: 2, r_rsize: 31 }),
            relocation(12, target, 0, RelocationFlags::Xcoff { r_rtype: 2, r_rsize: 31 }),
        ]
    );
    let mut expected = [0xcc; 16];
    expected[..8].copy_from_slice(&[0, 0, 0, 0, 0, 0, 0x0a, 0x0b]);
    expected[12..].copy_from_slice(&[0, 0, 0, 5]);
    assert_eq!(object.section(text).data(), &expected);
}

#[test]
fn macho_thread_local_symbol_gets_a_structure() {
    let mut object = Object::new(BinaryFormat::MachO, Architecture::X86_64, Endianness::Little);
    let tdata = object.section_id(StandardSection::Tls);
    let counter = object.add_symbol(symbol(b"counter", SymbolKind::Tls));
    assert_eq!(object.add_symbol_data(counter, tdata, &[7, 0, 0, 0], 4), 0);

    let vars = object.section_id(StandardSection::TlsVariables);
    assert_eq!(object.section_count(), 2);
    assert_eq!(object.section(vars).name(), Some("__thread_vars"));
    assert_eq!(object.section(vars).data(), &[0; 24]);
    assert_eq!(object.section(vars).align(), 8);

    // The symbol points at the structure, the initializer at the data.
    let s = object.symbol(counter);
    assert_eq!(s.name, b"_counter".to_vec());
    assert_eq!(s.section, SymbolSection::Section(vars));
    assert_eq!(s.value, 0);
    assert_eq!(s.size, 24);
    assert_eq!(object.symbol_count(), 3);
    let init = SymbolId(1);
    let bootstrap = SymbolId(2);
    let s = object.symbol(init);
    assert_eq!(s.name, b"_counter$tlv$init".to_vec());
    assert_eq!(s.kind, SymbolKind::Tls);
    assert_eq!(s.scope, SymbolScope::Compilation);
    assert_eq!(s.section, SymbolSection::Section(tdata));
    assert_eq!(s.value, 0);
    assert_eq!(s.size, 4);
    let s = object.symbol(bootstrap);
    assert_eq!(s.name, b"__tlv_bootstrap".to_vec());
    assert_eq!(s.kind, SymbolKind::Text);
    assert_eq!(s.scope, SymbolScope::Dynamic);
    assert_eq!(s.section, SymbolSection::Undefined);
    assert_eq!(object.symbol_id(b"_tlv_bootstrap"), Some(bootstrap));
    assert_eq!(object.symbol_id(b"counter"), Some(counter));

    let word = RelocationFlags::MachO { r_type: 0, r_pcrel: false, r_length: 3 };
    assert_eq!(
        object.section(vars).relocations(),
        &[relocation(0, bootstrap, 0, word), relocation(16, init, 0, word)]
    );

    // A second variable shares the section and the bootstrap symbol.
    let other = object.add_symbol(symbol(b"other", SymbolKind::Tls));
    assert_eq!(object.add_symbol_data(other, tdata, &[1], 1), 4);
    assert_eq!(object.section_count(), 2);
    assert_eq!(object.symbol_count(), 5);
    assert_eq!(object.section(vars).size(), 48);
    assert_eq!(object.symbol(other).value, 24);
    assert_eq!(object.symbol(other).section, SymbolSection::Section(vars));
    let other_init = SymbolId(4);
    assert_eq!(object.symbol(other_init).name, b"_other$tlv$init".to_vec());
    assert_eq!(object.symbol(other_init).value, 4);
    assert_eq!(
        object.section(vars).relocations(),
        &[
            relocation(0, bootstrap, 0, word),
            relocation(16, init, 0, word),
            relocation(24, bootstrap, 0, word),
            relocation(40, other_init, 0, word),
        ]
    );
}

#[test]
fn macho_thread_local_structure_of_32_bit_addresses() {
    let mut object = Object::new(BinaryFormat::MachO, Architecture::I386, Endianness::Little);
    let tbss = object.section_id(StandardSection::UninitializedTls);
    let counter = object.add_symbol(symbol(b"counter", SymbolKind::Tls));
    assert_eq!(object.add_symbol_bss(counter, tbss, 8, 4), 0);
    let vars = object.section_id(StandardSection::TlsVariables);
    assert_eq!(object.section(vars).data(), &[0; 12]);
    assert_eq!(object.section(vars).align(), 4);
    assert_eq!(object.symbol(counter).size, 12);
    let word = RelocationFlags::MachO { r_type: 0, r_pcrel: false, r_length: 2 };
    assert_eq!(
        object.section(vars).relocations(),
        &[relocation(0, SymbolId(2), 0, word), relocation(8, SymbolId(1), 0, word)]
    );
    assert_eq!(object.symbol(SymbolId(1)).section, SymbolSection::Section(tbss));
    assert_eq!(object.symbol(SymbolId(1)).size, 8);
}

#[test]
fn macho_symbol_that_is_not_thread_local_is_placed_itself() {
    let mut object = Object::new(BinaryFormat::MachO, Architecture::X86_64, Endianness::Little);
    let data = object.section_id(StandardSection::Data);
    let table = object.add_symbol(symbol(b"table", SymbolKind::Data));
    assert_eq!(object.add_symbol_data(table, data, &[1, 2], 2), 0);
    assert_eq!(object.section_count(), 1);
    assert_eq!(object.symbol_count(), 1);
    assert_eq!(object.symbol(table).section, SymbolSection::Section(data));
    assert_eq!(object.symbol(table).size, 2);
}
