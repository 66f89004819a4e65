use object_write::{
    AddressSize, Architecture, BinaryFormat, Endianness, Object, Symbol, SymbolFlags, SymbolKind,
    SymbolScope, SymbolSection, StandardSection,
};

#[test]
fn address_sizes() {
    assert_eq!(AddressSize::U8.bytes(), 1);
    assert_eq!(AddressSize::U16.bytes(), 2);
    assert_eq!(AddressSize::U32.bytes(), 4);
    assert_eq!(AddressSize::U64.bytes(), 8);
    assert_eq!(Architecture::Unknown.address_size(), None);
    assert_eq!(Architecture::X86_64.address_size(), Some(AddressSize::U64));
    assert_eq!(Architecture::X86_64_X32.address_size(), Some(AddressSize::U32));
    assert_eq!(Architecture::I386.address_size(), Some(AddressSize::U32));
    assert_eq!(Architecture::Aarch64.address_size(), Some(AddressSize::U64));
    assert_eq!(Architecture::Aarch64_Ilp32.address_size(), Some(AddressSize::U32));
    assert_eq!(Architecture::Avr.address_size(), Some(AddressSize::U8));
    assert_eq!(Architecture::Msp430.address_size(), Some(AddressSize::U16));
    assert_eq!(Architecture::Wasm32.address_size(), Some(AddressSize::U32));
    assert_eq!(Architecture::Riscv64.address_size(), Some(AddressSize::U64));
}

#[test]
fn text_section_with_one_symbol() {
    let mut object = Object::new(BinaryFormat::Elf, Architecture::X86_64, Endianness::Little);
    let text = object.section_id(StandardSection::Text);
    let main = object.add_symbol(Symbol {
        name: b"main".to_vec(),
        value: 0,
        size: 0,
        kind: SymbolKind::Text,
        scope: SymbolScope::Dynamic,
        weak: false,
        section: SymbolSection::Undefined,
        flags: SymbolFlags::Unset,
    });
    assert_eq!(object.add_symbol_data(main, text, &[0x90, 0x90], 1), 0);
    assert_eq!(object.section_count(), 1);
    assert_eq!(object.section(text).data(), &[0x90, 0x90]);
    assert!(object.section(text).relocations().is_empty());
    assert_eq!(object.symbol_count(), 1);
    let symbol = object.symbol(main);
    assert_eq!(symbol.name(), Some("main"));
    assert_eq!(symbol.value, 0);
    assert_eq!(symbol.size, 2);
    assert_eq!(symbol.section, SymbolSection::Section(text));
    assert_eq!(object.symbol_flags(symbol), SymbolFlags::Elf { st_info: 0x12, st_other: 0 });
}
