//! The conventions of ELF.

use vstd::prelude::*;
use vstd::string::*;
use crate::common::{
    Architecture, RelocationEncoding, RelocationKind, SectionFlags, SectionKind,
    SymbolKind, SymbolScope,
};
use crate::error::ErrorKind;
use crate::policy::SectionInfo;
use crate::section::StandardSection;
use crate::symbol::{SymbolFlags, SymbolSection, SymbolView, Symbol};

verus! {

pub const SHF_WRITE: u64 = 0x1;
pub const SHF_ALLOC: u64 = 0x2;
pub const SHF_EXECINSTR: u64 = 0x4;
pub const SHF_MERGE: u64 = 0x10;
pub const SHF_STRINGS: u64 = 0x20;
pub const SHF_TLS: u64 = 0x400;

pub const STT_NOTYPE: u8 = 0;
pub const STT_OBJECT: u8 = 1;
pub const STT_FUNC: u8 = 2;
pub const STT_SECTION: u8 = 3;
pub const STT_FILE: u8 = 4;
pub const STT_COMMON: u8 = 5;
pub const STT_TLS: u8 = 6;

pub const STB_LOCAL: u8 = 0;
pub const STB_GLOBAL: u8 = 1;
pub const STB_WEAK: u8 = 2;

pub const STV_DEFAULT: u8 = 0;
pub const STV_HIDDEN: u8 = 2;

pub const R_X86_64_64: u32 = 1;
pub const R_X86_64_PC32: u32 = 2;
pub const R_X86_64_GOT32: u32 = 3;
pub const R_X86_64_PLT32: u32 = 4;
pub const R_X86_64_GOTPCREL: u32 = 9;
pub const R_X86_64_32: u32 = 10;
pub const R_X86_64_32S: u32 = 11;
pub const R_X86_64_16: u32 = 12;
pub const R_X86_64_PC16: u32 = 13;
pub const R_X86_64_8: u32 = 14;
pub const R_X86_64_PC8: u32 = 15;

pub const R_386_32: u32 = 1;
pub const R_386_PC32: u32 = 2;
pub const R_386_GOT32: u32 = 3;
pub const R_386_PLT32: u32 = 4;
pub const R_386_GOTOFF: u32 = 9;
pub const R_386_GOTPC: u32 = 10;
pub const R_386_16: u32 = 20;
pub const R_386_PC16: u32 = 21;
pub const R_386_8: u32 = 22;
pub const R_386_PC8: u32 = 23;

pub const R_AARCH64_ABS64: u32 = 257;
pub const R_AARCH64_ABS32: u32 = 258;
pub const R_AARCH64_ABS16: u32 = 259;
pub const R_AARCH64_PREL64: u32 = 260;
pub const R_AARCH64_PREL32: u32 = 261;
pub const R_AARCH64_PREL16: u32 = 262;
pub const R_AARCH64_CALL26: u32 = 283;

pub const R_ARM_ABS32: u32 = 2;
pub const R_ARM_REL32: u32 = 3;
pub const R_ARM_ABS16: u32 = 5;

pub const R_AVR_32: u32 = 1;
pub const R_AVR_16: u32 = 4;

pub const R_BPF_64_64: u32 = 1;
pub const R_BPF_64_32: u32 = 10;

pub const R_LARCH_32: u32 = 1;
pub const R_LARCH_64: u32 = 2;
pub const R_LARCH_B16: u32 = 64;
pub const R_LARCH_B21: u32 = 65;
pub const R_LARCH_B26: u32 = 66;
pub const R_LARCH_32_PCREL: u32 = 99;
pub const R_LARCH_64_PCREL: u32 = 109;

pub const R_MIPS_16: u32 = 1;
pub const R_MIPS_32: u32 = 2;
pub const R_MIPS_64: u32 = 18;

pub const R_MSP430_32: u32 = 1;
pub const R_MSP430_16_BYTE: u32 = 5;

pub const R_PPC_ADDR32: u32 = 1;
pub const R_PPC64_ADDR32: u32 = 1;
pub const R_PPC64_ADDR64: u32 = 38;

pub const R_RISCV_32: u32 = 1;
pub const R_RISCV_64: u32 = 2;
pub const R_RISCV_32_PCREL: u32 = 57;

pub const R_390_8: u32 = 1;
pub const R_390_16: u32 = 3;
pub const R_390_32: u32 = 4;
pub const R_390_PC32: u32 = 5;
pub const R_390_GOT32: u32 = 7;
pub const R_390_GOT16: u32 = 15;
pub const R_390_PC16: u32 = 16;
pub const R_390_PC16DBL: u32 = 17;
pub const R_390_PLT16DBL: u32 = 18;
pub const R_390_PC32DBL: u32 = 19;
pub const R_390_PLT32DBL: u32 = 20;
pub const R_390_64: u32 = 22;
pub const R_390_PC64: u32 = 23;
pub const R_390_GOT64: u32 = 24;
pub const R_390_GOTENT: u32 = 26;

pub const R_SPARC_UA32: u32 = 23;
pub const R_SPARC_UA64: u32 = 54;

/// The section that stands for a standard section in ELF.
///
/// Thread-local variable structures and common data have no section in ELF:
/// theirs has an empty name.
pub open spec fn spec_section_info(section: StandardSection) -> SectionInfo {
    let (name, kind, flags) = match section {
        StandardSection::Text => (".text".spec_bytes(), SectionKind::Text, SectionFlags::Unset),
        StandardSection::Data => (".data".spec_bytes(), SectionKind::Data, SectionFlags::Unset),
        StandardSection::ReadOnlyData | StandardSection::ReadOnlyString => (
            ".rodata".spec_bytes(),
            SectionKind::ReadOnlyData,
            SectionFlags::Unset,
        ),
        StandardSection::ReadOnlyDataWithRel => (
            ".data.rel.ro".spec_bytes(),
            SectionKind::ReadOnlyDataWithRel,
            SectionFlags::Unset,
        ),
        StandardSection::UninitializedData => (
            ".bss".spec_bytes(),
            SectionKind::UninitializedData,
            SectionFlags::Unset,
        ),
        StandardSection::Tls => (".tdata".spec_bytes(), SectionKind::Tls, SectionFlags::Unset),
        StandardSection::UninitializedTls => (
            ".tbss".spec_bytes(),
            SectionKind::UninitializedTls,
            SectionFlags::Unset,
        ),
        StandardSection::TlsVariables => (
            Seq::empty(),
            SectionKind::TlsVariables,
            SectionFlags::Unset,
        ),
        StandardSection::Common => (Seq::empty(), SectionKind::Common, SectionFlags::Unset),
        StandardSection::GnuProperty => (
            ".note.gnu.property".spec_bytes(),
            SectionKind::Note,
            SectionFlags::Elf { sh_flags: SHF_ALLOC },
        ),
    };
    SectionInfo { segment: Seq::empty(), name, kind, flags }
}

/// Return the segment, name, kind and flags of the section that stands for a
/// standard section in ELF.
pub fn section_info(section: StandardSection) -> (r: (Vec<u8>, Vec<u8>, SectionKind, SectionFlags))
    ensures
        SectionInfo::of(r) == spec_section_info(section),
{
    let segment: Vec<u8> = Vec::new();
    match section {
        StandardSection::Text => (
            segment,
            ".text".as_bytes_vec(),
            SectionKind::Text,
            SectionFlags::Unset,
        ),
        StandardSection::Data => (
            segment,
            ".data".as_bytes_vec(),
            SectionKind::Data,
            SectionFlags::Unset,
        ),
        StandardSection::ReadOnlyData | StandardSection::ReadOnlyString => (
            segment,
            ".rodata".as_bytes_vec(),
            SectionKind::ReadOnlyData,
            SectionFlags::Unset,
        ),
        StandardSection::ReadOnlyDataWithRel => (
            segment,
            ".data.rel.ro".as_bytes_vec(),
            SectionKind::ReadOnlyDataWithRel,
            SectionFlags::Unset,
        ),
        StandardSection::UninitializedData => (
            segment,
            ".bss".as_bytes_vec(),
            SectionKind::UninitializedData,
            SectionFlags::Unset,
        ),
        StandardSection::Tls => (
            segment,
            ".tdata".as_bytes_vec(),
            SectionKind::Tls,
            SectionFlags::Unset,
        ),
        StandardSection::UninitializedTls => (
            segment,
            ".tbss".as_bytes_vec(),
            SectionKind::UninitializedTls,
            SectionFlags::Unset,
        ),
        StandardSection::TlsVariables => (
            segment,
            Vec::new(),
            SectionKind::TlsVariables,
            SectionFlags::Unset,
        ),
        StandardSection::Common => (segment, Vec::new(), SectionKind::Common, SectionFlags::Unset),
        StandardSection::GnuProperty => (
            segment,
            ".note.gnu.property".as_bytes_vec(),
            SectionKind::Note,
            SectionFlags::Elf { sh_flags: SHF_ALLOC },
        ),
    }
}

/// The name of a subsection: the name of the section, then a dot and the
/// name given, if one is given.
pub open spec fn spec_subsection_name(section: Seq<u8>, value: Seq<u8>) -> Seq<u8> {
    if value.len() == 0 {
        section
    } else {
        section + seq![0x2eu8] + value
    }
}

/// The `sh_flags` that a section of the given kind gets, where ELF has such sections.
pub open spec fn spec_section_flags(kind: SectionKind) -> SectionFlags {
    match kind {
        SectionKind::Text => SectionFlags::Elf { sh_flags: SHF_ALLOC | SHF_EXECINSTR },
        SectionKind::Data | SectionKind::ReadOnlyDataWithRel | SectionKind::UninitializedData => {
            SectionFlags::Elf { sh_flags: SHF_ALLOC | SHF_WRITE }
        },
        SectionKind::Tls | SectionKind::UninitializedTls => SectionFlags::Elf {
            sh_flags: SHF_ALLOC | SHF_WRITE | SHF_TLS,
        },
        SectionKind::ReadOnlyData => SectionFlags::Elf { sh_flags: SHF_ALLOC },
        SectionKind::ReadOnlyString => SectionFlags::Elf {
            sh_flags: SHF_ALLOC | SHF_STRINGS | SHF_MERGE,
        },
        SectionKind::OtherString | SectionKind::DebugString => SectionFlags::Elf {
            sh_flags: SHF_STRINGS | SHF_MERGE,
        },
        SectionKind::Other | SectionKind::Debug | SectionKind::Metadata | SectionKind::Linker
        | SectionKind::Note | SectionKind::Elf(_) => SectionFlags::Elf { sh_flags: 0 },
        SectionKind::Unknown | SectionKind::Common | SectionKind::TlsVariables => SectionFlags::Unset,
    }
}

/// Return the flags that a section of the given kind gets in ELF.
pub fn section_flags(kind: SectionKind) -> (flags: SectionFlags)
    ensures
        flags == spec_section_flags(kind),
{
    match kind {
        SectionKind::Text => SectionFlags::Elf { sh_flags: SHF_ALLOC | SHF_EXECINSTR },
        SectionKind::Data | SectionKind::ReadOnlyDataWithRel | SectionKind::UninitializedData => {
            SectionFlags::Elf { sh_flags: SHF_ALLOC | SHF_WRITE }
        },
        SectionKind::Tls | SectionKind::UninitializedTls => SectionFlags::Elf {
            sh_flags: SHF_ALLOC | SHF_WRITE | SHF_TLS,
        },
        SectionKind::ReadOnlyData => SectionFlags::Elf { sh_flags: SHF_ALLOC },
        SectionKind::ReadOnlyString => SectionFlags::Elf {
            sh_flags: SHF_ALLOC | SHF_STRINGS | SHF_MERGE,
        },
        SectionKind::OtherString | SectionKind::DebugString => SectionFlags::Elf {
            sh_flags: SHF_STRINGS | SHF_MERGE,
        },
        SectionKind::Other | SectionKind::Debug | SectionKind::Metadata | SectionKind::Linker
        | SectionKind::Note | SectionKind::Elf(_) => SectionFlags::Elf { sh_flags: 0 },
        SectionKind::Unknown | SectionKind::Common | SectionKind::TlsVariables => SectionFlags::Unset,
    }
}

/// The symbol type of a symbol, where ELF has one for it.
pub open spec fn spec_symbol_type(symbol: SymbolView) -> Option<u8> {
    let undefined = symbol.section == SymbolSection::Undefined;
    match symbol.kind {
        SymbolKind::Text => Some(if undefined { STT_NOTYPE } else { STT_FUNC }),
        SymbolKind::Data => Some(
            if undefined {
                STT_NOTYPE
            } else if symbol.section == SymbolSection::Common {
                STT_COMMON
            } else {
                STT_OBJECT
            },
        ),
        SymbolKind::Section => Some(STT_SECTION),
        SymbolKind::File => Some(STT_FILE),
        SymbolKind::Tls => Some(STT_TLS),
        SymbolKind::Label => Some(STT_NOTYPE),
        SymbolKind::Unknown => if undefined { Some(STT_NOTYPE) } else { None },
    }
}

/// The binding of a symbol: weak, or global unless the symbol is defined and local.
pub open spec fn spec_symbol_binding(symbol: SymbolView) -> u8 {
    if symbol.weak {
        STB_WEAK
    } else if symbol.section == SymbolSection::Undefined {
        STB_GLOBAL
    } else if symbol.scope == SymbolScope::Compilation {
        STB_LOCAL
    } else {
        STB_GLOBAL
    }
}

/// The flags that a symbol gets in ELF: binding and type in `st_info`, and
/// hidden visibility for a symbol of linkage scope.
pub open spec fn spec_symbol_flags(symbol: SymbolView) -> SymbolFlags {
    match spec_symbol_type(symbol) {
        Some(st_type) => SymbolFlags::Elf {
            st_info: (spec_symbol_binding(symbol) * 16 + st_type) as u8,
            st_other: if symbol.scope == SymbolScope::Linkage {
                STV_HIDDEN
            } else {
                STV_DEFAULT
            },
        },
        None => SymbolFlags::Unset,
    }
}

/// Return the flags that a symbol gets in ELF.
pub fn symbol_flags(symbol: &Symbol) -> (flags: SymbolFlags)
    ensures
        flags == spec_symbol_flags(symbol@),
{
    let undefined = symbol.is_undefined();
    let st_type: u8 = match symbol.kind {
        SymbolKind::Text => if undefined { STT_NOTYPE } else { STT_FUNC },
        SymbolKind::Data => if undefined {
            STT_NOTYPE
        } else if symbol.is_common() {
            STT_COMMON
        } else {
            STT_OBJECT
        },
        SymbolKind::Section => STT_SECTION,
        SymbolKind::File => STT_FILE,
        SymbolKind::Tls => STT_TLS,
        SymbolKind::Label => STT_NOTYPE,
        SymbolKind::Unknown => {
            if undefined {
                STT_NOTYPE
            } else {
                return SymbolFlags::Unset;
            }
        },
    };
    let st_bind: u8 = if symbol.weak {
        STB_WEAK
    } else if undefined {
        STB_GLOBAL
    } else if symbol.is_local() {
        STB_LOCAL
    } else {
        STB_GLOBAL
    };
    let st_info: u8 = st_bind * 16 + st_type;
    let st_other: u8 = if symbol.scope == SymbolScope::Linkage {
        STV_HIDDEN
    } else {
        STV_DEFAULT
    };
    SymbolFlags::Elf { st_info, st_other }
}

/// Return the name of a subsection in ELF.
pub fn subsection_name(section: &[u8], value: &[u8]) -> (name: Vec<u8>)
    ensures
        name@ == spec_subsection_name(section@, value@),
{
    let mut name = crate::bytes::bytes_to_vec(section);
    if value.len() != 0 {
        name.push(0x2e);
        crate::bytes::append_bytes(&mut name, value);
    }
    name
}

/// The relocation type that ELF has for a relocation of the given kind,
/// encoding and size in bits on the given architecture.
pub open spec fn spec_relocation_type(
    architecture: Architecture,
    kind: RelocationKind,
    encoding: RelocationEncoding,
    size: u8,
) -> Result<u32, ErrorKind> {
    let absolute = kind == RelocationKind::Absolute;
    let relative = kind == RelocationKind::Relative;
    let plt = kind == RelocationKind::PltRelative;
    let got = kind == RelocationKind::Got;
    let generic = encoding == RelocationEncoding::Generic;
    let r_type: Option<u32> = match architecture {
        Architecture::Aarch64 => {
            if absolute && generic && size == 64 {
                Some(R_AARCH64_ABS64)
            } else if absolute && generic && size == 32 {
                Some(R_AARCH64_ABS32)
            } else if absolute && generic && size == 16 {
                Some(R_AARCH64_ABS16)
            } else if relative && generic && size == 64 {
                Some(R_AARCH64_PREL64)
            } else if relative && generic && size == 32 {
                Some(R_AARCH64_PREL32)
            } else if relative && generic && size == 16 {
                Some(R_AARCH64_PREL16)
            } else if (relative || plt) && encoding == RelocationEncoding::AArch64Call && size
                == 26 {
                Some(R_AARCH64_CALL26)
            } else {
                None
            }
        },
        Architecture::Arm => {
            if absolute && size == 32 {
                Some(R_ARM_ABS32)
            } else {
                None
            }
        },
        Architecture::Avr => {
            if absolute && size == 32 {
                Some(R_AVR_32)
            } else if absolute && size == 16 {
                Some(R_AVR_16)
            } else {
                None
            }
        },
        Architecture::Bpf => {
            if absolute && size == 64 {
                Some(R_BPF_64_64)
            } else if absolute && size == 32 {
                Some(R_BPF_64_32)
            } else {
                None
            }
        },
        Architecture::I386 => {
            if absolute && size == 32 {
                Some(R_386_32)
            } else if relative && size == 32 {
                Some(R_386_PC32)
            } else if got && size == 32 {
                Some(R_386_GOT32)
            } else if plt && size == 32 {
                Some(R_386_PLT32)
            } else if kind == RelocationKind::GotBaseOffset && size == 32 {
                Some(R_386_GOTOFF)
            } else if kind == RelocationKind::GotBaseRelative && size == 32 {
                Some(R_386_GOTPC)
            } else if absolute && size == 16 {
                Some(R_386_16)
            } else if relative && size == 16 {
                Some(R_386_PC16)
            } else if absolute && size == 8 {
                Some(R_386_8)
            } else if relative && size == 8 {
                Some(R_386_PC8)
            } else {
                None
            }
        },
        Architecture::X86_64 | Architecture::X86_64_X32 => {
            if absolute && generic && size == 64 {
                Some(R_X86_64_64)
            } else if relative && encoding == RelocationEncoding::X86Branch && size == 32 {
                Some(R_X86_64_PLT32)
            } else if relative && size == 32 {
                Some(R_X86_64_PC32)
            } else if got && size == 32 {
                Some(R_X86_64_GOT32)
            } else if plt && size == 32 {
                Some(R_X86_64_PLT32)
            } else if kind == RelocationKind::GotRelative && size == 32 {
                Some(R_X86_64_GOTPCREL)
            } else if absolute && generic && size == 32 {
                Some(R_X86_64_32)
            } else if absolute && encoding == RelocationEncoding::X86Signed && size == 32 {
                Some(R_X86_64_32S)
            } else if absolute && size == 16 {
                Some(R_X86_64_16)
            } else if relative && size == 16 {
                Some(R_X86_64_PC16)
            } else if absolute && size == 8 {
                Some(R_X86_64_8)
            } else if relative && size == 8 {
                Some(R_X86_64_PC8)
            } else {
                None
            }
        },
        Architecture::LoongArch64 => {
            let branch = (relative || plt) && encoding == RelocationEncoding::LoongArchBranch;
            if absolute && size == 32 {
                Some(R_LARCH_32)
            } else if absolute && size == 64 {
                Some(R_LARCH_64)
            } else if branch && size == 16 {
                Some(R_LARCH_B16)
            } else if branch && size == 21 {
                Some(R_LARCH_B21)
            } else if branch && size == 26 {
                Some(R_LARCH_B26)
            } else if relative && size == 32 {
                Some(R_LARCH_32_PCREL)
            } else if relative && size == 64 {
                Some(R_LARCH_64_PCREL)
            } else {
                None
            }
        },
        Architecture::Mips | Architecture::Mips64 => {
            if absolute && size == 16 {
                Some(R_MIPS_16)
            } else if absolute && size == 32 {
                Some(R_MIPS_32)
            } else if absolute && size == 64 {
                Some(R_MIPS_64)
            } else {
                None
            }
        },
        Architecture::Msp430 => {
            if absolute && size == 32 {
                Some(R_MSP430_32)
            } else if absolute && size == 16 {
                Some(R_MSP430_16_BYTE)
            } else {
                None
            }
        },
        Architecture::PowerPc => {
            if absolute && size == 32 {
                Some(R_PPC_ADDR32)
            } else {
                None
            }
        },
        Architecture::PowerPc64 => {
            if absolute && size == 32 {
                Some(R_PPC64_ADDR32)
            } else if absolute && size == 64 {
                Some(R_PPC64_ADDR64)
            } else {
                None
            }
        },
        Architecture::Riscv32 | Architecture::Riscv64 => {
            if absolute && size == 32 {
                Some(R_RISCV_32)
            } else if absolute && size == 64 {
                Some(R_RISCV_64)
            } else if relative && generic && size == 32 {
                Some(R_RISCV_32_PCREL)
            } else {
                None
            }
        },
        Architecture::S390x => {
            let dbl = encoding == RelocationEncoding::S390xDbl;
            if absolute && generic && size == 8 {
                Some(R_390_8)
            } else if absolute && generic && size == 16 {
                Some(R_390_16)
            } else if absolute && generic && size == 32 {
                Some(R_390_32)
            } else if absolute && generic && size == 64 {
                Some(R_390_64)
            } else if relative && generic && size == 16 {
                Some(R_390_PC16)
            } else if relative && generic && size == 32 {
                Some(R_390_PC32)
            } else if relative && generic && size == 64 {
                Some(R_390_PC64)
            } else if relative && dbl && size == 16 {
                Some(R_390_PC16DBL)
            } else if relative && dbl && size == 32 {
                Some(R_390_PC32DBL)
            } else if plt && dbl && size == 16 {
                Some(R_390_PLT16DBL)
            } else if plt && dbl && size == 32 {
                Some(R_390_PLT32DBL)
            } else if got && generic && size == 16 {
                Some(R_390_GOT16)
            } else if got && generic && size == 32 {
                Some(R_390_GOT32)
            } else if got && generic && size == 64 {
                Some(R_390_GOT64)
            } else if kind == RelocationKind::GotRelative && dbl && size == 32 {
                Some(R_390_GOTENT)
            } else {
                None
            }
        },
        Architecture::Sparc64 => {
            if absolute && size == 32 {
                Some(R_SPARC_UA32)
            } else if absolute && size == 64 {
                Some(R_SPARC_UA64)
            } else {
                None
            }
        },
        _ => None,
    };
    if spec_has_relocation_addend(architecture) is None {
        Err(ErrorKind::UnsupportedArchitecture)
    } else {
        match r_type {
            Some(r_type) => Ok(r_type),
            None => Err(ErrorKind::UnsupportedRelocation),
        }
    }
}

/// Whether ELF relocations carry their addend themselves on the given
/// architecture, for the architectures that ELF objects can be built for.
pub open spec fn spec_has_relocation_addend(architecture: Architecture) -> Option<bool> {
    match architecture {
        Architecture::Arm | Architecture::Bpf | Architecture::I386 | Architecture::Mips => Some(
            false,
        ),
        Architecture::Aarch64 | Architecture::Avr | Architecture::X86_64
        | Architecture::X86_64_X32 | Architecture::LoongArch64 | Architecture::Mips64
        | Architecture::Msp430 | Architecture::PowerPc | Architecture::PowerPc64
        | Architecture::Riscv32 | Architecture::Riscv64 | Architecture::S390x
        | Architecture::Sparc64 => Some(true),
        _ => None,
    }
}

/// Return whether ELF relocations carry their addend themselves on the given
/// architecture, or `None` where ELF objects cannot be built for it.
pub fn has_relocation_addend(architecture: Architecture) -> (r: Option<bool>)
    ensures
        r == spec_has_relocation_addend(architecture),
{
    match architecture {
        Architecture::Arm | Architecture::Bpf | Architecture::I386 | Architecture::Mips => Some(
            false,
        ),
        Architecture::Aarch64 | Architecture::Avr | Architecture::X86_64
        | Architecture::X86_64_X32 | Architecture::LoongArch64 | Architecture::Mips64
        | Architecture::Msp430 | Architecture::PowerPc | Architecture::PowerPc64
        | Architecture::Riscv32 | Architecture::Riscv64 | Architecture::S390x
        | Architecture::Sparc64 => Some(true),
        _ => None,
    }
}

/// The width in bits of the field that a relocation of the given type
/// patches, for the architectures that keep addends in section data.
pub open spec fn spec_relocation_size(architecture: Architecture, r_type: u32) -> Result<
    u8,
    ErrorKind,
> {
    let size: Option<u8> = match architecture {
        Architecture::Arm => if r_type == R_ARM_ABS16 {
            Some(16u8)
        } else if r_type == R_ARM_ABS32 || r_type == R_ARM_REL32 {
            Some(32u8)
        } else {
            None
        },
        Architecture::Bpf => if r_type == R_BPF_64_32 {
            Some(32u8)
        } else if r_type == R_BPF_64_64 {
            Some(64u8)
        } else {
            None
        },
        Architecture::I386 => if r_type == R_386_8 || r_type == R_386_PC8 {
            Some(8u8)
        } else if r_type == R_386_16 || r_type == R_386_PC16 {
            Some(16u8)
        } else if r_type == R_386_32 || r_type == R_386_PC32 || r_type == R_386_GOT32 || r_type
            == R_386_PLT32 || r_type == R_386_GOTOFF || r_type == R_386_GOTPC {
            Some(32u8)
        } else {
            None
        },
        Architecture::Mips => if r_type == R_MIPS_16 {
            Some(16u8)
        } else if r_type == R_MIPS_32 {
            Some(32u8)
        } else if r_type == R_MIPS_64 {
            Some(64u8)
        } else {
            None
        },
        _ => None,
    };
    if spec_has_relocation_addend(architecture) != Some(false) {
        Err(ErrorKind::UnsupportedArchitecture)
    } else {
        match size {
            Some(size) => Ok(size),
            None => Err(ErrorKind::UnsupportedRelocation),
        }
    }
}

/// Return the relocation type that ELF has for a relocation of the given
/// kind, encoding and size in bits on the given architecture.
pub fn relocation_type(
    architecture: Architecture,
    kind: RelocationKind,
    encoding: RelocationEncoding,
    size: u8,
) -> (r: Result<u32, ErrorKind>)
    ensures
        r == spec_relocation_type(architecture, kind, encoding, size),
{
    let absolute = kind == RelocationKind::Absolute;
    let relative = kind == RelocationKind::Relative;
    let plt = kind == RelocationKind::PltRelative;
    let got = kind == RelocationKind::Got;
    let generic = encoding == RelocationEncoding::Generic;
    let r_type: Option<u32> = match architecture {
        Architecture::Aarch64 => {
            if absolute && generic && size == 64 {
                Some(R_AARCH64_ABS64)
            } else if absolute && generic && size == 32 {
                Some(R_AARCH64_ABS32)
            } else if absolute && generic && size == 16 {
                Some(R_AARCH64_ABS16)
            } else if relative && generic && size == 64 {
                Some(R_AARCH64_PREL64)
            } else if relative && generic && size == 32 {
                Some(R_AARCH64_PREL32)
            } else if relative && generic && size == 16 {
                Some(R_AARCH64_PREL16)
            } else if (relative || plt) && encoding == RelocationEncoding::AArch64Call && size
                == 26 {
                Some(R_AARCH64_CALL26)
            } else {
                None
            }
        },
        Architecture::Arm => {
            if absolute && size == 32 {
                Some(R_ARM_ABS32)
            } else {
                None
            }
        },
        Architecture::Avr => {
            if absolute && size == 32 {
                Some(R_AVR_32)
            } else if absolute && size == 16 {
                Some(R_AVR_16)
            } else {
                None
            }
        },
        Architecture::Bpf => {
            if absolute && size == 64 {
                Some(R_BPF_64_64)
            } else if absolute && size == 32 {
                Some(R_BPF_64_32)
            } else {
                None
            }
        },
        Architecture::I386 => {
            if absolute && size == 32 {
                Some(R_386_32)
            } else if relative && size == 32 {
                Some(R_386_PC32)
            } else if got && size == 32 {
                Some(R_386_GOT32)
            } else if plt && size == 32 {
                Some(R_386_PLT32)
            } else if kind == RelocationKind::GotBaseOffset && size == 32 {
                Some(R_386_GOTOFF)
            } else if kind == RelocationKind::GotBaseRelative && size == 32 {
                Some(R_386_GOTPC)
            } else if absolute && size == 16 {
                Some(R_386_16)
            } else if relative && size == 16 {
                Some(R_386_PC16)
            } else if absolute && size == 8 {
                Some(R_386_8)
            } else if relative && size == 8 {
                Some(R_386_PC8)
            } else {
                None
            }
        },
        Architecture::X86_64 | Architecture::X86_64_X32 => {
            if absolute && generic && size == 64 {
                Some(R_X86_64_64)
            } else if relative && encoding == RelocationEncoding::X86Branch && size == 32 {
                Some(R_X86_64_PLT32)
            } else if relative && size == 32 {
                Some(R_X86_64_PC32)
            } else if got && size == 32 {
                Some(R_X86_64_GOT32)
            } else if plt && size == 32 {
                Some(R_X86_64_PLT32)
            } else if kind == RelocationKind::GotRelative && size == 32 {
                Some(R_X86_64_GOTPCREL)
            } else if absolute && generic && size == 32 {
                Some(R_X86_64_32)
            } else if absolute && encoding == RelocationEncoding::X86Signed && size == 32 {
                Some(R_X86_64_32S)
            } else if absolute && size == 16 {
                Some(R_X86_64_16)
            } else if relative && size == 16 {
                Some(R_X86_64_PC16)
            } else if absolute && size == 8 {
                Some(R_X86_64_8)
            } else if relative && size == 8 {
                Some(R_X86_64_PC8)
            } else {
                None
            }
        },
        Architecture::LoongArch64 => {
            let branch = (relative || plt) && encoding == RelocationEncoding::LoongArchBranch;
            if absolute && size == 32 {
                Some(R_LARCH_32)
            } else if absolute && size == 64 {
                Some(R_LARCH_64)
            } else if branch && size == 16 {
                Some(R_LARCH_B16)
            } else if branch && size == 21 {
                Some(R_LARCH_B21)
            } else if branch && size == 26 {
                Some(R_LARCH_B26)
            } else if relative && size == 32 {
                Some(R_LARCH_32_PCREL)
            } else if relative && size == 64 {
                Some(R_LARCH_64_PCREL)
            } else {
                None
            }
        },
        Architecture::Mips | Architecture::Mips64 => {
            if absolute && size == 16 {
                Some(R_MIPS_16)
            } else if absolute && size == 32 {
                Some(R_MIPS_32)
            } else if absolute && size == 64 {
                Some(R_MIPS_64)
            } else {
                None
            }
        },
        Architecture::Msp430 => {
            if absolute && size == 32 {
                Some(R_MSP430_32)
            } else if absolute && size == 16 {
                Some(R_MSP430_16_BYTE)
            } else {
                None
            }
        },
        Architecture::PowerPc => {
            if absolute && size == 32 {
                Some(R_PPC_ADDR32)
            } else {
                None
            }
        },
        Architecture::PowerPc64 => {
            if absolute && size == 32 {
                Some(R_PPC64_ADDR32)
            } else if absolute && size == 64 {
                Some(R_PPC64_ADDR64)
            } else {
                None
            }
        },
        Architecture::Riscv32 | Architecture::Riscv64 => {
            if absolute && size == 32 {
                Some(R_RISCV_32)
            } else if absolute && size == 64 {
                Some(R_RISCV_64)
            } else if relative && generic && size == 32 {
                Some(R_RISCV_32_PCREL)
            } else {
                None
            }
        },
        Architecture::S390x => {
            let dbl = encoding == RelocationEncoding::S390xDbl;
            if absolute && generic && size == 8 {
                Some(R_390_8)
            } else if absolute && generic && size == 16 {
                Some(R_390_16)
            } else if absolute && generic && size == 32 {
                Some(R_390_32)
            } else if absolute && generic && size == 64 {
                Some(R_390_64)
            } else if relative && generic && size == 16 {
                Some(R_390_PC16)
            } else if relative && generic && size == 32 {
                Some(R_390_PC32)
            } else if relative && generic && size == 64 {
                Some(R_390_PC64)
            } else if relative && dbl && size == 16 {
                Some(R_390_PC16DBL)
            } else if relative && dbl && size == 32 {
                Some(R_390_PC32DBL)
            } else if plt && dbl && size == 16 {
                Some(R_390_PLT16DBL)
            } else if plt && dbl && size == 32 {
                Some(R_390_PLT32DBL)
            } else if got && generic && size == 16 {
                Some(R_390_GOT16)
            } else if got && generic && size == 32 {
                Some(R_390_GOT32)
            } else if got && generic && size == 64 {
                Some(R_390_GOT64)
            } else if kind == RelocationKind::GotRelative && dbl && size == 32 {
                Some(R_390_GOTENT)
            } else {
                None
            }
        },
        Architecture::Sparc64 => {
            if absolute && size == 32 {
                Some(R_SPARC_UA32)
            } else if absolute && size == 64 {
                Some(R_SPARC_UA64)
            } else {
                None
            }
        },
        _ => None,
    };
    if has_relocation_addend(architecture).is_none() {
        Err(ErrorKind::UnsupportedArchitecture)
    } else {
        match r_type {
            Some(r_type) => Ok(r_type),
            None => Err(ErrorKind::UnsupportedRelocation),
        }
    }
}

/// Return true if relocations keep their addend in section data.
fn is_implicit(has_addend: Option<bool>) -> (r: bool)
    ensures
        r == (has_addend == Some(false)),
{
    match has_addend {
        Some(explicit) => !explicit,
        None => false,
    }
}

/// Return the width in bits of the field that a relocation of the given type
/// patches.
pub fn relocation_size(architecture: Architecture, r_type: u32) -> (r: Result<u8, ErrorKind>)
    ensures
        r == spec_relocation_size(architecture, r_type),
{
    let size: Option<u8> = match architecture {
        Architecture::Arm => if r_type == R_ARM_ABS16 {
            Some(16u8)
        } else if r_type == R_ARM_ABS32 || r_type == R_ARM_REL32 {
            Some(32u8)
        } else {
            None
        },
        Architecture::Bpf => if r_type == R_BPF_64_32 {
            Some(32u8)
        } else if r_type == R_BPF_64_64 {
            Some(64u8)
        } else {
            None
        },
        Architecture::I386 => if r_type == R_386_8 || r_type == R_386_PC8 {
            Some(8u8)
        } else if r_type == R_386_16 || r_type == R_386_PC16 {
            Some(16u8)
        } else if r_type == R_386_32 || r_type == R_386_PC32 || r_type == R_386_GOT32 || r_type
            == R_386_PLT32 || r_type == R_386_GOTOFF || r_type == R_386_GOTPC {
            Some(32u8)
        } else {
            None
        },
        Architecture::Mips => if r_type == R_MIPS_16 {
            Some(16u8)
        } else if r_type == R_MIPS_32 {
            Some(32u8)
        } else if r_type == R_MIPS_64 {
            Some(64u8)
        } else {
            None
        },
        _ => None,
    };
    if !is_implicit(has_relocation_addend(architecture)) {
        Err(ErrorKind::UnsupportedArchitecture)
    } else {
        match size {
            Some(size) => Ok(size),
            None => Err(ErrorKind::UnsupportedRelocation),
        }
    }
}

} // verus!
