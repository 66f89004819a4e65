//! Format-neutral vocabulary shared by every part of the builder.

use vstd::prelude::*;

verus! {

/// A container format for object files.
#[derive(Debug, Clone, Copy, PartialEq, Eq, Hash, Structural)]
pub enum BinaryFormat {
    Coff,
    Elf,
    MachO,
    Pe,
    Wasm,
    Xcoff,
}

impl BinaryFormat {
    /// The formats for which relocatable objects can be built.
    pub open spec fn spec_is_writable(self) -> bool {
        self == BinaryFormat::Coff || self == BinaryFormat::Elf || self == BinaryFormat::MachO
            || self == BinaryFormat::Xcoff
    }

    /// Return true if relocatable objects can be built for this format.
    #[verifier::when_used_as_spec(spec_is_writable)]
    pub fn is_writable(self) -> (r: bool)
        ensures
            r == self.spec_is_writable(),
    {
        match self {
            BinaryFormat::Coff | BinaryFormat::Elf | BinaryFormat::MachO | BinaryFormat::Xcoff => true,
            BinaryFormat::Pe | BinaryFormat::Wasm => false,
        }
    }
}

/// A CPU architecture.
#[allow(non_camel_case_types)]
#[derive(Debug, Clone, Copy, PartialEq, Eq, Hash, Structural)]
pub enum Architecture {
    Unknown,
    Aarch64,
    Aarch64_Ilp32,
    Arm,
    Avr,
    Bpf,
    I386,
    X86_64,
    X86_64_X32,
    LoongArch64,
    Mips,
    Mips64,
    Msp430,
    PowerPc,
    PowerPc64,
    Riscv32,
    Riscv64,
    S390x,
    Sparc64,
    Wasm32,
    Wasm64,
}

/// The size of an address value for an architecture.
#[derive(Debug, Clone, Copy, PartialEq, Eq, Hash, Structural)]
pub enum AddressSize {
    U8,
    U16,
    U32,
    U64,
}

impl AddressSize {
    /// The number of bytes in an address.
    pub open spec fn spec_bytes(self) -> u8 {
        match self {
            AddressSize::U8 => 1,
            AddressSize::U16 => 2,
            AddressSize::U32 => 4,
            AddressSize::U64 => 8,
        }
    }

    /// Return the number of bytes in an address.
    #[verifier::when_used_as_spec(spec_bytes)]
    pub fn bytes(self) -> (r: u8)
        ensures
            r == self.spec_bytes(),
    {
        match self {
            AddressSize::U8 => 1,
            AddressSize::U16 => 2,
            AddressSize::U32 => 4,
            AddressSize::U64 => 8,
        }
    }
}

impl Architecture {
    /// The size of an address on this architecture, where it is known.
    pub open spec fn spec_address_size(self) -> Option<AddressSize> {
        match self {
            Architecture::Unknown => None,
            Architecture::Aarch64 => Some(AddressSize::U64),
            Architecture::Aarch64_Ilp32 => Some(AddressSize::U32),
            Architecture::Arm => Some(AddressSize::U32),
            Architecture::Avr => Some(AddressSize::U8),
            Architecture::Bpf => Some(AddressSize::U64),
            Architecture::I386 => Some(AddressSize::U32),
            Architecture::X86_64 => Some(AddressSize::U64),
            Architecture::X86_64_X32 => Some(AddressSize::U32),
            Architecture::LoongArch64 => Some(AddressSize::U64),
            Architecture::Mips => Some(AddressSize::U32),
            Architecture::Mips64 => Some(AddressSize::U64),
            Architecture::Msp430 => Some(AddressSize::U16),
            Architecture::PowerPc => Some(AddressSize::U32),
            Architecture::PowerPc64 => Some(AddressSize::U64),
            Architecture::Riscv32 => Some(AddressSize::U32),
            Architecture::Riscv64 => Some(AddressSize::U64),
            Architecture::S390x => Some(AddressSize::U64),
            Architecture::Sparc64 => Some(AddressSize::U64),
            Architecture::Wasm32 => Some(AddressSize::U32),
            Architecture::Wasm64 => Some(AddressSize::U64),
        }
    }

    /// Return the size of an address on this architecture, or `None` if it is unknown.
    #[verifier::when_used_as_spec(spec_address_size)]
    pub fn address_size(self) -> (r: Option<AddressSize>)
        ensures
            r == self.spec_address_size(),
    {
        match self {
            Architecture::Unknown => None,
            Architecture::Aarch64 => Some(AddressSize::U64),
            Architecture::Aarch64_Ilp32 => Some(AddressSize::U32),
            Architecture::Arm => Some(AddressSize::U32),
            Architecture::Avr => Some(AddressSize::U8),
            Architecture::Bpf => Some(AddressSize::U64),
            Architecture::I386 => Some(AddressSize::U32),
            Architecture::X86_64 => Some(AddressSize::U64),
            Architecture::X86_64_X32 => Some(AddressSize::U32),
            Architecture::LoongArch64 => Some(AddressSize::U64),
            Architecture::Mips => Some(AddressSize::U32),
            Architecture::Mips64 => Some(AddressSize::U64),
            Architecture::Msp430 => Some(AddressSize::U16),
            Architecture::PowerPc => Some(AddressSize::U32),
            Architecture::PowerPc64 => Some(AddressSize::U64),
            Architecture::Riscv32 => Some(AddressSize::U32),
            Architecture::Riscv64 => Some(AddressSize::U64),
            Architecture::S390x => Some(AddressSize::U64),
            Architecture::Sparc64 => Some(AddressSize::U64),
            Architecture::Wasm32 => Some(AddressSize::U32),
            Architecture::Wasm64 => Some(AddressSize::U64),
        }
    }
}

/// A refinement of an architecture.
#[derive(Debug, Clone, Copy, PartialEq, Eq, Hash, Structural)]
pub enum SubArchitecture {
    Arm64E,
    Arm64EC,
}

/// The byte order of multi-byte values in the object.
#[derive(Debug, Clone, Copy, PartialEq, Eq, Hash, Structural)]
pub enum Endianness {
    Little,
    Big,
}

/// The kind of a section.
#[derive(Debug, Clone, Copy, PartialEq, Eq, Hash, Structural)]
pub enum SectionKind {
    /// The section kind is unknown.
    Unknown,
    /// An executable code section.
    Text,
    /// A data section.
    Data,
    /// A read only data section.
    ReadOnlyData,
    /// A read only data section with relocations.
    ReadOnlyDataWithRel,
    /// A loadable string section.
    ReadOnlyString,
    /// An uninitialized data section.
    UninitializedData,
    /// An uninitialized common data section.
    Common,
    /// A TLS data section.
    Tls,
    /// An uninitialized TLS data section.
    UninitializedTls,
    /// A TLS variables section.
    TlsVariables,
    /// A non-loadable string section.
    OtherString,
    /// Some other non-loadable section.
    Other,
    /// Debug information.
    Debug,
    /// Debug strings.
    DebugString,
    /// Information for the linker.
    Linker,
    /// ELF note section.
    Note,
    /// Metadata such as symbols or relocations.
    Metadata,
    /// Some other ELF section type, given by its `sh_type`.
    Elf(u32),
}

impl SectionKind {
    /// The kinds whose sections hold zero-fill space instead of bytes.
    pub open spec fn spec_is_bss(self) -> bool {
        self == SectionKind::UninitializedData || self == SectionKind::UninitializedTls || self
            == SectionKind::Common
    }

    /// Return true if this section contains zerofill data.
    #[verifier::when_used_as_spec(spec_is_bss)]
    pub fn is_bss(self) -> (r: bool)
        ensures
            r == self.spec_is_bss(),
    {
        match self {
            SectionKind::UninitializedData | SectionKind::UninitializedTls | SectionKind::Common => true,
            _ => false,
        }
    }
}

/// The kind of a symbol.
#[derive(Debug, Clone, Copy, PartialEq, Eq, Hash, Structural)]
pub enum SymbolKind {
    /// The symbol kind is unknown.
    Unknown,
    /// The symbol is for executable code.
    Text,
    /// The symbol is for a data object.
    Data,
    /// The symbol is for a section.
    Section,
    /// The symbol is the name of a file.
    File,
    /// The symbol is for a code label.
    Label,
    /// The symbol is for a thread local storage entity.
    Tls,
}

/// The scope in which a symbol is visible.
#[derive(Debug, Clone, Copy, PartialEq, Eq, Hash, Structural)]
pub enum SymbolScope {
    /// Unknown scope. Only valid for undefined symbols.
    Unknown,
    /// The symbol is visible only within the compilation unit.
    Compilation,
    /// The symbol is visible only within the linked component.
    Linkage,
    /// The symbol is visible to other linked components too.
    Dynamic,
}

/// How the linker resolves multiple definitions of one COMDAT group.
#[derive(Debug, Clone, Copy, PartialEq, Eq, Hash, Structural)]
pub enum ComdatKind {
    /// The selection kind is unknown.
    Unknown,
    /// Multiple definitions are allowed; any one of them is kept.
    Any,
    /// Multiple definitions are an error.
    NoDuplicates,
    /// Multiple definitions must all have the same size.
    SameSize,
    /// Multiple definitions must match exactly.
    ExactMatch,
    /// The largest definition is kept.
    Largest,
    /// The newest definition is kept.
    Newest,
}

/// What a relocation computes.
#[derive(Debug, Clone, Copy, PartialEq, Eq, Hash, Structural)]
pub enum RelocationKind {
    /// The operation is unknown.
    Unknown,
    /// S + A
    Absolute,
    /// S + A - P
    Relative,
    /// G + A - GotBase
    Got,
    /// G + A - P
    GotRelative,
    /// GotBase + A - P
    GotBaseRelative,
    /// S + A - GotBase
    GotBaseOffset,
    /// L + A - P
    PltRelative,
    /// S + A - Image
    ImageOffset,
    /// S + A - Section
    SectionOffset,
    /// The index of the section containing the symbol.
    SectionIndex,
}

/// How the value of a relocation is placed in the instruction or datum.
#[derive(Debug, Clone, Copy, PartialEq, Eq, Hash, Structural)]
pub enum RelocationEncoding {
    /// The encoding is unknown.
    Unknown,
    /// Generic encoding.
    Generic,
    /// x86 sign extension at runtime.
    X86Signed,
    /// x86 rip-relative addressing.
    X86RipRelative,
    /// x86 rip-relative addressing in a movq instruction.
    X86RipRelativeMovq,
    /// x86 branch instruction.
    X86Branch,
    /// s390x PC-relative offset shifted right by one bit.
    S390xDbl,
    /// AArch64 call target.
    AArch64Call,
    /// LoongArch branch offset with two trailing zeros.
    LoongArchBranch,
}

/// File flags that are specific to each file format.
#[derive(Debug, Clone, Copy, PartialEq, Eq, Hash, Structural)]
pub enum FileFlags {
    /// No file flags have been chosen.
    Unset,
    /// ELF file flags.
    Elf { os_abi: u8, abi_version: u8, e_flags: u32 },
    /// Mach-O file flags.
    MachO { flags: u32 },
    /// COFF file flags.
    Coff { characteristics: u16 },
    /// XCOFF file flags.
    Xcoff { f_flags: u16 },
}

/// Section flags that are specific to each file format.
#[derive(Debug, Clone, Copy, PartialEq, Eq, Hash, Structural)]
pub enum SectionFlags {
    /// No flags have been chosen: they are derived from the section kind.
    Unset,
    /// ELF section flags.
    Elf { sh_flags: u64 },
    /// Mach-O section flags.
    MachO { flags: u32 },
    /// COFF section flags.
    Coff { characteristics: u32 },
    /// XCOFF section flags.
    Xcoff { s_flags: u32 },
}

/// Relocation fields: either a format-neutral description, or the encoding of one format.
#[allow(inconsistent_fields)]
#[derive(Debug, Clone, Copy, PartialEq, Eq, Hash, Structural)]
pub enum RelocationFlags {
    /// Format independent representation.
    Generic { kind: RelocationKind, encoding: RelocationEncoding, size: u8 },
    /// ELF relocation type.
    Elf { r_type: u32 },
    /// Mach-O relocation fields.
    MachO { r_type: u8, r_pcrel: bool, r_length: u8 },
    /// COFF relocation type.
    Coff { typ: u16 },
    /// XCOFF relocation fields.
    Xcoff { r_rtype: u8, r_rsize: u8 },
}

} // verus!
