//! The conventions of COFF.

use vstd::prelude::*;
use vstd::string::*;
use crate::common::{Architecture, RelocationKind, SectionFlags, SectionKind};
use crate::error::ErrorKind;
use crate::policy::SectionInfo;
use crate::section::StandardSection;

verus! {

pub const IMAGE_SCN_CNT_CODE: u32 = 0x20;
pub const IMAGE_SCN_CNT_INITIALIZED_DATA: u32 = 0x40;
pub const IMAGE_SCN_CNT_UNINITIALIZED_DATA: u32 = 0x80;
pub const IMAGE_SCN_LNK_INFO: u32 = 0x200;
pub const IMAGE_SCN_LNK_REMOVE: u32 = 0x800;
pub const IMAGE_SCN_MEM_DISCARDABLE: u32 = 0x0200_0000;
pub const IMAGE_SCN_MEM_EXECUTE: u32 = 0x2000_0000;
pub const IMAGE_SCN_MEM_READ: u32 = 0x4000_0000;
pub const IMAGE_SCN_MEM_WRITE: u32 = 0x8000_0000;

pub const IMAGE_REL_I386_DIR16: u16 = 0x1;
pub const IMAGE_REL_I386_REL16: u16 = 0x2;
pub const IMAGE_REL_I386_DIR32: u16 = 0x6;
pub const IMAGE_REL_I386_DIR32NB: u16 = 0x7;
pub const IMAGE_REL_I386_SECTION: u16 = 0xa;
pub const IMAGE_REL_I386_SECREL: u16 = 0xb;
pub const IMAGE_REL_I386_TOKEN: u16 = 0xc;
pub const IMAGE_REL_I386_SECREL7: u16 = 0xd;
pub const IMAGE_REL_I386_REL32: u16 = 0x14;

pub const IMAGE_REL_AMD64_ADDR64: u16 = 0x1;
pub const IMAGE_REL_AMD64_ADDR32: u16 = 0x2;
pub const IMAGE_REL_AMD64_ADDR32NB: u16 = 0x3;
pub const IMAGE_REL_AMD64_REL32: u16 = 0x4;
pub const IMAGE_REL_AMD64_REL32_1: u16 = 0x5;
pub const IMAGE_REL_AMD64_REL32_2: u16 = 0x6;
pub const IMAGE_REL_AMD64_REL32_3: u16 = 0x7;
pub const IMAGE_REL_AMD64_REL32_4: u16 = 0x8;
pub const IMAGE_REL_AMD64_REL32_5: u16 = 0x9;
pub const IMAGE_REL_AMD64_SECTION: u16 = 0xa;
pub const IMAGE_REL_AMD64_SECREL: u16 = 0xb;
pub const IMAGE_REL_AMD64_SECREL7: u16 = 0xc;
pub const IMAGE_REL_AMD64_TOKEN: u16 = 0xd;

pub const IMAGE_REL_ARM_ADDR32: u16 = 0x1;
pub const IMAGE_REL_ARM_ADDR32NB: u16 = 0x2;
pub const IMAGE_REL_ARM_REL32: u16 = 0xa;
pub const IMAGE_REL_ARM_SECTION: u16 = 0xe;
pub const IMAGE_REL_ARM_SECREL: u16 = 0xf;

pub const IMAGE_REL_ARM64_ADDR32: u16 = 0x1;
pub const IMAGE_REL_ARM64_ADDR32NB: u16 = 0x2;
pub const IMAGE_REL_ARM64_SECREL: u16 = 0x8;
pub const IMAGE_REL_ARM64_SECTION: u16 = 0xd;
pub const IMAGE_REL_ARM64_ADDR64: u16 = 0xe;
pub const IMAGE_REL_ARM64_REL32: u16 = 0x11;

/// The section that stands for a standard section in COFF.
///
/// Thread-local data is a data section with a special name. COFF has no
/// sections for zero-fill thread-local data, thread-local variable
/// structures, common data and notes: theirs has an empty name.
pub open spec fn spec_section_info(section: StandardSection) -> SectionInfo {
    let (name, kind) = match section {
        StandardSection::Text => (".text".spec_bytes(), SectionKind::Text),
        StandardSection::Data => (".data".spec_bytes(), SectionKind::Data),
        StandardSection::ReadOnlyData | StandardSection::ReadOnlyDataWithRel
        | StandardSection::ReadOnlyString => (".rdata".spec_bytes(), SectionKind::ReadOnlyData),
        StandardSection::UninitializedData => (".bss".spec_bytes(), SectionKind::UninitializedData),
        StandardSection::Tls => (".tls$".spec_bytes(), SectionKind::Data),
        StandardSection::UninitializedTls | StandardSection::TlsVariables => (
            Seq::empty(),
            SectionKind::UninitializedTls,
        ),
        StandardSection::Common => (Seq::empty(), SectionKind::Common),
        StandardSection::GnuProperty => (Seq::empty(), SectionKind::Note),
    };
    SectionInfo { segment: Seq::empty(), name, kind, flags: SectionFlags::Unset }
}

/// Return the segment, name, kind and flags of the section that stands for a
/// standard section in COFF.
pub fn section_info(section: StandardSection) -> (r: (Vec<u8>, Vec<u8>, SectionKind, SectionFlags))
    ensures
        SectionInfo::of(r) == spec_section_info(section),
{
    let segment: Vec<u8> = Vec::new();
    let flags = SectionFlags::Unset;
    match section {
        StandardSection::Text => (segment, ".text".as_bytes_vec(), SectionKind::Text, flags),
        StandardSection::Data => (segment, ".data".as_bytes_vec(), SectionKind::Data, flags),
        StandardSection::ReadOnlyData | StandardSection::ReadOnlyDataWithRel
        | StandardSection::ReadOnlyString => (
            segment,
            ".rdata".as_bytes_vec(),
            SectionKind::ReadOnlyData,
            flags,
        ),
        StandardSection::UninitializedData => (
            segment,
            ".bss".as_bytes_vec(),
            SectionKind::UninitializedData,
            flags,
        ),
        StandardSection::Tls => (segment, ".tls$".as_bytes_vec(), SectionKind::Data, flags),
        StandardSection::UninitializedTls | StandardSection::TlsVariables => (
            segment,
            Vec::new(),
            SectionKind::UninitializedTls,
            flags,
        ),
        StandardSection::Common => (segment, Vec::new(), SectionKind::Common, flags),
        StandardSection::GnuProperty => (segment, Vec::new(), SectionKind::Note, flags),
    }
}

/// The name of a subsection: the name of the section, then a dollar sign and
/// the name given, if one is given.
pub open spec fn spec_subsection_name(section: Seq<u8>, value: Seq<u8>) -> Seq<u8> {
    if value.len() == 0 {
        section
    } else {
        section + seq![0x24u8] + value
    }
}

/// Return the name of a subsection in COFF.
pub fn subsection_name(section: &[u8], value: &[u8]) -> (name: Vec<u8>)
    ensures
        name@ == spec_subsection_name(section@, value@),
{
    let mut name = crate::bytes::bytes_to_vec(section);
    if value.len() != 0 {
        name.push(0x24);
        crate::bytes::append_bytes(&mut name, value);
    }
    name
}

/// The characteristics that a section of the given kind gets, where COFF has
/// such sections.
pub open spec fn spec_section_flags(kind: SectionKind) -> SectionFlags {
    match kind {
        SectionKind::Text => SectionFlags::Coff {
            characteristics: IMAGE_SCN_CNT_CODE | IMAGE_SCN_MEM_EXECUTE | IMAGE_SCN_MEM_READ,
        },
        SectionKind::Data => SectionFlags::Coff {
            characteristics: IMAGE_SCN_CNT_INITIALIZED_DATA | IMAGE_SCN_MEM_READ
                | IMAGE_SCN_MEM_WRITE,
        },
        SectionKind::UninitializedData => SectionFlags::Coff {
            characteristics: IMAGE_SCN_CNT_UNINITIALIZED_DATA | IMAGE_SCN_MEM_READ
                | IMAGE_SCN_MEM_WRITE,
        },
        SectionKind::ReadOnlyData | SectionKind::ReadOnlyDataWithRel
        | SectionKind::ReadOnlyString => SectionFlags::Coff {
            characteristics: IMAGE_SCN_CNT_INITIALIZED_DATA | IMAGE_SCN_MEM_READ,
        },
        SectionKind::Debug | SectionKind::DebugString | SectionKind::Other
        | SectionKind::OtherString => SectionFlags::Coff {
            characteristics: IMAGE_SCN_CNT_INITIALIZED_DATA | IMAGE_SCN_MEM_READ
                | IMAGE_SCN_MEM_DISCARDABLE,
        },
        SectionKind::Linker => SectionFlags::Coff {
            characteristics: IMAGE_SCN_LNK_INFO | IMAGE_SCN_LNK_REMOVE,
        },
        _ => SectionFlags::Unset,
    }
}

/// Return the flags that a section of the given kind gets in COFF.
pub fn section_flags(kind: SectionKind) -> (flags: SectionFlags)
    ensures
        flags == spec_section_flags(kind),
{
    match kind {
        SectionKind::Text => SectionFlags::Coff {
            characteristics: IMAGE_SCN_CNT_CODE | IMAGE_SCN_MEM_EXECUTE | IMAGE_SCN_MEM_READ,
        },
        SectionKind::Data => SectionFlags::Coff {
            characteristics: IMAGE_SCN_CNT_INITIALIZED_DATA | IMAGE_SCN_MEM_READ
                | IMAGE_SCN_MEM_WRITE,
        },
        SectionKind::UninitializedData => SectionFlags::Coff {
            characteristics: IMAGE_SCN_CNT_UNINITIALIZED_DATA | IMAGE_SCN_MEM_READ
                | IMAGE_SCN_MEM_WRITE,
        },
        SectionKind::ReadOnlyData | SectionKind::ReadOnlyDataWithRel
        | SectionKind::ReadOnlyString => SectionFlags::Coff {
            characteristics: IMAGE_SCN_CNT_INITIALIZED_DATA | IMAGE_SCN_MEM_READ,
        },
        SectionKind::Debug | SectionKind::DebugString | SectionKind::Other
        | SectionKind::OtherString => SectionFlags::Coff {
            characteristics: IMAGE_SCN_CNT_INITIALIZED_DATA | IMAGE_SCN_MEM_READ
                | IMAGE_SCN_MEM_DISCARDABLE,
        },
        SectionKind::Linker => SectionFlags::Coff {
            characteristics: IMAGE_SCN_LNK_INFO | IMAGE_SCN_LNK_REMOVE,
        },
        _ => SectionFlags::Unset,
    }
}

/// True for the architectures that COFF objects can hold relocations for.
pub open spec fn spec_supports(architecture: Architecture) -> bool {
    architecture == Architecture::I386 || architecture == Architecture::X86_64 || architecture
        == Architecture::Arm || architecture == Architecture::Aarch64
}

/// The relocation type that COFF has for a relocation of the given kind and
/// size in bits on the given architecture.
///
/// A reference through the procedure linkage table is encoded as a relative
/// one. On x86-64 a relative relocation whose addend is between -9 and -5 has
/// a type of its own, which stands for that distance to the next instruction.
pub open spec fn spec_relocation_type(
    architecture: Architecture,
    kind: RelocationKind,
    size: u8,
    addend: i64,
) -> Result<u16, ErrorKind> {
    let absolute = kind == RelocationKind::Absolute;
    let relative = kind == RelocationKind::Relative || kind == RelocationKind::PltRelative;
    let image = kind == RelocationKind::ImageOffset;
    let index = kind == RelocationKind::SectionIndex;
    let offset = kind == RelocationKind::SectionOffset;
    let typ: Option<u16> = match architecture {
        Architecture::I386 => {
            if absolute && size == 16 {
                Some(IMAGE_REL_I386_DIR16)
            } else if relative && size == 16 {
                Some(IMAGE_REL_I386_REL16)
            } else if absolute && size == 32 {
                Some(IMAGE_REL_I386_DIR32)
            } else if image && size == 32 {
                Some(IMAGE_REL_I386_DIR32NB)
            } else if index && size == 16 {
                Some(IMAGE_REL_I386_SECTION)
            } else if offset && size == 32 {
                Some(IMAGE_REL_I386_SECREL)
            } else if offset && size == 7 {
                Some(IMAGE_REL_I386_SECREL7)
            } else if relative && size == 32 {
                Some(IMAGE_REL_I386_REL32)
            } else {
                None
            }
        },
        Architecture::X86_64 => {
            if absolute && size == 64 {
                Some(IMAGE_REL_AMD64_ADDR64)
            } else if absolute && size == 32 {
                Some(IMAGE_REL_AMD64_ADDR32)
            } else if image && size == 32 {
                Some(IMAGE_REL_AMD64_ADDR32NB)
            } else if relative && size == 32 {
                if addend == -5 {
                    Some(IMAGE_REL_AMD64_REL32_1)
                } else if addend == -6 {
                    Some(IMAGE_REL_AMD64_REL32_2)
                } else if addend == -7 {
                    Some(IMAGE_REL_AMD64_REL32_3)
                } else if addend == -8 {
                    Some(IMAGE_REL_AMD64_REL32_4)
                } else if addend == -9 {
                    Some(IMAGE_REL_AMD64_REL32_5)
                } else {
                    Some(IMAGE_REL_AMD64_REL32)
                }
            } else if index && size == 16 {
                Some(IMAGE_REL_AMD64_SECTION)
            } else if offset && size == 32 {
                Some(IMAGE_REL_AMD64_SECREL)
            } else if offset && size == 7 {
                Some(IMAGE_REL_AMD64_SECREL7)
            } else {
                None
            }
        },
        Architecture::Arm => {
            if absolute && size == 32 {
                Some(IMAGE_REL_ARM_ADDR32)
            } else if image && size == 32 {
                Some(IMAGE_REL_ARM_ADDR32NB)
            } else if relative && size == 32 {
                Some(IMAGE_REL_ARM_REL32)
            } else if index && size == 16 {
                Some(IMAGE_REL_ARM_SECTION)
            } else if offset && size == 32 {
                Some(IMAGE_REL_ARM_SECREL)
            } else {
                None
            }
        },
        Architecture::Aarch64 => {
            if absolute && size == 32 {
                Some(IMAGE_REL_ARM64_ADDR32)
            } else if image && size == 32 {
                Some(IMAGE_REL_ARM64_ADDR32NB)
            } else if index && size == 16 {
                Some(IMAGE_REL_ARM64_SECTION)
            } else if offset && size == 32 {
                Some(IMAGE_REL_ARM64_SECREL)
            } else if absolute && size == 64 {
                Some(IMAGE_REL_ARM64_ADDR64)
            } else if relative && size == 32 {
                Some(IMAGE_REL_ARM64_REL32)
            } else {
                None
            }
        },
        _ => None,
    };
    if !spec_supports(architecture) {
        Err(ErrorKind::UnsupportedArchitecture)
    } else {
        match typ {
            Some(typ) => Ok(typ),
            None => Err(ErrorKind::UnsupportedRelocation),
        }
    }
}

/// What is added to the addend of a relocation of the given type: the
/// distance from the place of a relative relocation to the next instruction,
/// which COFF does not count into the addend.
pub open spec fn spec_addend_offset(architecture: Architecture, typ: u16) -> Result<
    i64,
    ErrorKind,
> {
    let offset: i64 = match architecture {
        Architecture::Arm => if typ == IMAGE_REL_ARM_REL32 {
            4i64
        } else {
            0i64
        },
        Architecture::Aarch64 => if typ == IMAGE_REL_ARM64_REL32 {
            4i64
        } else {
            0i64
        },
        Architecture::I386 => if typ == IMAGE_REL_I386_REL32 {
            4i64
        } else {
            0i64
        },
        Architecture::X86_64 => if typ == IMAGE_REL_AMD64_REL32 {
            4i64
        } else if typ == IMAGE_REL_AMD64_REL32_1 {
            5i64
        } else if typ == IMAGE_REL_AMD64_REL32_2 {
            6i64
        } else if typ == IMAGE_REL_AMD64_REL32_3 {
            7i64
        } else if typ == IMAGE_REL_AMD64_REL32_4 {
            8i64
        } else if typ == IMAGE_REL_AMD64_REL32_5 {
            9i64
        } else {
            0i64
        },
        _ => 0i64,
    };
    if !spec_supports(architecture) {
        Err(ErrorKind::UnsupportedArchitecture)
    } else {
        Ok(offset)
    }
}

/// The width in bits of the field that a relocation of the given type patches.
pub open spec fn spec_relocation_size(architecture: Architecture, typ: u16) -> Result<
    u8,
    ErrorKind,
> {
    let size: Option<u8> = match architecture {
        Architecture::I386 => if typ == IMAGE_REL_I386_DIR16 || typ == IMAGE_REL_I386_REL16 || typ
            == IMAGE_REL_I386_SECTION {
            Some(16u8)
        } else if typ == IMAGE_REL_I386_DIR32 || typ == IMAGE_REL_I386_DIR32NB || typ
            == IMAGE_REL_I386_SECREL || typ == IMAGE_REL_I386_TOKEN || typ
            == IMAGE_REL_I386_REL32 {
            Some(32u8)
        } else {
            None
        },
        Architecture::X86_64 => if typ == IMAGE_REL_AMD64_SECTION {
            Some(16u8)
        } else if typ == IMAGE_REL_AMD64_ADDR32 || typ == IMAGE_REL_AMD64_ADDR32NB || typ
            == IMAGE_REL_AMD64_REL32 || typ == IMAGE_REL_AMD64_REL32_1 || typ
            == IMAGE_REL_AMD64_REL32_2 || typ == IMAGE_REL_AMD64_REL32_3 || typ
            == IMAGE_REL_AMD64_REL32_4 || typ == IMAGE_REL_AMD64_REL32_5 || typ
            == IMAGE_REL_AMD64_SECREL || typ == IMAGE_REL_AMD64_TOKEN {
            Some(32u8)
        } else if typ == IMAGE_REL_AMD64_ADDR64 {
            Some(64u8)
        } else {
            None
        },
        Architecture::Arm => if typ == IMAGE_REL_ARM_SECTION {
            Some(16u8)
        } else if typ == IMAGE_REL_ARM_ADDR32 || typ == IMAGE_REL_ARM_ADDR32NB || typ
            == IMAGE_REL_ARM_REL32 || typ == IMAGE_REL_ARM_SECREL {
            Some(32u8)
        } else {
            None
        },
        Architecture::Aarch64 => if typ == IMAGE_REL_ARM64_SECTION {
            Some(16u8)
        } else if typ == IMAGE_REL_ARM64_ADDR32 || typ == IMAGE_REL_ARM64_ADDR32NB || typ
            == IMAGE_REL_ARM64_REL32 || typ == IMAGE_REL_ARM64_SECREL {
            Some(32u8)
        } else if typ == IMAGE_REL_ARM64_ADDR64 {
            Some(64u8)
        } else {
            None
        },
        _ => None,
    };
    match size {
        Some(size) => Ok(size),
        None => Err(ErrorKind::UnsupportedRelocation),
    }
}

/// Return true if COFF objects can hold relocations for the architecture.
pub fn supports(architecture: Architecture) -> (r: bool)
    ensures
        r == spec_supports(architecture),
{
    architecture == Architecture::I386 || architecture == Architecture::X86_64 || architecture
        == Architecture::Arm || architecture == Architecture::Aarch64
}

/// Return the relocation type that COFF has for a relocation of the given
/// kind, size in bits and addend on the given architecture.
pub fn relocation_type(architecture: Architecture, kind: RelocationKind, size: u8, addend: i64) -> (r:
    Result<u16, ErrorKind>)
    ensures
        r == spec_relocation_type(architecture, kind, size, addend),
{
    let absolute = kind == RelocationKind::Absolute;
    let relative = kind == RelocationKind::Relative || kind == RelocationKind::PltRelative;
    let image = kind == RelocationKind::ImageOffset;
    let index = kind == RelocationKind::SectionIndex;
    let offset = kind == RelocationKind::SectionOffset;
    let typ: Option<u16> = match architecture {
        Architecture::I386 => {
            if absolute && size == 16 {
                Some(IMAGE_REL_I386_DIR16)
            } else if relative && size == 16 {
                Some(IMAGE_REL_I386_REL16)
            } else if absolute && size == 32 {
                Some(IMAGE_REL_I386_DIR32)
            } else if image && size == 32 {
                Some(IMAGE_REL_I386_DIR32NB)
            } else if index && size == 16 {
                Some(IMAGE_REL_I386_SECTION)
            } else if offset && size == 32 {
                Some(IMAGE_REL_I386_SECREL)
            } else if offset && size == 7 {
                Some(IMAGE_REL_I386_SECREL7)
            } else if relative && size == 32 {
                Some(IMAGE_REL_I386_REL32)
            } else {
                None
            }
        },
        Architecture::X86_64 => {
            if absolute && size == 64 {
                Some(IMAGE_REL_AMD64_ADDR64)
            } else if absolute && size == 32 {
                Some(IMAGE_REL_AMD64_ADDR32)
            } else if image && size == 32 {
                Some(IMAGE_REL_AMD64_ADDR32NB)
            } else if relative && size == 32 {
                if addend == -5 {
                    Some(IMAGE_REL_AMD64_REL32_1)
                } else if addend == -6 {
                    Some(IMAGE_REL_AMD64_REL32_2)
                } else if addend == -7 {
                    Some(IMAGE_REL_AMD64_REL32_3)
                } else if addend == -8 {
                    Some(IMAGE_REL_AMD64_REL32_4)
                } else if addend == -9 {
                    Some(IMAGE_REL_AMD64_REL32_5)
                } else {
                    Some(IMAGE_REL_AMD64_REL32)
                }
            } else if index && size == 16 {
                Some(IMAGE_REL_AMD64_SECTION)
            } else if offset && size == 32 {
                Some(IMAGE_REL_AMD64_SECREL)
            } else if offset && size == 7 {
                Some(IMAGE_REL_AMD64_SECREL7)
            } else {
                None
            }
        },
        Architecture::Arm => {
            if absolute && size == 32 {
                Some(IMAGE_REL_ARM_ADDR32)
            } else if image && size == 32 {
                Some(IMAGE_REL_ARM_ADDR32NB)
            } else if relative && size == 32 {
                Some(IMAGE_REL_ARM_REL32)
            } else if index && size == 16 {
                Some(IMAGE_REL_ARM_SECTION)
            } else if offset && size == 32 {
                Some(IMAGE_REL_ARM_SECREL)
            } else {
                None
            }
        },
        Architecture::Aarch64 => {
            if absolute && size == 32 {
                Some(IMAGE_REL_ARM64_ADDR32)
            } else if image && size == 32 {
                Some(IMAGE_REL_ARM64_ADDR32NB)
            } else if index && size == 16 {
                Some(IMAGE_REL_ARM64_SECTION)
            } else if offset && size == 32 {
                Some(IMAGE_REL_ARM64_SECREL)
            } else if absolute && size == 64 {
                Some(IMAGE_REL_ARM64_ADDR64)
            } else if relative && size == 32 {
                Some(IMAGE_REL_ARM64_REL32)
            } else {
                None
            }
        },
        _ => None,
    };
    if !supports(architecture) {
        Err(ErrorKind::UnsupportedArchitecture)
    } else {
        match typ {
            Some(typ) => Ok(typ),
            None => Err(ErrorKind::UnsupportedRelocation),
        }
    }
}

/// Return what is added to the addend of a relocation of the given type.
pub fn addend_offset(architecture: Architecture, typ: u16) -> (r: Result<i64, ErrorKind>)
    ensures
        r == spec_addend_offset(architecture, typ),
{
    let offset: i64 = match architecture {
        Architecture::Arm => if typ == IMAGE_REL_ARM_REL32 {
            4i64
        } else {
            0i64
        },
        Architecture::Aarch64 => if typ == IMAGE_REL_ARM64_REL32 {
            4i64
        } else {
            0i64
        },
        Architecture::I386 => if typ == IMAGE_REL_I386_REL32 {
            4i64
        } else {
            0i64
        },
        Architecture::X86_64 => if typ == IMAGE_REL_AMD64_REL32 {
            4i64
        } else if typ == IMAGE_REL_AMD64_REL32_1 {
            5i64
        } else if typ == IMAGE_REL_AMD64_REL32_2 {
            6i64
        } else if typ == IMAGE_REL_AMD64_REL32_3 {
            7i64
        } else if typ == IMAGE_REL_AMD64_REL32_4 {
            8i64
        } else if typ == IMAGE_REL_AMD64_REL32_5 {
            9i64
        } else {
            0i64
        },
        _ => 0i64,
    };
    if !supports(architecture) {
        Err(ErrorKind::UnsupportedArchitecture)
    } else {
        Ok(offset)
    }
}

/// Return the width in bits of the field that a relocation of the given type patches.
pub fn relocation_size(architecture: Architecture, typ: u16) -> (r: Result<u8, ErrorKind>)
    ensures
        r == spec_relocation_size(architecture, typ),
{
    let size: Option<u8> = match architecture {
        Architecture::I386 => if typ == IMAGE_REL_I386_DIR16 || typ == IMAGE_REL_I386_REL16 || typ
            == IMAGE_REL_I386_SECTION {
            Some(16u8)
        } else if typ == IMAGE_REL_I386_DIR32 || typ == IMAGE_REL_I386_DIR32NB || typ
            == IMAGE_REL_I386_SECREL || typ == IMAGE_REL_I386_TOKEN || typ
            == IMAGE_REL_I386_REL32 {
            Some(32u8)
        } else {
            None
        },
        Architecture::X86_64 => if typ == IMAGE_REL_AMD64_SECTION {
            Some(16u8)
        } else if typ == IMAGE_REL_AMD64_ADDR32 || typ == IMAGE_REL_AMD64_ADDR32NB || typ
            == IMAGE_REL_AMD64_REL32 || typ == IMAGE_REL_AMD64_REL32_1 || typ
            == IMAGE_REL_AMD64_REL32_2 || typ == IMAGE_REL_AMD64_REL32_3 || typ
            == IMAGE_REL_AMD64_REL32_4 || typ == IMAGE_REL_AMD64_REL32_5 || typ
            == IMAGE_REL_AMD64_SECREL || typ == IMAGE_REL_AMD64_TOKEN {
            Some(32u8)
        } else if typ == IMAGE_REL_AMD64_ADDR64 {
            Some(64u8)
        } else {
            None
        },
        Architecture::Arm => if typ == IMAGE_REL_ARM_SECTION {
            Some(16u8)
        } else if typ == IMAGE_REL_ARM_ADDR32 || typ == IMAGE_REL_ARM_ADDR32NB || typ
            == IMAGE_REL_ARM_REL32 || typ == IMAGE_REL_ARM_SECREL {
            Some(32u8)
        } else {
            None
        },
        Architecture::Aarch64 => if typ == IMAGE_REL_ARM64_SECTION {
            Some(16u8)
        } else if typ == IMAGE_REL_ARM64_ADDR32 || typ == IMAGE_REL_ARM64_ADDR32NB || typ
            == IMAGE_REL_ARM64_REL32 || typ == IMAGE_REL_ARM64_SECREL {
            Some(32u8)
        } else if typ == IMAGE_REL_ARM64_ADDR64 {
            Some(64u8)
        } else {
            None
        },
        _ => None,
    };
    match size {
        Some(size) => Ok(size),
        None => Err(ErrorKind::UnsupportedRelocation),
    }
}

} // verus!
