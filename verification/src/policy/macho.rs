//! The conventions of Mach-O.

use vstd::prelude::*;
use vstd::string::*;
use crate::common::{
    Architecture, RelocationEncoding, RelocationKind, SectionFlags, SectionKind,
};
use crate::error::ErrorKind;
use crate::policy::SectionInfo;
use crate::section::{StandardSection, StandardSegment};
use crate::symbol::{Symbol, SymbolFlags, SymbolSection, SymbolView};

verus! {

pub const S_ZEROFILL: u32 = 0x1;
pub const S_CSTRING_LITERALS: u32 = 0x2;
pub const S_THREAD_LOCAL_REGULAR: u32 = 0x11;
pub const S_THREAD_LOCAL_ZEROFILL: u32 = 0x12;
pub const S_THREAD_LOCAL_VARIABLES: u32 = 0x13;
pub const S_ATTR_SOME_INSTRUCTIONS: u32 = 0x0000_0400;
pub const S_ATTR_DEBUG: u32 = 0x0200_0000;
pub const S_ATTR_PURE_INSTRUCTIONS: u32 = 0x8000_0000;

pub const N_WEAK_REF: u16 = 0x40;
pub const N_WEAK_DEF: u16 = 0x80;

pub const GENERIC_RELOC_VANILLA: u8 = 0;

pub const X86_64_RELOC_UNSIGNED: u8 = 0;
pub const X86_64_RELOC_SIGNED: u8 = 1;
pub const X86_64_RELOC_BRANCH: u8 = 2;
pub const X86_64_RELOC_GOT_LOAD: u8 = 3;
pub const X86_64_RELOC_GOT: u8 = 4;
pub const X86_64_RELOC_SIGNED_1: u8 = 6;
pub const X86_64_RELOC_SIGNED_2: u8 = 7;
pub const X86_64_RELOC_SIGNED_4: u8 = 8;

pub const ARM64_RELOC_UNSIGNED: u8 = 0;
pub const ARM64_RELOC_BRANCH26: u8 = 2;
pub const ARM64_RELOC_PAGE21: u8 = 3;
pub const ARM64_RELOC_PAGEOFF12: u8 = 4;

/// The name of a standard segment in Mach-O.
pub open spec fn spec_segment_name(segment: StandardSegment) -> Seq<u8> {
    match segment {
        StandardSegment::Text => "__TEXT".spec_bytes(),
        StandardSegment::Data => "__DATA".spec_bytes(),
        StandardSegment::Debug => "__DWARF".spec_bytes(),
    }
}

/// Return the name of a standard segment in Mach-O.
pub fn segment_name(segment: StandardSegment) -> (name: Vec<u8>)
    ensures
        name@ == spec_segment_name(segment),
{
    match segment {
        StandardSegment::Text => "__TEXT".as_bytes_vec(),
        StandardSegment::Data => "__DATA".as_bytes_vec(),
        StandardSegment::Debug => "__DWARF".as_bytes_vec(),
    }
}

/// The section that stands for a standard section in Mach-O.
///
/// Mach-O has no section for notes: theirs has an empty segment and name.
pub open spec fn spec_section_info(section: StandardSection) -> SectionInfo {
    let text = spec_segment_name(StandardSegment::Text);
    let data = spec_segment_name(StandardSegment::Data);
    let (segment, name, kind) = match section {
        StandardSection::Text => (text, "__text".spec_bytes(), SectionKind::Text),
        StandardSection::Data => (data, "__data".spec_bytes(), SectionKind::Data),
        StandardSection::ReadOnlyData => (text, "__const".spec_bytes(), SectionKind::ReadOnlyData),
        StandardSection::ReadOnlyDataWithRel => (
            data,
            "__const".spec_bytes(),
            SectionKind::ReadOnlyDataWithRel,
        ),
        StandardSection::ReadOnlyString => (
            text,
            "__cstring".spec_bytes(),
            SectionKind::ReadOnlyString,
        ),
        StandardSection::UninitializedData => (
            data,
            "__bss".spec_bytes(),
            SectionKind::UninitializedData,
        ),
        StandardSection::Tls => (data, "__thread_data".spec_bytes(), SectionKind::Tls),
        StandardSection::UninitializedTls => (
            data,
            "__thread_bss".spec_bytes(),
            SectionKind::UninitializedTls,
        ),
        StandardSection::TlsVariables => (
            data,
            "__thread_vars".spec_bytes(),
            SectionKind::TlsVariables,
        ),
        StandardSection::Common => (data, "__common".spec_bytes(), SectionKind::Common),
        StandardSection::GnuProperty => (Seq::empty(), Seq::empty(), SectionKind::Note),
    };
    SectionInfo { segment, name, kind, flags: SectionFlags::Unset }
}

/// Return the segment, name, kind and flags of the section that stands for a
/// standard section in Mach-O.
pub fn section_info(section: StandardSection) -> (r: (Vec<u8>, Vec<u8>, SectionKind, SectionFlags))
    ensures
        SectionInfo::of(r) == spec_section_info(section),
{
    let flags = SectionFlags::Unset;
    match section {
        StandardSection::Text => (
            segment_name(StandardSegment::Text),
            "__text".as_bytes_vec(),
            SectionKind::Text,
            flags,
        ),
        StandardSection::Data => (
            segment_name(StandardSegment::Data),
            "__data".as_bytes_vec(),
            SectionKind::Data,
            flags,
        ),
        StandardSection::ReadOnlyData => (
            segment_name(StandardSegment::Text),
            "__const".as_bytes_vec(),
            SectionKind::ReadOnlyData,
            flags,
        ),
        StandardSection::ReadOnlyDataWithRel => (
            segment_name(StandardSegment::Data),
            "__const".as_bytes_vec(),
            SectionKind::ReadOnlyDataWithRel,
            flags,
        ),
        StandardSection::ReadOnlyString => (
            segment_name(StandardSegment::Text),
            "__cstring".as_bytes_vec(),
            SectionKind::ReadOnlyString,
            flags,
        ),
        StandardSection::UninitializedData => (
            segment_name(StandardSegment::Data),
            "__bss".as_bytes_vec(),
            SectionKind::UninitializedData,
            flags,
        ),
        StandardSection::Tls => (
            segment_name(StandardSegment::Data),
            "__thread_data".as_bytes_vec(),
            SectionKind::Tls,
            flags,
        ),
        StandardSection::UninitializedTls => (
            segment_name(StandardSegment::Data),
            "__thread_bss".as_bytes_vec(),
            SectionKind::UninitializedTls,
            flags,
        ),
        StandardSection::TlsVariables => (
            segment_name(StandardSegment::Data),
            "__thread_vars".as_bytes_vec(),
            SectionKind::TlsVariables,
            flags,
        ),
        StandardSection::Common => (
            segment_name(StandardSegment::Data),
            "__common".as_bytes_vec(),
            SectionKind::Common,
            flags,
        ),
        StandardSection::GnuProperty => (Vec::new(), Vec::new(), SectionKind::Note, flags),
    }
}

/// The flags that a section of the given kind gets, where Mach-O has such sections.
pub open spec fn spec_section_flags(kind: SectionKind) -> SectionFlags {
    match kind {
        SectionKind::Text => SectionFlags::MachO {
            flags: S_ATTR_PURE_INSTRUCTIONS | S_ATTR_SOME_INSTRUCTIONS,
        },
        SectionKind::Data | SectionKind::ReadOnlyData | SectionKind::ReadOnlyDataWithRel
        | SectionKind::Other | SectionKind::Linker | SectionKind::Metadata => SectionFlags::MachO {
            flags: 0,
        },
        SectionKind::ReadOnlyString | SectionKind::OtherString => SectionFlags::MachO {
            flags: S_CSTRING_LITERALS,
        },
        SectionKind::UninitializedData | SectionKind::Common => SectionFlags::MachO {
            flags: S_ZEROFILL,
        },
        SectionKind::Tls => SectionFlags::MachO { flags: S_THREAD_LOCAL_REGULAR },
        SectionKind::UninitializedTls => SectionFlags::MachO { flags: S_THREAD_LOCAL_ZEROFILL },
        SectionKind::TlsVariables => SectionFlags::MachO { flags: S_THREAD_LOCAL_VARIABLES },
        SectionKind::Debug | SectionKind::DebugString => SectionFlags::MachO {
            flags: S_ATTR_DEBUG,
        },
        SectionKind::Note | SectionKind::Unknown | SectionKind::Elf(_) => SectionFlags::Unset,
    }
}

/// Return the flags that a section of the given kind gets in Mach-O.
pub fn section_flags(kind: SectionKind) -> (flags: SectionFlags)
    ensures
        flags == spec_section_flags(kind),
{
    match kind {
        SectionKind::Text => SectionFlags::MachO {
            flags: S_ATTR_PURE_INSTRUCTIONS | S_ATTR_SOME_INSTRUCTIONS,
        },
        SectionKind::Data | SectionKind::ReadOnlyData | SectionKind::ReadOnlyDataWithRel
        | SectionKind::Other | SectionKind::Linker | SectionKind::Metadata => SectionFlags::MachO {
            flags: 0,
        },
        SectionKind::ReadOnlyString | SectionKind::OtherString => SectionFlags::MachO {
            flags: S_CSTRING_LITERALS,
        },
        SectionKind::UninitializedData | SectionKind::Common => SectionFlags::MachO {
            flags: S_ZEROFILL,
        },
        SectionKind::Tls => SectionFlags::MachO { flags: S_THREAD_LOCAL_REGULAR },
        SectionKind::UninitializedTls => SectionFlags::MachO { flags: S_THREAD_LOCAL_ZEROFILL },
        SectionKind::TlsVariables => SectionFlags::MachO { flags: S_THREAD_LOCAL_VARIABLES },
        SectionKind::Debug | SectionKind::DebugString => SectionFlags::MachO {
            flags: S_ATTR_DEBUG,
        },
        SectionKind::Note | SectionKind::Unknown | SectionKind::Elf(_) => SectionFlags::Unset,
    }
}

/// The flags that a symbol gets in Mach-O: whether it is a weak reference
/// or a weak definition.
pub open spec fn spec_symbol_flags(symbol: SymbolView) -> SymbolFlags {
    SymbolFlags::MachO {
        n_desc: if !symbol.weak {
            0
        } else if symbol.section == SymbolSection::Undefined {
            N_WEAK_REF
        } else {
            N_WEAK_DEF
        },
    }
}

/// Return the flags that a symbol gets in Mach-O.
pub fn symbol_flags(symbol: &Symbol) -> (flags: SymbolFlags)
    ensures
        flags == spec_symbol_flags(symbol@),
{
    let n_desc: u16 = if !symbol.weak {
        0
    } else if symbol.is_undefined() {
        N_WEAK_REF
    } else {
        N_WEAK_DEF
    };
    SymbolFlags::MachO { n_desc }
}

/// True for the architectures that Mach-O objects can hold relocations for.
pub open spec fn spec_supports(architecture: Architecture) -> bool {
    architecture == Architecture::I386 || architecture == Architecture::X86_64 || architecture
        == Architecture::Aarch64 || architecture == Architecture::Aarch64_Ilp32
}

/// The `r_length` of a relocation of the given size in bits: the binary
/// logarithm of its size in bytes. On AArch64 the fields of 12, 21 and 26
/// bits count as words.
pub open spec fn spec_relocation_length(architecture: Architecture, size: u8) -> Option<u8> {
    if architecture == Architecture::Aarch64 && (size == 12 || size == 21 || size == 26) {
        Some(2u8)
    } else if size == 8 {
        Some(0u8)
    } else if size == 16 {
        Some(1u8)
    } else if size == 32 {
        Some(2u8)
    } else if size == 64 {
        Some(3u8)
    } else {
        None
    }
}

/// The relocation type that Mach-O has for a relocation of the given kind
/// and encoding on the given architecture, and whether it is relative to
/// the place.
pub open spec fn spec_relocation_type(
    architecture: Architecture,
    kind: RelocationKind,
    encoding: RelocationEncoding,
) -> Option<(bool, u8)> {
    let absolute = kind == RelocationKind::Absolute;
    let relative = kind == RelocationKind::Relative;
    let generic = encoding == RelocationEncoding::Generic;
    match architecture {
        Architecture::I386 => {
            if absolute {
                Some((false, GENERIC_RELOC_VANILLA))
            } else {
                None
            }
        },
        Architecture::X86_64 => {
            if absolute && generic {
                Some((false, X86_64_RELOC_UNSIGNED))
            } else if relative && (generic || encoding == RelocationEncoding::X86RipRelative) {
                Some((true, X86_64_RELOC_SIGNED))
            } else if (relative || kind == RelocationKind::PltRelative) && encoding
                == RelocationEncoding::X86Branch {
                Some((true, X86_64_RELOC_BRANCH))
            } else if kind == RelocationKind::GotRelative && generic {
                Some((true, X86_64_RELOC_GOT))
            } else if kind == RelocationKind::GotRelative && encoding
                == RelocationEncoding::X86RipRelativeMovq {
                Some((true, X86_64_RELOC_GOT_LOAD))
            } else {
                None
            }
        },
        Architecture::Aarch64 | Architecture::Aarch64_Ilp32 => {
            if absolute && generic {
                Some((false, ARM64_RELOC_UNSIGNED))
            } else if relative && encoding == RelocationEncoding::AArch64Call {
                Some((true, ARM64_RELOC_BRANCH26))
            } else {
                None
            }
        },
        _ => None,
    }
}

/// The Mach-O fields of a relocation of the given kind, encoding and size:
/// `r_type`, `r_pcrel` and `r_length`.
pub open spec fn spec_translate(
    architecture: Architecture,
    kind: RelocationKind,
    encoding: RelocationEncoding,
    size: u8,
) -> Result<(u8, bool, u8), ErrorKind> {
    match spec_relocation_length(architecture, size) {
        None => Err(ErrorKind::UnsupportedRelocation),
        Some(r_length) => if !spec_supports(architecture) {
            Err(ErrorKind::UnsupportedArchitecture)
        } else {
            match spec_relocation_type(architecture, kind, encoding) {
                Some((r_pcrel, r_type)) => Ok((r_type, r_pcrel, r_length)),
                None => Err(ErrorKind::UnsupportedRelocation),
            }
        },
    }
}

/// What is added to the addend of a relocation that is relative to the
/// place: the distance from the place to the next instruction, which Mach-O
/// does not count into the addend.
pub open spec fn spec_addend_offset(architecture: Architecture, r_type: u8, r_pcrel: bool) -> i64 {
    if !r_pcrel {
        0i64
    } else {
        match architecture {
            Architecture::I386 => 4i64,
            Architecture::X86_64 => if r_type == X86_64_RELOC_SIGNED_1 {
                5i64
            } else if r_type == X86_64_RELOC_SIGNED_2 {
                6i64
            } else if r_type == X86_64_RELOC_SIGNED_4 {
                8i64
            } else {
                4i64
            },
            _ => 0i64,
        }
    }
}

/// Whether a relocation of the given type keeps its addend in section data.
/// All do, but the branch and page relocations of AArch64.
pub open spec fn spec_is_implicit(architecture: Architecture, r_type: u8) -> bool {
    !(architecture == Architecture::Aarch64 && (r_type == ARM64_RELOC_BRANCH26 || r_type
        == ARM64_RELOC_PAGE21 || r_type == ARM64_RELOC_PAGEOFF12))
}

/// The width in bits of a field of the given `r_length`.
pub open spec fn spec_relocation_size(r_length: u8) -> Result<u8, ErrorKind> {
    if r_length == 0 {
        Ok(8u8)
    } else if r_length == 1 {
        Ok(16u8)
    } else if r_length == 2 {
        Ok(32u8)
    } else if r_length == 3 {
        Ok(64u8)
    } else {
        Err(ErrorKind::UnsupportedRelocation)
    }
}

/// Return true if Mach-O objects can hold relocations for the architecture.
pub fn supports(architecture: Architecture) -> (r: bool)
    ensures
        r == spec_supports(architecture),
{
    architecture == Architecture::I386 || architecture == Architecture::X86_64 || architecture
        == Architecture::Aarch64 || architecture == Architecture::Aarch64_Ilp32
}

/// Return the `r_length` of a relocation of the given size in bits.
pub fn relocation_length(architecture: Architecture, size: u8) -> (r: Option<u8>)
    ensures
        r == spec_relocation_length(architecture, size),
{
    if architecture == Architecture::Aarch64 && (size == 12 || size == 21 || size == 26) {
        Some(2u8)
    } else if size == 8 {
        Some(0u8)
    } else if size == 16 {
        Some(1u8)
    } else if size == 32 {
        Some(2u8)
    } else if size == 64 {
        Some(3u8)
    } else {
        None
    }
}

/// Return the relocation type that Mach-O has for a relocation of the given
/// kind and encoding, and whether it is relative to the place.
pub fn relocation_type(
    architecture: Architecture,
    kind: RelocationKind,
    encoding: RelocationEncoding,
) -> (r: Option<(bool, u8)>)
    ensures
        r == spec_relocation_type(architecture, kind, encoding),
{
    let absolute = kind == RelocationKind::Absolute;
    let relative = kind == RelocationKind::Relative;
    let generic = encoding == RelocationEncoding::Generic;
    match architecture {
        Architecture::I386 => {
            if absolute {
                Some((false, GENERIC_RELOC_VANILLA))
            } else {
                None
            }
        },
        Architecture::X86_64 => {
            if absolute && generic {
                Some((false, X86_64_RELOC_UNSIGNED))
            } else if relative && (generic || encoding == RelocationEncoding::X86RipRelative) {
                Some((true, X86_64_RELOC_SIGNED))
            } else if (relative || kind == RelocationKind::PltRelative) && encoding
                == RelocationEncoding::X86Branch {
                Some((true, X86_64_RELOC_BRANCH))
            } else if kind == RelocationKind::GotRelative && generic {
                Some((true, X86_64_RELOC_GOT))
            } else if kind == RelocationKind::GotRelative && encoding
                == RelocationEncoding::X86RipRelativeMovq {
                Some((true, X86_64_RELOC_GOT_LOAD))
            } else {
                None
            }
        },
        Architecture::Aarch64 | Architecture::Aarch64_Ilp32 => {
            if absolute && generic {
                Some((false, ARM64_RELOC_UNSIGNED))
            } else if relative && encoding == RelocationEncoding::AArch64Call {
                Some((true, ARM64_RELOC_BRANCH26))
            } else {
                None
            }
        },
        _ => None,
    }
}

/// Return the Mach-O fields of a relocation of the given kind, encoding and size.
pub fn translate(
    architecture: Architecture,
    kind: RelocationKind,
    encoding: RelocationEncoding,
    size: u8,
) -> (r: Result<(u8, bool, u8), ErrorKind>)
    ensures
        r == spec_translate(architecture, kind, encoding, size),
{
    match relocation_length(architecture, size) {
        None => Err(ErrorKind::UnsupportedRelocation),
        Some(r_length) => if !supports(architecture) {
            Err(ErrorKind::UnsupportedArchitecture)
        } else {
            match relocation_type(architecture, kind, encoding) {
                Some((r_pcrel, r_type)) => Ok((r_type, r_pcrel, r_length)),
                None => Err(ErrorKind::UnsupportedRelocation),
            }
        },
    }
}

/// Return what is added to the addend of a relocation.
pub fn addend_offset(architecture: Architecture, r_type: u8, r_pcrel: bool) -> (r: i64)
    ensures
        r == spec_addend_offset(architecture, r_type, r_pcrel),
{
    if !r_pcrel {
        0i64
    } else {
        match architecture {
            Architecture::I386 => 4i64,
            Architecture::X86_64 => if r_type == X86_64_RELOC_SIGNED_1 {
                5i64
            } else if r_type == X86_64_RELOC_SIGNED_2 {
                6i64
            } else if r_type == X86_64_RELOC_SIGNED_4 {
                8i64
            } else {
                4i64
            },
            _ => 0i64,
        }
    }
}

/// Return whether a relocation of the given type keeps its addend in section data.
pub fn is_implicit(architecture: Architecture, r_type: u8) -> (r: bool)
    ensures
        r == spec_is_implicit(architecture, r_type),
{
    !(architecture == Architecture::Aarch64 && (r_type == ARM64_RELOC_BRANCH26 || r_type
        == ARM64_RELOC_PAGE21 || r_type == ARM64_RELOC_PAGEOFF12))
}

/// Return the width in bits of a field of the given `r_length`.
pub fn relocation_size(r_length: u8) -> (r: Result<u8, ErrorKind>)
    ensures
        r == spec_relocation_size(r_length),
{
    if r_length == 0 {
        Ok(8u8)
    } else if r_length == 1 {
        Ok(16u8)
    } else if r_length == 2 {
        Ok(32u8)
    } else if r_length == 3 {
        Ok(64u8)
    } else {
        Err(ErrorKind::UnsupportedRelocation)
    }
}

} // verus!
