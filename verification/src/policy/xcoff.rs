//! The conventions of XCOFF.

use vstd::prelude::*;
use vstd::string::*;
use crate::common::{RelocationKind, SectionFlags, SectionKind, SymbolKind, SymbolScope};
use crate::error::ErrorKind;
use crate::policy::SectionInfo;
use crate::section::StandardSection;
use crate::symbol::{Symbol, SymbolFlags, SymbolSection, SymbolView};

verus! {

pub const STYP_TEXT: u32 = 0x20;
pub const STYP_DATA: u32 = 0x40;
pub const STYP_BSS: u32 = 0x80;
pub const STYP_INFO: u32 = 0x200;
pub const STYP_TDATA: u32 = 0x400;
pub const STYP_TBSS: u32 = 0x800;
pub const STYP_DEBUG: u32 = 0x2000;

pub const C_EXT: u8 = 2;
pub const C_FILE: u8 = 103;
pub const C_HIDEXT: u8 = 107;
pub const C_WEAKEXT: u8 = 111;

pub const XTY_ER: u8 = 0;
pub const XTY_SD: u8 = 1;
pub const XTY_LD: u8 = 2;
pub const XTY_CM: u8 = 3;

pub const XMC_PR: u8 = 0;
pub const XMC_RW: u8 = 5;
pub const XMC_UA: u8 = 4;
pub const XMC_TL: u8 = 20;

pub const R_POS: u8 = 0x00;
pub const R_REL: u8 = 0x02;
pub const R_TOC: u8 = 0x03;

/// The section that stands for a standard section in XCOFF.
///
/// XCOFF has no sections for thread-local variable structures, common data
/// and notes: theirs has an empty name.
pub open spec fn spec_section_info(section: StandardSection) -> SectionInfo {
    let (name, kind) = match section {
        StandardSection::Text => (".text".spec_bytes(), SectionKind::Text),
        StandardSection::Data => (".data".spec_bytes(), SectionKind::Data),
        StandardSection::ReadOnlyData | StandardSection::ReadOnlyDataWithRel
        | StandardSection::ReadOnlyString => (".rdata".spec_bytes(), SectionKind::ReadOnlyData),
        StandardSection::UninitializedData => (".bss".spec_bytes(), SectionKind::UninitializedData),
        StandardSection::Tls => (".tdata".spec_bytes(), SectionKind::Tls),
        StandardSection::UninitializedTls => (".tbss".spec_bytes(), SectionKind::UninitializedTls),
        StandardSection::TlsVariables => (Seq::empty(), SectionKind::TlsVariables),
        StandardSection::Common => (Seq::empty(), SectionKind::Common),
        StandardSection::GnuProperty => (Seq::empty(), SectionKind::Note),
    };
    SectionInfo { segment: Seq::empty(), name, kind, flags: SectionFlags::Unset }
}

/// Return the segment, name, kind and flags of the section that stands for a
/// standard section in XCOFF.
pub fn section_info(section: StandardSection) -> (r: (Vec<u8>, Vec<u8>, SectionKind, SectionFlags))
    ensures
        SectionInfo::of(r) == spec_section_info(section),
{
    let segment: Vec<u8> = Vec::new();
    let flags = SectionFlags::Unset;
    match section {
        StandardSection::Text => (segment, ".text".as_bytes_vec(), SectionKind::Text, flags),
        StandardSection::Data => (segment, ".data".as_bytes_vec(), SectionKind::Data, flags),
        StandardSection::ReadOnlyData | StandardSection::ReadOnlyDataWithRel
        | StandardSection::ReadOnlyString => (
            segment,
            ".rdata".as_bytes_vec(),
            SectionKind::ReadOnlyData,
            flags,
        ),
        StandardSection::UninitializedData => (
            segment,
            ".bss".as_bytes_vec(),
            SectionKind::UninitializedData,
            flags,
        ),
        StandardSection::Tls => (segment, ".tdata".as_bytes_vec(), SectionKind::Tls, flags),
        StandardSection::UninitializedTls => (
            segment,
            ".tbss".as_bytes_vec(),
            SectionKind::UninitializedTls,
            flags,
        ),
        StandardSection::TlsVariables => (segment, Vec::new(), SectionKind::TlsVariables, flags),
        StandardSection::Common => (segment, Vec::new(), SectionKind::Common, flags),
        StandardSection::GnuProperty => (segment, Vec::new(), SectionKind::Note, flags),
    }
}

/// The section type that a section of the given kind gets, where XCOFF has
/// such sections.
pub open spec fn spec_section_flags(kind: SectionKind) -> SectionFlags {
    match kind {
        SectionKind::Text | SectionKind::ReadOnlyData | SectionKind::ReadOnlyString
        | SectionKind::ReadOnlyDataWithRel => SectionFlags::Xcoff { s_flags: STYP_TEXT },
        SectionKind::Data => SectionFlags::Xcoff { s_flags: STYP_DATA },
        SectionKind::UninitializedData => SectionFlags::Xcoff { s_flags: STYP_BSS },
        SectionKind::Tls => SectionFlags::Xcoff { s_flags: STYP_TDATA },
        SectionKind::UninitializedTls => SectionFlags::Xcoff { s_flags: STYP_TBSS },
        SectionKind::OtherString => SectionFlags::Xcoff { s_flags: STYP_INFO },
        SectionKind::Debug | SectionKind::DebugString => SectionFlags::Xcoff {
            s_flags: STYP_DEBUG,
        },
        SectionKind::Other | SectionKind::Metadata => SectionFlags::Xcoff { s_flags: 0 },
        _ => SectionFlags::Unset,
    }
}

/// Return the flags that a section of the given kind gets in XCOFF.
pub fn section_flags(kind: SectionKind) -> (flags: SectionFlags)
    ensures
        flags == spec_section_flags(kind),
{
    match kind {
        SectionKind::Text | SectionKind::ReadOnlyData | SectionKind::ReadOnlyString
        | SectionKind::ReadOnlyDataWithRel => SectionFlags::Xcoff { s_flags: STYP_TEXT },
        SectionKind::Data => SectionFlags::Xcoff { s_flags: STYP_DATA },
        SectionKind::UninitializedData => SectionFlags::Xcoff { s_flags: STYP_BSS },
        SectionKind::Tls => SectionFlags::Xcoff { s_flags: STYP_TDATA },
        SectionKind::UninitializedTls => SectionFlags::Xcoff { s_flags: STYP_TBSS },
        SectionKind::OtherString => SectionFlags::Xcoff { s_flags: STYP_INFO },
        SectionKind::Debug | SectionKind::DebugString => SectionFlags::Xcoff {
            s_flags: STYP_DEBUG,
        },
        SectionKind::Other | SectionKind::Metadata => SectionFlags::Xcoff { s_flags: 0 },
        _ => SectionFlags::Unset,
    }
}

/// The flags that a symbol gets in XCOFF.
///
/// The storage class says how the symbol is bound: a file symbol, weak,
/// external (undefined, or visible beyond the compilation unit) or hidden.
/// The symbol type says whether it is a reference, common data, a section
/// definition or a label. The storage mapping class follows the kind.
pub open spec fn spec_symbol_flags(symbol: SymbolView) -> SymbolFlags {
    let undefined = symbol.section == SymbolSection::Undefined;
    SymbolFlags::Xcoff {
        n_sclass: if symbol.kind == SymbolKind::File {
            C_FILE
        } else if symbol.weak {
            C_WEAKEXT
        } else if undefined || symbol.scope == SymbolScope::Linkage || symbol.scope
            == SymbolScope::Dynamic {
            C_EXT
        } else {
            C_HIDEXT
        },
        x_smtyp: if undefined {
            XTY_ER
        } else if symbol.section == SymbolSection::Common {
            XTY_CM
        } else if symbol.kind == SymbolKind::Section {
            XTY_SD
        } else {
            XTY_LD
        },
        x_smclas: match symbol.kind {
            SymbolKind::Text => XMC_PR,
            SymbolKind::Data => XMC_RW,
            SymbolKind::Tls => XMC_TL,
            _ => XMC_UA,
        },
        containing_csect: None,
    }
}

/// Return the flags that a symbol gets in XCOFF.
pub fn symbol_flags(symbol: &Symbol) -> (flags: SymbolFlags)
    ensures
        flags == spec_symbol_flags(symbol@),
{
    let undefined = symbol.is_undefined();
    let n_sclass: u8 = if symbol.kind == SymbolKind::File {
        C_FILE
    } else if symbol.weak {
        C_WEAKEXT
    } else if undefined || symbol.scope == SymbolScope::Linkage || symbol.scope
        == SymbolScope::Dynamic {
        C_EXT
    } else {
        C_HIDEXT
    };
    let x_smtyp: u8 = if undefined {
        XTY_ER
    } else if symbol.is_common() {
        XTY_CM
    } else if symbol.kind == SymbolKind::Section {
        XTY_SD
    } else {
        XTY_LD
    };
    let x_smclas: u8 = match symbol.kind {
        SymbolKind::Text => XMC_PR,
        SymbolKind::Data => XMC_RW,
        SymbolKind::Tls => XMC_TL,
        _ => XMC_UA,
    };
    SymbolFlags::Xcoff { n_sclass, x_smtyp, x_smclas, containing_csect: None }
}

/// The XCOFF fields of a relocation of the given kind and size in bits:
/// `r_rtype`, and `r_rsize`, which is one less than the size.
pub open spec fn spec_translate(kind: RelocationKind, size: u8) -> Result<(u8, u8), ErrorKind> {
    if size == 0 {
        Err(ErrorKind::UnsupportedRelocation)
    } else if kind == RelocationKind::Absolute {
        Ok((R_POS, (size - 1) as u8))
    } else if kind == RelocationKind::Relative {
        Ok((R_REL, (size - 1) as u8))
    } else if kind == RelocationKind::Got {
        Ok((R_TOC, (size - 1) as u8))
    } else {
        Err(ErrorKind::UnsupportedRelocation)
    }
}

/// Return the XCOFF fields of a relocation of the given kind and size in bits.
pub fn translate(kind: RelocationKind, size: u8) -> (r: Result<(u8, u8), ErrorKind>)
    ensures
        r == spec_translate(kind, size),
{
    if size == 0 {
        Err(ErrorKind::UnsupportedRelocation)
    } else if kind == RelocationKind::Absolute {
        Ok((R_POS, size - 1))
    } else if kind == RelocationKind::Relative {
        Ok((R_REL, size - 1))
    } else if kind == RelocationKind::Got {
        Ok((R_TOC, size - 1))
    } else {
        Err(ErrorKind::UnsupportedRelocation)
    }
}

/// What is added to the addend of a relocation of the given type: the
/// distance from the place of a relative relocation to the next instruction.
pub open spec fn spec_addend_offset(r_rtype: u8) -> i64 {
    if r_rtype == R_REL {
        4i64
    } else {
        0i64
    }
}

/// Return what is added to the addend of a relocation of the given type.
pub fn addend_offset(r_rtype: u8) -> (r: i64)
    ensures
        r == spec_addend_offset(r_rtype),
{
    if r_rtype == R_REL {
        4i64
    } else {
        0i64
    }
}

/// The width in bits of a field of the given `r_rsize`.
pub open spec fn spec_relocation_size(r_rsize: u8) -> Result<u8, ErrorKind> {
    if r_rsize == 255 {
        Err(ErrorKind::UnsupportedRelocation)
    } else {
        Ok((r_rsize + 1) as u8)
    }
}

/// Return the width in bits of a field of the given `r_rsize`.
pub fn relocation_size(r_rsize: u8) -> (r: Result<u8, ErrorKind>)
    ensures
        r == spec_relocation_size(r_rsize),
{
    if r_rsize == 255 {
        Err(ErrorKind::UnsupportedRelocation)
    } else {
        Ok(r_rsize + 1)
    }
}

} // verus!
