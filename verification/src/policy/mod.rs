//! The conventions of each container format, and the choice among them.
//!
//! Every function here takes the format of the object, and the architecture
//! where the answer depends on it, and hands the question to the module of
//! that format.

pub mod coff;
pub mod elf;
pub mod macho;
pub mod xcoff;

use vstd::prelude::*;
use crate::common::{Architecture, BinaryFormat, RelocationFlags, SectionFlags, SectionKind};
use crate::error::{Error, ErrorKind};
use crate::relocation::Relocation;
use crate::section::{StandardSection, StandardSegment};
use crate::symbol::{Symbol, SymbolFlags, SymbolView};

verus! {

/// The segment, name, kind and flags of a section, as plain values.
pub struct SectionInfo {
    pub segment: Seq<u8>,
    pub name: Seq<u8>,
    pub kind: SectionKind,
    pub flags: SectionFlags,
}

impl SectionInfo {
    /// What the four values say.
    pub open spec fn of(parts: (Vec<u8>, Vec<u8>, SectionKind, SectionFlags)) -> SectionInfo {
        SectionInfo { segment: parts.0@, name: parts.1@, kind: parts.2, flags: parts.3 }
    }

    /// True if a section of the given segment, name and kind stands for the
    /// standard section that this describes.
    pub open spec fn matches(self, segment: Seq<u8>, name: Seq<u8>, kind: SectionKind) -> bool {
        self.segment == segment && self.name == name && self.kind == kind
    }
}

/// The section that stands for a standard section in the given format, for
/// the formats that objects can be built for.
pub open spec fn spec_section_info(format: BinaryFormat, section: StandardSection) -> SectionInfo {
    match format {
        BinaryFormat::Coff => coff::spec_section_info(section),
        BinaryFormat::Elf => elf::spec_section_info(section),
        BinaryFormat::MachO => macho::spec_section_info(section),
        _ => xcoff::spec_section_info(section),
    }
}

/// Return the segment, name, kind and flags of the section that stands for a
/// standard section in the given format.
pub fn section_info(format: BinaryFormat, section: StandardSection) -> (r: (
    Vec<u8>,
    Vec<u8>,
    SectionKind,
    SectionFlags,
))
    requires
        format.is_writable(),
    ensures
        SectionInfo::of(r) == spec_section_info(format, section),
{
    match format {
        BinaryFormat::Coff => coff::section_info(section),
        BinaryFormat::Elf => elf::section_info(section),
        BinaryFormat::MachO => macho::section_info(section),
        _ => xcoff::section_info(section),
    }
}

/// The formats that have names for standard segments.
pub open spec fn spec_has_segment_names(format: BinaryFormat) -> bool {
    format == BinaryFormat::Coff || format == BinaryFormat::Elf || format == BinaryFormat::MachO
}

/// The name of a standard segment: empty but in Mach-O.
pub open spec fn spec_segment_name(format: BinaryFormat, segment: StandardSegment) -> Seq<u8> {
    if format == BinaryFormat::MachO {
        macho::spec_segment_name(segment)
    } else {
        Seq::empty()
    }
}

/// Return the name of a standard segment.
pub fn segment_name(format: BinaryFormat, segment: StandardSegment) -> (name: Vec<u8>)
    requires
        spec_has_segment_names(format),
    ensures
        name@ == spec_segment_name(format, segment),
{
    match format {
        BinaryFormat::MachO => macho::segment_name(segment),
        _ => Vec::new(),
    }
}

/// The formats that tell subsections apart by symbols and not by names.
pub open spec fn spec_has_subsections_via_symbols(format: BinaryFormat) -> bool {
    format == BinaryFormat::MachO
}

/// Return true if the format tells subsections apart by symbols.
pub fn has_subsections_via_symbols(format: BinaryFormat) -> (r: bool)
    ensures
        r == spec_has_subsections_via_symbols(format),
{
    format == BinaryFormat::MachO
}

/// The formats that name subsections.
pub open spec fn spec_has_subsection_names(format: BinaryFormat) -> bool {
    format == BinaryFormat::Coff || format == BinaryFormat::Elf
}

/// The name of the subsection `value` of the section `section`, for the
/// formats that name subsections.
pub open spec fn spec_subsection_name(format: BinaryFormat, section: Seq<u8>, value: Seq<u8>) -> Seq<
    u8,
> {
    if format == BinaryFormat::Coff {
        coff::spec_subsection_name(section, value)
    } else {
        elf::spec_subsection_name(section, value)
    }
}

/// Return the name of the subsection `value` of the section `section`.
pub fn subsection_name(format: BinaryFormat, section: &[u8], value: &[u8]) -> (name: Vec<u8>)
    requires
        spec_has_subsection_names(format),
    ensures
        name@ == spec_subsection_name(format, section@, value@),
{
    match format {
        BinaryFormat::Coff => coff::subsection_name(section, value),
        _ => elf::subsection_name(section, value),
    }
}

/// The flags that a section of the given kind gets when none are set.
pub open spec fn spec_section_flags(format: BinaryFormat, kind: SectionKind) -> SectionFlags {
    match format {
        BinaryFormat::Coff => coff::spec_section_flags(kind),
        BinaryFormat::Elf => elf::spec_section_flags(kind),
        BinaryFormat::MachO => macho::spec_section_flags(kind),
        BinaryFormat::Xcoff => xcoff::spec_section_flags(kind),
        _ => SectionFlags::Unset,
    }
}

/// Return the flags that a section of the given kind gets when none are set.
pub fn section_flags(format: BinaryFormat, kind: SectionKind) -> (flags: SectionFlags)
    ensures
        flags == spec_section_flags(format, kind),
{
    match format {
        BinaryFormat::Coff => coff::section_flags(kind),
        BinaryFormat::Elf => elf::section_flags(kind),
        BinaryFormat::MachO => macho::section_flags(kind),
        BinaryFormat::Xcoff => xcoff::section_flags(kind),
        _ => SectionFlags::Unset,
    }
}

/// The flags that a symbol gets when none are set. COFF has none.
pub open spec fn spec_symbol_flags(format: BinaryFormat, symbol: SymbolView) -> SymbolFlags {
    match format {
        BinaryFormat::Elf => elf::spec_symbol_flags(symbol),
        BinaryFormat::MachO => macho::spec_symbol_flags(symbol),
        BinaryFormat::Xcoff => xcoff::spec_symbol_flags(symbol),
        _ => SymbolFlags::Unset,
    }
}

/// Return the flags that a symbol gets when none are set.
pub fn symbol_flags(format: BinaryFormat, symbol: &Symbol) -> (flags: SymbolFlags)
    ensures
        flags == spec_symbol_flags(format, symbol@),
{
    match format {
        BinaryFormat::Elf => elf::symbol_flags(symbol),
        BinaryFormat::MachO => macho::symbol_flags(symbol),
        BinaryFormat::Xcoff => xcoff::symbol_flags(symbol),
        _ => SymbolFlags::Unset,
    }
}

/// The result of a table that knows kinds of failure only, as a result of the builder.
pub open spec fn spec_lift<T>(r: Result<T, ErrorKind>) -> Result<T, Error> {
    match r {
        Ok(t) => Ok(t),
        Err(kind) => Err(Error::of_kind(kind)),
    }
}

/// The relocation with the fields of the object's format in place of a
/// format-neutral description. A relocation that already has the fields of
/// some format is left as it is. For the formats that objects can be built
/// for.
pub open spec fn spec_translate(
    format: BinaryFormat,
    architecture: Architecture,
    relocation: Relocation,
) -> Result<Relocation, Error> {
    match relocation.flags {
        RelocationFlags::Generic { kind, encoding, size } => {
            let flags: Result<RelocationFlags, ErrorKind> = match format {
                BinaryFormat::Coff => match coff::spec_relocation_type(
                    architecture,
                    kind,
                    size,
                    relocation.addend,
                ) {
                    Ok(typ) => Ok(RelocationFlags::Coff { typ }),
                    Err(e) => Err(e),
                },
                BinaryFormat::Elf => match elf::spec_relocation_type(
                    architecture,
                    kind,
                    encoding,
                    size,
                ) {
                    Ok(r_type) => Ok(RelocationFlags::Elf { r_type }),
                    Err(e) => Err(e),
                },
                BinaryFormat::MachO => match macho::spec_translate(
                    architecture,
                    kind,
                    encoding,
                    size,
                ) {
                    Ok((r_type, r_pcrel, r_length)) => Ok(
                        RelocationFlags::MachO { r_type, r_pcrel, r_length },
                    ),
                    Err(e) => Err(e),
                },
                _ => match xcoff::spec_translate(kind, size) {
                    Ok((r_rtype, r_rsize)) => Ok(RelocationFlags::Xcoff { r_rtype, r_rsize }),
                    Err(e) => Err(e),
                },
            };
            match flags {
                Ok(flags) => Ok(Relocation { flags, ..relocation }),
                Err(kind) => Err(Error::of_kind(kind)),
            }
        },
        _ => Ok(relocation),
    }
}

/// Return the relocation with the fields of the object's format.
pub fn translate(format: BinaryFormat, architecture: Architecture, relocation: Relocation) -> (r:
    Result<Relocation, Error>)
    requires
        format.is_writable(),
    ensures
        r == spec_translate(format, architecture, relocation),
{
    match relocation.flags {
        RelocationFlags::Generic { kind, encoding, size } => {
            let flags: Result<RelocationFlags, ErrorKind> = match format {
                BinaryFormat::Coff => match coff::relocation_type(
                    architecture,
                    kind,
                    size,
                    relocation.addend,
                ) {
                    Ok(typ) => Ok(RelocationFlags::Coff { typ }),
                    Err(e) => Err(e),
                },
                BinaryFormat::Elf => match elf::relocation_type(
                    architecture,
                    kind,
                    encoding,
                    size,
                ) {
                    Ok(r_type) => Ok(RelocationFlags::Elf { r_type }),
                    Err(e) => Err(e),
                },
                BinaryFormat::MachO => match macho::translate(architecture, kind, encoding, size) {
                    Ok((r_type, r_pcrel, r_length)) => Ok(
                        RelocationFlags::MachO { r_type, r_pcrel, r_length },
                    ),
                    Err(e) => Err(e),
                },
                _ => match xcoff::translate(kind, size) {
                    Ok((r_rtype, r_rsize)) => Ok(RelocationFlags::Xcoff { r_rtype, r_rsize }),
                    Err(e) => Err(e),
                },
            };
            match flags {
                Ok(flags) => Ok(
                    Relocation {
                        offset: relocation.offset,
                        symbol: relocation.symbol,
                        addend: relocation.addend,
                        flags,
                    },
                ),
                Err(kind) => Err(Error::of_kind(kind)),
            }
        },
        _ => Ok(relocation),
    }
}

/// A relocation as it is stored, and where its addend is kept.
pub struct Adjusted {
    /// The relocation, with its addend as the format counts it.
    pub relocation: Relocation,
    /// True if the addend is kept in the section data at the place of the
    /// relocation, false if the relocation carries it.
    pub implicit: bool,
}

/// The relocation with its addend as the object's format counts it, and
/// whether the format keeps that addend in the section data.
///
/// The relocation must have the fields of the object's format, but in ELF,
/// where only the architecture matters. For the formats that objects can be
/// built for.
pub open spec fn spec_adjust_addend(
    format: BinaryFormat,
    architecture: Architecture,
    relocation: Relocation,
) -> Result<Adjusted, Error> {
    match format {
        BinaryFormat::Elf => match elf::spec_has_relocation_addend(architecture) {
            Some(explicit) => Ok(Adjusted { relocation, implicit: !explicit }),
            None => Err(Error::of_kind(ErrorKind::UnsupportedArchitecture)),
        },
        BinaryFormat::Coff => match relocation.flags {
            RelocationFlags::Coff { typ } => match coff::spec_addend_offset(architecture, typ) {
                Ok(offset) => Ok(
                    Adjusted {
                        relocation: Relocation {
                            addend: relocation.addend.wrapping_add(offset),
                            ..relocation
                        },
                        implicit: true,
                    },
                ),
                Err(kind) => Err(Error::of_kind(kind)),
            },
            _ => Err(Error::of_kind(ErrorKind::InvalidRelocationFlags)),
        },
        BinaryFormat::MachO => match relocation.flags {
            RelocationFlags::MachO { r_type, r_pcrel, r_length } => Ok(
                Adjusted {
                    relocation: Relocation {
                        addend: relocation.addend.wrapping_add(
                            macho::spec_addend_offset(architecture, r_type, r_pcrel),
                        ),
                        ..relocation
                    },
                    implicit: macho::spec_is_implicit(architecture, r_type),
                },
            ),
            _ => Err(Error::of_kind(ErrorKind::InvalidRelocationFlags)),
        },
        _ => match relocation.flags {
            RelocationFlags::Xcoff { r_rtype, r_rsize } => Ok(
                Adjusted {
                    relocation: Relocation {
                        addend: relocation.addend.wrapping_add(xcoff::spec_addend_offset(r_rtype)),
                        ..relocation
                    },
                    implicit: true,
                },
            ),
            _ => Err(Error::of_kind(ErrorKind::InvalidRelocationFlags)),
        },
    }
}

/// Return the relocation with its addend as the object's format counts it,
/// and whether the format keeps that addend in the section data.
pub fn adjust_addend(format: BinaryFormat, architecture: Architecture, relocation: Relocation) -> (r:
    Result<Adjusted, Error>)
    requires
        format.is_writable(),
    ensures
        r == spec_adjust_addend(format, architecture, relocation),
{
    let Relocation { offset, symbol, addend, flags } = relocation;
    match format {
        BinaryFormat::Elf => match elf::has_relocation_addend(architecture) {
            Some(explicit) => Ok(Adjusted { relocation, implicit: !explicit }),
            None => Err(Error::of_kind(ErrorKind::UnsupportedArchitecture)),
        },
        BinaryFormat::Coff => match flags {
            RelocationFlags::Coff { typ } => match coff::addend_offset(architecture, typ) {
                Ok(delta) => Ok(
                    Adjusted {
                        relocation: Relocation {
                            offset,
                            symbol,
                            addend: addend.wrapping_add(delta),
                            flags,
                        },
                        implicit: true,
                    },
                ),
                Err(kind) => Err(Error::of_kind(kind)),
            },
            _ => Err(Error::of_kind(ErrorKind::InvalidRelocationFlags)),
        },
        BinaryFormat::MachO => match flags {
            RelocationFlags::MachO { r_type, r_pcrel, r_length } => {
                let delta = macho::addend_offset(architecture, r_type, r_pcrel);
                Ok(
                    Adjusted {
                        relocation: Relocation {
                            offset,
                            symbol,
                            addend: addend.wrapping_add(delta),
                            flags,
                        },
                        implicit: macho::is_implicit(architecture, r_type),
                    },
                )
            },
            _ => Err(Error::of_kind(ErrorKind::InvalidRelocationFlags)),
        },
        _ => match flags {
            RelocationFlags::Xcoff { r_rtype, r_rsize } => {
                let delta = xcoff::addend_offset(r_rtype);
                Ok(
                    Adjusted {
                        relocation: Relocation {
                            offset,
                            symbol,
                            addend: addend.wrapping_add(delta),
                            flags,
                        },
                        implicit: true,
                    },
                )
            },
            _ => Err(Error::of_kind(ErrorKind::InvalidRelocationFlags)),
        },
    }
}

/// The width in bits of the field that a relocation with the given fields
/// patches, for the formats that objects can be built for.
pub open spec fn spec_relocation_size(
    format: BinaryFormat,
    architecture: Architecture,
    flags: RelocationFlags,
) -> Result<u8, Error> {
    let size: Result<u8, ErrorKind> = match format {
        BinaryFormat::Coff => match flags {
            RelocationFlags::Coff { typ } => coff::spec_relocation_size(architecture, typ),
            _ => Err(ErrorKind::InvalidRelocationFlags),
        },
        BinaryFormat::Elf => match flags {
            RelocationFlags::Elf { r_type } => elf::spec_relocation_size(architecture, r_type),
            _ => Err(ErrorKind::InvalidRelocationFlags),
        },
        BinaryFormat::MachO => match flags {
            RelocationFlags::MachO { r_type, r_pcrel, r_length } => macho::spec_relocation_size(
                r_length,
            ),
            _ => Err(ErrorKind::InvalidRelocationFlags),
        },
        _ => match flags {
            RelocationFlags::Xcoff { r_rtype, r_rsize } => xcoff::spec_relocation_size(r_rsize),
            _ => Err(ErrorKind::InvalidRelocationFlags),
        },
    };
    spec_lift(size)
}

/// Return the width in bits of the field that a relocation with the given fields patches.
pub fn relocation_size(format: BinaryFormat, architecture: Architecture, flags: RelocationFlags) -> (r:
    Result<u8, Error>)
    requires
        format.is_writable(),
    ensures
        r == spec_relocation_size(format, architecture, flags),
{
    let size: Result<u8, ErrorKind> = match format {
        BinaryFormat::Coff => match flags {
            RelocationFlags::Coff { typ } => coff::relocation_size(architecture, typ),
            _ => Err(ErrorKind::InvalidRelocationFlags),
        },
        BinaryFormat::Elf => match flags {
            RelocationFlags::Elf { r_type } => elf::relocation_size(architecture, r_type),
            _ => Err(ErrorKind::InvalidRelocationFlags),
        },
        BinaryFormat::MachO => match flags {
            RelocationFlags::MachO { r_type, r_pcrel, r_length } => macho::relocation_size(r_length),
            _ => Err(ErrorKind::InvalidRelocationFlags),
        },
        _ => match flags {
            RelocationFlags::Xcoff { r_rtype, r_rsize } => xcoff::relocation_size(r_rsize),
            _ => Err(ErrorKind::InvalidRelocationFlags),
        },
    };
    match size {
        Ok(size) => Ok(size),
        Err(kind) => Err(Error::of_kind(kind)),
    }
}

} // verus!
