//! Sections: their content, alignment and relocations.

use vstd::prelude::*;
use vstd::arithmetic::div_mod::{lemma_fundamental_div_mod, lemma_mod_multiples_basic};
use crate::bytes::{append_bytes, append_zeros, spec_text, text, zeros};
use crate::common::{SectionFlags, SectionKind};
use crate::ids::SymbolId;
use crate::relocation::Relocation;

verus! {

/// A standard segment kind.
#[derive(Debug, Clone, Copy, PartialEq, Eq, PartialOrd, Ord, Hash, Structural)]
#[non_exhaustive]
pub enum StandardSegment {
    Text,
    Data,
    Debug,
}

/// A standard section kind.
#[derive(Debug, Clone, Copy, PartialEq, Eq, PartialOrd, Ord, Hash, Structural)]
#[non_exhaustive]
pub enum StandardSection {
    Text,
    Data,
    ReadOnlyData,
    ReadOnlyDataWithRel,
    ReadOnlyString,
    UninitializedData,
    Tls,
    /// Zero-fill TLS initializers. Unsupported for COFF.
    UninitializedTls,
    /// TLS variable structures. Only supported for Mach-O.
    TlsVariables,
    /// Common data. Only supported for Mach-O.
    Common,
    /// Notes for GNU properties. Only supported for ELF.
    GnuProperty,
}

impl StandardSection {
    /// The section kind of a standard section.
    pub open spec fn spec_kind(self) -> SectionKind {
        match self {
            StandardSection::Text => SectionKind::Text,
            StandardSection::Data => SectionKind::Data,
            StandardSection::ReadOnlyData => SectionKind::ReadOnlyData,
            StandardSection::ReadOnlyDataWithRel => SectionKind::ReadOnlyDataWithRel,
            StandardSection::ReadOnlyString => SectionKind::ReadOnlyString,
            StandardSection::UninitializedData => SectionKind::UninitializedData,
            StandardSection::Tls => SectionKind::Tls,
            StandardSection::UninitializedTls => SectionKind::UninitializedTls,
            StandardSection::TlsVariables => SectionKind::TlsVariables,
            StandardSection::Common => SectionKind::Common,
            StandardSection::GnuProperty => SectionKind::Note,
        }
    }

    /// Return the section kind of a standard section.
    #[verifier::when_used_as_spec(spec_kind)]
    pub fn kind(self) -> (kind: SectionKind)
        ensures
            kind == self.spec_kind(),
    {
        match self {
            StandardSection::Text => SectionKind::Text,
            StandardSection::Data => SectionKind::Data,
            StandardSection::ReadOnlyData => SectionKind::ReadOnlyData,
            StandardSection::ReadOnlyDataWithRel => SectionKind::ReadOnlyDataWithRel,
            StandardSection::ReadOnlyString => SectionKind::ReadOnlyString,
            StandardSection::UninitializedData => SectionKind::UninitializedData,
            StandardSection::Tls => SectionKind::Tls,
            StandardSection::UninitializedTls => SectionKind::UninitializedTls,
            StandardSection::TlsVariables => SectionKind::TlsVariables,
            StandardSection::Common => SectionKind::Common,
            StandardSection::GnuProperty => SectionKind::Note,
        }
    }

    /// The position of a standard section in [`StandardSection::all`].
    pub open spec fn spec_index(self) -> usize {
        match self {
            StandardSection::Text => 0,
            StandardSection::Data => 1,
            StandardSection::ReadOnlyData => 2,
            StandardSection::ReadOnlyDataWithRel => 3,
            StandardSection::ReadOnlyString => 4,
            StandardSection::UninitializedData => 5,
            StandardSection::Tls => 6,
            StandardSection::UninitializedTls => 7,
            StandardSection::TlsVariables => 8,
            StandardSection::Common => 9,
            StandardSection::GnuProperty => 10,
        }
    }

    /// Return the position of a standard section in [`StandardSection::all`].
    #[verifier::when_used_as_spec(spec_index)]
    pub fn index(self) -> (i: usize)
        ensures
            i == self.spec_index(),
            i < 11,
    {
        match self {
            StandardSection::Text => 0,
            StandardSection::Data => 1,
            StandardSection::ReadOnlyData => 2,
            StandardSection::ReadOnlyDataWithRel => 3,
            StandardSection::ReadOnlyString => 4,
            StandardSection::UninitializedData => 5,
            StandardSection::Tls => 6,
            StandardSection::UninitializedTls => 7,
            StandardSection::TlsVariables => 8,
            StandardSection::Common => 9,
            StandardSection::GnuProperty => 10,
        }
    }

    /// The standard section at the given position of [`StandardSection::all`].
    pub open spec fn spec_at(index: usize) -> StandardSection {
        if index == 0 {
            StandardSection::Text
        } else if index == 1 {
            StandardSection::Data
        } else if index == 2 {
            StandardSection::ReadOnlyData
        } else if index == 3 {
            StandardSection::ReadOnlyDataWithRel
        } else if index == 4 {
            StandardSection::ReadOnlyString
        } else if index == 5 {
            StandardSection::UninitializedData
        } else if index == 6 {
            StandardSection::Tls
        } else if index == 7 {
            StandardSection::UninitializedTls
        } else if index == 8 {
            StandardSection::TlsVariables
        } else if index == 9 {
            StandardSection::Common
        } else {
            StandardSection::GnuProperty
        }
    }

    /// Every standard section has a position below 11, and stands at it.
    pub proof fn lemma_index(self)
        ensures
            self.spec_index() < 11,
            StandardSection::spec_at(self.spec_index()) == self,
    {
    }

    /// Return every standard section, each once, at the position that `index` gives it.
    pub fn all() -> (all: [StandardSection; 11])
        ensures
            forall|i: int| 0 <= i < 11 ==> #[trigger] all@[i] == StandardSection::spec_at(i as usize),
            forall|i: int| 0 <= i < 11 ==> (#[trigger] all@[i]).spec_index() == i,
    {
        [
            StandardSection::Text,
            StandardSection::Data,
            StandardSection::ReadOnlyData,
            StandardSection::ReadOnlyDataWithRel,
            StandardSection::ReadOnlyString,
            StandardSection::UninitializedData,
            StandardSection::Tls,
            StandardSection::UninitializedTls,
            StandardSection::TlsVariables,
            StandardSection::Common,
            StandardSection::GnuProperty,
        ]
    }
}

/// The alignments that sections accept: the powers of two.
pub open spec fn spec_is_power_of_two(align: u64) -> bool {
    align != 0 && align & ((align - 1) as u64) == 0
}

/// Return true if `align` is a power of two.
#[verifier::when_used_as_spec(spec_is_power_of_two)]
pub fn is_power_of_two(align: u64) -> (r: bool)
    ensures
        r == spec_is_power_of_two(align),
{
    align != 0 && align & (align - 1) == 0
}

/// The least multiple of `align` that is not below `offset`.
pub open spec fn align_up(offset: int, align: int) -> int {
    if offset % align == 0 {
        offset
    } else {
        offset + align - offset % align
    }
}

/// `align_up(offset, align)` is a multiple of `align` and lies less than
/// `align` above `offset`.
pub proof fn lemma_align_up(offset: int, align: int)
    requires
        0 <= offset,
        0 < align,
    ensures
        align_up(offset, align) % align == 0,
        offset <= align_up(offset, align) < offset + align,
{
    let up = align_up(offset, align);
    let q = offset / align;
    let r = offset % align;
    lemma_fundamental_div_mod(offset, align);
    if r != 0 {
        assert(up == (q + 1) * align) by (nonlinear_arith)
            requires
                up == offset + align - r,
                offset == align * q + r,
        ;
        lemma_mod_multiples_basic(q + 1, align);
    }
}

/// No multiple of `align` lies between `offset` and `align_up(offset, align)`.
pub proof fn lemma_align_up_least(offset: int, align: int, m: int)
    requires
        0 <= offset,
        0 < align,
        offset <= m,
        m % align == 0,
    ensures
        align_up(offset, align) <= m,
{
    let up = align_up(offset, align);
    let q = offset / align;
    let r = offset % align;
    lemma_fundamental_div_mod(offset, align);
    if m < up {
        lemma_fundamental_div_mod(m, align);
        let k = m / align;
        assert(q < k) by (nonlinear_arith)
            requires
                align * q + r <= align * k,
                0 < r,
                0 < align,
        ;
        assert(align * q + align <= align * k) by (nonlinear_arith)
            requires
                q + 1 <= k,
                0 < align,
        ;
    }
}

/// What a section holds, as plain values.
pub struct SectionView {
    pub segment: Seq<u8>,
    pub name: Seq<u8>,
    pub kind: SectionKind,
    /// The size of the section: the length of its data, or of its zero-fill space.
    pub size: u64,
    pub align: u64,
    /// The bytes of the section. Empty for a section of zero-fill space.
    pub data: Seq<u8>,
    pub relocations: Seq<Relocation>,
    /// The section symbol, once it has been made.
    pub symbol: Option<SymbolId>,
    pub flags: SectionFlags,
}

impl SectionView {
    /// The section that `add_section` makes: empty, with alignment 1.
    pub open spec fn new(segment: Seq<u8>, name: Seq<u8>, kind: SectionKind) -> SectionView {
        SectionView {
            segment,
            name,
            kind,
            size: 0,
            align: 1,
            data: Seq::empty(),
            relocations: Seq::empty(),
            symbol: None,
            flags: SectionFlags::Unset,
        }
    }

    /// A section holds either bytes or zero-fill space, as its kind says, and
    /// its alignment is a power of two.
    pub open spec fn wf(self) -> bool {
        &&& spec_is_power_of_two(self.align)
        &&& self.kind.is_bss() ==> self.data.len() == 0
        &&& !self.kind.is_bss() ==> self.size == self.data.len()
    }

    /// The offset at which an append with alignment `align` places its data.
    pub open spec fn append_offset(self, align: u64) -> int {
        align_up(self.size as int, align as int)
    }

    /// The section after `set_data`.
    pub open spec fn set_data(self, data: Seq<u8>, align: u64) -> SectionView {
        SectionView { data, size: data.len() as u64, align, ..self }
    }

    /// The section after `append_data`: zero bytes up to the offset, then the data.
    pub open spec fn append_data(self, data: Seq<u8>, align: u64) -> SectionView {
        let offset = self.append_offset(align);
        SectionView {
            data: self.data + zeros((offset - self.size) as nat) + data,
            size: (offset + data.len()) as u64,
            align: if self.align < align {
                align
            } else {
                self.align
            },
            ..self
        }
    }

    /// The section after `append_bss`.
    pub open spec fn append_bss(self, size: u64, align: u64) -> SectionView {
        let offset = self.append_offset(align);
        SectionView {
            size: (offset + size) as u64,
            align: if self.align < align {
                align
            } else {
                self.align
            },
            ..self
        }
    }

    /// The section with other bytes in the place of its data.
    pub open spec fn with_data(self, data: Seq<u8>) -> SectionView {
        SectionView { data, size: data.len() as u64, ..self }
    }

    /// The section with other flags.
    pub open spec fn with_flags(self, flags: SectionFlags) -> SectionView {
        SectionView { flags, ..self }
    }

    /// The section with a section symbol.
    pub open spec fn with_symbol(self, symbol: SymbolId) -> SectionView {
        SectionView { symbol: Some(symbol), ..self }
    }

    /// The section with one more relocation.
    pub open spec fn push_relocation(self, relocation: Relocation) -> SectionView {
        SectionView { relocations: self.relocations.push(relocation), ..self }
    }

    /// True if the two sections differ in nothing but content, size,
    /// alignment and flags: what the holder of a mutable section may change.
    pub open spec fn same_identity(self, other: SectionView) -> bool {
        &&& self.segment == other.segment
        &&& self.name == other.name
        &&& self.kind == other.kind
        &&& self.relocations == other.relocations
        &&& self.symbol == other.symbol
    }
}

/// One request to append to a section: the bytes for a section of bytes, the
/// amount of space for a section of zero-fill space, and the alignment.
pub struct AppendRequest {
    pub data: Seq<u8>,
    pub size: u64,
    pub align: u64,
}

impl SectionView {
    /// The section after one append: of bytes or of space, as its kind says.
    pub open spec fn append(self, request: AppendRequest) -> SectionView {
        if self.kind.is_bss() {
            self.append_bss(request.size, request.align)
        } else {
            self.append_data(request.data, request.align)
        }
    }

    /// What the append functions require of a request.
    pub open spec fn append_fits(self, request: AppendRequest) -> bool {
        &&& spec_is_power_of_two(request.align)
        &&& if self.kind.is_bss() {
            self.append_offset(request.align) + request.size <= u64::MAX
        } else {
            self.append_offset(request.align) + request.data.len() <= u64::MAX
        }
    }

    /// The section after the requests, made one after the other.
    pub open spec fn append_all(self, requests: Seq<AppendRequest>) -> SectionView
        decreases requests.len(),
    {
        if requests.len() == 0 {
            self
        } else {
            self.append_all(requests.drop_last()).append(requests.last())
        }
    }

    /// True if each request meets what the append functions require when its turn comes.
    pub open spec fn appends_fit(self, requests: Seq<AppendRequest>) -> bool
        decreases requests.len(),
    {
        requests.len() == 0 || (self.appends_fit(requests.drop_last()) && self.append_all(
            requests.drop_last(),
        ).append_fits(requests.last()))
    }

    /// The offset that the request at position `i` is given.
    pub open spec fn nth_offset(self, requests: Seq<AppendRequest>, i: int) -> int {
        self.append_all(requests.take(i)).append_offset(requests[i].align)
    }
}

/// One append keeps the section well formed, gives an offset that is a
/// multiple of the alignment and not below the old size, and does not shrink
/// the section.
pub proof fn lemma_append(section: SectionView, request: AppendRequest)
    requires
        section.wf(),
        section.append_fits(request),
    ensures
        section.append(request).wf(),
        section.append_offset(request.align) % (request.align as int) == 0,
        section.size <= section.append_offset(request.align) <= section.append(request).size,
        section.append(request).align == if section.align < request.align {
            request.align
        } else {
            section.align
        },
        section.append(request).kind == section.kind,
{
    lemma_align_up(section.size as int, request.align as int);
}

/// A prefix of requests that fit fits, and the sections along the way are
/// well formed and do not shrink.
pub proof fn lemma_append_prefix(section: SectionView, requests: Seq<AppendRequest>, i: int)
    requires
        section.wf(),
        section.appends_fit(requests),
        0 <= i <= requests.len(),
    ensures
        section.appends_fit(requests.take(i)),
        section.append_all(requests.take(i)).wf(),
        section.append_all(requests.take(i)).kind == section.kind,
        section.append_all(requests.take(i)).size <= section.append_all(requests).size,
        section.append_all(requests.take(i)).align <= section.append_all(requests).align,
        section.align <= section.append_all(requests.take(i)).align,
        i < requests.len() ==> section.append_all(requests.take(i)).append_fits(requests[i]),
    decreases requests.len(),
{
    if requests.len() == 0 {
        assert(requests.take(i) =~= requests);
    } else if i == requests.len() {
        assert(requests.take(i) =~= requests);
        lemma_append_prefix(section, requests.drop_last(), i - 1);
        assert(requests.drop_last().take(i - 1) =~= requests.drop_last());
        lemma_append(section.append_all(requests.drop_last()), requests.last());
    } else {
        lemma_append_prefix(section, requests.drop_last(), i);
        assert(requests.drop_last().take(i) =~= requests.take(i));
        lemma_append_prefix(section, requests.drop_last(), requests.len() - 1);
        assert(requests.drop_last().take(requests.len() - 1) =~= requests.drop_last());
        lemma_append(section.append_all(requests.drop_last()), requests.last());
        if i == requests.len() - 1 {
            assert(requests.take(i) =~= requests.drop_last());
        } else {
            assert(requests.drop_last()[i] == requests[i]);
        }
    }
}

/// The offsets that a section hands out never decrease, and each is a
/// multiple of the alignment that was asked for with it.
pub proof fn lemma_append_offsets(
    section: SectionView,
    requests: Seq<AppendRequest>,
    i: int,
    j: int,
)
    requires
        section.wf(),
        section.appends_fit(requests),
        0 <= i <= j < requests.len(),
    ensures
        section.nth_offset(requests, i) % (requests[i].align as int) == 0,
        section.nth_offset(requests, i) <= section.nth_offset(requests, j),
{
    lemma_append_prefix(section, requests, i);
    lemma_append(section.append_all(requests.take(i)), requests[i]);
    lemma_append_prefix(section, requests, j);
    lemma_append(section.append_all(requests.take(j)), requests[j]);
    if i < j {
        // The section after request `i` is a prefix of the section before request `j`.
        lemma_append_prefix(section, requests.take(j), i + 1);
        assert(requests.take(j).take(i + 1) =~= requests.take(i + 1));
        assert(requests.take(i + 1).drop_last() =~= requests.take(i));
        assert(requests.take(i + 1).last() == requests[i]);
    }
}

/// After any requests the alignment of a section is the greatest of the
/// alignment it began with and the alignments that were asked for.
pub proof fn lemma_append_alignment(section: SectionView, requests: Seq<AppendRequest>)
    requires
        section.wf(),
        section.appends_fit(requests),
    ensures
        section.align <= section.append_all(requests).align,
        forall|i: int|
            0 <= i < requests.len() ==> (#[trigger] requests[i]).align <= section.append_all(
                requests,
            ).align,
        section.append_all(requests).align == section.align || exists|i: int|
            0 <= i < requests.len() && section.append_all(requests).align == (
            #[trigger] requests[i]).align,
    decreases requests.len(),
{
    if requests.len() > 0 {
        let before = requests.drop_last();
        lemma_append_alignment(section, before);
        lemma_append_prefix(section, requests, requests.len() - 1);
        assert(requests.take(requests.len() - 1) =~= before);
        lemma_append(section.append_all(before), requests.last());
        let last = section.append_all(requests).align;
        assert forall|i: int| 0 <= i < requests.len() implies (#[trigger] requests[i]).align
            <= last by {
            if i < requests.len() - 1 {
                assert(before[i] == requests[i]);
            }
        }
        if last != section.align {
            if last == requests.last().align {
                assert(requests[requests.len() - 1].align == last);
            } else {
                let k = choose|k: int|
                    0 <= k < before.len() && section.append_all(before).align == (
                    #[trigger] before[k]).align;
                assert(requests[k] == before[k]);
            }
        }
    }
}

/// A section in an object file.
#[derive(Debug)]
pub struct Section {
    segment: Vec<u8>,
    name: Vec<u8>,
    kind: SectionKind,
    /// The size of the zero-fill space. Not used for a section of bytes.
    size: u64,
    align: u64,
    data: Vec<u8>,
    relocations: Vec<Relocation>,
    symbol: Option<SymbolId>,
    flags: SectionFlags,
}

impl View for Section {
    type V = SectionView;

    closed spec fn view(&self) -> SectionView {
        SectionView {
            segment: self.segment@,
            name: self.name@,
            kind: self.kind,
            size: if self.kind.is_bss() {
                self.size
            } else {
                self.data@.len() as u64
            },
            align: self.align,
            data: self.data@,
            relocations: self.relocations@,
            symbol: self.symbol,
            flags: self.flags,
        }
    }
}

impl Section {
    /// The invariant of a section.
    pub open spec fn wf(&self) -> bool {
        self@.wf()
    }

    /// Make an empty section with alignment 1.
    pub fn new(segment: Vec<u8>, name: Vec<u8>, kind: SectionKind) -> (section: Section)
        ensures
            section@ == SectionView::new(segment@, name@, kind),
            section.wf(),
    {
        assert(spec_is_power_of_two(1)) by (bit_vector);
        Section {
            segment,
            name,
            kind,
            size: 0,
            align: 1,
            data: Vec::new(),
            relocations: Vec::new(),
            symbol: None,
            flags: SectionFlags::Unset,
        }
    }

    /// Try to convert the name to a utf8 string.
    #[inline]
    pub fn name(&self) -> (r: Option<&str>)
        ensures
            spec_text(self@.name, r),
    {
        text(self.name.as_slice())
    }

    /// Try to convert the segment to a utf8 string.
    #[inline]
    pub fn segment(&self) -> (r: Option<&str>)
        ensures
            spec_text(self@.segment, r),
    {
        text(self.segment.as_slice())
    }

    /// Return true if this section contains zerofill data.
    #[inline]
    pub fn is_bss(&self) -> (r: bool)
        ensures
            r == self@.kind.is_bss(),
    {
        self.kind.is_bss()
    }

    /// Set the data for a section.
    ///
    /// Must not be called for sections that already have data, or that contain uninitialized data.
    /// `align` must be a power of two.
    pub fn set_data(&mut self, data: Vec<u8>, align: u64)
        requires
            old(self).wf(),
            !old(self)@.kind.is_bss(),
            old(self)@.data.len() == 0,
            is_power_of_two(align),
        ensures
            final(self)@ == old(self)@.set_data(data@, align),
            final(self).wf(),
    {
        assert(data@.len() == data.len());
        self.data = data;
        self.align = align;
    }

    /// Append data to a section. Returns the section offset of the data.
    ///
    /// Must not be called for sections that contain uninitialized data.
    /// `align` must be a power of two.
    pub fn append_data(&mut self, append_data: &[u8], align: u64) -> (offset: u64)
        requires
            old(self).wf(),
            !old(self)@.kind.is_bss(),
            is_power_of_two(align),
            old(self)@.append_offset(align) + append_data@.len() <= usize::MAX,
        ensures
            offset == old(self)@.append_offset(align),
            offset as int % align as int == 0,
            old(self)@.size <= offset <= final(self)@.size,
            final(self)@ == old(self)@.append_data(append_data@, align),
            final(self).wf(),
    {
        proof {
            lemma_align_up(self@.size as int, align as int);
        }
        if self.align < align {
            self.align = align;
        }
        let len: usize = self.data.len();
        let rest: u64 = (len as u64) % align;
        let mut offset: usize = len;
        if rest != 0 {
            let pad: u64 = align - rest;
            offset = len + (pad as usize);
            append_zeros(&mut self.data, pad as usize);
        }
        assert(self.data@ =~= old(self)@.data + zeros((offset - len) as nat));
        append_bytes(&mut self.data, append_data);
        offset as u64
    }

    /// Append uninitialized data to a section. Returns the section offset of the data.
    ///
    /// Must not be called for sections that contain initialized data.
    /// `align` must be a power of two.
    pub fn append_bss(&mut self, size: u64, align: u64) -> (offset: u64)
        requires
            old(self).wf(),
            old(self)@.kind.is_bss(),
            is_power_of_two(align),
            old(self)@.append_offset(align) + size <= u64::MAX,
        ensures
            offset == old(self)@.append_offset(align),
            offset as int % align as int == 0,
            old(self)@.size <= offset <= final(self)@.size,
            final(self)@ == old(self)@.append_bss(size, align),
            final(self).wf(),
    {
        proof {
            lemma_align_up(self@.size as int, align as int);
        }
        if self.align < align {
            self.align = align;
        }
        let mut offset: u64 = self.size;
        let rest: u64 = offset % align;
        if rest != 0 {
            offset = offset + (align - rest);
        }
        self.size = offset + size;
        offset
    }

    /// Return the bytes of the name.
    pub fn name_bytes(&self) -> (name: &[u8])
        ensures
            name@ == self@.name,
    {
        self.name.as_slice()
    }

    /// Return the bytes of the segment name.
    pub fn segment_bytes(&self) -> (segment: &[u8])
        ensures
            segment@ == self@.segment,
    {
        self.segment.as_slice()
    }

    /// Return the kind of the section.
    pub fn kind(&self) -> (kind: SectionKind)
        ensures
            kind == self@.kind,
    {
        self.kind
    }

    /// Return the size of the section: the length of its data, or of its zero-fill space.
    pub fn size(&self) -> (size: u64)
        ensures
            size == self@.size,
    {
        if self.kind.is_bss() {
            self.size
        } else {
            self.data.len() as u64
        }
    }

    /// Return the alignment of the section.
    pub fn align(&self) -> (align: u64)
        ensures
            align == self@.align,
    {
        self.align
    }

    /// Return the relocations of the section, in the order in which they were added.
    pub fn relocations(&self) -> (relocations: &[Relocation])
        ensures
            relocations@ == self@.relocations,
    {
        self.relocations.as_slice()
    }

    /// Return the section symbol, if it has been made.
    pub fn symbol(&self) -> (symbol: Option<SymbolId>)
        ensures
            symbol == self@.symbol,
    {
        self.symbol
    }

    /// Return the flags that are set for the section.
    pub fn flags(&self) -> (flags: SectionFlags)
        ensures
            flags == self@.flags,
    {
        self.flags
    }

    /// Set the flags of the section.
    pub fn set_flags(&mut self, flags: SectionFlags)
        ensures
            final(self)@ == old(self)@.with_flags(flags),
            old(self).wf() ==> final(self).wf(),
    {
        self.flags = flags;
    }

    /// Return the number of bytes that the section holds.
    pub fn data_len(&self) -> (len: usize)
        ensures
            len == self@.data.len(),
    {
        self.data.len()
    }

    /// Record the section symbol.
    pub(crate) fn set_symbol(&mut self, symbol: SymbolId)
        ensures
            final(self)@ == old(self)@.with_symbol(symbol),
    {
        self.symbol = Some(symbol);
    }

    /// Add a relocation after those that the section has.
    pub(crate) fn push_relocation(&mut self, relocation: Relocation)
        ensures
            final(self)@ == old(self)@.push_relocation(relocation),
    {
        self.relocations.push(relocation);
    }

    /// Write `bytes` over the data that starts at `offset`.
    pub(crate) fn write_at(&mut self, offset: usize, bytes: &Vec<u8>)
        requires
            !old(self)@.kind.is_bss(),
            offset + bytes@.len() <= old(self)@.data.len(),
        ensures
            final(self)@ == old(self)@.with_data(
                crate::relocation::patch(old(self)@.data, offset as int, bytes@),
            ),
    {
        crate::relocation::write_bytes_at(&mut self.data, offset, bytes);
    }

    /// Returns the section as-built so far.
    ///
    /// This requires that the section is not a bss section.
    pub fn data(&self) -> (data: &[u8])
        requires
            !self@.kind.is_bss(),
        ensures
            data@ == self@.data,
    {
        self.data.as_slice()
    }

    /// Returns the section as-built so far, for changing its bytes.
    ///
    /// This requires that the section is not a bss section.
    pub fn data_mut(&mut self) -> (data: &mut [u8])
        requires
            !old(self)@.kind.is_bss(),
        ensures
            data@ == old(self)@.data,
            final(self)@ == old(self)@.with_data(final(data)@),
    {
        self.data.as_mut_slice()
    }
}

} // verus!
