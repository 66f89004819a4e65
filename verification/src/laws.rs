//! Laws that relate the operations of the builder.

use vstd::prelude::*;
use vstd::seq_lib::{lemma_multiset_commutative, to_multiset_contains};
use crate::common::{BinaryFormat, SectionKind, SymbolKind};
use crate::ids::SectionId;
use crate::model::{
    lemma_add_symbol_wf, lemma_section_id_wf, lemma_section_symbol_wf,
    lemma_translation_keeps_target, ObjectView,
};
use crate::policy::{spec_adjust_addend, spec_relocation_size, spec_section_info, spec_translate};
use crate::relocation::{encode_addend, lemma_le_bytes_len, twos_complement, Relocation};
use crate::section::{SectionView, StandardSection};
use crate::symbol::{Mangling, SymbolFlags, SymbolSection, SymbolView};

verus! {

/// The segment, name and kind that a section is asked for with.
pub struct SectionRequest {
    pub segment: Seq<u8>,
    pub name: Seq<u8>,
    pub kind: SectionKind,
}

impl SectionRequest {
    /// True if a section made for the request would stand for no standard
    /// section in the given format.
    pub open spec fn is_plain(self, format: BinaryFormat) -> bool {
        forall|role: StandardSection|
            !(#[trigger] spec_section_info(format, role)).matches(self.segment, self.name, self.kind)
    }
}

impl ObjectView {
    /// The object after a section was added for each request, one after the other.
    pub open spec fn add_sections(self, requests: Seq<SectionRequest>) -> ObjectView
        decreases requests.len(),
    {
        if requests.len() == 0 {
            self
        } else {
            let last = requests.last();
            self.add_sections(requests.drop_last()).add_section(last.segment, last.name, last.kind)
        }
    }

    /// The object after each of the standard sections was asked for, one
    /// after the other.
    pub open spec fn section_ids(self, roles: Seq<StandardSection>) -> ObjectView
        decreases roles.len(),
    {
        if roles.len() == 0 {
            self
        } else {
            self.section_ids(roles.drop_last()).section_id(roles.last()).0
        }
    }
}

/// Sections that match no standard section of the format come to stand for
/// none, however many are added: the standard sections stay as they were.
/// In a new object none has a section afterwards.
pub proof fn lemma_plain_sections_stand_for_nothing(
    object: ObjectView,
    requests: Seq<SectionRequest>,
)
    requires
        forall|i: int| 0 <= i < requests.len() ==> (#[trigger] requests[i]).is_plain(object.format),
    ensures
        object.add_sections(requests).standard_sections == object.standard_sections,
        object.add_sections(requests).sections.len() == object.sections.len() + requests.len(),
        object.add_sections(requests).format == object.format,
    decreases requests.len(),
{
    if requests.len() > 0 {
        let before = requests.drop_last();
        assert forall|i: int| 0 <= i < before.len() implies (#[trigger] before[i]).is_plain(
            object.format,
        ) by {
            assert(before[i] == requests[i]);
        }
        lemma_plain_sections_stand_for_nothing(object, before);
        let last = requests.last();
        assert(last == requests[requests.len() - 1]);
        let so_far = object.add_sections(before);
        assert(so_far.add_section(last.segment, last.name, last.kind).standard_sections
            =~= so_far.standard_sections) by {
            assert forall|role: StandardSection|
                !spec_section_info(so_far.format, role).matches(
                    last.segment,
                    last.name,
                    last.kind,
                ) by {
                assert(last.is_plain(object.format));
            }
        }
    }
}

/// Where a format keeps the addend of a relocation in the section data, and
/// the addend is not zero, adding the relocation stores it with the addend
/// zero, after the relocations that the section had, and the bytes at the
/// place of the relocation are the addend in the byte order of the object
/// and the width of the relocation. No other byte of the section changes.
pub proof fn lemma_implicit_addend_is_written(
    object: ObjectView,
    section: SectionId,
    relocation: Relocation,
)
    requires
        object.wf(),
        object.can_add_relocation(section, relocation),
        object.add_relocation(section, relocation) is Ok,
        spec_adjust_addend(
            object.format,
            object.architecture,
            spec_translate(object.format, object.architecture, relocation)->Ok_0,
        )->Ok_0.implicit,
        spec_adjust_addend(
            object.format,
            object.architecture,
            spec_translate(object.format, object.architecture, relocation)->Ok_0,
        )->Ok_0.relocation.addend != 0,
    ensures
        ({
            let adjusted = spec_adjust_addend(
                object.format,
                object.architecture,
                spec_translate(object.format, object.architecture, relocation)->Ok_0,
            )->Ok_0.relocation;
            let width = spec_relocation_size(
                object.format,
                object.architecture,
                adjusted.flags,
            )->Ok_0 / 8;
            let before = object.sections[section.0 as int];
            let after = object.add_relocation(section, relocation)->Ok_0.sections[section.0 as int];
            &&& width == 4 || width == 8
            &&& after.relocations == before.relocations.push(Relocation { addend: 0, ..adjusted })
            &&& after.relocations.last().addend == 0
            &&& after.data.len() == before.data.len()
            &&& relocation.offset + width <= after.data.len()
            &&& after.data.subrange(relocation.offset as int, relocation.offset + width)
                == encode_addend(adjusted.addend, width as nat, object.endian)
            &&& forall|i: int|
                0 <= i < relocation.offset || relocation.offset + width <= i < before.data.len()
                    ==> after.data[i] == before.data[i]
        }),
{
    lemma_translation_keeps_target(object.format, object.architecture, relocation);
    let translated = spec_translate(object.format, object.architecture, relocation)->Ok_0;
    let adjusted = spec_adjust_addend(object.format, object.architecture, translated)->Ok_0.relocation;
    let size = spec_relocation_size(object.format, object.architecture, adjusted.flags)->Ok_0;
    let width = size / 8;
    lemma_le_bytes_len(twos_complement(adjusted.addend), width as nat);
    let bytes = encode_addend(adjusted.addend, width as nat, object.endian);
    assert(bytes.len() == width);
    let before = object.sections[section.0 as int];
    let after = object.add_relocation(section, relocation)->Ok_0.sections[section.0 as int];
    assert(after.data.subrange(relocation.offset as int, relocation.offset + width) =~= bytes);
}

/// Adding a section symbol for a section that has its symbol adds no
/// symbol: it returns the symbol of the section, and gives it the flags of
/// the symbol given, if that has any.
pub proof fn lemma_section_symbol_is_added_once(
    object: ObjectView,
    first: SymbolView,
    second: SymbolView,
)
    requires
        object.wf(),
        object.can_add_symbol(first),
        first.kind == SymbolKind::Section,
        second.kind == SymbolKind::Section,
        second.section == first.section,
        object.add_symbol(first).0.symbols.len() <= usize::MAX,
    ensures
        ({
            let (once, id) = object.add_symbol(first);
            let (twice, again) = once.add_symbol(second);
            &&& again == id
            &&& twice.symbols.len() == once.symbols.len()
            &&& twice.symbols.len() <= object.symbols.len() + 1
            &&& second.flags != SymbolFlags::Unset ==> twice.symbols[id.0 as int].flags
                == second.flags
            &&& second.flags == SymbolFlags::Unset ==> twice == once
        }),
{
    lemma_add_symbol_wf(object, first);
    match first.section {
        SymbolSection::Section(section) => {
            lemma_section_symbol_wf(object, section);
        },
        _ => {},
    }
}

/// A symbol that can be found by name is found under the name that it was
/// added with, whatever the mangling of the object: the mangling changes
/// the name that is stored, and neither the identifier of the symbol nor
/// the map of names.
pub proof fn lemma_symbol_is_found_by_its_name(
    object: ObjectView,
    symbol: SymbolView,
    mangling: Mangling,
)
    requires
        symbol.is_linkable(),
        object.symbols.len() <= usize::MAX,
    ensures
        ({
            let (added, id) = object.add_symbol(symbol);
            let (other, other_id) = (ObjectView { mangling, ..object }).add_symbol(symbol);
            &&& added.symbol_id(symbol.name) == Some(id)
            &&& added.symbols[id.0 as int].name == object.mangling.mangle(symbol.name)
            &&& other_id == id
            &&& other.symbol_map == added.symbol_map
            &&& other.symbol_id(symbol.name) == Some(id)
        }),
{
}

/// The section that is made for a standard section that has none.
pub open spec fn standard_section_view(format: BinaryFormat, role: StandardSection) -> SectionView {
    let info = spec_section_info(format, role);
    SectionView::new(info.segment, info.name, info.kind).with_flags(info.flags)
}

/// Two standard sections that have the same segment, name and kind in a
/// format have the same flags there: the sections made for them are equal.
pub proof fn lemma_same_section_for_same_name(
    format: BinaryFormat,
    a: StandardSection,
    b: StandardSection,
)
    ensures
        spec_section_info(format, a).matches(
            spec_section_info(format, b).segment,
            spec_section_info(format, b).name,
            spec_section_info(format, b).kind,
        ) <==> standard_section_view(format, a) == standard_section_view(format, b),
{
}

/// Two sequences without duplicates that hold the same items hold them
/// equally often.
proof fn lemma_same_items<A>(a: Seq<A>, b: Seq<A>)
    requires
        a.no_duplicates(),
        b.no_duplicates(),
        forall|x: A| a.contains(x) <==> b.contains(x),
    ensures
        a.to_multiset() == b.to_multiset(),
{
    a.lemma_multiset_has_no_duplicates();
    b.lemma_multiset_has_no_duplicates();
    assert forall|x: A| a.to_multiset().count(x) == b.to_multiset().count(x) by {
        to_multiset_contains(a, x);
        to_multiset_contains(b, x);
    }
    assert(a.to_multiset() =~= b.to_multiset());
}

/// The sections that are made when standard sections are asked for.
///
/// The sections that the object had stay where they were. After them comes,
/// once, the section of each standard section that was asked for and had
/// none in the object; standard sections that share a section in the format
/// share it here.
pub proof fn lemma_section_ids(object: ObjectView, roles: Seq<StandardSection>)
    requires
        object.wf(),
        object.sections.len() + roles.len() <= usize::MAX,
    ensures
        ({
            let made = object.section_ids(roles);
            let count = object.sections.len() as int;
            let added = made.sections.subrange(count, made.sections.len() as int);
            &&& made.wf()
            &&& made.format == object.format
            &&& made.symbols == object.symbols
            &&& count <= made.sections.len() <= count + roles.len()
            &&& made.sections.subrange(0, count) == object.sections
            &&& added.no_duplicates()
            &&& forall|section: SectionView|
                added.contains(section) <==> exists|role: StandardSection|
                    #![trigger roles.contains(role)]
                    roles.contains(role) && !object.standard_sections.contains_key(role)
                        && section == standard_section_view(object.format, role)
            &&& forall|role: StandardSection|
                object.standard_sections.contains_key(role)
                    ==> #[trigger] made.standard_sections.contains_key(role)
                    && made.standard_sections[role] == object.standard_sections[role]
            &&& forall|role: StandardSection| #[trigger]
                roles.contains(role) ==> made.standard_sections.contains_key(role)
        }),
    decreases roles.len(),
{
    let count = object.sections.len() as int;
    if roles.len() == 0 {
        let added = object.sections.subrange(count, count);
        assert(object.sections.subrange(0, count) =~= object.sections);
        assert forall|section: SectionView| !added.contains(section) by {}
        assert forall|role: StandardSection| !roles.contains(role) by {}
    } else {
        let before = roles.drop_last();
        let last = roles.last();
        lemma_section_ids(object, before);
        let so_far = object.section_ids(before);
        let made = object.section_ids(roles);
        let old_added = so_far.sections.subrange(count, so_far.sections.len() as int);
        let added = made.sections.subrange(count, made.sections.len() as int);
        lemma_section_id_wf(so_far, last);
        assert(so_far.standard_section_wf(last));
        assert(object.standard_section_wf(last));
        assert forall|role: StandardSection| roles.contains(role) <==> before.contains(role)
            || role == last by {
            if roles.contains(role) {
                let i = choose|i: int| 0 <= i < roles.len() && roles[i] == role;
                if i < before.len() {
                    assert(before[i] == role);
                }
            }
            if before.contains(role) {
                let i = choose|i: int| 0 <= i < before.len() && before[i] == role;
                assert(roles[i] == role);
            }
            assert(roles[roles.len() - 1] == last);
        }
        if so_far.standard_sections.contains_key(last) {
            assert(made == so_far);
            if !object.standard_sections.contains_key(last) {
                // The section that stands for `last` was made for a standard
                // section that shares it.
                let id = so_far.standard_sections[last];
                assert(so_far.section_matches(id.0 as int, last));
                if id.0 < count {
                    assert(so_far.sections.subrange(0, count)[id.0 as int]
                        == so_far.sections[id.0 as int]);
                    assert(object.section_matches(id.0 as int, last));
                }
                let found = old_added[id.0 - count];
                assert(found == so_far.sections[id.0 as int]);
                assert(old_added.contains(found));
                let other = choose|role: StandardSection|
                    #![trigger before.contains(role)]
                    before.contains(role) && !object.standard_sections.contains_key(role) && found
                        == standard_section_view(object.format, role);
                lemma_same_section_for_same_name(object.format, last, other);
                assert(roles.contains(other));
            }
            assert forall|section: SectionView|
                added.contains(section) <==> exists|role: StandardSection|
                    #![trigger roles.contains(role)]
                    roles.contains(role) && !object.standard_sections.contains_key(role)
                        && section == standard_section_view(object.format, role) by {
                if added.contains(section) {
                    let role = choose|role: StandardSection|
                        #![trigger before.contains(role)]
                        before.contains(role) && !object.standard_sections.contains_key(role)
                            && section == standard_section_view(object.format, role);
                    assert(roles.contains(role));
                }
                if exists|role: StandardSection|
                    #![trigger roles.contains(role)]
                    roles.contains(role) && !object.standard_sections.contains_key(role)
                        && section == standard_section_view(object.format, role) {
                    let role = choose|role: StandardSection|
                        #![trigger roles.contains(role)]
                        roles.contains(role) && !object.standard_sections.contains_key(role)
                            && section == standard_section_view(object.format, role);
                    if role != last {
                        assert(before.contains(role));
                    }
                }
            }
        } else {
            let view = standard_section_view(object.format, last);
            assert(made.sections =~= so_far.sections.push(view));
            assert(added =~= old_added.push(view));
            assert(made.sections.subrange(0, count) =~= so_far.sections.subrange(0, count));
            assert(!old_added.contains(view)) by {
                if old_added.contains(view) {
                    let k = choose|k: int| 0 <= k < old_added.len() && old_added[k] == view;
                    assert(so_far.sections[count + k] == view);
                    assert(so_far.section_matches(count + k, last));
                }
            }
            assert(added.no_duplicates()) by {
                assert forall|i: int, j: int|
                    0 <= i < added.len() && 0 <= j < added.len() && i != j implies added[i]
                    != added[j] by {
                    if i < old_added.len() && j < old_added.len() {
                        assert(old_added[i] != old_added[j]);
                    } else if i < old_added.len() {
                        assert(old_added.contains(old_added[i]));
                    } else {
                        assert(old_added.contains(old_added[j]));
                    }
                }
            }
            assert forall|section: SectionView|
                added.contains(section) <==> exists|role: StandardSection|
                    #![trigger roles.contains(role)]
                    roles.contains(role) && !object.standard_sections.contains_key(role)
                        && section == standard_section_view(object.format, role) by {
                if added.contains(section) {
                    let k = choose|k: int| 0 <= k < added.len() && added[k] == section;
                    if k < old_added.len() {
                        assert(old_added.contains(section));
                        let role = choose|role: StandardSection|
                            #![trigger before.contains(role)]
                            before.contains(role) && !object.standard_sections.contains_key(role)
                                && section == standard_section_view(object.format, role);
                        assert(roles.contains(role));
                    } else {
                        assert(roles.contains(last));
                    }
                }
                if exists|role: StandardSection|
                    #![trigger roles.contains(role)]
                    roles.contains(role) && !object.standard_sections.contains_key(role)
                        && section == standard_section_view(object.format, role) {
                    let role = choose|role: StandardSection|
                        #![trigger roles.contains(role)]
                        roles.contains(role) && !object.standard_sections.contains_key(role)
                            && section == standard_section_view(object.format, role);
                    if role == last {
                        assert(added[added.len() - 1] == section);
                    } else {
                        assert(before.contains(role));
                        assert(old_added.contains(section));
                        let k = choose|k: int| 0 <= k < old_added.len() && old_added[k] == section;
                        assert(added[k] == section);
                    }
                }
            }
        }
    }
}

/// The order in which standard sections are asked for does not matter:
/// two sequences of requests for the same standard sections leave the
/// object with the same sections, each as often, with the same contents.
/// Asking again for a standard section changes nothing.
pub proof fn lemma_section_ids_in_any_order(
    object: ObjectView,
    first: Seq<StandardSection>,
    second: Seq<StandardSection>,
)
    requires
        object.wf(),
        object.sections.len() + first.len() <= usize::MAX,
        object.sections.len() + second.len() <= usize::MAX,
        forall|role: StandardSection| first.contains(role) <==> second.contains(role),
    ensures
        object.section_ids(first).sections.to_multiset() == object.section_ids(
            second,
        ).sections.to_multiset(),
        object.section_ids(first).sections.len() == object.section_ids(second).sections.len(),
        forall|role: StandardSection|
            first.contains(role) ==> object.section_ids(first).section_id(role).0
                == object.section_ids(first),
{
    lemma_section_ids(object, first);
    lemma_section_ids(object, second);
    let count = object.sections.len() as int;
    let one = object.section_ids(first).sections;
    let two = object.section_ids(second).sections;
    let added_one = one.subrange(count, one.len() as int);
    let added_two = two.subrange(count, two.len() as int);
    assert forall|section: SectionView| added_one.contains(section) <==> added_two.contains(
        section,
    ) by {
        if added_one.contains(section) {
            let role = choose|role: StandardSection|
                #![trigger first.contains(role)]
                first.contains(role) && !object.standard_sections.contains_key(role) && section
                    == standard_section_view(object.format, role);
            assert(second.contains(role));
        }
        if added_two.contains(section) {
            let role = choose|role: StandardSection|
                #![trigger second.contains(role)]
                second.contains(role) && !object.standard_sections.contains_key(role) && section
                    == standard_section_view(object.format, role);
            assert(first.contains(role));
        }
    }
    lemma_same_items(added_one, added_two);
    assert(one =~= object.sections + added_one);
    assert(two =~= object.sections + added_two);
    lemma_multiset_commutative(object.sections, added_one);
    lemma_multiset_commutative(object.sections, added_two);
    // As many sections are added either way.
    added_one.unique_seq_to_set();
    added_two.unique_seq_to_set();
    assert(added_one.to_set() =~= added_two.to_set());
}

} // verus!
