//! Relocations, and the bytes of an addend that is kept in section data.

use vstd::prelude::*;
use crate::common::{Endianness, RelocationFlags};
use crate::ids::SymbolId;

verus! {

/// A relocation in an object file.
#[derive(Debug, Clone, Copy, PartialEq, Eq, Hash, Structural)]
pub struct Relocation {
    /// The section offset of the place of the relocation.
    pub offset: u64,
    /// The symbol referred to by the relocation.
    ///
    /// This may be a section symbol.
    pub symbol: SymbolId,
    /// The addend to use in the relocation calculation.
    ///
    /// This may be in addition to an implicit addend stored at the place of the relocation.
    pub addend: i64,
    /// The fields that define the relocation type.
    pub flags: RelocationFlags,
}

/// The 64-bit two's complement form of `value`, as a natural number.
pub open spec fn twos_complement(value: i64) -> nat {
    if value >= 0 {
        value as nat
    } else {
        (value + 0x1_0000_0000_0000_0000) as nat
    }
}

/// The `width` least significant base-256 digits of `value`, least significant first.
pub open spec fn le_bytes(value: nat, width: nat) -> Seq<u8>
    decreases width,
{
    if width == 0 {
        Seq::empty()
    } else {
        seq![(value % 256) as u8] + le_bytes(value / 256, (width - 1) as nat)
    }
}

/// The bytes that stand for `addend` in a field of `width` bytes: its two's
/// complement form cut down to the field, in the byte order `endian`.
pub open spec fn encode_addend(addend: i64, width: nat, endian: Endianness) -> Seq<u8> {
    let le = le_bytes(twos_complement(addend), width);
    match endian {
        Endianness::Little => le,
        Endianness::Big => le.reverse(),
    }
}

/// `data` with the bytes from `offset` on replaced by `bytes`.
pub open spec fn patch(data: Seq<u8>, offset: int, bytes: Seq<u8>) -> Seq<u8> {
    data.subrange(0, offset) + bytes + data.subrange(offset + bytes.len(), data.len() as int)
}

/// `le_bytes` has the length asked for.
pub proof fn lemma_le_bytes_len(value: nat, width: nat)
    ensures
        le_bytes(value, width).len() == width,
    decreases width,
{
    if width > 0 {
        lemma_le_bytes_len(value / 256, (width - 1) as nat);
    }
}

/// Taking one more digit appends the next digit of the value.
proof fn lemma_le_bytes_push(value: nat, width: nat, rest: nat)
    requires
        rest == le_bytes_rest(value, width),
    ensures
        le_bytes(value, width + 1) == le_bytes(value, width).push((rest % 256) as u8),
    decreases width,
{
    if width == 0 {
        assert(le_bytes(value / 256, 0) == Seq::<u8>::empty());
        assert(le_bytes(value, 1) =~= le_bytes(value, 0).push((rest % 256) as u8));
    } else {
        lemma_le_bytes_push(value / 256, (width - 1) as nat, rest);
        assert(le_bytes(value, width + 1) =~= le_bytes(value, width).push((rest % 256) as u8));
    }
}

/// What is left of `value` after its `width` least significant digits are taken off.
spec fn le_bytes_rest(value: nat, width: nat) -> nat
    decreases width,
{
    if width == 0 {
        value
    } else {
        le_bytes_rest(value / 256, (width - 1) as nat)
    }
}

proof fn lemma_le_bytes_rest_step(value: nat, width: nat)
    ensures
        le_bytes_rest(value, width + 1) == le_bytes_rest(value, width) / 256,
    decreases width,
{
    if width == 0 {
        assert(le_bytes_rest(value, 1) == le_bytes_rest(value / 256, 0));
    } else {
        lemma_le_bytes_rest_step(value / 256, (width - 1) as nat);
        assert(le_bytes_rest(value, width + 1) == le_bytes_rest(value / 256, width));
    }
}

/// Return the 64-bit two's complement form of `value`.
pub fn addend_bits(value: i64) -> (bits: u64)
    ensures
        bits == twos_complement(value),
{
    if value >= 0 {
        value as u64
    } else {
        let below: i64 = -(value + 1);
        u64::MAX - (below as u64)
    }
}

/// Return the bytes that stand for `addend` in a field of `width` bytes.
pub fn addend_bytes(addend: i64, width: usize, endian: Endianness) -> (bytes: Vec<u8>)
    ensures
        bytes@ == encode_addend(addend, width as nat, endian),
{
    let bits = addend_bits(addend);
    let mut le: Vec<u8> = Vec::new();
    let mut rest: u64 = bits;
    let mut i: usize = 0;
    while i < width
        invariant
            i <= width,
            le@ == le_bytes(bits as nat, i as nat),
            rest == le_bytes_rest(bits as nat, i as nat),
        decreases width - i,
    {
        proof {
            lemma_le_bytes_push(bits as nat, i as nat, rest as nat);
            lemma_le_bytes_rest_step(bits as nat, i as nat);
        }
        le.push((rest % 256) as u8);
        rest = rest / 256;
        i = i + 1;
    }
    proof {
        lemma_le_bytes_len(bits as nat, width as nat);
    }
    match endian {
        Endianness::Little => le,
        Endianness::Big => {
            let mut be: Vec<u8> = Vec::new();
            let mut j: usize = width;
            while j > 0
                invariant
                    j <= width,
                    le@.len() == width,
                    be@.len() == width - j,
                    forall|k: int| 0 <= k < be@.len() ==> be@[k] == le@[width - 1 - k],
                decreases j,
            {
                j = j - 1;
                be.push(le[j]);
            }
            assert(be@ =~= le@.reverse());
            be
        },
    }
}

/// Write `bytes` over the bytes of `data` that start at `offset`.
pub fn write_bytes_at(data: &mut Vec<u8>, offset: usize, bytes: &Vec<u8>)
    requires
        offset + bytes@.len() <= old(data)@.len(),
    ensures
        final(data)@ == patch(old(data)@, offset as int, bytes@),
{
    let len: usize = data.len();
    let mut i: usize = 0;
    while i < bytes.len()
        invariant
            i <= bytes@.len(),
            offset + bytes@.len() <= len,
            data@.len() == len,
            len == old(data)@.len(),
            forall|k: int| 0 <= k < offset ==> data@[k] == old(data)@[k],
            forall|k: int| offset <= k < offset + i ==> data@[k] == bytes@[k - offset],
            forall|k: int| offset + i <= k < data@.len() ==> data@[k] == old(data)@[k],
        decreases bytes@.len() - i,
    {
        data[offset + i] = bytes[i];
        i = i + 1;
    }
    assert(data@ =~= patch(old(data)@, offset as int, bytes@));
}

} // verus!
