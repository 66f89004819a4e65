//! Helpers for names, which are byte strings.

use vstd::prelude::*;
use vstd::string::*;
use vstd::utf8::valid_utf8;

verus! {

#[verifier::external_type_specification]
#[verifier::external_body]
pub struct ExUtf8Error(core::str::Utf8Error);

/// `core::str::from_utf8` succeeds exactly on the byte strings that are
/// valid UTF-8, and the string it then returns is made of those bytes.
pub assume_specification[ core::str::from_utf8 ](v: &[u8]) -> (r: Result<&str, core::str::Utf8Error>)
    ensures
        match r {
            Ok(s) => valid_utf8(v@) && s.spec_bytes() == v@,
            Err(_) => !valid_utf8(v@),
        },
;

/// The text of a name, where the name is valid UTF-8.
pub open spec fn spec_text(bytes: Seq<u8>, text: Option<&str>) -> bool {
    match text {
        Some(s) => valid_utf8(bytes) && s.spec_bytes() == bytes,
        None => !valid_utf8(bytes),
    }
}

/// Try to read a name as text.
pub fn text(bytes: &[u8]) -> (r: Option<&str>)
    ensures
        spec_text(bytes@, r),
{
    core::str::from_utf8(bytes).ok()
}

/// Return true if the two byte strings are equal.
pub fn bytes_eq(a: &[u8], b: &[u8]) -> (r: bool)
    ensures
        r == (a@ == b@),
{
    if a.len() != b.len() {
        return false;
    }
    let mut i: usize = 0;
    while i < a.len()
        invariant
            i <= a@.len(),
            a@.len() == b@.len(),
            forall|k: int| 0 <= k < i ==> a@[k] == b@[k],
        decreases a@.len() - i,
    {
        if a[i] != b[i] {
            return false;
        }
        i = i + 1;
    }
    assert(a@ =~= b@);
    true
}

/// Return a copy of the byte string.
pub fn bytes_to_vec(a: &[u8]) -> (v: Vec<u8>)
    ensures
        v@ == a@,
{
    let mut v: Vec<u8> = Vec::new();
    let mut i: usize = 0;
    while i < a.len()
        invariant
            i <= a@.len(),
            v@ == a@.subrange(0, i as int),
        decreases a@.len() - i,
    {
        v.push(a[i]);
        assert(v@ =~= a@.subrange(0, i + 1));
        i = i + 1;
    }
    assert(v@ =~= a@);
    v
}

/// Append the byte string `tail` to `v`.
pub fn append_bytes(v: &mut Vec<u8>, tail: &[u8])
    ensures
        final(v)@ == old(v)@ + tail@,
{
    let mut i: usize = 0;
    while i < tail.len()
        invariant
            i <= tail@.len(),
            v@ == old(v)@ + tail@.subrange(0, i as int),
        decreases tail@.len() - i,
    {
        v.push(tail[i]);
        assert(v@ =~= old(v)@ + tail@.subrange(0, i + 1));
        i = i + 1;
    }
    assert(v@ =~= old(v)@ + tail@);
}

/// Append `count` zero bytes to `v`.
pub fn append_zeros(v: &mut Vec<u8>, count: usize)
    ensures
        final(v)@ == old(v)@ + zeros(count as nat),
{
    let mut i: usize = 0;
    while i < count
        invariant
            i <= count,
            v@ == old(v)@ + zeros(i as nat),
        decreases count - i,
    {
        v.push(0);
        assert(v@ =~= old(v)@ + zeros((i + 1) as nat));
        i = i + 1;
    }
}

/// The byte string of `count` zero bytes.
pub open spec fn zeros(count: nat) -> Seq<u8> {
    Seq::new(count, |i: int| 0u8)
}

} // verus!
