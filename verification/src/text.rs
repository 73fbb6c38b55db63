//! ASCII case handling for algorithm names and hex digests.

use vstd::prelude::*;

verus! {

/// The UTF-8 bytes of an owned string, the `String` counterpart of
/// `str::spec_bytes`.
pub open spec fn string_bytes(s: String) -> Seq<u8> {
    vstd::utf8::encode_utf8(s@)
}

/// ASCII lowercase of one byte: `A`..`Z` map to `a`..`z`, all else unchanged.
pub open spec fn lower_byte(b: u8) -> u8 {
    if 65 <= b <= 90 {
        (b + 32) as u8
    } else {
        b
    }
}

/// ASCII lowercase of a byte sequence.
pub open spec fn ascii_lower(s: Seq<u8>) -> Seq<u8> {
    Seq::new(s.len(), |i: int| lower_byte(s[i]))
}

fn lower_byte_exec(b: u8) -> (r: u8)
    ensures
        r == lower_byte(b),
{
    if 65 <= b && b <= 90 {
        b + 32
    } else {
        b
    }
}

/// Whether `name`, lowered to ASCII lowercase, equals `target` exactly.
pub fn lowered_matches(name: &[u8], target: &[u8]) -> (r: bool)
    ensures
        r <==> ascii_lower(name@) == target@,
{
    if name.len() != target.len() {
        assert(ascii_lower(name@).len() != target@.len());
        return false;
    }
    let n = name.len();
    let mut i: usize = 0;
    while i < n
        invariant
            n == name@.len() == target@.len(),
            0 <= i <= n,
            forall|j: int| 0 <= j < i ==> lower_byte(name@[j]) == target@[j],
        decreases n - i,
    {
        if lower_byte_exec(name[i]) != target[i] {
            assert(ascii_lower(name@)[i as int] != target@[i as int]);
            return false;
        }
        i = i + 1;
    }
    assert(ascii_lower(name@) =~= target@);
    true
}

/// Case-insensitive ASCII equality of two byte sequences.
pub fn eq_ignore_ascii(a: &[u8], b: &[u8]) -> (r: bool)
    ensures
        r <==> ascii_lower(a@) == ascii_lower(b@),
{
    if a.len() != b.len() {
        assert(ascii_lower(a@).len() != ascii_lower(b@).len());
        return false;
    }
    let n = a.len();
    let mut i: usize = 0;
    while i < n
        invariant
            n == a@.len() == b@.len(),
            0 <= i <= n,
            forall|j: int| 0 <= j < i ==> lower_byte(a@[j]) == lower_byte(b@[j]),
        decreases n - i,
    {
        if lower_byte_exec(a[i]) != lower_byte_exec(b[i]) {
            assert(ascii_lower(a@)[i as int] != ascii_lower(b@)[i as int]);
            return false;
        }
        i = i + 1;
    }
    assert(ascii_lower(a@) =~= ascii_lower(b@));
    true
}

} // verus!
