//! Byte-level text checks: substring search, equality, and equality up to
//! ASCII case.

use vstd::prelude::*;
use vstd::string::{StrSliceExecFns, StringSliceAdditionalSpecFns};

verus! {

/// `needle` stands in `haystack` at offset `at`.
pub open spec fn occurs_at(needle: Seq<u8>, haystack: Seq<u8>, at: int) -> bool {
    &&& 0 <= at
    &&& at + needle.len() <= haystack.len()
    &&& haystack.subrange(at, at + needle.len()) == needle
}

/// `needle` stands somewhere in `haystack`.
pub open spec fn occurs(needle: Seq<u8>, haystack: Seq<u8>) -> bool {
    exists|at: int| occurs_at(needle, haystack, at)
}

/// An ASCII upper-case letter becomes its lower-case letter; any other byte
/// stays.
pub open spec fn lower(byte: u8) -> u8 {
    if 0x41 <= byte <= 0x5a {
        (byte + 0x20) as u8
    } else {
        byte
    }
}

/// The two byte strings are equal once ASCII letters are lower-cased.
pub open spec fn same_ignoring_case(a: Seq<u8>, b: Seq<u8>) -> bool {
    a.map_values(|byte: u8| lower(byte)) == b.map_values(|byte: u8| lower(byte))
}

/// Whether two byte strings are equal.
pub fn bytes_eq(a: &[u8], b: &[u8]) -> (equal: bool)
    ensures
        equal == (a@ == b@),
{
    if a.len() != b.len() {
        return false;
    }
    let mut i: usize = 0;
    while i < a.len()
        invariant
            a@.len() == b@.len(),
            i <= a@.len(),
            a@.take(i as int) == b@.take(i as int),
        decreases a@.len() - i,
    {
        if a[i] != b[i] {
            return false;
        }
        assert(a@.take(i + 1) =~= a@.take(i as int).push(a@[i as int]));
        assert(b@.take(i + 1) =~= b@.take(i as int).push(b@[i as int]));
        i += 1;
    }
    assert(a@ =~= a@.take(i as int));
    assert(b@ =~= b@.take(i as int));
    true
}

fn to_lower(byte: u8) -> (folded: u8)
    ensures
        folded == lower(byte),
{
    if 0x41 <= byte && byte <= 0x5a {
        byte + 0x20
    } else {
        byte
    }
}

/// Whether two byte strings are equal up to the case of ASCII letters.
pub fn eq_ignore_ascii_case(a: &[u8], b: &[u8]) -> (equal: bool)
    ensures
        equal == same_ignoring_case(a@, b@),
{
    let ghost fa = a@.map_values(|byte: u8| lower(byte));
    let ghost fb = b@.map_values(|byte: u8| lower(byte));
    if a.len() != b.len() {
        assert(fa.len() != fb.len());
        return false;
    }
    let mut i: usize = 0;
    while i < a.len()
        invariant
            a@.len() == b@.len(),
            i <= a@.len(),
            fa == a@.map_values(|byte: u8| lower(byte)),
            fb == b@.map_values(|byte: u8| lower(byte)),
            forall|k: int| 0 <= k < i ==> fa[k] == fb[k],
        decreases a@.len() - i,
    {
        if to_lower(a[i]) != to_lower(b[i]) {
            assert(fa[i as int] != fb[i as int]);
            return false;
        }
        i += 1;
    }
    assert(fa =~= fb);
    true
}

fn matches_at(haystack: &[u8], needle: &[u8], at: usize) -> (matched: bool)
    requires
        at + needle@.len() <= haystack@.len(),
    ensures
        matched == occurs_at(needle@, haystack@, at as int),
{
    let ghost window = haystack@.subrange(at as int, at + needle@.len());
    let width: usize = needle.len();
    let total: usize = haystack.len();
    let mut k: usize = 0;
    while k < width
        invariant
            width == needle@.len(),
            total == haystack@.len(),
            at + width <= total,
            k <= width,
            window == haystack@.subrange(at as int, at + needle@.len()),
            forall|j: int| 0 <= j < k ==> window[j] == needle@[j],
        decreases width - k,
    {
        if haystack[at + k] != needle[k] {
            assert(window[k as int] != needle@[k as int]);
            return false;
        }
        k += 1;
    }
    assert(window =~= needle@);
    true
}

/// Whether `needle` stands somewhere in `haystack`. The empty needle stands
/// in every haystack.
pub fn contains(haystack: &[u8], needle: &[u8]) -> (found: bool)
    ensures
        found == occurs(needle@, haystack@),
{
    if needle.len() > haystack.len() {
        return false;
    }
    let last: usize = haystack.len() - needle.len();
    let mut at: usize = 0;
    while at < last
        invariant
            last == haystack@.len() - needle@.len(),
            at <= last,
            forall|j: int| 0 <= j < at ==> !occurs_at(needle@, haystack@, j),
        decreases last - at,
    {
        if matches_at(haystack, needle, at) {
            return true;
        }
        at += 1;
    }
    matches_at(haystack, needle, last)
}

/// Whether the text `needle` stands in `content`, byte for byte in UTF-8.
pub fn file_contains(content: &[u8], needle: &str) -> (found: bool)
    ensures
        found == occurs(needle.spec_bytes(), content@),
{
    contains(content, needle.as_bytes())
}

/// A path is absolute if it starts with a slash.
pub open spec fn is_absolute_spec(path: Seq<char>) -> bool {
    path.len() > 0 && path[0] == '/'
}

/// Whether `path` is absolute, and so leaves the directory it is used in.
pub fn is_absolute(path: &str) -> (absolute: bool)
    ensures
        absolute == is_absolute_spec(path@),
{
    if path.is_empty() {
        false
    } else {
        path.get_char(0) == '/'
    }
}

/// A needle that occurs is no longer than the haystack, and the haystack
/// occurs in itself.
pub proof fn lemma_occurs_bounds(needle: Seq<u8>, haystack: Seq<u8>)
    ensures
        occurs(needle, haystack) ==> needle.len() <= haystack.len(),
        occurs(haystack, haystack),
        occurs(Seq::<u8>::empty(), haystack),
{
    assert(haystack.subrange(0, haystack.len() as int) =~= haystack);
    assert(occurs_at(haystack, haystack, 0));
    assert(haystack.subrange(0, 0) =~= Seq::<u8>::empty());
    assert(occurs_at(Seq::<u8>::empty(), haystack, 0));
}

} // verus!
