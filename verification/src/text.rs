//! Small helpers on strings and byte strings, stated over sequences.

use vstd::prelude::*;

verus! {

/// `needle` occurs in `hay` with its first element at position `at`.
pub open spec fn occurs_at<T>(hay: Seq<T>, needle: Seq<T>, at: int) -> bool {
    &&& 0 <= at
    &&& at + needle.len() <= hay.len()
    &&& hay.subrange(at, at + needle.len()) == needle
}

/// `needle` occurs somewhere in `hay`.
pub open spec fn occurs_in<T>(hay: Seq<T>, needle: Seq<T>) -> bool {
    exists|at: int| occurs_at(hay, needle, at)
}

/// The characters of a string, one by one.
pub fn chars_of(s: &str) -> (chars: Vec<char>)
    ensures
        chars@ == s@,
{
    let mut chars: Vec<char> = Vec::new();
    for c in it: s.chars()
        invariant
            it.seq() == s@,
            chars@ == s@.take(it.index()),
    {
        chars.push(c);
    }
    chars
}

/// Whether `needle` occurs in `hay` at position `at`.
fn matches_at(hay: &Vec<char>, needle: &Vec<char>, at: usize) -> (found: bool)
    requires
        at + needle@.len() <= hay@.len(),
    ensures
        found == occurs_at(hay@, needle@, at as int),
{
    let mut i: usize = 0;
    let end: usize = hay.len();
    while i < needle.len()
        invariant
            i <= needle@.len(),
            end == hay@.len(),
            at + needle@.len() <= end,
            forall|k: int| 0 <= k < i ==> hay@[at + k] == needle@[k],
        decreases needle@.len() - i,
    {
        if hay[at + i] != needle[i] {
            proof {
                let window = hay@.subrange(at as int, at + needle@.len());
                assert(window[i as int] == hay@[at + i]);
            }
            return false;
        }
        i += 1;
    }
    assert(hay@.subrange(at as int, at + needle@.len()) =~= needle@);
    true
}

/// Whether `needle` occurs in `hay`.
pub fn contains(hay: &str, needle: &str) -> (found: bool)
    ensures
        found == occurs_in(hay@, needle@),
{
    let all = chars_of(hay);
    let part = chars_of(needle);
    if part.len() > all.len() {
        return false;
    }
    let mut at: usize = 0;
    let last: usize = all.len() - part.len();
    while at < last && !matches_at(&all, &part, at)
        invariant
            all@ == hay@,
            part@ == needle@,
            last == all@.len() - part@.len(),
            at <= last,
            forall|k: int| 0 <= k < at ==> !occurs_at(hay@, needle@, k),
        decreases last - at,
    {
        at += 1;
    }
    let found = matches_at(&all, &part, at);
    assert(found ==> occurs_at(hay@, needle@, at as int));
    found
}

/// What follows `prefix` in `s`, where `s` starts with it.
pub fn strip_prefix(s: &str, prefix: &str) -> (rest: Option<String>)
    ensures
        rest is Some <==> prefix@.is_prefix_of(s@),
        rest matches Some(r) ==> s@ == prefix@ + r@,
{
    let all = chars_of(s);
    let head = chars_of(prefix);
    if head.len() > all.len() {
        return None;
    }
    if !matches_at(&all, &head, 0) {
        assert(all@.subrange(0, head@.len() as int) != head@);
        return None;
    }
    assert(s@.subrange(0, head@.len() as int) == head@);
    let rest = s.substring_char(head.len(), all.len()).to_owned();
    assert(s@ =~= prefix@ + rest@);
    Some(rest)
}

/// Whether two strings hold the same characters.
pub fn same_text(a: &str, b: &str) -> (same: bool)
    ensures
        same == (a@ == b@),
{
    a.to_owned() == b.to_owned()
}

/// Whether two byte strings hold the same bytes.
pub fn same_bytes(a: &Vec<u8>, b: &Vec<u8>) -> (same: bool)
    ensures
        same == (a@ == b@),
{
    if a.len() != b.len() {
        return false;
    }
    let mut i: usize = 0;
    while i < a.len()
        invariant
            i <= a@.len(),
            a@.len() == b@.len(),
            forall|k: int| 0 <= k < i ==> a@[k] == b@[k],
        decreases a@.len() - i,
    {
        if a[i] != b[i] {
            return false;
        }
        i += 1;
    }
    assert(a@ =~= b@);
    true
}

/// What digests are multiplied by.
pub const DIGEST_FACTOR: u64 = 1_099_511_628_211;

/// A digest that takes in one more number.
pub open spec fn mixed(digest: u64, number: u64) -> u64 {
    digest.wrapping_mul(DIGEST_FACTOR).wrapping_add(number)
}

/// A digest that takes in a string, character by character.
pub open spec fn mixed_text(digest: u64, text: Seq<char>) -> u64
    decreases text.len(),
{
    if text.len() == 0 {
        digest
    } else {
        mixed(mixed_text(digest, text.drop_last()), text.last() as u64)
    }
}

/// A digest that takes in a byte string, byte by byte.
pub open spec fn mixed_bytes(digest: u64, bytes: Seq<u8>) -> u64
    decreases bytes.len(),
{
    if bytes.len() == 0 {
        digest
    } else {
        mixed(mixed_bytes(digest, bytes.drop_last()), bytes.last() as u64)
    }
}

/// Takes a string into a digest.
pub fn mix_text(digest: u64, text: &str) -> (mixed: u64)
    ensures
        mixed == mixed_text(digest, text@),
{
    let mut sum: u64 = digest;
    for c in it: text.chars()
        invariant
            it.seq() == text@,
            sum == mixed_text(digest, text@.take(it.index())),
    {
        proof {
            let next = text@.take(it.index() + 1);
            assert(next.drop_last() =~= text@.take(it.index()));
            assert(next.last() == c);
        }
        sum = sum.wrapping_mul(DIGEST_FACTOR).wrapping_add(c as u64);
    }
    assert(text@.take(text@.len() as int) =~= text@);
    sum
}

/// Takes a byte string into a digest.
pub fn mix_bytes(digest: u64, bytes: &Vec<u8>) -> (mixed: u64)
    ensures
        mixed == mixed_bytes(digest, bytes@),
{
    let mut sum: u64 = digest;
    let mut i: usize = 0;
    while i < bytes.len()
        invariant
            i <= bytes@.len(),
            sum == mixed_bytes(digest, bytes@.take(i as int)),
        decreases bytes@.len() - i,
    {
        proof {
            let next = bytes@.take(i + 1);
            assert(next.drop_last() =~= bytes@.take(i as int));
            assert(next.last() == bytes@[i as int]);
        }
        sum = sum.wrapping_mul(DIGEST_FACTOR).wrapping_add(bytes[i] as u64);
        i += 1;
    }
    assert(bytes@.take(i as int) =~= bytes@);
    sum
}

} // verus!
