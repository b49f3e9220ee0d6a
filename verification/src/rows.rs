//! Sets of rows to read, by key, range or prefix.

use vstd::prelude::*;

verus! {

/// A range of row keys: from `start_key`, which belongs to it, up to `end_key`, which does
/// not, or without an end.
#[derive(Debug)]
pub struct RowRange {
    pub start_key: Vec<u8>,
    pub end_key: Option<Vec<u8>>,
}

/// The rows that a read asks for.
#[derive(Debug)]
pub struct RowSet {
    pub row_keys: Vec<Vec<u8>>,
    pub row_ranges: Vec<RowRange>,
}

/// Row keys are ordered byte by byte, a prefix before what it is a prefix of.
pub open spec fn key_before(a: Seq<u8>, b: Seq<u8>) -> bool
    decreases a.len(),
{
    if b.len() == 0 {
        false
    } else if a.len() == 0 {
        true
    } else if a[0] != b[0] {
        a[0] < b[0]
    } else {
        key_before(a.drop_first(), b.drop_first())
    }
}

impl RowRange {
    /// The key lies in the range.
    pub open spec fn contains(self, key: Seq<u8>) -> bool {
        &&& !key_before(key, self.start_key@)
        &&& match self.end_key {
            Some(end) => key_before(key, end@),
            None => true,
        }
    }
}

/// `end` is the first key after all keys that start with `prefix`.
spec fn ends_prefix(prefix: Seq<u8>, end: Seq<u8>) -> bool {
    &&& 0 < end.len() <= prefix.len()
    &&& prefix[end.len() - 1] < 255
    &&& end == prefix.take(end.len() as int).update(
        end.len() - 1,
        (prefix[end.len() - 1] + 1) as u8,
    )
    &&& forall|i: int| end.len() <= i < prefix.len() ==> prefix[i] == 255
}

/// A key does not stand before what it starts with, and no key stands before the empty key.
proof fn start_of_prefix(key: Seq<u8>, prefix: Seq<u8>)
    ensures
        prefix.is_prefix_of(key) ==> !key_before(key, prefix),
    decreases prefix.len(),
{
    if prefix.is_prefix_of(key) && prefix.len() > 0 {
        assert(key[0] == prefix[0]);
        assert(prefix.drop_first().is_prefix_of(key.drop_first()));
        start_of_prefix(key.drop_first(), prefix.drop_first());
    }
}

/// Keys not before a prefix of nothing but the greatest byte start with that prefix.
proof fn all_greatest(key: Seq<u8>, prefix: Seq<u8>)
    requires
        forall|i: int| 0 <= i < prefix.len() ==> prefix[i] == 255,
    ensures
        prefix.is_prefix_of(key) <==> !key_before(key, prefix),
    decreases prefix.len(),
{
    start_of_prefix(key, prefix);
    if prefix.len() > 0 && !key_before(key, prefix) {
        assert(key.len() > 0);
        assert(key[0] == prefix[0]);
        all_greatest(key.drop_first(), prefix.drop_first());
        joined_prefix(key, prefix);
    }
}

/// Just the keys that start with the prefix lie between it and its end.
proof fn range_of_prefix(key: Seq<u8>, prefix: Seq<u8>, end: Seq<u8>)
    requires
        ends_prefix(prefix, end),
    ensures
        prefix.is_prefix_of(key) <==> !key_before(key, prefix) && key_before(key, end),
    decreases prefix.len(),
{
    reveal_with_fuel(key_before, 2);
    start_of_prefix(key, prefix);
    if key.len() > 0 {
        joined_prefix(key, prefix);
    }
    if key.len() == 0 {
    } else if end.len() == 1 {
        if key[0] == prefix[0] {
            all_greatest(key.drop_first(), prefix.drop_first());
        }
    } else {
        assert(end[0] == prefix[0]);
        if key[0] == prefix[0] {
            let rest = end.drop_first();
            assert(rest =~= prefix.drop_first().take(rest.len() as int).update(
                rest.len() - 1,
                (prefix.drop_first()[rest.len() - 1] + 1) as u8,
            ));
            range_of_prefix(key.drop_first(), prefix.drop_first(), rest);
        }
    }
}

/// A key starts with a prefix just where the first bytes agree and the rest of the key
/// starts with the rest of the prefix.
proof fn joined_prefix(key: Seq<u8>, prefix: Seq<u8>)
    requires
        key.len() > 0,
        prefix.len() > 0,
    ensures
        prefix.is_prefix_of(key) <==> key[0] == prefix[0] && prefix.drop_first().is_prefix_of(
            key.drop_first(),
        ),
{
    let rest = prefix.drop_first();
    if key[0] == prefix[0] && rest.is_prefix_of(key.drop_first()) {
        assert forall|i: int| 0 <= i < prefix.len() implies prefix[i] == key[i] by {
            if i > 0 {
                assert(rest[i - 1] == key.drop_first()[i - 1]);
            }
        }
        assert(prefix =~= key.subrange(0, prefix.len() as int));
    }
    if prefix.is_prefix_of(key) {
        assert(prefix[0] == key[0]);
        assert(rest =~= key.drop_first().subrange(0, rest.len() as int));
    }
}

/// The range of the keys that start with `prefix`.
pub fn get_row_range_from_prefix(prefix: Vec<u8>) -> (range: RowRange)
    ensures
        range.start_key@ == prefix@,
        forall|key: Seq<u8>| #[trigger] range.contains(key) <==> prefix@.is_prefix_of(key),
{
    let mut end: Vec<u8> = prefix.clone();
    while end.len() > 0
        invariant
            end@.len() <= prefix@.len(),
            end@ == prefix@.take(end@.len() as int),
            forall|i: int| end@.len() <= i < prefix@.len() ==> prefix@[i] == 255,
        decreases end@.len(),
    {
        let last: usize = end.len() - 1;
        let byte: u8 = end[last];
        if byte < 255 {
            end.set(last, byte + 1);
            proof {
                assert(ends_prefix(prefix@, end@));
                assert forall|key: Seq<u8>|
                    prefix@.is_prefix_of(key) <==> !key_before(key, prefix@) && key_before(
                        key,
                        end@,
                    ) by {
                    range_of_prefix(key, prefix@, end@);
                }
            }
            return RowRange { start_key: prefix, end_key: Some(end) };
        }
        let _greatest = end.pop();
        assert(end@ =~= prefix@.take(end@.len() as int));
    }
    proof {
        assert forall|key: Seq<u8>|
            prefix@.is_prefix_of(key) <==> !key_before(key, prefix@) by {
            all_greatest(key, prefix@);
        }
    }
    RowRange { start_key: prefix, end_key: None }
}

impl RowSet {
    /// The rows whose keys start with `prefix`.
    pub fn with_prefix(prefix: Vec<u8>) -> (rows: RowSet)
        ensures
            rows.row_keys@.len() == 0,
            rows.row_ranges@.len() == 1,
            rows.row_ranges@[0].start_key@ == prefix@,
            forall|key: Seq<u8>|
                #[trigger] rows.row_ranges@[0].contains(key) <==> prefix@.is_prefix_of(key),
    {
        let mut row_ranges: Vec<RowRange> = Vec::new();
        row_ranges.push(get_row_range_from_prefix(prefix));
        RowSet { row_keys: Vec::new(), row_ranges }
    }
}

} // verus!
