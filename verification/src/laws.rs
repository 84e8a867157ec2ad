//! What holds of the containers whatever they hold, stated over the
//! sequences that the contracts speak of.

use vstd::prelude::*;
use vstd::std_specs::cmp::PartialEqSpec;

use crate::model::dedup;
use crate::model::dedup_by_leaves;
use crate::model::dedup_by_step;
use crate::model::lemma_dedup_keeps_first;
use crate::model::resized;
use crate::model::spliced;
use crate::model::swap_removed;
use crate::model::truncated;
use crate::nonempty::SmallVec1;

verus! {

/// No operation of a [`SmallVec1`] takes its last byte: whatever a sequence
/// that holds a byte becomes under one of them, it still holds a byte. The
/// operations that shorten are taken where they succeed, which is at a
/// length of 1 or more to cut to, and at more than one byte to remove from.
pub proof fn lemma_results_hold_a_byte(
    s: Seq<u8>,
    len: int,
    index: int,
    value: u8,
    items: Seq<u8>,
)
    requires
        s.len() >= 1,
    ensures
        s.push(value).len() >= 1,
        (s + items).len() >= 1,
        0 <= index <= s.len() ==> s.insert(index, value).len() >= 1,
        0 <= index <= s.len() ==> spliced(s, index, items).len() >= 1,
        0 <= index < s.len() ==> s.update(index, value).len() >= 1,
        dedup(s).len() >= 1,
        len >= 1 ==> truncated(s, len).len() >= 1,
        len >= 1 ==> resized(s, len, value).len() == len,
        s.len() > 1 ==> s.drop_last().len() >= 1,
        s.len() > 1 && 0 <= index < s.len() ==> s.remove(index).len() >= 1,
        s.len() > 1 && 0 <= index < s.len() ==> swap_removed(s, index).len() >= 1,
{
    lemma_dedup_keeps_first(s);
}

/// Cutting to one byte leaves the first byte and nothing else, and cutting
/// to the length or beyond leaves everything.
pub proof fn lemma_truncated(s: Seq<u8>, len: int)
    requires
        s.len() >= 1,
    ensures
        truncated(s, 1) == seq![s.first()],
        len >= s.len() ==> truncated(s, len) == s,
        0 <= len <= s.len() ==> truncated(s, len).len() == len,
{
    assert(truncated(s, 1) =~= seq![s.first()]);
}

/// Two containers are equal where they hold the same bytes in the same
/// order, and nowhere else; the room that either has plays no part.
pub proof fn lemma_equal_by_bytes(a: SmallVec1, b: SmallVec1)
    ensures
        a.eq_spec(&b) <==> a@ == b@,
        a@ == b@ && a.spec_capacity() != b.spec_capacity() ==> a.eq_spec(&b),
{
}

/// A closure that answers as `==` does removes what [`dedup`] removes.
pub proof fn lemma_dedup_by_equality<F: Fn(&u8, &u8) -> bool>(
    same_bucket: F,
    s: Seq<u8>,
    kept: Seq<u8>,
)
    requires
        dedup_by_leaves(same_bucket, s, kept),
        forall|a: &u8, b: &u8, same: bool| #[trigger]
            call_ensures(same_bucket, (a, b), same) ==> same == (*a == *b),
    ensures
        kept == dedup(s),
    decreases s.len(),
{
    if s.len() > 1 {
        let before = choose|before: Seq<u8>|
            {
                &&& dedup_by_leaves(same_bucket, s.drop_last(), before)
                &&& #[trigger] dedup_by_step(same_bucket, before, s.last(), kept)
            };
        lemma_dedup_by_equality(same_bucket, s.drop_last(), before);
    }
}

} // verus!
