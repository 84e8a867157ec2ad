//! `<` and its kin on the two containers: they are ordered as their bytes
//! are, whatever room either has.

use core::cmp::Ordering;
use vstd::prelude::*;
use vstd::std_specs::cmp::PartialOrdSpecImpl;

use crate::buffer::raw_compare;
use crate::buffer::SmallBuf;
use crate::nonempty::SmallVec1;

verus! {

/// How the sequence `a` stands to `b`: the first place where they differ
/// decides, and one that ends before the other differs comes first.
pub open spec fn compare_bytes(a: Seq<u8>, b: Seq<u8>) -> Ordering
    decreases a.len(),
{
    if a.len() == 0 {
        if b.len() == 0 {
            Ordering::Equal
        } else {
            Ordering::Less
        }
    } else if b.len() == 0 {
        Ordering::Greater
    } else if a.first() < b.first() {
        Ordering::Less
    } else if a.first() > b.first() {
        Ordering::Greater
    } else {
        compare_bytes(a.drop_first(), b.drop_first())
    }
}

impl PartialOrd for SmallBuf {
    fn partial_cmp(&self, other: &Self) -> (r: Option<Ordering>) {
        Some(raw_compare(self, other))
    }
}

impl PartialOrdSpecImpl for SmallBuf {
    open spec fn obeys_partial_cmp_spec() -> bool {
        true
    }

    open spec fn partial_cmp_spec(&self, other: &Self) -> Option<Ordering> {
        Some(compare_bytes(self@, other@))
    }
}

impl PartialOrd for SmallVec1 {
    fn partial_cmp(&self, other: &Self) -> (r: Option<Ordering>) {
        Some(raw_compare(self.as_smallvec(), other.as_smallvec()))
    }
}

impl PartialOrdSpecImpl for SmallVec1 {
    open spec fn obeys_partial_cmp_spec() -> bool {
        true
    }

    open spec fn partial_cmp_spec(&self, other: &Self) -> Option<Ordering> {
        Some(compare_bytes(self@, other@))
    }
}

/// Two sequences compare as equal where they are the same sequence, and
/// nowhere else.
pub proof fn lemma_compare_equal(a: Seq<u8>, b: Seq<u8>)
    ensures
        compare_bytes(a, b) == Ordering::Equal <==> a == b,
    decreases a.len(),
{
    if a.len() > 0 && b.len() > 0 {
        lemma_compare_equal(a.drop_first(), b.drop_first());
        if a.first() == b.first() && a.drop_first() == b.drop_first() {
            assert(a =~= seq![a.first()] + a.drop_first());
            assert(b =~= seq![b.first()] + b.drop_first());
        }
    } else if a.len() == 0 && b.len() == 0 {
        assert(a =~= b);
    }
}

/// Turning the two sequences round turns the answer round.
pub proof fn lemma_compare_reverse(a: Seq<u8>, b: Seq<u8>)
    ensures
        compare_bytes(a, b) == Ordering::Less <==> compare_bytes(b, a) == Ordering::Greater,
        compare_bytes(a, b) == Ordering::Equal <==> compare_bytes(b, a) == Ordering::Equal,
    decreases a.len(),
{
    if a.len() > 0 && b.len() > 0 {
        lemma_compare_reverse(a.drop_first(), b.drop_first());
    }
}

} // verus!
