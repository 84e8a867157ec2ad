//! `==` on the two containers: they are equal where they hold the same bytes
//! in the same order, whatever room either has.

use vstd::prelude::*;
use vstd::std_specs::cmp::PartialEqSpecImpl;

use crate::buffer::raw_eq;
use crate::buffer::SmallBuf;
use crate::nonempty::SmallVec1;

verus! {

impl PartialEq for SmallBuf {
    fn eq(&self, other: &Self) -> (r: bool) {
        raw_eq(self, other)
    }
}

impl Eq for SmallBuf {
}

impl PartialEqSpecImpl for SmallBuf {
    open spec fn obeys_eq_spec() -> bool {
        true
    }

    open spec fn eq_spec(&self, other: &Self) -> bool {
        self@ == other@
    }
}

impl PartialEq for SmallVec1 {
    fn eq(&self, other: &Self) -> (r: bool) {
        raw_eq(self.as_smallvec(), other.as_smallvec())
    }
}

impl Eq for SmallVec1 {
}

impl PartialEqSpecImpl for SmallVec1 {
    open spec fn obeys_eq_spec() -> bool {
        true
    }

    open spec fn eq_spec(&self, other: &Self) -> bool {
        self@ == other@
    }
}

} // verus!
