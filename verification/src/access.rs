//! The bytes of a [`SmallVec1`] through the traits of std that lend them
//! out: as a slice, as the buffer, or one by one.

use vstd::prelude::*;

use crate::buffer::SmallBuf;
use crate::nonempty::SmallVec1;

verus! {

impl core::ops::Deref for SmallVec1 {
    type Target = [u8];

    /// The bytes held, as a slice.
    fn deref(&self) -> (r: &[u8])
        ensures
            r@ == self@,
            r@.len() >= 1,
    {
        self.as_slice()
    }
}

impl core::ops::DerefMut for SmallVec1 {
    /// The bytes held, as a slice to be written through.
    fn deref_mut(&mut self) -> (r: &mut [u8])
        ensures
            r@ == old(self)@,
            final(self)@ == final(r)@,
            final(self)@.len() == old(self)@.len(),
            final(self).spec_capacity() == old(self).spec_capacity(),
    {
        self.as_mut_slice()
    }
}

impl core::convert::AsRef<[u8]> for SmallVec1 {
    /// The bytes held, as a slice.
    fn as_ref(&self) -> (r: &[u8])
        ensures
            ({
                let slice: &[u8] = r;
                slice@ == self@
            }),
    {
        self.as_slice()
    }
}

impl core::convert::AsRef<SmallBuf> for SmallVec1 {
    /// The buffer that the container owns.
    fn as_ref(&self) -> (r: &SmallBuf)
        ensures
            ({
                let buf: &SmallBuf = r;
                *buf == self.inner()
            }),
    {
        self.as_smallvec()
    }
}

impl core::convert::AsMut<[u8]> for SmallVec1 {
    /// The bytes held, as a slice to be written through.
    fn as_mut(&mut self) -> (r: &mut [u8])
        ensures
            ({
                let slice: &mut [u8] = r;
                &&& slice@ == old(self)@
                &&& final(self)@ == final(slice)@
                &&& final(self)@.len() == old(self)@.len()
                &&& final(self).spec_capacity() == old(self).spec_capacity()
            }),
    {
        self.as_mut_slice()
    }
}

impl core::borrow::Borrow<[u8]> for SmallVec1 {
    /// The bytes held, as a slice.
    fn borrow(&self) -> (r: &[u8])
        ensures
            ({
                let slice: &[u8] = r;
                slice@ == self@
            }),
    {
        self.as_slice()
    }
}

impl core::borrow::Borrow<SmallBuf> for SmallVec1 {
    /// The buffer that the container owns.
    fn borrow(&self) -> (r: &SmallBuf)
        ensures
            ({
                let buf: &SmallBuf = r;
                *buf == self.inner()
            }),
    {
        self.as_smallvec()
    }
}

impl core::borrow::BorrowMut<[u8]> for SmallVec1 {
    /// The bytes held, as a slice to be written through.
    fn borrow_mut(&mut self) -> (r: &mut [u8])
        ensures
            ({
                let slice: &mut [u8] = r;
                &&& slice@ == old(self)@
                &&& final(self)@ == final(slice)@
                &&& final(self)@.len() == old(self)@.len()
                &&& final(self).spec_capacity() == old(self).spec_capacity()
            }),
    {
        self.as_mut_slice()
    }
}

impl IntoIterator for SmallVec1 {
    type Item = u8;

    type IntoIter = std::vec::IntoIter<u8>;

    /// The bytes held, first to last, by value.
    fn into_iter(self) -> (r: std::vec::IntoIter<u8>)
        ensures
            vstd::std_specs::vec::into_iter_elts(r) == self@,
    {
        self.into_vec().into_iter()
    }
}

impl<'a> IntoIterator for &'a SmallVec1 {
    type Item = &'a u8;

    type IntoIter = core::slice::Iter<'a, u8>;

    /// The bytes held, first to last, by reference.
    fn into_iter(self) -> (r: core::slice::Iter<'a, u8>)
        ensures
            vstd::std_specs::slice::into_iter_elts(r) == self@,
    {
        let r = self.as_slice().iter();
        proof {
            broadcast use vstd::std_specs::slice::group_slice_axioms;

            assert(vstd::std_specs::slice::into_iter_elts(r) =~= self@);
        }
        r
    }
}

/// `core::slice::IterMut`, which the verifier only has to pass on.
#[verifier::external_type_specification]
#[verifier::external_body]
#[verifier::reject_recursive_types(T)]
pub struct ExIterMut<'a, T: 'a>(core::slice::IterMut<'a, T>);

/// The bytes that an iterator is still to hand out, first to last, as they
/// stand before anything is written through it.
pub uninterp spec fn iter_mut_items(iter: core::slice::IterMut<'_, u8>) -> Seq<u8>;

/// `iter_mut` of a slice: an iterator that hands out all the bytes of the
/// slice from the first to the last, each to be written through its
/// reference. The slice keeps its length.
#[verifier::external_body]
fn slice_iter_mut<'a>(slice: &'a mut [u8]) -> (r: core::slice::IterMut<'a, u8>)
    ensures
        iter_mut_items(r) == old(slice)@,
        final(slice)@.len() == old(slice)@.len(),
{
    slice.iter_mut()
}

impl<'a> IntoIterator for &'a mut SmallVec1 {
    type Item = &'a mut u8;

    type IntoIter = core::slice::IterMut<'a, u8>;

    /// The bytes held, first to last, each to be written through its
    /// reference. Writing changes no length.
    fn into_iter(self) -> (r: core::slice::IterMut<'a, u8>)
        ensures
            iter_mut_items(r) == old(self)@,
            final(self)@.len() == old(self)@.len(),
            final(self).spec_capacity() == old(self).spec_capacity(),
    {
        slice_iter_mut(self.as_mut_slice())
    }
}

} // verus!
