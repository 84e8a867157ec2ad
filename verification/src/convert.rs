//! A [`SmallVec1`] from and into the plain containers, through the
//! conversion traits of std. Into a `SmallVec1` the way is `TryFrom`, and
//! fails on what is empty; out of it the way is `From`, but for the array,
//! which wants the exact length.

use vstd::prelude::*;
use vstd::std_specs::convert::FromSpecImpl;
use vstd::std_specs::convert::TryFromSpecImpl;

use crate::buffer::SmallBuf;
use crate::buffer::INLINE_SIZE;
use crate::error::Size0Error;
use crate::nonempty::SmallVec1;

verus! {

impl From<SmallVec1> for Vec<u8> {
    /// A `Vec` of the bytes held.
    fn from(vec: SmallVec1) -> (r: Vec<u8>)
        ensures
            r@ == vec@,
            r@.len() >= 1,
    {
        vec.into_vec()
    }
}

impl FromSpecImpl<SmallVec1> for Vec<u8> {
    open spec fn obeys_from_spec() -> bool {
        false
    }

    open spec fn from_spec(vec: SmallVec1) -> Vec<u8> {
        arbitrary()
    }
}

impl From<SmallVec1> for Box<[u8]> {
    /// A boxed slice of the bytes held.
    fn from(vec: SmallVec1) -> (r: Box<[u8]>)
        ensures
            r@ == vec@,
            r@.len() >= 1,
    {
        vec.into_boxed_slice()
    }
}

impl FromSpecImpl<SmallVec1> for Box<[u8]> {
    open spec fn obeys_from_spec() -> bool {
        false
    }

    open spec fn from_spec(vec: SmallVec1) -> Box<[u8]> {
        arbitrary()
    }
}

impl From<SmallVec1> for SmallBuf {
    /// The buffer that the container owned.
    fn from(vec: SmallVec1) -> (r: SmallBuf)
        ensures
            r == vec.inner(),
    {
        vec.into_smallvec()
    }
}

impl FromSpecImpl<SmallVec1> for SmallBuf {
    open spec fn obeys_from_spec() -> bool {
        true
    }

    open spec fn from_spec(vec: SmallVec1) -> SmallBuf {
        vec.inner()
    }
}

impl TryFrom<Vec<u8>> for SmallVec1 {
    type Error = Size0Error;

    /// A container that holds the bytes of `vec`, if there are any.
    fn try_from(vec: Vec<u8>) -> (r: Result<Self, Size0Error>)
        ensures
            vec@.len() == 0 <==> r is Err,
            r matches Ok(v) ==> v@ == vec@,
    {
        SmallVec1::try_from_vec(vec)
    }
}

impl TryFromSpecImpl<Vec<u8>> for SmallVec1 {
    open spec fn obeys_try_from_spec() -> bool {
        false
    }

    open spec fn try_from_spec(vec: Vec<u8>) -> Result<Self, Size0Error> {
        arbitrary()
    }
}

impl TryFrom<SmallBuf> for SmallVec1 {
    type Error = Size0Error;

    /// A container that owns `wrapped` as it is, if that holds a byte.
    fn try_from(wrapped: SmallBuf) -> (r: Result<Self, Size0Error>)
        ensures
            wrapped@.len() == 0 <==> r is Err,
            r matches Ok(v) ==> v.inner() == wrapped,
    {
        SmallVec1::try_from_smallvec(wrapped)
    }
}

impl TryFromSpecImpl<SmallBuf> for SmallVec1 {
    open spec fn obeys_try_from_spec() -> bool {
        false
    }

    open spec fn try_from_spec(wrapped: SmallBuf) -> Result<Self, Size0Error> {
        arbitrary()
    }
}

impl<'a> TryFrom<&'a [u8]> for SmallVec1 {
    type Error = Size0Error;

    /// A container that holds a copy of `slice`, if that is not empty.
    fn try_from(slice: &'a [u8]) -> (r: Result<Self, Size0Error>)
        ensures
            slice@.len() == 0 <==> r is Err,
            r matches Ok(v) ==> v@ == slice@,
    {
        SmallVec1::try_from_slice(slice)
    }
}

impl<'a> TryFromSpecImpl<&'a [u8]> for SmallVec1 {
    open spec fn obeys_try_from_spec() -> bool {
        false
    }

    open spec fn try_from_spec(slice: &'a [u8]) -> Result<Self, Size0Error> {
        arbitrary()
    }
}

impl TryFrom<[u8; 4]> for SmallVec1 {
    type Error = Size0Error;

    /// A container whose inline storage is `buf`, all of it in use.
    fn try_from(buf: [u8; 4]) -> (r: Result<Self, Size0Error>)
        ensures
            r matches Ok(v) && v@ == buf@,
    {
        SmallVec1::try_from_buf(buf)
    }
}

impl TryFromSpecImpl<[u8; 4]> for SmallVec1 {
    open spec fn obeys_try_from_spec() -> bool {
        false
    }

    open spec fn try_from_spec(buf: [u8; 4]) -> Result<Self, Size0Error> {
        arbitrary()
    }
}

impl TryFrom<SmallVec1> for [u8; 4] {
    type Error = SmallVec1;

    /// The bytes as an array, where the container holds exactly
    /// [`INLINE_SIZE`] of them; else the container itself, handed back as it
    /// was.
    fn try_from(vec: SmallVec1) -> (r: Result<[u8; 4], SmallVec1>)
        ensures
            r is Ok <==> vec@.len() == INLINE_SIZE,
            r matches Ok(array) ==> array@ == vec@,
            r matches Err(back) ==> back == vec,
    {
        vec.into_inner()
    }
}

impl TryFromSpecImpl<SmallVec1> for [u8; 4] {
    open spec fn obeys_try_from_spec() -> bool {
        false
    }

    open spec fn try_from_spec(vec: SmallVec1) -> Result<[u8; 4], SmallVec1> {
        arbitrary()
    }
}

} // verus!
