//! The buffer that [`crate::SmallVec1`] guards.
//!
//! A [`SmallBuf`] is a `smallvec::SmallVec<[u8; 4]>`. The verifier does not
//! look inside it: what it holds is [`buf_items`], what it has room for is
//! [`buf_capacity`], and the functions `raw_*` of this module say of each
//! method of `SmallVec` what it does to the two. Those functions are
//! believed, not proved, and nothing else in the crate touches a `SmallVec`.
//! Each leaves out, by its `requires`, the arguments on which the method
//! panics; the ones that take `&mut` and no closure are `no_unwind` on that
//! ground, so that they can work on the buffer inside a `SmallVec1`.

use core::cmp::Ordering;
use smallvec::SmallVec;
use vstd::prelude::*;

use crate::error::CollectionAllocErr;
use crate::model::dedup;
use crate::model::dedup_by_key_leaves;
use crate::model::dedup_by_leaves;
use crate::model::resized;
use crate::model::spliced;
use crate::model::swap_removed;
use crate::model::truncated;
use crate::order::compare_bytes;

verus! {

/// The number of bytes that a buffer holds without a heap allocation.
pub const INLINE_SIZE: usize = 4;

/// The most bytes that one allocation can hold: `isize::MAX`.
pub const MAX_CAPACITY: usize = usize::MAX / 2;

/// The greatest length to which a buffer can grow step by step: such growth
/// rounds the new capacity up to a power of two, which has to stay within
/// [`MAX_CAPACITY`].
pub const MAX_LEN: usize = usize::MAX / 4 + 1;

/// A vector of bytes that stores up to [`INLINE_SIZE`] of them inline and
/// moves to the heap when it holds more. It may be empty.
///
/// It is a `smallvec::SmallVec<[u8; 4]>`, which the verifier takes as it
/// comes: two buffers are the same to it only where it was told so.
#[verifier::external_body]
#[derive(Ord, Hash)]
pub struct SmallBuf {
    inner: SmallVec<[u8; 4]>,
}

/// The bytes that a buffer holds, first to last.
pub uninterp spec fn buf_items(b: SmallBuf) -> Seq<u8>;

/// The number of bytes that a buffer has room for as it is.
pub uninterp spec fn buf_capacity(b: SmallBuf) -> nat;

impl View for SmallBuf {
    type V = Seq<u8>;

    open spec fn view(&self) -> Seq<u8> {
        buf_items(*self)
    }
}

impl SmallBuf {
    /// The room that the buffer has.
    pub open spec fn spec_capacity(&self) -> nat {
        buf_capacity(*self)
    }

    /// Whether the bytes lie on the heap.
    pub open spec fn spec_spilled(&self) -> bool {
        buf_capacity(*self) > INLINE_SIZE
    }

    /// Whether growth in steps can bring the buffer to the length `len`: it
    /// has the room already, or the capacity that it would ask for is one
    /// that an allocation can have.
    pub open spec fn can_grow_to(&self, len: nat) -> bool {
        len <= buf_capacity(*self) || len <= MAX_LEN
    }

    /// Whether the buffer can be given room for exactly `len` bytes.
    pub open spec fn can_hold_exactly(&self, len: nat) -> bool {
        len <= buf_capacity(*self) || len <= MAX_CAPACITY
    }
}

impl SmallBuf {
    /// An empty buffer, which uses its inline storage.
    pub fn new() -> (r: Self)
        ensures
            r@ == Seq::<u8>::empty(),
            r.spec_capacity() == INLINE_SIZE,
    {
        raw_new()
    }

    /// A buffer that holds the bytes of `vec`.
    pub fn from_vec(vec: Vec<u8>) -> (r: Self)
        ensures
            r@ == vec@,
    {
        raw_from_vec(vec)
    }

    /// A buffer that holds a copy of `slice`, inline where the slice is no
    /// longer than the inline size.
    pub fn from_slice(slice: &[u8]) -> (r: Self)
        ensures
            r@ == slice@,
            slice@.len() <= INLINE_SIZE ==> r.spec_capacity() == INLINE_SIZE,
            slice@.len() > INLINE_SIZE ==> r.spec_capacity() >= slice@.len(),
    {
        raw_from_slice(slice)
    }

    /// The number of bytes held.
    pub fn len(&self) -> (n: usize)
        ensures
            n == self@.len(),
    {
        raw_len(self)
    }

    /// Whether no byte is held.
    pub fn is_empty(&self) -> (r: bool)
        ensures
            r == (self@.len() == 0),
    {
        raw_is_empty(self)
    }

    /// The number of bytes that the buffer has room for as it is.
    pub fn capacity(&self) -> (n: usize)
        ensures
            n == self.spec_capacity(),
            n >= self@.len(),
            n >= INLINE_SIZE,
    {
        raw_capacity(self)
    }

    /// Whether the bytes lie on the heap.
    pub fn spilled(&self) -> (r: bool)
        ensures
            r == self.spec_spilled(),
    {
        raw_spilled(self)
    }

    /// The bytes held, as a slice.
    pub fn as_slice(&self) -> (r: &[u8])
        ensures
            r@ == self@,
    {
        raw_as_slice(self)
    }

    /// A `Vec` of the bytes held.
    pub fn into_vec(self) -> (r: Vec<u8>)
        ensures
            r@ == self@,
    {
        raw_into_vec(self)
    }
}

impl Clone for SmallBuf {
    /// A buffer of its own that holds the same bytes, inline where they are
    /// no more than the inline size holds. A buffer too long to be collected
    /// byte by byte is copied as a slice.
    fn clone(&self) -> (r: Self)
        ensures
            r@ == self@,
            self@.len() <= INLINE_SIZE ==> r.spec_capacity() == INLINE_SIZE,
            self@.len() > INLINE_SIZE ==> r.spec_capacity() >= self@.len(),
    {
        if raw_len(self) <= MAX_LEN {
            raw_clone(self)
        } else {
            raw_from_slice(raw_as_slice(self))
        }
    }
}

impl Default for SmallBuf {
    /// An empty buffer.
    fn default() -> (r: Self)
        ensures
            r@ == Seq::<u8>::empty(),
    {
        raw_new()
    }
}

/// The capacity of `b` after it was asked to grow to `new_cap`: a capacity
/// below the length is not taken up, and none is below the inline size.
pub open spec fn grown(b: SmallBuf, new_cap: usize) -> nat {
    if new_cap < buf_items(b).len() {
        buf_capacity(b)
    } else if new_cap > INLINE_SIZE {
        new_cap as nat
    } else {
        INLINE_SIZE as nat
    }
}

/// `SmallVec::new`: an empty buffer that uses its inline storage.
#[verifier::external_body]
pub(crate) fn raw_new() -> (r: SmallBuf)
    ensures
        buf_items(r) == Seq::<u8>::empty(),
        buf_capacity(r) == INLINE_SIZE,
{
    SmallBuf { inner: SmallVec::new() }
}

/// `SmallVec::with_capacity`: an empty buffer with room for `n` bytes, and
/// for no fewer than the inline storage holds. It panics where `n` is more
/// than an allocation can hold.
#[verifier::external_body]
pub(crate) fn raw_with_capacity(n: usize) -> (r: SmallBuf)
    requires
        n <= MAX_CAPACITY,
    ensures
        buf_items(r) == Seq::<u8>::empty(),
        buf_capacity(r) == if n > INLINE_SIZE { n } else { INLINE_SIZE },
{
    SmallBuf { inner: SmallVec::with_capacity(n) }
}

/// `SmallVec::from_vec`: the buffer holds what the vector held.
#[verifier::external_body]
pub(crate) fn raw_from_vec(vec: Vec<u8>) -> (r: SmallBuf)
    ensures
        buf_items(r) == vec@,
{
    SmallBuf { inner: SmallVec::from_vec(vec) }
}

/// `SmallVec::from_buf`: the array becomes the inline storage, all of it in
/// use.
#[verifier::external_body]
pub(crate) fn raw_from_buf(buf: [u8; 4]) -> (r: SmallBuf)
    ensures
        buf_items(r) == buf@,
        buf_capacity(r) == INLINE_SIZE,
{
    SmallBuf { inner: SmallVec::from_buf(buf) }
}

/// `SmallVec::from_buf_and_len`: the array becomes the inline storage, its
/// first `len` bytes in use. It panics where `len` is more than the array has.
#[verifier::external_body]
pub(crate) fn raw_from_buf_and_len(buf: [u8; 4], len: usize) -> (r: SmallBuf)
    requires
        len <= INLINE_SIZE,
    ensures
        buf_items(r) == buf@.take(len as int),
        buf_capacity(r) == INLINE_SIZE,
{
    SmallBuf { inner: SmallVec::from_buf_and_len(buf, len) }
}

/// `SmallVec::from_slice`: the buffer holds a copy of the slice, inline
/// where the slice is no longer than the inline size, and else on the heap
/// with room for all of it.
#[verifier::external_body]
pub(crate) fn raw_from_slice(slice: &[u8]) -> (r: SmallBuf)
    ensures
        buf_items(r) == slice@,
        slice@.len() <= INLINE_SIZE ==> buf_capacity(r) == INLINE_SIZE,
        slice@.len() > INLINE_SIZE ==> buf_capacity(r) >= slice@.len(),
{
    SmallBuf { inner: SmallVec::from_slice(slice) }
}

/// `SmallVec::from_elem`: the buffer holds `n` times `elem`, inline where
/// `n` is no more than the inline size. Beyond that it builds a `Vec` of
/// that length and keeps it as its heap storage; building it panics where
/// `n` is more than an allocation can hold.
#[verifier::external_body]
pub(crate) fn raw_from_elem(elem: u8, n: usize) -> (r: SmallBuf)
    requires
        n <= MAX_CAPACITY,
    ensures
        buf_items(r) == Seq::new(n as nat, |i: int| elem),
        n <= INLINE_SIZE ==> buf_capacity(r) == INLINE_SIZE,
        n > INLINE_SIZE ==> buf_capacity(r) >= n,
{
    SmallBuf { inner: SmallVec::from_elem(elem, n) }
}

/// `clone` of `SmallVec`: a buffer of its own with the same bytes, inline
/// where they are no more than the inline size holds, and else on the heap
/// with room for all of them. It collects the bytes one by one into an empty
/// buffer, which reserves the room first, and panics where the capacity that
/// it asks for is too large.
#[verifier::external_body]
pub(crate) fn raw_clone(b: &SmallBuf) -> (r: SmallBuf)
    requires
        buf_items(*b).len() <= MAX_LEN,
    ensures
        buf_items(r) == buf_items(*b),
        buf_items(*b).len() <= INLINE_SIZE ==> buf_capacity(r) == INLINE_SIZE,
        buf_items(*b).len() > INLINE_SIZE ==> buf_capacity(r) >= buf_items(*b).len(),
{
    SmallBuf { inner: b.inner.clone() }
}

/// `SmallVec::len`: the number of bytes held.
#[verifier::external_body]
pub(crate) fn raw_len(b: &SmallBuf) -> (n: usize)
    ensures
        n == buf_items(*b).len(),
{
    b.inner.len()
}

/// `SmallVec::is_empty`: whether no byte is held.
#[verifier::external_body]
pub(crate) fn raw_is_empty(b: &SmallBuf) -> (r: bool)
    ensures
        r == (buf_items(*b).len() == 0),
{
    b.inner.is_empty()
}

/// `SmallVec::capacity`: the room of the buffer, which is never less than
/// what it holds nor less than the inline size.
#[verifier::external_body]
pub(crate) fn raw_capacity(b: &SmallBuf) -> (n: usize)
    ensures
        n == buf_capacity(*b),
        n >= buf_items(*b).len(),
        n >= INLINE_SIZE,
{
    b.inner.capacity()
}

/// `SmallVec::inline_size`: for bytes, the length of the inline array.
#[verifier::external_body]
pub(crate) fn raw_inline_size(b: &SmallBuf) -> (n: usize)
    ensures
        n == INLINE_SIZE,
{
    b.inner.inline_size()
}

/// `SmallVec::spilled`: whether the capacity is beyond the inline size.
#[verifier::external_body]
pub(crate) fn raw_spilled(b: &SmallBuf) -> (r: bool)
    ensures
        r == (buf_capacity(*b) > INLINE_SIZE),
{
    b.inner.spilled()
}

/// `SmallVec::as_slice`: the bytes held, as a slice.
#[verifier::external_body]
pub(crate) fn raw_as_slice(b: &SmallBuf) -> (r: &[u8])
    ensures
        r@ == buf_items(*b),
{
    b.inner.as_slice()
}

/// `==` of `SmallVec`: whether the two hold the same bytes in the same order.
#[verifier::external_body]
pub(crate) fn raw_eq(a: &SmallBuf, b: &SmallBuf) -> (r: bool)
    ensures
        r == (buf_items(*a) == buf_items(*b)),
{
    a.inner == b.inner
}

/// `SmallVec::into_vec`: a `Vec` of the bytes held.
#[verifier::external_body]
pub(crate) fn raw_into_vec(b: SmallBuf) -> (r: Vec<u8>)
    ensures
        r@ == buf_items(b),
{
    b.inner.into_vec()
}

/// `SmallVec::into_boxed_slice`: a boxed slice of the bytes held.
#[verifier::external_body]
pub(crate) fn raw_into_boxed_slice(b: SmallBuf) -> (r: Box<[u8]>)
    ensures
        r@ == buf_items(b),
{
    b.inner.into_boxed_slice()
}

/// `SmallVec::into_inner`: the inline array, where the buffer has not
/// spilled and holds exactly as many bytes as the array has; else the
/// buffer itself, handed back.
#[verifier::external_body]
pub(crate) fn raw_into_inner(b: SmallBuf) -> (r: Result<[u8; 4], SmallBuf>)
    ensures
        r.is_ok() == (buf_capacity(b) <= INLINE_SIZE && buf_items(b).len() == INLINE_SIZE),
        r matches Ok(array) ==> array@ == buf_items(b),
        r matches Err(back) ==> back == b,
{
    match b.inner.into_inner() {
        Ok(array) => Ok(array),
        Err(inner) => Err(SmallBuf { inner }),
    }
}

/// `SmallVec::push`: `value` comes to stand last. A buffer that has the room
/// keeps its capacity; a full one first grows, and panics where the new
/// capacity is too large.
#[verifier::external_body]
pub(crate) fn raw_push(b: &mut SmallBuf, value: u8)
    requires
        old(b).can_grow_to(buf_items(*old(b)).len() + 1),
    ensures
        buf_items(*final(b)) == buf_items(*old(b)).push(value),
        buf_items(*old(b)).len() < buf_capacity(*old(b)) ==> buf_capacity(*final(b))
            == buf_capacity(*old(b)),
    no_unwind
{
    b.inner.push(value)
}

/// `SmallVec::pop`: the last byte leaves the buffer and is handed out; an
/// empty buffer stays as it is. The room does not change.
#[verifier::external_body]
pub(crate) fn raw_pop(b: &mut SmallBuf) -> (r: Option<u8>)
    ensures
        buf_items(*old(b)).len() == 0 ==> r is None && *final(b) == *old(b),
        buf_items(*old(b)).len() > 0 ==> r == Some(buf_items(*old(b)).last())
            && buf_items(*final(b)) == buf_items(*old(b)).drop_last(),
        buf_capacity(*final(b)) == buf_capacity(*old(b)),
    no_unwind
{
    b.inner.pop()
}

/// `SmallVec::insert`: `element` comes to stand at `index`, what stood there
/// and behind it moves one place on. It panics where `index` is beyond the
/// length, and, where the buffer is full, on a capacity that is too large.
#[verifier::external_body]
pub(crate) fn raw_insert(b: &mut SmallBuf, index: usize, element: u8)
    requires
        index <= buf_items(*old(b)).len(),
        old(b).can_grow_to(buf_items(*old(b)).len() + 1),
    ensures
        buf_items(*final(b)) == buf_items(*old(b)).insert(index as int, element),
    no_unwind
{
    b.inner.insert(index, element)
}

/// `SmallVec::remove`: the byte at `index` leaves the buffer and is handed
/// out, what stood behind it moves one place up. It panics where `index` is
/// not below the length. The room does not change.
#[verifier::external_body]
pub(crate) fn raw_remove(b: &mut SmallBuf, index: usize) -> (r: u8)
    requires
        index < buf_items(*old(b)).len(),
    ensures
        r == buf_items(*old(b))[index as int],
        buf_items(*final(b)) == buf_items(*old(b)).remove(index as int),
        buf_capacity(*final(b)) == buf_capacity(*old(b)),
    no_unwind
{
    b.inner.remove(index)
}

/// `SmallVec::swap_remove`: the byte at `index` leaves the buffer and is
/// handed out, the last byte takes its place. It panics where `index` is not
/// below the length. The room does not change.
#[verifier::external_body]
pub(crate) fn raw_swap_remove(b: &mut SmallBuf, index: usize) -> (r: u8)
    requires
        index < buf_items(*old(b)).len(),
    ensures
        r == buf_items(*old(b))[index as int],
        buf_items(*final(b)) == swap_removed(buf_items(*old(b)), index as int),
        buf_capacity(*final(b)) == buf_capacity(*old(b)),
    no_unwind
{
    b.inner.swap_remove(index)
}

/// `SmallVec::truncate`: the first `len` bytes stay, or all of them where
/// there are no more. The room does not change.
#[verifier::external_body]
pub(crate) fn raw_truncate(b: &mut SmallBuf, len: usize)
    ensures
        buf_items(*final(b)) == truncated(buf_items(*old(b)), len as int),
        buf_capacity(*final(b)) == buf_capacity(*old(b)),
    no_unwind
{
    b.inner.truncate(len)
}

/// `SmallVec::resize`: the buffer is cut to `len` bytes, or filled up to that
/// length with `value`. Filling up reserves the room first, and panics where
/// the new capacity is too large.
#[verifier::external_body]
pub(crate) fn raw_resize(b: &mut SmallBuf, len: usize, value: u8)
    requires
        len <= buf_items(*old(b)).len() || old(b).can_grow_to(len as nat),
    ensures
        buf_items(*final(b)) == resized(buf_items(*old(b)), len as int, value),
    no_unwind
{
    b.inner.resize(len, value)
}

/// `SmallVec::resize_with`: the buffer is cut to `new_len` bytes, or filled
/// up to that length with what one call of `f` after the other returns.
/// Filling up reserves the room first, and panics where the new capacity is
/// too large.
#[verifier::external_body]
pub(crate) fn raw_resize_with<F: FnMut() -> u8>(b: &mut SmallBuf, new_len: usize, f: F)
    requires
        new_len <= buf_items(*old(b)).len() || old(b).can_grow_to(new_len as nat),
        call_requires(f, ()),
    ensures
        buf_items(*final(b)).len() == new_len,
        new_len <= buf_items(*old(b)).len() ==> buf_items(*final(b)) == buf_items(*old(b)).take(
            new_len as int,
        ),
        new_len > buf_items(*old(b)).len() ==> buf_items(*final(b)).take(
            buf_items(*old(b)).len() as int,
        ) == buf_items(*old(b)),
        forall|i: int|
            buf_items(*old(b)).len() <= i < new_len ==> call_ensures(
                f,
                (),
                #[trigger] buf_items(*final(b))[i],
            ),
{
    b.inner.resize_with(new_len, f)
}

/// `SmallVec::append`: the bytes of `other` move behind those of `b`, and
/// `other` is left empty. It reserves the room first, and panics where the
/// new capacity is too large.
#[verifier::external_body]
pub(crate) fn raw_append(b: &mut SmallBuf, other: &mut SmallBuf)
    requires
        old(b).can_grow_to(buf_items(*old(b)).len() + buf_items(*old(other)).len()),
    ensures
        buf_items(*final(b)) == buf_items(*old(b)) + buf_items(*old(other)),
        buf_items(*final(other)) == Seq::<u8>::empty(),
    no_unwind
{
    b.inner.append(&mut other.inner)
}

/// `extend` of `SmallVec`, on a `Vec`: its bytes come to stand behind those
/// of the buffer. It reserves the room first, and panics where the new
/// capacity is too large.
#[verifier::external_body]
pub(crate) fn raw_extend(b: &mut SmallBuf, items: Vec<u8>)
    requires
        old(b).can_grow_to(buf_items(*old(b)).len() + items@.len()),
    ensures
        buf_items(*final(b)) == buf_items(*old(b)) + items@,
    no_unwind
{
    b.inner.extend(items)
}

/// `SmallVec::extend_from_slice`: a copy of the slice comes to stand behind
/// the bytes of the buffer. It reserves the room first, and panics where the
/// new capacity is too large.
#[verifier::external_body]
pub(crate) fn raw_extend_from_slice(b: &mut SmallBuf, slice: &[u8])
    requires
        old(b).can_grow_to(buf_items(*old(b)).len() + slice@.len()),
    ensures
        buf_items(*final(b)) == buf_items(*old(b)) + slice@,
    no_unwind
{
    b.inner.extend_from_slice(slice)
}

/// `SmallVec::insert_many`, on a `Vec`: its bytes come to stand at `index`,
/// what stood there and behind it moves on. It panics where `index` is beyond
/// the length, and where the capacity that it reserves is too large.
#[verifier::external_body]
pub(crate) fn raw_insert_many(b: &mut SmallBuf, index: usize, items: Vec<u8>)
    requires
        index <= buf_items(*old(b)).len(),
        old(b).can_grow_to(buf_items(*old(b)).len() + items@.len()),
    ensures
        buf_items(*final(b)) == spliced(buf_items(*old(b)), index as int, items@),
    no_unwind
{
    b.inner.insert_many(index, items)
}

/// `SmallVec::insert_from_slice`: a copy of the slice comes to stand at
/// `index`, what stood there and behind it moves on. It panics where `index`
/// is beyond the length, and where the capacity that it reserves is too large.
#[verifier::external_body]
pub(crate) fn raw_insert_from_slice(b: &mut SmallBuf, index: usize, slice: &[u8])
    requires
        index <= buf_items(*old(b)).len(),
        old(b).can_grow_to(buf_items(*old(b)).len() + slice@.len()),
    ensures
        buf_items(*final(b)) == spliced(buf_items(*old(b)), index as int, slice@),
    no_unwind
{
    b.inner.insert_from_slice(index, slice)
}

/// `SmallVec::dedup`: each byte that equals the one kept just before it
/// leaves the buffer. The room does not change.
#[verifier::external_body]
pub(crate) fn raw_dedup(b: &mut SmallBuf)
    ensures
        buf_items(*final(b)) == dedup(buf_items(*old(b))),
        buf_capacity(*final(b)) == buf_capacity(*old(b)),
    no_unwind
{
    b.inner.dedup()
}

/// What `same_bucket` answers when it is shown `a` and `b`.
pub(crate) fn answer_of<F: Fn(&u8, &u8) -> bool>(same_bucket: &F, a: &u8, b: &u8) -> (r: bool)
    requires
        call_requires(*same_bucket, (a, b)),
    ensures
        call_ensures(*same_bucket, (a, b), r),
{
    same_bucket(a, b)
}

/// The key that `key` gives for `a`.
pub(crate) fn key_of<K, F: Fn(&u8) -> K>(key: &F, a: &u8) -> (r: K)
    requires
        call_requires(*key, (a,)),
    ensures
        call_ensures(*key, (a,), r),
{
    key(a)
}

/// `SmallVec::dedup_by`: it walks the bytes from the second on and shows
/// `same_bucket` each of them together with the one kept last; a byte for
/// which the answer is `true` leaves the buffer. The room does not change.
#[verifier::external_body]
pub(crate) fn raw_dedup_by<F: Fn(&u8, &u8) -> bool>(b: &mut SmallBuf, same_bucket: F)
    requires
        forall|x: &u8, y: &u8| call_requires(same_bucket, (x, y)),
    ensures
        dedup_by_leaves(same_bucket, buf_items(*old(b)), buf_items(*final(b))),
        buf_capacity(*final(b)) == buf_capacity(*old(b)),
{
    b.inner.dedup_by(|x, y| answer_of(&same_bucket, x, y))
}

/// `SmallVec::dedup_by_key`: it walks the bytes from the second on, asks
/// `key` for the key of each and for that of the byte kept last, and holds
/// the first key against the second with `==`; a byte whose key is found
/// equal leaves the buffer. The room does not change.
#[verifier::external_body]
pub(crate) fn raw_dedup_by_key<K: PartialEq<K>, F: Fn(&u8) -> K>(b: &mut SmallBuf, key: F)
    requires
        forall|x: &u8| call_requires(key, (x,)),
    ensures
        dedup_by_key_leaves(key, buf_items(*old(b)), buf_items(*final(b))),
        buf_capacity(*final(b)) == buf_capacity(*old(b)),
{
    b.inner.dedup_by_key(|x| key_of(&key, x))
}

/// `SmallVec::reserve`: room for `additional` more bytes, the bytes as they
/// were. A buffer that has the room stays as it is; else the capacity asked
/// for is the next power of two, and the call panics where that is too large.
#[verifier::external_body]
pub(crate) fn raw_reserve(b: &mut SmallBuf, additional: usize)
    requires
        old(b).can_grow_to(buf_items(*old(b)).len() + additional as nat),
    ensures
        buf_items(*final(b)) == buf_items(*old(b)),
        buf_capacity(*final(b)) >= buf_items(*old(b)).len() + additional,
        buf_capacity(*old(b)) >= buf_items(*old(b)).len() + additional ==> buf_capacity(*final(b))
            == buf_capacity(*old(b)),
    no_unwind
{
    b.inner.reserve(additional)
}

/// `SmallVec::reserve_exact`: room for `additional` more bytes and no more
/// than that, the bytes as they were. A buffer that has the room stays as it
/// is. It panics where the capacity asked for is too large.
#[verifier::external_body]
pub(crate) fn raw_reserve_exact(b: &mut SmallBuf, additional: usize)
    requires
        old(b).can_hold_exactly(buf_items(*old(b)).len() + additional as nat),
    ensures
        buf_items(*final(b)) == buf_items(*old(b)),
        buf_capacity(*final(b)) == if buf_capacity(*old(b)) >= buf_items(*old(b)).len()
            + additional {
            buf_capacity(*old(b))
        } else {
            buf_items(*old(b)).len() + additional as nat
        },
    no_unwind
{
    b.inner.reserve_exact(additional)
}

/// `SmallVec::try_reserve`: as [`raw_reserve`], but a capacity that is too
/// large comes back as `CapacityOverflow`, and an allocation that failed as
/// `AllocErr`. A buffer that has the room needs neither. On an error the
/// buffer is as it was.
#[verifier::external_body]
pub(crate) fn raw_try_reserve(b: &mut SmallBuf, additional: usize) -> (r: Result<
    (),
    CollectionAllocErr,
>)
    ensures
        buf_items(*final(b)) == buf_items(*old(b)),
        (r == Err::<(), CollectionAllocErr>(CollectionAllocErr::CapacityOverflow)) == !old(b).can_grow_to(buf_items(*old(b)).len() + additional as nat),
        buf_capacity(*old(b)) >= buf_items(*old(b)).len() + additional ==> r is Ok
            && buf_capacity(*final(b)) == buf_capacity(*old(b)),
        r is Ok ==> buf_capacity(*final(b)) >= buf_items(*old(b)).len() + additional,
        r is Err ==> *final(b) == *old(b),
    no_unwind
{
    match b.inner.try_reserve(additional) {
        Ok(()) => Ok(()),
        Err(smallvec::CollectionAllocErr::CapacityOverflow) => Err(
            CollectionAllocErr::CapacityOverflow,
        ),
        Err(smallvec::CollectionAllocErr::AllocErr { .. }) => Err(CollectionAllocErr::AllocErr),
    }
}

/// `SmallVec::try_reserve_exact`: as [`raw_reserve_exact`], but a capacity
/// that is too large comes back as `CapacityOverflow`, and an allocation that
/// failed as `AllocErr`. A buffer that has the room needs neither. On an
/// error the buffer is as it was.
#[verifier::external_body]
pub(crate) fn raw_try_reserve_exact(b: &mut SmallBuf, additional: usize) -> (r: Result<
    (),
    CollectionAllocErr,
>)
    ensures
        buf_items(*final(b)) == buf_items(*old(b)),
        (r == Err::<(), CollectionAllocErr>(CollectionAllocErr::CapacityOverflow)) == !old(b).can_hold_exactly(buf_items(*old(b)).len() + additional as nat),
        buf_capacity(*old(b)) >= buf_items(*old(b)).len() + additional ==> r is Ok
            && buf_capacity(*final(b)) == buf_capacity(*old(b)),
        r is Ok && buf_capacity(*old(b)) < buf_items(*old(b)).len() + additional
            ==> buf_capacity(*final(b)) == buf_items(*old(b)).len() + additional,
        r is Err ==> *final(b) == *old(b),
    no_unwind
{
    match b.inner.try_reserve_exact(additional) {
        Ok(()) => Ok(()),
        Err(smallvec::CollectionAllocErr::CapacityOverflow) => Err(
            CollectionAllocErr::CapacityOverflow,
        ),
        Err(smallvec::CollectionAllocErr::AllocErr { .. }) => Err(CollectionAllocErr::AllocErr),
    }
}

/// `SmallVec::grow`: the capacity becomes `new_cap`, or the inline size where
/// that is more; a `new_cap` below the length changes nothing. The bytes are
/// as they were. It panics where it has to allocate more than an allocation
/// can hold.
#[verifier::external_body]
pub(crate) fn raw_grow(b: &mut SmallBuf, new_cap: usize)
    requires
        new_cap < buf_items(*old(b)).len() || new_cap == buf_capacity(*old(b)) || new_cap
            <= MAX_CAPACITY,
    ensures
        buf_items(*final(b)) == buf_items(*old(b)),
        buf_capacity(*final(b)) == grown(*old(b), new_cap),
    no_unwind
{
    b.inner.grow(new_cap)
}

/// `SmallVec::try_grow`: as [`raw_grow`], but a capacity that is too large
/// comes back as `CapacityOverflow`, and an allocation that failed as
/// `AllocErr`. Where the capacity stays, or goes back to the inline size,
/// nothing is allocated. On an error the buffer is as it was.
#[verifier::external_body]
pub(crate) fn raw_try_grow(b: &mut SmallBuf, new_cap: usize) -> (r: Result<
    (),
    CollectionAllocErr,
>)
    ensures
        buf_items(*final(b)) == buf_items(*old(b)),
        (r == Err::<(), CollectionAllocErr>(CollectionAllocErr::CapacityOverflow)) == (new_cap
            >= buf_items(*old(b)).len() && new_cap != buf_capacity(*old(b)) && new_cap
            > MAX_CAPACITY),
        grown(*old(b), new_cap) == buf_capacity(*old(b)) || new_cap <= INLINE_SIZE ==> r is Ok,
        r is Ok ==> buf_capacity(*final(b)) == grown(*old(b), new_cap),
        r is Err ==> *final(b) == *old(b),
    no_unwind
{
    match b.inner.try_grow(new_cap) {
        Ok(()) => Ok(()),
        Err(smallvec::CollectionAllocErr::CapacityOverflow) => Err(
            CollectionAllocErr::CapacityOverflow,
        ),
        Err(smallvec::CollectionAllocErr::AllocErr { .. }) => Err(CollectionAllocErr::AllocErr),
    }
}

/// `SmallVec::shrink_to_fit`: the capacity becomes the length, or the inline
/// size where that is more. The bytes are as they were.
#[verifier::external_body]
pub(crate) fn raw_shrink_to_fit(b: &mut SmallBuf)
    ensures
        buf_items(*final(b)) == buf_items(*old(b)),
        buf_capacity(*final(b)) == if buf_items(*old(b)).len() > INLINE_SIZE {
            buf_items(*old(b)).len()
        } else {
            INLINE_SIZE as nat
        },
    no_unwind
{
    b.inner.shrink_to_fit()
}

/// `SmallVec::as_mut_slice`: the bytes held, as a slice to be written
/// through. A slice keeps its length, and the room does not change.
#[verifier::external_body]
pub(crate) fn raw_as_mut_slice(b: &mut SmallBuf) -> (r: &mut [u8])
    ensures
        r@ == buf_items(*old(b)),
        final(r)@ == buf_items(*final(b)),
        final(r)@.len() == r@.len(),
        buf_capacity(*final(b)) == buf_capacity(*old(b)),
    no_unwind
{
    b.inner.as_mut_slice()
}

/// `Ord::cmp` of `SmallVec`, which is that of the two slices: the bytes are
/// compared place by place, and a proper prefix comes first.
#[verifier::external_body]
pub(crate) fn raw_compare(a: &SmallBuf, b: &SmallBuf) -> (r: Ordering)
    ensures
        r == compare_bytes(buf_items(*a), buf_items(*b)),
{
    a.inner.cmp(&b.inner)
}

/// `core::fmt::Formatter`, which the verifier only has to pass on.
#[verifier::external_type_specification]
#[verifier::external_body]
pub struct ExFormatter<'a>(core::fmt::Formatter<'a>);

/// `core::fmt::Error`, which the verifier only has to pass on.
#[verifier::external_type_specification]
#[verifier::external_body]
pub struct ExFmtError(core::fmt::Error);

impl core::fmt::Debug for SmallBuf {
    /// `Debug::fmt` of `SmallVec`, which writes the bytes as a list. Nothing
    /// is claimed of what it writes.
    #[verifier::external_body]
    fn fmt(&self, f: &mut core::fmt::Formatter<'_>) -> (r: Result<(), core::fmt::Error>) {
        core::fmt::Debug::fmt(&self.inner, f)
    }
}

} // verus!
