//! [`SmallVec1`]: a [`SmallBuf`] that holds at least one byte.
//!
//! The buffer is a private field, and that it is not empty is the type's
//! invariant: the verifier demands it wherever a `SmallVec1` is made or
//! changed, and each function here may rely on it without asking its caller
//! for anything.

use vstd::prelude::*;

use crate::buffer::raw_append;
use crate::buffer::raw_as_mut_slice;
use crate::buffer::raw_as_slice;
use crate::buffer::raw_capacity;
use crate::buffer::raw_dedup;
use crate::buffer::raw_dedup_by;
use crate::buffer::raw_dedup_by_key;
use crate::buffer::raw_extend;
use crate::buffer::raw_extend_from_slice;
use crate::buffer::raw_from_buf;
use crate::buffer::raw_from_buf_and_len;
use crate::buffer::raw_from_elem;
use crate::buffer::raw_from_slice;
use crate::buffer::raw_from_vec;
use crate::buffer::raw_grow;
use crate::buffer::raw_inline_size;
use crate::buffer::raw_insert;
use crate::buffer::raw_insert_from_slice;
use crate::buffer::raw_insert_many;
use crate::buffer::raw_into_boxed_slice;
use crate::buffer::raw_into_inner;
use crate::buffer::raw_into_vec;
use crate::buffer::raw_is_empty;
use crate::buffer::raw_len;
use crate::buffer::raw_new;
use crate::buffer::raw_pop;
use crate::buffer::raw_push;
use crate::buffer::raw_remove;
use crate::buffer::raw_reserve;
use crate::buffer::raw_reserve_exact;
use crate::buffer::raw_resize;
use crate::buffer::raw_resize_with;
use crate::buffer::raw_shrink_to_fit;
use crate::buffer::raw_spilled;
use crate::buffer::raw_swap_remove;
use crate::buffer::raw_truncate;
use crate::buffer::raw_try_grow;
use crate::buffer::raw_try_reserve;
use crate::buffer::raw_try_reserve_exact;
use crate::buffer::raw_with_capacity;
use crate::buffer::grown;
use crate::buffer::SmallBuf;
use crate::buffer::INLINE_SIZE;
use crate::buffer::MAX_CAPACITY;
use crate::buffer::MAX_LEN;
use crate::error::CollectionAllocErr;
use crate::error::Size0Error;
use crate::model::dedup;
use crate::model::dedup_by_key_leaves;
use crate::model::dedup_by_leaves;
use crate::model::lemma_dedup_by_key_keeps_first;
use crate::model::lemma_dedup_by_keeps_first;
use crate::model::lemma_dedup_keeps_first;
use crate::model::resized;
use crate::model::spliced;
use crate::model::swap_removed;
use crate::model::truncated;

verus! {

/// A small vector of bytes that holds at least one byte at all times.
///
/// Its view is the sequence of its bytes. Two of them are equal, and are
/// ordered and hashed, by that sequence alone.
#[derive(Ord, Hash)]
pub struct SmallVec1 {
    buf: SmallBuf,
}

impl View for SmallVec1 {
    type V = Seq<u8>;

    open spec fn view(&self) -> Seq<u8> {
        self.inner()@
    }
}

impl Clone for SmallVec1 {
    /// A container of its own that holds the same bytes, inline where they
    /// are no more than the inline size holds.
    fn clone(&self) -> (r: Self)
        ensures
            r@ == self@,
            r@.len() >= 1,
            self@.len() <= INLINE_SIZE ==> r.spec_capacity() == INLINE_SIZE,
            self@.len() > INLINE_SIZE ==> r.spec_capacity() >= self@.len(),
    {
        proof {
            use_type_invariant(self);
        }
        SmallVec1 { buf: self.buf.clone() }
    }
}

impl core::fmt::Debug for SmallVec1 {
    /// Writes the bytes as a list, as the buffer does.
    fn fmt(&self, f: &mut core::fmt::Formatter<'_>) -> (r: Result<(), core::fmt::Error>) {
        core::fmt::Debug::fmt(&self.buf, f)
    }
}

impl Default for SmallVec1 {
    /// A container that holds one zero byte.
    fn default() -> (r: Self)
        ensures
            r@ == seq![0u8],
    {
        SmallVec1::new(u8::default())
    }
}

impl SmallVec1 {
    /// The buffer that the container owns.
    pub closed spec fn inner(&self) -> SmallBuf {
        self.buf
    }

    #[verifier::type_invariant]
    spec fn holds_a_byte(self) -> bool {
        self.buf@.len() >= 1
    }

    /// The room that the container has.
    pub open spec fn spec_capacity(&self) -> nat {
        self.inner().spec_capacity()
    }

    /// Whether the bytes lie on the heap.
    pub open spec fn spec_spilled(&self) -> bool {
        self.inner().spec_spilled()
    }

    /// Whether growth in steps can bring the container to the length `len`.
    pub open spec fn can_grow_to(&self, len: nat) -> bool {
        self.inner().can_grow_to(len)
    }

    /// Whether the container can be given room for exactly `len` bytes.
    pub open spec fn can_hold_exactly(&self, len: nat) -> bool {
        self.inner().can_hold_exactly(len)
    }

    /// A container that holds `first` and nothing else, in its inline storage.
    pub fn new(first: u8) -> (r: Self)
        ensures
            r@ == seq![first],
            r.spec_capacity() == INLINE_SIZE,
    {
        let mut buf = raw_new();
        raw_push(&mut buf, first);
        SmallVec1 { buf }
    }

    /// A container that holds `first` and has room for `capacity` bytes, and
    /// for no fewer than the inline storage holds.
    pub fn with_capacity(first: u8, capacity: usize) -> (r: Self)
        requires
            capacity <= MAX_CAPACITY,
        ensures
            r@ == seq![first],
            r.spec_capacity() == if capacity > INLINE_SIZE {
                capacity
            } else {
                INLINE_SIZE
            },
    {
        let mut buf = raw_with_capacity(capacity);
        raw_push(&mut buf, first);
        SmallVec1 { buf }
    }

    /// A container that holds `first` and, behind it, a copy of `rest`.
    pub fn from_parts(first: u8, rest: &[u8]) -> (r: Self)
        requires
            rest@.len() < MAX_LEN,
        ensures
            r@ == seq![first] + rest@,
    {
        let mut buf = raw_new();
        raw_push(&mut buf, first);
        raw_extend_from_slice(&mut buf, rest);
        SmallVec1 { buf }
    }

    /// A container that holds the bytes of `vec`, if there are any.
    pub fn try_from_vec(vec: Vec<u8>) -> (r: Result<Self, Size0Error>)
        ensures
            vec@.len() == 0 <==> r is Err,
            r matches Ok(v) ==> v@ == vec@ && v@.len() >= 1,
    {
        if vec.is_empty() {
            Err(Size0Error)
        } else {
            Ok(SmallVec1 { buf: raw_from_vec(vec) })
        }
    }

    /// A container that owns `wrapped` as it is, if that holds a byte.
    pub fn try_from_smallvec(wrapped: SmallBuf) -> (r: Result<Self, Size0Error>)
        ensures
            wrapped@.len() == 0 <==> r is Err,
            r matches Ok(v) ==> v.inner() == wrapped && v@.len() >= 1,
    {
        if raw_is_empty(&wrapped) {
            Err(Size0Error)
        } else {
            Ok(SmallVec1 { buf: wrapped })
        }
    }

    /// A container whose inline storage is `buf`, all of it in use. An array
    /// of [`INLINE_SIZE`] bytes is never empty, so this does not fail.
    pub fn try_from_buf(buf: [u8; 4]) -> (r: Result<Self, Size0Error>)
        ensures
            r matches Ok(v) && v@ == buf@ && v.spec_capacity() == INLINE_SIZE,
    {
        Self::try_from_smallvec(raw_from_buf(buf))
    }

    /// A container whose inline storage is `buf`, the first `len` bytes of it
    /// in use, if `len` is not 0.
    pub fn try_from_buf_and_len(buf: [u8; 4], len: usize) -> (r: Result<Self, Size0Error>)
        requires
            len <= INLINE_SIZE,
        ensures
            len == 0 <==> r is Err,
            r matches Ok(v) ==> v@ == buf@.take(len as int) && v@.len() == len && v.spec_capacity()
                == INLINE_SIZE,
    {
        Self::try_from_smallvec(raw_from_buf_and_len(buf, len))
    }

    /// A container that holds a copy of `slice`, if that is not empty. The
    /// copy is inline where the slice is no longer than the inline size.
    pub fn try_from_slice(slice: &[u8]) -> (r: Result<Self, Size0Error>)
        ensures
            slice@.len() == 0 <==> r is Err,
            r matches Ok(v) ==> v@ == slice@ && v@.len() >= 1,
            r matches Ok(v) ==> (slice@.len() <= INLINE_SIZE ==> v.spec_capacity() == INLINE_SIZE),
            r matches Ok(v) ==> (slice@.len() > INLINE_SIZE ==> v.spec_capacity() >= slice@.len()),
    {
        if slice.len() == 0 {
            Err(Size0Error)
        } else {
            Ok(SmallVec1 { buf: raw_from_slice(slice) })
        }
    }

    /// A container that holds `len` times `element`, if `len` is not 0. The
    /// bytes are inline where `len` is no more than the inline size.
    pub fn try_from_elem(element: u8, len: usize) -> (r: Result<Self, Size0Error>)
        requires
            len <= MAX_CAPACITY,
        ensures
            len == 0 <==> r is Err,
            r matches Ok(v) ==> v@ == Seq::new(len as nat, |i: int| element) && v@.len() == len,
            r matches Ok(v) ==> (len <= INLINE_SIZE ==> v.spec_capacity() == INLINE_SIZE),
            r matches Ok(v) ==> (len > INLINE_SIZE ==> v.spec_capacity() >= len),
    {
        if len == 0 {
            Err(Size0Error)
        } else {
            Ok(SmallVec1 { buf: raw_from_elem(element, len) })
        }
    }

    /// The number of bytes held, which is never 0.
    pub fn len(&self) -> (n: usize)
        ensures
            n == self@.len(),
            n >= 1,
    {
        proof {
            use_type_invariant(self);
        }
        raw_len(&self.buf)
    }

    /// The number of bytes that the container has room for as it is.
    pub fn capacity(&self) -> (n: usize)
        ensures
            n == self.spec_capacity(),
            n >= self@.len(),
            n >= INLINE_SIZE,
    {
        raw_capacity(&self.buf)
    }

    /// Whether the container can take `more` bytes: it has the room for
    /// them, or growth in steps can bring it to the new length.
    pub fn can_take(&self, more: usize) -> (r: bool)
        ensures
            r == self.can_grow_to(self@.len() + more as nat),
    {
        let len: usize = raw_len(&self.buf);
        let capacity: usize = raw_capacity(&self.buf);
        more <= capacity - len || (len <= MAX_LEN && more <= MAX_LEN - len)
    }

    /// The number of bytes that the container holds without a heap
    /// allocation.
    pub fn inline_size(&self) -> (n: usize)
        ensures
            n == INLINE_SIZE,
    {
        raw_inline_size(&self.buf)
    }

    /// Whether the bytes lie on the heap.
    pub fn spilled(&self) -> (r: bool)
        ensures
            r == self.spec_spilled(),
    {
        raw_spilled(&self.buf)
    }

    /// The first byte.
    pub fn first(&self) -> (r: &u8)
        ensures
            *r == self@.first(),
    {
        proof {
            use_type_invariant(self);
        }
        raw_as_slice(&self.buf).first().unwrap()
    }

    /// The last byte.
    pub fn last(&self) -> (r: &u8)
        ensures
            *r == self@.last(),
    {
        proof {
            use_type_invariant(self);
        }
        raw_as_slice(&self.buf).last().unwrap()
    }

    /// The bytes held, as a slice.
    pub fn as_slice(&self) -> (r: &[u8])
        ensures
            r@ == self@,
            r@.len() >= 1,
    {
        proof {
            use_type_invariant(self);
        }
        raw_as_slice(&self.buf)
    }

    /// The buffer that the container owns.
    pub fn as_smallvec(&self) -> (r: &SmallBuf)
        ensures
            *r == self.inner(),
            r@.len() >= 1,
    {
        proof {
            use_type_invariant(self);
        }
        &self.buf
    }

    /// The first byte, to be written through the reference.
    pub fn first_mut(&mut self) -> (r: &mut u8)
        ensures
            *r == old(self)@.first(),
            final(self)@ == old(self)@.update(0, *final(r)),
            final(self)@.len() >= 1,
            final(self).spec_capacity() == old(self).spec_capacity(),
    {
        proof {
            use_type_invariant(&*self);
        }
        raw_as_mut_slice(&mut self.buf).first_mut().unwrap()
    }

    /// The last byte, to be written through the reference.
    pub fn last_mut(&mut self) -> (r: &mut u8)
        ensures
            *r == old(self)@.last(),
            final(self)@ == old(self)@.update(old(self)@.len() - 1, *final(r)),
            final(self)@.len() >= 1,
            final(self).spec_capacity() == old(self).spec_capacity(),
    {
        proof {
            use_type_invariant(&*self);
        }
        raw_as_mut_slice(&mut self.buf).last_mut().unwrap()
    }

    /// The bytes held, as a slice to be written through.
    pub fn as_mut_slice(&mut self) -> (r: &mut [u8])
        ensures
            r@ == old(self)@,
            final(self)@ == final(r)@,
            final(self)@.len() == old(self)@.len(),
            final(self)@.len() >= 1,
            final(self).spec_capacity() == old(self).spec_capacity(),
    {
        proof {
            use_type_invariant(&*self);
        }
        raw_as_mut_slice(&mut self.buf)
    }

    /// Puts `value` behind the last byte. A container that has the room
    /// keeps its capacity.
    pub fn push(&mut self, value: u8)
        requires
            old(self).can_grow_to(old(self)@.len() + 1),
        ensures
            final(self)@ == old(self)@.push(value),
            final(self)@.len() >= 1,
            old(self)@.len() < old(self).spec_capacity() ==> final(self).spec_capacity() == old(self).spec_capacity(),
    {
        raw_push(&mut self.buf, value);
    }

    /// Puts `element` at `index`; what stood there and behind it moves one
    /// place on.
    pub fn insert(&mut self, index: usize, element: u8)
        requires
            index <= old(self)@.len(),
            old(self).can_grow_to(old(self)@.len() + 1),
        ensures
            final(self)@ == old(self)@.insert(index as int, element),
            final(self)@.len() >= 1,
    {
        raw_insert(&mut self.buf, index, element);
    }

    /// Puts the bytes of `items` at `index`; what stood there and behind it
    /// moves on.
    pub fn insert_many(&mut self, index: usize, items: Vec<u8>)
        requires
            index <= old(self)@.len(),
            old(self).can_grow_to(old(self)@.len() + items@.len()),
        ensures
            final(self)@ == spliced(old(self)@, index as int, items@),
            final(self)@.len() >= 1,
    {
        proof {
            use_type_invariant(&*self);
        }
        raw_insert_many(&mut self.buf, index, items);
    }

    /// Puts a copy of `slice` at `index`; what stood there and behind it
    /// moves on.
    pub fn insert_from_slice(&mut self, index: usize, slice: &[u8])
        requires
            index <= old(self)@.len(),
            old(self).can_grow_to(old(self)@.len() + slice@.len()),
        ensures
            final(self)@ == spliced(old(self)@, index as int, slice@),
            final(self)@.len() >= 1,
    {
        proof {
            use_type_invariant(&*self);
        }
        raw_insert_from_slice(&mut self.buf, index, slice);
    }

    /// Puts the bytes of `items` behind the last byte.
    pub fn extend(&mut self, items: Vec<u8>)
        requires
            old(self).can_grow_to(old(self)@.len() + items@.len()),
        ensures
            final(self)@ == old(self)@ + items@,
            final(self)@.len() >= 1,
    {
        proof {
            use_type_invariant(&*self);
        }
        raw_extend(&mut self.buf, items);
    }

    /// Puts a copy of `slice` behind the last byte.
    pub fn extend_from_slice(&mut self, slice: &[u8])
        requires
            old(self).can_grow_to(old(self)@.len() + slice@.len()),
        ensures
            final(self)@ == old(self)@ + slice@,
            final(self)@.len() >= 1,
    {
        proof {
            use_type_invariant(&*self);
        }
        raw_extend_from_slice(&mut self.buf, slice);
    }

    /// Moves the bytes of `other` behind the last byte, and leaves `other`
    /// empty.
    pub fn append(&mut self, other: &mut SmallBuf)
        requires
            old(self).can_grow_to(old(self)@.len() + old(other)@.len()),
        ensures
            final(self)@ == old(self)@ + old(other)@,
            final(other)@ == Seq::<u8>::empty(),
            final(self)@.len() >= 1,
    {
        proof {
            use_type_invariant(&*self);
        }
        raw_append(&mut self.buf, other);
    }

    /// Makes room for `additional` more bytes, and maybe for more than that.
    /// A container that has the room stays as it is.
    pub fn reserve(&mut self, additional: usize)
        requires
            old(self).can_grow_to(old(self)@.len() + additional as nat),
        ensures
            final(self)@ == old(self)@,
            final(self).spec_capacity() >= old(self)@.len() + additional,
            old(self).spec_capacity() >= old(self)@.len() + additional ==> final(self).spec_capacity() == old(self).spec_capacity(),
    {
        proof {
            use_type_invariant(&*self);
        }
        raw_reserve(&mut self.buf, additional);
    }

    /// Makes room for `additional` more bytes and no more than that. A
    /// container that has the room stays as it is.
    pub fn reserve_exact(&mut self, additional: usize)
        requires
            old(self).can_hold_exactly(old(self)@.len() + additional as nat),
        ensures
            final(self)@ == old(self)@,
            final(self).spec_capacity() == if old(self).spec_capacity() >= old(self)@.len()
                + additional {
                old(self).spec_capacity()
            } else {
                old(self)@.len() + additional as nat
            },
    {
        proof {
            use_type_invariant(&*self);
        }
        raw_reserve_exact(&mut self.buf, additional);
    }

    /// Makes room for `additional` more bytes as [`Self::reserve`] does, or
    /// says why it could not: `CapacityOverflow` where the capacity to ask
    /// for is too large, `AllocErr` where the allocator failed. A container
    /// that has the room needs neither. On an error the container is as it
    /// was.
    pub fn try_reserve(&mut self, additional: usize) -> (r: Result<(), CollectionAllocErr>)
        ensures
            final(self)@ == old(self)@,
            r == Err::<(), CollectionAllocErr>(CollectionAllocErr::CapacityOverflow) <==> !old(self).can_grow_to(old(self)@.len() + additional as nat),
            old(self).spec_capacity() >= old(self)@.len() + additional ==> r is Ok && final(self).spec_capacity() == old(self).spec_capacity(),
            r is Ok ==> final(self).spec_capacity() >= old(self)@.len() + additional,
            r is Err ==> *final(self) == *old(self),
    {
        proof {
            use_type_invariant(&*self);
        }
        raw_try_reserve(&mut self.buf, additional)
    }

    /// Makes room for `additional` more bytes as [`Self::reserve_exact`]
    /// does, or says why it could not: `CapacityOverflow` where the capacity
    /// to ask for is too large, `AllocErr` where the allocator failed. A
    /// container that has the room needs neither. On an error the container
    /// is as it was.
    pub fn try_reserve_exact(&mut self, additional: usize) -> (r: Result<(), CollectionAllocErr>)
        ensures
            final(self)@ == old(self)@,
            r == Err::<(), CollectionAllocErr>(CollectionAllocErr::CapacityOverflow) <==> !old(self).can_hold_exactly(old(self)@.len() + additional as nat),
            old(self).spec_capacity() >= old(self)@.len() + additional ==> r is Ok && final(self).spec_capacity() == old(self).spec_capacity(),
            r is Ok && old(self).spec_capacity() < old(self)@.len() + additional ==> final(self).spec_capacity() == old(self)@.len() + additional,
            r is Err ==> *final(self) == *old(self),
    {
        proof {
            use_type_invariant(&*self);
        }
        raw_try_reserve_exact(&mut self.buf, additional)
    }

    /// Sets the capacity to `new_cap`, or to the inline size where that is
    /// more. A `new_cap` below the length changes nothing.
    pub fn grow(&mut self, new_cap: usize)
        requires
            new_cap < old(self)@.len() || new_cap == old(self).spec_capacity() || new_cap
                <= MAX_CAPACITY,
        ensures
            final(self)@ == old(self)@,
            final(self).spec_capacity() == grown(old(self).inner(), new_cap),
    {
        proof {
            use_type_invariant(&*self);
        }
        raw_grow(&mut self.buf, new_cap);
    }

    /// Sets the capacity as [`Self::grow`] does, or says why it could not:
    /// `CapacityOverflow` where `new_cap` is too large, `AllocErr` where the
    /// allocator failed. Where the capacity stays, or goes back to the inline
    /// size, neither can happen. On an error the container is as it was.
    pub fn try_grow(&mut self, new_cap: usize) -> (r: Result<(), CollectionAllocErr>)
        ensures
            final(self)@ == old(self)@,
            r == Err::<(), CollectionAllocErr>(CollectionAllocErr::CapacityOverflow) <==> new_cap
                >= old(self)@.len() && new_cap != old(self).spec_capacity() && new_cap
                > MAX_CAPACITY,
            grown(old(self).inner(), new_cap) == old(self).spec_capacity() || new_cap
                <= INLINE_SIZE ==> r is Ok,
            r is Ok ==> final(self).spec_capacity() == grown(old(self).inner(), new_cap),
            r is Err ==> *final(self) == *old(self),
    {
        proof {
            use_type_invariant(&*self);
        }
        raw_try_grow(&mut self.buf, new_cap)
    }

    /// Gives up the room that is not in use, down to the inline size.
    pub fn shrink_to_fit(&mut self)
        ensures
            final(self)@ == old(self)@,
            final(self).spec_capacity() == if old(self)@.len() > INLINE_SIZE {
                old(self)@.len()
            } else {
                INLINE_SIZE as nat
            },
    {
        proof {
            use_type_invariant(&*self);
        }
        raw_shrink_to_fit(&mut self.buf);
    }

    /// Removes each byte that equals the one kept just before it. The first
    /// byte always stays.
    pub fn dedup(&mut self)
        ensures
            final(self)@ == dedup(old(self)@),
            final(self)@.len() >= 1,
            final(self)@.first() == old(self)@.first(),
            final(self).spec_capacity() == old(self).spec_capacity(),
    {
        proof {
            use_type_invariant(&*self);
            lemma_dedup_keeps_first(self.buf@);
        }
        raw_dedup(&mut self.buf);
    }

    /// Removes each byte for which `same_bucket` answers `true` when it is
    /// shown that byte and the one kept just before it. The first byte
    /// always stays. Should the closure panic, the container holds the bytes
    /// that it held before the call.
    pub fn dedup_by<F: Fn(&u8, &u8) -> bool>(&mut self, same_bucket: F)
        requires
            forall|x: &u8, y: &u8| call_requires(same_bucket, (x, y)),
        ensures
            dedup_by_leaves(same_bucket, old(self)@, final(self)@),
            1 <= final(self)@.len() <= old(self)@.len(),
            final(self)@.first() == old(self)@.first(),
            final(self).spec_capacity() == old(self).spec_capacity(),
    {
        proof {
            use_type_invariant(&*self);
        }
        let mut buf = self.take_buf();
        raw_dedup_by(&mut buf, same_bucket);
        proof {
            lemma_dedup_by_keeps_first(same_bucket, old(self)@, buf@);
        }
        self.buf = buf;
    }

    /// Removes each byte whose key `==` finds equal to the key of the byte
    /// kept just before it. The first byte always stays. Should the closure
    /// panic, the container holds the bytes that it held before the call.
    pub fn dedup_by_key<K: PartialEq<K>, F: Fn(&u8) -> K>(&mut self, key: F)
        requires
            forall|x: &u8| call_requires(key, (x,)),
        ensures
            dedup_by_key_leaves(key, old(self)@, final(self)@),
            1 <= final(self)@.len() <= old(self)@.len(),
            final(self)@.first() == old(self)@.first(),
            final(self).spec_capacity() == old(self).spec_capacity(),
    {
        proof {
            use_type_invariant(&*self);
        }
        let mut buf = self.take_buf();
        raw_dedup_by_key(&mut buf, key);
        proof {
            lemma_dedup_by_key_keeps_first(key, old(self)@, buf@);
        }
        self.buf = buf;
    }

    /// Cuts the container to `new_len` bytes, or fills it up to that length
    /// with what one call of `f` after the other returns, unless `new_len`
    /// is 0. Should the closure panic, the container holds the bytes that it
    /// held before the call.
    pub fn try_resize_with<F: FnMut() -> u8>(&mut self, new_len: usize, f: F) -> (r: Result<
        (),
        Size0Error,
    >)
        requires
            new_len <= old(self)@.len() || old(self).can_grow_to(new_len as nat),
            call_requires(f, ()),
        ensures
            new_len == 0 <==> r is Err,
            r is Err ==> *final(self) == *old(self),
            r is Ok ==> final(self)@.len() == new_len,
            r is Ok && new_len <= old(self)@.len() ==> final(self)@ == old(self)@.take(
                new_len as int,
            ),
            r is Ok && new_len > old(self)@.len() ==> final(self)@.take(old(self)@.len() as int)
                == old(self)@,
            r is Ok ==> forall|i: int|
                old(self)@.len() <= i < new_len ==> call_ensures(f, (), #[trigger] final(self)@[i]),
            final(self)@.len() >= 1,
    {
        proof {
            use_type_invariant(&*self);
        }
        if new_len > 0 {
            let mut buf = self.take_buf();
            raw_resize_with(&mut buf, new_len, f);
            self.buf = buf;
            Ok(())
        } else {
            Err(Size0Error)
        }
    }

    /// Takes the buffer out of the container for a call that may unwind, and
    /// leaves a copy of the bytes in its place.
    fn take_buf(&mut self) -> (buf: SmallBuf)
        ensures
            buf == old(self).inner(),
            final(self)@ == old(self)@,
    {
        proof {
            use_type_invariant(&*self);
        }
        let mut buf = raw_from_slice(raw_as_slice(&self.buf));
        core::mem::swap(&mut self.buf, &mut buf);
        buf
    }

    /// Removes the last byte and hands it out, unless it is the only one.
    pub fn try_pop(&mut self) -> (r: Result<u8, Size0Error>)
        ensures
            old(self)@.len() > 1 ==> r == Ok::<u8, Size0Error>(old(self)@.last()) && final(self)@
                == old(self)@.drop_last(),
            old(self)@.len() <= 1 ==> r is Err && *final(self) == *old(self),
            final(self)@.len() >= 1,
            final(self).spec_capacity() == old(self).spec_capacity(),
    {
        proof {
            use_type_invariant(&*self);
        }
        if raw_len(&self.buf) > 1 {
            Ok(raw_pop(&mut self.buf).unwrap())
        } else {
            Err(Size0Error)
        }
    }

    /// Cuts the container to its first `len` bytes, unless `len` is 0. A
    /// `len` that is not below the length changes nothing.
    pub fn try_truncate(&mut self, len: usize) -> (r: Result<(), Size0Error>)
        ensures
            len == 0 <==> r is Err,
            r is Ok ==> final(self)@ == truncated(old(self)@, len as int),
            r is Err ==> *final(self) == *old(self),
            final(self)@.len() >= 1,
            final(self).spec_capacity() == old(self).spec_capacity(),
    {
        proof {
            use_type_invariant(&*self);
        }
        if len > 0 {
            raw_truncate(&mut self.buf, len);
            Ok(())
        } else {
            Err(Size0Error)
        }
    }

    /// Removes the byte at `index` and hands it out, the last byte taking its
    /// place, unless the container holds one byte only.
    pub fn try_swap_remove(&mut self, index: usize) -> (r: Result<u8, Size0Error>)
        requires
            old(self)@.len() > 1 ==> index < old(self)@.len(),
        ensures
            old(self)@.len() > 1 ==> r == Ok::<u8, Size0Error>(old(self)@[index as int]) && final(self)@ == swap_removed(old(self)@, index as int),
            old(self)@.len() <= 1 ==> r is Err && *final(self) == *old(self),
            final(self)@.len() >= 1,
            final(self).spec_capacity() == old(self).spec_capacity(),
    {
        proof {
            use_type_invariant(&*self);
        }
        if raw_len(&self.buf) > 1 {
            Ok(raw_swap_remove(&mut self.buf, index))
        } else {
            Err(Size0Error)
        }
    }

    /// Removes the byte at `index` and hands it out, what stood behind it
    /// moving one place up, unless the container holds one byte only.
    pub fn try_remove(&mut self, index: usize) -> (r: Result<u8, Size0Error>)
        requires
            old(self)@.len() > 1 ==> index < old(self)@.len(),
        ensures
            old(self)@.len() > 1 ==> r == Ok::<u8, Size0Error>(old(self)@[index as int]) && final(self)@ == old(self)@.remove(index as int),
            old(self)@.len() <= 1 ==> r is Err && *final(self) == *old(self),
            final(self)@.len() >= 1,
            final(self).spec_capacity() == old(self).spec_capacity(),
    {
        proof {
            use_type_invariant(&*self);
        }
        if raw_len(&self.buf) > 1 {
            Ok(raw_remove(&mut self.buf, index))
        } else {
            Err(Size0Error)
        }
    }

    /// Cuts the container to `len` bytes, or fills it up to that length with
    /// `value`, unless `len` is 0.
    pub fn try_resize(&mut self, len: usize, value: u8) -> (r: Result<(), Size0Error>)
        requires
            len <= old(self)@.len() || old(self).can_grow_to(len as nat),
        ensures
            len == 0 <==> r is Err,
            r is Ok ==> final(self)@ == resized(old(self)@, len as int, value) && final(self)@.len()
                == len,
            r is Err ==> *final(self) == *old(self),
            final(self)@.len() >= 1,
    {
        proof {
            use_type_invariant(&*self);
        }
        if len == 0 {
            Err(Size0Error)
        } else {
            raw_resize(&mut self.buf, len, value);
            Ok(())
        }
    }

    /// The buffer that the container owned.
    pub fn into_smallvec(self) -> (r: SmallBuf)
        ensures
            r == self.inner(),
            r@.len() >= 1,
    {
        proof {
            use_type_invariant(&self);
        }
        self.buf
    }

    /// A `Vec` of the bytes held.
    pub fn into_vec(self) -> (r: Vec<u8>)
        ensures
            r@ == self@,
            r@.len() >= 1,
    {
        proof {
            use_type_invariant(&self);
        }
        raw_into_vec(self.buf)
    }

    /// A boxed slice of the bytes held.
    pub fn into_boxed_slice(self) -> (r: Box<[u8]>)
        ensures
            r@ == self@,
            r@.len() >= 1,
    {
        proof {
            use_type_invariant(&self);
        }
        raw_into_boxed_slice(self.buf)
    }

    /// The bytes as an array, where the container holds exactly
    /// [`INLINE_SIZE`] of them; else the container itself, handed back as it
    /// was. Bytes that lie on the heap are first moved into the inline
    /// storage.
    pub fn into_inner(self) -> (r: Result<[u8; 4], Self>)
        ensures
            r is Ok <==> self@.len() == INLINE_SIZE,
            r matches Ok(array) ==> array@ == self@,
            r matches Err(back) ==> back == self,
    {
        proof {
            use_type_invariant(&self);
        }
        let mut buf = self.buf;
        if raw_len(&buf) == INLINE_SIZE {
            raw_shrink_to_fit(&mut buf);
        }
        match raw_into_inner(buf) {
            Ok(array) => Ok(array),
            Err(buf) => Err(SmallVec1 { buf }),
        }
    }

    /// The first byte, and a buffer of the bytes behind it, which may be
    /// empty.
    pub fn split_off_first(self) -> (r: (u8, SmallBuf))
        ensures
            r.0 == self@.first(),
            r.1@ == self@.drop_first(),
    {
        proof {
            use_type_invariant(&self);
        }
        let mut buf = self.buf;
        let first = raw_remove(&mut buf, 0);
        (first, buf)
    }

    /// A buffer of the bytes before the last one, which may be empty, and the
    /// last byte.
    pub fn split_off_last(self) -> (r: (SmallBuf, u8))
        ensures
            r.0@ == self@.drop_last(),
            r.1 == self@.last(),
    {
        proof {
            use_type_invariant(&self);
        }
        let mut buf = self.buf;
        let n: usize = raw_len(&buf);
        let last = raw_remove(&mut buf, n - 1);
        (buf, last)
    }
}

} // verus!
