//! Sequences of bytes as the contracts of this crate speak of them.

use vstd::prelude::*;

verus! {

/// `s` without each element that equals the one kept just before it.
pub open spec fn dedup(s: Seq<u8>) -> Seq<u8>
    decreases s.len(),
{
    if s.len() <= 1 {
        s
    } else {
        let kept = dedup(s.drop_last());
        if kept.last() == s.last() {
            kept
        } else {
            kept.push(s.last())
        }
    }
}

/// Whether `kept` can be what is left of `s` once each element has gone for
/// which `same_bucket`, shown that element and the one kept just before it,
/// answered `true`. The first element is shown to nobody and stays.
pub open spec fn dedup_by_leaves<F: Fn(&u8, &u8) -> bool>(
    same_bucket: F,
    s: Seq<u8>,
    kept: Seq<u8>,
) -> bool
    decreases s.len(),
{
    if s.len() <= 1 {
        kept == s
    } else {
        exists|before: Seq<u8>|
            {
                &&& dedup_by_leaves(same_bucket, s.drop_last(), before)
                &&& #[trigger] dedup_by_step(same_bucket, before, s.last(), kept)
            }
    }
}

/// Whether `kept` can be what `before` becomes when `next` comes behind it:
/// `before` itself where `same_bucket`, shown `next` and the last of
/// `before`, answers `true`, and `before` with `next` behind it where the
/// answer is `false`.
pub open spec fn dedup_by_step<F: Fn(&u8, &u8) -> bool>(
    same_bucket: F,
    before: Seq<u8>,
    next: u8,
    kept: Seq<u8>,
) -> bool {
    ||| call_ensures(same_bucket, (&next, &before.last()), true) && kept == before
    ||| call_ensures(same_bucket, (&next, &before.last()), false) && kept == before.push(next)
}

/// Whether `kept` can be what is left of `s` once each element has gone
/// whose key, as `key` gives it, `==` found equal to the key of the one
/// kept just before it. The first element stays.
pub open spec fn dedup_by_key_leaves<K: PartialEq<K>, F: Fn(&u8) -> K>(
    key: F,
    s: Seq<u8>,
    kept: Seq<u8>,
) -> bool
    decreases s.len(),
{
    if s.len() <= 1 {
        kept == s
    } else {
        exists|before: Seq<u8>|
            {
                &&& dedup_by_key_leaves(key, s.drop_last(), before)
                &&& #[trigger] dedup_by_key_step(key, before, s.last(), kept)
            }
    }
}

/// Whether `kept` can be what `before` becomes when `next` comes behind it:
/// `before` itself where `==` finds the key of `next` equal to the key of
/// the last of `before`, and `before` with `next` behind it where it does
/// not.
pub open spec fn dedup_by_key_step<K: PartialEq<K>, F: Fn(&u8) -> K>(
    key: F,
    before: Seq<u8>,
    next: u8,
    kept: Seq<u8>,
) -> bool {
    exists|this: K, last: K, same: bool|
        {
            &&& #[trigger] call_ensures(<K as PartialEq<K>>::eq, (&this, &last), same)
            &&& call_ensures(key, (&next,), this)
            &&& call_ensures(key, (&before.last(),), last)
            &&& kept == if same {
                before
            } else {
                before.push(next)
            }
        }
}

/// The first `len` elements of `s`, or all of `s` where it has no more.
pub open spec fn truncated(s: Seq<u8>, len: int) -> Seq<u8> {
    if 0 <= len < s.len() {
        s.take(len)
    } else {
        s
    }
}

/// `s` cut or filled up with `value` to the length `len`.
pub open spec fn resized(s: Seq<u8>, len: int, value: u8) -> Seq<u8> {
    if len <= s.len() {
        truncated(s, len)
    } else {
        s + Seq::new((len - s.len()) as nat, |i: int| value)
    }
}

/// `s` with `items` put in before its element at `index`.
pub open spec fn spliced(s: Seq<u8>, index: int, items: Seq<u8>) -> Seq<u8> {
    s.take(index) + items + s.skip(index)
}

/// `s` without its element at `index`, the last element standing in its place.
pub open spec fn swap_removed(s: Seq<u8>, index: int) -> Seq<u8> {
    s.update(index, s.last()).drop_last()
}

/// Removing repeats keeps the first element, and takes nothing from a
/// sequence but what it had.
pub proof fn lemma_dedup_keeps_first(s: Seq<u8>)
    ensures
        dedup(s).len() <= s.len(),
        s.len() >= 1 ==> dedup(s).len() >= 1 && dedup(s)[0] == s[0],
    decreases s.len(),
{
    if s.len() > 1 {
        lemma_dedup_keeps_first(s.drop_last());
    }
}

/// Whatever the closure answers, removing by it keeps the first element,
/// and takes nothing from a sequence but what it had.
pub proof fn lemma_dedup_by_keeps_first<F: Fn(&u8, &u8) -> bool>(
    same_bucket: F,
    s: Seq<u8>,
    kept: Seq<u8>,
)
    requires
        dedup_by_leaves(same_bucket, s, kept),
    ensures
        kept.len() <= s.len(),
        s.len() >= 1 ==> kept.len() >= 1 && kept[0] == s[0],
    decreases s.len(),
{
    if s.len() > 1 {
        let before = choose|before: Seq<u8>|
            {
                &&& dedup_by_leaves(same_bucket, s.drop_last(), before)
                &&& #[trigger] dedup_by_step(same_bucket, before, s.last(), kept)
            };
        lemma_dedup_by_keeps_first(same_bucket, s.drop_last(), before);
    }
}

/// Whatever the keys are, removing by them keeps the first element, and
/// takes nothing from a sequence but what it had.
pub proof fn lemma_dedup_by_key_keeps_first<K: PartialEq<K>, F: Fn(&u8) -> K>(
    key: F,
    s: Seq<u8>,
    kept: Seq<u8>,
)
    requires
        dedup_by_key_leaves(key, s, kept),
    ensures
        kept.len() <= s.len(),
        s.len() >= 1 ==> kept.len() >= 1 && kept[0] == s[0],
    decreases s.len(),
{
    if s.len() > 1 {
        let before = choose|before: Seq<u8>|
            {
                &&& dedup_by_key_leaves(key, s.drop_last(), before)
                &&& #[trigger] dedup_by_key_step(key, before, s.last(), kept)
            };
        lemma_dedup_by_key_keeps_first(key, s.drop_last(), before);
    }
}

} // verus!
