use std::cmp::max;

use smallvec1::Size0Error;
use smallvec1::SmallBuf;
use smallvec1::SmallVec1;
use smallvec1::INLINE_SIZE;

/// A small generator of numbers, the same on every run.
struct Numbers(u64);

impl Numbers {
    fn next(&mut self) -> u64 {
        self.0 = self.0.wrapping_mul(6364136223846793005).wrapping_add(1442695040888963407);
        self.0 >> 33
    }

    fn below(&mut self, bound: usize) -> usize {
        (self.next() % bound as u64) as usize
    }

    fn byte(&mut self) -> u8 {
        (self.next() % 4) as u8
    }

    fn bytes(&mut self, most: usize) -> Vec<u8> {
        let len = self.below(most + 1);
        (0..len).map(|_| self.byte()).collect()
    }
}

fn dedup_of(items: &[u8]) -> Vec<u8> {
    let mut kept: Vec<u8> = Vec::new();
    for &byte in items {
        if kept.last() != Some(&byte) {
            kept.push(byte);
        }
    }
    kept
}

fn check(vec: &SmallVec1, model: &[u8]) {
    assert_eq!(vec.as_slice(), model);
    assert_eq!(vec.len(), model.len());
    assert!(vec.len() >= 1);
    assert!(vec.capacity() >= vec.len());
    assert!(vec.capacity() >= INLINE_SIZE);
    assert_eq!(vec.spilled(), vec.capacity() > INLINE_SIZE);
    assert_eq!(vec.inline_size(), INLINE_SIZE);
    assert_eq!(*vec.first(), model[0]);
    assert_eq!(*vec.last(), model[model.len() - 1]);
}

fn step(numbers: &mut Numbers, vec: &mut SmallVec1, model: &mut Vec<u8>) {
    let len = model.len();
    let capacity = vec.capacity();
    match numbers.below(27) {
        0 => {
            let byte = numbers.byte();
            vec.push(byte);
            model.push(byte);
            if len < capacity {
                assert_eq!(vec.capacity(), capacity);
            }
        }
        1 => {
            let index = numbers.below(len + 1);
            let byte = numbers.byte();
            vec.insert(index, byte);
            model.insert(index, byte);
        }
        2 => {
            let popped = vec.try_pop();
            if len > 1 {
                assert_eq!(popped, Ok(model.pop().unwrap()));
            } else {
                assert_eq!(popped, Err(Size0Error));
            }
            assert_eq!(vec.capacity(), capacity);
        }
        3 => {
            let index = numbers.below(len);
            let removed = vec.try_remove(index);
            if len > 1 {
                assert_eq!(removed, Ok(model.remove(index)));
            } else {
                assert_eq!(removed, Err(Size0Error));
            }
            assert_eq!(vec.capacity(), capacity);
        }
        4 => {
            let index = numbers.below(len);
            let removed = vec.try_swap_remove(index);
            if len > 1 {
                assert_eq!(removed, Ok(model.swap_remove(index)));
            } else {
                assert_eq!(removed, Err(Size0Error));
            }
            assert_eq!(vec.capacity(), capacity);
        }
        5 => {
            let to = numbers.below(len + 3);
            let cut = vec.try_truncate(to);
            if to == 0 {
                assert_eq!(cut, Err(Size0Error));
            } else {
                assert_eq!(cut, Ok(()));
                model.truncate(to);
            }
            assert_eq!(vec.capacity(), capacity);
        }
        6 => {
            let to = numbers.below(len + 4);
            let byte = numbers.byte();
            let resized = vec.try_resize(to, byte);
            if to == 0 {
                assert_eq!(resized, Err(Size0Error));
            } else {
                assert_eq!(resized, Ok(()));
                model.resize(to, byte);
            }
        }
        7 => {
            let to = numbers.below(len + 4);
            let resized = vec.try_resize_with(to, || 9);
            if to == 0 {
                assert_eq!(resized, Err(Size0Error));
            } else {
                assert_eq!(resized, Ok(()));
                model.resize(to, 9);
            }
        }
        8 => {
            let items = numbers.bytes(6);
            vec.extend(items.clone());
            model.extend(items);
        }
        9 => {
            let items = numbers.bytes(6);
            vec.extend_from_slice(&items);
            model.extend_from_slice(&items);
        }
        10 => {
            let index = numbers.below(len + 1);
            let items = numbers.bytes(6);
            vec.insert_many(index, items.clone());
            let tail = model.split_off(index);
            model.extend(items);
            model.extend(tail);
        }
        11 => {
            let index = numbers.below(len + 1);
            let items = numbers.bytes(6);
            vec.insert_from_slice(index, &items);
            let tail = model.split_off(index);
            model.extend(items);
            model.extend(tail);
        }
        12 => {
            let items = numbers.bytes(6);
            let mut other = SmallBuf::from_slice(&items);
            vec.append(&mut other);
            model.extend(items);
            assert!(other.is_empty());
        }
        13 => {
            vec.dedup();
            *model = dedup_of(model);
            assert_eq!(vec.capacity(), capacity);
        }
        14 => {
            vec.dedup_by(|next, kept| next == kept);
            *model = dedup_of(model);
            assert_eq!(vec.capacity(), capacity);
        }
        15 => {
            vec.dedup_by_key(|byte| *byte);
            *model = dedup_of(model);
            assert_eq!(vec.capacity(), capacity);
        }
        16 => {
            let additional = numbers.below(12);
            vec.reserve(additional);
            assert!(vec.capacity() >= len + additional);
            if capacity >= len + additional {
                assert_eq!(vec.capacity(), capacity);
            }
        }
        17 => {
            let additional = numbers.below(12);
            vec.reserve_exact(additional);
            assert_eq!(vec.capacity(), max(capacity, len + additional));
        }
        18 => {
            let additional = numbers.below(12);
            assert_eq!(vec.try_reserve(additional), Ok(()));
            assert!(vec.capacity() >= len + additional);
            if capacity >= len + additional {
                assert_eq!(vec.capacity(), capacity);
            }
        }
        19 => {
            let additional = numbers.below(12);
            assert_eq!(vec.try_reserve_exact(additional), Ok(()));
            assert_eq!(vec.capacity(), max(capacity, len + additional));
        }
        20 => {
            let new_cap = numbers.below(24);
            vec.grow(new_cap);
            if new_cap < len {
                assert_eq!(vec.capacity(), capacity);
            } else {
                assert_eq!(vec.capacity(), max(new_cap, INLINE_SIZE));
            }
        }
        21 => {
            let new_cap = numbers.below(24);
            assert_eq!(vec.try_grow(new_cap), Ok(()));
            if new_cap < len {
                assert_eq!(vec.capacity(), capacity);
            } else {
                assert_eq!(vec.capacity(), max(new_cap, INLINE_SIZE));
            }
        }
        22 => {
            vec.shrink_to_fit();
            assert_eq!(vec.capacity(), max(len, INLINE_SIZE));
        }
        23 => {
            let byte = numbers.byte();
            *vec.first_mut() = byte;
            model[0] = byte;
            let byte = numbers.byte();
            *vec.last_mut() = byte;
            model[len - 1] = byte;
            let index = numbers.below(len);
            vec.as_mut_slice()[index] = 3;
            model[index] = 3;
            assert_eq!(vec.capacity(), capacity);
        }
        24 => {
            let copy = vec.clone();
            assert!(copy == *vec);
            let other = numbers.bytes(6);
            if !other.is_empty() {
                let other_vec = SmallVec1::try_from_slice(&other).unwrap();
                assert_eq!(*vec == other_vec, *model == other);
                assert_eq!((*vec).partial_cmp(&other_vec), Some((*model).cmp(&other)));
                assert_eq!((*vec).cmp(&other_vec), (*model).cmp(&other));
            }
            if len <= INLINE_SIZE {
                assert_eq!(copy.capacity(), INLINE_SIZE);
            } else {
                assert!(copy.capacity() >= len);
            }
            let mut same = SmallVec1::with_capacity(model[0], capacity);
            same.extend_from_slice(&model[1..]);
            let room = same.capacity();
            match same.into_inner() {
                Ok(array) => {
                    assert_eq!(len, INLINE_SIZE);
                    assert_eq!(&array[..], &model[..]);
                }
                Err(back) => {
                    assert!(len != INLINE_SIZE);
                    assert_eq!(back.as_slice(), &model[..]);
                    assert_eq!(back.capacity(), room);
                }
            }
        }
        25 => {
            let (first, rest) = vec.clone().split_off_first();
            assert_eq!(first, model[0]);
            assert_eq!(rest.as_slice(), &model[1..]);
            let (rest, last) = vec.clone().split_off_last();
            assert_eq!(last, model[len - 1]);
            assert_eq!(rest.as_slice(), &model[..len - 1]);
        }
        _ => {
            assert_eq!(vec.clone().into_vec(), *model);
            assert_eq!(&*vec.clone().into_boxed_slice(), &model[..]);
            assert_eq!(vec.clone().into_smallvec().into_vec(), *model);
            let owned: Vec<u8> = vec.clone().into_iter().collect();
            assert_eq!(owned, *model);
        }
    }
}

#[test]
fn every_operation_agrees_with_a_plain_vector() {
    let mut numbers = Numbers(2024);
    for round in 0..200 {
        let first = numbers.byte();
        let mut vec = if round % 2 == 0 {
            SmallVec1::new(first)
        } else {
            SmallVec1::with_capacity(first, numbers.below(12))
        };
        let mut model = vec![first];
        check(&vec, &model);
        for _ in 0..200 {
            step(&mut numbers, &mut vec, &mut model);
            check(&vec, &model);
        }
    }
}
