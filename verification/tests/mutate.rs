use smallvec1::Size0Error;
use smallvec1::SmallBuf;
use smallvec1::SmallVec1;

fn sv1(items: Vec<u8>) -> SmallVec1 {
    SmallVec1::try_from_vec(items).unwrap()
}

#[test]
fn last_first_methods_are_shadowed() {
    let mut a: SmallVec1 = sv1(vec![1, 3, 2, 4]);
    assert_eq!(a.last(), &4);
    assert_eq!(a.last_mut(), &mut 4);
    assert_eq!(a.first(), &1);
    assert_eq!(a.first_mut(), &mut 1);
}

#[test]
fn try_truncate() {
    let mut a: SmallVec1 = sv1(vec![1, 3, 2, 4]);
    assert_eq!(a.try_truncate(0), Err(Size0Error));
    assert_eq!(a.try_truncate(1), Ok(()));
    assert_eq!(a.len(), 1);
}

#[test]
fn reserve() {
    let mut a: SmallVec1 = sv1(vec![1, 3, 2, 4]);
    a.reserve(4);
    assert!(a.capacity() >= 8);
}

#[test]
fn try_reserve() {
    let mut a: SmallVec1 = sv1(vec![1, 3, 2, 4]);
    a.try_reserve(4).unwrap();
    assert!(a.capacity() >= 8);
}

#[test]
fn reserve_exact() {
    let mut a: SmallVec1 = sv1(vec![1, 3, 2, 4]);
    a.reserve_exact(4);
    assert_eq!(a.capacity(), 8);
}

#[test]
fn try_reserve_exact() {
    let mut a: SmallVec1 = sv1(vec![1, 3, 2, 4]);
    a.try_reserve_exact(4).unwrap();
    assert_eq!(a.capacity(), 8);
}

#[test]
fn shrink_to_fit() {
    let mut a: SmallVec1 = sv1(vec![1, 3, 2, 4, 5]);
    a.shrink_to_fit();
    assert_eq!(a.capacity(), 5);
}

#[test]
fn push() {
    let mut a: SmallVec1 = sv1(vec![1, 3]);
    a.push(12);
    let b: SmallVec1 = sv1(vec![1, 3, 12]);
    assert_eq!(a, b);
}

#[test]
fn insert() {
    let mut a: SmallVec1 = sv1(vec![1, 3]);
    a.insert(0, 12);
    let b: SmallVec1 = sv1(vec![12, 1, 3]);
    assert_eq!(a, b);
}

#[test]
fn len() {
    let a: SmallVec1 = sv1(vec![1, 3]);
    assert_eq!(a.len(), 2);
}

#[test]
fn capacity() {
    let a: SmallVec1 = sv1(vec![1, 3]);
    assert_eq!(a.capacity(), 4);
}

#[test]
fn as_slice() {
    let a: SmallVec1 = sv1(vec![1, 3]);
    assert_eq!(a.as_slice(), &[1u8, 3] as &[u8]);
}

#[test]
fn as_mut_slice() {
    let mut a: SmallVec1 = sv1(vec![1, 3]);
    a.as_mut_slice()[0] = 10;
    let b: SmallVec1 = sv1(vec![10, 3]);
    assert_eq!(a, b);
}

#[test]
fn inline_size() {
    let a: SmallVec1 = sv1(vec![1, 3]);
    assert_eq!(a.inline_size(), 4);
}

#[test]
fn spilled() {
    let a: SmallVec1 = sv1(vec![1, 3]);
    assert_eq!(a.spilled(), false);

    let a: SmallVec1 = sv1(vec![1, 3, 6, 9, 2]);
    assert_eq!(a.spilled(), true);
}

#[test]
fn try_pop() {
    let mut a: SmallVec1 = sv1(vec![1, 3]);
    assert_eq!(a.try_pop(), Ok(3));
    assert_eq!(a.try_pop(), Err(Size0Error));
}

#[test]
fn append() {
    let mut a: SmallVec1 = sv1(vec![1, 3]);
    let mut b: SmallBuf = SmallBuf::from_slice(&[53, 12]);
    a.append(&mut b);
    let c: SmallVec1 = sv1(vec![1, 3, 53, 12]);
    assert_eq!(a, c);
}

#[test]
fn grow() {
    let mut a: SmallVec1 = sv1(vec![1, 3]);
    a.grow(32);
    assert_eq!(a.capacity(), 32);
}

#[test]
fn try_grow() {
    let mut a: SmallVec1 = sv1(vec![1, 3]);
    a.try_grow(32).unwrap();
    assert_eq!(a.capacity(), 32);
}

#[test]
fn try_swap_remove() {
    let mut a: SmallVec1 = sv1(vec![1, 3]);
    assert_eq!(a.try_swap_remove(0), Ok(1));
    assert_eq!(a.try_swap_remove(0), Err(Size0Error));
}

#[test]
fn try_remove() {
    let mut a: SmallVec1 = sv1(vec![1, 3]);
    assert_eq!(a.try_remove(0), Ok(1));
    assert_eq!(a.try_remove(0), Err(Size0Error));
}

#[test]
fn insert_many() {
    let mut a: SmallVec1 = sv1(vec![1, 3]);
    a.insert_many(1, vec![2, 4, 8]);
    let b: SmallVec1 = sv1(vec![1, 2, 4, 8, 3]);
    assert_eq!(a, b);
}

#[test]
fn dedup() {
    let mut a: SmallVec1 = sv1(vec![1, 1]);
    a.dedup();
    assert_eq!(a.as_slice(), &[1u8] as &[u8]);
}

#[test]
fn dedup_by() {
    let mut a: SmallVec1 = sv1(vec![1, 1, 4, 4]);
    a.dedup_by(|a, b| a == b);
    assert_eq!(a.as_slice(), &[1u8, 4] as &[u8]);
}

#[test]
fn dedup_by_key() {
    let mut a: SmallVec1 = sv1(vec![12, 15, 44, 54]);
    a.dedup_by_key(|a| *a / 10);
    assert_eq!(a.as_slice(), &[12u8, 44, 54] as &[u8]);
}

#[test]
fn try_resize_with() {
    let mut a: SmallVec1 = sv1(vec![1, 2]);
    assert_eq!(a.try_resize_with(0, Default::default), Err(Size0Error));
    assert_eq!(a.try_resize_with(4, Default::default), Ok(()));
}

#[test]
fn insert_from_slice() {
    let mut a: SmallVec1 = sv1(vec![1, 2]);
    a.insert_from_slice(1, &[3, 9]);
    assert_eq!(a.as_slice(), &[1u8, 3, 9, 2] as &[u8]);
}

#[test]
fn extend_from_slice() {
    let mut a: SmallVec1 = sv1(vec![1, 2]);
    a.extend_from_slice(&[3, 9]);
    assert_eq!(a.as_slice(), &[1u8, 2, 3, 9] as &[u8]);
}

#[test]
fn try_resize() {
    let mut a: SmallVec1 = sv1(vec![1, 2, 3]);
    assert_eq!(a.try_resize(0, 12), Err(Size0Error));
    assert_eq!(a.try_resize(2, 12), Ok(()));
    assert_eq!(a.try_resize(4, 12), Ok(()));
    assert_eq!(a.as_slice(), &[1u8, 2, 12, 12] as &[u8]);
}

#[test]
fn as_ptr() {
    let a: SmallVec1 = sv1(vec![1, 2]);
    let pa = a.as_ptr();
    let pb = a.as_slice().as_ptr();
    assert_eq!(pa as usize, pb as usize);
}

#[test]
fn as_mut_ptr() {
    let mut a: SmallVec1 = sv1(vec![1, 2]);
    let pa = a.as_mut_ptr();
    let pb = a.as_mut_slice().as_mut_ptr();
    assert_eq!(pa as usize, pb as usize);
}
