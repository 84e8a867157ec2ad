use std::convert::TryInto;

use smallvec1::Size0Error;
use smallvec1::SmallBuf;
use smallvec1::SmallVec1;

fn sv1(items: Vec<u8>) -> SmallVec1 {
    SmallVec1::try_from_vec(items).unwrap()
}

#[test]
fn new() {
    let a = SmallVec1::new(12);
    let b: SmallVec1 = sv1(vec![12]);
    assert_eq!(a, b);
}

#[test]
fn with_capacity() {
    let a = SmallVec1::with_capacity(32, 21);
    assert_eq!(a.is_empty(), false);
    assert_eq!(a.capacity(), 21);

    let a = SmallVec1::with_capacity(32, 1);
    assert_eq!(a.is_empty(), false);
    assert_eq!(a.capacity(), 4 /*yes 4!*/);
}

#[test]
fn try_from_vec() {
    let a = SmallVec1::try_from_vec(vec![1, 2, 3]);
    assert_eq!(a, Ok(sv1(vec![1, 2, 3])));

    let b = SmallVec1::try_from_vec(vec![]);
    assert_eq!(b, Err(Size0Error));
}

#[test]
fn try_from_smallvec() {
    let a = SmallVec1::try_from_smallvec(SmallBuf::from_slice(&[32, 2, 3]));
    assert_eq!(a, Ok(sv1(vec![32, 2, 3])));

    let a = SmallVec1::try_from_smallvec(SmallBuf::new());
    assert_eq!(a, Err(Size0Error));
}

#[test]
fn try_from_buf() {
    let a = SmallVec1::try_from_buf([1u8, 2, 3, 4]);
    assert_eq!(a, Ok(sv1(vec![1, 2, 3, 4])));
}

#[test]
fn try_from_buf_and_len() {
    let a = SmallVec1::try_from_buf_and_len([1u8, 2, 3, 4], 4);
    assert_eq!(a, Ok(sv1(vec![1, 2, 3, 4])));

    let a = SmallVec1::try_from_buf_and_len([1u8, 2, 3, 0], 3);
    assert_eq!(a, Ok(sv1(vec![1, 2, 3])));

    let a = SmallVec1::try_from_buf_and_len([1u8, 2, 3, 0], 0);
    assert_eq!(a, Err(Size0Error));
}

#[should_panic]
#[test]
fn try_from_buf_and_len_panic_if_len_gt_size() {
    let _ = SmallVec1::try_from_buf_and_len([0u8; 4], 5);
}

#[test]
fn try_from_slice() {
    let a = SmallVec1::try_from_slice(&[1u8, 2, 9]).unwrap();
    assert_eq!(a.as_slice(), &[1u8, 2, 9] as &[u8]);

    SmallVec1::try_from_slice(&[]).unwrap_err();
}

#[test]
fn try_from_elem() {
    let a = SmallVec1::try_from_elem(1u8, 3).unwrap();
    assert_eq!(a.as_slice(), &[1u8, 1, 1] as &[u8]);

    SmallVec1::try_from_elem(1u8, 0).unwrap_err();
}

#[test]
fn into_smallvec() {
    let a: SmallVec1 = sv1(vec![1, 3, 2]);
    let a = a.into_smallvec();
    let b: SmallBuf = SmallBuf::from_slice(&[1, 3, 2]);
    assert_eq!(a, b);
}

#[test]
fn into_vec() {
    let a: SmallVec1 = sv1(vec![1, 3, 2]);
    let a: Vec<u8> = a.into_vec();
    assert_eq!(a, vec![1, 3, 2])
}

#[test]
fn into_inner() {
    let a: SmallVec1 = sv1(vec![1, 3, 2, 4]);
    let a: [u8; 4] = a.into_inner().unwrap();
    assert_eq!(a, [1, 3, 2, 4])
}

#[test]
fn into_boxed_slice() {
    let a: SmallVec1 = sv1(vec![1, 3, 2, 4]);
    let a: Box<[u8]> = a.into_boxed_slice();
    assert_eq!(&*a, &[1u8, 3, 2, 4] as &[u8])
}

#[test]
fn smallvec_v1_misc() {
    let a: SmallVec1 = sv1(vec![1, 3, 2, 4]);
    let _: Vec<u8> = a.into();

    let a: SmallVec1 = sv1(vec![1, 3, 2, 4]);
    let _: SmallBuf = a.into();

    let a: SmallVec1 = sv1(vec![1, 3, 2, 4, 5]);
    let _: Box<[u8]> = a.into();

    let a: SmallVec1 = sv1(vec![1, 3, 2, 4]);
    let a: Result<[u8; 4], _> = a.try_into();
    a.unwrap();

    let a: SmallVec1 = sv1(vec![1, 3, 2]);
    let a: Result<[u8; 4], _> = a.try_into();
    a.unwrap_err();
}

#[test]
fn split_off_first() {
    let a: SmallVec1 = sv1(vec![32]);
    assert_eq!((32, SmallBuf::new()), a.split_off_first());

    let a: SmallVec1 = sv1(vec![32, 43]);
    let exp: SmallBuf = SmallBuf::from_slice(&[43]);
    assert_eq!((32, exp), a.split_off_first());
}

#[test]
fn split_off_last() {
    let a: SmallVec1 = sv1(vec![32]);
    assert_eq!((SmallBuf::new(), 32), a.split_off_last());

    let a: SmallVec1 = sv1(vec![32, 43]);
    let exp: SmallBuf = SmallBuf::from_slice(&[32]);
    assert_eq!((exp, 43), a.split_off_last());
}
