use std::collections::BTreeMap;

use radix_engine::decode::{Decode, Decoder};

#[test]
pub fn test_decoding() {
    let bytes = vec![
        0, // unit
        1, 1, // bool
        2, 1, // i8
        3, 1, 0, // i16
        4, 1, 0, 0, 0, // i32
        5, 1, 0, 0, 0, 0, 0, 0, 0, // i64
        6, 1, 0, 0, 0, 0, 0, 0, 0, 0, 0, 0, 0, 0, 0, 0, 0, // i128
        7, 1, // u8
        8, 1, 0, // u16
        9, 1, 0, 0, 0, // u32
        10, 1, 0, 0, 0, 0, 0, 0, 0, // u64
        11, 1, 0, 0, 0, 0, 0, 0, 0, 0, 0, 0, 0, 0, 0, 0, 0, // u128
        12, 5, 0, 104, 101, 108, 108, 111, // string
        13, 1, 9, 1, 0, 0, 0, // option
        14, 3, 0, 9, 1, 0, 0, 0, 2, 0, 0, 0, 3, 0, 0, 0, // array
        15, 3, 0, 9, 1, 0, 0, 0, 2, 0, 0, 0, 3, 0, 0, 0, // vector
        16, 2, 0, 9, 1, 0, 0, 0, 9, 2, 0, 0, 0, // tuple
        22, 2, 0, 7, 7, 1, 2, 3, 4, // b tree map
        23, 7, 1, // box
    ];
    let mut dec = Decoder::with_metadata(&bytes);
    <()>::decode(&mut dec).unwrap();
    assert_eq!(true, <bool>::decode(&mut dec).unwrap());
    assert_eq!(1, <i8>::decode(&mut dec).unwrap());
    assert_eq!(1, <i16>::decode(&mut dec).unwrap());
    assert_eq!(1, <i32>::decode(&mut dec).unwrap());
    assert_eq!(1, <i64>::decode(&mut dec).unwrap());
    assert_eq!(1, <i128>::decode(&mut dec).unwrap());
    assert_eq!(1, <u8>::decode(&mut dec).unwrap());
    assert_eq!(1, <u16>::decode(&mut dec).unwrap());
    assert_eq!(1, <u32>::decode(&mut dec).unwrap());
    assert_eq!(1, <u64>::decode(&mut dec).unwrap());
    assert_eq!(1, <u128>::decode(&mut dec).unwrap());
    assert_eq!("hello", <String>::decode(&mut dec).unwrap());
    assert_eq!(Some(1u32), <Option<u32>>::decode(&mut dec).unwrap());
    assert_eq!([1u32, 2u32, 3u32], <[u32; 3]>::decode(&mut dec).unwrap());
    assert_eq!(
        vec![1u32, 2u32, 3u32],
        <Vec<u32>>::decode(&mut dec).unwrap()
    );
    assert_eq!((1u32, 2u32), <(u32, u32)>::decode(&mut dec).unwrap());
    let mut map = BTreeMap::<u8, u8>::new();
    map.insert(1, 2);
    map.insert(3, 4);
    assert_eq!(map, <BTreeMap<u8, u8>>::decode(&mut dec).unwrap());
    assert_eq!(Box::new(1u8), <Box<u8>>::decode(&mut dec).unwrap());
}

#[test]
pub fn test_decoding_no_metadata() {
    let bytes = vec![
        // unit
        1, // bool
        1, // i8
        1, 0, // i16
        1, 0, 0, 0, // i32
        1, 0, 0, 0, 0, 0, 0, 0, // i64
        1, 0, 0, 0, 0, 0, 0, 0, 0, 0, 0, 0, 0, 0, 0, 0, // i128
        1, // u8
        1, 0, // u16
        1, 0, 0, 0, // u32
        1, 0, 0, 0, 0, 0, 0, 0, // u64
        1, 0, 0, 0, 0, 0, 0, 0, 0, 0, 0, 0, 0, 0, 0, 0, // u128
        5, 0, 104, 101, 108, 108, 111, // string
        1, 1, 0, 0, 0, // option
        3, 0, 1, 0, 0, 0, 2, 0, 0, 0, 3, 0, 0, 0, // array
        3, 0, 1, 0, 0, 0, 2, 0, 0, 0, 3, 0, 0, 0, // vector
        2, 0, 1, 0, 0, 0, 2, 0, 0, 0, // tuple
        2, 0, 1, 2, 3, 4, // b tree map
        1, // option
    ];
    let mut dec = Decoder::no_metadata(&bytes);
    <()>::decode(&mut dec).unwrap();
    assert_eq!(true, <bool>::decode(&mut dec).unwrap());
    assert_eq!(1, <i8>::decode(&mut dec).unwrap());
    assert_eq!(1, <i16>::decode(&mut dec).unwrap());
    assert_eq!(1, <i32>::decode(&mut dec).unwrap());
    assert_eq!(1, <i64>::decode(&mut dec).unwrap());
    assert_eq!(1, <i128>::decode(&mut dec).unwrap());
    assert_eq!(1, <u8>::decode(&mut dec).unwrap());
    assert_eq!(1, <u16>::decode(&mut dec).unwrap());
    assert_eq!(1, <u32>::decode(&mut dec).unwrap());
    assert_eq!(1, <u64>::decode(&mut dec).unwrap());
    assert_eq!(1, <u128>::decode(&mut dec).unwrap());
    assert_eq!("hello", <String>::decode(&mut dec).unwrap());
    assert_eq!(Some(1u32), <Option<u32>>::decode(&mut dec).unwrap());
    assert_eq!([1u32, 2u32, 3u32], <[u32; 3]>::decode(&mut dec).unwrap());
    assert_eq!(
        vec![1u32, 2u32, 3u32],
        <Vec<u32>>::decode(&mut dec).unwrap()
    );
    assert_eq!((1u32, 2u32), <(u32, u32)>::decode(&mut dec).unwrap());
    let mut map = BTreeMap::<u8, u8>::new();
    map.insert(1, 2);
    map.insert(3, 4);
    assert_eq!(map, <BTreeMap<u8, u8>>::decode(&mut dec).unwrap());
    assert_eq!(Box::new(1u8), <Box<u8>>::decode(&mut dec).unwrap());
}
