use radix_engine::decode::{write_le, Decode, Decoder};

#[test]
fn scalars_round_trip_byte_identically() {
    let bytes = vec![0x78u8, 0x56, 0x34, 0x12];
    let mut dec = Decoder::no_metadata(&bytes);
    let value = <u32 as Decode>::decode(&mut dec).unwrap();
    assert_eq!(value, 0x1234_5678);
    // Re-encoding the decoded value gives the original bytes back.
    assert_eq!(write_le(value as u128, 4), bytes);

    let wide = vec![0xFFu8; 16];
    let mut dec16 = Decoder::no_metadata(&wide);
    let big = <u128 as Decode>::decode(&mut dec16).unwrap();
    assert_eq!(big, u128::MAX);
    assert_eq!(write_le(big, 16), wide);

    let short = vec![0x01u8, 0x02];
    let mut dec2 = Decoder::no_metadata(&short);
    let small = <u16 as Decode>::decode(&mut dec2).unwrap();
    assert_eq!(small, 0x0201);
    assert_eq!(write_le(small as u128, 2), short);
}

#[test]
fn length_prefixes_round_trip() {
    let bytes = vec![0x2Au8, 0x01];
    let mut dec = Decoder::no_metadata(&bytes);
    let len = dec.read_len().unwrap();
    assert_eq!(len, 0x012A);
    assert_eq!(write_le(len as u128, 2), bytes);
}

#[test]
fn wider_tuples_decode_elementwise() {
    let bytes = vec![16u8, 4, 0, 7, 1, 7, 2, 7, 3, 7, 4];
    let mut dec = Decoder::with_metadata(&bytes);
    let tuple = <(u8, u8, u8, u8)>::decode(&mut dec).unwrap();
    assert_eq!(tuple, (1, 2, 3, 4));

    let bytes10 = vec![
        16u8, 10, 0, 7, 1, 7, 2, 7, 3, 7, 4, 7, 5, 7, 6, 7, 7, 7, 8, 7, 9, 7, 10,
    ];
    let mut dec10 = Decoder::with_metadata(&bytes10);
    let wide = <(u8, u8, u8, u8, u8, u8, u8, u8, u8, u8)>::decode(&mut dec10).unwrap();
    assert_eq!(wide, (1, 2, 3, 4, 5, 6, 7, 8, 9, 10));
}
