use rabbit_client::codec::{decode_offset, encode_offset};

#[test]
fn encode_offset_is_big_endian() {
    assert_eq!(encode_offset(0x0102030405060708), vec![1, 2, 3, 4, 5, 6, 7, 8]);
    assert_eq!(encode_offset(0), vec![0; 8]);
    assert_eq!(encode_offset(u64::MAX), vec![255; 8]);
    assert_eq!(encode_offset(258), 258u64.to_be_bytes().to_vec());
}

#[test]
fn decode_offset_reads_big_endian() {
    assert_eq!(decode_offset(&[1, 2, 3, 4, 5, 6, 7, 8]), Some(0x0102030405060708));
    assert_eq!(decode_offset(&[0, 0, 0, 0, 0, 0, 1, 2]), Some(258));
}

#[test]
fn decode_offset_refuses_other_lengths() {
    assert_eq!(decode_offset(&[]), None);
    assert_eq!(decode_offset(&[1, 2, 3]), None);
    assert_eq!(decode_offset(&[0; 9]), None);
}

#[test]
fn decode_of_encode_round_trips() {
    for x in [0u64, 1, 255, 256, 99_999, 1 << 40, u64::MAX - 1, u64::MAX] {
        assert_eq!(decode_offset(&encode_offset(x)), Some(x));
    }
}
