use guest_bridge::layout::{bytes_to_units, read_le_u32, units_to_bytes, HEADER_BYTES};

#[test]
fn header_takes_four_bytes() {
    assert_eq!(HEADER_BYTES, 4);
}

#[test]
fn units_become_little_endian_bytes() {
    assert_eq!(units_to_bytes(&vec![0x0068, 0xD83D]), vec![0x68, 0x00, 0x3D, 0xD8]);
    assert_eq!(units_to_bytes(&vec![]), Vec::<u8>::new());
    assert_eq!(units_to_bytes(&vec![0xFFFF, 0x0100]), vec![0xFF, 0xFF, 0x00, 0x01]);
}

#[test]
fn little_endian_bytes_become_units() {
    assert_eq!(bytes_to_units(&vec![0x68, 0x00, 0x3D, 0xD8]), vec![0x0068, 0xD83D]);
    assert_eq!(bytes_to_units(&vec![]), Vec::<u16>::new());
}

#[test]
fn odd_last_byte_is_left_out() {
    assert_eq!(bytes_to_units(&vec![0x01, 0x02, 0x03]), vec![0x0201]);
    assert_eq!(bytes_to_units(&vec![0x7F]), Vec::<u16>::new());
}

#[test]
fn units_come_back_from_their_bytes() {
    let units: Vec<u16> = vec![0, 1, 0x00FF, 0x0100, 0xD800, 0xDFFF, 0xFFFF];
    assert_eq!(bytes_to_units(&units_to_bytes(&units)), units);
}

#[test]
fn four_bytes_read_as_little_endian_number() {
    assert_eq!(read_le_u32(&vec![0x0A, 0, 0, 0]), 10);
    assert_eq!(read_le_u32(&vec![0x78, 0x56, 0x34, 0x12]), 0x1234_5678);
    assert_eq!(read_le_u32(&vec![0xFF, 0xFF, 0xFF, 0xFF]), u32::MAX);
    // Only the first four bytes count.
    assert_eq!(read_le_u32(&vec![1, 0, 0, 0, 9, 9]), 1);
    assert_eq!(read_le_u32(&vec![0x78, 0x56, 0x34, 0x12]), u32::from_le_bytes([0x78, 0x56, 0x34, 0x12]));
}
