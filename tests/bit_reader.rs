use victron_ble::bit_reader::BitReader;
use victron_ble::Error;

#[test]
fn test_read() {
    let data = hex::decode("1a2b3c4d5e6f7890").unwrap();
    let mut reader = BitReader::new(&data[..]);

    assert!(!reader.read_bit().unwrap());
    assert!(reader.read_bit().unwrap());
    assert!(!reader.read_bit().unwrap());
    assert!(reader.read_bit().unwrap());
    assert!(reader.read_unsigned_int(6).unwrap() == 0x31);
    assert!(reader.read_signed_int(6).unwrap() == 0x0A);
    assert_eq!(reader.read_signed_int(4).unwrap(), -0x04);
    assert!(reader.read_unsigned_int(11).unwrap() == 0x4D3);
    assert!(!reader.read_bit().unwrap());
    assert!(reader.read_unsigned_int(32).unwrap() == 0x90786F5E);
}

#[test]
fn reading_past_the_end_fails_and_consumes_nothing() {
    let data = [0xFFu8, 0x01];
    let mut reader = BitReader::new(&data[..]);
    assert_eq!(reader.read_unsigned_int(17), Err(Error::DataTooShort));
    assert_eq!(reader.read_unsigned_int(9).unwrap(), 0x1FF);
    assert_eq!(reader.read_signed_int(8), Err(Error::DataTooShort));
    assert_eq!(reader.skip(8), Err(Error::DataTooShort));
    assert_eq!(reader.read_unsigned_int(7).unwrap(), 0);
    assert_eq!(reader.read_bit(), Err(Error::DataTooShort));
}

#[test]
fn empty_buffer_reads_nothing() {
    let data: [u8; 0] = [];
    let mut reader = BitReader::new(&data[..]);
    assert_eq!(reader.read_unsigned_int(0).unwrap(), 0);
    assert_eq!(reader.read_bit(), Err(Error::DataTooShort));
    assert_eq!(reader.skip(1), Err(Error::DataTooShort));
}

#[test]
fn signed_reads_cover_the_full_range() {
    let data = [0x80u8, 0x7F, 0x00, 0x00, 0x00, 0x00, 0x00, 0x80];
    let mut reader = BitReader::new(&data[..]);
    assert_eq!(reader.read_signed_int(8).unwrap(), -128);
    assert_eq!(reader.read_signed_int(8).unwrap(), 127);
    let mut whole = BitReader::new(&data[..]);
    assert_eq!(whole.read_signed_int(64).unwrap(), i64::MIN + 0x7F80);
    let mut unsigned = BitReader::new(&data[..]);
    assert_eq!(unsigned.read_unsigned_int(64).unwrap(), 0x8000_0000_0000_7F80);
}

#[test]
fn skip_moves_past_bits_and_copies_read_independently() {
    let data = [0x34u8, 0x12];
    let mut reader = BitReader::new(&data[..]);
    let mut copy = reader;
    reader.skip(8).unwrap();
    assert_eq!(reader.read_unsigned_int(8).unwrap(), 0x12);
    assert_eq!(copy.read_unsigned_int(8).unwrap(), 0x34);
}

#[test]
fn unsigned_field_all_ones_is_absent() {
    let data = [0xFFu8, 0x01, 0x05];
    let mut reader = BitReader::new(&data[..]);
    assert_eq!(reader.read_unsigned_field(9, 1, 0).unwrap(), None);
    let mut other = BitReader::new(&data[..]);
    assert_eq!(other.read_unsigned_field(8, 1, -40).unwrap(), None);
    assert_eq!(other.read_unsigned_field(8, 3, 2).unwrap(), Some(5));
    assert_eq!(other.read_unsigned_field(8, -1, 0).unwrap(), Some(-5));
}

#[test]
fn signed_field_largest_code_is_absent() {
    let data = [0xFFu8, 0x7F, 0xFF, 0xFF, 0x00, 0x80];
    let mut reader = BitReader::new(&data[..]);
    assert_eq!(reader.read_signed_field(16, 1).unwrap(), None);
    assert_eq!(reader.read_signed_field(16, 10).unwrap(), Some(-10));
    assert_eq!(reader.read_signed_field(16, 2).unwrap(), Some(-65536));
}
