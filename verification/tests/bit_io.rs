use flv_remux::flv::decoder::Decoder;
use flv_remux::io::bit::{BitIO, U16BitIO, U32BitIO, UIntParserEndian};

#[test]
fn bitio_reads_low_bit_and_msb_first_bits() {
    let byte = 0b10101011;
    let bit_io = BitIO::new(byte);
    assert_eq!(bit_io.read(), true);
    assert_eq!(bit_io.read_bit(0), true);
    assert_eq!(bit_io.read_bit(1), false);
    assert_eq!(bit_io.read_bit(7), true);
    assert_eq!(bit_io.read_range(0, 3), 0b1010);
    assert_eq!(bit_io.read_range(4, 7), 0b1011);
    assert_eq!(bit_io.read_range(3, 5), 0b010);
}

#[test]
fn bitio_read_bit_safe_reads_msb_first_and_rejects_out_of_range() {
    let bit_io = BitIO::new(0x80);
    assert!(matches!(bit_io.read_bit_safe(0), Ok(true)));
    assert!(matches!(bit_io.read_bit_safe(7), Ok(false)));
    assert_eq!(bit_io.read_bit_safe(0).unwrap(), bit_io.read_bit(0));
    assert!(bit_io.read_bit_safe(8).is_err());
}

#[test]
fn u16_bit_io_reads_positions_and_ranges() {
    let mut u16io = U16BitIO::new(0x1234, UIntParserEndian::BigEndian);
    assert_eq!(u16io.read_at(0), false);
    assert_eq!(u16io.read_at(3), true);
    assert_eq!(u16io.read_at(7), false);
    assert_eq!(u16io.read_at(10), true);
    assert_eq!(u16io.read_at(15), false);

    assert_eq!(u16io.read_range(0, 3), 1);
    assert_eq!(u16io.read_range(4, 7), 2);
    assert_eq!(u16io.read_range(6, 11), 0x23);
    assert_eq!(u16io.read_range(7, 11), 0x03);
    assert_eq!(u16io.read_range(7, 15), 0x34);
}

#[test]
fn u16_bit_io_writes_positions_and_ranges() {
    let mut u16io = U16BitIO::new(0x1234, UIntParserEndian::BigEndian);
    u16io.write_at(0, true);
    u16io.write_at(3, false);
    assert_eq!(u16io.read_range(0, 3), 0b1000);

    u16io.write_range(4, 7, 0b1010);
    assert_eq!(u16io.read_range(4, 7), 0b1010);

    u16io.write_range(10, 15, 0b101010);
    assert_eq!(u16io.read_range(10, 15), 0b101010);

    let mut u16io = U16BitIO::new(0b1111000000000000, UIntParserEndian::BigEndian);
    u16io.write_range(0, 4, 0b11011);
    assert_eq!(u16io.read_range(0, 4), 0b11011);
    u16io.write_range(6, 11, 0b101001);
    assert_eq!(u16io.read_range(6, 11), 0b101001);
    assert_eq!(u16io.read_range(12, 15), 0);
}

#[test]
fn u16_bit_io_little_endian_swaps_bytes() {
    let mut le = U16BitIO::new(0x1234, UIntParserEndian::LittleEndian);
    assert_eq!(le.get_data(), [0x34, 0x12]);
    // Positions count from the left of the in-memory bytes: the low byte
    // comes first.
    assert_eq!(le.read_range(0, 7), 0x34);
    assert_eq!(le.read_range(8, 15), 0x12);
}

#[test]
fn u16_write_then_read_range_returns_masked_value() {
    // The written value comes back truncated to the width of the range.
    let mut io = U16BitIO::new(0xffff, UIntParserEndian::BigEndian);
    io.write_range(5, 7, 0b11111010);
    assert_eq!(io.read_range(5, 7), 0b010);
    let mut io2 = U16BitIO::new(0, UIntParserEndian::BigEndian);
    io2.write_range(0, 15, 0xbeef);
    assert_eq!(io2.read_range(0, 15), 0xbeef);
}

#[test]
fn u16_reading_all_bits_reassembles_the_word() {
    let x: u16 = 0xa5c3;
    let mut io = U16BitIO::new(x, UIntParserEndian::BigEndian);
    let mut rebuilt: u16 = 0;
    for i in 0..16 {
        if io.read_at(i) {
            rebuilt |= 1 << (15 - i);
        }
    }
    assert_eq!(rebuilt, x);
}

#[test]
fn u32_bit_io_reads_and_writes() {
    let mut io = U32BitIO::new(0x12345678, UIntParserEndian::BigEndian);
    assert_eq!(io.get_data(), [0x12, 0x34, 0x56, 0x78]);
    assert_eq!(io.read_range(0, 7), 0x12);
    assert_eq!(io.read_range(8, 31), 0x345678);
    assert_eq!(io.read_at(3), true);
    io.write_range(0, 31, 0xdeadbeef);
    assert_eq!(io.read_range(0, 31), 0xdeadbeef);
    io.write_at(0, false);
    assert_eq!(io.read_range(0, 7), 0x5e);

    let mut le = U32BitIO::new(0x12345678, UIntParserEndian::LittleEndian);
    assert_eq!(le.get_data(), [0x78, 0x56, 0x34, 0x12]);
}

#[test]
fn concat_ts_assembles_extended_timestamps() {
    assert_eq!(Decoder::concat_ts(0x123456, 0xab), 0xab123456);
    assert_eq!(Decoder::concat_ts(0x00123456, 0xab), 0xab123456);
    assert_eq!(Decoder::concat_ts(0x00000000, 0xab), 0xab000000);
    assert_eq!(Decoder::concat_ts(0x123456, 0x00), 0x00123456);
    assert_eq!(Decoder::concat_ts(0x00ffffff, 0xff), 0xffffffff);
    assert_eq!(Decoder::concat_ts(0x00000000, 0x00), 0x00000000);
}
