use sdspi::crc::crc7;
use sdspi::frame::{build_frame, wire_address};

// The reset command frame: first five bytes of CMD0 with argument 0.
// The SD specification fixes the complete CRC byte at 0x95 = (0x4A << 1) | 1.
#[test]
fn crc7_reset_frame_vector() {
    assert_eq!(crc7(&[0x40, 0x00, 0x00, 0x00, 0x00]), 0x4A);
}

// The interface-check frame: first five bytes of CMD8 with argument 0x1AA.
// The SD specification fixes the complete CRC byte at 0x87 = (0x43 << 1) | 1.
#[test]
fn crc7_interface_check_frame_vector() {
    assert_eq!(crc7(&[0x48, 0x00, 0x00, 0x01, 0xAA]), 0x43);
}

#[test]
fn crc7_empty_input() {
    assert_eq!(crc7(&[]), 0);
}

#[test]
fn crc7_deterministic() {
    let bytes = [0x69, 0x40, 0x00, 0x00, 0x00, 0x00, 0x95, 0xFF];
    assert_eq!(crc7(&bytes), crc7(&bytes));
}

#[test]
fn crc7_top_bit_clear() {
    for b in 0..=255u8 {
        assert_eq!(crc7(&[b, b, b]) & 0x80, 0);
    }
}

#[test]
fn frame_for_reset_command() {
    let f = build_frame(0, 0);
    assert_eq!(f, vec![0x40, 0x00, 0x00, 0x00, 0x00, 0x95]);
}

#[test]
fn frame_for_interface_check() {
    let f = build_frame(8, 0x1AA);
    assert_eq!(f, vec![0x48, 0x00, 0x00, 0x01, 0xAA, 0x87]);
}

#[test]
fn frame_argument_big_endian() {
    let f = build_frame(17, 0xDEADBEEF);
    assert_eq!(&f[1..5], &[0xDE, 0xAD, 0xBE, 0xEF]);
    assert_eq!(f[0], 0x40 | 17);
    assert_eq!(f[5] & 0x01, 0x01);
}

#[test]
fn wire_address_high_capacity_is_block_index() {
    assert_eq!(wire_address(0, true), 0);
    assert_eq!(wire_address(7, true), 7);
    assert_eq!(wire_address(u32::MAX, true), u32::MAX);
}

#[test]
fn wire_address_standard_capacity_is_byte_offset() {
    assert_eq!(wire_address(0, false), 0);
    assert_eq!(wire_address(5, false), 2560);
    // The largest index whose byte address still fits in 32 bits.
    assert_eq!(wire_address(0x7F_FFFF, false), 0xFFFF_FE00);
}
