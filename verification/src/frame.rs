//! SD command framing and block-address translation.
//!
//! A command frame is 6 bytes: a start byte holding two fixed high bits
//! (`01`) and the 6-bit command index, a 4-byte big-endian argument, and a
//! final byte holding the 7-bit CRC of the first five bytes and a fixed low
//! stop bit.

use vstd::prelude::*;
use crate::crc::{crc7, spec_crc7, lemma_crc7_is_7_bits};

verus! {

/// The command index carried in the start byte of a frame.
pub open spec fn frame_cmd(f: Seq<u8>) -> u8 {
    f[0] & 0x3F
}

/// The 32-bit big-endian argument carried in bytes 1 to 4 of a frame.
pub open spec fn frame_arg(f: Seq<u8>) -> u32 {
    ((f[1] as u32) << 24) | ((f[2] as u32) << 16) | ((f[3] as u32) << 8) | (f[4] as u32)
}

/// A well-formed 6-byte command frame: correct fixed bits in the start byte,
/// and a final byte holding the CRC-7 of the first five bytes with the stop
/// bit set.
pub open spec fn frame_ok(f: Seq<u8>) -> bool {
    &&& f.len() == 6
    &&& f[0] & 0xC0 == 0x40
    &&& f[5] == (spec_crc7(f.take(5)) << 1) | 1
}

/// Splitting a 32-bit argument into big-endian bytes and reading them back
/// yields the argument.
proof fn lemma_be_bytes_roundtrip(arg: u32)
    by (bit_vector)
    ensures
        ((((arg >> 24) as u8) as u32) << 24) | ((((arg >> 16) as u8) as u32) << 16) | ((((arg
            >> 8) as u8) as u32) << 8) | (((arg as u8)) as u32) == arg,
{
}

/// Setting the fixed high bits on a 6-bit command index keeps the index
/// recoverable and gives the required start-byte shape.
proof fn lemma_start_byte(cmd: u8)
    by (bit_vector)
    requires
        cmd < 64,
    ensures
        (0x40 | cmd) & 0x3F == cmd,
        (0x40 | cmd) & 0xC0 == 0x40,
{
}

/// Builds the 6-byte command frame for `cmd` with argument `arg`: start byte,
/// big-endian argument, and CRC byte with the stop bit set.
pub fn build_frame(cmd: u8, arg: u32) -> (f: Vec<u8>)
    requires
        cmd < 64,
    ensures
        frame_ok(f@),
        frame_cmd(f@) == cmd,
        frame_arg(f@) == arg,
{
    let mut f: Vec<u8> = Vec::new();
    f.push(0x40 | cmd);
    f.push((arg >> 24) as u8);
    f.push((arg >> 16) as u8);
    f.push((arg >> 8) as u8);
    f.push(arg as u8);

    let crc = crc7(f.as_slice());
    let ghost header = f@;
    proof {
        lemma_crc7_is_7_bits(header);
    }
    f.push((crc << 1) | 1);

    proof {
        assert(f@.take(5) =~= header);
        lemma_start_byte(cmd);
        lemma_be_bytes_roundtrip(arg);
    }
    f
}

/// The on-wire address of a logical block index: the index itself for a
/// high/extended-capacity card, the byte offset `index * 512` for a
/// standard-capacity card.
pub open spec fn spec_wire_address(index: u32, high_capacity: bool) -> int {
    if high_capacity {
        index as int
    } else {
        index as int * 512
    }
}

/// Translates a logical block index to the on-wire command argument.
pub fn wire_address(index: u32, high_capacity: bool) -> (addr: u32)
    requires
        spec_wire_address(index, high_capacity) <= u32::MAX as int,
    ensures
        addr as int == spec_wire_address(index, high_capacity),
{
    if high_capacity {
        index
    } else {
        index * 512
    }
}

} // verus!
