//! The CRC-7 checksum carried in every SD command frame.
//!
//! The checksum uses the generator polynomial `x^7 + x^3 + 1`: for each input
//! bit, the 7-bit accumulator shifts left one place and the constant `0x09`
//! is XOR-ed in whenever the outgoing accumulator bit differs from the
//! incoming data bit.

use vstd::prelude::*;

verus! {

/// One shift step of the CRC-7 accumulator: shift in the top bit of `b`,
/// XOR-ing in the polynomial constant `0x09` when the outgoing CRC bit
/// differs from the incoming data bit, and keep 7 bits.
pub open spec fn crc7_shift(crc: u8, b: u8) -> u8 {
    if ((b & 0x80) != 0) != ((crc & 0x40) != 0) {
        ((crc << 1) & 0x7F) ^ 0x09
    } else {
        (crc << 1) & 0x7F
    }
}

/// The accumulator and the (shifted) data byte after `k` bit steps.
pub open spec fn crc7_bits(crc: u8, b: u8, k: nat) -> (u8, u8)
    decreases k,
{
    if k == 0 {
        (crc, b)
    } else {
        let (c, bb) = crc7_bits(crc, b, (k - 1) as nat);
        (crc7_shift(c, bb), bb << 1)
    }
}

/// The accumulator after absorbing one whole byte, high bit first.
pub open spec fn crc7_byte(crc: u8, b: u8) -> u8 {
    crc7_bits(crc, b, 8).0
}

/// The CRC-7 of the first `i` bytes of `s`, starting from a zero accumulator.
pub open spec fn crc7_prefix(s: Seq<u8>, i: int) -> u8
    decreases i,
{
    if i <= 0 {
        0
    } else {
        crc7_byte(crc7_prefix(s, i - 1), s[i - 1])
    }
}

/// The 7-bit CRC of a byte sequence, as written into SD command frames.
pub open spec fn spec_crc7(s: Seq<u8>) -> u8 {
    crc7_prefix(s, s.len() as int)
}

/// Every shift step keeps the accumulator below `0x80`.
proof fn lemma_crc7_shift_bound(crc: u8, b: u8)
    ensures
        crc7_shift(crc, b) < 0x80,
{
    assert(((crc << 1) & 0x7F) ^ 0x09 < 0x80) by (bit_vector);
    assert((crc << 1) & 0x7F < 0x80) by (bit_vector);
}

/// Absorbing a byte leaves the accumulator below `0x80`.
proof fn lemma_crc7_byte_bound(crc: u8, b: u8)
    ensures
        crc7_byte(crc, b) < 0x80,
{
    let (c, bb) = crc7_bits(crc, b, 7);
    assert(crc7_bits(crc, b, 8) == (crc7_shift(c, bb), bb << 1));
    lemma_crc7_shift_bound(c, bb);
}

/// The CRC of any prefix stays below `0x80`.
proof fn lemma_crc7_prefix_bound(s: Seq<u8>, i: int)
    ensures
        crc7_prefix(s, i) < 0x80,
    decreases i,
{
    if i > 0 {
        lemma_crc7_prefix_bound(s, i - 1);
        lemma_crc7_byte_bound(crc7_prefix(s, i - 1), s[i - 1]);
    }
}

/// The CRC-7 of a byte sequence is a 7-bit value: its top bit is always 0.
pub proof fn lemma_crc7_is_7_bits(s: Seq<u8>)
    ensures
        spec_crc7(s) < 0x80,
{
    lemma_crc7_prefix_bound(s, s.len() as int);
}

/// Computes the 7-bit CRC of `bytes` required in SD command frames.
///
/// Pure and deterministic: the result is exactly `spec_crc7` of the input,
/// and its top bit is always 0.
pub fn crc7(bytes: &[u8]) -> (r: u8)
    ensures
        r == spec_crc7(bytes@),
        r < 0x80,
{
    let mut crc: u8 = 0;
    let n = bytes.len();
    let mut i: usize = 0;

    while i < n
        invariant
            i <= n,
            n == bytes@.len(),
            crc == crc7_prefix(bytes@, i as int),
        decreases n - i,
    {
        let byte = bytes[i];
        let mut b = byte;
        let ghost crc0 = crc;
        let mut j: usize = 0;
        while j < 8
            invariant
                j <= 8,
                (crc, b) == crc7_bits(crc0, byte, j as nat),
            decreases 8 - j,
        {
            let bit = ((b & 0x80) != 0) != ((crc & 0x40) != 0);
            crc = if bit {
                ((crc << 1) & 0x7F) ^ 0x09
            } else {
                (crc << 1) & 0x7F
            };
            b = b << 1;
            j = j + 1;
        }
        assert(crc == crc7_byte(crc0, byte));
        i = i + 1;
    }

    proof {
        lemma_crc7_prefix_bound(bytes@, n as int);
        assert(crc & 0x7F == crc) by (bit_vector)
            requires
                crc < 0x80,
        ;
    }
    crc & 0x7F
}

} // verus!
