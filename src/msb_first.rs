//! The textbook MSB-first CRC over the polynomial 0x1021, and its agreement
//! with the reflected engine for variants that read and write MSB-first.
use vstd::prelude::*;

use crate::algorithm::{fold_bytes, Algorithm};
use crate::bits::{lemma_reflect16_involutive, reflect16, reflect8, shift_bit, shift_byte};
use crate::catalog::crc_16_xmodem;

verus! {

/// One step of the bit-at-a-time MSB-first shift register for the
/// polynomial 0x1021.
pub open spec fn msb_shift_bit(crc: u16) -> u16 {
    if crc & 0x8000 == 0x8000 {
        (crc << 1) ^ 0x1021
    } else {
        crc << 1
    }
}

/// Eight MSB-first steps after xoring one byte into the high end of the
/// register.
pub open spec fn msb_shift_byte(crc: u16, data: u8) -> u16 {
    let c = crc ^ ((data as u16) << 8);
    msb_shift_bit(
        msb_shift_bit(
            msb_shift_bit(msb_shift_bit(msb_shift_bit(msb_shift_bit(msb_shift_bit(msb_shift_bit(c)))))),
        ),
    )
}

/// The MSB-first register after the bytes have been folded into `crc`, in
/// order.
pub open spec fn msb_crc(crc: u16, bytes: Seq<u8>) -> u16
    decreases bytes.len(),
{
    if bytes.len() == 0 {
        crc
    } else {
        msb_shift_byte(msb_crc(crc, bytes.drop_last()), bytes.last())
    }
}

proof fn lemma_shift_bit_reflected(x: u16)
    ensures
        reflect16(shift_bit(x)) == msb_shift_bit(reflect16(x)),
{
    assert(reflect16(shift_bit(x)) == msb_shift_bit(reflect16(x))) by (bit_vector);
}

proof fn lemma_xor_reflected(c: u16, b: u8)
    ensures
        reflect16(reflect16(c) ^ (reflect8(b) as u16)) == c ^ ((b as u16) << 8),
{
    assert(reflect16(reflect16(c) ^ (reflect8(b) as u16)) == c ^ ((b as u16) << 8))
        by (bit_vector);
}

proof fn lemma_shift_byte_reflected(c: u16, b: u8)
    ensures
        reflect16(shift_byte(reflect16(c), reflect8(b))) == msb_shift_byte(c, b),
{
    let y0 = reflect16(c) ^ (reflect8(b) as u16);
    let y1 = shift_bit(y0);
    let y2 = shift_bit(y1);
    let y3 = shift_bit(y2);
    let y4 = shift_bit(y3);
    let y5 = shift_bit(y4);
    let y6 = shift_bit(y5);
    let y7 = shift_bit(y6);
    lemma_xor_reflected(c, b);
    lemma_shift_bit_reflected(y0);
    lemma_shift_bit_reflected(y1);
    lemma_shift_bit_reflected(y2);
    lemma_shift_bit_reflected(y3);
    lemma_shift_bit_reflected(y4);
    lemma_shift_bit_reflected(y5);
    lemma_shift_bit_reflected(y6);
    lemma_shift_bit_reflected(y7);
}

/// Folding reflected bytes into a reflected register mirrors the MSB-first
/// register.
proof fn lemma_fold_reflected(c: u16, bytes: Seq<u8>)
    ensures
        fold_bytes(false, reflect16(c), bytes) == reflect16(msb_crc(c, bytes)),
    decreases bytes.len(),
{
    if bytes.len() > 0 {
        let prev = msb_crc(c, bytes.drop_last());
        lemma_fold_reflected(c, bytes.drop_last());
        lemma_shift_byte_reflected(prev, bytes.last());
        lemma_reflect16_involutive(shift_byte(reflect16(prev), reflect8(bytes.last())));
    }
}

/// A variant that reads and writes MSB-first, with an initial value that
/// reads the same reflected, computes the textbook MSB-first CRC of the
/// message from `init`, xored with `xorout`.
pub proof fn lemma_msb_first(alg: Algorithm, bytes: Seq<u8>)
    requires
        !alg.refin,
        !alg.refout,
        reflect16(alg.init) == alg.init,
    ensures
        alg.spec_checksum(bytes) == msb_crc(alg.init, bytes) ^ alg.xorout,
{
    lemma_fold_reflected(alg.init, bytes);
    lemma_reflect16_involutive(msb_crc(alg.init, bytes));
}

/// CRC-16/XMODEM is the textbook MSB-first CRC from a zero register.
pub proof fn lemma_xmodem_msb_first(bytes: Seq<u8>)
    ensures
        crc_16_xmodem().spec_checksum(bytes) == msb_crc(0, bytes),
{
    assert(reflect16(0) == 0) by (bit_vector);
    assert(0u16 ^ 0u16 == 0u16) by (bit_vector);
    let x = msb_crc(0, bytes);
    assert(x ^ 0 == x) by (bit_vector);
    lemma_msb_first(crc_16_xmodem(), bytes);
}

} // verus!
