//! Bit reflection and the table-free byte update of the LSB-first register.
use vstd::prelude::*;

verus! {

/// The bits of a byte in reverse order: bit `i` of the result is bit `7 - i`
/// of `b`.
pub open spec fn reflect8(b: u8) -> u8 {
    ((b & 0x01) << 7) | ((b & 0x02) << 5) | ((b & 0x04) << 3) | ((b & 0x08) << 1) | ((b & 0x10)
        >> 1) | ((b & 0x20) >> 3) | ((b & 0x40) >> 5) | ((b & 0x80) >> 7)
}

/// The bits of a 16-bit value in reverse order: each byte reflected, and the
/// two bytes swapped.
pub open spec fn reflect16(x: u16) -> u16 {
    ((reflect8(x as u8) as u16) << 8) | (reflect8((x >> 8) as u8) as u16)
}

/// One step of the bit-at-a-time LSB-first shift register for the
/// reflected polynomial 0x8408.
pub open spec fn shift_bit(crc: u16) -> u16 {
    if crc & 1 == 1 {
        (crc >> 1) ^ 0x8408
    } else {
        crc >> 1
    }
}

/// Eight bit-at-a-time steps after xoring one byte into the low end of the
/// register: the classical LSB-first byte update.
pub open spec fn shift_byte(crc: u16, data: u8) -> u16 {
    let c = crc ^ (data as u16);
    shift_bit(shift_bit(shift_bit(shift_bit(shift_bit(shift_bit(shift_bit(shift_bit(c))))))))
}

/// Reverses the bits of a byte by swapping nibbles, then bit pairs, then
/// neighbouring bits.
pub fn reverse8(b: u8) -> (r: u8)
    ensures
        r == reflect8(b),
{
    let x = (b >> 4) | (b << 4);
    let y = ((x >> 2) & 0x33) | ((x & 0x33) << 2);
    let r = ((y >> 1) & 0x55) | ((y & 0x55) << 1);
    assert(r == reflect8(b)) by (bit_vector)
        requires
            x == (b >> 4) | (b << 4),
            y == ((x >> 2) & 0x33) | ((x & 0x33) << 2),
            r == ((y >> 1) & 0x55) | ((y & 0x55) << 1),
    ;
    r
}

/// Reverses the bits of a 16-bit value.
pub fn reverse16(x: u16) -> (r: u16)
    ensures
        r == reflect16(x),
{
    let lo = reverse8(x as u8);
    let hi = reverse8((x >> 8) as u8);
    ((lo as u16) << 8) | (hi as u16)
}

/// Applies one byte of data to a CRC register and returns the new register.
///
/// The register is LSB-first: an MSB-first computation reverses the bits of
/// every input byte and of the final register. The result is that of eight
/// bit-at-a-time steps, collapsed into a few shifts and xors.
pub fn update(crc: u16, data: u8) -> (r: u16)
    ensures
        r == shift_byte(crc, data),
{
    let d0 = data;
    let data = data ^ (crc as u8);
    let data = data ^ (data << 4);
    let r = (((data as u16) << 8) | (crc >> 8)) ^ ((data >> 4) as u16) ^ ((data as u16) << 3);
    assert(r == shift_byte(crc, d0)) by (bit_vector)
        requires
            data == ((d0 ^ (crc as u8)) ^ ((d0 ^ (crc as u8)) << 4)),
            r == (((data as u16) << 8) | (crc >> 8)) ^ ((data >> 4) as u16) ^ ((data as u16) << 3),
    ;
    r
}

/// Reflection undoes itself.
pub proof fn lemma_reflect16_involutive(x: u16)
    ensures
        reflect16(reflect16(x)) == x,
{
    assert(reflect16(reflect16(x)) == x) by (bit_vector);
}

} // verus!
