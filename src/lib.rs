//! CRC-16 checksums over the CCITT polynomial x^16 + x^12 + x^5 + 1
//! (0x1021 in MSB-first form), computed without lookup tables.
//!
//! [`update`] folds one byte into an LSB-first register. An [`Algorithm`]
//! adds the parameters of a catalogued variant (initial value, input and
//! output reflection, final xor), and a [`Digest`] feeds it in pieces.
pub mod algorithm;
pub mod bits;
pub mod catalog;
pub mod msb_first;

pub use algorithm::{Algorithm, Digest};
pub use bits::update;
pub use catalog::{
    crc_16_xmodem,
    crc_16_lora,
    crc_16_genibus,
    crc_16_gsm,
    crc_16_ibm_3740,
    crc_16_autosar,
    crc_16_ibm_sdlc,
    crc_16_iso_hdlc,
    crc_16_iso_iec_14443_3_b,
    crc_16_x_25,
    crc_16_iso_iec_14443_3_a,
    crc_16_kermit,
    crc_16_ccitt,
};
