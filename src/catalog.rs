//! The catalogued CRC-16 variants over the polynomial 0x1021, each given by
//! its parameter line in the usual catalogue notation.
use vstd::prelude::*;

use crate::algorithm::{feed, fold_bytes, Algorithm};
use crate::bits::{reflect16, reflect8, shift_byte};

verus! {

/// The parameters of CRC-16/XMODEM.
pub open spec fn spec_crc_16_xmodem() -> Algorithm {
    Algorithm {
        init: 0x0000,
        refin: false,
        refout: false,
        xorout: 0x0000,
        check: 0x31c3,
        residue: 0x0000,
    }
}

/// CRC-16/XMODEM
///
/// width=16 poly=0x1021 init=0x0000 refin=false refout=false xorout=0x0000 check=0x31c3 residue=0x0000 name="CRC-16/XMODEM"
#[verifier::when_used_as_spec(spec_crc_16_xmodem)]
pub fn crc_16_xmodem() -> (a: Algorithm)
    ensures
        a == spec_crc_16_xmodem(),
{
    Algorithm {
        init: 0x0000,
        refin: false,
        refout: false,
        xorout: 0x0000,
        check: 0x31c3,
        residue: 0x0000,
    }
}

/// The parameters of CRC-16/LORA: those of CRC-16/XMODEM.
pub open spec fn spec_crc_16_lora() -> Algorithm {
    spec_crc_16_xmodem()
}

/// CRC-16/LORA, the same parameters as CRC-16/XMODEM.
#[verifier::when_used_as_spec(spec_crc_16_lora)]
pub fn crc_16_lora() -> (a: Algorithm)
    ensures
        a == spec_crc_16_lora(),
{
    crc_16_xmodem()
}

/// The parameters of CRC-16/GENIBUS.
pub open spec fn spec_crc_16_genibus() -> Algorithm {
    Algorithm {
        init: 0xffff,
        refin: false,
        refout: false,
        xorout: 0xffff,
        check: 0xd64e,
        residue: 0x1d0f,
    }
}

/// CRC-16/GENIBUS
///
/// width=16 poly=0x1021 init=0xffff refin=false refout=false xorout=0xffff check=0xd64e residue=0x1d0f name="CRC-16/GENIBUS"
#[verifier::when_used_as_spec(spec_crc_16_genibus)]
pub fn crc_16_genibus() -> (a: Algorithm)
    ensures
        a == spec_crc_16_genibus(),
{
    Algorithm {
        init: 0xffff,
        refin: false,
        refout: false,
        xorout: 0xffff,
        check: 0xd64e,
        residue: 0x1d0f,
    }
}

/// The parameters of CRC-16/GSM.
pub open spec fn spec_crc_16_gsm() -> Algorithm {
    Algorithm {
        init: 0x0000,
        refin: false,
        refout: false,
        xorout: 0xffff,
        check: 0xce3c,
        residue: 0x1d0f,
    }
}

/// CRC-16/GSM
///
/// width=16 poly=0x1021 init=0x0000 refin=false refout=false xorout=0xffff check=0xce3c residue=0x1d0f name="CRC-16/GSM"
#[verifier::when_used_as_spec(spec_crc_16_gsm)]
pub fn crc_16_gsm() -> (a: Algorithm)
    ensures
        a == spec_crc_16_gsm(),
{
    Algorithm {
        init: 0x0000,
        refin: false,
        refout: false,
        xorout: 0xffff,
        check: 0xce3c,
        residue: 0x1d0f,
    }
}

/// The parameters of CRC-16/IBM-3740.
pub open spec fn spec_crc_16_ibm_3740() -> Algorithm {
    Algorithm {
        init: 0xffff,
        refin: false,
        refout: false,
        xorout: 0x0000,
        check: 0x29b1,
        residue: 0x0000,
    }
}

/// CRC-16/IBM-3740
///
/// width=16 poly=0x1021 init=0xffff refin=false refout=false xorout=0x0000 check=0x29b1 residue=0x0000 name="CRC-16/IBM-3740"
#[verifier::when_used_as_spec(spec_crc_16_ibm_3740)]
pub fn crc_16_ibm_3740() -> (a: Algorithm)
    ensures
        a == spec_crc_16_ibm_3740(),
{
    Algorithm {
        init: 0xffff,
        refin: false,
        refout: false,
        xorout: 0x0000,
        check: 0x29b1,
        residue: 0x0000,
    }
}

/// The parameters of CRC-16/AUTOSAR: those of CRC-16/IBM-3740.
pub open spec fn spec_crc_16_autosar() -> Algorithm {
    spec_crc_16_ibm_3740()
}

/// CRC-16/AUTOSAR, the same parameters as CRC-16/IBM-3740.
#[verifier::when_used_as_spec(spec_crc_16_autosar)]
pub fn crc_16_autosar() -> (a: Algorithm)
    ensures
        a == spec_crc_16_autosar(),
{
    crc_16_ibm_3740()
}

/// The parameters of CRC-16/IBM-SDLC.
pub open spec fn spec_crc_16_ibm_sdlc() -> Algorithm {
    Algorithm {
        init: 0xffff,
        refin: true,
        refout: true,
        xorout: 0xffff,
        check: 0x906e,
        residue: 0xf0b8,
    }
}

/// CRC-16/IBM-SDLC
///
/// width=16 poly=0x1021 init=0xffff refin=true refout=true xorout=0xffff check=0x906e residue=0xf0b8 name="CRC-16/IBM-SDLC"
#[verifier::when_used_as_spec(spec_crc_16_ibm_sdlc)]
pub fn crc_16_ibm_sdlc() -> (a: Algorithm)
    ensures
        a == spec_crc_16_ibm_sdlc(),
{
    Algorithm {
        init: 0xffff,
        refin: true,
        refout: true,
        xorout: 0xffff,
        check: 0x906e,
        residue: 0xf0b8,
    }
}

/// The parameters of CRC-16/ISO-HDLC: those of CRC-16/IBM-SDLC.
pub open spec fn spec_crc_16_iso_hdlc() -> Algorithm {
    spec_crc_16_ibm_sdlc()
}

/// CRC-16/ISO-HDLC, the same parameters as CRC-16/IBM-SDLC.
#[verifier::when_used_as_spec(spec_crc_16_iso_hdlc)]
pub fn crc_16_iso_hdlc() -> (a: Algorithm)
    ensures
        a == spec_crc_16_iso_hdlc(),
{
    crc_16_ibm_sdlc()
}

/// The parameters of CRC-16/ISO-IEC-14443-3-B: those of CRC-16/IBM-SDLC.
pub open spec fn spec_crc_16_iso_iec_14443_3_b() -> Algorithm {
    spec_crc_16_ibm_sdlc()
}

/// CRC-16/ISO-IEC-14443-3-B, the same parameters as CRC-16/IBM-SDLC.
#[verifier::when_used_as_spec(spec_crc_16_iso_iec_14443_3_b)]
pub fn crc_16_iso_iec_14443_3_b() -> (a: Algorithm)
    ensures
        a == spec_crc_16_iso_iec_14443_3_b(),
{
    crc_16_ibm_sdlc()
}

/// The parameters of CRC-16/X-25: those of CRC-16/IBM-SDLC.
pub open spec fn spec_crc_16_x_25() -> Algorithm {
    spec_crc_16_ibm_sdlc()
}

/// CRC-16/X-25, the same parameters as CRC-16/IBM-SDLC.
#[verifier::when_used_as_spec(spec_crc_16_x_25)]
pub fn crc_16_x_25() -> (a: Algorithm)
    ensures
        a == spec_crc_16_x_25(),
{
    crc_16_ibm_sdlc()
}

/// The parameters of CRC-16/ISO-IEC-14443-3-A.
pub open spec fn spec_crc_16_iso_iec_14443_3_a() -> Algorithm {
    Algorithm {
        init: 0xc6c6,
        refin: true,
        refout: true,
        xorout: 0x0000,
        check: 0xbf05,
        residue: 0x0000,
    }
}

/// CRC-16/ISO-IEC-14443-3-A
///
/// width=16 poly=0x1021 init=0xc6c6 refin=true refout=true xorout=0x0000 check=0xbf05 residue=0x0000 name="CRC-16/ISO-IEC-14443-3-A"
#[verifier::when_used_as_spec(spec_crc_16_iso_iec_14443_3_a)]
pub fn crc_16_iso_iec_14443_3_a() -> (a: Algorithm)
    ensures
        a == spec_crc_16_iso_iec_14443_3_a(),
{
    Algorithm {
        init: 0xc6c6,
        refin: true,
        refout: true,
        xorout: 0x0000,
        check: 0xbf05,
        residue: 0x0000,
    }
}

/// The parameters of CRC-16/KERMIT.
pub open spec fn spec_crc_16_kermit() -> Algorithm {
    Algorithm {
        init: 0x0000,
        refin: true,
        refout: true,
        xorout: 0x0000,
        check: 0x2189,
        residue: 0x0000,
    }
}

/// CRC-16/KERMIT
///
/// width=16 poly=0x1021 init=0x0000 refin=true refout=true xorout=0x0000 check=0x2189 residue=0x0000 name="CRC-16/KERMIT"
#[verifier::when_used_as_spec(spec_crc_16_kermit)]
pub fn crc_16_kermit() -> (a: Algorithm)
    ensures
        a == spec_crc_16_kermit(),
{
    Algorithm {
        init: 0x0000,
        refin: true,
        refout: true,
        xorout: 0x0000,
        check: 0x2189,
        residue: 0x0000,
    }
}

/// The parameters of CRC-16/CCITT: those of CRC-16/KERMIT.
pub open spec fn spec_crc_16_ccitt() -> Algorithm {
    spec_crc_16_kermit()
}

/// CRC-16/CCITT, the same parameters as CRC-16/KERMIT.
#[verifier::when_used_as_spec(spec_crc_16_ccitt)]
pub fn crc_16_ccitt() -> (a: Algorithm)
    ensures
        a == spec_crc_16_ccitt(),
{
    crc_16_kermit()
}

/// CRC-16/ISO-HDLC, CRC-16/ISO-IEC-14443-3-B and CRC-16/X-25 give the same
/// checksum as CRC-16/IBM-SDLC on every message.
pub proof fn lemma_sdlc_aliases(bytes: Seq<u8>)
    ensures
        crc_16_iso_hdlc().spec_checksum(bytes) == crc_16_ibm_sdlc().spec_checksum(bytes),
        crc_16_iso_iec_14443_3_b().spec_checksum(bytes) == crc_16_ibm_sdlc().spec_checksum(bytes),
        crc_16_x_25().spec_checksum(bytes) == crc_16_ibm_sdlc().spec_checksum(bytes),
{
}

/// The ASCII string "123456789", whose checksum is each variant's `check`.
pub open spec fn check_message() -> Seq<u8> {
    seq![0x31u8, 0x32u8, 0x33u8, 0x34u8, 0x35u8, 0x36u8, 0x37u8, 0x38u8, 0x39u8]
}

proof fn lemma_fold_step(refin: bool, crc: u16, bytes: Seq<u8>, k: int)
    requires
        0 <= k < bytes.len(),
    ensures
        fold_bytes(refin, crc, bytes.subrange(0, k + 1)) == shift_byte(
            fold_bytes(refin, crc, bytes.subrange(0, k)),
            feed(refin, bytes[k]),
        ),
{
    assert(bytes.subrange(0, k + 1).drop_last() =~= bytes.subrange(0, k));
}

proof fn lemma_fold_check_message(refin: bool, crc: u16)
    ensures
        fold_bytes(refin, crc, check_message()) == shift_byte(
            shift_byte(
                shift_byte(
                    shift_byte(
                        shift_byte(
                            shift_byte(
                                shift_byte(
                                    shift_byte(
                                        shift_byte(crc, feed(refin, 0x31u8)),
                                        feed(refin, 0x32u8),
                                    ),
                                    feed(refin, 0x33u8),
                                ),
                                feed(refin, 0x34u8),
                            ),
                            feed(refin, 0x35u8),
                        ),
                        feed(refin, 0x36u8),
                    ),
                    feed(refin, 0x37u8),
                ),
                feed(refin, 0x38u8),
            ),
            feed(refin, 0x39u8),
        ),
{
    let m = check_message();
    assert(m.subrange(0, 0) =~= Seq::<u8>::empty());
    assert(m.subrange(0, 9) =~= m);
    lemma_fold_step(refin, crc, m, 0);
    lemma_fold_step(refin, crc, m, 1);
    lemma_fold_step(refin, crc, m, 2);
    lemma_fold_step(refin, crc, m, 3);
    lemma_fold_step(refin, crc, m, 4);
    lemma_fold_step(refin, crc, m, 5);
    lemma_fold_step(refin, crc, m, 6);
    lemma_fold_step(refin, crc, m, 7);
    lemma_fold_step(refin, crc, m, 8);
}

/// Every catalogued variant computes its own `check` value on "123456789".
pub proof fn lemma_check_values()
    ensures
        crc_16_xmodem().spec_checksum(check_message()) == crc_16_xmodem().check,
        crc_16_genibus().spec_checksum(check_message()) == crc_16_genibus().check,
        crc_16_gsm().spec_checksum(check_message()) == crc_16_gsm().check,
        crc_16_ibm_3740().spec_checksum(check_message()) == crc_16_ibm_3740().check,
        crc_16_ibm_sdlc().spec_checksum(check_message()) == crc_16_ibm_sdlc().check,
        crc_16_iso_iec_14443_3_a().spec_checksum(check_message()) == crc_16_iso_iec_14443_3_a().check,
        crc_16_kermit().spec_checksum(check_message()) == crc_16_kermit().check,
{
    lemma_fold_check_message(false, 0x0000);
    lemma_fold_check_message(false, 0xffff);
    lemma_fold_check_message(true, reflect16(0xffff));
    lemma_fold_check_message(true, reflect16(0xc6c6));
    lemma_fold_check_message(true, reflect16(0x0000));
    // the register of XMODEM and GSM, byte by byte
    assert(shift_byte(0x0000u16, reflect8(0x31u8)) == 0x4e64u16
        && shift_byte(0x4e64u16, reflect8(0x32u8)) == 0xad04u16
        && shift_byte(0xad04u16, reflect8(0x33u8)) == 0x4ae9u16
        && shift_byte(0x4ae9u16, reflect8(0x34u8)) == 0x91ebu16
        && shift_byte(0x91ebu16, reflect8(0x35u8)) == 0x362au16
        && shift_byte(0x362au16, reflect8(0x36u8)) == 0x2704u16
        && shift_byte(0x2704u16, reflect8(0x37u8)) == 0x6b61u16
        && shift_byte(0x6b61u16, reflect8(0x38u8)) == 0xa809u16
        && shift_byte(0xa809u16, reflect8(0x39u8)) == 0xc38cu16) by (bit_vector);
    // the register of GENIBUS and IBM-3740, byte by byte
    assert(shift_byte(0xffffu16, reflect8(0x31u8)) == 0x41e3u16
        && shift_byte(0x41e3u16, reflect8(0x32u8)) == 0x5dbcu16
        && shift_byte(0x5dbcu16, reflect8(0x33u8)) == 0x73dau16
        && shift_byte(0x73dau16, reflect8(0x34u8)) == 0x92cau16
        && shift_byte(0x92cau16, reflect8(0x35u8)) == 0x06a2u16
        && shift_byte(0x06a2u16, reflect8(0x36u8)) == 0x2f74u16
        && shift_byte(0x2f74u16, reflect8(0x37u8)) == 0x18eeu16
        && shift_byte(0x18eeu16, reflect8(0x38u8)) == 0xd485u16
        && shift_byte(0xd485u16, reflect8(0x39u8)) == 0x8d94u16) by (bit_vector);
    // the register of IBM-SDLC, byte by byte
    assert(reflect16(0xffffu16) == 0xffffu16
        && shift_byte(0xffffu16, 0x31u8) == 0x2f8du16
        && shift_byte(0x2f8du16, 0x32u8) == 0x4d53u16
        && shift_byte(0x4d53u16, 0x33u8) == 0x634bu16
        && shift_byte(0x634bu16, 0x34u8) == 0x8b13u16
        && shift_byte(0x8b13u16, 0x35u8) == 0x44bfu16
        && shift_byte(0x44bfu16, 0x36u8) == 0x198du16
        && shift_byte(0x198du16, 0x37u8) == 0x1ac8u16
        && shift_byte(0x1ac8u16, 0x38u8) == 0xf795u16
        && shift_byte(0xf795u16, 0x39u8) == 0x6f91u16) by (bit_vector);
    // the register of ISO-IEC-14443-3-A, byte by byte
    assert(reflect16(0xc6c6u16) == 0x6363u16
        && shift_byte(0x6363u16, 0x31u8) == 0x71f4u16
        && shift_byte(0x71f4u16, 0x32u8) == 0xa34bu16
        && shift_byte(0xa34bu16, 0x33u8) == 0xff6cu16
        && shift_byte(0xff6cu16, 0x34u8) == 0xde32u16
        && shift_byte(0xde32u16, 0x35u8) == 0x7461u16
        && shift_byte(0x7461u16, 0x36u8) == 0x264eu16
        && shift_byte(0x264eu16, 0x37u8) == 0xee60u16
        && shift_byte(0xee60u16, 0x38u8) == 0xde23u16
        && shift_byte(0xde23u16, 0x39u8) == 0xbf05u16) by (bit_vector);
    // the register of KERMIT, byte by byte
    assert(reflect16(0x0000u16) == 0x0000u16
        && shift_byte(0x0000u16, 0x31u8) == 0x200au16
        && shift_byte(0x200au16, 0x32u8) == 0xbdebu16
        && shift_byte(0xbdebu16, 0x33u8) == 0x5a78u16
        && shift_byte(0x5a78u16, 0x34u8) == 0x8832u16
        && shift_byte(0x8832u16, 0x35u8) == 0x7437u16
        && shift_byte(0x7437u16, 0x36u8) == 0x11fdu16
        && shift_byte(0x11fdu16, 0x37u8) == 0x6947u16
        && shift_byte(0x6947u16, 0x38u8) == 0x8b19u16
        && shift_byte(0x8b19u16, 0x39u8) == 0x2189u16) by (bit_vector);
    // the registers read out by each variant
    assert(reflect16(0xc38cu16) ^ 0x0000u16 == 0x31c3u16
        && reflect16(0x8d94u16) ^ 0xffffu16 == 0xd64eu16
        && reflect16(0xc38cu16) ^ 0xffffu16 == 0xce3cu16
        && reflect16(0x8d94u16) ^ 0x0000u16 == 0x29b1u16
        && 0x6f91u16 ^ 0xffffu16 == 0x906eu16
        && 0xbf05u16 ^ 0x0000u16 == 0xbf05u16
        && 0x2189u16 ^ 0x0000u16 == 0x2189u16) by (bit_vector);
}

} // verus!
