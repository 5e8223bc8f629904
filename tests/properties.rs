use crc_ccitt::{
    crc_16_autosar, crc_16_ccitt, crc_16_genibus, crc_16_gsm, crc_16_ibm_3740, crc_16_ibm_sdlc,
    crc_16_iso_hdlc, crc_16_iso_iec_14443_3_a, crc_16_iso_iec_14443_3_b, crc_16_kermit,
    crc_16_lora, crc_16_x_25, crc_16_xmodem, update, Algorithm,
};

fn all_variants() -> Vec<Algorithm> {
    vec![
        crc_16_xmodem(),
        crc_16_lora(),
        crc_16_genibus(),
        crc_16_gsm(),
        crc_16_ibm_3740(),
        crc_16_autosar(),
        crc_16_ibm_sdlc(),
        crc_16_iso_hdlc(),
        crc_16_iso_iec_14443_3_b(),
        crc_16_x_25(),
        crc_16_iso_iec_14443_3_a(),
        crc_16_kermit(),
        crc_16_ccitt(),
    ]
}

fn bitwise_update(crc: u16, data: u8) -> u16 {
    let mut c = crc ^ data as u16;
    for _ in 0..8 {
        c = if c & 1 == 1 { (c >> 1) ^ 0x8408 } else { c >> 1 };
    }
    c
}

#[test]
fn update_matches_bitwise_for_every_register_and_byte() {
    for r in 0..=u16::MAX {
        for b in 0..=u8::MAX {
            assert_eq!(update(r, b), bitwise_update(r, b));
        }
    }
}

#[test]
fn update_exact_values() {
    assert_eq!(update(0, 0x31), 0x200a);
    assert_eq!(update(0xffff, 0x00), 0x0f87);
    assert_eq!(update(0x1234, 0xab), 0x6c6c);
}

#[test]
fn alias_check_values() {
    for a in all_variants() {
        assert_eq!(a.checksum(b"123456789"), a.check);
    }
}

#[test]
fn streaming_matches_one_shot() {
    let s: Vec<u8> = (0..=255u8).collect();
    for a in all_variants() {
        let whole = a.checksum(&s);
        let mut by_one = a.digest();
        for chunk in s.chunks(1) {
            by_one.update(chunk);
        }
        let mut by_17 = a.digest();
        for chunk in s.chunks(17) {
            by_17.update(chunk);
        }
        assert_eq!(by_one.finalize(), whole);
        assert_eq!(by_17.finalize(), whole);
    }
}

#[test]
fn streaming_exact_values() {
    let s: Vec<u8> = (0..=255u8).collect();
    assert_eq!(crc_16_xmodem().checksum(&s), 0x7e55);
    assert_eq!(crc_16_ibm_sdlc().checksum(&s), 0x303c);
    let xmodem = crc_16_xmodem();
    let mut d = xmodem.digest();
    d.update(&s[..100]);
    d.update(&[]);
    d.update(&s[100..]);
    assert_eq!(d.finalize(), 0x7e55);
}

#[test]
fn empty_input() {
    assert_eq!(crc_16_xmodem().checksum(b""), 0x0000);
    assert_eq!(crc_16_kermit().checksum(b""), 0x0000);
    assert_eq!(crc_16_genibus().checksum(b""), 0x0000);
    assert_eq!(crc_16_gsm().checksum(b""), 0xffff);
    assert_eq!(crc_16_ibm_3740().checksum(b""), 0xffff);
    assert_eq!(crc_16_ibm_sdlc().checksum(b""), 0x0000);
    assert_eq!(crc_16_iso_iec_14443_3_a().checksum(b""), 0x6363);
    for a in all_variants() {
        assert_eq!(a.checksum(b""), a.digest().finalize());
    }
}

#[test]
fn single_byte_exact_values() {
    assert_eq!(crc_16_xmodem().checksum(b"A"), 0x58e5);
    assert_eq!(crc_16_kermit().checksum(b"A"), 0x538d);
}

#[test]
fn init_reflected_only_for_lsb_first_input() {
    let a = Algorithm {
        init: 0x1d0f,
        refin: false,
        refout: false,
        xorout: 0,
        check: 0,
        residue: 0,
    };
    assert_eq!(a.checksum(b""), 0xf0b8);
    assert_eq!(a.checksum(b"123456789"), 0x802d);
}

#[test]
fn aliases_agree_with_ibm_sdlc() {
    let s: Vec<u8> = (0..200u16).map(|i| (i * 7 + 3) as u8).collect();
    let expected = crc_16_ibm_sdlc().checksum(&s);
    assert_eq!(crc_16_iso_hdlc().checksum(&s), expected);
    assert_eq!(crc_16_iso_iec_14443_3_b().checksum(&s), expected);
    assert_eq!(crc_16_x_25().checksum(&s), expected);
    assert_eq!(crc_16_autosar().checksum(&s), crc_16_ibm_3740().checksum(&s));
    assert_eq!(crc_16_ccitt().checksum(&s), crc_16_kermit().checksum(&s));
    assert_eq!(crc_16_lora().checksum(&s), crc_16_xmodem().checksum(&s));
}
