use crc_ccitt::Algorithm;

fn check(algorithm: &Algorithm) {
    assert_eq!(algorithm.checksum(b"123456789"), algorithm.check);
}

#[test]
fn crc_16_xmodem() {
    check(&crc_ccitt::crc_16_xmodem());
}

#[test]
fn crc_16_genibus() {
    check(&crc_ccitt::crc_16_genibus());
}

#[test]
fn crc_16_gsm() {
    check(&crc_ccitt::crc_16_gsm());
}

#[test]
fn crc_16_ibm_3740() {
    check(&crc_ccitt::crc_16_ibm_3740());
}

#[test]
fn crc_16_ibm_sdlc() {
    check(&crc_ccitt::crc_16_ibm_sdlc());
}

#[test]
fn crc_16_iso_iec_1443_3_a() {
    check(&crc_ccitt::crc_16_iso_iec_14443_3_a());
}

#[test]
fn crc_16_kermit() {
    check(&crc_ccitt::crc_16_kermit());
}
