use crc_ccitt::crc_16_xmodem;

/// A small deterministic generator for test buffers.
fn next(state: &mut u64) -> u64 {
    *state = state.wrapping_mul(6364136223846793005).wrapping_add(1442695040888963407);
    *state >> 33
}

fn buffers() -> Vec<Vec<u8>> {
    let mut state: u64 = 0x5eed;
    let mut out = Vec::new();
    for len in 0..300usize {
        let mut s = Vec::with_capacity(len);
        for _ in 0..len {
            s.push(next(&mut state) as u8);
        }
        out.push(s);
    }
    out
}

#[test]
fn plain() {
    let crc_a = crc::Crc::<u16>::new(&crc::CRC_16_XMODEM);
    let crc_b = crc_16_xmodem();
    for s in buffers() {
        let a = {
            let mut d = crc_a.digest();
            d.update(&s[..]);
            d.finalize()
        };
        let b = crc_b.checksum(&s[..]);
        assert_eq!(a, b);
    }
}

fn xmodem_table() -> [u16; 256] {
    let mut table = [0u16; 256];
    for i in 0..256usize {
        let mut c = (i as u16) << 8;
        for _ in 0..8 {
            c = if c & 0x8000 != 0 { (c << 1) ^ 0x1021 } else { c << 1 };
        }
        table[i] = c;
    }
    table
}

fn xmodem_by_table(table: &[u16; 256], bytes: &[u8]) -> u16 {
    let mut crc: u16 = 0;
    for &b in bytes {
        crc = (crc << 8) ^ table[((crc >> 8) as u8 ^ b) as usize];
    }
    crc
}

#[test]
fn xmodem_agrees_with_table_driven() {
    let table = xmodem_table();
    for s in buffers() {
        assert_eq!(crc_16_xmodem().checksum(&s), xmodem_by_table(&table, &s));
    }
}

#[test]
fn kermit_agrees_with_crc_crate() {
    let reference = crc::Crc::<u16>::new(&crc::CRC_16_KERMIT);
    let ours = crc_ccitt::crc_16_kermit();
    for s in buffers() {
        assert_eq!(ours.checksum(&s), reference.checksum(&s));
    }
}

#[test]
fn ibm_sdlc_agrees_with_crc_crate() {
    let reference = crc::Crc::<u16>::new(&crc::CRC_16_IBM_SDLC);
    let ours = crc_ccitt::crc_16_ibm_sdlc();
    for s in buffers() {
        assert_eq!(ours.checksum(&s), reference.checksum(&s));
    }
}
