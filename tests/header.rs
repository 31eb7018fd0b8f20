use snes::rom;
use snes::{Error, SNESHeader};

fn header_bytes() -> Vec<u8> {
    let mut b = vec![0u8; 64];
    b[..21].copy_from_slice(b"EARTH BOUND          ");
    b[0x15] = 0x31;
    b[0x16] = 0x02;
    b[0x17] = 0x0C;
    b[0x18] = 0x03;
    b[0x19] = 0x01;
    b[0x1B] = 0x00;
    b[0x1C] = 0x34;
    b[0x1D] = 0x12;
    b[0x1E] = 0xCB;
    b[0x1F] = 0xED;
    b[0x24] = 0xAA;
    b[0x25] = 0xBB;
    b[0x3E] = 0x11;
    b[0x3F] = 0x22;
    b
}

#[test]
fn header_parses_fields() {
    let h = SNESHeader::from_bytes(&header_bytes()).unwrap();
    assert_eq!(&h.game_title, b"EARTH BOUND          ");
    assert_eq!(h.mapping_mode, 0x31);
    assert_eq!(h.rom_size, 0x0C);
    assert_eq!(h.developer_id, 0x0001);
    assert_eq!(h.checksum_compliment, 0x1234);
    assert_eq!(h.checksum, 0xEDCB);
    assert_eq!(h.native.cop, 0xBBAA);
    assert_eq!(h.emulation.irq_or_brk, 0x2211);
    assert_eq!(SNESHeader::from_bytes(&[0u8; 63]), Err(Error::DataLengthMismatch(63, 64)));
}

#[test]
fn header_validation_order() {
    let h = SNESHeader::from_bytes(&header_bytes()).unwrap();
    assert_eq!(h.validate(0x40_0000), Ok(()));
    assert_eq!(h.validate(0x40_0400), Err(Error::ROMSizeMismatch(0x40_0000, 0x40_0400)));
    let mut bad_sum = h;
    bad_sum.checksum = 0;
    assert_eq!(bad_sum.validate(0), Err(Error::ChecksumComplimentMismatch));
    let mut bad_title = bad_sum;
    bad_title.game_title[3] = 0x7F;
    assert_eq!(bad_title.validate(0), Err(Error::TitleNotASCII));
    let mut huge = h;
    huge.rom_size = 200;
    assert_eq!(huge.validate(usize::MAX), Ok(()));
}

#[test]
fn rom_sizes_and_checksum() {
    assert_eq!(rom::header_size(0x10200), 0x200);
    assert_eq!(rom::rom_size(0x10200), 0x10000);
    assert_eq!(rom::banks(0x30200), 3);
    assert_eq!(rom::checksum(&[0xFF, 0xFF, 0x03]), 0x0201);
    let mut big = vec![0u8; 0x30_0000];
    big[0] = 5;
    assert_eq!(rom::checksum(&big), 10);
}
