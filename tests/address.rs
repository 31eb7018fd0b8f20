use snes::{Addr24, Error};

#[test]
fn addr24_round_trips_through_u32() {
    let a = Addr24::from_u32(0x12_3456);
    assert_eq!(a.bank, 0x12);
    assert_eq!(a.address, 0x3456);
    assert_eq!(a.as_u32(), 0x12_3456);
    assert_eq!(Addr24::from_u32(0xFF12_3456), a);
    assert_eq!(Addr24::from_i32(-1).as_u32(), 0xFF_FFFF);
    assert_eq!(Addr24::new(0xC1, 0x10).as_i32(), 0xC1_0010);
}

#[test]
fn addr24_rom_and_disk() {
    let disk = Addr24::new(0x01, 0x8000);
    let rom = disk.to_rom_address().unwrap();
    assert_eq!(rom, Addr24::new(0xC1, 0x8000));
    assert!(rom.is_rom_address());
    assert!(disk.is_disk_address());
    assert_eq!(rom.to_disk_address(), Ok(disk));
    assert_eq!(disk.to_disk_address(), Err(Error::InvalidROMAddress(disk)));
    let high = Addr24::new(0x40, 0);
    assert_eq!(high.to_rom_address(), Err(Error::InvalidDiskAddress(high)));
}

#[test]
fn addr24_offsets() {
    assert_eq!(Addr24::new(0xC0, 0x7FC0).to_offset(0x200), 0x7FC0 + 0x200);
    assert_eq!(Addr24::new(0x01, 0x0000).to_offset(0), 0x10000);
    assert_eq!(Addr24::from_offset(0x200, 0x10200), Addr24::new(1, 0));
}
