use vstd::prelude::*;

use crate::error::Error;

verus! {

/// First bank of the ROM-mapped region of the address space.
pub const ROM_BANK_BASE: u8 = 0xC0;

/// A 24-bit SNES address: an 8-bit bank and a 16-bit offset within it.
#[derive(Clone, Copy, PartialEq, Eq, Structural, Hash, Debug)]
pub struct Addr24 {
    pub address: u16,
    pub bank: u8,
}

impl Addr24 {
    /// The address as the integer `bank * 0x10000 + address`.
    pub open spec fn value(self) -> nat {
        self.bank as nat * 0x10000 + self.address as nat
    }

    pub fn new(bank: u8, address: u16) -> (r: Self)
        ensures
            r.bank == bank,
            r.address == address,
    {
        Self { address, bank }
    }

    /// Takes the low 24 bits of `u`.
    pub fn from_u32(u: u32) -> (r: Self)
        ensures
            r.address == u % 0x10000,
            r.bank == (u / 0x10000) % 0x100,
            r.value() == u % 0x100_0000,
            r == Self::from_u32_spec(u),
    {
        let r = Self { address: (u & 0xFFFF) as u16, bank: ((u >> 16) & 0xFF) as u8 };
        assert(u & 0xFFFF == u % 0x10000 && (u >> 16) & 0xFF == (u / 0x10000) % 0x100)
            by (bit_vector);
        r
    }

    /// Takes the low 24 bits of the two's-complement form of `i`.
    pub fn from_i32(i: i32) -> (r: Self)
        ensures
            r == Self::from_u32_spec(i as u32),
    {
        Self::from_u32(i as u32)
    }

    pub open spec fn from_u32_spec(u: u32) -> Self {
        Self { address: (u % 0x10000) as u16, bank: ((u / 0x10000) % 0x100) as u8 }
    }

    /// Address of file offset `offset` in a ROM image whose copier header is
    /// `header_size` bytes long.
    pub fn from_offset(header_size: usize, offset: usize) -> (r: Self)
        requires
            header_size <= offset,
        ensures
            r == Self::from_u32_spec((offset - header_size) as u32),
    {
        Self::from_u32((offset - header_size) as u32)
    }

    pub fn as_u32(&self) -> (r: u32)
        ensures
            r == self.value(),
    {
        let mut result: u32 = 0;
        result = result | self.bank as u32;
        let b = self.bank;
        assert(0u32 | (b as u32) == b as u32) by (bit_vector);
        result = result << 16;
        let a = self.address;
        assert(((b as u32) << 16) | (a as u32) == b as u32 * 0x10000 + a as u32) by (bit_vector);
        result = result | self.address as u32;
        result
    }

    pub fn as_i32(&self) -> (r: i32)
        ensures
            r as int == self.value(),
    {
        self.as_u32() as i32
    }

    /// Moves a disk address into the ROM-mapped banks.
    pub fn to_rom_address(&self) -> (r: Result<Self, Error>)
        ensures
            self.bank + ROM_BANK_BASE <= 0xFF ==> r == Ok::<Self, Error>(
                Self { address: self.address, bank: (self.bank + ROM_BANK_BASE) as u8 },
            ),
            self.bank + ROM_BANK_BASE > 0xFF ==> r == Err::<Self, Error>(
                Error::InvalidDiskAddress(*self),
            ),
    {
        match self.bank.checked_add(ROM_BANK_BASE) {
            Some(bank) => Ok(Self { address: self.address, bank }),
            None => Err(Error::InvalidDiskAddress(*self)),
        }
    }

    /// Moves a ROM-mapped address back to its disk address.
    pub fn to_disk_address(&self) -> (r: Result<Self, Error>)
        ensures
            self.bank >= ROM_BANK_BASE ==> r == Ok::<Self, Error>(
                Self { address: self.address, bank: (self.bank - ROM_BANK_BASE) as u8 },
            ),
            self.bank < ROM_BANK_BASE ==> r == Err::<Self, Error>(
                Error::InvalidROMAddress(*self),
            ),
    {
        match self.bank.checked_sub(ROM_BANK_BASE) {
            Some(bank) => Ok(Self { address: self.address, bank }),
            None => Err(Error::InvalidROMAddress(*self)),
        }
    }

    /// File offset of the address in a ROM image whose copier header is
    /// `header_size` bytes long; ROM-mapped banks are first taken back to disk banks.
    pub fn to_offset(&self, header_size: usize) -> (r: usize)
        requires
            header_size + 0x100_0000 <= usize::MAX,
        ensures
            self.bank >= ROM_BANK_BASE ==> r == self.value() - ROM_BANK_BASE as int * 0x10000
                + header_size,
            self.bank < ROM_BANK_BASE ==> r == self.value() + header_size,
    {
        match self.to_disk_address() {
            Ok(fixed) => fixed.as_u32() as usize + header_size,
            Err(_) => self.as_u32() as usize + header_size,
        }
    }

    pub fn is_rom_address(&self) -> (r: bool)
        ensures
            r == (self.bank >= ROM_BANK_BASE),
    {
        self.bank >= ROM_BANK_BASE
    }

    pub fn is_disk_address(&self) -> (r: bool)
        ensures
            r == (self.bank < ROM_BANK_BASE),
    {
        !self.is_rom_address()
    }
}

} // verus!
