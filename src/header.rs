use vstd::arithmetic::power2::{lemma2_to64, lemma_pow2_adds, lemma_pow2_strictly_increases, pow2};
use vstd::bits::lemma_u64_shl_is_mul;
use vstd::prelude::*;

use crate::error::Error;
use crate::read_le_u16;

verus! {

/// Size of the internal header block that starts at offset 0xFC0 of its bank.
pub const HEADER_LEN: usize = 0x40;

/// Length of the game title field.
pub const TITLE_LEN: usize = 21;

/// The little-endian 16-bit value at offset `o`.
pub open spec fn le16(s: Seq<u8>, o: int) -> u16 {
    (s[o] as int + 256 * s[o + 1] as int) as u16
}

/// Interrupt vectors used in native mode.
#[derive(Clone, Copy, PartialEq, Eq, Structural, Debug)]
pub struct NativeModeVectors {
    pub cop: u16,
    pub brk: u16,
    pub abort: u16,
    pub nmi: u16,
    pub irq: u16,
}

/// Interrupt vectors used in emulation mode.
#[derive(Clone, Copy, PartialEq, Eq, Structural, Debug)]
pub struct EmulationModeVectors {
    pub cop: u16,
    pub abort: u16,
    pub nmi: u16,
    pub res: u16,
    pub irq_or_brk: u16,
}

/// The internal ROM header.
#[derive(Clone, Copy, PartialEq, Eq, Debug)]
pub struct SNESHeader {
    pub game_title: [u8; 21],
    pub mapping_mode: u8,
    pub rom_type: u8,
    pub rom_size: u8,
    pub sram_size: u8,
    pub developer_id: u16,
    pub version: u8,
    pub checksum_compliment: u16,
    pub checksum: u16,
    pub native: NativeModeVectors,
    pub emulation: EmulationModeVectors,
}

/// Title bytes must be printable ASCII.
pub open spec fn title_is_ascii(t: Seq<u8>) -> bool {
    forall|i: int| 0 <= i < t.len() ==> 32 <= #[trigger] t[i] < 127
}

/// The ROM size that a header's size byte declares: 1 KiB times two to that power.
pub open spec fn declared_size(b: u8) -> nat {
    0x400 * pow2(b as nat)
}

impl SNESHeader {
    /// Whether the header's fields are those laid out in the 64 bytes `s`.
    pub open spec fn laid_out_in(self, s: Seq<u8>) -> bool {
        &&& self.game_title@ == s.take(21)
        &&& self.mapping_mode == s[0x15]
        &&& self.rom_type == s[0x16]
        &&& self.rom_size == s[0x17]
        &&& self.sram_size == s[0x18]
        &&& self.developer_id == le16(s, 0x19)
        &&& self.version == s[0x1B]
        &&& self.checksum_compliment == le16(s, 0x1C)
        &&& self.checksum == le16(s, 0x1E)
        &&& self.native == NativeModeVectors {
            cop: le16(s, 0x24),
            brk: le16(s, 0x26),
            abort: le16(s, 0x28),
            nmi: le16(s, 0x2A),
            irq: le16(s, 0x2E),
        }
        &&& self.emulation == EmulationModeVectors {
            cop: le16(s, 0x34),
            abort: le16(s, 0x38),
            nmi: le16(s, 0x3A),
            res: le16(s, 0x3C),
            irq_or_brk: le16(s, 0x3E),
        }
    }

    /// What checking the header against an image of `rom_size` bytes (copier
    /// header left out) reports: the title, then the checksum pair, then the size.
    pub open spec fn validation(self, rom_size: usize) -> Result<(), Error> {
        if !title_is_ascii(self.game_title@) {
            Err(Error::TitleNotASCII)
        } else if (self.checksum_compliment + self.checksum) % 0x10000 != 0xFFFF {
            Err(Error::ChecksumComplimentMismatch)
        } else if rom_size > declared_size(self.rom_size) {
            Err(Error::ROMSizeMismatch(declared_size(self.rom_size) as usize, rom_size))
        } else {
            Ok(())
        }
    }

    /// Reads a header from its 64 bytes, starting at the title.
    pub fn from_bytes(data: &[u8]) -> (r: Result<Self, Error>)
        ensures
            match r {
                Ok(h) => data@.len() == HEADER_LEN && h.laid_out_in(data@),
                Err(e) => data@.len() != HEADER_LEN && e == Error::DataLengthMismatch(
                    data@.len() as usize,
                    HEADER_LEN,
                ),
            },
    {
        if data.len() != HEADER_LEN {
            return Err(Error::DataLengthMismatch(data.len(), HEADER_LEN));
        }
        let mut game_title = [0u8; 21];
        let mut i: usize = 0;
        while i < TITLE_LEN
            invariant
                data@.len() == HEADER_LEN,
                i <= TITLE_LEN,
                forall|k: int| 0 <= k < i ==> #[trigger] game_title@[k] == data@[k],
            decreases TITLE_LEN - i,
        {
            game_title[i] = data[i];
            i = i + 1;
        }
        assert(game_title@ =~= data@.take(21));
        let native = NativeModeVectors {
            cop: read_le_u16(data[0x24], data[0x25]),
            brk: read_le_u16(data[0x26], data[0x27]),
            abort: read_le_u16(data[0x28], data[0x29]),
            nmi: read_le_u16(data[0x2A], data[0x2B]),
            irq: read_le_u16(data[0x2E], data[0x2F]),
        };
        let emulation = EmulationModeVectors {
            cop: read_le_u16(data[0x34], data[0x35]),
            abort: read_le_u16(data[0x38], data[0x39]),
            nmi: read_le_u16(data[0x3A], data[0x3B]),
            res: read_le_u16(data[0x3C], data[0x3D]),
            irq_or_brk: read_le_u16(data[0x3E], data[0x3F]),
        };
        Ok(SNESHeader {
            game_title,
            mapping_mode: data[0x15],
            rom_type: data[0x16],
            rom_size: data[0x17],
            sram_size: data[0x18],
            developer_id: read_le_u16(data[0x19], data[0x1A]),
            version: data[0x1B],
            checksum_compliment: read_le_u16(data[0x1C], data[0x1D]),
            checksum: read_le_u16(data[0x1E], data[0x1F]),
            native,
            emulation,
        })
    }

    /// Checks the header against an image of `rom_size` bytes, copier header
    /// left out.
    pub fn validate(&self, rom_size: usize) -> (r: Result<(), Error>)
        ensures
            r == self.validation(rom_size),
    {
        let mut i: usize = 0;
        while i < TITLE_LEN
            invariant
                i <= TITLE_LEN,
                forall|k: int| 0 <= k < i ==> 32 <= #[trigger] self.game_title@[k] < 127,
            decreases TITLE_LEN - i,
        {
            let c = self.game_title[i];
            if c < 32 || c >= 127 {
                return Err(Error::TitleNotASCII);
            }
            i = i + 1;
        }
        if self.checksum_compliment.wrapping_add(self.checksum) != 0xFFFF {
            return Err(Error::ChecksumComplimentMismatch);
        }
        // Sizes from 2^64 bytes up exceed every image.
        if self.rom_size < 54 {
            let shift = self.rom_size as u64;
            proof {
                lemma2_to64();
                lemma_pow2_adds(10, shift as nat);
                lemma_pow2_strictly_increases(10 + shift as nat, 64);
                lemma_u64_shl_is_mul(0x400, shift);
            }
            let declared = 0x400u64 << shift;
            if rom_size as u64 > declared {
                return Err(Error::ROMSizeMismatch(declared as usize, rom_size));
            }
        } else {
            proof {
                lemma2_to64();
                lemma_pow2_adds(10, self.rom_size as nat);
                if self.rom_size > 54 {
                    lemma_pow2_strictly_increases(64, 10 + self.rom_size as nat);
                }
                assert(declared_size(self.rom_size) >= 0x1_0000_0000_0000_0000);
            }
        }
        Ok(())
    }
}

} // verus!
