//! Codecs for SNES tile graphics and colors: bit-plane tile formats, the
//! 15-bit native color and 24-bit display color, fixed-size palettes, and
//! the pipeline from tile bytes to colors.
use vstd::prelude::*;

pub mod address;
pub mod color;
pub mod error;
pub mod header;
pub mod palette;
pub mod plane;
pub mod rom;
pub mod tile;

pub use address::Addr24;
pub use color::{Bgr555, Rgb888};
pub use error::Error;
pub use header::{EmulationModeVectors, NativeModeVectors, SNESHeader};
pub use palette::{SNESPalette, SNESPalette16, SNESPalette256};
pub use plane::TileFormat;
pub use tile::{
    SNESTile, SNESTile1BPP, SNESTile2BPPIntertwined, SNESTile2BPPPlanar, SNESTile3BPPIntertwined,
    SNESTile3BPPPlanar, SNESTile4BPPIntertwined, SNESTile4BPPPlanar, SNESTile8BPPIntertwined,
    SNESTile8BPPPlanar, SNESTileMode7,
};

verus! {

/// Reads a little-endian 16-bit value from its two bytes.
pub(crate) fn read_le_u16(lo: u8, hi: u8) -> (r: u16)
    ensures
        r == lo as int + 256 * hi as int,
{
    let r = (lo as u16) | ((hi as u16) << 8);
    assert((lo as u16) | ((hi as u16) << 8) == lo as int + 256 * hi as int) by (bit_vector);
    r
}

} // verus!
