use vstd::prelude::*;

use crate::color::{bgr555_value, Bgr555, Rgb888};
use crate::error::Error;
use crate::palette::SNESPalette;
use crate::plane::{
    blank, colormap, colormap_error, colormap_error_from, encode, pixel, position_check, read_pixel,
    with_pixel, write_check, write_pixel, TileFormat,
};

verus! {

/// The first colormap value, from position `i` on, that is not an index of a
/// palette with `capacity` colors, reported as the lookup reports it.
pub open spec fn lookup_error_from(cm: Seq<u8>, capacity: nat, i: int) -> Option<Error>
    decreases cm.len() - i,
{
    if i < 0 || i >= cm.len() {
        None
    } else if cm[i] >= capacity {
        Some(Error::InvalidColorIndex(cm[i]))
    } else {
        lookup_error_from(cm, capacity, i + 1)
    }
}

/// The palette colors that a colormap selects.
pub open spec fn lookup_colors(colors: Seq<Bgr555>, cm: Seq<u8>) -> Seq<Bgr555> {
    cm.map_values(|c: u8| colors[c as int])
}

/// The 24-bit forms of a sequence of colors.
pub open spec fn display_colors(colors: Seq<Bgr555>) -> Seq<Rgb888> {
    colors.map_values(|c: Bgr555| c.to_rgb888())
}

pub open spec fn direct_red(c: u8, arg: u8) -> u8 {
    ((c & 0x07) << 1u8) | (arg & 1)
}

pub open spec fn direct_green(c: u8, arg: u8) -> u8 {
    ((c & 0x38) >> 2u8) | ((arg >> 1u8) & 1)
}

pub open spec fn direct_blue(c: u8, arg: u8) -> u8 {
    ((c & 0xC0) >> 4u8) | ((arg >> 2u8) & 1)
}

/// The color that direct color mode gives pixel value `c`: the pixel's bits
/// set the high bits of each channel and the three low bits of `arg` set the
/// lowest bit of red, green and blue.
pub open spec fn direct_color(c: u8, arg: u8) -> Bgr555 {
    Bgr555(bgr555_value(direct_red(c, arg), direct_green(c, arg), direct_blue(c, arg)))
}

fn copy_bytes<const N: usize>(dst: &mut [u8; N], src: &[u8])
    requires
        src@.len() == N,
    ensures
        final(dst)@ == src@,
{
    let mut i: usize = 0;
    while i < N
        invariant
            src@.len() == N,
            dst@.len() == N,
            i <= N,
            forall|k: int| 0 <= k < i ==> #[trigger] dst@[k] == src@[k],
        decreases N - i,
    {
        dst[i] = src[i];
        i = i + 1;
    }
    assert(dst@ =~= src@);
}

/// An 8x8 tile in one of the SNES formats.
pub trait SNESTile: Sized {
    /// The layout of the tile's bytes.
    spec fn format() -> TileFormat;

    /// The tile's bytes.
    spec fn bytes(&self) -> Seq<u8>;

    proof fn lemma_bytes_len(&self)
        ensures
            self.bytes().len() == Self::format().byte_len(),
    ;

    /// A tile whose pixels are all 0.
    fn new() -> (r: Self)
        ensures
            r.bytes() == blank(Self::format()),
    ;

    /// A tile holding a copy of `data`, which must be exactly one tile long.
    fn from_data(data: &[u8]) -> (r: Result<Self, Error>)
        ensures
            match r {
                Ok(t) => data@.len() == Self::format().byte_len() && t.bytes() == data@,
                Err(e) => data@.len() != Self::format().byte_len() && e == Error::DataLengthMismatch(
                    data@.len() as usize,
                    Self::format().byte_len() as usize,
                ),
            },
    ;

    /// Writes `value` at pixel `(x, y)`; nothing changes when it fails.
    fn set_value(&mut self, x: usize, y: usize, value: u8) -> (r: Result<(), Error>)
        ensures
            r == write_check(Self::format(), x as int, y as int, value),
            r is Ok ==> final(self).bytes() == with_pixel(
                Self::format(),
                old(self).bytes(),
                x as int,
                y as int,
                value,
            ),
            r is Err ==> final(self).bytes() == old(self).bytes(),
    ;

    /// Reads pixel `(x, y)`.
    fn get_value(&self, x: usize, y: usize) -> (r: Result<u8, Error>)
        ensures
            match position_check(x as int, y as int) {
                Ok(_) => r == Ok::<u8, Error>(
                    pixel(Self::format(), self.bytes(), x as int, y as int),
                ),
                Err(e) => r == Err::<u8, Error>(e),
            },
    ;

    /// The 64 pixel values in row-major order.
    fn to_colormap(&self) -> (r: Result<Vec<u8>, Error>)
        ensures
            r is Ok,
            r->Ok_0@ == colormap(Self::format(), self.bytes()),
    {
        let ghost cm = colormap(Self::format(), self.bytes());
        let mut result: Vec<u8> = Vec::new();
        let mut y: usize = 0;
        while y < 8
            invariant
                y <= 8,
                cm == colormap(Self::format(), self.bytes()),
                result@ == cm.take(8 * y),
            decreases 8 - y,
        {
            let mut x: usize = 0;
            while x < 8
                invariant
                    y < 8,
                    x <= 8,
                    cm == colormap(Self::format(), self.bytes()),
                    result@ == cm.take(8 * y + x),
                decreases 8 - x,
            {
                match self.get_value(x, y) {
                    Ok(v) => result.push(v),
                    Err(e) => return Err(e),
                }
                assert((8 * y + x) % 8 == x && (8 * y + x) / 8 == y);
                assert(cm[8 * y + x] == pixel(Self::format(), self.bytes(), x as int, y as int));
                assert(result@ =~= cm.take(8 * y + x + 1));
                x = x + 1;
            }
            y = y + 1;
        }
        assert(result@ =~= cm);
        Ok(result)
    }

    /// The tile whose pixel `i` (row-major) is `colormap[i]`; the remaining
    /// pixels are 0. Fails as the first failing pixel write does.
    fn from_colormap(colormap: &[u8]) -> (r: Result<Self, Error>)
        ensures
            match colormap_error(Self::format(), colormap@) {
                None => r is Ok && r->Ok_0.bytes() == encode(Self::format(), colormap@),
                Some(e) => r == Err::<Self, Error>(e),
            },
    {
        let ghost f = Self::format();
        let ghost c = colormap@;
        let mut result = Self::new();
        let mut i: usize = 0;
        while i < colormap.len()
            invariant
                c == colormap@,
                f == Self::format(),
                i <= c.len(),
                result.bytes() == encode(f, c.take(i as int)),
                colormap_error_from(f, c, 0) == colormap_error_from(f, c, i as int),
            decreases c.len() - i,
        {
            let x = i % 8;
            let y = i / 8;
            match result.set_value(x, y, colormap[i]) {
                Ok(()) => {},
                Err(e) => return Err(e),
            }
            assert(c.take(i + 1).drop_last() =~= c.take(i as int));
            i = i + 1;
        }
        assert(c.take(i as int) =~= c);
        Ok(result)
    }

    /// The palette color of each pixel, in row-major order. Fails on the first
    /// pixel value that is not an index of the palette.
    fn to_bgr555<T: SNESPalette>(&self, palette: &T) -> (r: Result<Vec<Bgr555>, Error>)
        ensures
            match lookup_error_from(colormap(Self::format(), self.bytes()), T::capacity(), 0) {
                None => r is Ok && r->Ok_0@ == lookup_colors(
                    palette.colors(),
                    colormap(Self::format(), self.bytes()),
                ),
                Some(e) => r == Err::<Vec<Bgr555>, Error>(e),
            },
    {
        let colormap = match self.to_colormap() {
            Ok(c) => c,
            Err(e) => return Err(e),
        };
        let ghost cm = colormap@;
        proof {
            palette.lemma_colors_len();
        }
        let mut result: Vec<Bgr555> = Vec::new();
        let mut k: usize = 0;
        while k < colormap.len()
            invariant
                cm == colormap@,
                cm == crate::plane::colormap(Self::format(), self.bytes()),
                palette.colors().len() == T::capacity(),
                k <= cm.len(),
                result@.len() == k,
                forall|j: int| 0 <= j < k ==> #[trigger] result@[j] == palette.colors()[cm[j] as int],
                lookup_error_from(cm, T::capacity(), 0) == lookup_error_from(cm, T::capacity(), k as int),
            decreases cm.len() - k,
        {
            let color = match palette.get_index(colormap[k]) {
                Ok(v) => v,
                Err(e) => return Err(e),
            };
            result.push(color);
            k = k + 1;
        }
        assert(result@ =~= lookup_colors(palette.colors(), cm));
        Ok(result)
    }

    /// As `to_bgr555`, with each color converted to its 24-bit form.
    fn to_rgb888<T: SNESPalette>(&self, palette: &T) -> (r: Result<Vec<Rgb888>, Error>)
        ensures
            match lookup_error_from(colormap(Self::format(), self.bytes()), T::capacity(), 0) {
                None => r is Ok && r->Ok_0@ == display_colors(
                    lookup_colors(palette.colors(), colormap(Self::format(), self.bytes())),
                ),
                Some(e) => r == Err::<Vec<Rgb888>, Error>(e),
            },
    {
        let colors = match self.to_bgr555(palette) {
            Ok(c) => c,
            Err(e) => return Err(e),
        };
        let mut result: Vec<Rgb888> = Vec::new();
        let mut k: usize = 0;
        while k < colors.len()
            invariant
                k <= colors@.len(),
                result@.len() == k,
                forall|j: int| 0 <= j < k ==> #[trigger] result@[j] == colors@[j].to_rgb888(),
            decreases colors@.len() - k,
        {
            result.push(colors[k].as_rgb888());
            k = k + 1;
        }
        assert(result@ =~= display_colors(colors@));
        Ok(result)
    }

    /// Colors of the pixels in direct color mode, without a palette; only the
    /// three low bits of `palette_arg` are read.
    fn direct_color_mode(&self, palette_arg: u8) -> (r: Result<Vec<Bgr555>, Error>)
        ensures
            r is Ok,
            r->Ok_0@ == colormap(Self::format(), self.bytes()).map_values(
                |c: u8| direct_color(c, palette_arg),
            ),
    {
        let colormap = match self.to_colormap() {
            Ok(c) => c,
            Err(e) => return Err(e),
        };
        let red_bit = palette_arg & 1;
        let green_bit = (palette_arg >> 1) & 1;
        let blue_bit = (palette_arg >> 2) & 1;
        let mut result: Vec<Bgr555> = Vec::new();
        let mut k: usize = 0;
        while k < colormap.len()
            invariant
                k <= colormap@.len(),
                red_bit == palette_arg & 1,
                green_bit == (palette_arg >> 1u8) & 1,
                blue_bit == (palette_arg >> 2u8) & 1,
                result@.len() == k,
                forall|j: int|
                    0 <= j < k ==> #[trigger] result@[j] == direct_color(colormap@[j], palette_arg),
            decreases colormap@.len() - k,
        {
            let c = colormap[k];
            let blue = ((c & 0xC0) >> 4) | blue_bit;
            let green = ((c & 0x38) >> 2) | green_bit;
            let red = ((c & 0x07) << 1) | red_bit;
            assert(direct_red(c, palette_arg) < 32 && direct_green(c, palette_arg) < 32
                && direct_blue(c, palette_arg) < 32) by (bit_vector);
            result.push(Bgr555::new(red, green, blue));
            k = k + 1;
        }
        assert(result@ =~= colormap@.map_values(|c: u8| direct_color(c, palette_arg)));
        Ok(result)
    }
}

/// A 1-bit-per-pixel tile: one plane byte per row.
#[derive(Clone, PartialEq, Eq, Debug)]
pub struct SNESTile1BPP(pub [u8; 8]);

impl SNESTile for SNESTile1BPP {
    open spec fn format() -> TileFormat {
        TileFormat::Bpp1
    }

    open spec fn bytes(&self) -> Seq<u8> {
        self.0@
    }

    proof fn lemma_bytes_len(&self) {
    }

    fn new() -> (r: Self) {
        let bytes: [u8; 8] = vstd::array::array_fill_for_copy_types(0u8);
        let r = Self(bytes);
        assert(r.0@ =~= blank(TileFormat::Bpp1));
        r
    }

    fn from_data(data: &[u8]) -> (r: Result<Self, Error>) {
        if data.len() != 8 {
            return Err(Error::DataLengthMismatch(data.len(), 8));
        }
        let mut bytes = [0u8; 8];
        copy_bytes(&mut bytes, data);
        Ok(Self(bytes))
    }

    fn set_value(&mut self, x: usize, y: usize, value: u8) -> (r: Result<(), Error>) {
        if x >= 8 {
            return Err(Error::OutOfBounds(x, 8));
        }
        if y >= 8 {
            return Err(Error::OutOfBounds(y, 8));
        }
        if !TileFormat::Bpp1.accepts_value(value) {
            return Err(Error::InvalidColorIndex(value));
        }
        write_pixel(&mut self.0, TileFormat::Bpp1, x, y, value);
        Ok(())
    }

    fn get_value(&self, x: usize, y: usize) -> (r: Result<u8, Error>) {
        if x >= 8 {
            return Err(Error::OutOfBounds(x, 8));
        }
        if y >= 8 {
            return Err(Error::OutOfBounds(y, 8));
        }
        Ok(read_pixel(&self.0, TileFormat::Bpp1, x, y))
    }
}

/// A 2-bit-per-pixel tile with planes 0 and 1 at offsets 0x0 and 0x8.
#[derive(Clone, PartialEq, Eq, Debug)]
pub struct SNESTile2BPPPlanar(pub [u8; 16]);

impl SNESTile for SNESTile2BPPPlanar {
    open spec fn format() -> TileFormat {
        TileFormat::Bpp2Planar
    }

    open spec fn bytes(&self) -> Seq<u8> {
        self.0@
    }

    proof fn lemma_bytes_len(&self) {
    }

    fn new() -> (r: Self) {
        let bytes: [u8; 16] = vstd::array::array_fill_for_copy_types(0u8);
        let r = Self(bytes);
        assert(r.0@ =~= blank(TileFormat::Bpp2Planar));
        r
    }

    fn from_data(data: &[u8]) -> (r: Result<Self, Error>) {
        if data.len() != 16 {
            return Err(Error::DataLengthMismatch(data.len(), 16));
        }
        let mut bytes = [0u8; 16];
        copy_bytes(&mut bytes, data);
        Ok(Self(bytes))
    }

    fn set_value(&mut self, x: usize, y: usize, value: u8) -> (r: Result<(), Error>) {
        if x >= 8 {
            return Err(Error::OutOfBounds(x, 8));
        }
        if y >= 8 {
            return Err(Error::OutOfBounds(y, 8));
        }
        if !TileFormat::Bpp2Planar.accepts_value(value) {
            return Err(Error::InvalidColorIndex(value));
        }
        write_pixel(&mut self.0, TileFormat::Bpp2Planar, x, y, value);
        Ok(())
    }

    fn get_value(&self, x: usize, y: usize) -> (r: Result<u8, Error>) {
        if x >= 8 {
            return Err(Error::OutOfBounds(x, 8));
        }
        if y >= 8 {
            return Err(Error::OutOfBounds(y, 8));
        }
        Ok(read_pixel(&self.0, TileFormat::Bpp2Planar, x, y))
    }
}

/// A 2-bit-per-pixel tile with the two planes alternating row by row.
#[derive(Clone, PartialEq, Eq, Debug)]
pub struct SNESTile2BPPIntertwined(pub [u8; 16]);

impl SNESTile for SNESTile2BPPIntertwined {
    open spec fn format() -> TileFormat {
        TileFormat::Bpp2Intertwined
    }

    open spec fn bytes(&self) -> Seq<u8> {
        self.0@
    }

    proof fn lemma_bytes_len(&self) {
    }

    fn new() -> (r: Self) {
        let bytes: [u8; 16] = vstd::array::array_fill_for_copy_types(0u8);
        let r = Self(bytes);
        assert(r.0@ =~= blank(TileFormat::Bpp2Intertwined));
        r
    }

    fn from_data(data: &[u8]) -> (r: Result<Self, Error>) {
        if data.len() != 16 {
            return Err(Error::DataLengthMismatch(data.len(), 16));
        }
        let mut bytes = [0u8; 16];
        copy_bytes(&mut bytes, data);
        Ok(Self(bytes))
    }

    fn set_value(&mut self, x: usize, y: usize, value: u8) -> (r: Result<(), Error>) {
        if x >= 8 {
            return Err(Error::OutOfBounds(x, 8));
        }
        if y >= 8 {
            return Err(Error::OutOfBounds(y, 8));
        }
        if !TileFormat::Bpp2Intertwined.accepts_value(value) {
            return Err(Error::InvalidColorIndex(value));
        }
        write_pixel(&mut self.0, TileFormat::Bpp2Intertwined, x, y, value);
        Ok(())
    }

    fn get_value(&self, x: usize, y: usize) -> (r: Result<u8, Error>) {
        if x >= 8 {
            return Err(Error::OutOfBounds(x, 8));
        }
        if y >= 8 {
            return Err(Error::OutOfBounds(y, 8));
        }
        Ok(read_pixel(&self.0, TileFormat::Bpp2Intertwined, x, y))
    }
}

/// A 3-bit-per-pixel tile with planes at offsets 0x0, 0x8 and 0x10.
#[derive(Clone, PartialEq, Eq, Debug)]
pub struct SNESTile3BPPPlanar(pub [u8; 24]);

impl SNESTile for SNESTile3BPPPlanar {
    open spec fn format() -> TileFormat {
        TileFormat::Bpp3Planar
    }

    open spec fn bytes(&self) -> Seq<u8> {
        self.0@
    }

    proof fn lemma_bytes_len(&self) {
    }

    fn new() -> (r: Self) {
        let bytes: [u8; 24] = vstd::array::array_fill_for_copy_types(0u8);
        let r = Self(bytes);
        assert(r.0@ =~= blank(TileFormat::Bpp3Planar));
        r
    }

    fn from_data(data: &[u8]) -> (r: Result<Self, Error>) {
        if data.len() != 24 {
            return Err(Error::DataLengthMismatch(data.len(), 24));
        }
        let mut bytes = [0u8; 24];
        copy_bytes(&mut bytes, data);
        Ok(Self(bytes))
    }

    fn set_value(&mut self, x: usize, y: usize, value: u8) -> (r: Result<(), Error>) {
        if x >= 8 {
            return Err(Error::OutOfBounds(x, 8));
        }
        if y >= 8 {
            return Err(Error::OutOfBounds(y, 8));
        }
        if !TileFormat::Bpp3Planar.accepts_value(value) {
            return Err(Error::InvalidColorIndex(value));
        }
        write_pixel(&mut self.0, TileFormat::Bpp3Planar, x, y, value);
        Ok(())
    }

    fn get_value(&self, x: usize, y: usize) -> (r: Result<u8, Error>) {
        if x >= 8 {
            return Err(Error::OutOfBounds(x, 8));
        }
        if y >= 8 {
            return Err(Error::OutOfBounds(y, 8));
        }
        Ok(read_pixel(&self.0, TileFormat::Bpp3Planar, x, y))
    }
}

/// A 3-bit-per-pixel tile: planes 0 and 1 alternate row by row, plane 2
/// follows planar at offset 0x10.
#[derive(Clone, PartialEq, Eq, Debug)]
pub struct SNESTile3BPPIntertwined(pub [u8; 24]);

impl SNESTile for SNESTile3BPPIntertwined {
    open spec fn format() -> TileFormat {
        TileFormat::Bpp3Intertwined
    }

    open spec fn bytes(&self) -> Seq<u8> {
        self.0@
    }

    proof fn lemma_bytes_len(&self) {
    }

    fn new() -> (r: Self) {
        let bytes: [u8; 24] = vstd::array::array_fill_for_copy_types(0u8);
        let r = Self(bytes);
        assert(r.0@ =~= blank(TileFormat::Bpp3Intertwined));
        r
    }

    fn from_data(data: &[u8]) -> (r: Result<Self, Error>) {
        if data.len() != 24 {
            return Err(Error::DataLengthMismatch(data.len(), 24));
        }
        let mut bytes = [0u8; 24];
        copy_bytes(&mut bytes, data);
        Ok(Self(bytes))
    }

    fn set_value(&mut self, x: usize, y: usize, value: u8) -> (r: Result<(), Error>) {
        if x >= 8 {
            return Err(Error::OutOfBounds(x, 8));
        }
        if y >= 8 {
            return Err(Error::OutOfBounds(y, 8));
        }
        if !TileFormat::Bpp3Intertwined.accepts_value(value) {
            return Err(Error::InvalidColorIndex(value));
        }
        write_pixel(&mut self.0, TileFormat::Bpp3Intertwined, x, y, value);
        Ok(())
    }

    fn get_value(&self, x: usize, y: usize) -> (r: Result<u8, Error>) {
        if x >= 8 {
            return Err(Error::OutOfBounds(x, 8));
        }
        if y >= 8 {
            return Err(Error::OutOfBounds(y, 8));
        }
        Ok(read_pixel(&self.0, TileFormat::Bpp3Intertwined, x, y))
    }
}

/// A 4-bit-per-pixel tile with planes at offsets 0x0, 0x8, 0x10 and 0x18.
#[derive(Clone, PartialEq, Eq, Debug)]
pub struct SNESTile4BPPPlanar(pub [u8; 32]);

impl SNESTile for SNESTile4BPPPlanar {
    open spec fn format() -> TileFormat {
        TileFormat::Bpp4Planar
    }

    open spec fn bytes(&self) -> Seq<u8> {
        self.0@
    }

    proof fn lemma_bytes_len(&self) {
    }

    fn new() -> (r: Self) {
        let bytes: [u8; 32] = vstd::array::array_fill_for_copy_types(0u8);
        let r = Self(bytes);
        assert(r.0@ =~= blank(TileFormat::Bpp4Planar));
        r
    }

    fn from_data(data: &[u8]) -> (r: Result<Self, Error>) {
        if data.len() != 32 {
            return Err(Error::DataLengthMismatch(data.len(), 32));
        }
        let mut bytes = [0u8; 32];
        copy_bytes(&mut bytes, data);
        Ok(Self(bytes))
    }

    fn set_value(&mut self, x: usize, y: usize, value: u8) -> (r: Result<(), Error>) {
        if x >= 8 {
            return Err(Error::OutOfBounds(x, 8));
        }
        if y >= 8 {
            return Err(Error::OutOfBounds(y, 8));
        }
        if !TileFormat::Bpp4Planar.accepts_value(value) {
            return Err(Error::InvalidColorIndex(value));
        }
        write_pixel(&mut self.0, TileFormat::Bpp4Planar, x, y, value);
        Ok(())
    }

    fn get_value(&self, x: usize, y: usize) -> (r: Result<u8, Error>) {
        if x >= 8 {
            return Err(Error::OutOfBounds(x, 8));
        }
        if y >= 8 {
            return Err(Error::OutOfBounds(y, 8));
        }
        Ok(read_pixel(&self.0, TileFormat::Bpp4Planar, x, y))
    }
}

/// A 4-bit-per-pixel tile: plane pairs (0, 1) and (2, 3) alternate row by
/// row at offsets 0x0 and 0x10.
#[derive(Clone, PartialEq, Eq, Debug)]
pub struct SNESTile4BPPIntertwined(pub [u8; 32]);

impl SNESTile for SNESTile4BPPIntertwined {
    open spec fn format() -> TileFormat {
        TileFormat::Bpp4Intertwined
    }

    open spec fn bytes(&self) -> Seq<u8> {
        self.0@
    }

    proof fn lemma_bytes_len(&self) {
    }

    fn new() -> (r: Self) {
        let bytes: [u8; 32] = vstd::array::array_fill_for_copy_types(0u8);
        let r = Self(bytes);
        assert(r.0@ =~= blank(TileFormat::Bpp4Intertwined));
        r
    }

    fn from_data(data: &[u8]) -> (r: Result<Self, Error>) {
        if data.len() != 32 {
            return Err(Error::DataLengthMismatch(data.len(), 32));
        }
        let mut bytes = [0u8; 32];
        copy_bytes(&mut bytes, data);
        Ok(Self(bytes))
    }

    fn set_value(&mut self, x: usize, y: usize, value: u8) -> (r: Result<(), Error>) {
        if x >= 8 {
            return Err(Error::OutOfBounds(x, 8));
        }
        if y >= 8 {
            return Err(Error::OutOfBounds(y, 8));
        }
        if !TileFormat::Bpp4Intertwined.accepts_value(value) {
            return Err(Error::InvalidColorIndex(value));
        }
        write_pixel(&mut self.0, TileFormat::Bpp4Intertwined, x, y, value);
        Ok(())
    }

    fn get_value(&self, x: usize, y: usize) -> (r: Result<u8, Error>) {
        if x >= 8 {
            return Err(Error::OutOfBounds(x, 8));
        }
        if y >= 8 {
            return Err(Error::OutOfBounds(y, 8));
        }
        Ok(read_pixel(&self.0, TileFormat::Bpp4Intertwined, x, y))
    }
}

/// An 8-bit-per-pixel tile with planes at offsets 0x0 to 0x38, eight bytes
/// apart. Writing takes only values below 16.
#[derive(Clone, PartialEq, Eq, Debug)]
pub struct SNESTile8BPPPlanar(pub [u8; 64]);

impl SNESTile for SNESTile8BPPPlanar {
    open spec fn format() -> TileFormat {
        TileFormat::Bpp8Planar
    }

    open spec fn bytes(&self) -> Seq<u8> {
        self.0@
    }

    proof fn lemma_bytes_len(&self) {
    }

    fn new() -> (r: Self) {
        let bytes: [u8; 64] = vstd::array::array_fill_for_copy_types(0u8);
        let r = Self(bytes);
        assert(r.0@ =~= blank(TileFormat::Bpp8Planar));
        r
    }

    fn from_data(data: &[u8]) -> (r: Result<Self, Error>) {
        if data.len() != 64 {
            return Err(Error::DataLengthMismatch(data.len(), 64));
        }
        let mut bytes = [0u8; 64];
        copy_bytes(&mut bytes, data);
        Ok(Self(bytes))
    }

    fn set_value(&mut self, x: usize, y: usize, value: u8) -> (r: Result<(), Error>) {
        if x >= 8 {
            return Err(Error::OutOfBounds(x, 8));
        }
        if y >= 8 {
            return Err(Error::OutOfBounds(y, 8));
        }
        if !TileFormat::Bpp8Planar.accepts_value(value) {
            return Err(Error::InvalidColorIndex(value));
        }
        write_pixel(&mut self.0, TileFormat::Bpp8Planar, x, y, value);
        Ok(())
    }

    fn get_value(&self, x: usize, y: usize) -> (r: Result<u8, Error>) {
        if x >= 8 {
            return Err(Error::OutOfBounds(x, 8));
        }
        if y >= 8 {
            return Err(Error::OutOfBounds(y, 8));
        }
        Ok(read_pixel(&self.0, TileFormat::Bpp8Planar, x, y))
    }
}

/// An 8-bit-per-pixel tile: plane pairs alternate row by row at offsets
/// 0x0, 0x10, 0x20 and 0x30. Writing takes any byte.
#[derive(Clone, PartialEq, Eq, Debug)]
pub struct SNESTile8BPPIntertwined(pub [u8; 64]);

impl SNESTile for SNESTile8BPPIntertwined {
    open spec fn format() -> TileFormat {
        TileFormat::Bpp8Intertwined
    }

    open spec fn bytes(&self) -> Seq<u8> {
        self.0@
    }

    proof fn lemma_bytes_len(&self) {
    }

    fn new() -> (r: Self) {
        let bytes: [u8; 64] = vstd::array::array_fill_for_copy_types(0u8);
        let r = Self(bytes);
        assert(r.0@ =~= blank(TileFormat::Bpp8Intertwined));
        r
    }

    fn from_data(data: &[u8]) -> (r: Result<Self, Error>) {
        if data.len() != 64 {
            return Err(Error::DataLengthMismatch(data.len(), 64));
        }
        let mut bytes = [0u8; 64];
        copy_bytes(&mut bytes, data);
        Ok(Self(bytes))
    }

    fn set_value(&mut self, x: usize, y: usize, value: u8) -> (r: Result<(), Error>) {
        if x >= 8 {
            return Err(Error::OutOfBounds(x, 8));
        }
        if y >= 8 {
            return Err(Error::OutOfBounds(y, 8));
        }
        if !TileFormat::Bpp8Intertwined.accepts_value(value) {
            return Err(Error::InvalidColorIndex(value));
        }
        write_pixel(&mut self.0, TileFormat::Bpp8Intertwined, x, y, value);
        Ok(())
    }

    fn get_value(&self, x: usize, y: usize) -> (r: Result<u8, Error>) {
        if x >= 8 {
            return Err(Error::OutOfBounds(x, 8));
        }
        if y >= 8 {
            return Err(Error::OutOfBounds(y, 8));
        }
        Ok(read_pixel(&self.0, TileFormat::Bpp8Intertwined, x, y))
    }
}

/// A Mode 7 tile: the byte at `y * 8 + x` is the pixel value.
#[derive(Clone, PartialEq, Eq, Debug)]
pub struct SNESTileMode7(pub [u8; 64]);

impl SNESTile for SNESTileMode7 {
    open spec fn format() -> TileFormat {
        TileFormat::Mode7
    }

    open spec fn bytes(&self) -> Seq<u8> {
        self.0@
    }

    proof fn lemma_bytes_len(&self) {
    }

    fn new() -> (r: Self) {
        let bytes: [u8; 64] = vstd::array::array_fill_for_copy_types(0u8);
        let r = Self(bytes);
        assert(r.0@ =~= blank(TileFormat::Mode7));
        r
    }

    fn from_data(data: &[u8]) -> (r: Result<Self, Error>) {
        if data.len() != 64 {
            return Err(Error::DataLengthMismatch(data.len(), 64));
        }
        let mut bytes = [0u8; 64];
        copy_bytes(&mut bytes, data);
        Ok(Self(bytes))
    }

    fn set_value(&mut self, x: usize, y: usize, value: u8) -> (r: Result<(), Error>) {
        if x >= 8 {
            return Err(Error::OutOfBounds(x, 8));
        }
        if y >= 8 {
            return Err(Error::OutOfBounds(y, 8));
        }
        if !TileFormat::Mode7.accepts_value(value) {
            return Err(Error::InvalidColorIndex(value));
        }
        write_pixel(&mut self.0, TileFormat::Mode7, x, y, value);
        Ok(())
    }

    fn get_value(&self, x: usize, y: usize) -> (r: Result<u8, Error>) {
        if x >= 8 {
            return Err(Error::OutOfBounds(x, 8));
        }
        if y >= 8 {
            return Err(Error::OutOfBounds(y, 8));
        }
        Ok(read_pixel(&self.0, TileFormat::Mode7, x, y))
    }
}

} // verus!
