use vstd::prelude::*;

use crate::error::Error;

verus! {

/// The tile layouts: bit depth and where each bit-plane byte lives.
#[derive(Clone, Copy, PartialEq, Eq, Structural, Debug)]
pub enum TileFormat {
    Bpp1,
    Bpp2Planar,
    Bpp2Intertwined,
    Bpp3Planar,
    Bpp3Intertwined,
    Bpp4Planar,
    Bpp4Intertwined,
    Bpp8Planar,
    Bpp8Intertwined,
    /// One raw byte per pixel, row-major, without bit-planes.
    Mode7,
}

impl TileFormat {
    /// Bits per pixel.
    pub open spec fn depth(self) -> nat {
        match self {
            TileFormat::Bpp1 => 1,
            TileFormat::Bpp2Planar | TileFormat::Bpp2Intertwined => 2,
            TileFormat::Bpp3Planar | TileFormat::Bpp3Intertwined => 3,
            TileFormat::Bpp4Planar | TileFormat::Bpp4Intertwined => 4,
            _ => 8,
        }
    }

    /// Size of a tile's bytes.
    pub open spec fn byte_len(self) -> nat {
        8 * self.depth()
    }

    pub open spec fn is_intertwined(self) -> bool {
        match self {
            TileFormat::Bpp2Intertwined | TileFormat::Bpp3Intertwined
            | TileFormat::Bpp4Intertwined | TileFormat::Bpp8Intertwined => true,
            _ => false,
        }
    }

    pub open spec fn is_mode7(self) -> bool {
        self is Mode7
    }

    /// The pixel values that writing accepts. The 8-bit planar layout accepts
    /// only values below 16, while its intertwined sibling and Mode 7 take
    /// any byte.
    pub open spec fn accepts(self, v: u8) -> bool {
        match self {
            TileFormat::Bpp1 => v < 2,
            TileFormat::Bpp2Planar | TileFormat::Bpp2Intertwined => v < 4,
            TileFormat::Bpp3Planar | TileFormat::Bpp3Intertwined => v < 8,
            TileFormat::Bpp4Planar | TileFormat::Bpp4Intertwined | TileFormat::Bpp8Planar => v < 16,
            TileFormat::Bpp8Intertwined | TileFormat::Mode7 => true,
        }
    }

    /// Offset of the byte that holds bit-plane `p` of row `y`. Planar layouts
    /// store each plane's eight rows together; intertwined ones store plane
    /// pairs row by row in 16-byte blocks, and a last unpaired plane planar.
    pub open spec fn plane_offset(self, p: int, y: int) -> int {
        if !self.is_intertwined() {
            8 * p + y
        } else if p % 2 == 0 && p + 1 == self.depth() {
            16 * (p / 2) + y
        } else {
            16 * (p / 2) + 2 * y + p % 2
        }
    }

    /// The bit-plane that byte `i` holds.
    pub open spec fn plane_of(self, i: int) -> int {
        if !self.is_intertwined() {
            i / 8
        } else if 2 * (i / 16) + 1 == self.depth() {
            2 * (i / 16)
        } else {
            2 * (i / 16) + (i % 16) % 2
        }
    }

    /// The pixel row that byte `i` belongs to.
    pub open spec fn row_of(self, i: int) -> int {
        if !self.is_intertwined() {
            i % 8
        } else if 2 * (i / 16) + 1 == self.depth() {
            i % 16
        } else {
            (i % 16) / 2
        }
    }

    pub proof fn lemma_plane_offset(self, p: int, y: int)
        requires
            !self.is_mode7(),
            0 <= p < self.depth(),
            0 <= y < 8,
        ensures
            0 <= self.plane_offset(p, y) < self.byte_len(),
            self.plane_of(self.plane_offset(p, y)) == p,
            self.row_of(self.plane_offset(p, y)) == y,
    {
    }

    pub proof fn lemma_byte_position(self, i: int)
        requires
            !self.is_mode7(),
            0 <= i < self.byte_len(),
        ensures
            0 <= self.plane_of(i) < self.depth(),
            0 <= self.row_of(i) < 8,
            self.plane_offset(self.plane_of(i), self.row_of(i)) == i,
    {
    }
}

/// Bit `7 - x` of a plane byte, the bit of pixel column `x`: the most
/// significant bit is the leftmost pixel.
pub open spec fn plane_bit(b: u8, x: u8) -> u8 {
    (b & (1u8 << ((7 - x) as u8))) >> ((7 - x) as u8)
}

/// `b` with the bit of pixel column `x` cleared and then set to `bit`.
pub open spec fn with_plane_bit(b: u8, x: u8, bit: u8) -> u8 {
    (b & !(1u8 << ((7 - x) as u8))) | (bit << ((7 - x) as u8))
}

/// The low `n` bits of a byte, for `n` up to 8.
pub open spec fn low_mask(n: u8) -> u8 {
    ((1u16 << n) - 1u16) as u8
}

/// Pixel `(x, y)` assembled from its first `n` planes: bit `p` of the value
/// is the pixel's bit in plane `p`.
pub open spec fn decode_planes(f: TileFormat, bytes: Seq<u8>, x: u8, y: int, n: nat) -> u8
    decreases n,
{
    if n == 0 {
        0
    } else {
        decode_planes(f, bytes, x, y, (n - 1) as nat) | (plane_bit(
            bytes[f.plane_offset(n - 1, y)],
            x,
        ) << ((n - 1) as u8))
    }
}

/// The value of pixel `(x, y)` of a tile with these bytes.
pub open spec fn pixel(f: TileFormat, bytes: Seq<u8>, x: int, y: int) -> u8 {
    if f.is_mode7() {
        bytes[8 * y + x]
    } else {
        decode_planes(f, bytes, x as u8, y, f.depth())
    }
}

/// The bytes after pixel `(x, y)` is set to `v`: in each byte of row `y`,
/// the pixel's bit becomes the bit of `v` for that byte's plane.
pub open spec fn with_pixel(f: TileFormat, bytes: Seq<u8>, x: int, y: int, v: u8) -> Seq<u8> {
    if f.is_mode7() {
        bytes.update(8 * y + x, v)
    } else {
        Seq::new(
            bytes.len(),
            |i: int|
                if f.row_of(i) == y {
                    with_plane_bit(bytes[i], x as u8, (v >> (f.plane_of(i) as u8)) & 1)
                } else {
                    bytes[i]
                },
        )
    }
}

/// The 64 pixel values in row-major order.
pub open spec fn colormap(f: TileFormat, bytes: Seq<u8>) -> Seq<u8> {
    Seq::new(64, |i: int| pixel(f, bytes, i % 8, i / 8))
}

/// The bytes of a zeroed tile.
pub open spec fn blank(f: TileFormat) -> Seq<u8> {
    Seq::new(f.byte_len(), |i: int| 0u8)
}

/// The bytes of a zeroed tile after value `c[i]` is written at pixel `i`
/// (row-major), for each `i` in turn.
pub open spec fn encode(f: TileFormat, c: Seq<u8>) -> Seq<u8>
    decreases c.len(),
{
    if c.len() == 0 {
        blank(f)
    } else {
        let n = c.len() - 1;
        with_pixel(f, encode(f, c.drop_last()), n % 8, n / 8, c.last())
    }
}

/// What reading pixel `(x, y)` reports for a position out of the tile.
pub open spec fn position_check(x: int, y: int) -> Result<(), Error> {
    if x >= 8 {
        Err(Error::OutOfBounds(x as usize, 8))
    } else if y >= 8 {
        Err(Error::OutOfBounds(y as usize, 8))
    } else {
        Ok(())
    }
}

/// What writing `v` at pixel `(x, y)` reports: bounds first, then the value.
pub open spec fn write_check(f: TileFormat, x: int, y: int, v: u8) -> Result<(), Error> {
    match position_check(x, y) {
        Err(e) => Err(e),
        Ok(()) => if f.accepts(v) {
            Ok(())
        } else {
            Err(Error::InvalidColorIndex(v))
        },
    }
}

/// The first failure met when writing `c[j]` at pixel `j` for `j` from `i` on.
pub open spec fn colormap_error_from(f: TileFormat, c: Seq<u8>, i: int) -> Option<Error>
    decreases c.len() - i,
{
    if i < 0 || i >= c.len() {
        None
    } else {
        match write_check(f, i % 8, i / 8, c[i]) {
            Err(e) => Some(e),
            Ok(()) => colormap_error_from(f, c, i + 1),
        }
    }
}

/// The first failure met when writing a colormap into a tile, if any.
pub open spec fn colormap_error(f: TileFormat, c: Seq<u8>) -> Option<Error> {
    colormap_error_from(f, c, 0)
}

proof fn lemma_plane_bit_set(b: u8, x: u8, bit: u8)
    by (bit_vector)
    requires
        x < 8,
        bit < 2,
    ensures
        plane_bit(with_plane_bit(b, x, bit), x) == bit,
{
}

proof fn lemma_plane_bit_other(b: u8, x: u8, x2: u8, bit: u8)
    by (bit_vector)
    requires
        x < 8,
        x2 < 8,
        x != x2,
        bit < 2,
    ensures
        plane_bit(with_plane_bit(b, x, bit), x2) == plane_bit(b, x2),
{
}

proof fn lemma_plane_bit_range(b: u8, x: u8)
    by (bit_vector)
    requires
        x < 8,
    ensures
        plane_bit(b, x) < 2,
        plane_bit(0, x) == 0,
{
}

proof fn lemma_mask_step(v: u8, n: u8)
    by (bit_vector)
    requires
        n < 8,
    ensures
        ((v >> n) & 1) < 2,
        0u8 | (0u8 << n) == 0,
        (v & low_mask(n)) | (((v >> n) & 1) << n) == v & low_mask((n + 1) as u8),
{
}

proof fn lemma_mask_full()
    by (bit_vector)
    ensures
        forall|v: u8| v & low_mask(0) == 0,
        forall|v: u8| v < 2 ==> #[trigger] (v & low_mask(1)) == v,
        forall|v: u8| v < 4 ==> #[trigger] (v & low_mask(2)) == v,
        forall|v: u8| v < 8 ==> #[trigger] (v & low_mask(3)) == v,
        forall|v: u8| v < 16 ==> #[trigger] (v & low_mask(4)) == v,
        forall|v: u8| #[trigger] (v & low_mask(8)) == v,
{
}

proof fn lemma_accepted_fits(f: TileFormat, v: u8)
    requires
        f.accepts(v),
    ensures
        v & low_mask(f.depth() as u8) == v,
{
    lemma_mask_full();
}

proof fn lemma_decode_written(f: TileFormat, bytes: Seq<u8>, x: int, y: int, v: u8, n: nat)
    requires
        !f.is_mode7(),
        bytes.len() == f.byte_len(),
        0 <= x < 8,
        0 <= y < 8,
        n <= f.depth(),
    ensures
        decode_planes(f, with_pixel(f, bytes, x, y, v), x as u8, y, n) == v & low_mask(n as u8),
    decreases n,
{
    if n == 0 {
        lemma_mask_full();
    } else {
        let p = n - 1;
        lemma_decode_written(f, bytes, x, y, v, p as nat);
        f.lemma_plane_offset(p, y);
        let o = f.plane_offset(p, y);
        lemma_mask_step(v, p as u8);
        lemma_plane_bit_set(bytes[o], x as u8, (v >> (p as u8)) & 1);
    }
}

proof fn lemma_decode_other(
    f: TileFormat,
    bytes: Seq<u8>,
    x: int,
    y: int,
    v: u8,
    x2: int,
    y2: int,
    n: nat,
)
    requires
        !f.is_mode7(),
        bytes.len() == f.byte_len(),
        0 <= x < 8,
        0 <= y < 8,
        0 <= x2 < 8,
        0 <= y2 < 8,
        x != x2 || y != y2,
        n <= f.depth(),
    ensures
        decode_planes(f, with_pixel(f, bytes, x, y, v), x2 as u8, y2, n) == decode_planes(
            f,
            bytes,
            x2 as u8,
            y2,
            n,
        ),
    decreases n,
{
    if n > 0 {
        let p = n - 1;
        lemma_decode_other(f, bytes, x, y, v, x2, y2, p as nat);
        f.lemma_plane_offset(p, y2);
        let o = f.plane_offset(p, y2);
        if y2 == y {
            lemma_mask_step(v, p as u8);
            lemma_plane_bit_other(bytes[o], x as u8, x2 as u8, (v >> (p as u8)) & 1);
        }
    }
}

proof fn lemma_decode_blank(f: TileFormat, x: int, y: int, n: nat)
    requires
        !f.is_mode7(),
        0 <= x < 8,
        0 <= y < 8,
        n <= f.depth(),
    ensures
        decode_planes(f, blank(f), x as u8, y, n) == 0,
    decreases n,
{
    if n > 0 {
        let p = n - 1;
        lemma_decode_blank(f, x, y, p as nat);
        f.lemma_plane_offset(p, y);
        lemma_plane_bit_range(0, x as u8);
        lemma_mask_step(0, p as u8);
    }
}

/// Writing an accepted value at a pixel makes that pixel read back as the
/// value and leaves every other pixel as it was.
pub proof fn lemma_pixel_written(f: TileFormat, bytes: Seq<u8>, x: int, y: int, v: u8)
    requires
        bytes.len() == f.byte_len(),
        0 <= x < 8,
        0 <= y < 8,
        f.accepts(v),
    ensures
        with_pixel(f, bytes, x, y, v).len() == bytes.len(),
        pixel(f, with_pixel(f, bytes, x, y, v), x, y) == v,
        forall|x2: int, y2: int|
            0 <= x2 < 8 && 0 <= y2 < 8 && (x2 != x || y2 != y) ==> #[trigger] pixel(
                f,
                with_pixel(f, bytes, x, y, v),
                x2,
                y2,
            ) == pixel(f, bytes, x2, y2),
{
    if !f.is_mode7() {
        lemma_decode_written(f, bytes, x, y, v, f.depth());
        lemma_accepted_fits(f, v);
        assert forall|x2: int, y2: int|
            0 <= x2 < 8 && 0 <= y2 < 8 && (x2 != x || y2 != y) implies #[trigger] pixel(
                f,
                with_pixel(f, bytes, x, y, v),
                x2,
                y2,
            ) == pixel(f, bytes, x2, y2) by {
            lemma_decode_other(f, bytes, x, y, v, x2, y2, f.depth());
        }
    }
}

/// Every pixel of a zeroed tile is 0.
pub proof fn lemma_pixel_blank(f: TileFormat, x: int, y: int)
    requires
        0 <= x < 8,
        0 <= y < 8,
    ensures
        pixel(f, blank(f), x, y) == 0,
{
    if !f.is_mode7() {
        lemma_decode_blank(f, x, y, f.depth());
    }
}

/// Encoding a colormap of at most 64 accepted values gives a tile whose
/// pixels are those values, followed by zeros.
pub proof fn lemma_encode(f: TileFormat, c: Seq<u8>)
    requires
        c.len() <= 64,
        forall|i: int| 0 <= i < c.len() ==> f.accepts(#[trigger] c[i]),
    ensures
        encode(f, c).len() == f.byte_len(),
        forall|j: int|
            0 <= j < 64 ==> #[trigger] pixel(f, encode(f, c), j % 8, j / 8) == if j < c.len() {
                c[j]
            } else {
                0
            },
    decreases c.len(),
{
    if c.len() == 0 {
        assert forall|j: int| 0 <= j < 64 implies #[trigger] pixel(f, encode(f, c), j % 8, j / 8)
            == 0 by {
            lemma_pixel_blank(f, j % 8, j / 8);
        }
    } else {
        let d = c.drop_last();
        let n = c.len() - 1;
        lemma_encode(f, d);
        lemma_pixel_written(f, encode(f, d), n % 8, n / 8, c.last());
        assert forall|j: int| 0 <= j < 64 implies #[trigger] pixel(f, encode(f, c), j % 8, j / 8)
            == if j < c.len() {
            c[j]
        } else {
            0
        } by {
            if j != n {
                assert(j % 8 != n % 8 || j / 8 != n / 8);
                assert(pixel(f, encode(f, d), j % 8, j / 8) == if j < d.len() {
                    d[j]
                } else {
                    0
                });
            }
        }
    }
}

proof fn lemma_no_colormap_error(f: TileFormat, c: Seq<u8>, i: int)
    requires
        c.len() <= 64,
        0 <= i,
        forall|k: int| 0 <= k < c.len() ==> f.accepts(#[trigger] c[k]),
    ensures
        colormap_error_from(f, c, i) is None,
    decreases c.len() - i,
{
    if i < c.len() {
        lemma_no_colormap_error(f, c, i + 1);
    }
}

/// A full colormap of accepted values is written without failure, and the
/// tile it gives reads back as the same colormap.
pub proof fn lemma_colormap_round_trip(f: TileFormat, c: Seq<u8>)
    requires
        c.len() == 64,
        forall|i: int| 0 <= i < c.len() ==> f.accepts(#[trigger] c[i]),
    ensures
        colormap_error(f, c) is None,
        colormap(f, encode(f, c)) == c,
{
    lemma_no_colormap_error(f, c, 0);
    lemma_encode(f, c);
    assert(colormap(f, encode(f, c)) =~= c);
}

impl TileFormat {
    pub fn bit_depth(self) -> (r: usize)
        ensures
            r == self.depth(),
    {
        match self {
            TileFormat::Bpp1 => 1,
            TileFormat::Bpp2Planar | TileFormat::Bpp2Intertwined => 2,
            TileFormat::Bpp3Planar | TileFormat::Bpp3Intertwined => 3,
            TileFormat::Bpp4Planar | TileFormat::Bpp4Intertwined => 4,
            _ => 8,
        }
    }

    pub fn accepts_value(self, v: u8) -> (r: bool)
        ensures
            r == self.accepts(v),
    {
        match self {
            TileFormat::Bpp1 => v < 2,
            TileFormat::Bpp2Planar | TileFormat::Bpp2Intertwined => v < 4,
            TileFormat::Bpp3Planar | TileFormat::Bpp3Intertwined => v < 8,
            TileFormat::Bpp4Planar | TileFormat::Bpp4Intertwined | TileFormat::Bpp8Planar => v < 16,
            TileFormat::Bpp8Intertwined | TileFormat::Mode7 => true,
        }
    }

    fn intertwined(self) -> (r: bool)
        ensures
            r == self.is_intertwined(),
    {
        match self {
            TileFormat::Bpp2Intertwined | TileFormat::Bpp3Intertwined
            | TileFormat::Bpp4Intertwined | TileFormat::Bpp8Intertwined => true,
            _ => false,
        }
    }

    fn offset_of(self, p: usize, y: usize) -> (r: usize)
        requires
            !self.is_mode7(),
            p < self.depth(),
            y < 8,
        ensures
            r == self.plane_offset(p as int, y as int),
    {
        if !self.intertwined() {
            8 * p + y
        } else if p % 2 == 0 && p + 1 == self.bit_depth() {
            16 * (p / 2) + y
        } else {
            16 * (p / 2) + 2 * y + p % 2
        }
    }
}

fn read_plane_bit(b: u8, x: u8) -> (r: u8)
    requires
        x < 8,
    ensures
        r == plane_bit(b, x),
{
    let index = 7 - x;
    let mask = 1u8 << index;
    (b & mask) >> index
}

fn write_plane_bit(b: u8, x: u8, bit: u8) -> (r: u8)
    requires
        x < 8,
    ensures
        r == with_plane_bit(b, x, bit),
{
    let index = 7 - x;
    let mask = 1u8 << index;
    (b & !mask) | (bit << index)
}

/// Reads pixel `(x, y)` of a tile's bytes in format `f`.
pub fn read_pixel<const N: usize>(bytes: &[u8; N], f: TileFormat, x: usize, y: usize) -> (r: u8)
    requires
        N == f.byte_len(),
        x < 8,
        y < 8,
    ensures
        r == pixel(f, bytes@, x as int, y as int),
{
    if f == TileFormat::Mode7 {
        return bytes[y * 8 + x];
    }
    let depth = f.bit_depth();
    let mut value: u8 = 0;
    let mut p: usize = 0;
    while p < depth
        invariant
            !f.is_mode7(),
            depth == f.depth(),
            N == f.byte_len(),
            bytes@.len() == N,
            x < 8,
            y < 8,
            p <= depth,
            value == decode_planes(f, bytes@, x as u8, y as int, p as nat),
        decreases depth - p,
    {
        proof {
            f.lemma_plane_offset(p as int, y as int);
        }
        let o = f.offset_of(p, y);
        let bit = read_plane_bit(bytes[o], x as u8);
        value = value | (bit << (p as u8));
        p = p + 1;
    }
    value
}

/// Writes `v` at pixel `(x, y)` of a tile's bytes in format `f`.
pub fn write_pixel<const N: usize>(bytes: &mut [u8; N], f: TileFormat, x: usize, y: usize, v: u8)
    requires
        N == f.byte_len(),
        x < 8,
        y < 8,
    ensures
        final(bytes)@ == with_pixel(f, old(bytes)@, x as int, y as int, v),
{
    let ghost start = bytes@;
    if f == TileFormat::Mode7 {
        bytes[y * 8 + x] = v;
        assert(bytes@ =~= with_pixel(f, start, x as int, y as int, v));
        return;
    }
    let depth = f.bit_depth();
    let mut p: usize = 0;
    while p < depth
        invariant
            !f.is_mode7(),
            depth == f.depth(),
            N == f.byte_len(),
            start.len() == N,
            bytes@.len() == N,
            x < 8,
            y < 8,
            p <= depth,
            forall|i: int|
                0 <= i < N ==> #[trigger] bytes@[i] == if f.row_of(i) == y && f.plane_of(i) < p {
                    with_plane_bit(start[i], x as u8, (v >> (f.plane_of(i) as u8)) & 1)
                } else {
                    start[i]
                },
        decreases depth - p,
    {
        proof {
            f.lemma_plane_offset(p as int, y as int);
        }
        let o = f.offset_of(p, y);
        let b = bytes[o];
        let nb = write_plane_bit(b, x as u8, (v >> (p as u8)) & 1);
        bytes[o] = nb;
        assert forall|i: int|
            0 <= i < N implies #[trigger] bytes@[i] == if f.row_of(i) == y && f.plane_of(i) < p
                + 1 {
                with_plane_bit(start[i], x as u8, (v >> (f.plane_of(i) as u8)) & 1)
            } else {
                start[i]
            } by {
            f.lemma_byte_position(i);
        }
        p = p + 1;
    }
    proof {
        assert forall|i: int| 0 <= i < N implies f.plane_of(i) < depth by {
            f.lemma_byte_position(i);
        }
    }
    assert(bytes@ =~= with_pixel(f, start, x as int, y as int, v));
}

} // verus!
