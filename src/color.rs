use vstd::prelude::*;

verus! {

/// A 24-bit display color held as `0x00RRGGBB`; bits 24 to 31 are unused.
#[derive(Clone, Copy, PartialEq, Eq, Structural, Debug)]
pub struct Rgb888(pub u32);

/// A 15-bit SNES color: red in bits 0 to 4, green in bits 5 to 9, blue in
/// bits 10 to 14; bit 15 is unused.
#[derive(Clone, Copy, PartialEq, Eq, Structural, Debug)]
pub struct Bgr555(pub u16);

/// The value of a 24-bit color with the given channels and the unused byte clear.
pub open spec fn rgb888_value(r: u8, g: u8, b: u8) -> u32 {
    (r as int * 0x10000 + g as int * 0x100 + b as int) as u32
}

/// The value of a 15-bit color with the given channels (each below 32) and bit 15 clear.
pub open spec fn bgr555_value(r: u8, g: u8, b: u8) -> u16 {
    (r as int + g as int * 32 + b as int * 1024) as u16
}

impl Rgb888 {
    pub open spec fn red(self) -> u8 {
        ((self.0 / 0x10000) % 0x100) as u8
    }

    pub open spec fn green(self) -> u8 {
        ((self.0 / 0x100) % 0x100) as u8
    }

    pub open spec fn blue(self) -> u8 {
        (self.0 % 0x100) as u8
    }

    /// The unused top byte.
    pub open spec fn spare(self) -> u32 {
        self.0 / 0x100_0000
    }

    /// The 15-bit color that keeps the top five bits of each channel.
    pub open spec fn to_bgr555(self) -> Bgr555 {
        Bgr555(bgr555_value((self.red() / 8) as u8, (self.green() / 8) as u8, (self.blue() / 8) as u8))
    }

    pub fn new(r: u8, g: u8, b: u8) -> (res: Self)
        ensures
            res.0 == rgb888_value(r, g, b),
            res.red() == r,
            res.green() == g,
            res.blue() == b,
    {
        let mut result = Self(0);
        result.set_red(r);
        result.set_green(g);
        result.set_blue(b);
        let v = result.0;
        assert(v / 0x100_0000 == 0 ==> v == (((v / 0x10000) % 0x100) * 0x10000 + ((v / 0x100)
            % 0x100) * 0x100 + v % 0x100)) by (bit_vector);
        result
    }

    pub fn get_red(&self) -> (r: u8)
        ensures
            r == self.red(),
    {
        let v = self.0;
        assert((v >> 16) & 0xFF == (v / 0x10000) % 0x100) by (bit_vector);
        ((self.0 >> 16) & 0xFF) as u8
    }

    pub fn set_red(&mut self, r: u8)
        ensures
            final(self).red() == r,
            final(self).green() == old(self).green(),
            final(self).blue() == old(self).blue(),
            final(self).spare() == old(self).spare(),
    {
        let v = self.0;
        let n = (v & 0xFF00_FFFF) | ((r as u32) << 16);
        assert(((n / 0x10000) % 0x100) as u8 == r && (n / 0x100) % 0x100 == (v / 0x100) % 0x100
            && n % 0x100 == v % 0x100 && n / 0x100_0000 == v / 0x100_0000) by (bit_vector)
            requires
                n == (v & 0xFF00_FFFF) | ((r as u32) << 16),
        ;
        self.0 = n;
    }

    pub fn get_green(&self) -> (r: u8)
        ensures
            r == self.green(),
    {
        let v = self.0;
        assert((v >> 8) & 0xFF == (v / 0x100) % 0x100) by (bit_vector);
        ((self.0 >> 8) & 0xFF) as u8
    }

    pub fn set_green(&mut self, g: u8)
        ensures
            final(self).green() == g,
            final(self).red() == old(self).red(),
            final(self).blue() == old(self).blue(),
            final(self).spare() == old(self).spare(),
    {
        let v = self.0;
        let n = (v & 0xFFFF_00FF) | ((g as u32) << 8);
        assert(((n / 0x100) % 0x100) as u8 == g && (n / 0x10000) % 0x100 == (v / 0x10000) % 0x100
            && n % 0x100 == v % 0x100 && n / 0x100_0000 == v / 0x100_0000) by (bit_vector)
            requires
                n == (v & 0xFFFF_00FF) | ((g as u32) << 8),
        ;
        self.0 = n;
    }

    pub fn get_blue(&self) -> (r: u8)
        ensures
            r == self.blue(),
    {
        let v = self.0;
        assert(v & 0xFF == v % 0x100) by (bit_vector);
        (self.0 & 0xFF) as u8
    }

    pub fn set_blue(&mut self, b: u8)
        ensures
            final(self).blue() == b,
            final(self).red() == old(self).red(),
            final(self).green() == old(self).green(),
            final(self).spare() == old(self).spare(),
    {
        let v = self.0;
        let n = (v & 0xFFFF_FF00) | (b as u32);
        assert((n % 0x100) as u8 == b && (n / 0x10000) % 0x100 == (v / 0x10000) % 0x100 && (n
            / 0x100) % 0x100 == (v / 0x100) % 0x100 && n / 0x100_0000 == v / 0x100_0000)
            by (bit_vector)
            requires
                n == (v & 0xFFFF_FF00) | (b as u32),
        ;
        self.0 = n;
    }

    /// Drops the low three bits of each channel.
    pub fn as_bgr555(&self) -> (r: Bgr555)
        ensures
            r == self.to_bgr555(),
            r.red() == self.red() / 8,
            r.green() == self.green() / 8,
            r.blue() == self.blue() / 8,
    {
        proof {
            lemma_bgr555_channels((self.red() / 8) as u8, (self.green() / 8) as u8, (self.blue() / 8) as u8);
        }
        Bgr555::new(self.get_red() / 8, self.get_green() / 8, self.get_blue() / 8)
    }
}

impl Bgr555 {
    pub open spec fn red(self) -> u8 {
        (self.0 % 32) as u8
    }

    pub open spec fn green(self) -> u8 {
        ((self.0 / 32) % 32) as u8
    }

    pub open spec fn blue(self) -> u8 {
        ((self.0 / 1024) % 32) as u8
    }

    /// The unused bit 15.
    pub open spec fn spare(self) -> u16 {
        self.0 / 0x8000
    }

    /// The 24-bit color whose channels are these channels times eight.
    pub open spec fn to_rgb888(self) -> Rgb888 {
        Rgb888(rgb888_value((self.red() * 8) as u8, (self.green() * 8) as u8, (self.blue() * 8) as u8))
    }

    /// Channel values are taken modulo 32.
    pub fn new(r: u8, g: u8, b: u8) -> (res: Self)
        ensures
            res.0 == bgr555_value(r % 32, g % 32, b % 32),
            res.red() == r % 32,
            res.green() == g % 32,
            res.blue() == b % 32,
    {
        let mut result = Self(0);
        result.set_red(r);
        result.set_green(g);
        result.set_blue(b);
        let v = result.0;
        assert(v / 0x8000 == 0 ==> v == v % 32 + ((v / 32) % 32) * 32 + ((v / 1024) % 32) * 1024)
            by (bit_vector);
        result
    }

    pub fn get_blue(&self) -> (r: u8)
        ensures
            r == self.blue(),
    {
        let v = self.0;
        assert((v >> 10) & 0x1F == (v / 1024) % 32) by (bit_vector);
        ((self.0 >> 10) & 0x1F) as u8
    }

    /// Writes the low five bits of `value` into the blue channel.
    pub fn set_blue(&mut self, value: u8)
        ensures
            final(self).blue() == value % 32,
            final(self).red() == old(self).red(),
            final(self).green() == old(self).green(),
            final(self).spare() == old(self).spare(),
    {
        let v = self.0;
        let n = (v & 0x83FF) | ((value as u16 & 0x1F) << 10);
        assert((n / 1024) % 32 == value % 32 && n % 32 == v % 32 && (n / 32) % 32 == (v / 32) % 32
            && n / 0x8000 == v / 0x8000) by (bit_vector)
            requires
                n == (v & 0x83FF) | ((value as u16 & 0x1F) << 10),
        ;
        self.0 = n;
    }

    pub fn get_green(&self) -> (r: u8)
        ensures
            r == self.green(),
    {
        let v = self.0;
        assert((v >> 5) & 0x1F == (v / 32) % 32) by (bit_vector);
        ((self.0 >> 5) & 0x1F) as u8
    }

    /// Writes the low five bits of `value` into the green channel.
    pub fn set_green(&mut self, value: u8)
        ensures
            final(self).green() == value % 32,
            final(self).red() == old(self).red(),
            final(self).blue() == old(self).blue(),
            final(self).spare() == old(self).spare(),
    {
        let v = self.0;
        let n = (v & 0xFC1F) | ((value as u16 & 0x1F) << 5);
        assert((n / 32) % 32 == value % 32 && n % 32 == v % 32 && (n / 1024) % 32 == (v / 1024)
            % 32 && n / 0x8000 == v / 0x8000) by (bit_vector)
            requires
                n == (v & 0xFC1F) | ((value as u16 & 0x1F) << 5),
        ;
        self.0 = n;
    }

    pub fn get_red(&self) -> (r: u8)
        ensures
            r == self.red(),
    {
        let v = self.0;
        assert(v & 0x1F == v % 32) by (bit_vector);
        (self.0 & 0x1F) as u8
    }

    /// Writes the low five bits of `value` into the red channel.
    pub fn set_red(&mut self, value: u8)
        ensures
            final(self).red() == value % 32,
            final(self).green() == old(self).green(),
            final(self).blue() == old(self).blue(),
            final(self).spare() == old(self).spare(),
    {
        let v = self.0;
        let n = (v & 0xFFE0) | (value as u16 & 0x1F);
        assert(n % 32 == value % 32 && (n / 32) % 32 == (v / 32) % 32 && (n / 1024) % 32 == (v
            / 1024) % 32 && n / 0x8000 == v / 0x8000) by (bit_vector)
            requires
                n == (v & 0xFFE0) | (value as u16 & 0x1F),
        ;
        self.0 = n;
    }

    /// Scales each channel up by eight.
    pub fn as_rgb888(&self) -> (r: Rgb888)
        ensures
            r == self.to_rgb888(),
            r.red() == self.red() * 8,
            r.green() == self.green() * 8,
            r.blue() == self.blue() * 8,
    {
        Rgb888::new(self.get_red() * 8, self.get_green() * 8, self.get_blue() * 8)
    }
}

impl From<u32> for Rgb888 {
    fn from(data: u32) -> (r: Self) {
        Self(data)
    }
}

impl vstd::std_specs::convert::FromSpecImpl<u32> for Rgb888 {
    open spec fn obeys_from_spec() -> bool {
        true
    }

    open spec fn from_spec(data: u32) -> Self {
        Rgb888(data)
    }
}

impl From<Bgr555> for Rgb888 {
    fn from(data: Bgr555) -> (r: Self) {
        data.as_rgb888()
    }
}

impl vstd::std_specs::convert::FromSpecImpl<Bgr555> for Rgb888 {
    open spec fn obeys_from_spec() -> bool {
        true
    }

    open spec fn from_spec(data: Bgr555) -> Self {
        data.to_rgb888()
    }
}

impl From<u16> for Bgr555 {
    fn from(data: u16) -> (r: Self) {
        Self(data)
    }
}

impl vstd::std_specs::convert::FromSpecImpl<u16> for Bgr555 {
    open spec fn obeys_from_spec() -> bool {
        true
    }

    open spec fn from_spec(data: u16) -> Self {
        Bgr555(data)
    }
}

impl From<Rgb888> for Bgr555 {
    fn from(data: Rgb888) -> (r: Self) {
        data.as_bgr555()
    }
}

impl vstd::std_specs::convert::FromSpecImpl<Rgb888> for Bgr555 {
    open spec fn obeys_from_spec() -> bool {
        true
    }

    open spec fn from_spec(data: Rgb888) -> Self {
        data.to_bgr555()
    }
}

/// Reading the channels back from a 24-bit value built from them.
pub proof fn lemma_rgb888_channels(r: u8, g: u8, b: u8)
    ensures
        Rgb888(rgb888_value(r, g, b)).red() == r,
        Rgb888(rgb888_value(r, g, b)).green() == g,
        Rgb888(rgb888_value(r, g, b)).blue() == b,
        Rgb888(rgb888_value(r, g, b)).spare() == 0,
{
}

/// Reading the channels back from a 15-bit value built from them.
pub proof fn lemma_bgr555_channels(r: u8, g: u8, b: u8)
    requires
        r < 32,
        g < 32,
        b < 32,
    ensures
        Bgr555(bgr555_value(r, g, b)).red() == r,
        Bgr555(bgr555_value(r, g, b)).green() == g,
        Bgr555(bgr555_value(r, g, b)).blue() == b,
        Bgr555(bgr555_value(r, g, b)).spare() == 0,
{
}

/// A 15-bit value is determined by its channels and its spare bit.
pub proof fn lemma_bgr555_from_channels(c: Bgr555)
    ensures
        c.0 == bgr555_value(c.red(), c.green(), c.blue()) + c.spare() * 0x8000,
{
}

/// A 15-bit color whose spare bit is clear comes back unchanged from the
/// trip through the 24-bit color.
pub proof fn lemma_bgr555_round_trip(c: Bgr555)
    requires
        c.spare() == 0,
    ensures
        c.to_rgb888().to_bgr555() == c,
{
    let (r, g, b) = (c.red(), c.green(), c.blue());
    lemma_rgb888_channels((r * 8) as u8, (g * 8) as u8, (b * 8) as u8);
    lemma_bgr555_from_channels(c);
}

} // verus!
