use vstd::prelude::*;

use crate::color::Bgr555;
use crate::error::Error;
use crate::read_le_u16;

verus! {

/// Color `i` of a palette's bytes: two bytes, low byte first.
pub open spec fn color_at(bytes: Seq<u8>, i: int) -> Bgr555 {
    Bgr555((bytes[2 * i] as int + 256 * bytes[2 * i + 1] as int) as u16)
}

/// The colors of a palette's bytes, in order.
pub open spec fn decode_colors(bytes: Seq<u8>) -> Seq<Bgr555> {
    Seq::new(bytes.len() / 2, |i: int| color_at(bytes, i))
}

/// A fixed-size table of SNES colors indexed by pixel value.
pub trait SNESPalette: Sized {
    /// Number of colors.
    spec fn capacity() -> nat;

    /// The colors in index order.
    spec fn colors(&self) -> Seq<Bgr555>;

    proof fn lemma_colors_len(&self)
        ensures
            self.colors().len() == Self::capacity(),
            Self::capacity() == 16 || Self::capacity() == 256,
    ;

    /// Reads the colors from exactly two bytes per color.
    fn from_data(data: &[u8]) -> (r: Result<Self, Error>)
        ensures
            match r {
                Ok(p) => data@.len() == 2 * Self::capacity() && p.colors() == decode_colors(data@),
                Err(e) => data@.len() != 2 * Self::capacity() && e == Error::DataLengthMismatch(
                    data@.len() as usize,
                    (2 * Self::capacity()) as usize,
                ),
            },
    ;

    fn set_index(&mut self, index: u8, color: Bgr555) -> (r: Result<(), Error>)
        ensures
            index < Self::capacity() ==> r is Ok && final(self).colors() == old(
                self,
            ).colors().update(index as int, color),
            index >= Self::capacity() ==> r == Err::<(), Error>(Error::InvalidColorIndex(index))
                && final(self).colors() == old(self).colors(),
    ;

    fn get_index(&self, index: u8) -> (r: Result<Bgr555, Error>)
        ensures
            index < Self::capacity() ==> r == Ok::<Bgr555, Error>(self.colors()[index as int]),
            index >= Self::capacity() ==> r == Err::<Bgr555, Error>(Error::InvalidColorIndex(index)),
    ;
}

/// A 16-color palette.
#[derive(Clone, PartialEq, Eq, Debug)]
pub struct SNESPalette16(pub [Bgr555; 16]);

/// A 256-color palette: every pixel byte is a valid index.
#[derive(Clone, PartialEq, Eq, Debug)]
pub struct SNESPalette256(pub [Bgr555; 256]);

fn fill_colors<const N: usize>(colors: &mut [Bgr555; N], data: &[u8])
    requires
        data@.len() == 2 * N,
    ensures
        final(colors)@ == decode_colors(data@),
{
    let len = data.len();
    let mut i: usize = 0;
    while i < N
        invariant
            data@.len() == 2 * N,
            len == data@.len(),
            colors@.len() == N,
            i <= N,
            forall|k: int| 0 <= k < i ==> #[trigger] colors@[k] == color_at(data@, k),
        decreases N - i,
    {
        let value = read_le_u16(data[2 * i], data[2 * i + 1]);
        colors[i] = Bgr555(value);
        i = i + 1;
    }
    assert(colors@ =~= decode_colors(data@));
}

impl SNESPalette for SNESPalette16 {
    open spec fn capacity() -> nat {
        16
    }

    open spec fn colors(&self) -> Seq<Bgr555> {
        self.0@
    }

    proof fn lemma_colors_len(&self) {
    }

    fn from_data(data: &[u8]) -> (r: Result<Self, Error>) {
        if data.len() != 16 * 2 {
            return Err(Error::DataLengthMismatch(data.len(), 16 * 2));
        }
        let mut colors = [Bgr555(0); 16];
        fill_colors(&mut colors, data);
        Ok(Self(colors))
    }

    fn set_index(&mut self, index: u8, color: Bgr555) -> (r: Result<(), Error>) {
        if index >= 16 {
            return Err(Error::InvalidColorIndex(index));
        }
        self.0[index as usize] = color;
        Ok(())
    }

    fn get_index(&self, index: u8) -> (r: Result<Bgr555, Error>) {
        if index >= 16 {
            return Err(Error::InvalidColorIndex(index));
        }
        Ok(self.0[index as usize])
    }
}

impl SNESPalette for SNESPalette256 {
    open spec fn capacity() -> nat {
        256
    }

    open spec fn colors(&self) -> Seq<Bgr555> {
        self.0@
    }

    proof fn lemma_colors_len(&self) {
    }

    fn from_data(data: &[u8]) -> (r: Result<Self, Error>) {
        if data.len() != 256 * 2 {
            return Err(Error::DataLengthMismatch(data.len(), 256 * 2));
        }
        let mut colors = [Bgr555(0); 256];
        fill_colors(&mut colors, data);
        Ok(Self(colors))
    }

    fn set_index(&mut self, index: u8, color: Bgr555) -> (r: Result<(), Error>) {
        self.0[index as usize] = color;
        Ok(())
    }

    fn get_index(&self, index: u8) -> (r: Result<Bgr555, Error>) {
        Ok(self.0[index as usize])
    }
}

} // verus!
