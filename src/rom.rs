use vstd::prelude::*;

verus! {

/// ROM images are whole multiples of this; any remainder is a copier header.
pub const BLOCK_SIZE: usize = 1024;

/// Size of a bank.
pub const BANK_SIZE: usize = 0x10000;

/// A ROM size whose checksum counts the image twice.
pub const DOUBLED_CHECKSUM_SIZE: usize = 0x30_0000;

/// The sum of the bytes.
pub open spec fn byte_sum(s: Seq<u8>) -> nat
    decreases s.len(),
{
    if s.len() == 0 {
        0
    } else {
        byte_sum(s.drop_last()) + s.last() as nat
    }
}

/// Size of the copier header in front of an image of `len` bytes.
pub fn header_size(len: usize) -> (r: usize)
    ensures
        r == len as nat % (BLOCK_SIZE as nat),
{
    len % BLOCK_SIZE
}

/// Size of an image of `len` bytes without its copier header.
pub fn rom_size(len: usize) -> (r: usize)
    ensures
        r == len - len as nat % (BLOCK_SIZE as nat),
{
    len - header_size(len)
}

/// Number of whole banks in an image of `len` bytes.
pub fn banks(len: usize) -> (r: usize)
    ensures
        r == (len - len as nat % (BLOCK_SIZE as nat)) / (BANK_SIZE as int),
{
    rom_size(len) / BANK_SIZE
}

/// The 16-bit sum of all bytes of an image, header included; an image of
/// 0x300000 bytes (header left out) counts twice.
pub fn checksum(data: &[u8]) -> (r: u16)
    ensures
        data@.len() - data@.len() % (BLOCK_SIZE as nat) == DOUBLED_CHECKSUM_SIZE ==> r == (2
            * byte_sum(data@)) % 0x10000,
        data@.len() - data@.len() % (BLOCK_SIZE as nat) != DOUBLED_CHECKSUM_SIZE ==> r == byte_sum(
            data@,
        ) % 0x10000,
{
    let mut sum: u16 = 0;
    let mut i: usize = 0;
    while i < data.len()
        invariant
            i <= data@.len(),
            sum == byte_sum(data@.take(i as int)) % 0x10000,
        decreases data@.len() - i,
    {
        assert(data@.take(i + 1).drop_last() =~= data@.take(i as int));
        sum = sum.wrapping_add(data[i] as u16);
        i = i + 1;
    }
    assert(data@.take(i as int) =~= data@);
    if rom_size(data.len()) == DOUBLED_CHECKSUM_SIZE {
        let ghost s = byte_sum(data@);
        assert((s % 0x10000 + s % 0x10000) % 0x10000 == (2 * s) % 0x10000) by (nonlinear_arith);
        sum = sum.wrapping_add(sum);
    }
    sum
}

} // verus!
