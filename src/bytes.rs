//! Little-endian byte order for the immediates of the instruction stream.
use vstd::prelude::*;

verus! {

/// Byte `k` (0 = least significant) of a 32-bit word, for `k < 4`.
pub open spec fn byte_of(x: u32, k: int) -> u8 {
    if k == 0 {
        (x % 0x100) as u8
    } else if k == 1 {
        (x / 0x100 % 0x100) as u8
    } else if k == 2 {
        (x / 0x1_0000 % 0x100) as u8
    } else {
        (x / 0x100_0000 % 0x100) as u8
    }
}

/// The first `n` little-endian bytes of `x`.
pub open spec fn le_bytes(x: u32, n: int) -> Seq<u8> {
    Seq::new(n as nat, |k: int| byte_of(x, k))
}

/// The word whose little-endian bytes are `b0, b1, b2, b3`.
pub open spec fn word_of(b0: u8, b1: u8, b2: u8, b3: u8) -> u32 {
    (b0 + b1 * 0x100 + b2 * 0x1_0000 + b3 * 0x100_0000) as u32
}

/// Splits a word into its four bytes, least significant first.
pub fn u32_split(n: u32) -> (r: (u8, u8, u8, u8))
    ensures
        r == (byte_of(n, 0), byte_of(n, 1), byte_of(n, 2), byte_of(n, 3)),
{
    ((n % 0x100) as u8, (n / 0x100 % 0x100) as u8, (n / 0x1_0000 % 0x100) as u8, (n / 0x100_0000 % 0x100) as u8)
}

/// Joins four bytes, least significant first, into a word.
pub fn u32_join(b: (u8, u8, u8, u8)) -> (r: u32)
    ensures
        r == word_of(b.0, b.1, b.2, b.3),
        r as int == b.0 + b.1 * 0x100 + b.2 * 0x1_0000 + b.3 * 0x100_0000,
{
    b.0 as u32 + b.1 as u32 * 0x100 + b.2 as u32 * 0x1_0000 + b.3 as u32 * 0x100_0000
}

/// Joining the bytes of a split word gives the word back.
pub proof fn lemma_join_split(x: u32)
    ensures
        word_of(byte_of(x, 0), byte_of(x, 1), byte_of(x, 2), byte_of(x, 3)) == x,
{
    assert(x == x % 0x100 + (x / 0x100 % 0x100) * 0x100 + (x / 0x1_0000 % 0x100) * 0x1_0000
        + (x / 0x100_0000 % 0x100) * 0x100_0000) by (nonlinear_arith);
}

/// Joining the two low bytes of a 16-bit value gives the value back.
pub proof fn lemma_le16(x: u16)
    ensures
        word_of(byte_of(x as u32, 0), byte_of(x as u32, 1), 0, 0) as u16 == x,
{
    let y = x as u32;
    assert(y == y % 0x100 + (y / 0x100 % 0x100) * 0x100) by (nonlinear_arith)
        requires y < 0x1_0000;
}

/// Joining the three low bytes of a value under 2^24 gives the value back.
pub proof fn lemma_le24(x: u32)
    requires
        x < 0x100_0000,
    ensures
        word_of(byte_of(x, 0), byte_of(x, 1), byte_of(x, 2), 0) == x,
{
    assert(x == x % 0x100 + (x / 0x100 % 0x100) * 0x100 + (x / 0x1_0000 % 0x100) * 0x1_0000)
        by (nonlinear_arith)
        requires x < 0x100_0000;
}

} // verus!
