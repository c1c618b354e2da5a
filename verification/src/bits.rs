//! Byte and word arithmetic shared by the processor, the bus and the PPU.

use vstd::prelude::*;

verus! {

/// The 16-bit word with the given high and low bytes.
pub open spec fn word(hi: u8, lo: u8) -> u16 {
    (hi * 256 + lo) as u16
}

/// The low byte of a word.
pub open spec fn low_byte(w: u16) -> u8 {
    (w % 256) as u8
}

/// The high byte of a word.
pub open spec fn high_byte(w: u16) -> u8 {
    (w / 256) as u8
}

/// A byte read as a two's-complement displacement, as an unsigned word to be
/// added modulo 2^16.
pub open spec fn sign_extend(b: u8) -> u16 {
    if b < 128 {
        b as u16
    } else {
        (0xFF00 + b) as u16
    }
}

/// A byte with its eight bits in the opposite order.
pub open spec fn mirror_bits(b: u8) -> u8 {
    ((b & 0x01) << 7) | ((b & 0x02) << 5) | ((b & 0x04) << 3) | ((b & 0x08) << 1)
        | ((b & 0x10) >> 1) | ((b & 0x20) >> 3) | ((b & 0x40) >> 5) | ((b & 0x80) >> 7)
}

pub fn make_word(hi: u8, lo: u8) -> (w: u16)
    ensures
        w == word(hi, lo),
{
    (hi as u16) * 256 + (lo as u16)
}

pub fn lo(w: u16) -> (b: u8)
    ensures
        b == low_byte(w),
{
    (w % 256) as u8
}

pub fn hi(w: u16) -> (b: u8)
    ensures
        b == high_byte(w),
{
    (w / 256) as u8
}

pub fn widen(b: u8) -> (w: u16)
    ensures
        w == b,
{
    b as u16
}

pub fn displacement(b: u8) -> (w: u16)
    ensures
        w == sign_extend(b),
{
    if b < 128 {
        b as u16
    } else {
        0xFF00 + (b as u16)
    }
}

pub fn reverse(b: u8) -> (r: u8)
    ensures
        r == mirror_bits(b),
{
    ((b & 0x01) << 7) | ((b & 0x02) << 5) | ((b & 0x04) << 3) | ((b & 0x08) << 1)
        | ((b & 0x10) >> 1) | ((b & 0x20) >> 3) | ((b & 0x40) >> 5) | ((b & 0x80) >> 7)
}

/// A vector of `n` zero bytes.
pub fn zeroed(n: usize) -> (v: Vec<u8>)
    ensures
        v@ == Seq::new(n as nat, |i: int| 0u8),
{
    let mut v: Vec<u8> = Vec::new();
    let mut i: usize = 0;
    while i < n
        invariant
            i <= n,
            v@ == Seq::new(i as nat, |j: int| 0u8),
        decreases n - i,
    {
        v.push(0);
        i += 1;
        assert(v@ =~= Seq::new(i as nat, |j: int| 0u8));
    }
    v
}

} // verus!
