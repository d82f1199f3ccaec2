//! Decoding of the 16-bit CHIP-8 instruction word.
//!
//! An instruction is written `ABCD` in hexadecimal: `A` is the family,
//! `B` the register `x`, `C` the register `y`, `D` the nibble `n`; `BCD` is the
//! address `nnn` and `CD` the byte `kk`.

use vstd::prelude::*;

verus! {

/// The family nibble (bits 12..16).
pub open spec fn family(op: u16) -> int {
    op as int / 0x1000
}

/// The `x` register nibble (bits 8..12).
pub open spec fn x_of(op: u16) -> int {
    (op as int / 0x100) % 0x10
}

/// The `y` register nibble (bits 4..8).
pub open spec fn y_of(op: u16) -> int {
    (op as int / 0x10) % 0x10
}

/// The low nibble `n` (bits 0..4).
pub open spec fn n_of(op: u16) -> int {
    op as int % 0x10
}

/// The 12-bit address `nnn`.
pub open spec fn nnn_of(op: u16) -> int {
    op as int % 0x1000
}

/// The low byte `kk`.
pub open spec fn kk_of(op: u16) -> int {
    op as int % 0x100
}

/// The instruction word stored big-endian in two bytes.
pub open spec fn word(hi: u8, lo: u8) -> u16 {
    (hi as int * 0x100 + lo as int) as u16
}

/// Joins two bytes into an instruction word, high byte first.
pub fn join_bytes(hi: u8, lo: u8) -> (op: u16)
    ensures
        op == word(hi, lo),
        op as int == hi as int * 0x100 + lo as int,
{
    let r = (hi as u16) << 8 | (lo as u16);
    assert(((hi as u16) << 8 | (lo as u16)) == hi as u16 * 256 + lo as u16) by (bit_vector);
    r
}

/// The family nibble.
pub fn family_of(op: u16) -> (f: u16)
    ensures
        f as int == family(op),
        f < 16,
{
    let r = (op & 0xF000) >> 12;
    assert((op & 0xF000) >> 12 == op / 0x1000) by (bit_vector);
    r
}

/// The `x` register index.
pub fn x_index(op: u16) -> (x: usize)
    ensures
        x as int == x_of(op),
        x < 16,
{
    let r = (op & 0x0F00) >> 8;
    assert((op & 0x0F00) >> 8 == (op / 0x100) % 0x10) by (bit_vector);
    r as usize
}

/// The `y` register index.
pub fn y_index(op: u16) -> (y: usize)
    ensures
        y as int == y_of(op),
        y < 16,
{
    let r = (op & 0x00F0) >> 4;
    assert((op & 0x00F0) >> 4 == (op / 0x10) % 0x10) by (bit_vector);
    r as usize
}

/// The low nibble.
pub fn n_value(op: u16) -> (n: u16)
    ensures
        n as int == n_of(op),
        n < 16,
{
    let r = op & 0x000F;
    assert(op & 0x000F == op % 0x10) by (bit_vector);
    r
}

/// The 12-bit address.
pub fn nnn_value(op: u16) -> (nnn: u16)
    ensures
        nnn as int == nnn_of(op),
        nnn < 0x1000,
{
    let r = op & 0x0FFF;
    assert(op & 0x0FFF == op % 0x1000) by (bit_vector);
    r
}

/// The low byte.
pub fn kk_value(op: u16) -> (kk: u8)
    ensures
        kk as int == kk_of(op),
{
    let r = op & 0x00FF;
    assert(op & 0x00FF == op % 0x100) by (bit_vector);
    r as u8
}

} // verus!
