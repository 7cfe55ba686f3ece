//! Byte-level helpers shared by the whole core: composing and splitting
//! 16-bit values from byte halves, and packing the four CPU flags into the
//! F register's upper nibble.
use vstd::prelude::*;

verus! {

/// Low byte of a 16-bit value.
pub open spec fn lo8(v: u16) -> u8 {
    (v & 0xFF) as u8
}

/// High byte of a 16-bit value.
pub open spec fn hi8(v: u16) -> u8 {
    (v >> 8) as u8
}

/// Compose a 16-bit value from its bytes, high byte in the upper position.
pub open spec fn concat16(hi: u8, lo: u8) -> u16 {
    ((hi as u16) << 8) | (lo as u16)
}

/// Splitting a 16-bit value into bytes and recomposing them is the identity.
pub proof fn lemma_split_recompose(v: u16)
    ensures
        concat16(hi8(v), lo8(v)) == v,
{
    assert((((v >> 8) as u8 as u16) << 8) | ((v & 0xFF) as u8 as u16) == v) by (bit_vector);
}

/// Composing two bytes and splitting the result gives the bytes back.
pub proof fn lemma_recompose_split(hi: u8, lo: u8)
    ensures
        hi8(concat16(hi, lo)) == hi,
        lo8(concat16(hi, lo)) == lo,
{
    assert(((((hi as u16) << 8) | (lo as u16)) >> 8) as u8 == hi) by (bit_vector);
    assert(((((hi as u16) << 8) | (lo as u16)) & 0xFF) as u8 == lo) by (bit_vector);
}

pub fn make16(hi: u8, lo: u8) -> (r: u16)
    ensures
        r == concat16(hi, lo),
{
    ((hi as u16) << 8) | (lo as u16)
}

pub fn high_byte(v: u16) -> (r: u8)
    ensures
        r == hi8(v),
{
    (v >> 8) as u8
}

pub fn low_byte(v: u16) -> (r: u8)
    ensures
        r == lo8(v),
{
    (v & 0xFF) as u8
}

/// Pack the four CPU flags into a byte: Z in bit 7, N in bit 6, H in bit 5,
/// C in bit 4; the low nibble is always zero.
pub open spec fn flags_byte(z: bool, n: bool, h: bool, c: bool) -> u8 {
    (if z { 0x80u8 } else { 0u8 }) | (if n { 0x40u8 } else { 0u8 })
        | (if h { 0x20u8 } else { 0u8 }) | (if c { 0x10u8 } else { 0u8 })
}

pub open spec fn flag_z(f: u8) -> bool {
    f & 0x80 != 0
}

pub open spec fn flag_n(f: u8) -> bool {
    f & 0x40 != 0
}

pub open spec fn flag_h(f: u8) -> bool {
    f & 0x20 != 0
}

pub open spec fn flag_c(f: u8) -> bool {
    f & 0x10 != 0
}

/// A packed flag byte reads back the flags it was built from, and its low
/// nibble is zero.
pub proof fn lemma_flags_byte(z: bool, n: bool, h: bool, c: bool)
    ensures
        flags_byte(z, n, h, c) & 0x0F == 0,
        flag_z(flags_byte(z, n, h, c)) == z,
        flag_n(flags_byte(z, n, h, c)) == n,
        flag_h(flags_byte(z, n, h, c)) == h,
        flag_c(flags_byte(z, n, h, c)) == c,
{
    let zb: u8 = if z { 0x80 } else { 0 };
    let nb: u8 = if n { 0x40 } else { 0 };
    let hb: u8 = if h { 0x20 } else { 0 };
    let cb: u8 = if c { 0x10 } else { 0 };
    assert((zb | nb | hb | cb) & 0x0F == 0 && ((zb | nb | hb | cb) & 0x80 != 0) == (zb == 0x80)
        && ((zb | nb | hb | cb) & 0x40 != 0) == (nb == 0x40) && ((zb | nb | hb | cb) & 0x20 != 0)
        == (hb == 0x20) && ((zb | nb | hb | cb) & 0x10 != 0) == (cb == 0x10)) by (bit_vector)
        requires
            zb == 0x80 || zb == 0,
            nb == 0x40 || nb == 0,
            hb == 0x20 || hb == 0,
            cb == 0x10 || cb == 0,
    ;
}

pub fn pack_flags(z: bool, n: bool, h: bool, c: bool) -> (r: u8)
    ensures
        r == flags_byte(z, n, h, c),
        r & 0x0F == 0,
{
    proof {
        lemma_flags_byte(z, n, h, c);
    }
    (if z { 0x80u8 } else { 0u8 }) | (if n { 0x40u8 } else { 0u8 })
        | (if h { 0x20u8 } else { 0u8 }) | (if c { 0x10u8 } else { 0u8 })
}

/// Bounds of the byte masks the ALU and the peripherals use; the default
/// solver treats `&` as opaque, so these come from the bit-vector solver.
pub proof fn lemma_u8_mask_bounds(x: u8)
    by (bit_vector)
    ensures
        x & 0x0F < 0x10,
        x & 0xF0 <= 0xF0,
        x & 0x07 < 0x08,
        x & 0x03 < 0x04,
        x & 0x1F <= 0x1F,
{
}

/// Bounds of the 16-bit masks used for half-carry tests and timer dividers.
pub proof fn lemma_u16_mask_bounds(x: u16)
    by (bit_vector)
    ensures
        x & 0x0F < 0x10,
        x & 0xFF < 0x100,
        x & 0x0FFF < 0x1000,
        x & 0x3FF < 0x400,
        x & 0x3F < 0x40,
{
}

/// A vector of `n` zero bytes; the backing store of the RAMs, VRAM and OAM.
pub fn zero_bytes(n: usize) -> (v: Vec<u8>)
    ensures
        v@.len() == n,
        forall|i: int| 0 <= i < n ==> v@[i] == 0,
{
    let mut v: Vec<u8> = Vec::new();
    while v.len() < n
        invariant
            v@.len() <= n,
            forall|i: int| 0 <= i < v@.len() ==> v@[i] == 0,
        decreases n - v@.len(),
    {
        v.push(0);
    }
    v
}

} // verus!
