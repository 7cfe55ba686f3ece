//! The CPU's arithmetic/logic core as pure functions from operand bytes and
//! incoming flags to a result byte and an outgoing flag byte. Every flag
//! follows the SM83 semantics: Z is the zero test of the result, N marks
//! subtraction, H is the carry out of bit 3 (or borrow into bit 4), C the
//! carry out of bit 7 (or full borrow).
use vstd::prelude::*;

use crate::bits::{flag_c, flags_byte, pack_flags};

verus! {

/// 8-bit wrapping sum.
pub open spec fn add8(a: u8, d: u8) -> u8 {
    if a + d > 255 {
        (a + d - 256) as u8
    } else {
        (a + d) as u8
    }
}

/// 8-bit wrapping difference.
pub open spec fn sub8(a: u8, d: u8) -> u8 {
    if a - d < 0 {
        (a - d + 256) as u8
    } else {
        (a - d) as u8
    }
}

/// 8-bit wrapping sum with a carry-in.
pub open spec fn adc8(a: u8, d: u8, cy: bool) -> u8 {
    add8(add8(a, d), if cy { 1u8 } else { 0u8 })
}

/// 8-bit wrapping difference with a borrow-in.
pub open spec fn sbc8(a: u8, d: u8, cy: bool) -> u8 {
    sub8(sub8(a, d), if cy { 1u8 } else { 0u8 })
}

/// Successor modulo 256: what INC leaves in an 8-bit register.
pub open spec fn inc8(v: u8) -> u8 {
    add8(v, 1)
}

/// Predecessor modulo 256: what DEC leaves in an 8-bit register.
pub open spec fn dec8(v: u8) -> u8 {
    sub8(v, 1)
}

/// 16-bit wrapping successor.
pub open spec fn inc16(v: u16) -> u16 {
    if v == 0xFFFF {
        0u16
    } else {
        (v + 1) as u16
    }
}

/// 16-bit wrapping predecessor.
pub open spec fn dec16(v: u16) -> u16 {
    if v == 0 {
        0xFFFFu16
    } else {
        (v - 1) as u16
    }
}

/// 16-bit wrapping sum.
pub open spec fn add16(a: u16, d: u16) -> u16 {
    if a + d > 0xFFFF {
        (a + d - 0x10000) as u16
    } else {
        (a + d) as u16
    }
}

/// The signed value of a displacement byte.
pub open spec fn signed8(e: u8) -> int {
    if e < 128 {
        e as int
    } else {
        e - 256
    }
}

/// A 16-bit address displaced by a signed byte, wrapping.
pub open spec fn rel16(base: u16, e: u8) -> u16 {
    if base + signed8(e) < 0 {
        (base + signed8(e) + 0x10000) as u16
    } else if base + signed8(e) > 0xFFFF {
        (base + signed8(e) - 0x10000) as u16
    } else {
        (base + signed8(e)) as u16
    }
}

/// Executable counterpart of `rel16`, used by JR, ADD SP and LD HL,SP+e8.
pub fn rel_addr(base: u16, e: u8) -> (r: u16)
    ensures
        r == rel16(base, e),
{
    proof {
        let i = e as i8;
        assert((e as i8) as int == if e < 128 {
            e as int
        } else {
            e - 256
        }) by (bit_vector);
    }
    base.wrapping_add_signed(e as i8 as i16)
}

/// INC on an 8-bit register: Z from the incremented value, N cleared, H set
/// exactly when the low nibble wrapped to zero, C preserved.
pub fn alu_inc8(v: u8, f: u8) -> (r: (u8, u8))
    ensures
        r.0 == inc8(v),
        r.1 == flags_byte(inc8(v) == 0, false, inc8(v) & 0x0F == 0, flag_c(f)),
        r.1 & 0x0F == 0,
{
    let n = v.wrapping_add(1);
    (n, pack_flags(n == 0, false, n & 0x0F == 0, f & 0x10 != 0))
}

/// DEC on an 8-bit register: Z from the decremented value, N set, H set
/// exactly when the low nibble wrapped to fifteen, C preserved.
pub fn alu_dec8(v: u8, f: u8) -> (r: (u8, u8))
    ensures
        r.0 == dec8(v),
        r.1 == flags_byte(dec8(v) == 0, true, dec8(v) & 0x0F == 0x0F, flag_c(f)),
        r.1 & 0x0F == 0,
{
    let n = v.wrapping_sub(1);
    (n, pack_flags(n == 0, true, n & 0x0F == 0x0F, f & 0x10 != 0))
}

/// ADD A,x.
pub fn alu_add(a: u8, d: u8) -> (r: (u8, u8))
    ensures
        r.0 == add8(a, d),
        r.1 == flags_byte(add8(a, d) == 0, false, (a & 0x0F) + (d & 0x0F) >= 0x10, a + d > 0xFF),
        r.1 & 0x0F == 0,
{
    proof {
        crate::bits::lemma_u8_mask_bounds(a);
        crate::bits::lemma_u8_mask_bounds(d);
    }
    let n = a.wrapping_add(d);
    let h = (a & 0x0F) + (d & 0x0F) >= 0x10;
    let c = n < a;
    (n, pack_flags(n == 0, false, h, c))
}

/// ADC A,x: like ADD with the incoming carry added in.
pub fn alu_adc(a: u8, d: u8, f: u8) -> (r: (u8, u8))
    ensures
        r.0 == adc8(a, d, flag_c(f)),
        r.1 == flags_byte(
            adc8(a, d, flag_c(f)) == 0,
            false,
            (a & 0x0F) + (d & 0x0F) + (if flag_c(f) { 1int } else { 0int }) > 0x0F,
            a + d + (if flag_c(f) { 1int } else { 0int }) > 0xFF,
        ),
        r.1 & 0x0F == 0,
{
    let cy: u8 = if f & 0x10 != 0 {
        1
    } else {
        0
    };
    proof {
        crate::bits::lemma_u8_mask_bounds(a);
        crate::bits::lemma_u8_mask_bounds(d);
    }
    let n = a.wrapping_add(d).wrapping_add(cy);
    let h = (a & 0x0F) + (d & 0x0F) + cy > 0x0F;
    let c = a as u16 + d as u16 + cy as u16 > 0xFF;
    (n, pack_flags(n == 0, false, h, c))
}

/// SUB A,x.
pub fn alu_sub(a: u8, d: u8) -> (r: (u8, u8))
    ensures
        r.0 == sub8(a, d),
        r.1 == flags_byte(sub8(a, d) == 0, true, (a & 0x0F) < (d & 0x0F), a < d),
        r.1 & 0x0F == 0,
{
    let n = a.wrapping_sub(d);
    (n, pack_flags(n == 0, true, (a & 0x0F) < (d & 0x0F), a < d))
}

/// SBC A,x: like SUB with the incoming carry borrowed as well.
pub fn alu_sbc(a: u8, d: u8, f: u8) -> (r: (u8, u8))
    ensures
        r.0 == sbc8(a, d, flag_c(f)),
        r.1 == flags_byte(
            sbc8(a, d, flag_c(f)) == 0,
            true,
            (a & 0x0F) < (d & 0x0F) + (if flag_c(f) { 1int } else { 0int }),
            a < d + (if flag_c(f) { 1int } else { 0int }),
        ),
        r.1 & 0x0F == 0,
{
    let cy: u8 = if f & 0x10 != 0 {
        1
    } else {
        0
    };
    proof {
        crate::bits::lemma_u8_mask_bounds(d);
    }
    let n = a.wrapping_sub(d).wrapping_sub(cy);
    let h = (a & 0x0F) < (d & 0x0F) + cy;
    let c = (a as u16) < d as u16 + cy as u16;
    (n, pack_flags(n == 0, true, h, c))
}

/// CP x: the flags of SUB A,x with A kept.
pub fn alu_cp(a: u8, d: u8) -> (r: u8)
    ensures
        r == flags_byte(a == d, true, (a & 0x0F) < (d & 0x0F), a < d),
        r & 0x0F == 0,
{
    pack_flags(a == d, true, (a & 0x0F) < (d & 0x0F), a < d)
}

/// AND x: H is always set.
pub fn alu_and(a: u8, d: u8) -> (r: (u8, u8))
    ensures
        r.0 == (a & d),
        r.1 == flags_byte((a & d) == 0, false, true, false),
        r.1 & 0x0F == 0,
{
    (a & d, pack_flags((a & d) == 0, false, true, false))
}

/// OR x.
pub fn alu_or(a: u8, d: u8) -> (r: (u8, u8))
    ensures
        r.0 == (a | d),
        r.1 == flags_byte((a | d) == 0, false, false, false),
        r.1 & 0x0F == 0,
{
    (a | d, pack_flags((a | d) == 0, false, false, false))
}

/// XOR x.
pub fn alu_xor(a: u8, d: u8) -> (r: (u8, u8))
    ensures
        r.0 == (a ^ d),
        r.1 == flags_byte((a ^ d) == 0, false, false, false),
        r.1 & 0x0F == 0,
{
    (a ^ d, pack_flags((a ^ d) == 0, false, false, false))
}

/// ADD HL,rr: Z preserved, N cleared, H from bit 11, C from bit 15.
pub fn alu_add_hl(hl: u16, d: u16, f: u8) -> (r: (u16, u8))
    ensures
        r.0 == add16(hl, d),
        r.1 == flags_byte(
            crate::bits::flag_z(f),
            false,
            (hl & 0x0FFF) + (d & 0x0FFF) >= 0x1000,
            hl + d > 0xFFFF,
        ),
        r.1 & 0x0F == 0,
{
    proof {
        crate::bits::lemma_u16_mask_bounds(hl);
        crate::bits::lemma_u16_mask_bounds(d);
    }
    let n = hl.wrapping_add(d);
    let h = (hl & 0x0FFF) + (d & 0x0FFF) >= 0x1000;
    let c = n < hl;
    (n, pack_flags(f & 0x80 != 0, false, h, c))
}

/// The shared flag rule of ADD SP,e8 and LD HL,SP+e8: Z and N cleared, H and
/// C from unsigned addition over the low nibble and low byte of SP.
pub fn alu_sp_rel_flags(sp: u16, e: u8) -> (r: u8)
    ensures
        r == flags_byte(
            false,
            false,
            (sp & 0x0F) + ((e as u16) & 0x0F) >= 0x10,
            (sp & 0xFF) + ((e as u16) & 0xFF) >= 0x100,
        ),
        r & 0x0F == 0,
{
    proof {
        crate::bits::lemma_u16_mask_bounds(sp);
        crate::bits::lemma_u16_mask_bounds(e as u16);
    }
    let h = (sp & 0x0F) + ((e as u16) & 0x0F) >= 0x10;
    let c = (sp & 0xFF) + ((e as u16) & 0xFF) >= 0x100;
    pack_flags(false, false, h, c)
}

/// What DAA leaves in A: the decimal adjustment of the previous arithmetic
/// result, driven by the N, H and C flags.
pub open spec fn daa_a(a: u8, f: u8) -> u8 {
    if crate::bits::flag_n(f) {
        sub8(a, daa_sub_adjust(f))
    } else {
        add8(a, daa_add_adjust(a, f))
    }
}

/// The adjustment byte DAA subtracts after a subtraction.
pub open spec fn daa_sub_adjust(f: u8) -> u8 {
    ((if crate::bits::flag_h(f) { 0x06 } else { 0int }) + (if flag_c(f) { 0x60 } else { 0int })) as u8
}

/// The adjustment byte DAA adds after an addition.
pub open spec fn daa_add_adjust(a: u8, f: u8) -> u8 {
    ((if crate::bits::flag_h(f) || (a & 0x0F) > 9 { 0x06 } else { 0int }) + (if flag_c(f) || a
        > 0x99 { 0x60 } else { 0int })) as u8
}

/// Whether DAA leaves the carry flag set: preserved after a subtraction, and
/// after an addition set exactly when a high-digit adjustment was needed.
pub open spec fn daa_carry(a: u8, f: u8) -> bool {
    if crate::bits::flag_n(f) {
        flag_c(f)
    } else {
        flag_c(f) || a > 0x99
    }
}

/// DAA: Z from the adjusted A, N preserved, H cleared, C per `daa_carry`.
pub fn alu_daa(a: u8, f: u8) -> (r: (u8, u8))
    ensures
        r.0 == daa_a(a, f),
        r.1 == flags_byte(daa_a(a, f) == 0, crate::bits::flag_n(f), false, daa_carry(a, f)),
        r.1 & 0x0F == 0,
{
    let n = f & 0x40 != 0;
    let h = f & 0x20 != 0;
    let mut c = f & 0x10 != 0;
    let new_a: u8;
    if n {
        let mut adjust: u8 = 0;
        if h {
            adjust = 0x06;
        }
        if c {
            adjust += 0x60;
        }
        new_a = a.wrapping_sub(adjust);
    } else {
        let mut adjust: u8 = 0;
        if h || (a & 0x0F) > 9 {
            adjust = 0x06;
        }
        if c || a > 0x99 {
            adjust += 0x60;
            c = true;
        }
        new_a = a.wrapping_add(adjust);
    }
    (new_a, pack_flags(new_a == 0, n, false, c))
}

/// Rotate left, bit 7 into both bit 0 and the carry.
pub open spec fn rlc8(d: u8) -> u8 {
    (d << 1) | (d >> 7)
}

/// Rotate right, bit 0 into both bit 7 and the carry.
pub open spec fn rrc8(d: u8) -> u8 {
    (d >> 1) | (d << 7)
}

/// Rotate left through the carry flag.
pub open spec fn rl8(d: u8, cy: bool) -> u8 {
    (d << 1) | (if cy { 1u8 } else { 0u8 })
}

/// Rotate right through the carry flag.
pub open spec fn rr8(d: u8, cy: bool) -> u8 {
    (d >> 1) | (if cy { 0x80u8 } else { 0u8 })
}

/// Arithmetic shift left.
pub open spec fn sla8(d: u8) -> u8 {
    d << 1
}

/// Arithmetic shift right, keeping the sign bit.
pub open spec fn sra8(d: u8) -> u8 {
    (d >> 1) | (d & 0x80)
}

/// Logical shift right.
pub open spec fn srl8(d: u8) -> u8 {
    d >> 1
}

/// Swap the two nibbles.
pub open spec fn swap8(d: u8) -> u8 {
    ((d & 0xF0) >> 4) | ((d & 0x0F) << 4)
}

/// RLCA/RRCA/RLA/RRA on the A register: like the CB rotates, but Z is always
/// cleared.
pub fn alu_rlca(d: u8) -> (r: (u8, u8))
    ensures
        r.0 == rlc8(d),
        r.1 == flags_byte(false, false, false, d & 0x80 != 0),
        r.1 & 0x0F == 0,
{
    ((d << 1) | (d >> 7), pack_flags(false, false, false, d & 0x80 != 0))
}

pub fn alu_rrca(d: u8) -> (r: (u8, u8))
    ensures
        r.0 == rrc8(d),
        r.1 == flags_byte(false, false, false, d & 0x01 != 0),
        r.1 & 0x0F == 0,
{
    ((d >> 1) | (d << 7), pack_flags(false, false, false, d & 0x01 != 0))
}

pub fn alu_rla(d: u8, f: u8) -> (r: (u8, u8))
    ensures
        r.0 == rl8(d, flag_c(f)),
        r.1 == flags_byte(false, false, false, d & 0x80 != 0),
        r.1 & 0x0F == 0,
{
    let n = (d << 1) | (if f & 0x10 != 0 {
        1u8
    } else {
        0u8
    });
    (n, pack_flags(false, false, false, d & 0x80 != 0))
}

pub fn alu_rra(d: u8, f: u8) -> (r: (u8, u8))
    ensures
        r.0 == rr8(d, flag_c(f)),
        r.1 == flags_byte(false, false, false, d & 0x01 != 0),
        r.1 & 0x0F == 0,
{
    let n = (d >> 1) | (if f & 0x10 != 0 {
        0x80u8
    } else {
        0u8
    });
    (n, pack_flags(false, false, false, d & 0x01 != 0))
}


/// Stepping an 8-bit register up and then down restores its value, for
/// every starting value; the flags need not survive the round trip.
pub proof fn lemma_inc_dec_restores(v: u8)
    ensures
        dec8(inc8(v)) == v,
        inc8(dec8(v)) == v,
{
}

} // verus!
