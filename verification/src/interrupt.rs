//! Interrupt controller: the IME gate, the IE and IF registers, and the
//! priority selection of the next vector to service.
use vstd::prelude::*;

verus! {

#[derive(Clone, Copy, Debug, PartialEq, Eq, Structural)]
pub enum InterruptKind {
    VBlank,
    LCDStat,
    Timer,
    Serial,
    JoyPad,
}

/// The IF/IE bit of an interrupt source; bit 0 is the highest priority.
pub open spec fn kind_mask(kind: InterruptKind) -> u8 {
    match kind {
        InterruptKind::VBlank => 0x01,
        InterruptKind::LCDStat => 0x02,
        InterruptKind::Timer => 0x04,
        InterruptKind::Serial => 0x08,
        InterruptKind::JoyPad => 0x10,
    }
}

/// The handler vector of the highest-priority set bit of `pending`.
pub open spec fn pending_vector(pending: u8) -> u16 {
    if pending & 0x01 != 0 {
        0x40u16
    } else if pending & 0x02 != 0 {
        0x48u16
    } else if pending & 0x04 != 0 {
        0x50u16
    } else if pending & 0x08 != 0 {
        0x58u16
    } else {
        0x60u16
    }
}

/// The IF bit that servicing the highest-priority set bit of `pending`
/// clears.
pub open spec fn pending_mask(pending: u8) -> u8 {
    if pending & 0x01 != 0 {
        0x01u8
    } else if pending & 0x02 != 0 {
        0x02u8
    } else if pending & 0x04 != 0 {
        0x04u8
    } else if pending & 0x08 != 0 {
        0x08u8
    } else {
        0x10u8
    }
}

#[derive(Clone, Copy, Debug, PartialEq, Eq, Structural)]
pub struct Interrupt {
    /// IME: the master gate on dispatch.
    pub master_enabled: bool,
    /// IE, at address 0xFFFF; bit i enables source i.
    pub enable: u8,
    /// IF, at address 0xFF0F; bit i requests source i.
    pub flag: u8,
}

impl Interrupt {
    pub fn create() -> (r: Interrupt)
        ensures
            r.master_enabled == false,
            r.enable == 0,
            r.flag == 0,
    {
        Interrupt { master_enabled: false, enable: 0, flag: 0 }
    }

    /// Select the highest-priority pending interrupt, clear its IF bit and
    /// drop IME; `None` exactly when nothing enabled is pending. IF and IE
    /// store whole bytes, so bits above the five architected sources can be
    /// pending; the selector treats any such residue as the lowest-priority
    /// source, as `pending_vector` and `pending_mask` spell out.
    pub fn handle_interrupts(&mut self) -> (r: Option<u16>)
        ensures
            final(self).enable == old(self).enable,
            old(self).flag & old(self).enable == 0 ==> r is None && *final(self) == *old(self),
            old(self).flag & old(self).enable != 0 ==> {
                &&& r == Some(pending_vector(old(self).flag & old(self).enable))
                &&& final(self).flag == (old(self).flag & !pending_mask(
                    old(self).flag & old(self).enable,
                ))
                &&& final(self).master_enabled == false
            },
    {
        let pending = self.flag & self.enable;
        if pending == 0 {
            return None;
        }
        let (mask, address): (u8, u16) = if pending & 0x01 != 0 {
            (0x01, 0x40)
        } else if pending & 0x02 != 0 {
            (0x02, 0x48)
        } else if pending & 0x04 != 0 {
            (0x04, 0x50)
        } else if pending & 0x08 != 0 {
            (0x08, 0x58)
        } else {
            (0x10, 0x60)
        };
        self.flag = self.flag & !mask;
        self.master_enabled = false;
        Some(address)
    }

    /// Set the request bit of one source in IF.
    pub fn request_interrupt(&mut self, kind: InterruptKind)
        ensures
            final(self).flag == (old(self).flag | kind_mask(kind)),
            final(self).enable == old(self).enable,
            final(self).master_enabled == old(self).master_enabled,
    {
        let mask: u8 = match kind {
            InterruptKind::VBlank => 0x01,
            InterruptKind::LCDStat => 0x02,
            InterruptKind::Timer => 0x04,
            InterruptKind::Serial => 0x08,
            InterruptKind::JoyPad => 0x10,
        };
        self.flag = self.flag | mask;
    }
}

/// With every source enabled and requested, VBlank is serviced first; with
/// VBlank quiet, LCDStat; then Timer, Serial and JoyPad in that order.
pub proof fn lemma_interrupt_priority(pending: u8)
    ensures
        pending & 0x01 != 0 ==> pending_vector(pending) == 0x40,
        pending & 0x01 == 0 && pending & 0x02 != 0 ==> pending_vector(pending) == 0x48,
        pending & 0x03 == 0 && pending & 0x04 != 0 ==> pending_vector(pending) == 0x50,
        pending & 0x07 == 0 && pending & 0x08 != 0 ==> pending_vector(pending) == 0x58,
        pending & 0x0F == 0 && pending & 0x10 != 0 ==> pending_vector(pending) == 0x60,
{
    assert(pending & 0x03 == 0 ==> pending & 0x01 == 0 && pending & 0x02 == 0) by (bit_vector);
    assert(pending & 0x07 == 0 ==> pending & 0x01 == 0 && pending & 0x02 == 0 && pending & 0x04
        == 0) by (bit_vector);
    assert(pending & 0x0F == 0 ==> pending & 0x01 == 0 && pending & 0x02 == 0 && pending & 0x04
        == 0 && pending & 0x08 == 0) by (bit_vector);
}

} // verus!
