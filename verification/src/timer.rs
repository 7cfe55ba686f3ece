//! Programmable timer: the DIV, TIMA, TMA and TAC registers, advanced one
//! T-cycle at a time; a tick reports whether TIMA overflowed, which the CPU
//! turns into a Timer interrupt request.
use vstd::prelude::*;

use crate::bits::hi8;

verus! {

#[derive(Clone, Copy, Debug, PartialEq, Eq, Structural)]
pub struct Timer {
    /// Total T-cycles seen; debugging aid with no architectural meaning.
    pub ticks: u64,
    /// The full 16-bit divider; software reads its high byte at 0xFF04.
    pub div: u16,
    /// The counting register at 0xFF05.
    pub tima: u8,
    /// The reload value at 0xFF06.
    pub tma: u8,
    /// The control register at 0xFF07.
    pub tac: u8,
}

/// Whether a tick of DIV lands on the divider edge TAC selects: encodings
/// 0b100 to 0b111 divide by 1024, 16, 64 and 256; anything else never
/// counts.
pub open spec fn tima_steps(tac: u8, div: u16) -> bool {
    if tac & 0x07 == 0x05 {
        div & 0x0F == 0
    } else if tac & 0x07 == 0x06 {
        div & 0x3F == 0
    } else if tac & 0x07 == 0x07 {
        div & 0xFF == 0
    } else if tac & 0x07 == 0x04 {
        div & 0x3FF == 0
    } else {
        false
    }
}

/// The timer after one T-cycle: DIV advances (wrapping), and on a selected
/// edge TIMA advances, reloading from TMA when it wraps past 0xFF.
pub open spec fn timer_after_tick(t: Timer) -> Timer {
    let div2 = crate::alu::inc16(t.div);
    let ticks2 = if t.ticks == u64::MAX {
        0u64
    } else {
        (t.ticks + 1) as u64
    };
    if tima_steps(t.tac, div2) {
        if t.tima == 0xFF {
            Timer { ticks: ticks2, div: div2, tima: t.tma, ..t }
        } else {
            Timer { ticks: ticks2, div: div2, tima: (t.tima + 1) as u8, ..t }
        }
    } else {
        Timer { ticks: ticks2, div: div2, ..t }
    }
}

/// The timer after `n` T-cycles.
pub open spec fn timer_after_n(t: Timer, n: nat) -> Timer
    decreases n,
{
    if n == 0 {
        t
    } else {
        timer_after_tick(timer_after_n(t, (n - 1) as nat))
    }
}

/// Tick counts compose: evolving by `a` ticks and then `b` is evolving by
/// `a + b`.
pub proof fn lemma_timer_after_n_add(t: Timer, a: nat, b: nat)
    ensures
        timer_after_n(timer_after_n(t, a), b) == timer_after_n(t, a + b),
    decreases b,
{
    if b > 0 {
        lemma_timer_after_n_add(t, a, (b - 1) as nat);
        assert(timer_after_n(t, a + b) == timer_after_tick(timer_after_n(t, (a + b - 1) as nat)));
        assert(timer_after_n(timer_after_n(t, a), b) == timer_after_tick(
            timer_after_n(timer_after_n(t, a), (b - 1) as nat),
        ));
    }
}

/// Whether one T-cycle makes TIMA wrap from 0xFF to 0x00, which requests a
/// Timer interrupt and reloads TIMA from TMA.
pub open spec fn timer_tick_overflow(t: Timer) -> bool {
    tima_steps(t.tac, crate::alu::inc16(t.div)) && t.tima == 0xFF
}

/// What software reads at the four timer addresses.
pub open spec fn timer_read_spec(t: Timer, address: u16) -> u8 {
    if address == 0xFF04 {
        hi8(t.div)
    } else if address == 0xFF05 {
        t.tima
    } else if address == 0xFF06 {
        t.tma
    } else {
        t.tac
    }
}

/// The timer after a register write: a write to 0xFF04 clears the whole
/// divider; the other three write through.
pub open spec fn timer_write_spec(t: Timer, address: u16, value: u8) -> Timer {
    if address == 0xFF04 {
        Timer { div: 0, ..t }
    } else if address == 0xFF05 {
        Timer { tima: value, ..t }
    } else if address == 0xFF06 {
        Timer { tma: value, ..t }
    } else {
        Timer { tac: value, ..t }
    }
}

impl Timer {
    /// The power-on timer state: DIV starts at 0xABCC.
    pub fn create() -> (r: Timer)
        ensures
            r.ticks == 0,
            r.div == 0xABCC,
            r.tima == 0,
            r.tma == 0,
            r.tac == 0,
    {
        let mut timer = Timer { ticks: 0, div: 0, tima: 0, tma: 0, tac: 0 };
        timer.init();
        timer
    }

    pub fn init(&mut self)
        ensures
            final(self).div == 0xABCC,
            final(self).tima == 0,
            final(self).tma == 0,
            final(self).tac == 0,
            final(self).ticks == old(self).ticks,
    {
        self.div = 0xABCC;
        self.tima = 0;
        self.tma = 0;
        self.tac = 0;
    }

    /// Advance one T-cycle; true exactly when TIMA overflowed.
    pub fn tick(&mut self) -> (r: bool)
        ensures
            *final(self) == timer_after_tick(*old(self)),
            r == timer_tick_overflow(*old(self)),
    {
        self.ticks = self.ticks.wrapping_add(1);
        self.div = self.div.wrapping_add(1);

        let sel = self.tac & 0x07;
        let update: bool = if sel == 0x05 {
            self.div & 0x0F == 0
        } else if sel == 0x06 {
            self.div & 0x3F == 0
        } else if sel == 0x07 {
            self.div & 0xFF == 0
        } else if sel == 0x04 {
            self.div & 0x3FF == 0
        } else {
            false
        };
        if update {
            if self.tima == 0xFF {
                self.tima = self.tma;
                return true;
            }
            self.tima = self.tima + 1;
        }
        false
    }

    /// Read one of the four timer registers; 0xFF04 reads the high byte of
    /// the divider.
    pub fn read(&self, address: u16) -> (r: u8)
        requires
            0xFF04 <= address <= 0xFF07,
        ensures
            r == timer_read_spec(*self, address),
    {
        if address == 0xFF04 {
            (self.div >> 8) as u8
        } else if address == 0xFF05 {
            self.tima
        } else if address == 0xFF06 {
            self.tma
        } else {
            self.tac
        }
    }

    /// Write one of the four timer registers; any write to 0xFF04 clears the
    /// divider to zero.
    pub fn write(&mut self, address: u16, value: u8)
        requires
            0xFF04 <= address <= 0xFF07,
        ensures
            *final(self) == timer_write_spec(*old(self), address, value),
    {
        if address == 0xFF04 {
            self.div = 0;
        } else if address == 0xFF05 {
            self.tima = value;
        } else if address == 0xFF06 {
            self.tma = value;
        } else {
            self.tac = value;
        }
    }
}

/// Whatever byte is written to the divider address, reading it back gives
/// zero.
pub proof fn lemma_div_write_reads_zero(t: Timer, value: u8)
    ensures
        timer_read_spec(timer_write_spec(t, 0xFF04, value), 0xFF04) == 0,
{
    assert(hi8(0u16) == 0) by (bit_vector);
}

} // verus!
