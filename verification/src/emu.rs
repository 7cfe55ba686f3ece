//! The top-level stepper: repeatedly steps the CPU and drains the serial
//! debug tap that conformance test ROMs print through (a write of 0x81 to
//! the serial control register publishes the data register as one output
//! character).
use vstd::prelude::*;

use crate::cartridge::Cartridge;
use crate::cpu::{wf, CpuContext};
use crate::io::{Serial, IO};

verus! {

pub struct Emu {
    pub cpu: CpuContext,
    /// Every byte the program has printed through the serial debug tap.
    pub serial_out: Vec<u8>,
}

impl Emu {
    /// A powered-on machine around a cartridge, with nothing printed yet.
    pub fn create(cartridge: Cartridge) -> (r: Emu)
        ensures
            wf(r.cpu),
            r.serial_out@.len() == 0,
            r.cpu.registers.pc == 0x0100,
            r.cpu.registers.sp == 0xFFFE,
            r.cpu.registers.a == 0x01,
            r.cpu.registers.f == 0xB0,
            r.cpu.halted == false,
            r.cpu.cartridge == cartridge,
    {
        let mut cpu = CpuContext::create(cartridge);
        cpu.init();
        Emu { cpu, serial_out: Vec::new() }
    }

    /// Drain the serial debug tap once: when the control register reads
    /// 0x81, consume the data register as one output character and clear
    /// the control register; otherwise nothing changes at all.
    pub fn drain_serial(&mut self)
        ensures
            old(self).cpu.io.serial.control == 0x81 ==> final(self).serial_out@ == old(
                self,
            ).serial_out@.push(old(self).cpu.io.serial.data) && final(self).cpu == (CpuContext {
                io: IO { serial: Serial { data: old(self).cpu.io.serial.data, control: 0 } },
                ..old(self).cpu
            }),
            old(self).cpu.io.serial.control != 0x81 ==> *final(self) == *old(self),
    {
        if self.cpu.io.serial.control == 0x81 {
            self.serial_out.push(self.cpu.io.serial.data);
            self.cpu.io.serial.control = 0;
        }
    }

    /// Step at most `max_steps` instructions, draining the serial debug tap
    /// after each step. False when an illegal opcode or STOP ended the run
    /// early; with a step budget of zero nothing happens.
    pub fn run(&mut self, max_steps: u64) -> (r: bool)
        requires
            wf(old(self).cpu),
        ensures
            wf(final(self).cpu),
            final(self).serial_out@.len() >= old(self).serial_out@.len(),
            forall|i: int|
                0 <= i < old(self).serial_out@.len() ==> final(self).serial_out@[i] == old(
                    self,
                ).serial_out@[i],
            max_steps > 0 ==> final(self).cpu.io.serial.control != 0x81,
            max_steps == 0 ==> *final(self) == *old(self) && r == true,
    {
        let mut steps: u64 = 0;
        while steps < max_steps
            invariant
                wf(self.cpu),
                steps <= max_steps,
                steps > 0 ==> self.cpu.io.serial.control != 0x81,
                steps == 0 ==> *self == *old(self),
                self.serial_out@.len() >= old(self).serial_out@.len(),
                forall|i: int|
                    0 <= i < old(self).serial_out@.len() ==> self.serial_out@[i] == old(
                        self,
                    ).serial_out@[i],
            decreases max_steps - steps,
        {
            let ok = self.cpu.step();
            self.drain_serial();
            if !ok {
                return false;
            }
            steps = steps + 1;
        }
        true
    }

    /// The serial output so far, as text: each byte one character.
    pub fn serial_text(&self) -> (s: String)
        ensures
            (forall|i: int| 0 <= i < self.serial_out@.len() ==> self.serial_out@[i] < 0x80)
                ==> s@.len() == self.serial_out@.len() && (forall|i: int|
                0 <= i < self.serial_out@.len() ==> s@[i] == self.serial_out@[i] as char),
    {
        crate::cartridge::bytes_text(&self.serial_out)
    }
}

} // verus!
