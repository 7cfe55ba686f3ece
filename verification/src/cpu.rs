//! The SM83 CPU: the register file, the memory bus that dispatches to the
//! cartridge, RAMs, timer, interrupt controller and PPU, the per-T-cycle
//! peripheral advance, and the fetch/decode/execute step.
use vstd::prelude::*;

use crate::alu::{adc8, add16, add8, dec16, dec8, inc16, inc8, rel16, sbc8, sub8};
use crate::bits::{concat16, flag_c, flag_z, flags_byte, hi8, lo8};
use crate::cartridge::{cart_read_spec, Cartridge};
use crate::instruction::{
    instr_ok, ld_left_ok, primary_op, spec_is_reg_16, AddressingMode, CBInstruction, Condition,
    Instruction, Register,
};
use crate::interrupt::Interrupt;
use crate::io::{io_read_spec, io_write_spec, IO};
use crate::ppu::{dma_after_tick, dma_transfer, oam_read_spec, ppu_reg_read_spec, ppu_wf, palette_table, DMA, PPU};
use crate::ram::RAM;
use crate::timer::{timer_after_tick, timer_read_spec, timer_tick_overflow, timer_write_spec, Timer};

verus! {

/// The CPU register file.
#[derive(Clone, Copy, Debug, PartialEq, Eq, Structural)]
pub struct Registers {
    pub a: u8,
    pub f: u8,
    pub b: u8,
    pub c: u8,
    pub d: u8,
    pub e: u8,
    pub h: u8,
    pub l: u8,
    pub pc: u16,
    pub sp: u16,
}

/// The value of an 8-bit register selector.
pub open spec fn read8_spec(r: Registers, reg: Register) -> u8 {
    match reg {
        Register::A => r.a,
        Register::F => r.f,
        Register::B => r.b,
        Register::C => r.c,
        Register::D => r.d,
        Register::E => r.e,
        Register::H => r.h,
        Register::L => r.l,
        _ => 0u8,
    }
}

/// The value of a 16-bit register selector: the pairs compose their halves
/// high byte first.
pub open spec fn read16_spec(r: Registers, reg: Register) -> u16 {
    match reg {
        Register::AF => concat16(r.a, r.f),
        Register::BC => concat16(r.b, r.c),
        Register::DE => concat16(r.d, r.e),
        Register::HL => concat16(r.h, r.l),
        Register::PC => r.pc,
        Register::SP => r.sp,
        _ => 0u16,
    }
}

/// The register file after writing a selector: an 8-bit target takes the low
/// byte, a pair splits the value into its halves.
pub open spec fn write_reg_spec(r: Registers, reg: Register, value: u16) -> Registers {
    match reg {
        Register::A => Registers { a: lo8(value), ..r },
        Register::F => Registers { f: lo8(value), ..r },
        Register::B => Registers { b: lo8(value), ..r },
        Register::C => Registers { c: lo8(value), ..r },
        Register::D => Registers { d: lo8(value), ..r },
        Register::E => Registers { e: lo8(value), ..r },
        Register::H => Registers { h: lo8(value), ..r },
        Register::L => Registers { l: lo8(value), ..r },
        Register::AF => Registers { a: hi8(value), f: lo8(value), ..r },
        Register::BC => Registers { b: hi8(value), c: lo8(value), ..r },
        Register::DE => Registers { d: hi8(value), e: lo8(value), ..r },
        Register::HL => Registers { h: hi8(value), l: lo8(value), ..r },
        Register::PC => Registers { pc: value, ..r },
        Register::SP => Registers { sp: value, ..r },
    }
}

/// Whether a condition code passes under a flag byte.
pub open spec fn cond_spec(cond: Condition, f: u8) -> bool {
    match cond {
        Condition::Always => true,
        Condition::C => flag_c(f),
        Condition::NC => !flag_c(f),
        Condition::Z => flag_z(f),
        Condition::NZ => !flag_z(f),
    }
}

/// The data an operand in register or register-pointer mode names, as either
/// register value or memory address: an 8-bit register points into the high
/// page.
pub open spec fn mr_addr_spec(r: Registers, reg: Register) -> u16 {
    if spec_is_reg_16(reg) {
        read16_spec(r, reg)
    } else {
        (0xFF00 + read8_spec(r, reg)) as u16
    }
}

/// The CPU and every peripheral it drives, as one synchronous machine.
pub struct CpuContext {
    pub registers: Registers,
    pub halted: bool,
    /// Debugging aid with no behavioral effect.
    pub stepping: bool,
    /// Latches EI's one-instruction delay before IME turns on.
    pub enabling_ime: bool,
    pub interrupt: Interrupt,
    pub timer: Timer,
    pub ppu: PPU,
    pub cartridge: Cartridge,
    pub wram: RAM,
    pub hram: RAM,
    pub io: IO,
}

/// What holds of the machine between T-cycles: peripheral well-formedness,
/// RAM sizes, and the flag register's low nibble clear.
pub open spec fn wf(s: CpuContext) -> bool {
    &&& s.wram.data@.len() == 0x2000
    &&& s.hram.data@.len() == 0x80
    &&& ppu_wf(s.ppu)
    &&& s.registers.f & 0x0F == 0
}

/// The bus read dispatch of the whole machine.
pub open spec fn bus_read_spec(s: CpuContext, address: u16) -> u8 {
    if address < 0x8000 || (0xA000 <= address && address < 0xC000) {
        cart_read_spec(s.cartridge.data@, address)
    } else if address < 0xA000 {
        s.ppu.vram@[address - 0x8000]
    } else if address < 0xE000 {
        s.wram.data@[address - 0xC000]
    } else if 0xFE00 <= address && address < 0xFEA0 {
        oam_read_spec(s.ppu, address)
    } else if address == 0xFF01 || address == 0xFF02 {
        io_read_spec(s.io, address)
    } else if 0xFF04 <= address && address <= 0xFF07 {
        timer_read_spec(s.timer, address)
    } else if address == 0xFF0F {
        s.interrupt.flag
    } else if 0xFF40 <= address && address <= 0xFF4B {
        ppu_reg_read_spec(s.ppu, address)
    } else if 0xFF80 <= address && address <= 0xFFFE {
        s.hram.data@[address - 0xFF80]
    } else if address == 0xFFFF {
        s.interrupt.enable
    } else {
        0u8
    }
}

/// Addresses whose bus reads the peripheral ticks can never change: all but
/// the timer registers, IF, the PPU registers and OAM.
pub open spec fn tick_stable_addr(address: u16) -> bool {
    &&& !(0xFF04 <= address && address <= 0xFF07)
    &&& address != 0xFF0F
    &&& !(0xFF40 <= address && address <= 0xFF4B)
    &&& !(0xFE00 <= address && address < 0xFEA0)
}

/// What one bus write does, by region. LY is read-only; a write to 0xFF46
/// arms DMA; unusable and unmapped addresses drop the write.
pub open spec fn bus_written(s0: CpuContext, s1: CpuContext, address: u16, value: u8) -> bool {
    &&& (address < 0x8000 || (0xA000 <= address && address < 0xC000) || (0xE000 <= address
        && address < 0xFE00) || (0xFEA0 <= address && address < 0xFF00) || (address >= 0xFF00
        && address <= 0xFF7F && !word_mapped_io(address)) || address == 0xFF44) ==> unchanged_state(
        s0,
        s1,
    )
    &&& (0x8000 <= address && address < 0xA000) ==> s1.ppu.vram@ == s0.ppu.vram@.update(
        address - 0x8000,
        value,
    ) && s1 == (CpuContext { ppu: s1.ppu, ..s0 }) && s1.ppu == (PPU {
        vram: s1.ppu.vram,
        debug_screen: s1.ppu.debug_screen,
        ..s0.ppu
    })
    &&& (0xC000 <= address && address < 0xE000) ==> s1.wram.data@ == s0.wram.data@.update(
        address - 0xC000,
        value,
    ) && s1 == (CpuContext { wram: s1.wram, ..s0 })
    &&& (0xFE00 <= address && address < 0xFEA0) ==> s1 == (CpuContext { ppu: s1.ppu, ..s0 }) && (
    s0.ppu.dma.active ==> s1.ppu == s0.ppu) && (!s0.ppu.dma.active ==> s1.ppu == (PPU {
        oam_ram: s1.ppu.oam_ram,
        ..s0.ppu
    }) && s1.ppu.oam_ram@ == s0.ppu.oam_ram@.update(address - 0xFE00, value))
    &&& (address == 0xFF01 || address == 0xFF02) ==> s1 == (CpuContext {
        io: io_write_spec(s0.io, address, value),
        ..s0
    })
    &&& (0xFF04 <= address && address <= 0xFF07) ==> s1 == (CpuContext {
        timer: timer_write_spec(s0.timer, address, value),
        ..s0
    })
    &&& address == 0xFF0F ==> s1 == (CpuContext {
        interrupt: Interrupt { flag: value, ..s0.interrupt },
        ..s0
    })
    &&& (0xFF40 <= address && address <= 0xFF4B && address != 0xFF44) ==> s1 == (CpuContext {
        ppu: s1.ppu,
        ..s0
    }) && ppu_reg_written(s0.ppu, s1.ppu, address, value)
    &&& (0xFF80 <= address && address <= 0xFFFE) ==> s1.hram.data@ == s0.hram.data@.update(
        address - 0xFF80,
        value,
    ) && s1 == (CpuContext { hram: s1.hram, ..s0 })
    &&& address == 0xFFFF ==> s1 == (CpuContext {
        interrupt: Interrupt { enable: value, ..s0.interrupt },
        ..s0
    })
}

/// The I/O addresses in 0xFF00-0xFF7F that are backed by a register.
pub open spec fn word_mapped_io(address: u16) -> bool {
    ||| address == 0xFF01
    ||| address == 0xFF02
    ||| (0xFF04 <= address && address <= 0xFF07)
    ||| address == 0xFF0F
    ||| (0xFF40 <= address && address <= 0xFF4B)
}

pub open spec fn unchanged_state(s0: CpuContext, s1: CpuContext) -> bool {
    &&& s1.registers == s0.registers
    &&& s1.halted == s0.halted
    &&& s1.stepping == s0.stepping
    &&& s1.enabling_ime == s0.enabling_ime
    &&& s1.interrupt == s0.interrupt
    &&& s1.timer == s0.timer
    &&& s1.ppu.vram@ == s0.ppu.vram@
    &&& s1.ppu.oam_ram@ == s0.ppu.oam_ram@
    &&& s1.ppu.dma == s0.ppu.dma
    &&& s1.ppu.current_frame == s0.ppu.current_frame
    &&& s1.ppu.line_ticks == s0.ppu.line_ticks
    &&& s1.ppu.lcd.control == s0.ppu.lcd.control
    &&& s1.ppu.lcd.status == s0.ppu.lcd.status
    &&& s1.ppu.lcd.scroll_x == s0.ppu.lcd.scroll_x
    &&& s1.ppu.lcd.scroll_y == s0.ppu.lcd.scroll_y
    &&& s1.ppu.lcd.ly == s0.ppu.lcd.ly
    &&& s1.ppu.lcd.ly_compare == s0.ppu.lcd.ly_compare
    &&& s1.ppu.lcd.bg_palette == s0.ppu.lcd.bg_palette
    &&& s1.ppu.lcd.obj_palette0 == s0.ppu.lcd.obj_palette0
    &&& s1.ppu.lcd.obj_palette1 == s0.ppu.lcd.obj_palette1
    &&& s1.ppu.lcd.window_x == s0.ppu.lcd.window_x
    &&& s1.ppu.lcd.window_y == s0.ppu.lcd.window_y
    &&& s1.cartridge == s0.cartridge
    &&& s1.wram == s0.wram
    &&& s1.hram == s0.hram
    &&& s1.io == s0.io
}

/// What a PPU register write leaves behind, register by register.
pub open spec fn ppu_reg_written(p0: PPU, p1: PPU, address: u16, value: u8) -> bool {
    &&& p1.oam_ram == p0.oam_ram
    &&& p1.vram == p0.vram
    &&& p1.video_buffer == p0.video_buffer
    &&& p1.debug_screen == p0.debug_screen
    &&& p1.debug_enabled == p0.debug_enabled
    &&& p1.line_ticks == p0.line_ticks
    &&& p1.current_frame == p0.current_frame
    &&& p1.lcd.ly == p0.lcd.ly
    &&& (address != 0xFF40 ==> p1.lcd.control == p0.lcd.control)
    &&& (address != 0xFF41 ==> p1.lcd.status == p0.lcd.status)
    &&& (address != 0xFF42 ==> p1.lcd.scroll_y == p0.lcd.scroll_y)
    &&& (address != 0xFF43 ==> p1.lcd.scroll_x == p0.lcd.scroll_x)
    &&& (address != 0xFF45 ==> p1.lcd.ly_compare == p0.lcd.ly_compare)
    &&& (address != 0xFF47 ==> p1.lcd.bg_palette == p0.lcd.bg_palette && p1.lcd.bg_colors
        == p0.lcd.bg_colors)
    &&& (address != 0xFF48 ==> p1.lcd.obj_palette0 == p0.lcd.obj_palette0 && p1.lcd.sp1_colors
        == p0.lcd.sp1_colors)
    &&& (address != 0xFF49 ==> p1.lcd.obj_palette1 == p0.lcd.obj_palette1 && p1.lcd.sp2_colors
        == p0.lcd.sp2_colors)
    &&& (address != 0xFF4A ==> p1.lcd.window_y == p0.lcd.window_y)
    &&& (address != 0xFF4B ==> p1.lcd.window_x == p0.lcd.window_x)
    &&& (address == 0xFF40 ==> p1.lcd.control == value)
    &&& (address == 0xFF41 ==> p1.lcd.status == value)
    &&& (address == 0xFF42 ==> p1.lcd.scroll_y == value)
    &&& (address == 0xFF43 ==> p1.lcd.scroll_x == value)
    &&& (address == 0xFF45 ==> p1.lcd.ly_compare == value)
    &&& (address == 0xFF46 ==> p1.dma == (DMA { active: true, byte: 0, start_delay: 2, value }))
    &&& (address != 0xFF46 ==> p1.dma == p0.dma)
    &&& (address == 0xFF47 ==> p1.lcd.bg_palette == value && p1.lcd.bg_colors@ == palette_table(
        value,
    ))
    &&& (address == 0xFF48 ==> p1.lcd.obj_palette0 == value && p1.lcd.sp1_colors@ == palette_table(
        value & 0xFC,
    ))
    &&& (address == 0xFF49 ==> p1.lcd.obj_palette1 == value && p1.lcd.sp2_colors@ == palette_table(
        value & 0xFC,
    ))
    &&& (address == 0xFF4A ==> p1.lcd.window_y == value)
    &&& (address == 0xFF4B ==> p1.lcd.window_x == value)
}

/// The frame of the peripheral ticks: what `emu_cycles` can never change,
/// plus IF only ever gaining bits and stable bus reads staying put.
pub open spec fn ticks_frame(s0: CpuContext, s1: CpuContext) -> bool {
    &&& s1.registers == s0.registers
    &&& s1.halted == s0.halted
    &&& s1.stepping == s0.stepping
    &&& s1.enabling_ime == s0.enabling_ime
    &&& s1.cartridge == s0.cartridge
    &&& s1.wram == s0.wram
    &&& s1.hram == s0.hram
    &&& s1.io == s0.io
    &&& s1.ppu.vram@ == s0.ppu.vram@
    &&& s1.ppu.debug_screen@ == s0.ppu.debug_screen@
    &&& s1.ppu.debug_enabled == s0.ppu.debug_enabled
    &&& s1.interrupt.enable == s0.interrupt.enable
    &&& s1.interrupt.master_enabled == s0.interrupt.master_enabled
    &&& s1.interrupt.flag & s0.interrupt.flag == s0.interrupt.flag
    &&& (!s0.ppu.dma.active ==> s1.ppu.oam_ram@ == s0.ppu.oam_ram@ && !s1.ppu.dma.active)
    &&& (forall|a: u16|
        tick_stable_addr(a) ==> bus_read_spec(s1, a) == bus_read_spec(s0, a))
}

/// IF after one T-cycle of peripheral requests: a TIMA overflow raises the
/// Timer bit, and the PPU's VBlank and LCDStat requests merge in.
pub open spec fn irq_after_tick(t: Timer, p: PPU, iflag: u8) -> u8 {
    (if timer_tick_overflow(t) {
        iflag | 0x04
    } else {
        iflag
    }) | crate::ppu::ppu_tick_irqs(p)
}

/// IF after `n` T-cycles of peripheral requests, the timer and PPU evolving
/// in lockstep.
pub open spec fn irq_after_n(t: Timer, p: PPU, iflag: u8, n: nat) -> u8
    decreases n,
{
    if n == 0 {
        iflag
    } else {
        irq_after_tick(
            crate::timer::timer_after_n(t, (n - 1) as nat),
            crate::ppu::ppu_after_n(p, (n - 1) as nat),
            irq_after_n(t, p, iflag, (n - 1) as nat),
        )
    }
}

/// IF evolution composes: running `a` ticks and then `b` from where they
/// left off is running `a + b`.
proof fn lemma_irq_after_n_add(t: Timer, p: PPU, f: u8, a: nat, b: nat)
    ensures
        irq_after_n(t, p, f, a + b) == irq_after_n(
            crate::timer::timer_after_n(t, a),
            crate::ppu::ppu_after_n(p, a),
            irq_after_n(t, p, f, a),
            b,
        ),
    decreases b,
{
    if b > 0 {
        lemma_irq_after_n_add(t, p, f, a, (b - 1) as nat);
        crate::timer::lemma_timer_after_n_add(t, a, (b - 1) as nat);
        crate::ppu::lemma_ppu_after_n_add(p, a, (b - 1) as nat);
    }
}

/// IF evolution reads only the video side of the PPU.
proof fn lemma_irq_after_n_video_eq(t: Timer, p1: PPU, p2: PPU, f: u8, n: nat)
    requires
        crate::ppu::ppu_video_eq(p1, p2),
    ensures
        irq_after_n(t, p1, f, n) == irq_after_n(t, p2, f, n),
    decreases n,
{
    if n > 0 {
        lemma_irq_after_n_video_eq(t, p1, p2, f, (n - 1) as nat);
        crate::ppu::lemma_ppu_after_n_video_eq(p1, p2, (n - 1) as nat);
        crate::ppu::lemma_ppu_tick_video_eq(
            crate::ppu::ppu_after_n(p1, (n - 1) as nat),
            crate::ppu::ppu_after_n(p2, (n - 1) as nat),
        );
    }
}

/// `ticks_frame` is reflexive: in particular IF keeps its own bits.
proof fn lemma_ticks_frame_refl(s: CpuContext)
    ensures
        ticks_frame(s, s),
{
    let x = s.interrupt.flag;
    assert(x & x == x) by (bit_vector);
}

impl CpuContext {
    /// The machine around a cartridge, before power-on initialisation: the
    /// register file zeroed and the CPU halted.
    pub fn create(cartridge: Cartridge) -> (r: CpuContext)
        ensures
            wf(r),
            r.registers == (Registers { a: 0, f: 0, b: 0, c: 0, d: 0, e: 0, h: 0, l: 0, pc: 0, sp: 0 }),
            r.halted == true,
            r.stepping == false,
            r.enabling_ime == false,
            r.interrupt == (Interrupt { master_enabled: false, enable: 0, flag: 0 }),
            r.timer.div == 0xABCC && r.timer.tima == 0 && r.timer.tma == 0 && r.timer.tac == 0,
            r.cartridge == cartridge,
            r.io.serial.data == 0 && r.io.serial.control == 0,
            r.ppu.lcd.control == 0x91 && r.ppu.lcd.status == 2 && r.ppu.lcd.ly == 0,
            r.ppu.line_ticks == 0 && r.ppu.current_frame == 0,
            !r.ppu.dma.active,
            forall|i: int| 0 <= i < 0x2000 ==> r.wram.data@[i] == 0,
            forall|i: int| 0 <= i < 0x80 ==> r.hram.data@[i] == 0,
            forall|i: int| 0 <= i < 0x2000 ==> r.ppu.vram@[i] == 0,
            forall|i: int| 0 <= i < 0xA0 ==> r.ppu.oam_ram@[i] == 0,
    {
        let r = CpuContext {
            registers: Registers { a: 0, f: 0, b: 0, c: 0, d: 0, e: 0, h: 0, l: 0, pc: 0, sp: 0 },
            halted: true,
            stepping: false,
            enabling_ime: false,
            interrupt: Interrupt::create(),
            timer: Timer::create(),
            ppu: PPU::create(),
            cartridge,
            wram: RAM::create(0x2000),
            hram: RAM::create(0x80),
            io: IO::create(),
        };
        proof {
            crate::bits::lemma_u8_mask_bounds(0);
            assert(0u8 & 0x0F == 0) by (bit_vector);
        }
        r
    }

    /// Power-on register values (as the boot ROM leaves them), and the CPU
    /// running.
    pub fn init(&mut self)
        requires
            wf(*old(self)),
        ensures
            wf(*final(self)),
            final(self).registers == (Registers {
                a: 0x01,
                f: 0xB0,
                b: 0x00,
                c: 0x13,
                d: 0x00,
                e: 0xD8,
                h: 0x01,
                l: 0x4D,
                pc: 0x0100,
                sp: 0xFFFE,
            }),
            final(self).halted == false,
            *final(self) == (CpuContext {
                registers: final(self).registers,
                halted: false,
                ..*old(self)
            }),
    {
        self.registers.a = 0x01;
        self.registers.f = 0xB0;
        self.registers.b = 0x00;
        self.registers.c = 0x13;
        self.registers.d = 0x00;
        self.registers.e = 0xD8;
        self.registers.h = 0x01;
        self.registers.l = 0x4D;
        self.registers.pc = 0x0100;
        self.registers.sp = 0xFFFE;
        self.halted = false;
        proof {
            assert(0xB0u8 & 0x0F == 0) by (bit_vector);
        }
    }

    /// Dispatch a read over the memory map.
    pub fn read_bus(&self, address: u16) -> (r: u8)
        requires
            wf(*self),
        ensures
            r == bus_read_spec(*self, address),
    {
        if address < 0x8000 || (0xA000 <= address && address < 0xC000) {
            self.cartridge.read(address)
        } else if address < 0xA000 {
            self.ppu.vram_read(address)
        } else if address < 0xE000 {
            self.wram.read(address - 0xC000)
        } else if 0xFE00 <= address && address < 0xFEA0 {
            self.ppu.oam_read(address)
        } else if address == 0xFF01 || address == 0xFF02 {
            self.io.read(address)
        } else if 0xFF04 <= address && address <= 0xFF07 {
            self.timer.read(address)
        } else if address == 0xFF0F {
            self.interrupt.flag
        } else if 0xFF40 <= address && address <= 0xFF4B {
            self.ppu.registers_read(address)
        } else if 0xFF80 <= address && address <= 0xFFFE {
            self.hram.read(address - 0xFF80)
        } else if address == 0xFFFF {
            self.interrupt.enable
        } else {
            0
        }
    }

    /// Dispatch a write over the memory map.
    pub fn write_bus(&mut self, address: u16, value: u8)
        requires
            wf(*old(self)),
        ensures
            wf(*final(self)),
            bus_written(*old(self), *final(self), address, value),
            final(self).registers == old(self).registers,
            final(self).halted == old(self).halted,
            final(self).stepping == old(self).stepping,
            final(self).enabling_ime == old(self).enabling_ime,
            final(self).interrupt.master_enabled == old(self).interrupt.master_enabled,
            final(self).cartridge == old(self).cartridge,
            !(0xFF04 <= address && address <= 0xFF07) ==> final(self).timer == old(self).timer,
            address != 0xFF0F ==> final(self).interrupt.flag == old(self).interrupt.flag,
            address != 0xFFFF ==> final(self).interrupt.enable == old(self).interrupt.enable,
            forall|a: u16|
                tick_stable_addr(a) && a != address ==> bus_read_spec(*final(self), a)
                    == bus_read_spec(*old(self), a),
    {
        if address < 0x8000 || (0xA000 <= address && address < 0xC000) {
            self.cartridge.write(address, value);
        } else if address < 0xA000 {
            self.ppu.vram_write(address, value);
        } else if address < 0xE000 {
            self.wram.write(address - 0xC000, value);
        } else if 0xFE00 <= address && address < 0xFEA0 {
            self.ppu.oam_write(address, value);
        } else if address == 0xFF01 || address == 0xFF02 {
            self.io.write(address, value);
        } else if 0xFF04 <= address && address <= 0xFF07 {
            self.timer.write(address, value);
        } else if address == 0xFF0F {
            self.interrupt.flag = value;
        } else if 0xFF40 <= address && address <= 0xFF4B {
            if address != 0xFF44 {
                self.ppu.registers_write(address, value);
            }
        } else if 0xFF80 <= address && address <= 0xFFFE {
            self.hram.write(address - 0xFF80, value);
        } else if address == 0xFFFF {
            self.interrupt.enable = value;
        }
    }

    /// Advance every peripheral by `4 * cycles` T-cycles: each T-cycle ticks
    /// the timer (requesting a Timer interrupt on overflow), the PPU mode
    /// machine (merging its requests into IF), and the DMA engine, which
    /// copies one byte from the bus into OAM.
    pub fn emu_cycles(&mut self, cycles: u8)
        requires
            wf(*old(self)),
        ensures
            wf(*final(self)),
            ticks_frame(*old(self), *final(self)),
            final(self).timer == crate::timer::timer_after_n(
                old(self).timer,
                (4 * cycles) as nat,
            ),
            final(self).interrupt.flag == irq_after_n(
                old(self).timer,
                old(self).ppu,
                old(self).interrupt.flag,
                (4 * cycles) as nat,
            ),
            final(self).ppu == (PPU {
                dma: final(self).ppu.dma,
                oam_ram: final(self).ppu.oam_ram,
                ..crate::ppu::ppu_after_n(old(self).ppu, (4 * cycles) as nat)
            }),
            !old(self).ppu.dma.active ==> final(self).ppu == crate::ppu::ppu_after_n(
                old(self).ppu,
                (4 * cycles) as nat,
            ),
    {
        let n: u16 = (cycles as u16) * 4;
        let mut i: u16 = 0;
        proof {
            lemma_ticks_frame_refl(*self);
        }
        while i < n
            invariant
                wf(*self),
                i <= n,
                ticks_frame(*old(self), *self),
                self.timer == crate::timer::timer_after_n(old(self).timer, i as nat),
                self.interrupt.flag == irq_after_n(
                    old(self).timer,
                    old(self).ppu,
                    old(self).interrupt.flag,
                    i as nat,
                ),
                self.ppu == (PPU {
                    dma: self.ppu.dma,
                    oam_ram: self.ppu.oam_ram,
                    ..crate::ppu::ppu_after_n(old(self).ppu, i as nat)
                }),
                !old(self).ppu.dma.active ==> self.ppu == crate::ppu::ppu_after_n(
                    old(self).ppu,
                    i as nat,
                ),
            decreases n - i,
        {
            let ghost prev = *self;
            self.one_t_cycle();
            proof {
                lemma_ticks_frame_trans(*old(self), prev, *self);
                crate::ppu::lemma_ppu_tick_video(
                    prev.ppu,
                    crate::ppu::ppu_after_n(old(self).ppu, i as nat),
                );
            }
            i = i + 1;
        }
    }

    /// One T-cycle of peripheral time: the timer and the PPU mode machine
    /// advance by their transition functions, their interrupt requests merge
    /// into IF, and an active DMA engine past its warm-up copies the bus
    /// byte at its source address into the OAM slot under its cursor.
    pub fn one_t_cycle(&mut self)
        requires
            wf(*old(self)),
        ensures
            wf(*final(self)),
            ticks_frame(*old(self), *final(self)),
            final(self).timer == timer_after_tick(old(self).timer),
            final(self).interrupt.flag == irq_after_tick(
                old(self).timer,
                old(self).ppu,
                old(self).interrupt.flag,
            ),
            final(self).ppu == (PPU {
                dma: final(self).ppu.dma,
                oam_ram: final(self).ppu.oam_ram,
                ..crate::ppu::ppu_after_tick(old(self).ppu)
            }),
            final(self).ppu.dma == dma_after_tick(old(self).ppu.dma),
            dma_transfer(old(self).ppu.dma) is None ==> final(self).ppu.oam_ram@ == old(self).ppu.oam_ram@,
            dma_transfer(old(self).ppu.dma) matches Some(t) ==> (tick_stable_addr(t.0)
                ==> final(self).ppu.oam_ram@ == old(self).ppu.oam_ram@.update(
                t.1 as int,
                bus_read_spec(*old(self), t.0),
            )),
            !old(self).ppu.dma.active ==> final(self).ppu == crate::ppu::ppu_after_tick(
                old(self).ppu,
            ),
    {
        let ghost s0 = *self;
        if self.timer.tick() {
            self.interrupt.request_interrupt(crate::interrupt::InterruptKind::Timer);
        }
        let ghost s1 = *self;
        proof {
            let f0 = s0.interrupt.flag;
            let f1 = s1.interrupt.flag;
            assert(f1 & f0 == f0) by (bit_vector)
                requires
                    f1 == f0 || f1 == (f0 | 0x04),
            ;
            assert(ticks_frame(s0, s1)) by {
                assert forall|a: u16| tick_stable_addr(a) implies bus_read_spec(s1, a)
                    == bus_read_spec(s0, a) by {}
            }
        }
        let irqs = self.ppu.tick();
        self.interrupt.flag = self.interrupt.flag | irqs;
        let ghost s2 = *self;
        proof {
            lemma_irqs_bound(s1.ppu);
            let f1 = s1.interrupt.flag;
            let f2 = s2.interrupt.flag;
            assert(f2 & f1 == f1) by (bit_vector)
                requires
                    f2 == (f1 | 0x00) || f2 == (f1 | 0x01) || f2 == (f1 | 0x02) || f2 == (f1
                        | 0x03),
            ;
            assert(ticks_frame(s1, s2)) by {
                assert forall|a: u16| tick_stable_addr(a) implies bus_read_spec(s2, a)
                    == bus_read_spec(s1, a) by {}
            }
            lemma_ticks_frame_trans(s0, s1, s2);
        }
        let transfer = self.ppu.dma_tick();
        let ghost s3 = *self;
        proof {
            lemma_ticks_frame_refl(s2);
            assert(ticks_frame(s2, s3)) by {
                assert forall|a: u16| tick_stable_addr(a) implies bus_read_spec(s3, a)
                    == bus_read_spec(s2, a) by {}
            }
            lemma_ticks_frame_trans(s0, s2, s3);
        }
        match transfer {
            Some((from, to)) => {
                let data = self.read_bus(from);
                self.ppu.oam_dma_write(to, data);
                proof {
                    let s4 = *self;
                    // The transfer only happens while DMA is active, so the
                    // frame's OAM clause is not in question here.
                    assert(s0.ppu.dma.active);
                    assert(ticks_frame(s0, s4)) by {
                        assert forall|a: u16| tick_stable_addr(a) implies bus_read_spec(s4, a)
                            == bus_read_spec(s0, a) by {
                            assert(bus_read_spec(s3, a) == bus_read_spec(s0, a));
                        }
                    }
                }
            },
            None => {},
        }
    }
}

/// An operand value: one byte or one 16-bit word.
#[derive(Clone, Copy, Debug, PartialEq, Eq, Structural)]
pub enum DataKind {
    D8(u8),
    D16(u16),
}

/// A register or 16-bit word value widened to 16 bits.
pub open spec fn data_as_u16(d: DataKind) -> u16 {
    match d {
        DataKind::D8(v) => v as u16,
        DataKind::D16(v) => v,
    }
}

/// A value narrowed to its low byte.
pub open spec fn data_as_u8(d: DataKind) -> u8 {
    match d {
        DataKind::D8(v) => v,
        DataKind::D16(v) => lo8(v),
    }
}

impl DataKind {
    pub fn as_u16(self) -> (r: u16)
        ensures
            r == data_as_u16(self),
    {
        match self {
            DataKind::D8(v) => v as u16,
            DataKind::D16(v) => v,
        }
    }

    pub fn as_u8(self) -> (r: u8)
        ensures
            r == data_as_u8(self),
    {
        match self {
            DataKind::D8(v) => v,
            DataKind::D16(v) => (v & 0xFF) as u8,
        }
    }
}

/// The value an operand selector in register mode reads: 8-bit registers as
/// one byte, pairs as a word.
pub open spec fn read_reg_spec(r: Registers, reg: Register) -> DataKind {
    if spec_is_reg_16(reg) {
        DataKind::D16(read16_spec(r, reg))
    } else {
        DataKind::D8(read8_spec(r, reg))
    }
}

/// A write destination: a register, the memory a register points at, or an
/// absolute address.
#[derive(Clone, Copy, Debug, PartialEq, Eq, Structural)]
pub enum LeftDataKind {
    R(Register),
    MR(Register),
    A16(u16),
}

/// The bus addresses whose written value reads back unchanged and which the
/// peripheral ticks leave alone: the three memories, the serial registers
/// and IE.
pub open spec fn stable_write_addr(address: u16) -> bool {
    ||| (0x8000 <= address && address < 0xA000)
    ||| (0xC000 <= address && address < 0xE000)
    ||| (0xFF80 <= address && address <= 0xFFFE)
    ||| address == 0xFF01
    ||| address == 0xFF02
    ||| address == 0xFFFF
}

impl CpuContext {
    pub fn read_reg(&self, register: Register) -> (r: DataKind)
        ensures
            r == read_reg_spec(self.registers, register),
    {
        match register {
            Register::A => DataKind::D8(self.registers.a),
            Register::F => DataKind::D8(self.registers.f),
            Register::B => DataKind::D8(self.registers.b),
            Register::C => DataKind::D8(self.registers.c),
            Register::D => DataKind::D8(self.registers.d),
            Register::E => DataKind::D8(self.registers.e),
            Register::H => DataKind::D8(self.registers.h),
            Register::L => DataKind::D8(self.registers.l),
            Register::AF => DataKind::D16(crate::bits::make16(self.registers.a, self.registers.f)),
            Register::BC => DataKind::D16(crate::bits::make16(self.registers.b, self.registers.c)),
            Register::DE => DataKind::D16(crate::bits::make16(self.registers.d, self.registers.e)),
            Register::HL => DataKind::D16(crate::bits::make16(self.registers.h, self.registers.l)),
            Register::PC => DataKind::D16(self.registers.pc),
            Register::SP => DataKind::D16(self.registers.sp),
        }
    }

    pub fn write_reg(&mut self, register: Register, value: u16)
        ensures
            final(self).registers == write_reg_spec(old(self).registers, register, value),
            *final(self) == (CpuContext { registers: final(self).registers, ..*old(self) }),
    {
        match register {
            Register::A => self.registers.a = (value & 0xFF) as u8,
            Register::F => self.registers.f = (value & 0xFF) as u8,
            Register::B => self.registers.b = (value & 0xFF) as u8,
            Register::C => self.registers.c = (value & 0xFF) as u8,
            Register::D => self.registers.d = (value & 0xFF) as u8,
            Register::E => self.registers.e = (value & 0xFF) as u8,
            Register::H => self.registers.h = (value & 0xFF) as u8,
            Register::L => self.registers.l = (value & 0xFF) as u8,
            Register::AF => {
                self.registers.a = (value >> 8) as u8;
                self.registers.f = (value & 0xFF) as u8;
            },
            Register::BC => {
                self.registers.b = (value >> 8) as u8;
                self.registers.c = (value & 0xFF) as u8;
            },
            Register::DE => {
                self.registers.d = (value >> 8) as u8;
                self.registers.e = (value & 0xFF) as u8;
            },
            Register::HL => {
                self.registers.h = (value >> 8) as u8;
                self.registers.l = (value & 0xFF) as u8;
            },
            Register::PC => self.registers.pc = value,
            Register::SP => self.registers.sp = value,
        }
    }

    pub fn check_condition(&self, cond: Condition) -> (r: bool)
        ensures
            r == cond_spec(cond, self.registers.f),
    {
        let flag_zb = self.registers.f & 0x80 != 0;
        let flag_cb = self.registers.f & 0x10 != 0;
        match cond {
            Condition::Always => true,
            Condition::C => flag_cb,
            Condition::NC => !flag_cb,
            Condition::Z => flag_zb,
            Condition::NZ => !flag_zb,
        }
    }

    /// Push one byte: SP moves down first, then the byte lands at the new SP.
    pub fn stack_push(&mut self, data: u8)
        requires
            wf(*old(self)),
        ensures
            wf(*final(self)),
            final(self).registers == (Registers {
                sp: dec16(old(self).registers.sp),
                ..old(self).registers
            }),
            final(self).halted == old(self).halted,
            final(self).stepping == old(self).stepping,
            final(self).enabling_ime == old(self).enabling_ime,
            final(self).interrupt.master_enabled == old(self).interrupt.master_enabled,
            !(0xFF04 <= dec16(old(self).registers.sp) && dec16(old(self).registers.sp) <= 0xFF07)
                ==> final(self).timer == old(self).timer,
            dec16(old(self).registers.sp) != 0xFF0F ==> final(self).interrupt.flag == old(self).interrupt.flag,
            final(self).cartridge == old(self).cartridge,
            forall|a: u16|
                tick_stable_addr(a) && a != dec16(old(self).registers.sp) ==> bus_read_spec(
                    *final(self),
                    a,
                ) == bus_read_spec(*old(self), a),
            bus_written(
                CpuContext {
                    registers: Registers { sp: dec16(old(self).registers.sp), ..old(self).registers },
                    ..*old(self)
                },
                *final(self),
                dec16(old(self).registers.sp),
                data,
            ),
    {
        self.registers.sp = self.registers.sp.wrapping_sub(1);
        self.write_bus(self.registers.sp, data);
    }

    /// Push a word, high byte first (so it sits at the higher address).
    pub fn stack_push_16(&mut self, data: u16)
        requires
            wf(*old(self)),
        ensures
            wf(*final(self)),
            final(self).registers == (Registers {
                sp: dec16(dec16(old(self).registers.sp)),
                ..old(self).registers
            }),
            final(self).halted == old(self).halted,
            final(self).stepping == old(self).stepping,
            final(self).enabling_ime == old(self).enabling_ime,
            final(self).interrupt.master_enabled == old(self).interrupt.master_enabled,
            stable_write_addr(dec16(old(self).registers.sp)) && stable_write_addr(
                dec16(dec16(old(self).registers.sp)),
            ) ==> final(self).timer == old(self).timer && final(self).interrupt.flag == old(self).interrupt.flag && crate::ppu::ppu_video_eq(final(self).ppu, old(self).ppu)
                && final(self).ppu.dma == old(self).ppu.dma && final(self).ppu.oam_ram@ == old(self).ppu.oam_ram@ && bus_read_spec(
                *final(self),
                dec16(old(self).registers.sp),
            ) == hi8(data) && bus_read_spec(*final(self), dec16(dec16(old(self).registers.sp)))
                == lo8(data),
            forall|a: u16|
                tick_stable_addr(a) && a != dec16(old(self).registers.sp) && a != dec16(
                    dec16(old(self).registers.sp),
                ) ==> bus_read_spec(*final(self), a) == bus_read_spec(*old(self), a),
            final(self).cartridge == old(self).cartridge,
    {
        self.stack_push(((data >> 8) & 0xFF) as u8);
        self.stack_push((data & 0xFF) as u8);
        proof {
            let v = data;
            assert(((v >> 8) & 0xFF) as u8 == (v >> 8) as u8) by (bit_vector);
            lemma_stack_slots(old(self).registers.sp);
        }
    }

    /// Pop one byte from SP, then move SP up.
    pub fn stack_pop(&mut self) -> (r: u8)
        requires
            wf(*old(self)),
        ensures
            wf(*final(self)),
            r == bus_read_spec(*old(self), old(self).registers.sp),
            final(self).registers == (Registers {
                sp: inc16(old(self).registers.sp),
                ..old(self).registers
            }),
            *final(self) == (CpuContext { registers: final(self).registers, ..*old(self) }),
    {
        let data = self.read_bus(self.registers.sp);
        self.registers.sp = self.registers.sp.wrapping_add(1);
        data
    }

    /// Pop a word: low byte first.
    pub fn stack_pop_16(&mut self) -> (r: u16)
        requires
            wf(*old(self)),
        ensures
            wf(*final(self)),
            r == concat16(
                bus_read_spec(*old(self), inc16(old(self).registers.sp)),
                bus_read_spec(*old(self), old(self).registers.sp),
            ),
            final(self).registers == (Registers {
                sp: inc16(inc16(old(self).registers.sp)),
                ..old(self).registers
            }),
            *final(self) == (CpuContext { registers: final(self).registers, ..*old(self) }),
    {
        let lo = self.stack_pop();
        let hi = self.stack_pop();
        crate::bits::make16(hi, lo)
    }

    /// Two bus reads, little-endian.
    pub fn read_bus_16(&self, address: u16) -> (r: u16)
        requires
            wf(*self),
        ensures
            r == concat16(
                bus_read_spec(*self, inc16(address)),
                bus_read_spec(*self, address),
            ),
    {
        let lo = self.read_bus(address);
        let hi = self.read_bus(address.wrapping_add(1));
        crate::bits::make16(hi, lo)
    }

    /// Two bus writes: the low byte at the address, the high byte above it.
    pub fn write_bus_16(&mut self, address: u16, value: u16)
        requires
            wf(*old(self)),
        ensures
            wf(*final(self)),
            final(self).registers == old(self).registers,
            final(self).halted == old(self).halted,
            final(self).stepping == old(self).stepping,
            final(self).enabling_ime == old(self).enabling_ime,
            stable_write_addr(address) && stable_write_addr(inc16(address)) ==> bus_read_spec(
                *final(self),
                address,
            ) == lo8(value) && bus_read_spec(*final(self), inc16(address)) == hi8(value),
    {
        let lo = (value & 0xFF) as u8;
        let hi = ((value & 0xFF00) >> 8) as u8;
        proof {
            let v = value;
            assert(((v & 0xFF00) >> 8) as u8 == (v >> 8) as u8) by (bit_vector);
            lemma_stack_slots(inc16(inc16(address)));
        }
        self.write_bus(address, lo);
        self.write_bus(address.wrapping_add(1), hi);
    }
}

/// The high-page address an 8-bit operand names.
pub open spec fn high_page(d: u8) -> u16 {
    0xFF00 | (d as u16)
}

/// Whether an instruction belongs to the 8-bit arithmetic/logic family
/// (the operand-against-A instructions).
pub open spec fn is_alu8(i: Instruction) -> bool {
    match i {
        Instruction::ADD(_) | Instruction::ADC(_) | Instruction::SUB(_) | Instruction::SBC(_)
            | Instruction::AND(_) | Instruction::OR(_) | Instruction::XOR(_)
            | Instruction::CP(_) => true,
        _ => false,
    }
}

/// The addressing mode of an 8-bit arithmetic/logic instruction.
pub open spec fn alu_mode_of(i: Instruction) -> AddressingMode {
    match i {
        Instruction::ADD(m) | Instruction::ADC(m) | Instruction::SUB(m) | Instruction::SBC(m)
            | Instruction::AND(m) | Instruction::OR(m) | Instruction::XOR(m)
            | Instruction::CP(m) => m,
        _ => AddressingMode::D8,
    }
}

/// The operand byte an 8-bit arithmetic/logic instruction reads, as a
/// function of the state at the start of its execute phase (PC already past
/// the opcode): a register, the byte at a register pointer, or the immediate
/// at PC.
pub open spec fn alu_operand_spec(s: CpuContext, m: AddressingMode) -> u8 {
    match m {
        AddressingMode::R(reg) => read8_spec(s.registers, reg),
        AddressingMode::MR(reg) => bus_read_spec(s, mr_addr_spec(s.registers, reg)),
        _ => bus_read_spec(s, s.registers.pc),
    }
}

/// A and F after one 8-bit arithmetic/logic instruction on operand `d`,
/// following the flag table: Z from the result, N marking subtraction, H
/// the nibble carry or borrow, C the full carry or borrow.
pub open spec fn alu_step_spec(i: Instruction, a: u8, f: u8, d: u8) -> (u8, u8) {
    match i {
        Instruction::ADD(_) => (
            add8(a, d),
            flags_byte(add8(a, d) == 0, false, (a & 0x0F) + (d & 0x0F) >= 0x10, a + d > 0xFF),
        ),
        Instruction::ADC(_) => (
            adc8(a, d, flag_c(f)),
            flags_byte(
                adc8(a, d, flag_c(f)) == 0,
                false,
                (a & 0x0F) + (d & 0x0F) + (if flag_c(f) { 1int } else { 0int }) > 0x0F,
                a + d + (if flag_c(f) { 1int } else { 0int }) > 0xFF,
            ),
        ),
        Instruction::SUB(_) => (
            sub8(a, d),
            flags_byte(sub8(a, d) == 0, true, (a & 0x0F) < (d & 0x0F), a < d),
        ),
        Instruction::SBC(_) => (
            sbc8(a, d, flag_c(f)),
            flags_byte(
                sbc8(a, d, flag_c(f)) == 0,
                true,
                (a & 0x0F) < (d & 0x0F) + (if flag_c(f) { 1int } else { 0int }),
                a < d + (if flag_c(f) { 1int } else { 0int }),
            ),
        ),
        Instruction::AND(_) => ((a & d), flags_byte((a & d) == 0, false, true, false)),
        Instruction::OR(_) => ((a | d), flags_byte((a | d) == 0, false, false, false)),
        Instruction::XOR(_) => ((a ^ d), flags_byte((a ^ d) == 0, false, false, false)),
        Instruction::CP(_) => (a, flags_byte(a == d, true, (a & 0x0F) < (d & 0x0F), a < d)),
        _ => (a, f),
    }
}

/// The PC of an 8-bit arithmetic/logic instruction after its execute phase:
/// only the immediate form consumes an operand byte.
pub open spec fn alu_pc_after(pc: u16, m: AddressingMode) -> u16 {
    if m == AddressingMode::D8 {
        inc16(pc)
    } else {
        pc
    }
}

/// Instructions that never write the bus: registers and flags may move and
/// the peripherals tick, but every memory cell, the serial port and IE keep
/// their values.
pub open spec fn mem_quiet_instr(i: Instruction) -> bool {
    match i {
        Instruction::JP(_) | Instruction::JR(_) | Instruction::RET(_) | Instruction::RETI
            | Instruction::POP(_) | Instruction::POPAF | Instruction::LDHL | Instruction::ADDSP
            | Instruction::ADDHL(_) | Instruction::INC(_) | Instruction::DEC(_)
            | Instruction::JPHL | Instruction::LDI2 | Instruction::LDD2 => true,
        _ => false,
    }
}

/// The M-cycles an operand fetch charges: one per memory read.
pub open spec fn fetch_mcycles(m: AddressingMode) -> nat {
    match m {
        AddressingMode::R(_) => 0nat,
        AddressingMode::MR(_) => 1nat,
        AddressingMode::D8 => 1nat,
        AddressingMode::D16 => 2nat,
        AddressingMode::A8 => 2nat,
        AddressingMode::A16 => 3nat,
    }
}

/// The M-cycles resolving a load destination charges: one per operand byte
/// read from the instruction stream.
pub open spec fn fetch_left_mcycles(m: AddressingMode) -> nat {
    match m {
        AddressingMode::A8 => 1nat,
        AddressingMode::A16 => 2nat,
        _ => 0nat,
    }
}

/// The frame of an operand fetch: at most the program counter moves, memory
/// and the serial port hold still, and the peripherals advance only by
/// ticking (so IF can only gain bits and stable bus reads keep their value).
pub open spec fn fetch_frame(s0: CpuContext, s1: CpuContext) -> bool {
    &&& s1.registers == (Registers { pc: s1.registers.pc, ..s0.registers })
    &&& s1.halted == s0.halted
    &&& s1.stepping == s0.stepping
    &&& s1.enabling_ime == s0.enabling_ime
    &&& s1.cartridge == s0.cartridge
    &&& s1.wram == s0.wram
    &&& s1.hram == s0.hram
    &&& s1.io == s0.io
    &&& s1.ppu.vram@ == s0.ppu.vram@
    &&& s1.ppu.debug_screen@ == s0.ppu.debug_screen@
    &&& s1.ppu.debug_enabled == s0.ppu.debug_enabled
    &&& s1.interrupt.enable == s0.interrupt.enable
    &&& s1.interrupt.master_enabled == s0.interrupt.master_enabled
    &&& s1.interrupt.flag & s0.interrupt.flag == s0.interrupt.flag
    &&& (!s0.ppu.dma.active ==> s1.ppu.oam_ram@ == s0.ppu.oam_ram@ && !s1.ppu.dma.active)
    &&& (forall|a: u16|
        tick_stable_addr(a) ==> bus_read_spec(s1, a) == bus_read_spec(s0, a))
}

/// A pure tick sequence is a fetch frame.
proof fn lemma_ticks_to_fetch_frame(s0: CpuContext, s1: CpuContext)
    requires
        ticks_frame(s0, s1),
    ensures
        fetch_frame(s0, s1),
{
}

/// A change of the program counter alone is a fetch frame.
proof fn lemma_pc_fetch_frame(s0: CpuContext, s1: CpuContext)
    requires
        s1 == (CpuContext { registers: s1.registers, ..s0 }),
        s1.registers == (Registers { pc: s1.registers.pc, ..s0.registers }),
    ensures
        fetch_frame(s0, s1),
{
    let x = s0.interrupt.flag;
    assert(x & x == x) by (bit_vector);
    assert forall|a: u16| tick_stable_addr(a) implies bus_read_spec(s1, a) == bus_read_spec(
        s0,
        a,
    ) by {}
}

/// Fetch frames compose.
proof fn lemma_fetch_frame_trans(s0: CpuContext, s1: CpuContext, s2: CpuContext)
    requires
        fetch_frame(s0, s1),
        fetch_frame(s1, s2),
    ensures
        fetch_frame(s0, s2),
{
    let x = s0.interrupt.flag;
    let y = s1.interrupt.flag;
    let z = s2.interrupt.flag;
    assert(z & x == x) by (bit_vector)
        requires
            (y & x) == x,
            (z & y) == y,
    ;
}

impl CpuContext {
    /// Read the opcode byte at PC, advancing PC; the decoded instruction.
    pub fn fetch_instruction(&mut self) -> (i: Instruction)
        requires
            wf(*old(self)),
        ensures
            wf(*final(self)),
            i == primary_op(bus_read_spec(*old(self), old(self).registers.pc)),
            i != Instruction::Illegal && i != Instruction::STOP ==> instr_ok(i),
            final(self).registers == (Registers {
                pc: inc16(old(self).registers.pc),
                ..old(self).registers
            }),
            *final(self) == (CpuContext { registers: final(self).registers, ..*old(self) }),
    {
        let current_opcode = self.read_bus(self.registers.pc);
        self.registers.pc = self.registers.pc.wrapping_add(1);
        Instruction::from(current_opcode)
    }

    /// Fetch the right-hand operand of an instruction, charging one M-cycle
    /// per memory read. Reads of addresses the peripheral ticks cannot touch
    /// are pinned to the pre-state; the rest are only framed.
    pub fn fetch_data(&mut self, addressing_mode: AddressingMode) -> (data: DataKind)
        requires
            wf(*old(self)),
        ensures
            wf(*final(self)),
            fetch_frame(*old(self), *final(self)),
            final(self).timer == crate::timer::timer_after_n(
                old(self).timer,
                4 * fetch_mcycles(addressing_mode),
            ),
            addressing_mode matches AddressingMode::R(reg) ==> *final(self) == *old(self) && data
                == read_reg_spec(old(self).registers, reg),
            addressing_mode matches AddressingMode::MR(reg) ==> data == DataKind::D8(
                bus_read_spec(*old(self), mr_addr_spec(old(self).registers, reg)),
            ) && final(self).registers.pc == old(self).registers.pc,
            addressing_mode == AddressingMode::D8 ==> data == DataKind::D8(
                bus_read_spec(*old(self), old(self).registers.pc),
            ) && final(self).registers.pc == inc16(old(self).registers.pc),
            addressing_mode == AddressingMode::A8 ==> final(self).registers.pc == inc16(
                old(self).registers.pc,
            ) && (data matches DataKind::D8(v) && (tick_stable_addr(
                high_page(bus_read_spec(*old(self), old(self).registers.pc)),
            ) ==> v == bus_read_spec(
                *old(self),
                high_page(bus_read_spec(*old(self), old(self).registers.pc)),
            ))),
            addressing_mode == AddressingMode::D16 ==> final(self).registers.pc == inc16(
                inc16(old(self).registers.pc),
            ) && (data matches DataKind::D16(v) && lo8(v) == bus_read_spec(
                *old(self),
                old(self).registers.pc,
            ) && (tick_stable_addr(inc16(old(self).registers.pc)) ==> hi8(v) == bus_read_spec(
                *old(self),
                inc16(old(self).registers.pc),
            ))),
            addressing_mode == AddressingMode::A16 ==> final(self).registers.pc == inc16(
                inc16(old(self).registers.pc),
            ) && (data matches DataKind::D8(v) && (tick_stable_addr(inc16(old(self).registers.pc))
                && tick_stable_addr(
                concat16(
                    bus_read_spec(*old(self), inc16(old(self).registers.pc)),
                    bus_read_spec(*old(self), old(self).registers.pc),
                ),
            ) ==> v == bus_read_spec(
                *old(self),
                concat16(
                    bus_read_spec(*old(self), inc16(old(self).registers.pc)),
                    bus_read_spec(*old(self), old(self).registers.pc),
                ),
            ))),
    {
        match addressing_mode {
            AddressingMode::R(register) => {
                proof {
                    lemma_pc_fetch_frame(*old(self), *self);
                }
                self.read_reg(register)
            },
            AddressingMode::MR(register) => {
                let address = match self.read_reg(register) {
                    DataKind::D8(a) => 0xFF00 + (a as u16),
                    DataKind::D16(a) => a,
                };
                let d = self.read_bus(address);
                self.emu_cycles(1);
                proof {
                    lemma_ticks_to_fetch_frame(*old(self), *self);
                }
                DataKind::D8(d)
            },
            AddressingMode::D8 => {
                let d = self.read_bus(self.registers.pc);
                self.registers.pc = self.registers.pc.wrapping_add(1);
                let ghost s1 = *self;
                self.emu_cycles(1);
                proof {
                    lemma_pc_fetch_frame(*old(self), s1);
                    lemma_ticks_to_fetch_frame(s1, *self);
                    lemma_fetch_frame_trans(*old(self), s1, *self);
                }
                DataKind::D8(d)
            },
            AddressingMode::A8 => {
                let op = self.read_bus(self.registers.pc);
                self.registers.pc = self.registers.pc.wrapping_add(1);
                let ghost s1 = *self;
                self.emu_cycles(1);
                let ghost s2 = *self;
                let d = self.read_bus(0xFF00 | (op as u16));
                self.emu_cycles(1);
                proof {
                    lemma_pc_fetch_frame(*old(self), s1);
                    lemma_ticks_to_fetch_frame(s1, s2);
                    lemma_fetch_frame_trans(*old(self), s1, s2);
                    lemma_ticks_to_fetch_frame(s2, *self);
                    lemma_fetch_frame_trans(*old(self), s2, *self);
                    crate::timer::lemma_timer_after_n_add(old(self).timer, 4, 4);
                }
                DataKind::D8(d)
            },
            AddressingMode::D16 | AddressingMode::A16 => {
                let lo = self.read_bus(self.registers.pc);
                self.registers.pc = self.registers.pc.wrapping_add(1);
                let ghost s1 = *self;
                self.emu_cycles(1);
                let ghost s2 = *self;
                let hi = self.read_bus(self.registers.pc);
                self.registers.pc = self.registers.pc.wrapping_add(1);
                let ghost s3 = *self;
                self.emu_cycles(1);
                proof {
                    lemma_pc_fetch_frame(*old(self), s1);
                    lemma_ticks_to_fetch_frame(s1, s2);
                    lemma_fetch_frame_trans(*old(self), s1, s2);
                    lemma_pc_fetch_frame(s2, s3);
                    lemma_fetch_frame_trans(*old(self), s2, s3);
                    lemma_ticks_to_fetch_frame(s3, *self);
                    lemma_fetch_frame_trans(*old(self), s3, *self);
                    crate::timer::lemma_timer_after_n_add(old(self).timer, 4, 4);
                }
                let word = crate::bits::make16(hi, lo);
                proof {
                    crate::bits::lemma_recompose_split(hi, lo);
                }
                match addressing_mode {
                    AddressingMode::A16 => {
                        let ghost s4 = *self;
                        let d = self.read_bus(word);
                        self.emu_cycles(1);
                        proof {
                            lemma_ticks_to_fetch_frame(s4, *self);
                            lemma_fetch_frame_trans(*old(self), s4, *self);
                            crate::timer::lemma_timer_after_n_add(old(self).timer, 8, 4);
                        }
                        DataKind::D8(d)
                    },
                    _ => DataKind::D16(word),
                }
            },
        }
    }

    /// Resolve the left-hand (destination) operand of a load, charging one
    /// M-cycle per operand byte read from the instruction stream.
    pub fn fetch_left_data(&mut self, addressing_mode: AddressingMode) -> (left: LeftDataKind)
        requires
            wf(*old(self)),
            ld_left_ok(addressing_mode),
        ensures
            wf(*final(self)),
            fetch_frame(*old(self), *final(self)),
            final(self).timer == crate::timer::timer_after_n(
                old(self).timer,
                4 * fetch_left_mcycles(addressing_mode),
            ),
            addressing_mode matches AddressingMode::R(reg) ==> *final(self) == *old(self) && left
                == LeftDataKind::R(reg),
            addressing_mode matches AddressingMode::MR(reg) ==> *final(self) == *old(self) && left
                == LeftDataKind::MR(reg),
            addressing_mode == AddressingMode::A8 ==> left == LeftDataKind::A16(
                high_page(bus_read_spec(*old(self), old(self).registers.pc)),
            ) && final(self).registers.pc == inc16(old(self).registers.pc),
            addressing_mode == AddressingMode::A16 ==> final(self).registers.pc == inc16(
                inc16(old(self).registers.pc),
            ) && (left matches LeftDataKind::A16(v) && lo8(v) == bus_read_spec(
                *old(self),
                old(self).registers.pc,
            ) && (tick_stable_addr(inc16(old(self).registers.pc)) ==> hi8(v) == bus_read_spec(
                *old(self),
                inc16(old(self).registers.pc),
            ))),
    {
        match addressing_mode {
            AddressingMode::R(register) => {
                proof {
                    lemma_pc_fetch_frame(*old(self), *self);
                }
                LeftDataKind::R(register)
            },
            AddressingMode::MR(register) => {
                proof {
                    lemma_pc_fetch_frame(*old(self), *self);
                }
                LeftDataKind::MR(register)
            },
            AddressingMode::A8 => {
                let d = self.read_bus(self.registers.pc);
                self.registers.pc = self.registers.pc.wrapping_add(1);
                let ghost s1 = *self;
                self.emu_cycles(1);
                proof {
                    lemma_pc_fetch_frame(*old(self), s1);
                    lemma_ticks_to_fetch_frame(s1, *self);
                    lemma_fetch_frame_trans(*old(self), s1, *self);
                }
                LeftDataKind::A16(0xFF00 | (d as u16))
            },
            _ => {
                let lo = self.read_bus(self.registers.pc);
                self.registers.pc = self.registers.pc.wrapping_add(1);
                let ghost s1 = *self;
                self.emu_cycles(1);
                let ghost s2 = *self;
                let hi = self.read_bus(self.registers.pc);
                self.registers.pc = self.registers.pc.wrapping_add(1);
                let ghost s3 = *self;
                self.emu_cycles(1);
                proof {
                    lemma_pc_fetch_frame(*old(self), s1);
                    lemma_ticks_to_fetch_frame(s1, s2);
                    lemma_fetch_frame_trans(*old(self), s1, s2);
                    lemma_pc_fetch_frame(s2, s3);
                    lemma_fetch_frame_trans(*old(self), s2, s3);
                    lemma_ticks_to_fetch_frame(s3, *self);
                    lemma_fetch_frame_trans(*old(self), s3, *self);
                    crate::bits::lemma_recompose_split(hi, lo);
                    crate::timer::lemma_timer_after_n_add(old(self).timer, 4, 4);
                }
                LeftDataKind::A16(crate::bits::make16(hi, lo))
            },
        }
    }

    /// Store a value at a load destination: into a register for free, onto
    /// the bus with one M-cycle per byte. A byte written to one of the plain
    /// memory or serial addresses reads back as written.
    pub fn write_data(&mut self, left_data: LeftDataKind, data: DataKind)
        requires
            wf(*old(self)),
            left_data matches LeftDataKind::R(reg) ==> reg != Register::F && reg != Register::AF
                && reg != Register::PC,
        ensures
            wf(*final(self)),
            left_data matches LeftDataKind::R(reg) ==> *final(self) == (CpuContext {
                registers: write_reg_spec(old(self).registers, reg, data_as_u16(data)),
                ..*old(self)
            }),
            !(left_data matches LeftDataKind::R(_)) ==> final(self).registers
                == old(self).registers && final(self).halted == old(self).halted && final(self).stepping == old(self).stepping && final(self).enabling_ime == old(self).enabling_ime,
            left_data matches LeftDataKind::MR(reg) ==> (data matches DataKind::D8(d) ==> (
            stable_write_addr(mr_addr_spec(old(self).registers, reg)) ==> bus_read_spec(
                *final(self),
                mr_addr_spec(old(self).registers, reg),
            ) == d && final(self).timer == crate::timer::timer_after_n(old(self).timer, 4))),
            left_data matches LeftDataKind::A16(a) ==> (data matches DataKind::D8(d) ==> (
            stable_write_addr(a) ==> bus_read_spec(*final(self), a) == d && final(self).timer
                == crate::timer::timer_after_n(old(self).timer, 4))),
            left_data matches LeftDataKind::A16(a) ==> (data matches DataKind::D16(v) ==> (
            stable_write_addr(a) && stable_write_addr(inc16(a)) ==> bus_read_spec(*final(self), a)
                == lo8(v) && bus_read_spec(*final(self), inc16(a)) == hi8(v))),
    {
        match left_data {
            LeftDataKind::R(register) => {
                let value = data.as_u16();
                self.write_reg(register, value);
                proof {
                    crate::bits::lemma_u8_mask_bounds(old(self).registers.f);
                }
            },
            LeftDataKind::MR(register) => {
                let address = match self.read_reg(register) {
                    DataKind::D8(a) => 0xFF00 + (a as u16),
                    DataKind::D16(a) => a,
                };
                match data {
                    DataKind::D8(d) => {
                        self.write_bus(address, d);
                        let ghost s1 = *self;
                        self.emu_cycles(1);
                        proof {
                            lemma_ticks_to_fetch_frame(s1, *self);
                        }
                    },
                    DataKind::D16(v) => {
                        self.write_bus_16(address, v);
                        let ghost s1 = *self;
                        self.emu_cycles(2);
                        proof {
                            lemma_ticks_to_fetch_frame(s1, *self);
                        }
                    },
                }
            },
            LeftDataKind::A16(address) => {
                match data {
                    DataKind::D8(d) => {
                        self.write_bus(address, d);
                        let ghost s1 = *self;
                        self.emu_cycles(1);
                        proof {
                            lemma_ticks_to_fetch_frame(s1, *self);
                        }
                    },
                    DataKind::D16(v) => {
                        self.write_bus_16(address, v);
                        let ghost s1 = *self;
                        self.emu_cycles(2);
                        proof {
                            lemma_ticks_to_fetch_frame(s1, *self);
                        }
                    },
                }
            },
        }
    }
}

/// Two adjacent stack slots are distinct addresses.
proof fn lemma_stack_slots(sp: u16)
    ensures
        dec16(sp) != dec16(dec16(sp)),
        inc16(dec16(dec16(sp))) == dec16(sp),
{
}

/// The PPU's per-tick interrupt requests use only the low two IF bits.
proof fn lemma_irqs_bound(p: PPU)
    ensures
        crate::ppu::ppu_tick_irqs(p) == 0 || crate::ppu::ppu_tick_irqs(p) == 1
            || crate::ppu::ppu_tick_irqs(p) == 2 || crate::ppu::ppu_tick_irqs(p) == 3,
{
    assert(2u8 | 1 == 3 && 0u8 | 1 == 1 && 2u8 | 2 == 2 && 0u8 | 2 == 2 && 2u8 | 0 == 2 && 0u8 | 0
        == 0 && 1u8 | 2 == 3 && 3u8 | 2 == 3 && 1u8 | 0 == 1 && 3u8 | 0 == 3) by (bit_vector);
}

/// `ticks_frame` composes.
proof fn lemma_ticks_frame_trans(s0: CpuContext, s1: CpuContext, s2: CpuContext)
    requires
        ticks_frame(s0, s1),
        ticks_frame(s1, s2),
    ensures
        ticks_frame(s0, s2),
{
    let x = s0.interrupt.flag;
    let y = s1.interrupt.flag;
    let z = s2.interrupt.flag;
    assert(z & x == x) by (bit_vector)
        requires
            (y & x) == x,
            (z & y) == y,
    ;
}

/// POP AF keeps the popped high byte whole and masks the popped low byte to
/// its flag nibble.
proof fn lemma_popaf(hi: u8, lo: u8)
    ensures
        hi8(concat16(hi, lo) & 0xFFF0) == hi,
        lo8(concat16(hi, lo) & 0xFFF0) == (lo & 0xF0),
        (lo & 0xF0) & 0x0F == 0,
{
    assert((((((hi as u16) << 8) | (lo as u16)) & 0xFFF0) >> 8) as u8 == hi && (((((hi as u16)
        << 8) | (lo as u16)) & 0xFFF0) & 0xFF) as u8 == (lo & 0xF0) && ((lo & 0xF0) & 0x0F)
        == 0) by (bit_vector);
}

impl CpuContext {
    /// The shared tail of the jump family: when the condition passes, push
    /// the return address if asked, load PC, and charge the branch M-cycle;
    /// otherwise nothing happens at all.
    fn goto_addr(&mut self, cond: Condition, address: u16, push_pc: bool)
        requires
            wf(*old(self)),
        ensures
            wf(*final(self)),
            !cond_spec(cond, old(self).registers.f) ==> *final(self) == *old(self),
            cond_spec(cond, old(self).registers.f) ==> final(self).registers == (Registers {
                pc: address,
                sp: final(self).registers.sp,
                ..old(self).registers
            }),
            cond_spec(cond, old(self).registers.f) && !push_pc ==> final(self).registers.sp == old(self).registers.sp,
            cond_spec(cond, old(self).registers.f) && push_pc ==> final(self).registers.sp
                == dec16(dec16(old(self).registers.sp)),
            cond_spec(cond, old(self).registers.f) && !push_pc ==> final(self).timer
                == crate::timer::timer_after_n(old(self).timer, 4),
            cond_spec(cond, old(self).registers.f) && !push_pc ==> fetch_frame(
                *old(self),
                *final(self),
            ),
            cond_spec(cond, old(self).registers.f) && push_pc ==> forall|a: u16|
                tick_stable_addr(a) && a != dec16(old(self).registers.sp) && a != dec16(
                    dec16(old(self).registers.sp),
                ) ==> bus_read_spec(*final(self), a) == bus_read_spec(*old(self), a),
            final(self).cartridge == old(self).cartridge,
            cond_spec(cond, old(self).registers.f) && push_pc && stable_write_addr(
                dec16(old(self).registers.sp),
            ) && stable_write_addr(dec16(dec16(old(self).registers.sp))) ==> final(self).timer
                == crate::timer::timer_after_n(old(self).timer, 12) && bus_read_spec(
                *final(self),
                dec16(old(self).registers.sp),
            ) == hi8(old(self).registers.pc) && bus_read_spec(
                *final(self),
                dec16(dec16(old(self).registers.sp)),
            ) == lo8(old(self).registers.pc),
            final(self).halted == old(self).halted,
            final(self).stepping == old(self).stepping,
            final(self).enabling_ime == old(self).enabling_ime,
            final(self).interrupt.master_enabled == old(self).interrupt.master_enabled,
    {
        if self.check_condition(cond) {
            if push_pc {
                self.emu_cycles(2);
                self.stack_push_16(self.registers.pc);
                proof {
                    crate::timer::lemma_timer_after_n_add(old(self).timer, 8, 4);
                }
            }
            self.registers.pc = address;
            let ghost mid = *self;
            self.emu_cycles(1);
            proof {
                if !push_pc {
                    lemma_ticks_to_fetch_frame(mid, *self);
                    lemma_pc_fetch_frame(*old(self), mid);
                    lemma_fetch_frame_trans(*old(self), mid, *self);
                }
            }
        }
    }

    /// Read the target of a CB-prefixed instruction: a plain register, or
    /// the byte at HL for one M-cycle.
    fn cb_read(&mut self, reg: Register) -> (d: u8)
        requires
            wf(*old(self)),
            crate::instruction::cb_reg_ok(reg),
        ensures
            wf(*final(self)),
            fetch_frame(*old(self), *final(self)),
            final(self).registers.pc == old(self).registers.pc,
            reg != Register::HL ==> *final(self) == *old(self) && d == read8_spec(
                old(self).registers,
                reg,
            ),
            reg == Register::HL ==> d == bus_read_spec(
                *old(self),
                read16_spec(old(self).registers, Register::HL),
            ),
    {
        match reg {
            Register::HL => {
                let addr = crate::bits::make16(self.registers.h, self.registers.l);
                let d = self.read_bus(addr);
                self.emu_cycles(1);
                proof {
                    lemma_ticks_to_fetch_frame(*old(self), *self);
                }
                d
            },
            _ => {
                proof {
                    lemma_pc_fetch_frame(*old(self), *self);
                }
                let data = self.read_reg(reg);
                data.as_u8()
            },
        }
    }

    /// Write the target of a CB-prefixed instruction back: a plain register,
    /// or the byte at HL for one M-cycle. The flag register is untouched.
    fn cb_write(&mut self, reg: Register, val: u8)
        requires
            wf(*old(self)),
            crate::instruction::cb_reg_ok(reg),
        ensures
            wf(*final(self)),
            final(self).registers.f == old(self).registers.f,
            final(self).registers.pc == old(self).registers.pc,
            final(self).halted == old(self).halted,
            final(self).stepping == old(self).stepping,
            final(self).enabling_ime == old(self).enabling_ime,
            final(self).interrupt.master_enabled == old(self).interrupt.master_enabled,
            reg != Register::HL ==> final(self).registers == write_reg_spec(
                old(self).registers,
                reg,
                val as u16,
            ) && *final(self) == (CpuContext { registers: final(self).registers, ..*old(self) }),
            reg == Register::HL ==> final(self).registers == old(self).registers && (
            stable_write_addr(read16_spec(old(self).registers, Register::HL)) ==> bus_read_spec(
                *final(self),
                read16_spec(old(self).registers, Register::HL),
            ) == val),
    {
        match reg {
            Register::HL => {
                let addr = crate::bits::make16(self.registers.h, self.registers.l);
                self.write_bus(addr, val);
                let ghost s1 = *self;
                self.emu_cycles(1);
                proof {
                    lemma_ticks_to_fetch_frame(s1, *self);
                }
            },
            _ => {
                self.write_reg(reg, val as u16);
                proof {
                    crate::bits::lemma_u8_mask_bounds(old(self).registers.f);
                }
            },
        }
    }

    /// Run one 8-bit arithmetic/logic instruction: fetch the operand
    /// (charging its M-cycles), then set A and F per the flag table.
    fn exec_alu8(&mut self, instruction: Instruction, mode: AddressingMode)
        requires
            wf(*old(self)),
            is_alu8(instruction),
            mode == alu_mode_of(instruction),
            crate::instruction::alu_mode_ok(mode),
        ensures
            wf(*final(self)),
            final(self).registers == (Registers {
                a: alu_step_spec(
                    instruction,
                    old(self).registers.a,
                    old(self).registers.f,
                    alu_operand_spec(*old(self), mode),
                ).0,
                f: alu_step_spec(
                    instruction,
                    old(self).registers.a,
                    old(self).registers.f,
                    alu_operand_spec(*old(self), mode),
                ).1,
                pc: alu_pc_after(old(self).registers.pc, mode),
                ..old(self).registers
            }),
            final(self).timer == crate::timer::timer_after_n(
                old(self).timer,
                4 * fetch_mcycles(mode),
            ),
            final(self).halted == old(self).halted,
            final(self).stepping == old(self).stepping,
            final(self).enabling_ime == old(self).enabling_ime,
            final(self).interrupt.master_enabled == old(self).interrupt.master_enabled,
            final(self).interrupt.enable == old(self).interrupt.enable,
            final(self).interrupt.flag & old(self).interrupt.flag == old(self).interrupt.flag,
            final(self).cartridge == old(self).cartridge,
            final(self).wram == old(self).wram,
            final(self).hram == old(self).hram,
            final(self).io == old(self).io,
            final(self).ppu.vram@ == old(self).ppu.vram@,
            !old(self).ppu.dma.active ==> final(self).ppu.oam_ram@ == old(self).ppu.oam_ram@,
    {
        let data = self.fetch_data(mode);
        let d = data.as_u8();
        match instruction {
            Instruction::ADD(_) => {
                let (na, nf) = crate::alu::alu_add(self.registers.a, d);
                self.registers.a = na;
                self.registers.f = nf;
            },
            Instruction::ADC(_) => {
                let (na, nf) = crate::alu::alu_adc(self.registers.a, d, self.registers.f);
                self.registers.a = na;
                self.registers.f = nf;
            },
            Instruction::SUB(_) => {
                let (na, nf) = crate::alu::alu_sub(self.registers.a, d);
                self.registers.a = na;
                self.registers.f = nf;
            },
            Instruction::SBC(_) => {
                let (na, nf) = crate::alu::alu_sbc(self.registers.a, d, self.registers.f);
                self.registers.a = na;
                self.registers.f = nf;
            },
            Instruction::AND(_) => {
                let (na, nf) = crate::alu::alu_and(self.registers.a, d);
                self.registers.a = na;
                self.registers.f = nf;
            },
            Instruction::OR(_) => {
                let (na, nf) = crate::alu::alu_or(self.registers.a, d);
                self.registers.a = na;
                self.registers.f = nf;
            },
            Instruction::XOR(_) => {
                let (na, nf) = crate::alu::alu_xor(self.registers.a, d);
                self.registers.a = na;
                self.registers.f = nf;
            },
            Instruction::CP(_) => {
                self.registers.f = crate::alu::alu_cp(self.registers.a, d);
            },
            _ => {
                proof {
                    assert(false);
                }
            },
        }
    }

    /// Fetch and run one CB-prefixed instruction: the rotates, shifts, SWAP,
    /// and the single-bit test, clear and set family.
    fn execute_cb(&mut self)
        requires
            wf(*old(self)),
        ensures
            wf(*final(self)),
            final(self).halted == old(self).halted,
            final(self).stepping == old(self).stepping,
            final(self).enabling_ime == old(self).enabling_ime,
            final(self).interrupt.master_enabled == old(self).interrupt.master_enabled,
    {
        let data = self.fetch_data(AddressingMode::D8);
        let opcode = data.as_u8();
        let cb = CBInstruction::from(opcode);
        match cb {
            CBInstruction::BIT(bit, reg) => {
                let d = self.cb_read(reg);
                let z = d & (1u8 << bit) == 0;
                let c = self.registers.f & 0x10 != 0;
                self.registers.f = crate::bits::pack_flags(z, false, true, c);
            },
            CBInstruction::RES(bit, reg) => {
                let d = self.cb_read(reg);
                self.cb_write(reg, d & !(1u8 << bit));
            },
            CBInstruction::SET(bit, reg) => {
                let d = self.cb_read(reg);
                self.cb_write(reg, d | (1u8 << bit));
            },
            CBInstruction::RLC(reg) => {
                let d = self.cb_read(reg);
                let nd = (d << 1u8) | (d >> 7u8);
                self.cb_write(reg, nd);
                self.registers.f = crate::bits::pack_flags(nd == 0, false, false, nd & 0x01 != 0);
            },
            CBInstruction::RRC(reg) => {
                let d = self.cb_read(reg);
                let nd = (d >> 1u8) | (d << 7u8);
                self.cb_write(reg, nd);
                self.registers.f = crate::bits::pack_flags(nd == 0, false, false, d & 0x01 != 0);
            },
            CBInstruction::RL(reg) => {
                let d = self.cb_read(reg);
                let cy: u8 = if self.registers.f & 0x10 != 0 {
                    1
                } else {
                    0
                };
                let nd = (d << 1u8) | cy;
                self.cb_write(reg, nd);
                self.registers.f = crate::bits::pack_flags(nd == 0, false, false, d & 0x80 != 0);
            },
            CBInstruction::RR(reg) => {
                let d = self.cb_read(reg);
                let cy: u8 = if self.registers.f & 0x10 != 0 {
                    0x80
                } else {
                    0
                };
                let nd = (d >> 1u8) | cy;
                self.cb_write(reg, nd);
                self.registers.f = crate::bits::pack_flags(nd == 0, false, false, d & 0x01 != 0);
            },
            CBInstruction::SLA(reg) => {
                let d = self.cb_read(reg);
                let nd = d << 1u8;
                self.cb_write(reg, nd);
                self.registers.f = crate::bits::pack_flags(nd == 0, false, false, d & 0x80 != 0);
            },
            CBInstruction::SRA(reg) => {
                let d = self.cb_read(reg);
                let nd = (d >> 1u8) | (d & 0x80);
                self.cb_write(reg, nd);
                self.registers.f = crate::bits::pack_flags(nd == 0, false, false, d & 0x01 != 0);
            },
            CBInstruction::SWAP(reg) => {
                let d = self.cb_read(reg);
                let nd = ((d & 0xF0) >> 4u8) | ((d & 0x0F) << 4u8);
                self.cb_write(reg, nd);
                self.registers.f = crate::bits::pack_flags(nd == 0, false, false, false);
            },
            CBInstruction::SRL(reg) => {
                let d = self.cb_read(reg);
                let nd = d >> 1u8;
                self.cb_write(reg, nd);
                self.registers.f = crate::bits::pack_flags(nd == 0, false, false, d & 0x01 != 0);
            },
        }
    }

    /// Run one decoded instruction, charging its M-cycles as the memory
    /// accesses and internal delays occur. The flag register's low nibble is
    /// clear afterwards, whatever the instruction was; POP AF takes its A
    /// from the higher stack byte and only the flag nibble of the lower one;
    /// an 8-bit INC or DEC moves the register by exactly one, wrapping.
    #[verifier::rlimit(100)]
    pub fn execute(&mut self, instruction: Instruction)
        requires
            wf(*old(self)),
            instr_ok(instruction),
        ensures
            wf(*final(self)),
            final(self).registers.f & 0x0F == 0,
            final(self).stepping == old(self).stepping,
            instruction == Instruction::NOP ==> *final(self) == *old(self),
            instruction == Instruction::EI ==> *final(self) == (CpuContext {
                enabling_ime: true,
                ..*old(self)
            }),
            instruction == Instruction::DI ==> *final(self) == (CpuContext {
                interrupt: Interrupt { master_enabled: false, ..old(self).interrupt },
                ..*old(self)
            }),
            instruction == Instruction::HALT ==> *final(self) == (CpuContext {
                halted: true,
                ..*old(self)
            }),
            instruction == Instruction::DAA ==> *final(self) == (CpuContext {
                registers: final(self).registers,
                ..*old(self)
            }) && final(self).registers == (Registers {
                a: crate::alu::daa_a(old(self).registers.a, old(self).registers.f),
                f: flags_byte(
                    crate::alu::daa_a(old(self).registers.a, old(self).registers.f) == 0,
                    crate::bits::flag_n(old(self).registers.f),
                    false,
                    crate::alu::daa_carry(old(self).registers.a, old(self).registers.f),
                ),
                ..old(self).registers
            }),
            instruction == Instruction::POPAF ==> final(self).timer
                == crate::timer::timer_after_n(old(self).timer, 8) && (tick_stable_addr(
                inc16(old(self).registers.sp),
            ) ==> final(self).registers == (Registers {
                a: bus_read_spec(*old(self), inc16(old(self).registers.sp)),
                f: (bus_read_spec(*old(self), old(self).registers.sp) & 0xF0),
                sp: inc16(inc16(old(self).registers.sp)),
                ..old(self).registers
            })),
            instruction matches Instruction::LD(l, rm) ==> (l matches AddressingMode::R(reg)
                ==> (rm matches AddressingMode::R(src) ==> *final(self) == (CpuContext {
                registers: write_reg_spec(
                    old(self).registers,
                    reg,
                    data_as_u16(read_reg_spec(old(self).registers, src)),
                ),
                ..*old(self)
            })) && (rm matches AddressingMode::MR(src) ==> final(self).registers == write_reg_spec(
                old(self).registers,
                reg,
                bus_read_spec(*old(self), mr_addr_spec(old(self).registers, src)) as u16,
            ) && final(self).timer == crate::timer::timer_after_n(old(self).timer, 4)) && (rm
                == AddressingMode::D8 ==> final(self).registers == write_reg_spec(
                Registers { pc: inc16(old(self).registers.pc), ..old(self).registers },
                reg,
                bus_read_spec(*old(self), old(self).registers.pc) as u16,
            ) && final(self).timer == crate::timer::timer_after_n(old(self).timer, 4)) && (rm
                == AddressingMode::D16 ==> final(self).timer == crate::timer::timer_after_n(
                old(self).timer,
                8,
            ) && (tick_stable_addr(inc16(old(self).registers.pc)) ==> final(self).registers
                == write_reg_spec(
                Registers { pc: inc16(inc16(old(self).registers.pc)), ..old(self).registers },
                reg,
                concat16(
                    bus_read_spec(*old(self), inc16(old(self).registers.pc)),
                    bus_read_spec(*old(self), old(self).registers.pc),
                ),
            )))) && (l matches AddressingMode::MR(reg) ==> (rm matches AddressingMode::R(src)
                ==> final(self).registers == old(self).registers && (!spec_is_reg_16(src)
                && stable_write_addr(
                mr_addr_spec(old(self).registers, reg),
            ) ==> bus_read_spec(*final(self), mr_addr_spec(old(self).registers, reg))
                == data_as_u8(read_reg_spec(old(self).registers, src)) && final(self).timer
                == crate::timer::timer_after_n(old(self).timer, 4))) && (rm == AddressingMode::D8
                ==> final(self).registers == (Registers {
                pc: inc16(old(self).registers.pc),
                ..old(self).registers
            }) && (reg != Register::PC && stable_write_addr(mr_addr_spec(old(self).registers, reg))
                ==> bus_read_spec(
                *final(self),
                mr_addr_spec(old(self).registers, reg),
            ) == bus_read_spec(*old(self), old(self).registers.pc) && final(self).timer
                == crate::timer::timer_after_n(old(self).timer, 8)))) && (l == AddressingMode::A8
                ==> (rm matches AddressingMode::R(src) ==> final(self).registers == (Registers {
                pc: inc16(old(self).registers.pc),
                ..old(self).registers
            }) && (!spec_is_reg_16(src) && stable_write_addr(
                high_page(bus_read_spec(*old(self), old(self).registers.pc)),
            ) ==> bus_read_spec(
                *final(self),
                high_page(bus_read_spec(*old(self), old(self).registers.pc)),
            ) == data_as_u8(read_reg_spec(old(self).registers, src)) && final(self).timer
                == crate::timer::timer_after_n(old(self).timer, 8)))),
            instruction matches Instruction::INC(reg) ==> (!spec_is_reg_16(reg) ==> final(self).registers == (Registers {
                f: flags_byte(
                    inc8(read8_spec(old(self).registers, reg)) == 0,
                    false,
                    inc8(read8_spec(old(self).registers, reg)) & 0x0F == 0,
                    flag_c(old(self).registers.f),
                ),
                ..write_reg_spec(
                    old(self).registers,
                    reg,
                    inc8(read8_spec(old(self).registers, reg)) as u16,
                )
            }) && *final(self) == (CpuContext { registers: final(self).registers, ..*old(self) }))
                && (spec_is_reg_16(reg) ==> final(self).registers == write_reg_spec(
                old(self).registers,
                reg,
                inc16(read16_spec(old(self).registers, reg)),
            ) && final(self).timer == crate::timer::timer_after_n(old(self).timer, 4)),
            instruction matches Instruction::DEC(reg) ==> (!spec_is_reg_16(reg) ==> final(self).registers == (Registers {
                f: flags_byte(
                    dec8(read8_spec(old(self).registers, reg)) == 0,
                    true,
                    dec8(read8_spec(old(self).registers, reg)) & 0x0F == 0x0F,
                    flag_c(old(self).registers.f),
                ),
                ..write_reg_spec(
                    old(self).registers,
                    reg,
                    dec8(read8_spec(old(self).registers, reg)) as u16,
                )
            }) && *final(self) == (CpuContext { registers: final(self).registers, ..*old(self) }))
                && (spec_is_reg_16(reg) ==> final(self).registers == write_reg_spec(
                old(self).registers,
                reg,
                dec16(read16_spec(old(self).registers, reg)),
            ) && final(self).timer == crate::timer::timer_after_n(old(self).timer, 4)),
            mem_quiet_instr(instruction) ==> final(self).cartridge == old(self).cartridge
                && final(self).wram == old(self).wram && final(self).hram == old(self).hram
                && final(self).io == old(self).io && final(self).ppu.vram@ == old(self).ppu.vram@
                && final(self).interrupt.enable == old(self).interrupt.enable && final(self).halted
                == old(self).halted && (forall|a: u16|
                tick_stable_addr(a) ==> bus_read_spec(*final(self), a) == bus_read_spec(
                    *old(self),
                    a,
                )) && (!old(self).ppu.dma.active ==> final(self).ppu.oam_ram@ == old(self).ppu.oam_ram@),
            instruction matches Instruction::PUSH(reg) ==> forall|a: u16|
                tick_stable_addr(a) && a != dec16(old(self).registers.sp) && a != dec16(
                    dec16(old(self).registers.sp),
                ) ==> bus_read_spec(*final(self), a) == bus_read_spec(*old(self), a),
            instruction matches Instruction::CALL(cond) ==> forall|a: u16|
                tick_stable_addr(a) && a != dec16(old(self).registers.sp) && a != dec16(
                    dec16(old(self).registers.sp),
                ) ==> bus_read_spec(*final(self), a) == bus_read_spec(*old(self), a),
            instruction matches Instruction::RST(vec) ==> forall|a: u16|
                tick_stable_addr(a) && a != dec16(old(self).registers.sp) && a != dec16(
                    dec16(old(self).registers.sp),
                ) ==> bus_read_spec(*final(self), a) == bus_read_spec(*old(self), a),
            instruction == Instruction::INCHL || instruction == Instruction::DECHL ==> forall|
                a: u16,
            |
                tick_stable_addr(a) && a != read16_spec(old(self).registers, Register::HL)
                    ==> bus_read_spec(*final(self), a) == bus_read_spec(*old(self), a),
            instruction == Instruction::LDI1 || instruction == Instruction::LDD1 ==> final(self).registers == (Registers {
                h: hi8(
                    if instruction == Instruction::LDI1 {
                        inc16(read16_spec(old(self).registers, Register::HL))
                    } else {
                        dec16(read16_spec(old(self).registers, Register::HL))
                    },
                ),
                l: lo8(
                    if instruction == Instruction::LDI1 {
                        inc16(read16_spec(old(self).registers, Register::HL))
                    } else {
                        dec16(read16_spec(old(self).registers, Register::HL))
                    },
                ),
                ..old(self).registers
            }) && (stable_write_addr(read16_spec(old(self).registers, Register::HL)) ==> final(self).timer == crate::timer::timer_after_n(old(self).timer, 4) && bus_read_spec(
                *final(self),
                read16_spec(old(self).registers, Register::HL),
            ) == old(self).registers.a) && (forall|a: u16|
                tick_stable_addr(a) && a != read16_spec(old(self).registers, Register::HL)
                    ==> bus_read_spec(*final(self), a) == bus_read_spec(*old(self), a)),
            instruction == Instruction::LDI2 || instruction == Instruction::LDD2 ==> final(self).registers == (Registers {
                a: bus_read_spec(*old(self), read16_spec(old(self).registers, Register::HL)),
                h: hi8(
                    if instruction == Instruction::LDI2 {
                        inc16(read16_spec(old(self).registers, Register::HL))
                    } else {
                        dec16(read16_spec(old(self).registers, Register::HL))
                    },
                ),
                l: lo8(
                    if instruction == Instruction::LDI2 {
                        inc16(read16_spec(old(self).registers, Register::HL))
                    } else {
                        dec16(read16_spec(old(self).registers, Register::HL))
                    },
                ),
                ..old(self).registers
            }) && final(self).timer == crate::timer::timer_after_n(old(self).timer, 4),
            is_alu8(instruction) ==> final(self).registers == (Registers {
                a: alu_step_spec(
                    instruction,
                    old(self).registers.a,
                    old(self).registers.f,
                    alu_operand_spec(*old(self), alu_mode_of(instruction)),
                ).0,
                f: alu_step_spec(
                    instruction,
                    old(self).registers.a,
                    old(self).registers.f,
                    alu_operand_spec(*old(self), alu_mode_of(instruction)),
                ).1,
                pc: alu_pc_after(old(self).registers.pc, alu_mode_of(instruction)),
                ..old(self).registers
            }) && final(self).timer == crate::timer::timer_after_n(
                old(self).timer,
                4 * fetch_mcycles(alu_mode_of(instruction)),
            ) && final(self).halted == old(self).halted && final(self).enabling_ime == old(self).enabling_ime && final(self).interrupt.master_enabled == old(self).interrupt.master_enabled,
            instruction == Instruction::JPHL ==> final(self).registers == (Registers {
                pc: read16_spec(old(self).registers, Register::HL),
                ..old(self).registers
            }),
            instruction == Instruction::CPL ==> final(self).registers == (Registers {
                a: !old(self).registers.a,
                f: flags_byte(
                    flag_z(old(self).registers.f),
                    true,
                    true,
                    flag_c(old(self).registers.f),
                ),
                ..old(self).registers
            }) && *final(self) == (CpuContext { registers: final(self).registers, ..*old(self) }),
            instruction == Instruction::CCF ==> final(self).registers == (Registers {
                f: flags_byte(
                    flag_z(old(self).registers.f),
                    false,
                    false,
                    !flag_c(old(self).registers.f),
                ),
                ..old(self).registers
            }) && *final(self) == (CpuContext { registers: final(self).registers, ..*old(self) }),
            instruction == Instruction::SCF ==> final(self).registers == (Registers {
                f: flags_byte(flag_z(old(self).registers.f), false, false, true),
                ..old(self).registers
            }) && *final(self) == (CpuContext { registers: final(self).registers, ..*old(self) }),
            instruction == Instruction::RLCA ==> final(self).registers == (Registers {
                a: crate::alu::rlc8(old(self).registers.a),
                f: flags_byte(false, false, false, old(self).registers.a & 0x80 != 0),
                ..old(self).registers
            }) && *final(self) == (CpuContext { registers: final(self).registers, ..*old(self) }),
            instruction == Instruction::RRCA ==> final(self).registers == (Registers {
                a: crate::alu::rrc8(old(self).registers.a),
                f: flags_byte(false, false, false, old(self).registers.a & 0x01 != 0),
                ..old(self).registers
            }) && *final(self) == (CpuContext { registers: final(self).registers, ..*old(self) }),
            instruction == Instruction::RLA ==> final(self).registers == (Registers {
                a: crate::alu::rl8(old(self).registers.a, flag_c(old(self).registers.f)),
                f: flags_byte(false, false, false, old(self).registers.a & 0x80 != 0),
                ..old(self).registers
            }) && *final(self) == (CpuContext { registers: final(self).registers, ..*old(self) }),
            instruction == Instruction::RRA ==> final(self).registers == (Registers {
                a: crate::alu::rr8(old(self).registers.a, flag_c(old(self).registers.f)),
                f: flags_byte(false, false, false, old(self).registers.a & 0x01 != 0),
                ..old(self).registers
            }) && *final(self) == (CpuContext { registers: final(self).registers, ..*old(self) }),
            instruction == Instruction::LDHL ==> final(self).registers == (Registers {
                h: hi8(rel16(old(self).registers.sp, bus_read_spec(*old(self), old(self).registers.pc))),
                l: lo8(rel16(old(self).registers.sp, bus_read_spec(*old(self), old(self).registers.pc))),
                f: flags_byte(
                    false,
                    false,
                    (old(self).registers.sp & 0x0F) + ((bus_read_spec(
                        *old(self),
                        old(self).registers.pc,
                    ) as u16) & 0x0F) >= 0x10,
                    (old(self).registers.sp & 0xFF) + ((bus_read_spec(
                        *old(self),
                        old(self).registers.pc,
                    ) as u16) & 0xFF) >= 0x100,
                ),
                pc: inc16(old(self).registers.pc),
                ..old(self).registers
            }) && final(self).timer == crate::timer::timer_after_n(old(self).timer, 4),
            instruction matches Instruction::JP(cond) ==> final(self).timer
                == crate::timer::timer_after_n(
                old(self).timer,
                if cond_spec(cond, old(self).registers.f) {
                    12nat
                } else {
                    8nat
                },
            ) && (!cond_spec(cond, old(self).registers.f) ==> final(self).registers == (Registers {
                pc: inc16(inc16(old(self).registers.pc)),
                ..old(self).registers
            })) && (cond_spec(cond, old(self).registers.f) && tick_stable_addr(
                inc16(old(self).registers.pc),
            ) ==> final(self).registers == (Registers {
                pc: concat16(
                    bus_read_spec(*old(self), inc16(old(self).registers.pc)),
                    bus_read_spec(*old(self), old(self).registers.pc),
                ),
                ..old(self).registers
            })),
            instruction matches Instruction::JR(cond) ==> final(self).timer
                == crate::timer::timer_after_n(
                old(self).timer,
                if cond_spec(cond, old(self).registers.f) {
                    8nat
                } else {
                    4nat
                },
            ) && final(self).registers == (Registers {
                pc: if cond_spec(cond, old(self).registers.f) {
                    rel16(
                        inc16(old(self).registers.pc),
                        bus_read_spec(*old(self), old(self).registers.pc),
                    )
                } else {
                    inc16(old(self).registers.pc)
                },
                ..old(self).registers
            }),
            instruction matches Instruction::CALL(cond) ==> (!cond_spec(
                cond,
                old(self).registers.f,
            ) ==> final(self).timer == crate::timer::timer_after_n(old(self).timer, 8)) && (
            !cond_spec(cond, old(self).registers.f) ==> final(self).registers == (Registers {
                pc: inc16(inc16(old(self).registers.pc)),
                ..old(self).registers
            })) && (cond_spec(cond, old(self).registers.f) ==> final(self).registers.sp == dec16(
                dec16(old(self).registers.sp),
            ) && (tick_stable_addr(inc16(old(self).registers.pc)) ==> final(self).registers
                == (Registers {
                pc: concat16(
                    bus_read_spec(*old(self), inc16(old(self).registers.pc)),
                    bus_read_spec(*old(self), old(self).registers.pc),
                ),
                sp: dec16(dec16(old(self).registers.sp)),
                ..old(self).registers
            })) && (stable_write_addr(dec16(old(self).registers.sp)) && stable_write_addr(
                dec16(dec16(old(self).registers.sp)),
            ) ==> final(self).timer == crate::timer::timer_after_n(old(self).timer, 20)
                && bus_read_spec(*final(self), dec16(old(self).registers.sp)) == hi8(
                inc16(inc16(old(self).registers.pc)),
            ) && bus_read_spec(*final(self), dec16(dec16(old(self).registers.sp))) == lo8(
                inc16(inc16(old(self).registers.pc)),
            ))),
            instruction matches Instruction::RST(vec) ==> final(self).registers == (Registers {
                pc: vec as u16,
                sp: dec16(dec16(old(self).registers.sp)),
                ..old(self).registers
            }) && (stable_write_addr(dec16(old(self).registers.sp)) && stable_write_addr(
                dec16(dec16(old(self).registers.sp)),
            ) ==> final(self).timer == crate::timer::timer_after_n(old(self).timer, 12)
                && bus_read_spec(*final(self), dec16(old(self).registers.sp)) == hi8(
                old(self).registers.pc,
            ) && bus_read_spec(*final(self), dec16(dec16(old(self).registers.sp))) == lo8(
                old(self).registers.pc,
            )),
            instruction matches Instruction::RET(cond) ==> final(self).timer
                == crate::timer::timer_after_n(
                old(self).timer,
                if !cond_spec(cond, old(self).registers.f) {
                    4nat
                } else if cond == Condition::Always {
                    12nat
                } else {
                    16nat
                },
            ) && (!cond_spec(cond, old(self).registers.f) ==> final(self).registers == old(self).registers) && (cond_spec(cond, old(self).registers.f) && tick_stable_addr(
                old(self).registers.sp,
            ) && tick_stable_addr(inc16(old(self).registers.sp)) ==> final(self).registers
                == (Registers {
                pc: concat16(
                    bus_read_spec(*old(self), inc16(old(self).registers.sp)),
                    bus_read_spec(*old(self), old(self).registers.sp),
                ),
                sp: inc16(inc16(old(self).registers.sp)),
                ..old(self).registers
            })),
            instruction == Instruction::RETI ==> final(self).interrupt.master_enabled == true
                && final(self).registers == (Registers {
                pc: concat16(
                    bus_read_spec(*old(self), inc16(old(self).registers.sp)),
                    bus_read_spec(*old(self), old(self).registers.sp),
                ),
                sp: inc16(inc16(old(self).registers.sp)),
                ..old(self).registers
            }) && final(self).timer == crate::timer::timer_after_n(old(self).timer, 12),
            instruction matches Instruction::POP(reg) ==> final(self).timer
                == crate::timer::timer_after_n(old(self).timer, 8) && (tick_stable_addr(
                inc16(old(self).registers.sp),
            ) ==> final(self).registers == write_reg_spec(
                Registers { sp: inc16(inc16(old(self).registers.sp)), ..old(self).registers },
                reg,
                concat16(
                    bus_read_spec(*old(self), inc16(old(self).registers.sp)),
                    bus_read_spec(*old(self), old(self).registers.sp),
                ),
            )),
            instruction matches Instruction::PUSH(reg) ==> final(self).registers == (Registers {
                sp: dec16(dec16(old(self).registers.sp)),
                ..old(self).registers
            }) && (stable_write_addr(dec16(old(self).registers.sp)) && stable_write_addr(
                dec16(dec16(old(self).registers.sp)),
            ) ==> final(self).timer == crate::timer::timer_after_n(old(self).timer, 12)
                && bus_read_spec(*final(self), dec16(old(self).registers.sp)) == hi8(
                read16_spec(old(self).registers, reg),
            ) && bus_read_spec(*final(self), dec16(dec16(old(self).registers.sp))) == lo8(
                read16_spec(old(self).registers, reg),
            )),
            instruction matches Instruction::ADDHL(reg) ==> final(self).registers == (Registers {
                h: hi8(
                    add16(
                        read16_spec(old(self).registers, Register::HL),
                        read16_spec(old(self).registers, reg),
                    ),
                ),
                l: lo8(
                    add16(
                        read16_spec(old(self).registers, Register::HL),
                        read16_spec(old(self).registers, reg),
                    ),
                ),
                f: flags_byte(
                    flag_z(old(self).registers.f),
                    false,
                    (read16_spec(old(self).registers, Register::HL) & 0x0FFF) + (read16_spec(
                        old(self).registers,
                        reg,
                    ) & 0x0FFF) >= 0x1000,
                    read16_spec(old(self).registers, Register::HL) + read16_spec(
                        old(self).registers,
                        reg,
                    ) > 0xFFFF,
                ),
                ..old(self).registers
            }) && final(self).timer == crate::timer::timer_after_n(old(self).timer, 4),
            instruction == Instruction::ADDSP ==> final(self).registers == (Registers {
                sp: rel16(old(self).registers.sp, bus_read_spec(*old(self), old(self).registers.pc)),
                f: flags_byte(
                    false,
                    false,
                    (old(self).registers.sp & 0x0F) + ((bus_read_spec(
                        *old(self),
                        old(self).registers.pc,
                    ) as u16) & 0x0F) >= 0x10,
                    (old(self).registers.sp & 0xFF) + ((bus_read_spec(
                        *old(self),
                        old(self).registers.pc,
                    ) as u16) & 0xFF) >= 0x100,
                ),
                pc: inc16(old(self).registers.pc),
                ..old(self).registers
            }) && final(self).timer == crate::timer::timer_after_n(old(self).timer, 8),
            instruction == Instruction::INCHL ==> final(self).registers == (Registers {
                f: flags_byte(
                    inc8(bus_read_spec(*old(self), read16_spec(old(self).registers, Register::HL)))
                        == 0,
                    false,
                    inc8(bus_read_spec(*old(self), read16_spec(old(self).registers, Register::HL)))
                        & 0x0F == 0,
                    flag_c(old(self).registers.f),
                ),
                ..old(self).registers
            }) && (stable_write_addr(read16_spec(old(self).registers, Register::HL)) ==> final(self).timer == crate::timer::timer_after_n(old(self).timer, 8) && bus_read_spec(
                *final(self),
                read16_spec(old(self).registers, Register::HL),
            ) == inc8(bus_read_spec(*old(self), read16_spec(old(self).registers, Register::HL)))),
            instruction == Instruction::DECHL ==> final(self).registers == (Registers {
                f: flags_byte(
                    dec8(bus_read_spec(*old(self), read16_spec(old(self).registers, Register::HL)))
                        == 0,
                    true,
                    dec8(bus_read_spec(*old(self), read16_spec(old(self).registers, Register::HL)))
                        & 0x0F == 0x0F,
                    flag_c(old(self).registers.f),
                ),
                ..old(self).registers
            }) && (stable_write_addr(read16_spec(old(self).registers, Register::HL)) ==> final(self).timer == crate::timer::timer_after_n(old(self).timer, 8) && bus_read_spec(
                *final(self),
                read16_spec(old(self).registers, Register::HL),
            ) == dec8(bus_read_spec(*old(self), read16_spec(old(self).registers, Register::HL)))),
    {
        match instruction {
            Instruction::NOP => {},
            Instruction::DAA => {
                let (na, nf) = crate::alu::alu_daa(self.registers.a, self.registers.f);
                self.registers.a = na;
                self.registers.f = nf;
                proof {
                    crate::bits::lemma_flags_byte(
                        crate::alu::daa_a(old(self).registers.a, old(self).registers.f) == 0,
                        crate::bits::flag_n(old(self).registers.f),
                        false,
                        crate::alu::daa_carry(old(self).registers.a, old(self).registers.f),
                    );
                }
            },
            Instruction::EI => {
                self.enabling_ime = true;
            },
            Instruction::DI => {
                self.interrupt.master_enabled = false;
            },
            Instruction::HALT => {
                self.halted = true;
            },
            Instruction::JP(condition) => {
                let data = self.fetch_data(AddressingMode::D16);
                let addr = data.as_u16();
                proof {
                    crate::bits::lemma_split_recompose(addr);
                    crate::timer::lemma_timer_after_n_add(old(self).timer, 8, 4);
                }
                self.goto_addr(condition, addr, false);
            },
            Instruction::JPHL => {
                let addr = crate::bits::make16(self.registers.h, self.registers.l);
                self.goto_addr(Condition::Always, addr, false);
            },
            Instruction::JR(condition) => {
                let data = self.fetch_data(AddressingMode::D8);
                let rel = data.as_u8();
                let addr = crate::alu::rel_addr(self.registers.pc, rel);
                proof {
                    crate::timer::lemma_timer_after_n_add(old(self).timer, 4, 4);
                }
                self.goto_addr(condition, addr, false);
                proof {
                    assert(4 * fetch_mcycles(AddressingMode::D8) == 4nat);
                    if cond_spec(condition, old(self).registers.f) {
                        assert(self.timer == crate::timer::timer_after_n(
                            crate::timer::timer_after_n(old(self).timer, 4),
                            4,
                        ));
                        assert(self.timer == crate::timer::timer_after_n(old(self).timer, 8));
                    } else {
                        assert(self.timer == crate::timer::timer_after_n(old(self).timer, 4));
                    }
                    assert(rel == bus_read_spec(*old(self), old(self).registers.pc));
                    assert(addr == rel16(
                        inc16(old(self).registers.pc),
                        bus_read_spec(*old(self), old(self).registers.pc),
                    ));
                }
            },
            Instruction::CALL(condition) => {
                let data = self.fetch_data(AddressingMode::D16);
                let addr = data.as_u16();
                proof {
                    crate::bits::lemma_split_recompose(addr);
                    crate::timer::lemma_timer_after_n_add(old(self).timer, 8, 12);
                }
                self.goto_addr(condition, addr, true);
            },
            Instruction::RET(condition) => {
                match condition {
                    Condition::Always => {},
                    _ => self.emu_cycles(1),
                }
                if self.check_condition(condition) {
                    let addr = self.stack_pop_16();
                    self.emu_cycles(2);
                    self.registers.pc = addr;
                    self.emu_cycles(1);
                    proof {
                        crate::timer::lemma_timer_after_n_add(old(self).timer, 4, 8);
                        crate::timer::lemma_timer_after_n_add(old(self).timer, 8, 4);
                        crate::timer::lemma_timer_after_n_add(old(self).timer, 12, 4);
                    }
                }
            },
            Instruction::RETI => {
                self.interrupt.master_enabled = true;
                let addr = self.stack_pop_16();
                self.emu_cycles(2);
                self.registers.pc = addr;
                self.emu_cycles(1);
                proof {
                    crate::timer::lemma_timer_after_n_add(old(self).timer, 8, 4);
                }
            },
            Instruction::RST(vec) => {
                self.goto_addr(Condition::Always, vec as u16, true);
            },
            Instruction::PUSH(register) => {
                let data = self.read_reg(register);
                let value = data.as_u16();
                let hi = crate::bits::high_byte(value);
                self.emu_cycles(1);
                self.stack_push(hi);
                let lo = crate::bits::low_byte(value);
                self.emu_cycles(1);
                self.stack_push(lo);
                self.emu_cycles(1);
                proof {
                    crate::timer::lemma_timer_after_n_add(old(self).timer, 4, 4);
                    crate::timer::lemma_timer_after_n_add(old(self).timer, 8, 4);
                }
            },
            Instruction::POP(register) => {
                let lo = self.stack_pop();
                self.emu_cycles(1);
                let hi = self.stack_pop();
                self.emu_cycles(1);
                let value = crate::bits::make16(hi, lo);
                self.write_reg(register, value);
                proof {
                    crate::bits::lemma_u8_mask_bounds(old(self).registers.f);
                    crate::timer::lemma_timer_after_n_add(old(self).timer, 4, 4);
                }
            },
            Instruction::POPAF => {
                let lo = self.stack_pop();
                self.emu_cycles(1);
                let hi = self.stack_pop();
                self.emu_cycles(1);
                let value = crate::bits::make16(hi, lo) & 0xFFF0;
                self.write_reg(Register::AF, value);
                proof {
                    lemma_popaf(hi, lo);
                    crate::timer::lemma_timer_after_n_add(old(self).timer, 4, 4);
                }
            },
            Instruction::LD(left_mode, right_mode) => {
                let left = self.fetch_left_data(left_mode);
                let right = self.fetch_data(right_mode);
                self.write_data(left, right);
                proof {
                    crate::timer::lemma_timer_after_n_add(old(self).timer, 4, 4);
                    match right {
                        DataKind::D16(v) => crate::bits::lemma_split_recompose(v),
                        _ => (),
                    }
                }
            },
            Instruction::LDI1 => {
                let hl = crate::bits::make16(self.registers.h, self.registers.l);
                let a = self.registers.a;
                self.write_bus(hl, a);
                self.emu_cycles(1);
                self.write_reg(Register::HL, hl.wrapping_add(1));
                proof {
                    crate::bits::lemma_u8_mask_bounds(old(self).registers.f);
                }
            },
            Instruction::LDI2 => {
                let hl = crate::bits::make16(self.registers.h, self.registers.l);
                let v = self.read_bus(hl);
                self.registers.a = v;
                self.emu_cycles(1);
                self.write_reg(Register::HL, hl.wrapping_add(1));
            },
            Instruction::LDD1 => {
                let hl = crate::bits::make16(self.registers.h, self.registers.l);
                let a = self.registers.a;
                self.write_bus(hl, a);
                self.emu_cycles(1);
                self.write_reg(Register::HL, hl.wrapping_sub(1));
                proof {
                    crate::bits::lemma_u8_mask_bounds(old(self).registers.f);
                }
            },
            Instruction::LDD2 => {
                let hl = crate::bits::make16(self.registers.h, self.registers.l);
                let v = self.read_bus(hl);
                self.registers.a = v;
                self.emu_cycles(1);
                self.write_reg(Register::HL, hl.wrapping_sub(1));
            },
            Instruction::LDHL => {
                let data = self.fetch_data(AddressingMode::D8);
                let rel = data.as_u8();
                let sp = self.registers.sp;
                let target = crate::alu::rel_addr(sp, rel);
                self.write_reg(Register::HL, target);
                self.registers.f = crate::alu::alu_sp_rel_flags(sp, rel);
                proof {
                    crate::bits::lemma_split_recompose(target);
                }
            },
            Instruction::INC(register) => {
                let data = self.read_reg(register);
                match data {
                    DataKind::D8(v) => {
                        let (nv, nf) = crate::alu::alu_inc8(v, self.registers.f);
                        self.write_reg(register, nv as u16);
                        self.registers.f = nf;
                        proof {
                            let w = nv;
                            assert(((w as u16) & 0xFF) as u8 == w) by (bit_vector);
                        }
                    },
                    DataKind::D16(v) => {
                        self.emu_cycles(1);
                        self.write_reg(register, v.wrapping_add(1));
                        proof {
                            crate::bits::lemma_u8_mask_bounds(old(self).registers.f);
                        }
                    },
                }
            },
            Instruction::DEC(register) => {
                let data = self.read_reg(register);
                match data {
                    DataKind::D8(v) => {
                        let (nv, nf) = crate::alu::alu_dec8(v, self.registers.f);
                        self.write_reg(register, nv as u16);
                        self.registers.f = nf;
                        proof {
                            let w = nv;
                            assert(((w as u16) & 0xFF) as u8 == w) by (bit_vector);
                        }
                    },
                    DataKind::D16(v) => {
                        self.emu_cycles(1);
                        self.write_reg(register, v.wrapping_sub(1));
                        proof {
                            crate::bits::lemma_u8_mask_bounds(old(self).registers.f);
                        }
                    },
                }
            },
            Instruction::INCHL => {
                let addr = crate::bits::make16(self.registers.h, self.registers.l);
                let v = self.read_bus(addr);
                let nv = v.wrapping_add(1);
                self.emu_cycles(1);
                self.write_bus(addr, nv);
                self.emu_cycles(1);
                let keep_c = self.registers.f & 0x10 != 0;
                self.registers.f = crate::bits::pack_flags(nv == 0, false, nv & 0x0F == 0, keep_c);
                proof {
                    crate::timer::lemma_timer_after_n_add(old(self).timer, 4, 4);
                }
            },
            Instruction::DECHL => {
                let addr = crate::bits::make16(self.registers.h, self.registers.l);
                let v = self.read_bus(addr);
                let nv = v.wrapping_sub(1);
                self.emu_cycles(1);
                self.write_bus(addr, nv);
                self.emu_cycles(1);
                let keep_c = self.registers.f & 0x10 != 0;
                self.registers.f = crate::bits::pack_flags(
                    nv == 0,
                    true,
                    nv & 0x0F == 0x0F,
                    keep_c,
                );
                proof {
                    crate::timer::lemma_timer_after_n_add(old(self).timer, 4, 4);
                }
            },
            Instruction::ADD(mode) => {
                self.exec_alu8(instruction, mode);
            },
            Instruction::ADC(mode) => {
                self.exec_alu8(instruction, mode);
            },
            Instruction::SUB(mode) => {
                self.exec_alu8(instruction, mode);
            },
            Instruction::SBC(mode) => {
                self.exec_alu8(instruction, mode);
            },
            Instruction::AND(mode) => {
                self.exec_alu8(instruction, mode);
            },
            Instruction::OR(mode) => {
                self.exec_alu8(instruction, mode);
            },
            Instruction::XOR(mode) => {
                self.exec_alu8(instruction, mode);
            },
            Instruction::CP(mode) => {
                self.exec_alu8(instruction, mode);
            },
            Instruction::ADDHL(register) => {
                let data = self.read_reg(register);
                let d = data.as_u16();
                let hl = crate::bits::make16(self.registers.h, self.registers.l);
                self.emu_cycles(1);
                let (n, nf) = crate::alu::alu_add_hl(hl, d, self.registers.f);
                self.write_reg(Register::HL, n);
                self.registers.f = nf;
            },
            Instruction::ADDSP => {
                let data = self.fetch_data(AddressingMode::D8);
                let rel = data.as_u8();
                let sp = self.registers.sp;
                self.emu_cycles(1);
                let n = crate::alu::rel_addr(sp, rel);
                let nf = crate::alu::alu_sp_rel_flags(sp, rel);
                self.registers.sp = n;
                self.registers.f = nf;
                proof {
                    crate::timer::lemma_timer_after_n_add(old(self).timer, 4, 4);
                }
            },
            Instruction::RLA => {
                let (na, nf) = crate::alu::alu_rla(self.registers.a, self.registers.f);
                self.registers.a = na;
                self.registers.f = nf;
            },
            Instruction::RLCA => {
                let (na, nf) = crate::alu::alu_rlca(self.registers.a);
                self.registers.a = na;
                self.registers.f = nf;
            },
            Instruction::RRA => {
                let (na, nf) = crate::alu::alu_rra(self.registers.a, self.registers.f);
                self.registers.a = na;
                self.registers.f = nf;
            },
            Instruction::RRCA => {
                let (na, nf) = crate::alu::alu_rrca(self.registers.a);
                self.registers.a = na;
                self.registers.f = nf;
            },
            Instruction::CPL => {
                self.registers.a = !self.registers.a;
                let z = self.registers.f & 0x80 != 0;
                let c = self.registers.f & 0x10 != 0;
                self.registers.f = crate::bits::pack_flags(z, true, true, c);
            },
            Instruction::CCF => {
                let z = self.registers.f & 0x80 != 0;
                let c = self.registers.f & 0x10 != 0;
                self.registers.f = crate::bits::pack_flags(z, false, false, !c);
            },
            Instruction::SCF => {
                let z = self.registers.f & 0x80 != 0;
                self.registers.f = crate::bits::pack_flags(z, false, false, true);
            },
            Instruction::PREFIX => {
                self.execute_cb();
            },
            Instruction::Illegal | Instruction::STOP => {},
        }
    }
}


/// The operand byte an 8-bit arithmetic/logic step reads, seen from the
/// state before the opcode fetch: the immediate sits one past the opcode.
pub open spec fn step_alu_operand(s: CpuContext, m: AddressingMode) -> u8 {
    match m {
        AddressingMode::R(reg) => read8_spec(s.registers, reg),
        AddressingMode::MR(reg) => bus_read_spec(s, mr_addr_spec(s.registers, reg)),
        _ => bus_read_spec(s, inc16(s.registers.pc)),
    }
}

/// Whether the opcode fetch's peripheral ticks cannot disturb that operand.
pub open spec fn step_alu_operand_stable(s: CpuContext, m: AddressingMode) -> bool {
    match m {
        AddressingMode::R(_) => true,
        AddressingMode::MR(reg) => tick_stable_addr(mr_addr_spec(s.registers, reg)),
        _ => tick_stable_addr(inc16(s.registers.pc)),
    }
}

/// A nonzero IF stays nonzero while it only gains bits.
proof fn lemma_flag_nonzero(x: u8, y: u8)
    by (bit_vector)
    requires
        y & x == x,
        x != 0,
    ensures
        y != 0,
{
}

impl CpuContext {
    /// Service an interrupt vector: two internal M-cycles, the PC push, two
    /// more M-cycles and the vector load's M-cycle -- five in all; the CPU
    /// leaves HALT.
    fn dispatch_interrupt(&mut self, address: u16)
        requires
            wf(*old(self)),
        ensures
            wf(*final(self)),
            final(self).registers == (Registers {
                pc: address,
                sp: dec16(dec16(old(self).registers.sp)),
                ..old(self).registers
            }),
            final(self).halted == false,
            final(self).stepping == old(self).stepping,
            final(self).enabling_ime == old(self).enabling_ime,
            final(self).interrupt.master_enabled == old(self).interrupt.master_enabled,
            final(self).cartridge == old(self).cartridge,
            stable_write_addr(dec16(old(self).registers.sp)) && stable_write_addr(
                dec16(dec16(old(self).registers.sp)),
            ) ==> final(self).timer == crate::timer::timer_after_n(old(self).timer, 20) && final(self).interrupt.flag == irq_after_n(
                old(self).timer,
                old(self).ppu,
                old(self).interrupt.flag,
                20,
            ) && bus_read_spec(*final(self), dec16(old(self).registers.sp)) == hi8(
                old(self).registers.pc,
            ) && bus_read_spec(*final(self), dec16(dec16(old(self).registers.sp))) == lo8(
                old(self).registers.pc,
            ),
    {
        let ghost s0 = *self;
        self.emu_cycles(2);
        let ghost s1 = *self;
        self.stack_push_16(self.registers.pc);
        let ghost s2 = *self;
        self.emu_cycles(2);
        let ghost s3 = *self;
        self.registers.pc = address;
        let ghost s4 = *self;
        self.emu_cycles(1);
        self.halted = false;
        proof {
            if stable_write_addr(dec16(s0.registers.sp)) && stable_write_addr(
                dec16(dec16(s0.registers.sp)),
            ) {
                crate::timer::lemma_timer_after_n_add(s0.timer, 8, 8);
                crate::timer::lemma_timer_after_n_add(s0.timer, 16, 4);
                crate::ppu::lemma_ppu_after_n_add(s0.ppu, 8, 8);
                assert(crate::ppu::ppu_video_eq(s1.ppu, crate::ppu::ppu_after_n(s0.ppu, 8)));
                assert(crate::ppu::ppu_video_eq(s2.ppu, crate::ppu::ppu_after_n(s0.ppu, 8)));
                lemma_irq_after_n_video_eq(
                    s2.timer,
                    s2.ppu,
                    crate::ppu::ppu_after_n(s0.ppu, 8),
                    s2.interrupt.flag,
                    8,
                );
                lemma_irq_after_n_add(s0.timer, s0.ppu, s0.interrupt.flag, 8, 8);
                assert(s3.interrupt.flag == irq_after_n(
                    s0.timer,
                    s0.ppu,
                    s0.interrupt.flag,
                    16,
                ));
                crate::ppu::lemma_ppu_after_n_video_eq(
                    s2.ppu,
                    crate::ppu::ppu_after_n(s0.ppu, 8),
                    8,
                );
                assert(crate::ppu::ppu_video_eq(s4.ppu, crate::ppu::ppu_after_n(s0.ppu, 16)));
                lemma_irq_after_n_video_eq(
                    s4.timer,
                    s4.ppu,
                    crate::ppu::ppu_after_n(s0.ppu, 16),
                    s4.interrupt.flag,
                    4,
                );
                lemma_irq_after_n_add(s0.timer, s0.ppu, s0.interrupt.flag, 16, 4);
            }
        }
    }

    /// One step of the machine: run one instruction (or one idle M-cycle
    /// while halted, waking on any IF bit), then dispatch the
    /// highest-priority enabled interrupt if IME is set, then promote EI's
    /// delayed IME enable. False exactly when the fetched opcode was one of
    /// the eleven illegal ones or the unimplemented STOP, which this core
    /// refuses to run: the opcode was consumed but not executed.
    pub fn step(&mut self) -> (r: bool)
        requires
            wf(*old(self)),
        ensures
            wf(*final(self)),
            final(self).registers.f & 0x0F == 0,
            final(self).stepping == old(self).stepping,
            !old(self).halted ==> (r == false <==> (primary_op(
                bus_read_spec(*old(self), old(self).registers.pc),
            ) == Instruction::Illegal || primary_op(
                bus_read_spec(*old(self), old(self).registers.pc),
            ) == Instruction::STOP)),
            old(self).halted ==> r == true,
            old(self).halted && old(self).interrupt.flag != 0 ==> !final(self).halted,
            old(self).halted && !old(self).interrupt.master_enabled ==> final(self).registers
                == old(self).registers && final(self).timer == crate::timer::timer_after_n(
                old(self).timer,
                4,
            ) && final(self).interrupt.flag == irq_after_n(
                old(self).timer,
                old(self).ppu,
                old(self).interrupt.flag,
                4,
            ) && final(self).halted == (irq_after_n(
                old(self).timer,
                old(self).ppu,
                old(self).interrupt.flag,
                4,
            ) == 0) && final(self).interrupt.master_enabled == old(self).enabling_ime && final(self).enabling_ime == false,
            old(self).halted && old(self).interrupt.master_enabled && (irq_after_n(
                old(self).timer,
                old(self).ppu,
                old(self).interrupt.flag,
                4,
            ) & old(self).interrupt.enable == 0) ==> final(self).registers == old(self).registers
                && final(self).timer == crate::timer::timer_after_n(old(self).timer, 4) && final(self).interrupt.flag == irq_after_n(
                old(self).timer,
                old(self).ppu,
                old(self).interrupt.flag,
                4,
            ) && final(self).halted == (irq_after_n(
                old(self).timer,
                old(self).ppu,
                old(self).interrupt.flag,
                4,
            ) == 0) && final(self).interrupt.master_enabled == true && final(self).enabling_ime
                == false,
            old(self).halted && old(self).interrupt.master_enabled && !old(self).enabling_ime
                && (irq_after_n(old(self).timer, old(self).ppu, old(self).interrupt.flag, 4)
                & old(self).interrupt.enable != 0) && stable_write_addr(
                dec16(old(self).registers.sp),
            ) && stable_write_addr(dec16(dec16(old(self).registers.sp))) ==> final(self).registers
                == (Registers {
                pc: crate::interrupt::pending_vector(
                    irq_after_n(old(self).timer, old(self).ppu, old(self).interrupt.flag, 4)
                        & old(self).interrupt.enable,
                ),
                sp: dec16(dec16(old(self).registers.sp)),
                ..old(self).registers
            }) && final(self).halted == false && final(self).interrupt.master_enabled == false
                && final(self).timer == crate::timer::timer_after_n(old(self).timer, 24)
                && final(self).interrupt.flag == irq_after_n(
                crate::timer::timer_after_n(old(self).timer, 4),
                crate::ppu::ppu_after_n(old(self).ppu, 4),
                (irq_after_n(old(self).timer, old(self).ppu, old(self).interrupt.flag, 4)
                    & !crate::interrupt::pending_mask(
                    irq_after_n(old(self).timer, old(self).ppu, old(self).interrupt.flag, 4)
                        & old(self).interrupt.enable,
                )),
                20,
            ) && bus_read_spec(*final(self), dec16(old(self).registers.sp)) == hi8(
                old(self).registers.pc,
            ) && bus_read_spec(*final(self), dec16(dec16(old(self).registers.sp))) == lo8(
                old(self).registers.pc,
            ),
            !old(self).halted && old(self).interrupt.master_enabled && !old(self).enabling_ime
                && primary_op(bus_read_spec(*old(self), old(self).registers.pc))
                == Instruction::NOP && (irq_after_n(
                old(self).timer,
                old(self).ppu,
                old(self).interrupt.flag,
                4,
            ) & old(self).interrupt.enable != 0) && stable_write_addr(
                dec16(old(self).registers.sp),
            ) && stable_write_addr(dec16(dec16(old(self).registers.sp))) ==> final(self).registers
                == (Registers {
                pc: crate::interrupt::pending_vector(
                    irq_after_n(old(self).timer, old(self).ppu, old(self).interrupt.flag, 4)
                        & old(self).interrupt.enable,
                ),
                sp: dec16(dec16(old(self).registers.sp)),
                ..old(self).registers
            }) && final(self).halted == false && final(self).interrupt.master_enabled == false
                && final(self).timer == crate::timer::timer_after_n(old(self).timer, 24)
                && bus_read_spec(*final(self), dec16(old(self).registers.sp)) == hi8(
                inc16(old(self).registers.pc),
            ) && bus_read_spec(*final(self), dec16(dec16(old(self).registers.sp))) == lo8(
                inc16(old(self).registers.pc),
            ),
            !old(self).halted && !old(self).interrupt.master_enabled && is_alu8(
                primary_op(bus_read_spec(*old(self), old(self).registers.pc)),
            ) ==> final(self).halted == false && final(self).interrupt.master_enabled == old(self).enabling_ime && final(self).enabling_ime == false && final(self).timer
                == crate::timer::timer_after_n(
                old(self).timer,
                4 + 4 * fetch_mcycles(
                    alu_mode_of(primary_op(bus_read_spec(*old(self), old(self).registers.pc))),
                ),
            ) && (step_alu_operand_stable(
                *old(self),
                alu_mode_of(primary_op(bus_read_spec(*old(self), old(self).registers.pc))),
            ) ==> final(self).registers == (Registers {
                a: alu_step_spec(
                    primary_op(bus_read_spec(*old(self), old(self).registers.pc)),
                    old(self).registers.a,
                    old(self).registers.f,
                    step_alu_operand(
                        *old(self),
                        alu_mode_of(
                            primary_op(bus_read_spec(*old(self), old(self).registers.pc)),
                        ),
                    ),
                ).0,
                f: alu_step_spec(
                    primary_op(bus_read_spec(*old(self), old(self).registers.pc)),
                    old(self).registers.a,
                    old(self).registers.f,
                    step_alu_operand(
                        *old(self),
                        alu_mode_of(
                            primary_op(bus_read_spec(*old(self), old(self).registers.pc)),
                        ),
                    ),
                ).1,
                pc: if alu_mode_of(primary_op(bus_read_spec(*old(self), old(self).registers.pc)))
                    == AddressingMode::D8 {
                    inc16(inc16(old(self).registers.pc))
                } else {
                    inc16(old(self).registers.pc)
                },
                ..old(self).registers
            })),
            !old(self).halted && !old(self).interrupt.master_enabled && primary_op(
                bus_read_spec(*old(self), old(self).registers.pc),
            ) == Instruction::EI ==> final(self).interrupt.master_enabled == true && final(self).enabling_ime == false && final(self).registers == (Registers {
                pc: inc16(old(self).registers.pc),
                ..old(self).registers
            }) && final(self).timer == crate::timer::timer_after_n(old(self).timer, 4) && final(self).halted == false,
            !old(self).halted && !old(self).interrupt.master_enabled && primary_op(
                bus_read_spec(*old(self), old(self).registers.pc),
            ) == Instruction::DI ==> final(self).interrupt.master_enabled == old(self).enabling_ime && final(self).enabling_ime == false && final(self).registers
                == (Registers { pc: inc16(old(self).registers.pc), ..old(self).registers }) && final(self).timer == crate::timer::timer_after_n(old(self).timer, 4) && final(self).halted
                == false,
    {
        if !self.halted {
            let instruction = self.fetch_instruction();
            self.emu_cycles(1);
            match instruction {
                Instruction::Illegal | Instruction::STOP => {
                    return false;
                },
                _ => {},
            }
            self.execute(instruction);
            proof {
                crate::timer::lemma_timer_after_n_add(
                    old(self).timer,
                    4,
                    4 * fetch_mcycles(alu_mode_of(instruction)),
                );
            }
        } else {
            let ghost s0 = *self;
            self.emu_cycles(1);
            proof {
                let f0 = s0.interrupt.flag;
                let f1 = self.interrupt.flag;
                if f0 != 0 {
                    lemma_flag_nonzero(f0, f1);
                }
            }
            if self.interrupt.flag != 0 {
                self.halted = false;
            }
        }
        if self.interrupt.master_enabled {
            let serviced = self.interrupt.handle_interrupts();
            match serviced {
                Some(address) => {
                    let ghost s2 = *self;
                    self.dispatch_interrupt(address);
                    proof {
                        crate::timer::lemma_timer_after_n_add(old(self).timer, 4, 20);
                        if old(self).halted && stable_write_addr(dec16(s2.registers.sp))
                            && stable_write_addr(dec16(dec16(s2.registers.sp))) {
                            assert(crate::ppu::ppu_video_eq(
                                s2.ppu,
                                crate::ppu::ppu_after_n(old(self).ppu, 4),
                            ));
                            lemma_irq_after_n_video_eq(
                                s2.timer,
                                s2.ppu,
                                crate::ppu::ppu_after_n(old(self).ppu, 4),
                                s2.interrupt.flag,
                                20,
                            );
                        }
                    }
                },
                None => {},
            }
        }
        if self.enabling_ime {
            self.interrupt.master_enabled = true;
            self.enabling_ime = false;
        }
        true
    }
}


/// Writing any 16-bit value into a register pair and reading the pair back
/// gives the value: the pair registers hold exactly its two halves.
pub proof fn lemma_pair_roundtrip(r: Registers, reg: Register, v: u16)
    requires
        reg == Register::AF || reg == Register::BC || reg == Register::DE || reg == Register::HL,
    ensures
        read16_spec(write_reg_spec(r, reg, v), reg) == v,
{
    crate::bits::lemma_split_recompose(v);
}

} // verus!
