use gbcore::cartridge::Cartridge;
use gbcore::emu::Emu;

fn rom_with(bytes: &[(usize, u8)]) -> Vec<u8> {
    let mut rom = vec![0u8; 0x8000];
    for &(addr, value) in bytes {
        rom[addr] = value;
    }
    rom
}

fn emu_with(bytes: &[(usize, u8)]) -> Emu {
    Emu::create(Cartridge::from(rom_with(bytes)))
}

#[test]
fn power_on_registers() {
    let emu = emu_with(&[]);
    assert_eq!(emu.cpu.registers.a, 0x01);
    assert_eq!(emu.cpu.registers.f, 0xB0);
    assert_eq!(emu.cpu.registers.b, 0x00);
    assert_eq!(emu.cpu.registers.c, 0x13);
    assert_eq!(emu.cpu.registers.d, 0x00);
    assert_eq!(emu.cpu.registers.e, 0xD8);
    assert_eq!(emu.cpu.registers.h, 0x01);
    assert_eq!(emu.cpu.registers.l, 0x4D);
    assert_eq!(emu.cpu.registers.pc, 0x0100);
    assert_eq!(emu.cpu.registers.sp, 0xFFFE);
    assert_eq!(emu.cpu.timer.div, 0xABCC);
    assert!(!emu.cpu.halted);
}

#[test]
fn add_immediate_scenario() {
    // ADD A, 0xC6 with A = 0x3A: zero result with half-carry and carry,
    // two M-cycles charged (the divider advances by eight T-cycles).
    let mut emu = emu_with(&[(0x100, 0xC6), (0x101, 0xC6)]);
    emu.cpu.registers.a = 0x3A;
    emu.cpu.registers.f = 0x00;
    let div_before = emu.cpu.timer.div;
    assert!(emu.cpu.step());
    assert_eq!(emu.cpu.registers.a, 0x00);
    assert_eq!(emu.cpu.registers.f, 0xB0);
    assert_eq!(emu.cpu.registers.pc, 0x102);
    assert_eq!(emu.cpu.timer.div, div_before.wrapping_add(8));
}

#[test]
fn daa_scenario() {
    // DAA with A = 0x45 and only C set adjusts by 0x60 and keeps C.
    let mut emu = emu_with(&[(0x100, 0x27)]);
    emu.cpu.registers.a = 0x45;
    emu.cpu.registers.f = 0x10;
    assert!(emu.cpu.step());
    assert_eq!(emu.cpu.registers.a, 0xA5);
    assert_eq!(emu.cpu.registers.f, 0x10);
}

#[test]
fn ld_hl_sp_plus_two() {
    let mut emu = emu_with(&[(0x100, 0xF8), (0x101, 0x02)]);
    emu.cpu.registers.sp = 0xFFF8;
    emu.cpu.registers.f = 0x00;
    assert!(emu.cpu.step());
    assert_eq!(emu.cpu.registers.h, 0xFF);
    assert_eq!(emu.cpu.registers.l, 0xFA);
    assert_eq!(emu.cpu.registers.f, 0x00);
}

#[test]
fn ld_hl_sp_minus_one() {
    // Operand 0xFF is minus one; the low-byte adds set both H and C.
    let mut emu = emu_with(&[(0x100, 0xF8), (0x101, 0xFF)]);
    emu.cpu.registers.sp = 0xFFF8;
    emu.cpu.registers.f = 0x00;
    assert!(emu.cpu.step());
    assert_eq!(emu.cpu.registers.h, 0xFF);
    assert_eq!(emu.cpu.registers.l, 0xF7);
    assert_eq!(emu.cpu.registers.f, 0x30);
}

#[test]
fn pop_af_masks_flag_nibble() {
    let mut emu = emu_with(&[(0x100, 0xF1)]);
    emu.cpu.registers.sp = 0xC000;
    emu.cpu.write_bus(0xC000, 0x5B);
    emu.cpu.write_bus(0xC001, 0x9D);
    assert!(emu.cpu.step());
    assert_eq!(emu.cpu.registers.a, 0x9D);
    assert_eq!(emu.cpu.registers.f, 0x50);
    assert_eq!(emu.cpu.registers.sp, 0xC002);
}

#[test]
fn push_then_pop_roundtrip() {
    // PUSH BC; POP DE moves the pair through the stack unchanged.
    let mut emu = emu_with(&[(0x100, 0xC5), (0x101, 0xD1)]);
    emu.cpu.registers.sp = 0xDFFE;
    emu.cpu.registers.b = 0x12;
    emu.cpu.registers.c = 0x34;
    assert!(emu.cpu.step());
    assert!(emu.cpu.step());
    assert_eq!(emu.cpu.registers.d, 0x12);
    assert_eq!(emu.cpu.registers.e, 0x34);
    assert_eq!(emu.cpu.registers.sp, 0xDFFE);
}

#[test]
fn inc_then_dec_restores_register() {
    let mut emu = emu_with(&[(0x100, 0x04), (0x101, 0x05)]);
    emu.cpu.registers.b = 0x37;
    assert!(emu.cpu.step());
    assert_eq!(emu.cpu.registers.b, 0x38);
    assert!(emu.cpu.step());
    assert_eq!(emu.cpu.registers.b, 0x37);
}

#[test]
fn inc_then_dec_wraps_at_boundary() {
    let mut emu = emu_with(&[(0x100, 0x04), (0x101, 0x05)]);
    emu.cpu.registers.b = 0xFF;
    assert!(emu.cpu.step());
    assert_eq!(emu.cpu.registers.b, 0x00);
    // INC to zero sets Z and H, clears N, keeps C (set at power-on).
    assert_eq!(emu.cpu.registers.f, 0xB0);
    assert!(emu.cpu.step());
    assert_eq!(emu.cpu.registers.b, 0xFF);
}

#[test]
fn flag_low_nibble_stays_zero() {
    // A handful of flag-heavy instructions never dirty the low nibble.
    let program: Vec<u8> = vec![
        0x3C, 0x3D, 0x87, 0x97, 0xA7, 0xB7, 0xAF, 0x27, 0x2F, 0x37, 0x3F, 0x07, 0x17, 0x0F, 0x1F,
    ];
    let mut bytes: Vec<(usize, u8)> = Vec::new();
    for (i, b) in program.iter().enumerate() {
        bytes.push((0x100 + i, *b));
    }
    let mut emu = emu_with(&bytes);
    for _ in 0..program.len() {
        assert!(emu.cpu.step());
        assert_eq!(emu.cpu.registers.f & 0x0F, 0);
    }
}

#[test]
fn jr_taken_and_not_taken() {
    // JR NZ, +2 with Z clear jumps over two bytes.
    let mut emu = emu_with(&[(0x100, 0x20), (0x101, 0x02), (0x104, 0x20), (0x105, 0x02)]);
    emu.cpu.registers.f = 0x00;
    assert!(emu.cpu.step());
    assert_eq!(emu.cpu.registers.pc, 0x104);
    emu.cpu.registers.f = 0x80;
    assert!(emu.cpu.step());
    assert_eq!(emu.cpu.registers.pc, 0x106);
}

#[test]
fn call_and_ret() {
    let mut emu = emu_with(&[
        (0x100, 0xCD),
        (0x101, 0x00),
        (0x102, 0x02),
        (0x200, 0xC9),
    ]);
    emu.cpu.registers.sp = 0xDFFE;
    assert!(emu.cpu.step());
    assert_eq!(emu.cpu.registers.pc, 0x200);
    assert_eq!(emu.cpu.registers.sp, 0xDFFC);
    assert!(emu.cpu.step());
    assert_eq!(emu.cpu.registers.pc, 0x103);
    assert_eq!(emu.cpu.registers.sp, 0xDFFE);
}

#[test]
fn rst_pushes_and_vectors() {
    let mut emu = emu_with(&[(0x100, 0xEF)]);
    emu.cpu.registers.sp = 0xDFFE;
    assert!(emu.cpu.step());
    assert_eq!(emu.cpu.registers.pc, 0x28);
    assert_eq!(emu.cpu.read_bus(0xDFFD), 0x01);
    assert_eq!(emu.cpu.read_bus(0xDFFC), 0x01);
}

#[test]
fn illegal_opcode_stops() {
    let mut emu = emu_with(&[(0x100, 0xD3)]);
    assert!(!emu.cpu.step());
}

#[test]
fn stop_is_refused() {
    let mut emu = emu_with(&[(0x100, 0x10)]);
    assert!(!emu.cpu.step());
}

#[test]
fn interrupt_priority_vblank_first() {
    // With everything enabled and requested, VBlank (0x40) is serviced
    // first; with VBlank quiet, LCDStat (0x48).
    let mut emu = emu_with(&[(0x100, 0x00)]);
    emu.cpu.registers.sp = 0xDFFE;
    emu.cpu.interrupt.master_enabled = true;
    emu.cpu.interrupt.enable = 0x1F;
    emu.cpu.interrupt.flag = 0x1F;
    assert!(emu.cpu.step());
    assert_eq!(emu.cpu.registers.pc, 0x40);
    assert_eq!(emu.cpu.interrupt.flag & 0x01, 0);
    assert!(!emu.cpu.interrupt.master_enabled);

    let mut emu = emu_with(&[(0x100, 0x00)]);
    emu.cpu.registers.sp = 0xDFFE;
    emu.cpu.interrupt.master_enabled = true;
    emu.cpu.interrupt.enable = 0x1F;
    emu.cpu.interrupt.flag = 0x1E;
    assert!(emu.cpu.step());
    assert_eq!(emu.cpu.registers.pc, 0x48);

    let mut emu = emu_with(&[(0x100, 0x00)]);
    emu.cpu.registers.sp = 0xDFFE;
    emu.cpu.interrupt.master_enabled = true;
    emu.cpu.interrupt.enable = 0x1F;
    emu.cpu.interrupt.flag = 0x1C;
    assert!(emu.cpu.step());
    assert_eq!(emu.cpu.registers.pc, 0x50);

    let mut emu = emu_with(&[(0x100, 0x00)]);
    emu.cpu.registers.sp = 0xDFFE;
    emu.cpu.interrupt.master_enabled = true;
    emu.cpu.interrupt.enable = 0x1F;
    emu.cpu.interrupt.flag = 0x18;
    assert!(emu.cpu.step());
    assert_eq!(emu.cpu.registers.pc, 0x58);

    let mut emu = emu_with(&[(0x100, 0x00)]);
    emu.cpu.registers.sp = 0xDFFE;
    emu.cpu.interrupt.master_enabled = true;
    emu.cpu.interrupt.enable = 0x1F;
    emu.cpu.interrupt.flag = 0x10;
    assert!(emu.cpu.step());
    assert_eq!(emu.cpu.registers.pc, 0x60);
}

#[test]
fn ei_is_delayed_by_one_instruction() {
    // EI; NOP; NOP with a pending interrupt: the dispatch happens only
    // after the instruction following EI.
    let mut emu = emu_with(&[(0x100, 0xFB), (0x101, 0x00), (0x102, 0x00)]);
    emu.cpu.registers.sp = 0xDFFE;
    emu.cpu.interrupt.enable = 0x01;
    emu.cpu.interrupt.flag = 0x01;
    assert!(emu.cpu.step());
    assert!(emu.cpu.interrupt.master_enabled);
    assert_eq!(emu.cpu.registers.pc, 0x101);
    assert!(emu.cpu.step());
    assert_eq!(emu.cpu.registers.pc, 0x40);
}

#[test]
fn halt_wakes_on_interrupt_flag() {
    let mut emu = emu_with(&[(0x100, 0x76), (0x101, 0x00)]);
    assert!(emu.cpu.step());
    assert!(emu.cpu.halted);
    assert!(emu.cpu.step());
    assert!(emu.cpu.halted);
    emu.cpu.interrupt.flag = 0x04;
    assert!(emu.cpu.step());
    assert!(!emu.cpu.halted);
}

#[test]
fn serial_debug_tap_collects_output() {
    // Print 'H' and 'i' through the serial tap, then halt.
    let mut emu = emu_with(&[
        (0x100, 0x3E),
        (0x101, 0x48), // LD A, 'H'
        (0x102, 0xEA),
        (0x103, 0x01),
        (0x104, 0xFF), // LD (0xFF01), A
        (0x105, 0x3E),
        (0x106, 0x81),
        (0x107, 0xEA),
        (0x108, 0x02),
        (0x109, 0xFF), // LD (0xFF02), 0x81
        (0x10A, 0x3E),
        (0x10B, 0x69), // LD A, 'i'
        (0x10C, 0xEA),
        (0x10D, 0x01),
        (0x10E, 0xFF),
        (0x10F, 0x3E),
        (0x110, 0x81),
        (0x111, 0xEA),
        (0x112, 0x02),
        (0x113, 0xFF),
        (0x114, 0x76), // HALT
    ]);
    assert!(emu.run(30));
    assert_eq!(emu.serial_out, vec![0x48, 0x69]);
    assert_eq!(emu.serial_text(), "Hi".to_string());
}

#[test]
fn dma_copies_oam_and_blocks_reads() {
    let mut pattern: Vec<(usize, u8)> = vec![(0x100, 0x00)];
    for i in 0..0xA0usize {
        pattern.push((0x2000 + i, (i as u8).wrapping_mul(7).wrapping_add(3)));
    }
    let mut emu = emu_with(&pattern);
    emu.cpu.write_bus(0xFF46, 0x20);
    assert_eq!(emu.cpu.read_bus(0xFF46), 0x20);
    // During the transfer window OAM reads return 0xFF.
    emu.cpu.emu_cycles(1);
    assert_eq!(emu.cpu.read_bus(0xFE00), 0xFF);
    // 2 warm-up T-cycles plus 160 transfers fit in 41 M-cycles.
    emu.cpu.emu_cycles(41);
    assert!(!emu.cpu.ppu.dma.active);
    for i in 0..0xA0u16 {
        assert_eq!(
            emu.cpu.read_bus(0xFE00 + i),
            (i as u8).wrapping_mul(7).wrapping_add(3)
        );
    }
}

#[test]
fn bus_routes_memory_regions() {
    let mut emu = emu_with(&[(0x1234, 0xAB)]);
    assert_eq!(emu.cpu.read_bus(0x1234), 0xAB);
    emu.cpu.write_bus(0x1234, 0x55); // ROM writes are dropped
    assert_eq!(emu.cpu.read_bus(0x1234), 0xAB);
    emu.cpu.write_bus(0xC123, 0x11);
    assert_eq!(emu.cpu.read_bus(0xC123), 0x11);
    emu.cpu.write_bus(0x8123, 0x22);
    assert_eq!(emu.cpu.read_bus(0x8123), 0x22);
    emu.cpu.write_bus(0xFF85, 0x33);
    assert_eq!(emu.cpu.read_bus(0xFF85), 0x33);
    emu.cpu.write_bus(0xFE05, 0x44);
    assert_eq!(emu.cpu.read_bus(0xFE05), 0x44);
    // Unusable and unmapped regions read zero.
    assert_eq!(emu.cpu.read_bus(0xFEA5), 0);
    assert_eq!(emu.cpu.read_bus(0xE000), 0);
    assert_eq!(emu.cpu.read_bus(0xFF7F), 0);
    // IE and IF are registers.
    emu.cpu.write_bus(0xFFFF, 0x15);
    assert_eq!(emu.cpu.read_bus(0xFFFF), 0x15);
    emu.cpu.write_bus(0xFF0F, 0x0A);
    assert_eq!(emu.cpu.read_bus(0xFF0F), 0x0A);
}

#[test]
fn ly_is_read_only_and_stat_stores_byte() {
    let mut emu = emu_with(&[]);
    let ly = emu.cpu.read_bus(0xFF44);
    emu.cpu.write_bus(0xFF44, 0x55);
    assert_eq!(emu.cpu.read_bus(0xFF44), ly);
    emu.cpu.write_bus(0xFF41, 0x55);
    assert_eq!(emu.cpu.read_bus(0xFF41), 0x55);
    emu.cpu.write_bus(0xFF41, 0x02);
    assert_eq!(emu.cpu.read_bus(0xFF41), 0x02);
}

fn div_cost(bytes: &[(usize, u8)], setup: fn(&mut Emu)) -> u16 {
    let mut emu = emu_with(bytes);
    setup(&mut emu);
    let before = emu.cpu.timer.div;
    assert!(emu.cpu.step());
    emu.cpu.timer.div.wrapping_sub(before) / 4
}

#[test]
fn instruction_cycle_charges() {
    // M-cycle costs, observed through the divider (4 T-cycles each).
    assert_eq!(div_cost(&[(0x100, 0x00)], |_| {}), 1); // NOP
    assert_eq!(div_cost(&[(0x100, 0x41)], |_| {}), 1); // LD B,C
    assert_eq!(div_cost(&[(0x100, 0x3E), (0x101, 0x07)], |_| {}), 2); // LD A,d8
    assert_eq!(div_cost(&[(0x100, 0x77)], |_| {}), 2); // LD (HL),A
    assert_eq!(div_cost(&[(0x100, 0x03)], |_| {}), 2); // INC BC
    assert_eq!(div_cost(&[(0x100, 0x09)], |_| {}), 2); // ADD HL,BC
    assert_eq!(div_cost(&[(0x100, 0xC3)], |_| {}), 4); // JP taken
    assert_eq!(
        div_cost(&[(0x100, 0xC2)], |e| e.cpu.registers.f = 0x80),
        3
    ); // JP NZ not taken
    assert_eq!(
        div_cost(&[(0x100, 0xCD)], |e| e.cpu.registers.sp = 0xDFFE),
        6
    ); // CALL taken
    assert_eq!(
        div_cost(&[(0x100, 0xC9)], |e| e.cpu.registers.sp = 0xDFFE),
        4
    ); // RET
    assert_eq!(
        div_cost(&[(0x100, 0xC8)], |e| {
            e.cpu.registers.sp = 0xDFFE;
            e.cpu.registers.f = 0x80;
        }),
        5
    ); // RET Z taken
    assert_eq!(
        div_cost(&[(0x100, 0xC8)], |e| {
            e.cpu.registers.sp = 0xDFFE;
            e.cpu.registers.f = 0x00;
        }),
        2
    ); // RET Z not taken
    assert_eq!(
        div_cost(&[(0x100, 0xC5)], |e| e.cpu.registers.sp = 0xDFFE),
        4
    ); // PUSH BC
    assert_eq!(
        div_cost(&[(0x100, 0xC1)], |e| e.cpu.registers.sp = 0xDFFE),
        3
    ); // POP BC
    assert_eq!(div_cost(&[(0x100, 0x18)], |_| {}), 3); // JR taken
    assert_eq!(div_cost(&[(0x100, 0xE0), (0x101, 0x80)], |_| {}), 3); // LDH (a8),A
    assert_eq!(div_cost(&[(0x100, 0xCB), (0x101, 0x37)], |_| {}), 2); // SWAP A
    assert_eq!(div_cost(&[(0x100, 0xCB), (0x101, 0x46)], |_| {}), 3); // BIT 0,(HL)
    assert_eq!(div_cost(&[(0x100, 0xCB), (0x101, 0xC6)], |_| {}), 4); // SET 0,(HL)
    assert_eq!(div_cost(&[(0x100, 0x34)], |_| {}), 3); // INC (HL)
    assert_eq!(div_cost(&[(0x100, 0xE8), (0x101, 0x01)], |_| {}), 3); // ADD SP,e8
    assert_eq!(div_cost(&[(0x100, 0xFA)], |_| {}), 4); // LD A,(a16)
}

#[test]
fn interrupt_dispatch_costs_five_cycles() {
    let mut emu = emu_with(&[(0x100, 0x00)]);
    emu.cpu.registers.sp = 0xDFFE;
    emu.cpu.interrupt.master_enabled = true;
    emu.cpu.interrupt.enable = 0x01;
    emu.cpu.interrupt.flag = 0x01;
    let before = emu.cpu.timer.div;
    assert!(emu.cpu.step());
    // One M-cycle for the NOP plus five for the dispatch.
    assert_eq!(emu.cpu.timer.div.wrapping_sub(before), 24);
    assert_eq!(emu.cpu.registers.pc, 0x40);
}

#[test]
fn ld_a16_sp_writes_both_bytes() {
    let mut emu = emu_with(&[(0x100, 0x08), (0x101, 0x00), (0x102, 0xC1)]);
    emu.cpu.registers.sp = 0x1234;
    assert!(emu.cpu.step());
    assert_eq!(emu.cpu.read_bus(0xC100), 0x34);
    assert_eq!(emu.cpu.read_bus(0xC101), 0x12);
}

#[test]
fn ldi_and_ldd_move_hl() {
    // LD (HL+),A then LD A,(HL-): the write lands below the final HL.
    let mut emu = emu_with(&[(0x100, 0x22), (0x101, 0x32)]);
    emu.cpu.registers.h = 0xC0;
    emu.cpu.registers.l = 0x50;
    emu.cpu.registers.a = 0x99;
    assert!(emu.cpu.step());
    assert_eq!(emu.cpu.read_bus(0xC050), 0x99);
    assert_eq!(emu.cpu.registers.l, 0x51);
    assert!(emu.cpu.step());
    assert_eq!(emu.cpu.read_bus(0xC051), 0x99);
    assert_eq!(emu.cpu.registers.l, 0x50);
}

#[test]
fn ldh_c_and_a8_access_high_page() {
    // LD (C),A targets 0xFF00 | C; LD A,(a8) reads back from it.
    let mut emu = emu_with(&[(0x100, 0xE2), (0x101, 0xF0), (0x102, 0x81)]);
    emu.cpu.registers.c = 0x81;
    emu.cpu.registers.a = 0x5C;
    assert!(emu.cpu.step());
    assert_eq!(emu.cpu.read_bus(0xFF81), 0x5C);
    emu.cpu.registers.a = 0x00;
    assert!(emu.cpu.step());
    assert_eq!(emu.cpu.registers.a, 0x5C);
}

#[test]
fn drain_serial_consumes_one_byte() {
    let mut emu = emu_with(&[]);
    emu.cpu.io.serial.data = 0x41;
    emu.cpu.io.serial.control = 0x81;
    emu.drain_serial();
    assert_eq!(emu.serial_out, vec![0x41]);
    assert_eq!(emu.cpu.io.serial.control, 0);
    // With the tap idle, draining changes nothing.
    emu.drain_serial();
    assert_eq!(emu.serial_out, vec![0x41]);
}

#[test]
fn run_with_zero_budget_does_nothing() {
    let mut emu = emu_with(&[(0x100, 0x3C)]);
    assert!(emu.run(0));
    assert_eq!(emu.cpu.registers.pc, 0x100);
    assert_eq!(emu.cpu.registers.a, 0x01);
}
