use gbcore::cartridge::Cartridge;
use gbcore::emu::Emu;
use gbcore::instruction::{
    AddressingMode, CBInstruction, Condition, Instruction, Register, is_reg_16,
};

#[test]
fn decode_irregular_rows() {
    assert_eq!(Instruction::from(0x00), Instruction::NOP);
    assert_eq!(
        Instruction::from(0x01),
        Instruction::LD(AddressingMode::R(Register::BC), AddressingMode::D16)
    );
    assert_eq!(
        Instruction::from(0x02),
        Instruction::LD(AddressingMode::MR(Register::BC), AddressingMode::R(Register::A))
    );
    assert_eq!(Instruction::from(0x07), Instruction::RLCA);
    assert_eq!(
        Instruction::from(0x08),
        Instruction::LD(AddressingMode::A16, AddressingMode::R(Register::SP))
    );
    assert_eq!(Instruction::from(0x10), Instruction::STOP);
    assert_eq!(Instruction::from(0x18), Instruction::JR(Condition::Always));
    assert_eq!(Instruction::from(0x20), Instruction::JR(Condition::NZ));
    assert_eq!(Instruction::from(0x22), Instruction::LDI1);
    assert_eq!(Instruction::from(0x27), Instruction::DAA);
    assert_eq!(Instruction::from(0x2A), Instruction::LDI2);
    assert_eq!(Instruction::from(0x32), Instruction::LDD1);
    assert_eq!(Instruction::from(0x34), Instruction::INCHL);
    assert_eq!(Instruction::from(0x35), Instruction::DECHL);
    assert_eq!(Instruction::from(0x3A), Instruction::LDD2);
    assert_eq!(Instruction::from(0x3C), Instruction::INC(Register::A));
    assert_eq!(Instruction::from(0x3D), Instruction::DEC(Register::A));
}

#[test]
fn decode_regular_load_block() {
    assert_eq!(
        Instruction::from(0x41),
        Instruction::LD(AddressingMode::R(Register::B), AddressingMode::R(Register::C))
    );
    assert_eq!(
        Instruction::from(0x66),
        Instruction::LD(AddressingMode::R(Register::H), AddressingMode::MR(Register::HL))
    );
    assert_eq!(
        Instruction::from(0x77),
        Instruction::LD(AddressingMode::MR(Register::HL), AddressingMode::R(Register::A))
    );
    assert_eq!(Instruction::from(0x76), Instruction::HALT);
    assert_eq!(
        Instruction::from(0x7F),
        Instruction::LD(AddressingMode::R(Register::A), AddressingMode::R(Register::A))
    );
}

#[test]
fn decode_alu_block() {
    assert_eq!(Instruction::from(0x80), Instruction::ADD(AddressingMode::R(Register::B)));
    assert_eq!(Instruction::from(0x86), Instruction::ADD(AddressingMode::MR(Register::HL)));
    assert_eq!(Instruction::from(0x8F), Instruction::ADC(AddressingMode::R(Register::A)));
    assert_eq!(Instruction::from(0x97), Instruction::SUB(AddressingMode::R(Register::A)));
    assert_eq!(Instruction::from(0x9E), Instruction::SBC(AddressingMode::MR(Register::HL)));
    assert_eq!(Instruction::from(0xA1), Instruction::AND(AddressingMode::R(Register::C)));
    assert_eq!(Instruction::from(0xAD), Instruction::XOR(AddressingMode::R(Register::L)));
    assert_eq!(Instruction::from(0xB2), Instruction::OR(AddressingMode::R(Register::D)));
    assert_eq!(Instruction::from(0xBB), Instruction::CP(AddressingMode::R(Register::E)));
}

#[test]
fn decode_high_rows() {
    assert_eq!(Instruction::from(0xC0), Instruction::RET(Condition::NZ));
    assert_eq!(Instruction::from(0xC1), Instruction::POP(Register::BC));
    assert_eq!(Instruction::from(0xC3), Instruction::JP(Condition::Always));
    assert_eq!(Instruction::from(0xC6), Instruction::ADD(AddressingMode::D8));
    assert_eq!(Instruction::from(0xC7), Instruction::RST(0x00));
    assert_eq!(Instruction::from(0xC9), Instruction::RET(Condition::Always));
    assert_eq!(Instruction::from(0xCB), Instruction::PREFIX);
    assert_eq!(Instruction::from(0xD9), Instruction::RETI);
    assert_eq!(
        Instruction::from(0xE0),
        Instruction::LD(AddressingMode::A8, AddressingMode::R(Register::A))
    );
    assert_eq!(
        Instruction::from(0xE2),
        Instruction::LD(AddressingMode::MR(Register::C), AddressingMode::R(Register::A))
    );
    assert_eq!(Instruction::from(0xE8), Instruction::ADDSP);
    assert_eq!(Instruction::from(0xE9), Instruction::JPHL);
    assert_eq!(Instruction::from(0xF1), Instruction::POPAF);
    assert_eq!(Instruction::from(0xF3), Instruction::DI);
    assert_eq!(Instruction::from(0xF5), Instruction::PUSH(Register::AF));
    assert_eq!(Instruction::from(0xF8), Instruction::LDHL);
    assert_eq!(
        Instruction::from(0xF9),
        Instruction::LD(AddressingMode::R(Register::SP), AddressingMode::R(Register::HL))
    );
    assert_eq!(Instruction::from(0xFB), Instruction::EI);
    assert_eq!(Instruction::from(0xFF), Instruction::RST(0x38));
}

#[test]
fn decode_illegal_opcodes() {
    for op in [0xD3u8, 0xDB, 0xDD, 0xE3, 0xE4, 0xEB, 0xEC, 0xED, 0xF4, 0xFC, 0xFD] {
        assert_eq!(Instruction::from(op), Instruction::Illegal);
    }
}

#[test]
fn decode_cb_table() {
    assert_eq!(CBInstruction::from(0x00), CBInstruction::RLC(Register::B));
    assert_eq!(CBInstruction::from(0x0E), CBInstruction::RRC(Register::HL));
    assert_eq!(CBInstruction::from(0x11), CBInstruction::RL(Register::C));
    assert_eq!(CBInstruction::from(0x1F), CBInstruction::RR(Register::A));
    assert_eq!(CBInstruction::from(0x22), CBInstruction::SLA(Register::D));
    assert_eq!(CBInstruction::from(0x2B), CBInstruction::SRA(Register::E));
    assert_eq!(CBInstruction::from(0x34), CBInstruction::SWAP(Register::H));
    assert_eq!(CBInstruction::from(0x3D), CBInstruction::SRL(Register::L));
    assert_eq!(CBInstruction::from(0x40), CBInstruction::BIT(0, Register::B));
    assert_eq!(CBInstruction::from(0x7E), CBInstruction::BIT(7, Register::HL));
    assert_eq!(CBInstruction::from(0x87), CBInstruction::RES(0, Register::A));
    assert_eq!(CBInstruction::from(0xBD), CBInstruction::RES(7, Register::L));
    assert_eq!(CBInstruction::from(0xC6), CBInstruction::SET(0, Register::HL));
    assert_eq!(CBInstruction::from(0xFF), CBInstruction::SET(7, Register::A));
}

#[test]
fn register_width_classes() {
    assert!(is_reg_16(Register::AF));
    assert!(is_reg_16(Register::BC));
    assert!(is_reg_16(Register::DE));
    assert!(is_reg_16(Register::HL));
    assert!(is_reg_16(Register::SP));
    assert!(is_reg_16(Register::PC));
    assert!(!is_reg_16(Register::A));
    assert!(!is_reg_16(Register::F));
    assert!(!is_reg_16(Register::L));
}

#[test]
fn alu_exact_values() {
    // ADD: 0x3A + 0xC6 wraps to zero with H and C.
    assert_eq!(gbcore::alu::alu_add(0x3A, 0xC6), (0x00, 0xB0));
    // ADC with carry-in.
    assert_eq!(gbcore::alu::alu_adc(0x0F, 0x00, 0x10), (0x10, 0x20));
    // SUB setting the borrow.
    assert_eq!(gbcore::alu::alu_sub(0x10, 0x20), (0xF0, 0x50));
    // SBC borrowing one more.
    assert_eq!(gbcore::alu::alu_sbc(0x10, 0x0F, 0x10), (0x00, 0xE0));
    // AND always sets H.
    assert_eq!(gbcore::alu::alu_and(0xF0, 0x0F), (0x00, 0xA0));
    assert_eq!(gbcore::alu::alu_or(0xF0, 0x0F), (0xFF, 0x00));
    assert_eq!(gbcore::alu::alu_xor(0xFF, 0x0F), (0xF0, 0x00));
    // CP leaves A alone and reports the comparison in flags.
    assert_eq!(gbcore::alu::alu_cp(0x42, 0x42), 0xC0);
    // INC at the wrap point: Z and H, C preserved.
    assert_eq!(gbcore::alu::alu_inc8(0xFF, 0x10), (0x00, 0xB0));
    // DEC from zero wraps to 0xFF with N and H.
    assert_eq!(gbcore::alu::alu_dec8(0x00, 0x00), (0xFF, 0x60));
    // ADD HL,rr: half-carry out of bit 11.
    assert_eq!(gbcore::alu::alu_add_hl(0x0FFF, 0x0001, 0x80), (0x1000, 0xA0));
    // DAA after adding BCD 0x45 + 0x38 = 0x7D adjusts to 0x83.
    assert_eq!(gbcore::alu::alu_daa(0x7D, 0x20), (0x83, 0x00));
}

#[test]
fn rotate_and_shift_values() {
    assert_eq!(gbcore::alu::alu_rlca(0x85), (0x0B, 0x10));
    assert_eq!(gbcore::alu::alu_rrca(0x01), (0x80, 0x10));
    assert_eq!(gbcore::alu::alu_rla(0x80, 0x10), (0x01, 0x10));
    assert_eq!(gbcore::alu::alu_rra(0x01, 0x00), (0x00, 0x10));
    assert_eq!(gbcore::alu::rel_addr(0x0100, 0x02), 0x0102);
    assert_eq!(gbcore::alu::rel_addr(0x0100, 0xFE), 0x00FE);
    assert_eq!(gbcore::alu::rel_addr(0x0000, 0xFF), 0xFFFF);
    assert_eq!(gbcore::alu::rel_addr(0xFFFF, 0x01), 0x0000);
}

#[test]
fn pair_compose_and_split() {
    assert_eq!(gbcore::bits::make16(0x12, 0x34), 0x1234);
    assert_eq!(gbcore::bits::high_byte(0xABCD), 0xAB);
    assert_eq!(gbcore::bits::low_byte(0xABCD), 0xCD);
    for v in [0x0000u16, 0x0001, 0x00FF, 0x0100, 0x1234, 0xFFFF] {
        assert_eq!(
            gbcore::bits::make16(gbcore::bits::high_byte(v), gbcore::bits::low_byte(v)),
            v
        );
    }
    assert_eq!(gbcore::bits::pack_flags(true, false, true, true), 0xB0);
    assert_eq!(gbcore::bits::pack_flags(false, false, false, false), 0x00);
}

#[test]
fn cb_instructions_through_cpu() {
    // CB 0x37: SWAP A; CB 0x40: BIT 0,B; CB 0xC0: SET 0,B; CB 0x80: RES 0,B.
    let mut rom = vec![0u8; 0x8000];
    let program = [0xCBu8, 0x37, 0xCB, 0x40, 0xCB, 0xC0, 0xCB, 0x80];
    for (i, b) in program.iter().enumerate() {
        rom[0x100 + i] = *b;
    }
    let mut emu = Emu::create(Cartridge::from(rom));
    emu.cpu.registers.a = 0x2F;
    emu.cpu.registers.b = 0x00;
    assert!(emu.cpu.step());
    assert_eq!(emu.cpu.registers.a, 0xF2);
    assert!(emu.cpu.step());
    assert_eq!(emu.cpu.registers.f & 0x80, 0x80); // bit 0 of B is clear
    assert!(emu.cpu.step());
    assert_eq!(emu.cpu.registers.b, 0x01);
    assert!(emu.cpu.step());
    assert_eq!(emu.cpu.registers.b, 0x00);
}
