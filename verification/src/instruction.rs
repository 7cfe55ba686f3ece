//! SM83 instruction set: register, condition and addressing-mode selectors,
//! the tagged instruction type, and the two 256-entry decode tables (primary
//! and CB-prefixed), stated as spec functions and mirrored by executable
//! decoders proved against them.
use vstd::prelude::*;

verus! {

#[derive(Clone, Copy, Debug, PartialEq, Eq, Structural)]
pub enum Register {
    A,
    F,
    B,
    C,
    D,
    E,
    H,
    L,
    AF,
    BC,
    DE,
    HL,
    SP,
    PC,
}

#[derive(Clone, Copy, Debug, PartialEq, Eq, Structural)]
pub enum AddressingMode {
    R(Register),
    MR(Register),
    D16,
    D8,
    A16,
    A8,
}

#[derive(Clone, Copy, Debug, PartialEq, Eq, Structural)]
pub enum Condition {
    Always,
    NZ,
    Z,
    NC,
    C,
}

#[derive(Clone, Copy, Debug, PartialEq, Eq, Structural)]
pub enum Instruction {
    Illegal,
    ADC(AddressingMode),
    ADD(AddressingMode),
    ADDHL(Register),
    ADDSP,
    AND(AddressingMode),
    CALL(Condition),
    CCF,
    CP(AddressingMode),
    CPL,
    DAA,
    DEC(Register),
    DECHL,
    DI,
    EI,
    HALT,
    INC(Register),
    INCHL,
    JP(Condition),
    JPHL,
    JR(Condition),
    LD(AddressingMode, AddressingMode),
    LDI1,
    LDI2,
    LDD1,
    LDD2,
    LDHL,
    NOP,
    OR(AddressingMode),
    POP(Register),
    POPAF,
    PREFIX,
    PUSH(Register),
    RET(Condition),
    RETI,
    RLA,
    RLCA,
    RRA,
    RRCA,
    RST(u8),
    SBC(AddressingMode),
    SCF,
    STOP,
    SUB(AddressingMode),
    XOR(AddressingMode),
}

#[derive(Clone, Copy, Debug, PartialEq, Eq, Structural)]
pub enum CBInstruction {
    BIT(u8, Register),
    RES(u8, Register),
    RL(Register),
    RLC(Register),
    RR(Register),
    RRC(Register),
    SET(u8, Register),
    SLA(Register),
    SRA(Register),
    SRL(Register),
    SWAP(Register),
}

/// Whether a register selector names one of the six 16-bit registers.
pub open spec fn spec_is_reg_16(reg: Register) -> bool {
    match reg {
        Register::AF | Register::BC | Register::DE | Register::HL | Register::PC
            | Register::SP => true,
        _ => false,
    }
}

pub fn is_reg_16(reg: Register) -> (r: bool)
    ensures
        r == spec_is_reg_16(reg),
{
    match reg {
        Register::AF | Register::BC | Register::DE | Register::HL | Register::PC
            | Register::SP => true,
        _ => false,
    }
}

/// The operand selector shared by the regular opcode rows: index 0 to 7
/// picks B, C, D, E, H, L, the memory cell at HL, or A.
pub open spec fn src_operand(z: u8) -> AddressingMode {
    match z {
        0u8 => AddressingMode::R(Register::B),
        1u8 => AddressingMode::R(Register::C),
        2u8 => AddressingMode::R(Register::D),
        3u8 => AddressingMode::R(Register::E),
        4u8 => AddressingMode::R(Register::H),
        5u8 => AddressingMode::R(Register::L),
        6u8 => AddressingMode::MR(Register::HL),
        _ => AddressingMode::R(Register::A),
    }
}

fn src_operand_exec(z: u8) -> (m: AddressingMode)
    ensures
        m == src_operand(z),
{
    match z {
        0u8 => AddressingMode::R(Register::B),
        1u8 => AddressingMode::R(Register::C),
        2u8 => AddressingMode::R(Register::D),
        3u8 => AddressingMode::R(Register::E),
        4u8 => AddressingMode::R(Register::H),
        5u8 => AddressingMode::R(Register::L),
        6u8 => AddressingMode::MR(Register::HL),
        _ => AddressingMode::R(Register::A),
    }
}

/// The arithmetic/logic family selector for opcodes 0x80 through 0xBF:
/// index 0 to 7 picks ADD, ADC, SUB, SBC, AND, XOR, OR, CP.
pub open spec fn alu_family(y: u8, m: AddressingMode) -> Instruction {
    match y {
        0u8 => Instruction::ADD(m),
        1u8 => Instruction::ADC(m),
        2u8 => Instruction::SUB(m),
        3u8 => Instruction::SBC(m),
        4u8 => Instruction::AND(m),
        5u8 => Instruction::XOR(m),
        6u8 => Instruction::OR(m),
        _ => Instruction::CP(m),
    }
}

fn alu_family_exec(y: u8, m: AddressingMode) -> (i: Instruction)
    ensures
        i == alu_family(y, m),
{
    match y {
        0u8 => Instruction::ADD(m),
        1u8 => Instruction::ADC(m),
        2u8 => Instruction::SUB(m),
        3u8 => Instruction::SBC(m),
        4u8 => Instruction::AND(m),
        5u8 => Instruction::XOR(m),
        6u8 => Instruction::OR(m),
        _ => Instruction::CP(m),
    }
}

/// The primary decode table: every opcode 0x00 through 0xFF maps to one
/// instruction; the eleven illegal opcodes map to `Instruction::Illegal`.
pub open spec fn primary_op(op: u8) -> Instruction {
    if 0x40 <= op && op < 0x80 {
        if op == 0x76 {
            Instruction::HALT
        } else {
            Instruction::LD(src_operand(((op - 0x40) / 8) as u8), src_operand((op % 8) as u8))
        }
    } else if 0x80 <= op && op < 0xC0 {
        alu_family(((op - 0x80) / 8) as u8, src_operand((op % 8) as u8))
    } else {
        match op {
            0x00u8 => Instruction::NOP,
            0x01u8 => Instruction::LD(AddressingMode::R(Register::BC), AddressingMode::D16),
            0x02u8 => Instruction::LD(
                AddressingMode::MR(Register::BC),
                AddressingMode::R(Register::A),
            ),
            0x03u8 => Instruction::INC(Register::BC),
            0x04u8 => Instruction::INC(Register::B),
            0x05u8 => Instruction::DEC(Register::B),
            0x06u8 => Instruction::LD(AddressingMode::R(Register::B), AddressingMode::D8),
            0x07u8 => Instruction::RLCA,
            0x08u8 => Instruction::LD(AddressingMode::A16, AddressingMode::R(Register::SP)),
            0x09u8 => Instruction::ADDHL(Register::BC),
            0x0Au8 => Instruction::LD(
                AddressingMode::R(Register::A),
                AddressingMode::MR(Register::BC),
            ),
            0x0Bu8 => Instruction::DEC(Register::BC),
            0x0Cu8 => Instruction::INC(Register::C),
            0x0Du8 => Instruction::DEC(Register::C),
            0x0Eu8 => Instruction::LD(AddressingMode::R(Register::C), AddressingMode::D8),
            0x0Fu8 => Instruction::RRCA,
            0x10u8 => Instruction::STOP,
            0x11u8 => Instruction::LD(AddressingMode::R(Register::DE), AddressingMode::D16),
            0x12u8 => Instruction::LD(
                AddressingMode::MR(Register::DE),
                AddressingMode::R(Register::A),
            ),
            0x13u8 => Instruction::INC(Register::DE),
            0x14u8 => Instruction::INC(Register::D),
            0x15u8 => Instruction::DEC(Register::D),
            0x16u8 => Instruction::LD(AddressingMode::R(Register::D), AddressingMode::D8),
            0x17u8 => Instruction::RLA,
            0x18u8 => Instruction::JR(Condition::Always),
            0x19u8 => Instruction::ADDHL(Register::DE),
            0x1Au8 => Instruction::LD(
                AddressingMode::R(Register::A),
                AddressingMode::MR(Register::DE),
            ),
            0x1Bu8 => Instruction::DEC(Register::DE),
            0x1Cu8 => Instruction::INC(Register::E),
            0x1Du8 => Instruction::DEC(Register::E),
            0x1Eu8 => Instruction::LD(AddressingMode::R(Register::E), AddressingMode::D8),
            0x1Fu8 => Instruction::RRA,
            0x20u8 => Instruction::JR(Condition::NZ),
            0x21u8 => Instruction::LD(AddressingMode::R(Register::HL), AddressingMode::D16),
            0x22u8 => Instruction::LDI1,
            0x23u8 => Instruction::INC(Register::HL),
            0x24u8 => Instruction::INC(Register::H),
            0x25u8 => Instruction::DEC(Register::H),
            0x26u8 => Instruction::LD(AddressingMode::R(Register::H), AddressingMode::D8),
            0x27u8 => Instruction::DAA,
            0x28u8 => Instruction::JR(Condition::Z),
            0x29u8 => Instruction::ADDHL(Register::HL),
            0x2Au8 => Instruction::LDI2,
            0x2Bu8 => Instruction::DEC(Register::HL),
            0x2Cu8 => Instruction::INC(Register::L),
            0x2Du8 => Instruction::DEC(Register::L),
            0x2Eu8 => Instruction::LD(AddressingMode::R(Register::L), AddressingMode::D8),
            0x2Fu8 => Instruction::CPL,
            0x30u8 => Instruction::JR(Condition::NC),
            0x31u8 => Instruction::LD(AddressingMode::R(Register::SP), AddressingMode::D16),
            0x32u8 => Instruction::LDD1,
            0x33u8 => Instruction::INC(Register::SP),
            0x34u8 => Instruction::INCHL,
            0x35u8 => Instruction::DECHL,
            0x36u8 => Instruction::LD(AddressingMode::MR(Register::HL), AddressingMode::D8),
            0x37u8 => Instruction::SCF,
            0x38u8 => Instruction::JR(Condition::C),
            0x39u8 => Instruction::ADDHL(Register::SP),
            0x3Au8 => Instruction::LDD2,
            0x3Bu8 => Instruction::DEC(Register::SP),
            0x3Cu8 => Instruction::INC(Register::A),
            0x3Du8 => Instruction::DEC(Register::A),
            0x3Eu8 => Instruction::LD(AddressingMode::R(Register::A), AddressingMode::D8),
            0x3Fu8 => Instruction::CCF,
            0xC0u8 => Instruction::RET(Condition::NZ),
            0xC1u8 => Instruction::POP(Register::BC),
            0xC2u8 => Instruction::JP(Condition::NZ),
            0xC3u8 => Instruction::JP(Condition::Always),
            0xC4u8 => Instruction::CALL(Condition::NZ),
            0xC5u8 => Instruction::PUSH(Register::BC),
            0xC6u8 => Instruction::ADD(AddressingMode::D8),
            0xC7u8 => Instruction::RST(0x00),
            0xC8u8 => Instruction::RET(Condition::Z),
            0xC9u8 => Instruction::RET(Condition::Always),
            0xCAu8 => Instruction::JP(Condition::Z),
            0xCBu8 => Instruction::PREFIX,
            0xCCu8 => Instruction::CALL(Condition::Z),
            0xCDu8 => Instruction::CALL(Condition::Always),
            0xCEu8 => Instruction::ADC(AddressingMode::D8),
            0xCFu8 => Instruction::RST(0x08),
            0xD0u8 => Instruction::RET(Condition::NC),
            0xD1u8 => Instruction::POP(Register::DE),
            0xD2u8 => Instruction::JP(Condition::NC),
            0xD4u8 => Instruction::CALL(Condition::NC),
            0xD5u8 => Instruction::PUSH(Register::DE),
            0xD6u8 => Instruction::SUB(AddressingMode::D8),
            0xD7u8 => Instruction::RST(0x10),
            0xD8u8 => Instruction::RET(Condition::C),
            0xD9u8 => Instruction::RETI,
            0xDAu8 => Instruction::JP(Condition::C),
            0xDCu8 => Instruction::CALL(Condition::C),
            0xDEu8 => Instruction::SBC(AddressingMode::D8),
            0xDFu8 => Instruction::RST(0x18),
            0xE0u8 => Instruction::LD(AddressingMode::A8, AddressingMode::R(Register::A)),
            0xE1u8 => Instruction::POP(Register::HL),
            0xE2u8 => Instruction::LD(
                AddressingMode::MR(Register::C),
                AddressingMode::R(Register::A),
            ),
            0xE5u8 => Instruction::PUSH(Register::HL),
            0xE6u8 => Instruction::AND(AddressingMode::D8),
            0xE7u8 => Instruction::RST(0x20),
            0xE8u8 => Instruction::ADDSP,
            0xE9u8 => Instruction::JPHL,
            0xEAu8 => Instruction::LD(AddressingMode::A16, AddressingMode::R(Register::A)),
            0xEEu8 => Instruction::XOR(AddressingMode::D8),
            0xEFu8 => Instruction::RST(0x28),
            0xF0u8 => Instruction::LD(AddressingMode::R(Register::A), AddressingMode::A8),
            0xF1u8 => Instruction::POPAF,
            0xF2u8 => Instruction::LD(
                AddressingMode::R(Register::A),
                AddressingMode::MR(Register::C),
            ),
            0xF3u8 => Instruction::DI,
            0xF5u8 => Instruction::PUSH(Register::AF),
            0xF6u8 => Instruction::OR(AddressingMode::D8),
            0xF7u8 => Instruction::RST(0x30),
            0xF8u8 => Instruction::LDHL,
            0xF9u8 => Instruction::LD(
                AddressingMode::R(Register::SP),
                AddressingMode::R(Register::HL),
            ),
            0xFAu8 => Instruction::LD(AddressingMode::R(Register::A), AddressingMode::A16),
            0xFBu8 => Instruction::EI,
            0xFEu8 => Instruction::CP(AddressingMode::D8),
            0xFFu8 => Instruction::RST(0x38),
            _ => Instruction::Illegal,
        }
    }
}

/// The CB-prefixed decode table: bits 6-7 select the operation class, bits
/// 3-5 the shift kind or bit index, bits 0-2 the target register (with HL
/// standing for the memory cell at HL).
pub open spec fn cb_op(op: u8) -> CBInstruction {
    let y = ((op / 8) % 8) as u8;
    let r = cb_target((op % 8) as u8);
    if op < 0x40 {
        match y {
            0u8 => CBInstruction::RLC(r),
            1u8 => CBInstruction::RRC(r),
            2u8 => CBInstruction::RL(r),
            3u8 => CBInstruction::RR(r),
            4u8 => CBInstruction::SLA(r),
            5u8 => CBInstruction::SRA(r),
            6u8 => CBInstruction::SWAP(r),
            _ => CBInstruction::SRL(r),
        }
    } else if op < 0x80 {
        CBInstruction::BIT(y, r)
    } else if op < 0xC0 {
        CBInstruction::RES(y, r)
    } else {
        CBInstruction::SET(y, r)
    }
}

/// Target selector for CB-prefixed opcodes.
pub open spec fn cb_target(z: u8) -> Register {
    match z {
        0u8 => Register::B,
        1u8 => Register::C,
        2u8 => Register::D,
        3u8 => Register::E,
        4u8 => Register::H,
        5u8 => Register::L,
        6u8 => Register::HL,
        _ => Register::A,
    }
}

fn cb_target_exec(z: u8) -> (r: Register)
    ensures
        r == cb_target(z),
{
    match z {
        0u8 => Register::B,
        1u8 => Register::C,
        2u8 => Register::D,
        3u8 => Register::E,
        4u8 => Register::H,
        5u8 => Register::L,
        6u8 => Register::HL,
        _ => Register::A,
    }
}

/// The shape constraints that every instruction coming out of the primary
/// decode table satisfies; the executor relies on them (for instance, that
/// no load ever targets the flag register).
pub open spec fn instr_ok(i: Instruction) -> bool {
    match i {
        Instruction::Illegal => false,
        Instruction::STOP => false,
        Instruction::LD(l, r) => ld_left_ok(l) && ld_right_ok(r),
        Instruction::INC(reg) | Instruction::DEC(reg) => reg != Register::F && reg != Register::AF
            && reg != Register::PC,
        Instruction::ADDHL(reg) => spec_is_reg_16(reg) && reg != Register::AF,
        Instruction::POP(reg) => reg == Register::BC || reg == Register::DE || reg
            == Register::HL,
        Instruction::PUSH(reg) => reg == Register::AF || reg == Register::BC || reg
            == Register::DE || reg == Register::HL,
        Instruction::ADC(m) | Instruction::ADD(m) | Instruction::SUB(m) | Instruction::SBC(m)
            | Instruction::AND(m) | Instruction::OR(m) | Instruction::XOR(m)
            | Instruction::CP(m) => alu_mode_ok(m),
        _ => true,
    }
}

/// Destination operands the load executor accepts: a writable register, a
/// memory cell named by a register, or an absolute (high-page) address.
pub open spec fn ld_left_ok(l: AddressingMode) -> bool {
    match l {
        AddressingMode::R(reg) => reg != Register::F && reg != Register::AF && reg
            != Register::PC,
        AddressingMode::MR(_) => true,
        AddressingMode::A8 => true,
        AddressingMode::A16 => true,
        _ => false,
    }
}

/// Source operands the load executor accepts.
pub open spec fn ld_right_ok(r: AddressingMode) -> bool {
    true
}

/// Source operands the 8-bit arithmetic families accept: a plain 8-bit
/// register, the memory cell at HL, or an immediate byte.
pub open spec fn alu_mode_ok(m: AddressingMode) -> bool {
    match m {
        AddressingMode::R(reg) => !spec_is_reg_16(reg) && reg != Register::F,
        AddressingMode::MR(reg) => reg == Register::HL,
        AddressingMode::D8 => true,
        _ => false,
    }
}

/// The shape constraints every CB-prefixed instruction satisfies: the bit
/// index is below eight and the target is an 8-bit register or HL.
pub open spec fn cb_ok(i: CBInstruction) -> bool {
    match i {
        CBInstruction::BIT(b, r) => b < 8 && cb_reg_ok(r),
        CBInstruction::RES(b, r) => b < 8 && cb_reg_ok(r),
        CBInstruction::SET(b, r) => b < 8 && cb_reg_ok(r),
        CBInstruction::RL(r) | CBInstruction::RLC(r) | CBInstruction::RR(r)
            | CBInstruction::RRC(r) | CBInstruction::SLA(r) | CBInstruction::SRA(r)
            | CBInstruction::SRL(r) | CBInstruction::SWAP(r) => cb_reg_ok(r),
    }
}

pub open spec fn cb_reg_ok(r: Register) -> bool {
    r == Register::A || r == Register::B || r == Register::C || r == Register::D || r
        == Register::E || r == Register::H || r == Register::L || r == Register::HL
}

impl Instruction {
    /// Decode a primary opcode. Exactly the eleven illegal opcodes decode to
    /// `Instruction::Illegal`; 0x10 decodes to STOP; everything else satisfies
    /// the executor's shape constraints.
    pub fn from(opcode: u8) -> (i: Instruction)
        ensures
            i == primary_op(opcode),
            i != Instruction::Illegal && i != Instruction::STOP ==> instr_ok(i),
    {
        if 0x40 <= opcode && opcode < 0x80 {
            if opcode == 0x76 {
                Instruction::HALT
            } else {
                Instruction::LD(src_operand_exec((opcode - 0x40) / 8), src_operand_exec(opcode % 8))
            }
        } else if 0x80 <= opcode && opcode < 0xC0 {
            alu_family_exec((opcode - 0x80) / 8, src_operand_exec(opcode % 8))
        } else {
            match opcode {
                0x00u8 => Instruction::NOP,
                0x01u8 => Instruction::LD(AddressingMode::R(Register::BC), AddressingMode::D16),
                0x02u8 => Instruction::LD(
                    AddressingMode::MR(Register::BC),
                    AddressingMode::R(Register::A),
                ),
                0x03u8 => Instruction::INC(Register::BC),
                0x04u8 => Instruction::INC(Register::B),
                0x05u8 => Instruction::DEC(Register::B),
                0x06u8 => Instruction::LD(AddressingMode::R(Register::B), AddressingMode::D8),
                0x07u8 => Instruction::RLCA,
                0x08u8 => Instruction::LD(AddressingMode::A16, AddressingMode::R(Register::SP)),
                0x09u8 => Instruction::ADDHL(Register::BC),
                0x0Au8 => Instruction::LD(
                    AddressingMode::R(Register::A),
                    AddressingMode::MR(Register::BC),
                ),
                0x0Bu8 => Instruction::DEC(Register::BC),
                0x0Cu8 => Instruction::INC(Register::C),
                0x0Du8 => Instruction::DEC(Register::C),
                0x0Eu8 => Instruction::LD(AddressingMode::R(Register::C), AddressingMode::D8),
                0x0Fu8 => Instruction::RRCA,
                0x10u8 => Instruction::STOP,
                0x11u8 => Instruction::LD(AddressingMode::R(Register::DE), AddressingMode::D16),
                0x12u8 => Instruction::LD(
                    AddressingMode::MR(Register::DE),
                    AddressingMode::R(Register::A),
                ),
                0x13u8 => Instruction::INC(Register::DE),
                0x14u8 => Instruction::INC(Register::D),
                0x15u8 => Instruction::DEC(Register::D),
                0x16u8 => Instruction::LD(AddressingMode::R(Register::D), AddressingMode::D8),
                0x17u8 => Instruction::RLA,
                0x18u8 => Instruction::JR(Condition::Always),
                0x19u8 => Instruction::ADDHL(Register::DE),
                0x1Au8 => Instruction::LD(
                    AddressingMode::R(Register::A),
                    AddressingMode::MR(Register::DE),
                ),
                0x1Bu8 => Instruction::DEC(Register::DE),
                0x1Cu8 => Instruction::INC(Register::E),
                0x1Du8 => Instruction::DEC(Register::E),
                0x1Eu8 => Instruction::LD(AddressingMode::R(Register::E), AddressingMode::D8),
                0x1Fu8 => Instruction::RRA,
                0x20u8 => Instruction::JR(Condition::NZ),
                0x21u8 => Instruction::LD(AddressingMode::R(Register::HL), AddressingMode::D16),
                0x22u8 => Instruction::LDI1,
                0x23u8 => Instruction::INC(Register::HL),
                0x24u8 => Instruction::INC(Register::H),
                0x25u8 => Instruction::DEC(Register::H),
                0x26u8 => Instruction::LD(AddressingMode::R(Register::H), AddressingMode::D8),
                0x27u8 => Instruction::DAA,
                0x28u8 => Instruction::JR(Condition::Z),
                0x29u8 => Instruction::ADDHL(Register::HL),
                0x2Au8 => Instruction::LDI2,
                0x2Bu8 => Instruction::DEC(Register::HL),
                0x2Cu8 => Instruction::INC(Register::L),
                0x2Du8 => Instruction::DEC(Register::L),
                0x2Eu8 => Instruction::LD(AddressingMode::R(Register::L), AddressingMode::D8),
                0x2Fu8 => Instruction::CPL,
                0x30u8 => Instruction::JR(Condition::NC),
                0x31u8 => Instruction::LD(AddressingMode::R(Register::SP), AddressingMode::D16),
                0x32u8 => Instruction::LDD1,
                0x33u8 => Instruction::INC(Register::SP),
                0x34u8 => Instruction::INCHL,
                0x35u8 => Instruction::DECHL,
                0x36u8 => Instruction::LD(AddressingMode::MR(Register::HL), AddressingMode::D8),
                0x37u8 => Instruction::SCF,
                0x38u8 => Instruction::JR(Condition::C),
                0x39u8 => Instruction::ADDHL(Register::SP),
                0x3Au8 => Instruction::LDD2,
                0x3Bu8 => Instruction::DEC(Register::SP),
                0x3Cu8 => Instruction::INC(Register::A),
                0x3Du8 => Instruction::DEC(Register::A),
                0x3Eu8 => Instruction::LD(AddressingMode::R(Register::A), AddressingMode::D8),
                0x3Fu8 => Instruction::CCF,
                0xC0u8 => Instruction::RET(Condition::NZ),
                0xC1u8 => Instruction::POP(Register::BC),
                0xC2u8 => Instruction::JP(Condition::NZ),
                0xC3u8 => Instruction::JP(Condition::Always),
                0xC4u8 => Instruction::CALL(Condition::NZ),
                0xC5u8 => Instruction::PUSH(Register::BC),
                0xC6u8 => Instruction::ADD(AddressingMode::D8),
                0xC7u8 => Instruction::RST(0x00),
                0xC8u8 => Instruction::RET(Condition::Z),
                0xC9u8 => Instruction::RET(Condition::Always),
                0xCAu8 => Instruction::JP(Condition::Z),
                0xCBu8 => Instruction::PREFIX,
                0xCCu8 => Instruction::CALL(Condition::Z),
                0xCDu8 => Instruction::CALL(Condition::Always),
                0xCEu8 => Instruction::ADC(AddressingMode::D8),
                0xCFu8 => Instruction::RST(0x08),
                0xD0u8 => Instruction::RET(Condition::NC),
                0xD1u8 => Instruction::POP(Register::DE),
                0xD2u8 => Instruction::JP(Condition::NC),
                0xD4u8 => Instruction::CALL(Condition::NC),
                0xD5u8 => Instruction::PUSH(Register::DE),
                0xD6u8 => Instruction::SUB(AddressingMode::D8),
                0xD7u8 => Instruction::RST(0x10),
                0xD8u8 => Instruction::RET(Condition::C),
                0xD9u8 => Instruction::RETI,
                0xDAu8 => Instruction::JP(Condition::C),
                0xDCu8 => Instruction::CALL(Condition::C),
                0xDEu8 => Instruction::SBC(AddressingMode::D8),
                0xDFu8 => Instruction::RST(0x18),
                0xE0u8 => Instruction::LD(AddressingMode::A8, AddressingMode::R(Register::A)),
                0xE1u8 => Instruction::POP(Register::HL),
                0xE2u8 => Instruction::LD(
                    AddressingMode::MR(Register::C),
                    AddressingMode::R(Register::A),
                ),
                0xE5u8 => Instruction::PUSH(Register::HL),
                0xE6u8 => Instruction::AND(AddressingMode::D8),
                0xE7u8 => Instruction::RST(0x20),
                0xE8u8 => Instruction::ADDSP,
                0xE9u8 => Instruction::JPHL,
                0xEAu8 => Instruction::LD(AddressingMode::A16, AddressingMode::R(Register::A)),
                0xEEu8 => Instruction::XOR(AddressingMode::D8),
                0xEFu8 => Instruction::RST(0x28),
                0xF0u8 => Instruction::LD(AddressingMode::R(Register::A), AddressingMode::A8),
                0xF1u8 => Instruction::POPAF,
                0xF2u8 => Instruction::LD(
                    AddressingMode::R(Register::A),
                    AddressingMode::MR(Register::C),
                ),
                0xF3u8 => Instruction::DI,
                0xF5u8 => Instruction::PUSH(Register::AF),
                0xF6u8 => Instruction::OR(AddressingMode::D8),
                0xF7u8 => Instruction::RST(0x30),
                0xF8u8 => Instruction::LDHL,
                0xF9u8 => Instruction::LD(
                    AddressingMode::R(Register::SP),
                    AddressingMode::R(Register::HL),
                ),
                0xFAu8 => Instruction::LD(AddressingMode::R(Register::A), AddressingMode::A16),
                0xFBu8 => Instruction::EI,
                0xFEu8 => Instruction::CP(AddressingMode::D8),
                0xFFu8 => Instruction::RST(0x38),
                _ => Instruction::Illegal,
            }
        }
    }
}

impl CBInstruction {
    /// Decode a CB-prefixed opcode; the table is total, so the result always
    /// satisfies the executor's shape constraints.
    pub fn from(opcode: u8) -> (i: CBInstruction)
        ensures
            i == cb_op(opcode),
            cb_ok(i),
    {
        let y = (opcode / 8) % 8;
        let r = cb_target_exec(opcode % 8);
        if opcode < 0x40 {
            match y {
                0u8 => CBInstruction::RLC(r),
                1u8 => CBInstruction::RRC(r),
                2u8 => CBInstruction::RL(r),
                3u8 => CBInstruction::RR(r),
                4u8 => CBInstruction::SLA(r),
                5u8 => CBInstruction::SRA(r),
                6u8 => CBInstruction::SWAP(r),
                _ => CBInstruction::SRL(r),
            }
        } else if opcode < 0x80 {
            CBInstruction::BIT(y, r)
        } else if opcode < 0xC0 {
            CBInstruction::RES(y, r)
        } else {
            CBInstruction::SET(y, r)
        }
    }
}

} // verus!
