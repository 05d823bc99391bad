//! The instructions and the opcodes that name them.

use vstd::prelude::*;

verus! {

/// An 8-bit operand, in the order of its three bits in an opcode.
#[derive(Clone, Copy, Debug, PartialEq, Eq, Structural)]
pub enum Reg8 {
    B,
    C,
    D,
    E,
    H,
    L,
    /// The byte in memory that HL points to.
    AtHL,
    A,
}

/// A 16-bit register, in the order of its two bits in an opcode.
#[derive(Clone, Copy, Debug, PartialEq, Eq, Structural)]
pub enum Reg16 {
    BC,
    DE,
    HL,
    SP,
}

/// A register pair that can be pushed and popped.
#[derive(Clone, Copy, Debug, PartialEq, Eq, Structural)]
pub enum StackReg {
    BC,
    DE,
    HL,
    AF,
}

/// A register pair that A is loaded and stored through. HL is incremented
/// or decremented after the access.
#[derive(Clone, Copy, Debug, PartialEq, Eq, Structural)]
pub enum Pointer {
    BC,
    DE,
    HLInc,
    HLDec,
}

/// The condition of a conditional jump, call or return.
#[derive(Clone, Copy, Debug, PartialEq, Eq, Structural)]
pub enum Cond {
    /// The zero flag is clear.
    NZ,
    /// The zero flag is set.
    Z,
    /// The carry flag is clear.
    NC,
    /// The carry flag is set.
    C,
}

/// An operation of the ALU on A and an operand.
#[derive(Clone, Copy, Debug, PartialEq, Eq, Structural)]
pub enum AluOp {
    Add,
    Adc,
    Sub,
    Sbc,
    And,
    Xor,
    Or,
    Cp,
}

/// A rotate or shift of the prefixed instructions.
#[derive(Clone, Copy, Debug, PartialEq, Eq, Structural)]
pub enum ShiftOp {
    Rlc,
    Rrc,
    Rl,
    Rr,
    Sla,
    Sra,
    Swap,
    Srl,
}

/// A decoded instruction.
#[derive(Clone, Copy, Debug, PartialEq, Eq, Structural)]
pub enum Instruction {
    Nop,
    /// LD rr,d16
    LoadWord(Reg16),
    /// LD (rr),A
    StoreA(Pointer),
    /// LD A,(rr)
    LoadA(Pointer),
    /// INC rr
    IncWord(Reg16),
    /// DEC rr
    DecWord(Reg16),
    /// INC r
    Inc(Reg8),
    /// DEC r
    Dec(Reg8),
    /// LD r,d8
    LoadImmediate(Reg8),
    Rlca,
    Rrca,
    Rla,
    Rra,
    Daa,
    Cpl,
    Scf,
    Ccf,
    /// LD (a16),SP
    StoreSp,
    /// JR r8
    Jr,
    /// JR cc,r8
    JrIf(Cond),
    /// ADD HL,rr
    AddHl(Reg16),
    /// LD r,r'
    Load(Reg8, Reg8),
    Halt,
    /// ADD, ADC, SUB, SBC, AND, XOR, OR, CP with a register or (HL)
    Alu(AluOp, Reg8),
    /// ADD, ADC, SUB, SBC, AND, XOR, OR, CP with the byte after the opcode
    AluImmediate(AluOp),
    /// RET cc
    RetIf(Cond),
    Pop(StackReg),
    /// JP cc,a16
    JpIf(Cond),
    /// JP a16
    Jp,
    /// CALL cc,a16
    CallIf(Cond),
    Push(StackReg),
    /// RST: a call of the fixed address given
    Rst(u8),
    Ret,
    Reti,
    /// JP (HL)
    JpHl,
    /// LD SP,HL
    LoadSpHl,
    /// CALL a16
    Call,
    /// LDH (a8),A
    StoreHigh,
    /// LDH A,(a8)
    LoadHigh,
    /// LD (C),A
    StoreHighC,
    /// LD A,(C)
    LoadHighC,
    /// LD (a16),A
    StoreAbsolute,
    /// LD A,(a16)
    LoadAbsolute,
    /// ADD SP,r8
    AddSp,
    /// LD HL,SP+r8
    LoadHlSp,
    Di,
    Ei,
    /// A rotate or shift of a register or (HL)
    Shift(ShiftOp, Reg8),
    /// BIT b,r
    TestBit(u8, Reg8),
    /// RES b,r
    ResetBit(u8, Reg8),
    /// SET b,r
    SetBit(u8, Reg8),
}

/// The 8-bit operand that three bits of an opcode name.
pub open spec fn spec_reg8(index: int) -> Reg8 {
    if index == 0 {
        Reg8::B
    } else if index == 1 {
        Reg8::C
    } else if index == 2 {
        Reg8::D
    } else if index == 3 {
        Reg8::E
    } else if index == 4 {
        Reg8::H
    } else if index == 5 {
        Reg8::L
    } else if index == 6 {
        Reg8::AtHL
    } else {
        Reg8::A
    }
}

/// The 16-bit register that two bits of an opcode name.
pub open spec fn spec_reg16(index: int) -> Reg16 {
    if index == 0 {
        Reg16::BC
    } else if index == 1 {
        Reg16::DE
    } else if index == 2 {
        Reg16::HL
    } else {
        Reg16::SP
    }
}

/// The register pair of a push or pop that two bits of an opcode name.
pub open spec fn spec_stack_reg(index: int) -> StackReg {
    if index == 0 {
        StackReg::BC
    } else if index == 1 {
        StackReg::DE
    } else if index == 2 {
        StackReg::HL
    } else {
        StackReg::AF
    }
}

/// The pointer that two bits of an opcode name.
pub open spec fn spec_pointer(index: int) -> Pointer {
    if index == 0 {
        Pointer::BC
    } else if index == 1 {
        Pointer::DE
    } else if index == 2 {
        Pointer::HLInc
    } else {
        Pointer::HLDec
    }
}

/// The condition that two bits of an opcode name.
pub open spec fn spec_cond(index: int) -> Cond {
    if index == 0 {
        Cond::NZ
    } else if index == 1 {
        Cond::Z
    } else if index == 2 {
        Cond::NC
    } else {
        Cond::C
    }
}

/// The ALU operation that three bits of an opcode name.
pub open spec fn spec_alu_op(index: int) -> AluOp {
    if index == 0 {
        AluOp::Add
    } else if index == 1 {
        AluOp::Adc
    } else if index == 2 {
        AluOp::Sub
    } else if index == 3 {
        AluOp::Sbc
    } else if index == 4 {
        AluOp::And
    } else if index == 5 {
        AluOp::Xor
    } else if index == 6 {
        AluOp::Or
    } else {
        AluOp::Cp
    }
}

/// The rotate or shift that three bits of a prefixed opcode name.
pub open spec fn spec_shift_op(index: int) -> ShiftOp {
    if index == 0 {
        ShiftOp::Rlc
    } else if index == 1 {
        ShiftOp::Rrc
    } else if index == 2 {
        ShiftOp::Rl
    } else if index == 3 {
        ShiftOp::Rr
    } else if index == 4 {
        ShiftOp::Sla
    } else if index == 5 {
        ShiftOp::Sra
    } else if index == 6 {
        ShiftOp::Swap
    } else {
        ShiftOp::Srl
    }
}

/// The instruction of an opcode of the first quarter, 0x00 to 0x3F: loads of
/// constants, increments and decrements, relative jumps, 16-bit additions
/// and the operations on A alone. `y` is bits 5 to 3 and `z` bits 2 to 0.
pub open spec fn decode_first_quarter(y: int, z: int) -> Option<Instruction> {
    if z == 0 {
        if y == 0 {
            Some(Instruction::Nop)
        } else if y == 1 {
            Some(Instruction::StoreSp)
        } else if y == 2 {
            None
        } else if y == 3 {
            Some(Instruction::Jr)
        } else {
            Some(Instruction::JrIf(spec_cond(y - 4)))
        }
    } else if z == 1 {
        if y % 2 == 0 {
            Some(Instruction::LoadWord(spec_reg16(y / 2)))
        } else {
            Some(Instruction::AddHl(spec_reg16(y / 2)))
        }
    } else if z == 2 {
        if y % 2 == 0 {
            Some(Instruction::StoreA(spec_pointer(y / 2)))
        } else {
            Some(Instruction::LoadA(spec_pointer(y / 2)))
        }
    } else if z == 3 {
        if y % 2 == 0 {
            Some(Instruction::IncWord(spec_reg16(y / 2)))
        } else {
            Some(Instruction::DecWord(spec_reg16(y / 2)))
        }
    } else if z == 4 {
        Some(Instruction::Inc(spec_reg8(y)))
    } else if z == 5 {
        Some(Instruction::Dec(spec_reg8(y)))
    } else if z == 6 {
        Some(Instruction::LoadImmediate(spec_reg8(y)))
    } else if y == 0 {
        Some(Instruction::Rlca)
    } else if y == 1 {
        Some(Instruction::Rrca)
    } else if y == 2 {
        Some(Instruction::Rla)
    } else if y == 3 {
        Some(Instruction::Rra)
    } else if y == 4 {
        Some(Instruction::Daa)
    } else if y == 5 {
        Some(Instruction::Cpl)
    } else if y == 6 {
        Some(Instruction::Scf)
    } else {
        Some(Instruction::Ccf)
    }
}

/// The instruction of an opcode of the last quarter, 0xC0 to 0xFF: returns,
/// jumps, calls, pushes and pops, the operations of the ALU on a constant,
/// and the loads through a constant address. `y` is bits 5 to 3 and `z` bits
/// 2 to 0. Eleven of these opcodes name no instruction.
pub open spec fn decode_last_quarter(y: int, z: int) -> Option<Instruction> {
    if z == 0 {
        if y < 4 {
            Some(Instruction::RetIf(spec_cond(y)))
        } else if y == 4 {
            Some(Instruction::StoreHigh)
        } else if y == 5 {
            Some(Instruction::AddSp)
        } else if y == 6 {
            Some(Instruction::LoadHigh)
        } else {
            Some(Instruction::LoadHlSp)
        }
    } else if z == 1 {
        if y % 2 == 0 {
            Some(Instruction::Pop(spec_stack_reg(y / 2)))
        } else if y == 1 {
            Some(Instruction::Ret)
        } else if y == 3 {
            Some(Instruction::Reti)
        } else if y == 5 {
            Some(Instruction::JpHl)
        } else {
            Some(Instruction::LoadSpHl)
        }
    } else if z == 2 {
        if y < 4 {
            Some(Instruction::JpIf(spec_cond(y)))
        } else if y == 4 {
            Some(Instruction::StoreHighC)
        } else if y == 5 {
            Some(Instruction::StoreAbsolute)
        } else if y == 6 {
            Some(Instruction::LoadHighC)
        } else {
            Some(Instruction::LoadAbsolute)
        }
    } else if z == 3 {
        if y == 0 {
            Some(Instruction::Jp)
        } else if y == 6 {
            Some(Instruction::Di)
        } else if y == 7 {
            Some(Instruction::Ei)
        } else {
            None
        }
    } else if z == 4 {
        if y < 4 {
            Some(Instruction::CallIf(spec_cond(y)))
        } else {
            None
        }
    } else if z == 5 {
        if y % 2 == 0 {
            Some(Instruction::Push(spec_stack_reg(y / 2)))
        } else if y == 1 {
            Some(Instruction::Call)
        } else {
            None
        }
    } else if z == 6 {
        Some(Instruction::AluImmediate(spec_alu_op(y)))
    } else {
        Some(Instruction::Rst((y * 8) as u8))
    }
}

/// The instruction that an opcode names, by the fields of its bits: the
/// quarter in bits 7 and 6, `y` in bits 5 to 3, `z` in bits 2 to 0. None
/// where it names none: the prefix byte itself, STOP, and the eleven
/// opcodes that the CPU does not have.
pub open spec fn spec_decode(opcode: u8, is_cbprefix: bool) -> Option<Instruction> {
    let quarter = opcode / 64;
    let y = (opcode / 8) % 8;
    let z = opcode % 8;
    if is_cbprefix {
        if quarter == 0 {
            Some(Instruction::Shift(spec_shift_op(y as int), spec_reg8(z as int)))
        } else if quarter == 1 {
            Some(Instruction::TestBit(y, spec_reg8(z as int)))
        } else if quarter == 2 {
            Some(Instruction::ResetBit(y, spec_reg8(z as int)))
        } else {
            Some(Instruction::SetBit(y, spec_reg8(z as int)))
        }
    } else if quarter == 0 {
        decode_first_quarter(y as int, z as int)
    } else if quarter == 1 {
        if opcode == 0x76 {
            Some(Instruction::Halt)
        } else {
            Some(Instruction::Load(spec_reg8(y as int), spec_reg8(z as int)))
        }
    } else if quarter == 2 {
        Some(Instruction::Alu(spec_alu_op(y as int), spec_reg8(z as int)))
    } else {
        decode_last_quarter(y as int, z as int)
    }
}

/// The 8-bit operand of index 0 to 7.
pub fn reg8(index: u8) -> (register: Reg8)
    ensures
        register == spec_reg8(index as int),
{
    match index {
        0 => Reg8::B,
        1 => Reg8::C,
        2 => Reg8::D,
        3 => Reg8::E,
        4 => Reg8::H,
        5 => Reg8::L,
        6 => Reg8::AtHL,
        _ => Reg8::A,
    }
}

/// The rotate or shift of index 0 to 7.
pub fn shift_op(index: u8) -> (operation: ShiftOp)
    ensures
        operation == spec_shift_op(index as int),
{
    match index {
        0 => ShiftOp::Rlc,
        1 => ShiftOp::Rrc,
        2 => ShiftOp::Rl,
        3 => ShiftOp::Rr,
        4 => ShiftOp::Sla,
        5 => ShiftOp::Sra,
        6 => ShiftOp::Swap,
        _ => ShiftOp::Srl,
    }
}

/// Decode a prefixed opcode: a rotate or shift, or the test, the reset or the
/// setting of a bit.
pub fn decode_prefixed(opcode: u8) -> (instruction: Instruction)
    ensures
        Some(instruction) == spec_decode(opcode, true),
        instruction matches Instruction::TestBit(index, _) ==> index < 8,
        instruction matches Instruction::ResetBit(index, _) ==> index < 8,
        instruction matches Instruction::SetBit(index, _) ==> index < 8,
{
    let y: u8 = (opcode / 8) % 8;
    let register = reg8(opcode % 8);
    match opcode / 64 {
        0 => Instruction::Shift(shift_op(y), register),
        1 => Instruction::TestBit(y, register),
        2 => Instruction::ResetBit(y, register),
        _ => Instruction::SetBit(y, register),
    }
}

/// Decode an opcode without prefix: the dispatch table of the CPU.
pub fn decode_unprefixed(opcode: u8) -> (instruction: Option<Instruction>)
    ensures
        instruction == spec_decode(opcode, false),
{
    match opcode {
        0x00 => Some(Instruction::Nop),
        0x01 => Some(Instruction::LoadWord(Reg16::BC)),
        0x02 => Some(Instruction::StoreA(Pointer::BC)),
        0x03 => Some(Instruction::IncWord(Reg16::BC)),
        0x04 => Some(Instruction::Inc(Reg8::B)),
        0x05 => Some(Instruction::Dec(Reg8::B)),
        0x06 => Some(Instruction::LoadImmediate(Reg8::B)),
        0x07 => Some(Instruction::Rlca),
        0x08 => Some(Instruction::StoreSp),
        0x09 => Some(Instruction::AddHl(Reg16::BC)),
        0x0A => Some(Instruction::LoadA(Pointer::BC)),
        0x0B => Some(Instruction::DecWord(Reg16::BC)),
        0x0C => Some(Instruction::Inc(Reg8::C)),
        0x0D => Some(Instruction::Dec(Reg8::C)),
        0x0E => Some(Instruction::LoadImmediate(Reg8::C)),
        0x0F => Some(Instruction::Rrca),
        0x11 => Some(Instruction::LoadWord(Reg16::DE)),
        0x12 => Some(Instruction::StoreA(Pointer::DE)),
        0x13 => Some(Instruction::IncWord(Reg16::DE)),
        0x14 => Some(Instruction::Inc(Reg8::D)),
        0x15 => Some(Instruction::Dec(Reg8::D)),
        0x16 => Some(Instruction::LoadImmediate(Reg8::D)),
        0x17 => Some(Instruction::Rla),
        0x18 => Some(Instruction::Jr),
        0x19 => Some(Instruction::AddHl(Reg16::DE)),
        0x1A => Some(Instruction::LoadA(Pointer::DE)),
        0x1B => Some(Instruction::DecWord(Reg16::DE)),
        0x1C => Some(Instruction::Inc(Reg8::E)),
        0x1D => Some(Instruction::Dec(Reg8::E)),
        0x1E => Some(Instruction::LoadImmediate(Reg8::E)),
        0x1F => Some(Instruction::Rra),
        0x20 => Some(Instruction::JrIf(Cond::NZ)),
        0x21 => Some(Instruction::LoadWord(Reg16::HL)),
        0x22 => Some(Instruction::StoreA(Pointer::HLInc)),
        0x23 => Some(Instruction::IncWord(Reg16::HL)),
        0x24 => Some(Instruction::Inc(Reg8::H)),
        0x25 => Some(Instruction::Dec(Reg8::H)),
        0x26 => Some(Instruction::LoadImmediate(Reg8::H)),
        0x27 => Some(Instruction::Daa),
        0x28 => Some(Instruction::JrIf(Cond::Z)),
        0x29 => Some(Instruction::AddHl(Reg16::HL)),
        0x2A => Some(Instruction::LoadA(Pointer::HLInc)),
        0x2B => Some(Instruction::DecWord(Reg16::HL)),
        0x2C => Some(Instruction::Inc(Reg8::L)),
        0x2D => Some(Instruction::Dec(Reg8::L)),
        0x2E => Some(Instruction::LoadImmediate(Reg8::L)),
        0x2F => Some(Instruction::Cpl),
        0x30 => Some(Instruction::JrIf(Cond::NC)),
        0x31 => Some(Instruction::LoadWord(Reg16::SP)),
        0x32 => Some(Instruction::StoreA(Pointer::HLDec)),
        0x33 => Some(Instruction::IncWord(Reg16::SP)),
        0x34 => Some(Instruction::Inc(Reg8::AtHL)),
        0x35 => Some(Instruction::Dec(Reg8::AtHL)),
        0x36 => Some(Instruction::LoadImmediate(Reg8::AtHL)),
        0x37 => Some(Instruction::Scf),
        0x38 => Some(Instruction::JrIf(Cond::C)),
        0x39 => Some(Instruction::AddHl(Reg16::SP)),
        0x3A => Some(Instruction::LoadA(Pointer::HLDec)),
        0x3B => Some(Instruction::DecWord(Reg16::SP)),
        0x3C => Some(Instruction::Inc(Reg8::A)),
        0x3D => Some(Instruction::Dec(Reg8::A)),
        0x3E => Some(Instruction::LoadImmediate(Reg8::A)),
        0x3F => Some(Instruction::Ccf),
        0x40 => Some(Instruction::Load(Reg8::B, Reg8::B)),
        0x41 => Some(Instruction::Load(Reg8::B, Reg8::C)),
        0x42 => Some(Instruction::Load(Reg8::B, Reg8::D)),
        0x43 => Some(Instruction::Load(Reg8::B, Reg8::E)),
        0x44 => Some(Instruction::Load(Reg8::B, Reg8::H)),
        0x45 => Some(Instruction::Load(Reg8::B, Reg8::L)),
        0x46 => Some(Instruction::Load(Reg8::B, Reg8::AtHL)),
        0x47 => Some(Instruction::Load(Reg8::B, Reg8::A)),
        0x48 => Some(Instruction::Load(Reg8::C, Reg8::B)),
        0x49 => Some(Instruction::Load(Reg8::C, Reg8::C)),
        0x4A => Some(Instruction::Load(Reg8::C, Reg8::D)),
        0x4B => Some(Instruction::Load(Reg8::C, Reg8::E)),
        0x4C => Some(Instruction::Load(Reg8::C, Reg8::H)),
        0x4D => Some(Instruction::Load(Reg8::C, Reg8::L)),
        0x4E => Some(Instruction::Load(Reg8::C, Reg8::AtHL)),
        0x4F => Some(Instruction::Load(Reg8::C, Reg8::A)),
        0x50 => Some(Instruction::Load(Reg8::D, Reg8::B)),
        0x51 => Some(Instruction::Load(Reg8::D, Reg8::C)),
        0x52 => Some(Instruction::Load(Reg8::D, Reg8::D)),
        0x53 => Some(Instruction::Load(Reg8::D, Reg8::E)),
        0x54 => Some(Instruction::Load(Reg8::D, Reg8::H)),
        0x55 => Some(Instruction::Load(Reg8::D, Reg8::L)),
        0x56 => Some(Instruction::Load(Reg8::D, Reg8::AtHL)),
        0x57 => Some(Instruction::Load(Reg8::D, Reg8::A)),
        0x58 => Some(Instruction::Load(Reg8::E, Reg8::B)),
        0x59 => Some(Instruction::Load(Reg8::E, Reg8::C)),
        0x5A => Some(Instruction::Load(Reg8::E, Reg8::D)),
        0x5B => Some(Instruction::Load(Reg8::E, Reg8::E)),
        0x5C => Some(Instruction::Load(Reg8::E, Reg8::H)),
        0x5D => Some(Instruction::Load(Reg8::E, Reg8::L)),
        0x5E => Some(Instruction::Load(Reg8::E, Reg8::AtHL)),
        0x5F => Some(Instruction::Load(Reg8::E, Reg8::A)),
        0x60 => Some(Instruction::Load(Reg8::H, Reg8::B)),
        0x61 => Some(Instruction::Load(Reg8::H, Reg8::C)),
        0x62 => Some(Instruction::Load(Reg8::H, Reg8::D)),
        0x63 => Some(Instruction::Load(Reg8::H, Reg8::E)),
        0x64 => Some(Instruction::Load(Reg8::H, Reg8::H)),
        0x65 => Some(Instruction::Load(Reg8::H, Reg8::L)),
        0x66 => Some(Instruction::Load(Reg8::H, Reg8::AtHL)),
        0x67 => Some(Instruction::Load(Reg8::H, Reg8::A)),
        0x68 => Some(Instruction::Load(Reg8::L, Reg8::B)),
        0x69 => Some(Instruction::Load(Reg8::L, Reg8::C)),
        0x6A => Some(Instruction::Load(Reg8::L, Reg8::D)),
        0x6B => Some(Instruction::Load(Reg8::L, Reg8::E)),
        0x6C => Some(Instruction::Load(Reg8::L, Reg8::H)),
        0x6D => Some(Instruction::Load(Reg8::L, Reg8::L)),
        0x6E => Some(Instruction::Load(Reg8::L, Reg8::AtHL)),
        0x6F => Some(Instruction::Load(Reg8::L, Reg8::A)),
        0x70 => Some(Instruction::Load(Reg8::AtHL, Reg8::B)),
        0x71 => Some(Instruction::Load(Reg8::AtHL, Reg8::C)),
        0x72 => Some(Instruction::Load(Reg8::AtHL, Reg8::D)),
        0x73 => Some(Instruction::Load(Reg8::AtHL, Reg8::E)),
        0x74 => Some(Instruction::Load(Reg8::AtHL, Reg8::H)),
        0x75 => Some(Instruction::Load(Reg8::AtHL, Reg8::L)),
        0x76 => Some(Instruction::Halt),
        0x77 => Some(Instruction::Load(Reg8::AtHL, Reg8::A)),
        0x78 => Some(Instruction::Load(Reg8::A, Reg8::B)),
        0x79 => Some(Instruction::Load(Reg8::A, Reg8::C)),
        0x7A => Some(Instruction::Load(Reg8::A, Reg8::D)),
        0x7B => Some(Instruction::Load(Reg8::A, Reg8::E)),
        0x7C => Some(Instruction::Load(Reg8::A, Reg8::H)),
        0x7D => Some(Instruction::Load(Reg8::A, Reg8::L)),
        0x7E => Some(Instruction::Load(Reg8::A, Reg8::AtHL)),
        0x7F => Some(Instruction::Load(Reg8::A, Reg8::A)),
        0x80 => Some(Instruction::Alu(AluOp::Add, Reg8::B)),
        0x81 => Some(Instruction::Alu(AluOp::Add, Reg8::C)),
        0x82 => Some(Instruction::Alu(AluOp::Add, Reg8::D)),
        0x83 => Some(Instruction::Alu(AluOp::Add, Reg8::E)),
        0x84 => Some(Instruction::Alu(AluOp::Add, Reg8::H)),
        0x85 => Some(Instruction::Alu(AluOp::Add, Reg8::L)),
        0x86 => Some(Instruction::Alu(AluOp::Add, Reg8::AtHL)),
        0x87 => Some(Instruction::Alu(AluOp::Add, Reg8::A)),
        0x88 => Some(Instruction::Alu(AluOp::Adc, Reg8::B)),
        0x89 => Some(Instruction::Alu(AluOp::Adc, Reg8::C)),
        0x8A => Some(Instruction::Alu(AluOp::Adc, Reg8::D)),
        0x8B => Some(Instruction::Alu(AluOp::Adc, Reg8::E)),
        0x8C => Some(Instruction::Alu(AluOp::Adc, Reg8::H)),
        0x8D => Some(Instruction::Alu(AluOp::Adc, Reg8::L)),
        0x8E => Some(Instruction::Alu(AluOp::Adc, Reg8::AtHL)),
        0x8F => Some(Instruction::Alu(AluOp::Adc, Reg8::A)),
        0x90 => Some(Instruction::Alu(AluOp::Sub, Reg8::B)),
        0x91 => Some(Instruction::Alu(AluOp::Sub, Reg8::C)),
        0x92 => Some(Instruction::Alu(AluOp::Sub, Reg8::D)),
        0x93 => Some(Instruction::Alu(AluOp::Sub, Reg8::E)),
        0x94 => Some(Instruction::Alu(AluOp::Sub, Reg8::H)),
        0x95 => Some(Instruction::Alu(AluOp::Sub, Reg8::L)),
        0x96 => Some(Instruction::Alu(AluOp::Sub, Reg8::AtHL)),
        0x97 => Some(Instruction::Alu(AluOp::Sub, Reg8::A)),
        0x98 => Some(Instruction::Alu(AluOp::Sbc, Reg8::B)),
        0x99 => Some(Instruction::Alu(AluOp::Sbc, Reg8::C)),
        0x9A => Some(Instruction::Alu(AluOp::Sbc, Reg8::D)),
        0x9B => Some(Instruction::Alu(AluOp::Sbc, Reg8::E)),
        0x9C => Some(Instruction::Alu(AluOp::Sbc, Reg8::H)),
        0x9D => Some(Instruction::Alu(AluOp::Sbc, Reg8::L)),
        0x9E => Some(Instruction::Alu(AluOp::Sbc, Reg8::AtHL)),
        0x9F => Some(Instruction::Alu(AluOp::Sbc, Reg8::A)),
        0xA0 => Some(Instruction::Alu(AluOp::And, Reg8::B)),
        0xA1 => Some(Instruction::Alu(AluOp::And, Reg8::C)),
        0xA2 => Some(Instruction::Alu(AluOp::And, Reg8::D)),
        0xA3 => Some(Instruction::Alu(AluOp::And, Reg8::E)),
        0xA4 => Some(Instruction::Alu(AluOp::And, Reg8::H)),
        0xA5 => Some(Instruction::Alu(AluOp::And, Reg8::L)),
        0xA6 => Some(Instruction::Alu(AluOp::And, Reg8::AtHL)),
        0xA7 => Some(Instruction::Alu(AluOp::And, Reg8::A)),
        0xA8 => Some(Instruction::Alu(AluOp::Xor, Reg8::B)),
        0xA9 => Some(Instruction::Alu(AluOp::Xor, Reg8::C)),
        0xAA => Some(Instruction::Alu(AluOp::Xor, Reg8::D)),
        0xAB => Some(Instruction::Alu(AluOp::Xor, Reg8::E)),
        0xAC => Some(Instruction::Alu(AluOp::Xor, Reg8::H)),
        0xAD => Some(Instruction::Alu(AluOp::Xor, Reg8::L)),
        0xAE => Some(Instruction::Alu(AluOp::Xor, Reg8::AtHL)),
        0xAF => Some(Instruction::Alu(AluOp::Xor, Reg8::A)),
        0xB0 => Some(Instruction::Alu(AluOp::Or, Reg8::B)),
        0xB1 => Some(Instruction::Alu(AluOp::Or, Reg8::C)),
        0xB2 => Some(Instruction::Alu(AluOp::Or, Reg8::D)),
        0xB3 => Some(Instruction::Alu(AluOp::Or, Reg8::E)),
        0xB4 => Some(Instruction::Alu(AluOp::Or, Reg8::H)),
        0xB5 => Some(Instruction::Alu(AluOp::Or, Reg8::L)),
        0xB6 => Some(Instruction::Alu(AluOp::Or, Reg8::AtHL)),
        0xB7 => Some(Instruction::Alu(AluOp::Or, Reg8::A)),
        0xB8 => Some(Instruction::Alu(AluOp::Cp, Reg8::B)),
        0xB9 => Some(Instruction::Alu(AluOp::Cp, Reg8::C)),
        0xBA => Some(Instruction::Alu(AluOp::Cp, Reg8::D)),
        0xBB => Some(Instruction::Alu(AluOp::Cp, Reg8::E)),
        0xBC => Some(Instruction::Alu(AluOp::Cp, Reg8::H)),
        0xBD => Some(Instruction::Alu(AluOp::Cp, Reg8::L)),
        0xBE => Some(Instruction::Alu(AluOp::Cp, Reg8::AtHL)),
        0xBF => Some(Instruction::Alu(AluOp::Cp, Reg8::A)),
        0xC0 => Some(Instruction::RetIf(Cond::NZ)),
        0xC1 => Some(Instruction::Pop(StackReg::BC)),
        0xC2 => Some(Instruction::JpIf(Cond::NZ)),
        0xC3 => Some(Instruction::Jp),
        0xC4 => Some(Instruction::CallIf(Cond::NZ)),
        0xC5 => Some(Instruction::Push(StackReg::BC)),
        0xC6 => Some(Instruction::AluImmediate(AluOp::Add)),
        0xC7 => Some(Instruction::Rst(0x00)),
        0xC8 => Some(Instruction::RetIf(Cond::Z)),
        0xC9 => Some(Instruction::Ret),
        0xCA => Some(Instruction::JpIf(Cond::Z)),
        0xCC => Some(Instruction::CallIf(Cond::Z)),
        0xCD => Some(Instruction::Call),
        0xCE => Some(Instruction::AluImmediate(AluOp::Adc)),
        0xCF => Some(Instruction::Rst(0x08)),
        0xD0 => Some(Instruction::RetIf(Cond::NC)),
        0xD1 => Some(Instruction::Pop(StackReg::DE)),
        0xD2 => Some(Instruction::JpIf(Cond::NC)),
        0xD4 => Some(Instruction::CallIf(Cond::NC)),
        0xD5 => Some(Instruction::Push(StackReg::DE)),
        0xD6 => Some(Instruction::AluImmediate(AluOp::Sub)),
        0xD7 => Some(Instruction::Rst(0x10)),
        0xD8 => Some(Instruction::RetIf(Cond::C)),
        0xD9 => Some(Instruction::Reti),
        0xDA => Some(Instruction::JpIf(Cond::C)),
        0xDC => Some(Instruction::CallIf(Cond::C)),
        0xDE => Some(Instruction::AluImmediate(AluOp::Sbc)),
        0xDF => Some(Instruction::Rst(0x18)),
        0xE0 => Some(Instruction::StoreHigh),
        0xE1 => Some(Instruction::Pop(StackReg::HL)),
        0xE2 => Some(Instruction::StoreHighC),
        0xE5 => Some(Instruction::Push(StackReg::HL)),
        0xE6 => Some(Instruction::AluImmediate(AluOp::And)),
        0xE7 => Some(Instruction::Rst(0x20)),
        0xE8 => Some(Instruction::AddSp),
        0xE9 => Some(Instruction::JpHl),
        0xEA => Some(Instruction::StoreAbsolute),
        0xEE => Some(Instruction::AluImmediate(AluOp::Xor)),
        0xEF => Some(Instruction::Rst(0x28)),
        0xF0 => Some(Instruction::LoadHigh),
        0xF1 => Some(Instruction::Pop(StackReg::AF)),
        0xF2 => Some(Instruction::LoadHighC),
        0xF3 => Some(Instruction::Di),
        0xF5 => Some(Instruction::Push(StackReg::AF)),
        0xF6 => Some(Instruction::AluImmediate(AluOp::Or)),
        0xF7 => Some(Instruction::Rst(0x30)),
        0xF8 => Some(Instruction::LoadHlSp),
        0xF9 => Some(Instruction::LoadSpHl),
        0xFA => Some(Instruction::LoadAbsolute),
        0xFB => Some(Instruction::Ei),
        0xFE => Some(Instruction::AluImmediate(AluOp::Cp)),
        0xFF => Some(Instruction::Rst(0x38)),
        _ => None,
    }
}

/// Decode an opcode, with or without prefix.
pub fn decode(opcode: u8, is_cbprefix: bool) -> (instruction: Option<Instruction>)
    ensures
        instruction == spec_decode(opcode, is_cbprefix),
        instruction matches Some(Instruction::TestBit(index, _)) ==> index < 8,
        instruction matches Some(Instruction::ResetBit(index, _)) ==> index < 8,
        instruction matches Some(Instruction::SetBit(index, _)) ==> index < 8,
{
    if is_cbprefix {
        Some(decode_prefixed(opcode))
    } else {
        decode_unprefixed(opcode)
    }
}

/// The opcodes without prefix that name no instruction are the prefix byte,
/// STOP, and the eleven that the CPU does not have; every prefixed opcode
/// names one.
pub proof fn law_dispatch_is_exhaustive(opcode: u8)
    ensures
        spec_decode(opcode, true).is_some(),
        spec_decode(opcode, false).is_none() <==> (opcode == 0x10 || opcode == 0xCB || opcode
            == 0xD3 || opcode == 0xDB || opcode == 0xDD || opcode == 0xE3 || opcode == 0xE4
            || opcode == 0xEB || opcode == 0xEC || opcode == 0xED || opcode == 0xF4 || opcode
            == 0xFC || opcode == 0xFD),
{
}

} // verus!
