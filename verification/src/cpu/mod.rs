//! The CPU: what each instruction does to the machine, and the step that
//! serves an interrupt, idles or runs one instruction.

use vstd::prelude::*;
use crate::alu::{
    after_adc, after_add, after_add_hl_16, after_and, after_bit, after_cp, after_cpl, after_daa,
    after_dec, after_inc, after_or, after_sbc, after_shift, after_sub, after_xor, decremented,
    incremented, rotated_left, rotated_left_through, rotated_right, rotated_right_through,
    shifted_left, shifted_right, shifted_right_signed, spec_res, spec_set, swapped,
};
use crate::fault::Fault;
use crate::mmu::registers::{pair, signed};
use crate::mmu::{Failure, Interrupts, MMU};
use crate::opcode::OpCodes;

pub mod instruction;

pub use instruction::{
    decode, spec_decode, AluOp, Cond, Instruction, Pointer, Reg16, Reg8, ShiftOp, StackReg,
};

verus! {

/// The CPU: the dispatch of the instructions, and the table of their costs.
pub struct CPU {
    pub opcodes: OpCodes,
}

/// The cost of a step that serves an interrupt, in machine cycles.
pub const INTERRUPT_CYCLES: u8 = 4;

/// The cost of a step of a halted CPU, in machine cycles.
pub const HALTED_CYCLES: u8 = 1;

/// Whether what an operation did, and what it returned, is the outcome given:
/// the machine is the one of the outcome, and on a fault the fault is the one
/// of the outcome.
pub open spec fn agrees(outcome: Result<MMU, Failure>, done: Result<(), Fault>, after: MMU) -> bool {
    match outcome {
        Ok(machine) => done is Ok && after == machine,
        Err(failure) => done == Err::<(), Fault>(failure.fault) && after == failure.machine,
    }
}

/// The fault of an opcode that has no dispatch entry, or no cost in the table.
pub open spec fn unimplemented(opcode: u8, prefixed: bool, address: u16) -> Fault {
    Fault::UnimplementedOpcode { opcode, prefixed, address }
}

/// What an 8-bit operand holds.
pub open spec fn reg8_value(m: MMU, register: Reg8) -> Result<u8, Fault> {
    match register {
        Reg8::B => Ok(m.b),
        Reg8::C => Ok(m.c),
        Reg8::D => Ok(m.d),
        Reg8::E => Ok(m.e),
        Reg8::H => Ok(m.h),
        Reg8::L => Ok(m.l),
        Reg8::AtHL => m.load(m.spec_hl()),
        Reg8::A => Ok(m.a),
    }
}

/// The machine with `value` in an 8-bit operand.
pub open spec fn with_reg8(m: MMU, register: Reg8, value: u8) -> Result<MMU, Failure> {
    match register {
        Reg8::B => Ok(MMU { b: value, ..m }),
        Reg8::C => Ok(MMU { c: value, ..m }),
        Reg8::D => Ok(MMU { d: value, ..m }),
        Reg8::E => Ok(MMU { e: value, ..m }),
        Reg8::H => Ok(MMU { h: value, ..m }),
        Reg8::L => Ok(MMU { l: value, ..m }),
        Reg8::AtHL => m.store(m.spec_hl(), value),
        Reg8::A => Ok(MMU { a: value, ..m }),
    }
}

/// What a 16-bit register holds.
pub open spec fn reg16_value(m: MMU, register: Reg16) -> u16 {
    match register {
        Reg16::BC => m.spec_bc(),
        Reg16::DE => m.spec_de(),
        Reg16::HL => m.spec_hl(),
        Reg16::SP => m.sp,
    }
}

/// The machine with `value` in a 16-bit register.
pub open spec fn with_reg16(m: MMU, register: Reg16, value: u16) -> MMU {
    match register {
        Reg16::BC => m.with_bc(value),
        Reg16::DE => m.with_de(value),
        Reg16::HL => m.with_hl(value),
        Reg16::SP => MMU { sp: value, ..m },
    }
}

/// What a register pair of the stack instructions holds.
pub open spec fn stack_reg_value(m: MMU, register: StackReg) -> u16 {
    match register {
        StackReg::BC => m.spec_bc(),
        StackReg::DE => m.spec_de(),
        StackReg::HL => m.spec_hl(),
        StackReg::AF => m.spec_af(),
    }
}

/// The machine with `value` in a register pair of the stack instructions.
pub open spec fn with_stack_reg(m: MMU, register: StackReg, value: u16) -> MMU {
    match register {
        StackReg::BC => m.with_bc(value),
        StackReg::DE => m.with_de(value),
        StackReg::HL => m.with_hl(value),
        StackReg::AF => m.with_af(value),
    }
}

/// The address that a pointer holds.
pub open spec fn pointer_address(m: MMU, pointer: Pointer) -> u16 {
    match pointer {
        Pointer::BC => m.spec_bc(),
        Pointer::DE => m.spec_de(),
        Pointer::HLInc => m.spec_hl(),
        Pointer::HLDec => m.spec_hl(),
    }
}

/// The machine after an access through a pointer: HL is one up or one down
/// where the pointer says so.
pub open spec fn after_pointer(m: MMU, pointer: Pointer) -> MMU {
    match pointer {
        Pointer::BC => m,
        Pointer::DE => m,
        Pointer::HLInc => m.with_hl(m.spec_hl().wrapping_add(1)),
        Pointer::HLDec => m.with_hl(m.spec_hl().wrapping_sub(1)),
    }
}

/// Whether a condition holds.
pub open spec fn holds(m: MMU, condition: Cond) -> bool {
    match condition {
        Cond::NZ => !m.zero,
        Cond::Z => m.zero,
        Cond::NC => !m.carry,
        Cond::C => m.carry,
    }
}

/// The machine after an operation of the ALU on A and `value`.
pub open spec fn alu_applied(m: MMU, operation: AluOp, value: u8) -> MMU {
    match operation {
        AluOp::Add => after_add(m, value),
        AluOp::Adc => after_adc(m, value),
        AluOp::Sub => after_sub(m, value),
        AluOp::Sbc => after_sbc(m, value),
        AluOp::And => after_and(m, value),
        AluOp::Xor => after_xor(m, value),
        AluOp::Or => after_or(m, value),
        AluOp::Cp => after_cp(m, value),
    }
}

/// What a rotate or shift makes of `value`.
pub open spec fn shift_result(m: MMU, operation: ShiftOp, value: u8) -> u8 {
    match operation {
        ShiftOp::Rlc => rotated_left(value),
        ShiftOp::Rrc => rotated_right(value),
        ShiftOp::Rl => rotated_left_through(value, m.carry),
        ShiftOp::Rr => rotated_right_through(value, m.carry),
        ShiftOp::Sla => shifted_left(value),
        ShiftOp::Sra => shifted_right_signed(value),
        ShiftOp::Swap => swapped(value),
        ShiftOp::Srl => shifted_right(value),
    }
}

/// The bit that a rotate or shift of `value` pushes out into the carry flag.
pub open spec fn shift_carry(operation: ShiftOp, value: u8) -> bool {
    match operation {
        ShiftOp::Rlc => value >= 128,
        ShiftOp::Rrc => value % 2 == 1,
        ShiftOp::Rl => value >= 128,
        ShiftOp::Rr => value % 2 == 1,
        ShiftOp::Sla => value >= 128,
        ShiftOp::Sra => value % 2 == 1,
        ShiftOp::Swap => false,
        ShiftOp::Srl => value % 2 == 1,
    }
}

/// The address that is `offset`, a signed byte, away from `pc`.
pub open spec fn relative(pc: u16, offset: u8) -> u16 {
    pc.wrapping_add_signed(signed(offset) as i16)
}

/// The flags of the addition of a signed byte to the stack pointer: zero and
/// subtract clear, half-carry and carry those of the addition of the byte to
/// the low byte of the stack pointer.
pub open spec fn after_sp_offset(m: MMU, offset: u8) -> MMU {
    m.with_flags(false, false, m.sp % 16 + offset % 16 > 15, m.sp % 256 + offset > 255)
}

/// LD rr,d16: the word after the opcode goes into a 16-bit register.
pub open spec fn load_word(m: MMU, register: Reg16) -> Result<MMU, Failure> {
    match m.fetched_word() {
        Err(failure) => Err(failure),
        Ok((word, next)) => Ok(with_reg16(next, register, word)),
    }
}

/// LD (rr),A: A goes where the pointer points.
pub open spec fn store_a(m: MMU, pointer: Pointer) -> Result<MMU, Failure> {
    match m.store(pointer_address(m, pointer), m.a) {
        Err(failure) => Err(failure),
        Ok(next) => Ok(after_pointer(next, pointer)),
    }
}

/// LD A,(rr): A comes from where the pointer points.
pub open spec fn load_a(m: MMU, pointer: Pointer) -> Result<MMU, Failure> {
    match m.load(pointer_address(m, pointer)) {
        Err(fault) => Err(Failure { fault, machine: m }),
        Ok(value) => Ok(after_pointer(MMU { a: value, ..m }, pointer)),
    }
}

/// INC r: the operand goes one up.
pub open spec fn increment(m: MMU, register: Reg8) -> Result<MMU, Failure> {
    match reg8_value(m, register) {
        Err(fault) => Err(Failure { fault, machine: m }),
        Ok(value) => with_reg8(after_inc(m, value), register, incremented(value)),
    }
}

/// DEC r: the operand goes one down.
pub open spec fn decrement(m: MMU, register: Reg8) -> Result<MMU, Failure> {
    match reg8_value(m, register) {
        Err(fault) => Err(Failure { fault, machine: m }),
        Ok(value) => with_reg8(after_dec(m, value), register, decremented(value)),
    }
}

/// LD r,d8: the byte after the opcode goes into the operand.
pub open spec fn load_immediate(m: MMU, register: Reg8) -> Result<MMU, Failure> {
    match m.fetched() {
        Err(failure) => Err(failure),
        Ok((value, next)) => with_reg8(next, register, value),
    }
}

/// LD r,r': one operand goes into another.
pub open spec fn load(m: MMU, target: Reg8, source: Reg8) -> Result<MMU, Failure> {
    match reg8_value(m, source) {
        Err(fault) => Err(Failure { fault, machine: m }),
        Ok(value) => with_reg8(m, target, value),
    }
}

/// RLCA, RRCA, RLA, RRA: a rotate of A that leaves the zero flag clear.
pub open spec fn rotate_a(m: MMU, operation: ShiftOp) -> MMU {
    MMU { a: shift_result(m, operation, m.a), ..m }.with_flags(
        false,
        false,
        false,
        shift_carry(operation, m.a),
    )
}

/// LD (a16),SP: the stack pointer goes to the address after the opcode.
pub open spec fn store_sp(m: MMU) -> Result<MMU, Failure> {
    match m.fetched_word() {
        Err(failure) => Err(failure),
        Ok((address, next)) => next.store_word(address, next.sp),
    }
}

/// JR r8 and JR cc,r8: where `jump` holds, the program counter moves by the
/// signed byte after the opcode.
pub open spec fn jump_relative(m: MMU, jump: bool) -> Result<MMU, Failure> {
    match m.fetched() {
        Err(failure) => Err(failure),
        Ok((offset, next)) => if jump {
            Ok(MMU { pc: relative(next.pc, offset), ..next })
        } else {
            Ok(next)
        },
    }
}

/// An operation of the ALU on A and an operand.
pub open spec fn alu(m: MMU, operation: AluOp, register: Reg8) -> Result<MMU, Failure> {
    match reg8_value(m, register) {
        Err(fault) => Err(Failure { fault, machine: m }),
        Ok(value) => Ok(alu_applied(m, operation, value)),
    }
}

/// An operation of the ALU on A and the byte after the opcode.
pub open spec fn alu_immediate(m: MMU, operation: AluOp) -> Result<MMU, Failure> {
    match m.fetched() {
        Err(failure) => Err(failure),
        Ok((value, next)) => Ok(alu_applied(next, operation, value)),
    }
}

/// RET, RET cc and RETI: where `act` holds, the program counter is popped.
pub open spec fn ret(m: MMU, act: bool) -> Result<MMU, Failure> {
    if act {
        match m.popped() {
            Err(failure) => Err(failure),
            Ok((address, next)) => Ok(MMU { pc: address, ..next }),
        }
    } else {
        Ok(m)
    }
}

/// RETI: a return, after which the master enable goes on.
pub open spec fn reti(m: MMU) -> Result<MMU, Failure> {
    match ret(m, true) {
        Err(failure) => Err(failure),
        Ok(next) => Ok(
            MMU { interrupts: Interrupts { enable_ime_counter: 1, ..next.interrupts }, ..next },
        ),
    }
}

/// POP rr: a register pair is popped.
pub open spec fn pop(m: MMU, register: StackReg) -> Result<MMU, Failure> {
    match m.popped() {
        Err(failure) => Err(failure),
        Ok((value, next)) => Ok(with_stack_reg(next, register, value)),
    }
}

/// JP a16 and JP cc,a16: where `jump` holds, the program counter becomes the
/// word after the opcode.
pub open spec fn jump(m: MMU, jump: bool) -> Result<MMU, Failure> {
    match m.fetched_word() {
        Err(failure) => Err(failure),
        Ok((address, next)) => if jump {
            Ok(MMU { pc: address, ..next })
        } else {
            Ok(next)
        },
    }
}

/// The machine after a call of `address`: the program counter is pushed and
/// replaced.
pub open spec fn called(m: MMU, address: u16) -> Result<MMU, Failure> {
    match m.pushed(m.pc) {
        Err(failure) => Err(failure),
        Ok(next) => Ok(MMU { pc: address, ..next }),
    }
}

/// CALL a16 and CALL cc,a16: where `act` holds, the address after the opcode
/// is called.
pub open spec fn call(m: MMU, act: bool) -> Result<MMU, Failure> {
    match m.fetched_word() {
        Err(failure) => Err(failure),
        Ok((address, next)) => if act {
            called(next, address)
        } else {
            Ok(next)
        },
    }
}

/// LDH (a8),A: A goes to the I/O address that the byte after the opcode names.
pub open spec fn store_high(m: MMU) -> Result<MMU, Failure> {
    match m.fetched() {
        Err(failure) => Err(failure),
        Ok((offset, next)) => next.store((0xFF00 + offset) as u16, next.a),
    }
}

/// LDH A,(a8): A comes from the I/O address that the byte after the opcode
/// names.
pub open spec fn load_high(m: MMU) -> Result<MMU, Failure> {
    match m.fetched() {
        Err(failure) => Err(failure),
        Ok((offset, next)) => match next.load((0xFF00 + offset) as u16) {
            Err(fault) => Err(Failure { fault, machine: next }),
            Ok(value) => Ok(MMU { a: value, ..next }),
        },
    }
}

/// LD A,(C): A comes from the I/O address that C names.
pub open spec fn load_high_c(m: MMU) -> Result<MMU, Failure> {
    match m.load((0xFF00 + m.c) as u16) {
        Err(fault) => Err(Failure { fault, machine: m }),
        Ok(value) => Ok(MMU { a: value, ..m }),
    }
}

/// LD (a16),A: A goes to the address after the opcode.
pub open spec fn store_absolute(m: MMU) -> Result<MMU, Failure> {
    match m.fetched_word() {
        Err(failure) => Err(failure),
        Ok((address, next)) => next.store(address, next.a),
    }
}

/// LD A,(a16): A comes from the address after the opcode.
pub open spec fn load_absolute(m: MMU) -> Result<MMU, Failure> {
    match m.fetched_word() {
        Err(failure) => Err(failure),
        Ok((address, next)) => match next.load(address) {
            Err(fault) => Err(Failure { fault, machine: next }),
            Ok(value) => Ok(MMU { a: value, ..next }),
        },
    }
}

/// ADD SP,r8: the signed byte after the opcode is added to the stack pointer.
pub open spec fn add_sp(m: MMU) -> Result<MMU, Failure> {
    match m.fetched() {
        Err(failure) => Err(failure),
        Ok((offset, next)) => Ok(
            MMU { sp: relative(next.sp, offset), ..after_sp_offset(next, offset) },
        ),
    }
}

/// LD HL,SP+r8: HL becomes the stack pointer plus the signed byte after the
/// opcode.
pub open spec fn load_hl_sp(m: MMU) -> Result<MMU, Failure> {
    match m.fetched() {
        Err(failure) => Err(failure),
        Ok((offset, next)) => Ok(after_sp_offset(next, offset).with_hl(relative(next.sp, offset))),
    }
}

/// A rotate or shift of an operand.
pub open spec fn shift(m: MMU, operation: ShiftOp, register: Reg8) -> Result<MMU, Failure> {
    match reg8_value(m, register) {
        Err(fault) => Err(Failure { fault, machine: m }),
        Ok(value) => with_reg8(
            after_shift(m, shift_result(m, operation, value), shift_carry(operation, value)),
            register,
            shift_result(m, operation, value),
        ),
    }
}

/// BIT b,r: a bit of an operand is tested.
pub open spec fn test_bit(m: MMU, index: u8, register: Reg8) -> Result<MMU, Failure> {
    match reg8_value(m, register) {
        Err(fault) => Err(Failure { fault, machine: m }),
        Ok(value) => Ok(after_bit(m, index, value)),
    }
}

/// RES b,r and SET b,r: a bit of an operand is cleared or set.
pub open spec fn change_bit(m: MMU, index: u8, register: Reg8, high: bool) -> Result<MMU, Failure> {
    match reg8_value(m, register) {
        Err(fault) => Err(Failure { fault, machine: m }),
        Ok(value) => with_reg8(
            m,
            register,
            if high {
                spec_set(index, value)
            } else {
                spec_res(index, value)
            },
        ),
    }
}

/// Whether an instruction is conditional and its condition holds: then it
/// acts, and costs more.
pub open spec fn acts(m: MMU, instruction: Instruction) -> bool {
    match instruction {
        Instruction::JrIf(condition) => holds(m, condition),
        Instruction::RetIf(condition) => holds(m, condition),
        Instruction::JpIf(condition) => holds(m, condition),
        Instruction::CallIf(condition) => holds(m, condition),
        _ => false,
    }
}

/// The outcome of an instruction, for a machine whose program counter is
/// behind the opcode.
pub open spec fn executed(m: MMU, instruction: Instruction) -> Result<MMU, Failure> {
    match instruction {
        Instruction::Nop => Ok(m),
        Instruction::LoadWord(register) => load_word(m, register),
        Instruction::StoreA(pointer) => store_a(m, pointer),
        Instruction::LoadA(pointer) => load_a(m, pointer),
        Instruction::IncWord(register) => Ok(
            with_reg16(m, register, reg16_value(m, register).wrapping_add(1)),
        ),
        Instruction::DecWord(register) => Ok(
            with_reg16(m, register, reg16_value(m, register).wrapping_sub(1)),
        ),
        Instruction::Inc(register) => increment(m, register),
        Instruction::Dec(register) => decrement(m, register),
        Instruction::LoadImmediate(register) => load_immediate(m, register),
        Instruction::Rlca => Ok(rotate_a(m, ShiftOp::Rlc)),
        Instruction::Rrca => Ok(rotate_a(m, ShiftOp::Rrc)),
        Instruction::Rla => Ok(rotate_a(m, ShiftOp::Rl)),
        Instruction::Rra => Ok(rotate_a(m, ShiftOp::Rr)),
        Instruction::Daa => Ok(after_daa(m)),
        Instruction::Cpl => Ok(after_cpl(m)),
        Instruction::Scf => Ok(m.with_flags(m.zero, false, false, true)),
        Instruction::Ccf => Ok(m.with_flags(m.zero, false, false, !m.carry)),
        Instruction::StoreSp => store_sp(m),
        Instruction::Jr => jump_relative(m, true),
        Instruction::JrIf(condition) => jump_relative(m, holds(m, condition)),
        Instruction::AddHl(register) => Ok(after_add_hl_16(m, reg16_value(m, register))),
        Instruction::Load(target, source) => load(m, target, source),
        Instruction::Halt => Ok(
            MMU { interrupts: Interrupts { is_halted: true, ..m.interrupts }, ..m },
        ),
        Instruction::Alu(operation, register) => alu(m, operation, register),
        Instruction::AluImmediate(operation) => alu_immediate(m, operation),
        Instruction::RetIf(condition) => ret(m, holds(m, condition)),
        Instruction::Pop(register) => pop(m, register),
        Instruction::JpIf(condition) => jump(m, holds(m, condition)),
        Instruction::Jp => jump(m, true),
        Instruction::CallIf(condition) => call(m, holds(m, condition)),
        Instruction::Push(register) => m.pushed(stack_reg_value(m, register)),
        Instruction::Rst(address) => called(m, address as u16),
        Instruction::Ret => ret(m, true),
        Instruction::Reti => reti(m),
        Instruction::JpHl => Ok(MMU { pc: m.spec_hl(), ..m }),
        Instruction::LoadSpHl => Ok(MMU { sp: m.spec_hl(), ..m }),
        Instruction::Call => call(m, true),
        Instruction::StoreHigh => store_high(m),
        Instruction::LoadHigh => load_high(m),
        Instruction::StoreHighC => m.store((0xFF00 + m.c) as u16, m.a),
        Instruction::LoadHighC => load_high_c(m),
        Instruction::StoreAbsolute => store_absolute(m),
        Instruction::LoadAbsolute => load_absolute(m),
        Instruction::AddSp => add_sp(m),
        Instruction::LoadHlSp => load_hl_sp(m),
        Instruction::Di => Ok(
            MMU { interrupts: Interrupts { disable_ime_counter: 2, ..m.interrupts }, ..m },
        ),
        Instruction::Ei => Ok(
            MMU { interrupts: Interrupts { enable_ime_counter: 2, ..m.interrupts }, ..m },
        ),
        Instruction::Shift(operation, register) => shift(m, operation, register),
        Instruction::TestBit(index, register) => test_bit(m, index, register),
        Instruction::ResetBit(index, register) => change_bit(m, index, register, false),
        Instruction::SetBit(index, register) => change_bit(m, index, register, true),
    }
}

/// The outcome of the dispatch of an opcode that was fetched at `address`,
/// for a machine whose program counter is behind the opcode: the machine
/// after the instruction, and its cost. An opcode without a cost in the
/// table, or without a dispatch entry, is a fault.
pub open spec fn dispatched(
    table: OpCodes,
    m: MMU,
    opcode: u8,
    prefixed: bool,
    address: u16,
) -> Result<(MMU, u8), Failure> {
    if table.cycles(opcode, prefixed, false).is_none() || spec_decode(opcode, prefixed).is_none() {
        Err(Failure { fault: unimplemented(opcode, prefixed, address), machine: m })
    } else {
        let instruction = spec_decode(opcode, prefixed).unwrap();
        match executed(m, instruction) {
            Err(failure) => Err(failure),
            Ok(after) => Ok(
                (after, table.cycles(opcode, prefixed, acts(m, instruction)).unwrap()),
            ),
        }
    }
}

/// The outcome of one instruction: the opcode is fetched, and a second byte
/// where the first is the prefix; then it is dispatched.
pub open spec fn opcode_done(table: OpCodes, m: MMU) -> Result<(MMU, u8), Failure> {
    match m.fetched() {
        Err(failure) => Err(failure),
        Ok((first, next)) => if first == 0xCB {
            match next.fetched() {
                Err(failure) => Err(failure),
                Ok((second, last)) => dispatched(table, last, second, true, m.pc),
            }
        } else {
            dispatched(table, next, first, false, m.pc)
        },
    }
}

/// The outcome of one step of the CPU: the delay counters of the master
/// enable tick; then an interrupt is served, or a halted CPU idles, or one
/// instruction runs.
pub open spec fn stepped(table: OpCodes, m: MMU) -> Result<(MMU, u8), Failure> {
    let ticked = MMU { interrupts: m.interrupts.after_tick(), ..m };
    match ticked.interrupted() {
        Err(failure) => Err(failure),
        Ok((cost, after)) => if cost != 0 {
            Ok((after, cost))
        } else if after.interrupts.is_halted {
            Ok((after, HALTED_CYCLES))
        } else {
            opcode_done(table, after)
        },
    }
}

fn read_r8(mmu: &MMU, register: Reg8) -> (value: Result<u8, Fault>)
    ensures
        value == reg8_value(*mmu, register),
{
    match register {
        Reg8::B => Ok(mmu.b),
        Reg8::C => Ok(mmu.c),
        Reg8::D => Ok(mmu.d),
        Reg8::E => Ok(mmu.e),
        Reg8::H => Ok(mmu.h),
        Reg8::L => Ok(mmu.l),
        Reg8::AtHL => mmu.rb(mmu.hl()),
        Reg8::A => Ok(mmu.a),
    }
}

fn write_r8(mmu: &mut MMU, register: Reg8, value: u8) -> (done: Result<(), Fault>)
    ensures
        agrees(with_reg8(*old(mmu), register, value), done, *final(mmu)),
        final(mmu).keeps_display_timing(*old(mmu)),
{
    match register {
        Reg8::B => mmu.set_b(value),
        Reg8::C => mmu.set_c(value),
        Reg8::D => mmu.set_d(value),
        Reg8::E => mmu.set_e(value),
        Reg8::H => mmu.set_h(value),
        Reg8::L => mmu.set_l(value),
        Reg8::AtHL => {
            return mmu.wb(mmu.hl(), value);
        },
        Reg8::A => mmu.set_a(value),
    }
    Ok(())
}

fn read_r16(mmu: &MMU, register: Reg16) -> (value: u16)
    ensures
        value == reg16_value(*mmu, register),
{
    match register {
        Reg16::BC => mmu.bc(),
        Reg16::DE => mmu.de(),
        Reg16::HL => mmu.hl(),
        Reg16::SP => mmu.sp,
    }
}

fn write_r16(mmu: &mut MMU, register: Reg16, value: u16)
    ensures
        *final(mmu) == with_reg16(*old(mmu), register, value),
        final(mmu).keeps_display_timing(*old(mmu)),
{
    match register {
        Reg16::BC => mmu.set_bc(value),
        Reg16::DE => mmu.set_de(value),
        Reg16::HL => mmu.set_hl(value),
        Reg16::SP => mmu.set_sp(value),
    }
}

fn read_stack_reg(mmu: &MMU, register: StackReg) -> (value: u16)
    ensures
        value == stack_reg_value(*mmu, register),
{
    match register {
        StackReg::BC => mmu.bc(),
        StackReg::DE => mmu.de(),
        StackReg::HL => mmu.hl(),
        StackReg::AF => mmu.af(),
    }
}

fn write_stack_reg(mmu: &mut MMU, register: StackReg, value: u16)
    ensures
        *final(mmu) == with_stack_reg(*old(mmu), register, value),
        final(mmu).keeps_display_timing(*old(mmu)),
{
    match register {
        StackReg::BC => mmu.set_bc(value),
        StackReg::DE => mmu.set_de(value),
        StackReg::HL => mmu.set_hl(value),
        StackReg::AF => mmu.set_af(value),
    }
}

fn read_pointer(mmu: &MMU, pointer: Pointer) -> (address: u16)
    ensures
        address == pointer_address(*mmu, pointer),
{
    match pointer {
        Pointer::BC => mmu.bc(),
        Pointer::DE => mmu.de(),
        Pointer::HLInc => mmu.hl(),
        Pointer::HLDec => mmu.hl(),
    }
}

fn move_pointer(mmu: &mut MMU, pointer: Pointer)
    ensures
        *final(mmu) == after_pointer(*old(mmu), pointer),
        final(mmu).keeps_display_timing(*old(mmu)),
{
    match pointer {
        Pointer::BC => {},
        Pointer::DE => {},
        Pointer::HLInc => mmu.set_hl(mmu.hl().wrapping_add(1)),
        Pointer::HLDec => mmu.set_hl(mmu.hl().wrapping_sub(1)),
    }
}

fn check(mmu: &MMU, condition: Cond) -> (met: bool)
    ensures
        met == holds(*mmu, condition),
{
    match condition {
        Cond::NZ => !mmu.flag_z(),
        Cond::Z => mmu.flag_z(),
        Cond::NC => !mmu.flag_c(),
        Cond::C => mmu.flag_c(),
    }
}

fn apply_alu(mmu: &mut MMU, operation: AluOp, value: u8)
    ensures
        *final(mmu) == alu_applied(*old(mmu), operation, value),
        final(mmu).keeps_display_timing(*old(mmu)),
{
    match operation {
        AluOp::Add => crate::alu::add(mmu, value),
        AluOp::Adc => crate::alu::adc(mmu, value),
        AluOp::Sub => crate::alu::sub(mmu, value),
        AluOp::Sbc => crate::alu::sbc(mmu, value),
        AluOp::And => crate::alu::and(mmu, value),
        AluOp::Xor => crate::alu::xor(mmu, value),
        AluOp::Or => crate::alu::or(mmu, value),
        AluOp::Cp => crate::alu::cp(mmu, value),
    }
}

fn apply_shift(mmu: &mut MMU, operation: ShiftOp, value: u8) -> (result: u8)
    ensures
        result == shift_result(*old(mmu), operation, value),
        *final(mmu) == after_shift(*old(mmu), result, shift_carry(operation, value)),
        final(mmu).keeps_display_timing(*old(mmu)),
{
    match operation {
        ShiftOp::Rlc => crate::alu::rlc(mmu, value),
        ShiftOp::Rrc => crate::alu::rrc(mmu, value),
        ShiftOp::Rl => crate::alu::rl(mmu, value),
        ShiftOp::Rr => crate::alu::rr(mmu, value),
        ShiftOp::Sla => crate::alu::sla(mmu, value),
        ShiftOp::Sra => crate::alu::sra(mmu, value),
        ShiftOp::Swap => crate::alu::swap(mmu, value),
        ShiftOp::Srl => crate::alu::srl(mmu, value),
    }
}

fn do_load_word(mmu: &mut MMU, register: Reg16) -> (done: Result<(), Fault>)
    ensures
        agrees(load_word(*old(mmu), register), done, *final(mmu)),
        final(mmu).keeps_display_timing(*old(mmu)),
{
    let word = mmu.get_next_word()?;
    write_r16(mmu, register, word);
    Ok(())
}

fn do_store_a(mmu: &mut MMU, pointer: Pointer) -> (done: Result<(), Fault>)
    ensures
        agrees(store_a(*old(mmu), pointer), done, *final(mmu)),
        final(mmu).keeps_display_timing(*old(mmu)),
{
    mmu.wb(read_pointer(mmu, pointer), mmu.a)?;
    move_pointer(mmu, pointer);
    Ok(())
}

fn do_load_a(mmu: &mut MMU, pointer: Pointer) -> (done: Result<(), Fault>)
    ensures
        agrees(load_a(*old(mmu), pointer), done, *final(mmu)),
        final(mmu).keeps_display_timing(*old(mmu)),
{
    let value = mmu.rb(read_pointer(mmu, pointer))?;
    mmu.set_a(value);
    move_pointer(mmu, pointer);
    Ok(())
}

fn do_step_word(mmu: &mut MMU, register: Reg16, up: bool)
    ensures
        *final(mmu) == with_reg16(
            *old(mmu),
            register,
            if up {
                reg16_value(*old(mmu), register).wrapping_add(1)
            } else {
                reg16_value(*old(mmu), register).wrapping_sub(1)
            },
        ),
        final(mmu).keeps_display_timing(*old(mmu)),
{
    let value = read_r16(mmu, register);
    write_r16(mmu, register, if up { value.wrapping_add(1) } else { value.wrapping_sub(1) });
}

fn do_increment(mmu: &mut MMU, register: Reg8) -> (done: Result<(), Fault>)
    ensures
        agrees(increment(*old(mmu), register), done, *final(mmu)),
        final(mmu).keeps_display_timing(*old(mmu)),
{
    let value = read_r8(mmu, register)?;
    let result = crate::alu::inc(mmu, value);
    write_r8(mmu, register, result)
}

fn do_decrement(mmu: &mut MMU, register: Reg8) -> (done: Result<(), Fault>)
    ensures
        agrees(decrement(*old(mmu), register), done, *final(mmu)),
        final(mmu).keeps_display_timing(*old(mmu)),
{
    let value = read_r8(mmu, register)?;
    let result = crate::alu::dec(mmu, value);
    write_r8(mmu, register, result)
}

fn do_load_immediate(mmu: &mut MMU, register: Reg8) -> (done: Result<(), Fault>)
    ensures
        agrees(load_immediate(*old(mmu), register), done, *final(mmu)),
        final(mmu).keeps_display_timing(*old(mmu)),
{
    let value = mmu.get_next_byte()?;
    write_r8(mmu, register, value)
}

fn do_load(mmu: &mut MMU, target: Reg8, source: Reg8) -> (done: Result<(), Fault>)
    ensures
        agrees(load(*old(mmu), target, source), done, *final(mmu)),
        final(mmu).keeps_display_timing(*old(mmu)),
{
    let value = read_r8(mmu, source)?;
    write_r8(mmu, target, value)
}

fn do_rotate_a(mmu: &mut MMU, operation: ShiftOp)
    ensures
        *final(mmu) == rotate_a(*old(mmu), operation),
        final(mmu).keeps_display_timing(*old(mmu)),
{
    let result = apply_shift(mmu, operation, mmu.a);
    mmu.set_a(result);
    mmu.set_flag_z(false);
}

fn do_store_sp(mmu: &mut MMU) -> (done: Result<(), Fault>)
    ensures
        agrees(store_sp(*old(mmu)), done, *final(mmu)),
        final(mmu).keeps_display_timing(*old(mmu)),
{
    let address = mmu.get_next_word()?;
    mmu.ww(address, mmu.sp)
}

fn do_jump_relative(mmu: &mut MMU, jump: bool) -> (done: Result<(), Fault>)
    ensures
        agrees(jump_relative(*old(mmu), jump), done, *final(mmu)),
        final(mmu).keeps_display_timing(*old(mmu)),
{
    let offset = mmu.get_signed_byte()?;
    if jump {
        mmu.set_pc(mmu.pc.wrapping_add_signed(offset as i16));
    }
    Ok(())
}

fn do_alu(mmu: &mut MMU, operation: AluOp, register: Reg8) -> (done: Result<(), Fault>)
    ensures
        agrees(alu(*old(mmu), operation, register), done, *final(mmu)),
        final(mmu).keeps_display_timing(*old(mmu)),
{
    let value = read_r8(mmu, register)?;
    apply_alu(mmu, operation, value);
    Ok(())
}

fn do_alu_immediate(mmu: &mut MMU, operation: AluOp) -> (done: Result<(), Fault>)
    ensures
        agrees(alu_immediate(*old(mmu), operation), done, *final(mmu)),
        final(mmu).keeps_display_timing(*old(mmu)),
{
    let value = mmu.get_next_byte()?;
    apply_alu(mmu, operation, value);
    Ok(())
}

fn do_ret(mmu: &mut MMU, act: bool) -> (done: Result<(), Fault>)
    ensures
        agrees(ret(*old(mmu), act), done, *final(mmu)),
        final(mmu).keeps_display_timing(*old(mmu)),
{
    if act {
        let address = mmu.pop_stack()?;
        mmu.set_pc(address);
    }
    Ok(())
}

fn do_reti(mmu: &mut MMU) -> (done: Result<(), Fault>)
    ensures
        agrees(reti(*old(mmu)), done, *final(mmu)),
        final(mmu).keeps_display_timing(*old(mmu)),
{
    do_ret(mmu, true)?;
    mmu.request_enable(1);
    Ok(())
}

fn do_pop(mmu: &mut MMU, register: StackReg) -> (done: Result<(), Fault>)
    ensures
        agrees(pop(*old(mmu), register), done, *final(mmu)),
        final(mmu).keeps_display_timing(*old(mmu)),
{
    let value = mmu.pop_stack()?;
    write_stack_reg(mmu, register, value);
    Ok(())
}

fn do_jump(mmu: &mut MMU, act: bool) -> (done: Result<(), Fault>)
    ensures
        agrees(jump(*old(mmu), act), done, *final(mmu)),
        final(mmu).keeps_display_timing(*old(mmu)),
{
    let address = mmu.get_next_word()?;
    if act {
        mmu.set_pc(address);
    }
    Ok(())
}

fn do_called(mmu: &mut MMU, address: u16) -> (done: Result<(), Fault>)
    ensures
        agrees(called(*old(mmu), address), done, *final(mmu)),
        final(mmu).keeps_display_timing(*old(mmu)),
{
    mmu.push_stack(mmu.pc)?;
    mmu.set_pc(address);
    Ok(())
}

fn do_call(mmu: &mut MMU, act: bool) -> (done: Result<(), Fault>)
    ensures
        agrees(call(*old(mmu), act), done, *final(mmu)),
        final(mmu).keeps_display_timing(*old(mmu)),
{
    let address = mmu.get_next_word()?;
    if act {
        do_called(mmu, address)
    } else {
        Ok(())
    }
}

fn do_store_high(mmu: &mut MMU) -> (done: Result<(), Fault>)
    ensures
        agrees(store_high(*old(mmu)), done, *final(mmu)),
        final(mmu).keeps_display_timing(*old(mmu)),
{
    let offset = mmu.get_next_byte()?;
    mmu.wb(0xFF00 + offset as u16, mmu.a)
}

fn do_load_high(mmu: &mut MMU) -> (done: Result<(), Fault>)
    ensures
        agrees(load_high(*old(mmu)), done, *final(mmu)),
        final(mmu).keeps_display_timing(*old(mmu)),
{
    let offset = mmu.get_next_byte()?;
    let value = mmu.rb(0xFF00 + offset as u16)?;
    mmu.set_a(value);
    Ok(())
}

fn do_load_high_c(mmu: &mut MMU) -> (done: Result<(), Fault>)
    ensures
        agrees(load_high_c(*old(mmu)), done, *final(mmu)),
        final(mmu).keeps_display_timing(*old(mmu)),
{
    let value = mmu.rb(0xFF00 + mmu.c as u16)?;
    mmu.set_a(value);
    Ok(())
}

fn do_store_absolute(mmu: &mut MMU) -> (done: Result<(), Fault>)
    ensures
        agrees(store_absolute(*old(mmu)), done, *final(mmu)),
        final(mmu).keeps_display_timing(*old(mmu)),
{
    let address = mmu.get_next_word()?;
    mmu.wb(address, mmu.a)
}

fn do_load_absolute(mmu: &mut MMU) -> (done: Result<(), Fault>)
    ensures
        agrees(load_absolute(*old(mmu)), done, *final(mmu)),
        final(mmu).keeps_display_timing(*old(mmu)),
{
    let address = mmu.get_next_word()?;
    let value = mmu.rb(address)?;
    mmu.set_a(value);
    Ok(())
}

/// Set the flags of the addition of `offset` to the stack pointer, and
/// return the sum.
fn offset_sp(mmu: &mut MMU, offset: u8) -> (sum: u16)
    ensures
        sum == relative(old(mmu).sp, offset),
        *final(mmu) == after_sp_offset(*old(mmu), offset),
        final(mmu).keeps_display_timing(*old(mmu)),
{
    let sp = mmu.sp;
    let half = (sp % 16) + (offset as u16 % 16) > 15;
    let carry = (sp % 256) + offset as u16 > 255;
    mmu.set_flags(false, false, half, carry);
    sp.wrapping_add_signed(crate::mmu::registers::to_signed(offset) as i16)
}

fn do_add_sp(mmu: &mut MMU) -> (done: Result<(), Fault>)
    ensures
        agrees(add_sp(*old(mmu)), done, *final(mmu)),
        final(mmu).keeps_display_timing(*old(mmu)),
{
    let offset = mmu.get_next_byte()?;
    let sum = offset_sp(mmu, offset);
    mmu.set_sp(sum);
    Ok(())
}

fn do_load_hl_sp(mmu: &mut MMU) -> (done: Result<(), Fault>)
    ensures
        agrees(load_hl_sp(*old(mmu)), done, *final(mmu)),
        final(mmu).keeps_display_timing(*old(mmu)),
{
    let offset = mmu.get_next_byte()?;
    let sum = offset_sp(mmu, offset);
    mmu.set_hl(sum);
    Ok(())
}

fn do_shift(mmu: &mut MMU, operation: ShiftOp, register: Reg8) -> (done: Result<(), Fault>)
    ensures
        agrees(shift(*old(mmu), operation, register), done, *final(mmu)),
        final(mmu).keeps_display_timing(*old(mmu)),
{
    let value = read_r8(mmu, register)?;
    let result = apply_shift(mmu, operation, value);
    write_r8(mmu, register, result)
}

fn do_test_bit(mmu: &mut MMU, index: u8, register: Reg8) -> (done: Result<(), Fault>)
    requires
        index < 8,
    ensures
        agrees(test_bit(*old(mmu), index, register), done, *final(mmu)),
        final(mmu).keeps_display_timing(*old(mmu)),
{
    let value = read_r8(mmu, register)?;
    crate::alu::bit(mmu, index, value);
    Ok(())
}

fn do_change_bit(mmu: &mut MMU, index: u8, register: Reg8, high: bool) -> (done: Result<(), Fault>)
    requires
        index < 8,
    ensures
        agrees(change_bit(*old(mmu), index, register, high), done, *final(mmu)),
        final(mmu).keeps_display_timing(*old(mmu)),
{
    let value = read_r8(mmu, register)?;
    let result = if high {
        crate::alu::set(index, value)
    } else {
        crate::alu::res(index, value)
    };
    write_r8(mmu, register, result)
}

/// Whether `instruction` is one that `decode` gives: the bit of a test, a
/// reset or a setting of a bit is one of the eight.
pub open spec fn well_formed(instruction: Instruction) -> bool {
    match instruction {
        Instruction::TestBit(index, _) => index < 8,
        Instruction::ResetBit(index, _) => index < 8,
        Instruction::SetBit(index, _) => index < 8,
        _ => true,
    }
}

/// Whether an instruction is a conditional one whose condition holds.
fn is_taken(mmu: &MMU, instruction: Instruction) -> (taken: bool)
    ensures
        taken == acts(*mmu, instruction),
{
    match instruction {
        Instruction::JrIf(condition) => check(mmu, condition),
        Instruction::RetIf(condition) => check(mmu, condition),
        Instruction::JpIf(condition) => check(mmu, condition),
        Instruction::CallIf(condition) => check(mmu, condition),
        _ => false,
    }
}

/// Whether an instruction moves data: a load, a store, a push or a pop.
pub open spec fn moves_data(instruction: Instruction) -> bool {
    match instruction {
        Instruction::Nop => true,
        Instruction::LoadWord(_) => true,
        Instruction::StoreA(_) => true,
        Instruction::LoadA(_) => true,
        Instruction::LoadImmediate(_) => true,
        Instruction::StoreSp => true,
        Instruction::Load(_, _) => true,
        Instruction::Pop(_) => true,
        Instruction::Push(_) => true,
        Instruction::LoadSpHl => true,
        Instruction::StoreHigh => true,
        Instruction::LoadHigh => true,
        Instruction::StoreHighC => true,
        Instruction::LoadHighC => true,
        Instruction::StoreAbsolute => true,
        Instruction::LoadAbsolute => true,
        Instruction::LoadHlSp => true,
        _ => false,
    }
}

/// Whether an instruction changes the flow of control or the state of the
/// interrupt controller: a jump, a call, a return, a halt, DI or EI.
pub open spec fn moves_control(instruction: Instruction) -> bool {
    match instruction {
        Instruction::Jr => true,
        Instruction::JrIf(_) => true,
        Instruction::Halt => true,
        Instruction::RetIf(_) => true,
        Instruction::JpIf(_) => true,
        Instruction::Jp => true,
        Instruction::CallIf(_) => true,
        Instruction::Rst(_) => true,
        Instruction::Ret => true,
        Instruction::Reti => true,
        Instruction::JpHl => true,
        Instruction::Call => true,
        Instruction::Di => true,
        Instruction::Ei => true,
        _ => false,
    }
}

/// Run an instruction that moves data.
fn execute_transfer(mmu: &mut MMU, instruction: Instruction) -> (done: Result<(), Fault>)
    requires
        moves_data(instruction),
    ensures
        agrees(executed(*old(mmu), instruction), done, *final(mmu)),
        final(mmu).keeps_display_timing(*old(mmu)),
{
    match instruction {
        Instruction::LoadWord(register) => do_load_word(mmu, register),
        Instruction::StoreA(pointer) => do_store_a(mmu, pointer),
        Instruction::LoadA(pointer) => do_load_a(mmu, pointer),
        Instruction::LoadImmediate(register) => do_load_immediate(mmu, register),
        Instruction::StoreSp => do_store_sp(mmu),
        Instruction::Load(target, source) => do_load(mmu, target, source),
        Instruction::Pop(register) => do_pop(mmu, register),
        Instruction::Push(register) => mmu.push_stack(read_stack_reg(mmu, register)),
        Instruction::LoadSpHl => {
            mmu.set_sp(mmu.hl());
            Ok(())
        },
        Instruction::StoreHigh => do_store_high(mmu),
        Instruction::LoadHigh => do_load_high(mmu),
        Instruction::StoreHighC => mmu.wb(0xFF00 + mmu.c as u16, mmu.a),
        Instruction::LoadHighC => do_load_high_c(mmu),
        Instruction::StoreAbsolute => do_store_absolute(mmu),
        Instruction::LoadAbsolute => do_load_absolute(mmu),
        Instruction::LoadHlSp => do_load_hl_sp(mmu),
        _ => Ok(()),
    }
}

/// Run an instruction that changes the flow of control or the state of the
/// interrupt controller. `act` says whether a conditional one acts.
fn execute_control(mmu: &mut MMU, instruction: Instruction, act: bool) -> (done: Result<(), Fault>)
    requires
        moves_control(instruction),
        act == acts(*old(mmu), instruction),
    ensures
        agrees(executed(*old(mmu), instruction), done, *final(mmu)),
        final(mmu).keeps_display_timing(*old(mmu)),
{
    match instruction {
        Instruction::Jr => do_jump_relative(mmu, true),
        Instruction::JrIf(_) => do_jump_relative(mmu, act),
        Instruction::Halt => {
            mmu.halt();
            Ok(())
        },
        Instruction::RetIf(_) => do_ret(mmu, act),
        Instruction::JpIf(_) => do_jump(mmu, act),
        Instruction::Jp => do_jump(mmu, true),
        Instruction::CallIf(_) => do_call(mmu, act),
        Instruction::Rst(address) => do_called(mmu, address as u16),
        Instruction::Ret => do_ret(mmu, true),
        Instruction::Reti => do_reti(mmu),
        Instruction::JpHl => {
            mmu.set_pc(mmu.hl());
            Ok(())
        },
        Instruction::Call => do_call(mmu, true),
        Instruction::Di => {
            mmu.request_disable();
            Ok(())
        },
        _ => {
            mmu.request_enable(2);
            Ok(())
        },
    }
}

/// Run an instruction that computes: the operations of the ALU, the
/// increments and decrements, the rotates and shifts, and those on bits.
fn execute_arithmetic(mmu: &mut MMU, instruction: Instruction) -> (done: Result<(), Fault>)
    requires
        !moves_data(instruction),
        !moves_control(instruction),
        well_formed(instruction),
    ensures
        agrees(executed(*old(mmu), instruction), done, *final(mmu)),
        final(mmu).keeps_display_timing(*old(mmu)),
{
    match instruction {
        Instruction::IncWord(register) => {
            do_step_word(mmu, register, true);
            Ok(())
        },
        Instruction::DecWord(register) => {
            do_step_word(mmu, register, false);
            Ok(())
        },
        Instruction::Inc(register) => do_increment(mmu, register),
        Instruction::Dec(register) => do_decrement(mmu, register),
        Instruction::Rlca => {
            do_rotate_a(mmu, ShiftOp::Rlc);
            Ok(())
        },
        Instruction::Rrca => {
            do_rotate_a(mmu, ShiftOp::Rrc);
            Ok(())
        },
        Instruction::Rla => {
            do_rotate_a(mmu, ShiftOp::Rl);
            Ok(())
        },
        Instruction::Rra => {
            do_rotate_a(mmu, ShiftOp::Rr);
            Ok(())
        },
        Instruction::Daa => {
            crate::alu::daa(mmu);
            Ok(())
        },
        Instruction::Cpl => {
            crate::alu::cpl(mmu);
            Ok(())
        },
        Instruction::Scf => {
            mmu.set_flags(mmu.zero, false, false, true);
            Ok(())
        },
        Instruction::Ccf => {
            mmu.set_flags(mmu.zero, false, false, !mmu.carry);
            Ok(())
        },
        Instruction::AddHl(register) => {
            crate::alu::add_hl_16(mmu, read_r16(mmu, register));
            Ok(())
        },
        Instruction::Alu(operation, register) => do_alu(mmu, operation, register),
        Instruction::AluImmediate(operation) => do_alu_immediate(mmu, operation),
        Instruction::AddSp => do_add_sp(mmu),
        Instruction::Shift(operation, register) => do_shift(mmu, operation, register),
        Instruction::TestBit(index, register) => do_test_bit(mmu, index, register),
        Instruction::ResetBit(index, register) => do_change_bit(mmu, index, register, false),
        Instruction::SetBit(index, register) => do_change_bit(mmu, index, register, true),
        _ => Ok(()),
    }
}

/// The kind of an instruction, which picks what runs it.
fn kind(instruction: Instruction) -> (kind: u8)
    ensures
        kind == (if moves_data(instruction) {
            0u8
        } else if moves_control(instruction) {
            1u8
        } else {
            2u8
        }),
{
    match instruction {
        Instruction::Nop | Instruction::LoadWord(_) | Instruction::StoreA(_) | Instruction::LoadA(
            _,
        ) | Instruction::LoadImmediate(_) | Instruction::StoreSp | Instruction::Load(_, _)
        | Instruction::Pop(_) | Instruction::Push(_) | Instruction::LoadSpHl
        | Instruction::StoreHigh | Instruction::LoadHigh | Instruction::StoreHighC
        | Instruction::LoadHighC | Instruction::StoreAbsolute | Instruction::LoadAbsolute
        | Instruction::LoadHlSp => 0,
        Instruction::Jr | Instruction::JrIf(_) | Instruction::Halt | Instruction::RetIf(_)
        | Instruction::JpIf(_) | Instruction::Jp | Instruction::CallIf(_) | Instruction::Rst(_)
        | Instruction::Ret | Instruction::Reti | Instruction::JpHl | Instruction::Call
        | Instruction::Di | Instruction::Ei => 1,
        _ => 2,
    }
}

/// Run an instruction on a machine whose program counter is behind the
/// opcode. Returns whether the instruction is a conditional one that acted.
pub fn execute(mmu: &mut MMU, instruction: Instruction) -> (taken: Result<bool, Fault>)
    requires
        well_formed(instruction),
    ensures
        match executed(*old(mmu), instruction) {
            Ok(machine) => taken == Ok::<bool, Fault>(acts(*old(mmu), instruction)) && *final(mmu)
                == machine,
            Err(failure) => taken == Err::<bool, Fault>(failure.fault) && *final(mmu)
                == failure.machine,
        },
        final(mmu).keeps_display_timing(*old(mmu)),
{
    let condition_met = is_taken(mmu, instruction);
    let done = match kind(instruction) {
        0 => execute_transfer(mmu, instruction),
        1 => execute_control(mmu, instruction, condition_met),
        _ => execute_arithmetic(mmu, instruction),
    };
    match done {
        Ok(()) => Ok(condition_met),
        Err(failure) => Err(failure),
    }
}

impl CPU {
    /// A CPU that takes the cost of its instructions from `opcodes`.
    pub fn new(opcodes: OpCodes) -> (cpu: Self)
        ensures
            cpu.opcodes == opcodes,
    {
        Self { opcodes }
    }

    /// Dispatch an opcode that was fetched at `op_address`.
    fn dispatch(&self, mmu: &mut MMU, opcode: u8, is_cbprefix: bool, op_address: u16) -> (cycles:
        Result<u8, Fault>)
        ensures
            match dispatched(self.opcodes, *old(mmu), opcode, is_cbprefix, op_address) {
                Ok((machine, cost)) => cycles == Ok::<u8, Fault>(cost) && *final(mmu) == machine,
                Err(failure) => cycles == Err::<u8, Fault>(failure.fault) && *final(mmu)
                    == failure.machine,
            },
            final(mmu).keeps_display_timing(*old(mmu)),
    {
        // The cost where a conditional instruction does not act, which costs
        // less. It is replaced below where the instruction acts.
        let untaken = match self.opcodes.get_cycles(opcode, is_cbprefix, false) {
            Some(cycles) => cycles,
            None => {
                return Err(self.panic_opcode(opcode, is_cbprefix, op_address));
            },
        };
        let instruction = match decode(opcode, is_cbprefix) {
            Some(instruction) => instruction,
            None => {
                return Err(self.panic_opcode(opcode, is_cbprefix, op_address));
            },
        };
        let condition_met = execute(mmu, instruction)?;
        if condition_met {
            match self.opcodes.get_cycles(opcode, is_cbprefix, true) {
                Some(cycles) => Ok(cycles),
                None => Ok(untaken),
            }
        } else {
            Ok(untaken)
        }
    }

    /// Perform a single instruction and return the number of machine cycles
    /// that it took.
    pub fn do_opcode(&self, mmu: &mut MMU) -> (cycles: Result<u8, Fault>)
        ensures
            match opcode_done(self.opcodes, *old(mmu)) {
                Ok((machine, cost)) => cycles == Ok::<u8, Fault>(cost) && *final(mmu) == machine,
                Err(failure) => cycles == Err::<u8, Fault>(failure.fault) && *final(mmu)
                    == failure.machine,
            },
            final(mmu).keeps_display_timing(*old(mmu)),
    {
        let op_address = mmu.pc;
        let mut opcode = mmu.get_next_byte()?;
        let is_cbprefix = opcode == 0xCB;
        if is_cbprefix {
            opcode = mmu.get_next_byte()?;
        }
        self.dispatch(mmu, opcode, is_cbprefix, op_address)
    }

    /// Step the CPU forward one unit and return the number of machine cycles
    /// that it took: the service of an interrupt, one idle cycle of a halted
    /// CPU, or one instruction.
    pub fn step(&self, mmu: &mut MMU) -> (cycles: Result<u8, Fault>)
        ensures
            match stepped(self.opcodes, *old(mmu)) {
                Ok((machine, cost)) => cycles == Ok::<u8, Fault>(cost) && *final(mmu) == machine,
                Err(failure) => cycles == Err::<u8, Fault>(failure.fault) && *final(mmu)
                    == failure.machine,
            },
            final(mmu).keeps_display_timing(*old(mmu)),
    {
        mmu.tick_ime_timer();
        let served = mmu.try_interrupt()?;
        if served != 0 {
            Ok(served)
        } else if mmu.interrupts.is_halted {
            Ok(HALTED_CYCLES)
        } else {
            self.do_opcode(mmu)
        }
    }

    /// The fault of an opcode that cannot be run.
    pub fn panic_opcode(&self, opcode: u8, is_cbprefix: bool, operation_address: u16) -> (fault:
        Fault)
        ensures
            fault == unimplemented(opcode, is_cbprefix, operation_address),
    {
        Fault::UnimplementedOpcode { opcode, prefixed: is_cbprefix, address: operation_address }
    }
}

/// An instruction that acts never costs less than the same instruction where
/// it does not act: of two machines on which the same opcode is dispatched
/// without a fault, the one on which the instruction acts pays no less.
pub proof fn law_branch_taken_costs_no_less(
    table: OpCodes,
    acting: MMU,
    idle: MMU,
    opcode: u8,
    prefixed: bool,
    address: u16,
)
    requires
        dispatched(table, acting, opcode, prefixed, address) is Ok,
        dispatched(table, idle, opcode, prefixed, address) is Ok,
        acts(acting, spec_decode(opcode, prefixed)->Some_0),
        !acts(idle, spec_decode(opcode, prefixed)->Some_0),
    ensures
        dispatched(table, acting, opcode, prefixed, address)->Ok_0.1 >= dispatched(
            table,
            idle,
            opcode,
            prefixed,
            address,
        )->Ok_0.1,
{
    crate::opcode::law_taken_costs_no_less(table, opcode, prefixed);
}

/// A step of a halted CPU with nothing to serve changes nothing but the
/// delay counters of the master enable, and costs one cycle.
pub proof fn law_halted_cpu_idles(table: OpCodes, m: MMU)
    requires
        m.interrupts.is_halted,
        m.interrupts.pending() == 0,
    ensures
        stepped(table, m) == Ok::<(MMU, u8), Failure>(
            (MMU { interrupts: m.interrupts.after_tick(), ..m }, HALTED_CYCLES),
        ),
{
}

/// A step with an interrupt to serve runs no instruction: it pushes the
/// program counter, jumps to the handler and costs four cycles.
pub proof fn law_interrupt_comes_before_the_instruction(table: OpCodes, m: MMU)
    requires
        m.interrupts.after_tick().serves(),
        stepped(table, m) is Ok,
    ensures
        stepped(table, m)->Ok_0.1 == INTERRUPT_CYCLES,
        stepped(table, m)->Ok_0.0.pc == MMU::vector(
            crate::mmu::interrupts::highest_priority(m.interrupts.after_tick().pending()),
        ),
        stepped(table, m)->Ok_0.0.sp == m.sp.wrapping_sub(2),
        stepped(table, m)->Ok_0.0.a == m.a,
{
    let ticked = MMU { interrupts: m.interrupts.after_tick(), ..m };
    let taken = MMU { interrupts: ticked.interrupts.after_try(), ..ticked };
    lemma_store_word_keeps_registers(MMU { sp: m.sp.wrapping_sub(2), ..taken }, m.sp.wrapping_sub(2), m.pc);
}

/// A word that is stored leaves the CPU registers as they are.
pub proof fn lemma_store_word_keeps_registers(m: MMU, address: u16, value: u16)
    requires
        m.store_word(address, value) is Ok,
    ensures
        m.store_word(address, value)->Ok_0.sp == m.sp,
        m.store_word(address, value)->Ok_0.pc == m.pc,
        m.store_word(address, value)->Ok_0.a == m.a,
{
}

} // verus!
