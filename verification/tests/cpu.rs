use gameboy::cpu::{decode, execute, AluOp, Cond, Instruction, Pointer, Reg16, Reg8, ShiftOp, StackReg};
use gameboy::opcode::{Flags, OpCode};
use gameboy::{Fault, OpCodes, CPU, MMU};

/// An entry of the opcode table with the costs given, in clock ticks.
fn entry(mnemonic: &str, bytes: u8, cycles: Vec<u8>) -> OpCode {
    OpCode {
        mnemonic: String::from(mnemonic),
        bytes,
        operands: Vec::new(),
        flags: Flags {
            Z: String::from("-"),
            N: String::from("-"),
            H: String::from("-"),
            C: String::from("-"),
        },
        cycles,
    }
}

/// A table in which every opcode costs 4 ticks, and the conditional ones 12
/// where they act and 8 where they do not.
fn table() -> OpCodes {
    let mut table = OpCodes::new();
    for opcode in 0..=255u8 {
        table.insert(opcode, false, entry("OP", 1, vec![4]));
        table.insert(opcode, true, entry("CB", 2, vec![8]));
    }
    for opcode in [0x20u8, 0x28, 0x30, 0x38, 0xC0, 0xC2, 0xC4, 0xC8, 0xCA, 0xCC, 0xD0, 0xD2, 0xD4, 0xD8, 0xDA, 0xDC] {
        table.insert(opcode, false, entry("COND", 2, vec![12, 8]));
    }
    table
}

/// A machine as the boot program leaves it, with a plain cartridge that
/// holds `program` at 0x0100, where the program counter points.
fn machine(program: &[u8]) -> MMU {
    let mut image = vec![0u8; 0x8000];
    image[0x100..0x100 + program.len()].copy_from_slice(program);
    let mut mmu = MMU::new(Some(image), None).unwrap();
    mmu.sp = 0xDFFE;
    mmu
}

/// Run `steps` steps and return the cycles of each.
fn run(cpu: &CPU, mmu: &mut MMU, steps: usize) -> Vec<u8> {
    (0..steps).map(|_| cpu.step(mmu).unwrap()).collect()
}

#[test]
fn nop_costs_one_cycle_and_moves_the_program_counter() {
    let cpu = CPU::new(table());
    let mut mmu = machine(&[0x00]);
    assert_eq!(cpu.step(&mut mmu), Ok(1));
    assert_eq!(mmu.pc, 0x0101);
}

#[test]
fn the_decoder_follows_the_fields_of_the_opcode() {
    assert_eq!(decode(0x00, false), Some(Instruction::Nop));
    assert_eq!(decode(0x01, false), Some(Instruction::LoadWord(Reg16::BC)));
    assert_eq!(decode(0x31, false), Some(Instruction::LoadWord(Reg16::SP)));
    assert_eq!(decode(0x22, false), Some(Instruction::StoreA(Pointer::HLInc)));
    assert_eq!(decode(0x3A, false), Some(Instruction::LoadA(Pointer::HLDec)));
    assert_eq!(decode(0x0C, false), Some(Instruction::Inc(Reg8::C)));
    assert_eq!(decode(0x35, false), Some(Instruction::Dec(Reg8::AtHL)));
    assert_eq!(decode(0x38, false), Some(Instruction::JrIf(Cond::C)));
    assert_eq!(decode(0x58, false), Some(Instruction::Load(Reg8::E, Reg8::B)));
    assert_eq!(decode(0x5C, false), Some(Instruction::Load(Reg8::E, Reg8::H)));
    assert_eq!(decode(0x76, false), Some(Instruction::Halt));
    assert_eq!(decode(0x9E, false), Some(Instruction::Alu(AluOp::Sbc, Reg8::AtHL)));
    assert_eq!(decode(0xA0, false), Some(Instruction::Alu(AluOp::And, Reg8::B)));
    assert_eq!(decode(0xF1, false), Some(Instruction::Pop(StackReg::AF)));
    assert_eq!(decode(0xFE, false), Some(Instruction::AluImmediate(AluOp::Cp)));
    assert_eq!(decode(0xEF, false), Some(Instruction::Rst(0x28)));
    assert_eq!(decode(0xFF, false), Some(Instruction::Rst(0x38)));
    assert_eq!(decode(0x11, true), Some(Instruction::Shift(ShiftOp::Rl, Reg8::C)));
    assert_eq!(decode(0x3F, true), Some(Instruction::Shift(ShiftOp::Srl, Reg8::A)));
    assert_eq!(decode(0x7C, true), Some(Instruction::TestBit(7, Reg8::H)));
    assert_eq!(decode(0x86, true), Some(Instruction::ResetBit(0, Reg8::AtHL)));
    assert_eq!(decode(0xFF, true), Some(Instruction::SetBit(7, Reg8::A)));
}

#[test]
fn thirteen_opcodes_have_no_dispatch_entry() {
    let without: Vec<u8> = (0..=255u8).filter(|&opcode| decode(opcode, false).is_none()).collect();
    assert_eq!(
        without,
        vec![0x10, 0xCB, 0xD3, 0xDB, 0xDD, 0xE3, 0xE4, 0xEB, 0xEC, 0xED, 0xF4, 0xFC, 0xFD]
    );
    assert!((0..=255u8).all(|opcode| decode(opcode, true).is_some()));
}

#[test]
fn an_opcode_without_dispatch_entry_is_a_fault_that_names_it() {
    let cpu = CPU::new(table());
    let mut mmu = machine(&[0x00, 0xD3]);
    assert_eq!(cpu.step(&mut mmu), Ok(1));
    assert_eq!(
        cpu.step(&mut mmu),
        Err(Fault::UnimplementedOpcode { opcode: 0xD3, prefixed: false, address: 0x0101 })
    );
}

#[test]
fn an_opcode_without_table_entry_is_a_fault_that_names_it() {
    let mut costs = OpCodes::new();
    costs.insert(0x00, false, entry("NOP", 1, vec![4]));
    costs.insert(0x01, false, entry("EMPTY", 1, vec![]));
    let cpu = CPU::new(costs);
    let mut mmu = machine(&[0x00, 0xCB, 0x37, 0x00]);
    assert_eq!(cpu.step(&mut mmu), Ok(1));
    assert_eq!(
        cpu.step(&mut mmu),
        Err(Fault::UnimplementedOpcode { opcode: 0x37, prefixed: true, address: 0x0101 })
    );
    let mut mmu = machine(&[0x01, 0x00, 0x00]);
    assert_eq!(
        cpu.do_opcode(&mut mmu),
        Err(Fault::UnimplementedOpcode { opcode: 0x01, prefixed: false, address: 0x0100 })
    );
    assert_eq!(
        cpu.panic_opcode(0x12, true, 0x3456),
        Fault::UnimplementedOpcode { opcode: 0x12, prefixed: true, address: 0x3456 }
    );
}

#[test]
fn an_access_to_an_unmapped_address_is_a_fault() {
    let cpu = CPU::new(table());
    // LD A,(0xA000)
    let mut mmu = machine(&[0xFA, 0x00, 0xA0]);
    assert_eq!(cpu.step(&mut mmu), Err(Fault::UnmappedAccess { address: 0xA000, write: false }));
    // LD (0xFF44),A
    let mut mmu = machine(&[0xEA, 0x44, 0xFF]);
    assert_eq!(cpu.step(&mut mmu), Err(Fault::UnmappedAccess { address: 0xFF44, write: true }));
}

#[test]
fn a_branch_that_is_taken_costs_more() {
    let cpu = CPU::new(table());
    // JR NZ,+2 with Z clear, then with Z set.
    let mut mmu = machine(&[0x20, 0x02]);
    mmu.set_flag_z(false);
    assert_eq!(cpu.step(&mut mmu), Ok(3));
    assert_eq!(mmu.pc, 0x0104);
    let mut mmu = machine(&[0x20, 0x02]);
    mmu.set_flag_z(true);
    assert_eq!(cpu.step(&mut mmu), Ok(2));
    assert_eq!(mmu.pc, 0x0102);
}

#[test]
fn the_order_of_the_two_costs_in_the_table_does_not_matter() {
    let mut costs = OpCodes::new();
    costs.insert(0x28, false, entry("JR Z", 2, vec![8, 12]));
    let cpu = CPU::new(costs);
    let mut mmu = machine(&[0x28, 0x02]);
    mmu.set_flag_z(true);
    assert_eq!(cpu.step(&mut mmu), Ok(3));
    let mut mmu = machine(&[0x28, 0x02]);
    mmu.set_flag_z(false);
    assert_eq!(cpu.step(&mut mmu), Ok(2));
}

#[test]
fn relative_jumps_go_both_ways() {
    let cpu = CPU::new(table());
    // JR -2 jumps to itself.
    let mut mmu = machine(&[0x18, 0xFE]);
    assert_eq!(cpu.step(&mut mmu), Ok(1));
    assert_eq!(mmu.pc, 0x0100);
    // JR C,+5 with the carry set.
    let mut mmu = machine(&[0x38, 0x05]);
    mmu.set_flag_c(true);
    assert_eq!(cpu.step(&mut mmu), Ok(3));
    assert_eq!(mmu.pc, 0x0107);
}

#[test]
fn loads_between_registers_write_the_target() {
    let cpu = CPU::new(table());
    // LD E,B; LD A,E; LD H,A; LD L,H
    let mut mmu = machine(&[0x58, 0x7B, 0x67, 0x6C]);
    mmu.b = 0x42;
    mmu.a = 0x00;
    run(&cpu, &mut mmu, 4);
    assert_eq!((mmu.e, mmu.a, mmu.h, mmu.l, mmu.b), (0x42, 0x42, 0x42, 0x42, 0x42));
}

#[test]
fn loads_of_constants() {
    let cpu = CPU::new(table());
    // LD BC,0x1234; LD DE,0x5678; LD HL,0xC000; LD SP,0xD000; LD A,0x9A; LD (HL),0xBC
    let mut mmu = machine(&[
        0x01, 0x34, 0x12, 0x11, 0x78, 0x56, 0x21, 0x00, 0xC0, 0x31, 0x00, 0xD0, 0x3E, 0x9A, 0x36, 0xBC,
    ]);
    run(&cpu, &mut mmu, 6);
    assert_eq!(mmu.bc(), 0x1234);
    assert_eq!(mmu.de(), 0x5678);
    assert_eq!(mmu.hl(), 0xC000);
    assert_eq!(mmu.sp, 0xD000);
    assert_eq!(mmu.a, 0x9A);
    assert_eq!(mmu.sram[0], 0xBC);
    assert_eq!(mmu.pc, 0x0110);
}

#[test]
fn loads_through_pointers_move_hl() {
    let cpu = CPU::new(table());
    // LD (HL+),A; LD (HL-),A; LD A,(HL+); LD (BC),A; LD A,(DE)
    let mut mmu = machine(&[0x22, 0x32, 0x2A, 0x02, 0x1A]);
    mmu.set_hl(0xC000);
    mmu.a = 0x11;
    assert_eq!(cpu.step(&mut mmu), Ok(1));
    assert_eq!((mmu.sram[0], mmu.hl()), (0x11, 0xC001));
    mmu.a = 0x22;
    cpu.step(&mut mmu).unwrap();
    assert_eq!((mmu.sram[1], mmu.hl()), (0x22, 0xC000));
    cpu.step(&mut mmu).unwrap();
    assert_eq!((mmu.a, mmu.hl()), (0x11, 0xC001));
    mmu.set_bc(0xC010);
    cpu.step(&mut mmu).unwrap();
    assert_eq!(mmu.sram[0x10], 0x11);
    mmu.set_de(0xC001);
    cpu.step(&mut mmu).unwrap();
    assert_eq!(mmu.a, 0x22);
}

#[test]
fn loads_through_the_io_page() {
    let cpu = CPU::new(table());
    // LDH (0x80),A; LDH A,(0x80); LD (C),A; LD A,(C)
    let mut mmu = machine(&[0xE0, 0x80, 0xF0, 0x80, 0xE2, 0xF2]);
    mmu.a = 0x5A;
    cpu.step(&mut mmu).unwrap();
    assert_eq!(mmu.hram[0], 0x5A);
    mmu.a = 0;
    cpu.step(&mut mmu).unwrap();
    assert_eq!(mmu.a, 0x5A);
    mmu.c = 0x81;
    mmu.a = 0xA5;
    cpu.step(&mut mmu).unwrap();
    assert_eq!(mmu.hram[1], 0xA5);
    mmu.a = 0;
    cpu.step(&mut mmu).unwrap();
    assert_eq!(mmu.a, 0xA5);
}

#[test]
fn increments_and_decrements() {
    let cpu = CPU::new(table());
    // INC C; DEC B; INC (HL); INC BC; DEC SP
    let mut mmu = machine(&[0x0C, 0x05, 0x34, 0x03, 0x3B]);
    mmu.c = 0xFF;
    mmu.b = 0x01;
    mmu.set_hl(0xC000);
    mmu.sram[0] = 0x0F;
    mmu.set_flags(false, false, false, true);
    cpu.step(&mut mmu).unwrap();
    assert_eq!(mmu.c, 0x00);
    assert_eq!(mmu.f(), 0b1011_0000);
    cpu.step(&mut mmu).unwrap();
    assert_eq!(mmu.b, 0x00);
    assert_eq!(mmu.f(), 0b1101_0000);
    cpu.step(&mut mmu).unwrap();
    assert_eq!(mmu.sram[0], 0x10);
    assert_eq!(mmu.f(), 0b0011_0000);
    mmu.set_bc(0xFFFF);
    cpu.step(&mut mmu).unwrap();
    assert_eq!(mmu.bc(), 0x0000);
    assert_eq!(mmu.f(), 0b0011_0000);
    mmu.sp = 0x0000;
    cpu.step(&mut mmu).unwrap();
    assert_eq!(mmu.sp, 0xFFFF);
}

#[test]
fn the_alu_works_on_registers_memory_and_constants() {
    let cpu = CPU::new(table());
    // ADD A,B; SUB (HL); AND 0x0F; XOR A; OR C; CP 0x13; ADC A,0x01; SBC A,D
    let mut mmu = machine(&[0x80, 0x96, 0xE6, 0x0F, 0xAF, 0xB1, 0xFE, 0x13, 0xCE, 0x01, 0x9A]);
    mmu.a = 0x12;
    mmu.b = 0x34;
    mmu.c = 0x13;
    mmu.d = 0x02;
    mmu.set_hl(0xC000);
    mmu.sram[0] = 0x06;
    cpu.step(&mut mmu).unwrap();
    assert_eq!(mmu.a, 0x46);
    cpu.step(&mut mmu).unwrap();
    assert_eq!(mmu.a, 0x40);
    cpu.step(&mut mmu).unwrap();
    assert_eq!(mmu.a, 0x00);
    assert_eq!(mmu.f(), 0b1010_0000);
    cpu.step(&mut mmu).unwrap();
    assert_eq!(mmu.a, 0x00);
    assert_eq!(mmu.f(), 0b1000_0000);
    cpu.step(&mut mmu).unwrap();
    assert_eq!(mmu.a, 0x13);
    cpu.step(&mut mmu).unwrap();
    assert_eq!(mmu.a, 0x13);
    assert_eq!(mmu.f(), 0b1100_0000);
    mmu.set_flag_c(true);
    cpu.step(&mut mmu).unwrap();
    assert_eq!(mmu.a, 0x15);
    mmu.set_flag_c(true);
    cpu.step(&mut mmu).unwrap();
    assert_eq!(mmu.a, 0x12);
}

#[test]
fn rotates_of_a_leave_the_zero_flag_clear() {
    let cpu = CPU::new(table());
    // RLCA; RLA; RRCA; RRA
    let mut mmu = machine(&[0x07, 0x17, 0x0F, 0x1F]);
    mmu.a = 0x80;
    mmu.set_flags(true, true, true, false);
    cpu.step(&mut mmu).unwrap();
    assert_eq!(mmu.a, 0x01);
    assert_eq!(mmu.f(), 0b0001_0000);
    mmu.a = 0x80;
    mmu.set_flag_c(false);
    cpu.step(&mut mmu).unwrap();
    assert_eq!(mmu.a, 0x00);
    assert_eq!(mmu.f(), 0b0001_0000);
    mmu.a = 0x01;
    cpu.step(&mut mmu).unwrap();
    assert_eq!(mmu.a, 0x80);
    assert_eq!(mmu.f(), 0b0001_0000);
    mmu.a = 0x02;
    cpu.step(&mut mmu).unwrap();
    assert_eq!(mmu.a, 0x81);
    assert_eq!(mmu.f(), 0b0000_0000);
}

#[test]
fn the_carry_flag_can_be_set_and_flipped() {
    let cpu = CPU::new(table());
    // SCF; CCF; CCF; CPL; DAA
    let mut mmu = machine(&[0x37, 0x3F, 0x3F, 0x2F, 0x27]);
    mmu.set_flags(true, true, true, false);
    cpu.step(&mut mmu).unwrap();
    assert_eq!(mmu.f(), 0b1001_0000);
    cpu.step(&mut mmu).unwrap();
    assert_eq!(mmu.f(), 0b1000_0000);
    cpu.step(&mut mmu).unwrap();
    assert_eq!(mmu.f(), 0b1001_0000);
    mmu.a = 0x0F;
    cpu.step(&mut mmu).unwrap();
    assert_eq!(mmu.a, 0xF0);
    assert_eq!(mmu.f(), 0b1111_0000);
    mmu.a = 0x0A;
    mmu.set_flags(false, false, false, false);
    cpu.step(&mut mmu).unwrap();
    assert_eq!(mmu.a, 0x10);
}

#[test]
fn sixteen_bit_additions() {
    let cpu = CPU::new(table());
    // ADD HL,DE; ADD HL,HL; ADD HL,SP; ADD SP,-1; LD HL,SP+2; LD SP,HL
    let mut mmu = machine(&[0x19, 0x29, 0x39, 0xE8, 0xFF, 0xF8, 0x02, 0xF9]);
    mmu.set_hl(0x0FFF);
    mmu.set_de(0x0001);
    mmu.set_flags(true, true, false, false);
    cpu.step(&mut mmu).unwrap();
    assert_eq!(mmu.hl(), 0x1000);
    assert_eq!(mmu.f(), 0b1010_0000);
    cpu.step(&mut mmu).unwrap();
    assert_eq!(mmu.hl(), 0x2000);
    mmu.sp = 0xF000;
    cpu.step(&mut mmu).unwrap();
    assert_eq!(mmu.hl(), 0x1000);
    assert_eq!(mmu.f(), 0b1001_0000);
    mmu.sp = 0xD000;
    cpu.step(&mut mmu).unwrap();
    assert_eq!(mmu.sp, 0xCFFF);
    assert_eq!(mmu.f(), 0b0000_0000);
    mmu.sp = 0xCFFF;
    cpu.step(&mut mmu).unwrap();
    assert_eq!(mmu.hl(), 0xD001);
    assert_eq!(mmu.sp, 0xCFFF);
    assert_eq!(mmu.f(), 0b0011_0000);
    cpu.step(&mut mmu).unwrap();
    assert_eq!(mmu.sp, 0xD001);
}

#[test]
fn push_and_pop_of_register_pairs() {
    let cpu = CPU::new(table());
    // PUSH BC; POP DE; PUSH AF; POP HL; PUSH HL; POP AF
    let mut mmu = machine(&[0xC5, 0xD1, 0xF5, 0xE1, 0xE5, 0xF1]);
    mmu.set_bc(0x1234);
    cpu.step(&mut mmu).unwrap();
    assert_eq!(mmu.sp, 0xDFFC);
    cpu.step(&mut mmu).unwrap();
    assert_eq!(mmu.de(), 0x1234);
    assert_eq!(mmu.sp, 0xDFFE);
    mmu.a = 0x56;
    mmu.set_flags(true, false, true, false);
    cpu.step(&mut mmu).unwrap();
    cpu.step(&mut mmu).unwrap();
    assert_eq!(mmu.hl(), 0x56A0);
    mmu.set_hl(0x78FF);
    cpu.step(&mut mmu).unwrap();
    cpu.step(&mut mmu).unwrap();
    assert_eq!(mmu.af(), 0x78F0);
}

#[test]
fn calls_and_returns() {
    let cpu = CPU::new(table());
    // 0x100: CALL 0x0110 ... 0x110: RET
    let mut program = vec![0u8; 0x20];
    program[0] = 0xCD;
    program[1] = 0x10;
    program[2] = 0x01;
    program[0x10] = 0xC9;
    let mut mmu = machine(&program);
    assert_eq!(cpu.step(&mut mmu), Ok(1));
    assert_eq!(mmu.pc, 0x0110);
    assert_eq!(mmu.sp, 0xDFFC);
    assert_eq!(mmu.rw(0xDFFC), Ok(0x0103));
    assert_eq!(cpu.step(&mut mmu), Ok(1));
    assert_eq!(mmu.pc, 0x0103);
    assert_eq!(mmu.sp, 0xDFFE);
}

#[test]
fn conditional_calls_returns_and_jumps() {
    let cpu = CPU::new(table());
    // CALL NZ,0x0110 with Z set does not act.
    let mut mmu = machine(&[0xC4, 0x10, 0x01]);
    mmu.set_flag_z(true);
    assert_eq!(cpu.step(&mut mmu), Ok(2));
    assert_eq!((mmu.pc, mmu.sp), (0x0103, 0xDFFE));
    // CALL Z,0x0110 with Z set acts.
    let mut mmu = machine(&[0xCC, 0x10, 0x01]);
    mmu.set_flag_z(true);
    assert_eq!(cpu.step(&mut mmu), Ok(3));
    assert_eq!((mmu.pc, mmu.sp), (0x0110, 0xDFFC));
    // RET NC with the carry set does not act; RET C does.
    let mut mmu = machine(&[0xD0, 0xD8]);
    mmu.set_flag_c(true);
    mmu.push_stack(0x1234).unwrap();
    assert_eq!(cpu.step(&mut mmu), Ok(2));
    assert_eq!(mmu.pc, 0x0101);
    assert_eq!(cpu.step(&mut mmu), Ok(3));
    assert_eq!((mmu.pc, mmu.sp), (0x1234, 0xDFFE));
    // JP C,0x0200 with the carry clear does not act; JP NC and JP do.
    let mut mmu = machine(&[0xDA, 0x00, 0x02, 0xD2, 0x00, 0x02]);
    mmu.set_flag_c(false);
    assert_eq!(cpu.step(&mut mmu), Ok(2));
    assert_eq!(mmu.pc, 0x0103);
    assert_eq!(cpu.step(&mut mmu), Ok(3));
    assert_eq!(mmu.pc, 0x0200);
    let mut mmu = machine(&[0xC3, 0x34, 0x12]);
    assert_eq!(cpu.step(&mut mmu), Ok(1));
    assert_eq!(mmu.pc, 0x1234);
    let mut mmu = machine(&[0xE9]);
    mmu.set_hl(0x4321);
    cpu.step(&mut mmu).unwrap();
    assert_eq!(mmu.pc, 0x4321);
}

#[test]
fn restarts_call_fixed_addresses() {
    let cpu = CPU::new(table());
    for (opcode, target) in [(0xC7u8, 0x00u16), (0xCF, 0x08), (0xD7, 0x10), (0xDF, 0x18), (0xE7, 0x20), (0xEF, 0x28), (0xF7, 0x30), (0xFF, 0x38)] {
        let mut mmu = machine(&[opcode]);
        cpu.step(&mut mmu).unwrap();
        assert_eq!(mmu.pc, target);
        assert_eq!(mmu.rw(mmu.sp), Ok(0x0101));
    }
}

#[test]
fn the_stack_pointer_can_be_stored() {
    let cpu = CPU::new(table());
    // LD (0xC000),SP
    let mut mmu = machine(&[0x08, 0x00, 0xC0]);
    mmu.sp = 0xBEEF;
    cpu.step(&mut mmu).unwrap();
    assert_eq!((mmu.sram[0], mmu.sram[1]), (0xEF, 0xBE));
}

#[test]
fn prefixed_instructions_take_a_second_byte() {
    let cpu = CPU::new(table());
    // RL C; SWAP A; BIT 7,H; RES 0,(HL); SET 7,B; SRL A; RR D; SRA E; RLC (HL)
    let mut mmu = machine(&[
        0xCB, 0x11, 0xCB, 0x37, 0xCB, 0x7C, 0xCB, 0x86, 0xCB, 0xF8, 0xCB, 0x3F, 0xCB, 0x1A, 0xCB,
        0x2B, 0xCB, 0x06,
    ]);
    mmu.c = 0x80;
    mmu.set_flags(false, false, false, true);
    assert_eq!(cpu.step(&mut mmu), Ok(2));
    assert_eq!(mmu.c, 0x01);
    assert_eq!(mmu.f(), 0b0001_0000);
    assert_eq!(mmu.pc, 0x0102);
    mmu.a = 0x12;
    cpu.step(&mut mmu).unwrap();
    assert_eq!(mmu.a, 0x21);
    mmu.h = 0x80;
    cpu.step(&mut mmu).unwrap();
    assert_eq!(mmu.f(), 0b0010_0000);
    mmu.set_hl(0xC000);
    mmu.sram[0] = 0xFF;
    cpu.step(&mut mmu).unwrap();
    assert_eq!(mmu.sram[0], 0xFE);
    mmu.b = 0x00;
    cpu.step(&mut mmu).unwrap();
    assert_eq!(mmu.b, 0x80);
    mmu.a = 0x03;
    cpu.step(&mut mmu).unwrap();
    assert_eq!(mmu.a, 0x01);
    assert!(mmu.flag_c());
    mmu.d = 0x00;
    cpu.step(&mut mmu).unwrap();
    assert_eq!(mmu.d, 0x80);
    mmu.e = 0x81;
    cpu.step(&mut mmu).unwrap();
    assert_eq!(mmu.e, 0xC0);
    mmu.sram[0] = 0x81;
    cpu.step(&mut mmu).unwrap();
    assert_eq!(mmu.sram[0], 0x03);
}

#[test]
fn disable_takes_effect_one_instruction_late() {
    let cpu = CPU::new(table());
    // DI; NOP; NOP
    let mut mmu = machine(&[0xF3, 0x00, 0x00]);
    assert!(mmu.interrupts.ime);
    cpu.step(&mut mmu).unwrap();
    assert!(mmu.interrupts.ime);
    cpu.step(&mut mmu).unwrap();
    assert!(mmu.interrupts.ime);
    cpu.step(&mut mmu).unwrap();
    assert!(!mmu.interrupts.ime);
}

#[test]
fn enable_takes_effect_one_instruction_late() {
    let cpu = CPU::new(table());
    // EI; NOP; NOP
    let mut mmu = machine(&[0xFB, 0x00, 0x00]);
    mmu.interrupts.ime = false;
    cpu.step(&mut mmu).unwrap();
    assert!(!mmu.interrupts.ime);
    cpu.step(&mut mmu).unwrap();
    assert!(!mmu.interrupts.ime);
    cpu.step(&mut mmu).unwrap();
    assert!(mmu.interrupts.ime);
}

#[test]
fn reti_returns_and_enables_after_one_more_step() {
    let cpu = CPU::new(table());
    let mut mmu = machine(&[0xD9]);
    mmu.interrupts.ime = false;
    mmu.push_stack(0x0150).unwrap();
    cpu.step(&mut mmu).unwrap();
    assert_eq!(mmu.pc, 0x0150);
    assert!(!mmu.interrupts.ime);
    cpu.step(&mut mmu).unwrap();
    assert!(mmu.interrupts.ime);
}

#[test]
fn a_pending_interrupt_is_served_in_place_of_an_instruction() {
    let cpu = CPU::new(table());
    let mut mmu = machine(&[0x3C]);
    mmu.a = 0;
    mmu.interrupts.inte = 0x01;
    mmu.interrupts.intf = 0x01;
    assert_eq!(cpu.step(&mut mmu), Ok(4));
    assert_eq!(mmu.pc, 0x0040);
    assert_eq!(mmu.a, 0);
    assert_eq!(mmu.rw(mmu.sp), Ok(0x0100));
    assert_eq!(mmu.interrupts.intf, 0);
}

#[test]
fn a_halted_cpu_idles_until_an_interrupt_is_pending() {
    let cpu = CPU::new(table());
    // HALT; INC A
    let mut mmu = machine(&[0x76, 0x3C]);
    mmu.a = 0;
    assert_eq!(cpu.step(&mut mmu), Ok(1));
    assert!(mmu.interrupts.is_halted);
    assert_eq!(cpu.step(&mut mmu), Ok(1));
    assert_eq!(cpu.step(&mut mmu), Ok(1));
    assert_eq!((mmu.pc, mmu.a), (0x0101, 0));
    mmu.interrupts.inte = 0x04;
    mmu.interrupts.intf = 0x04;
    assert_eq!(cpu.step(&mut mmu), Ok(4));
    assert!(!mmu.interrupts.is_halted);
    assert_eq!(mmu.pc, 0x0050);
}

#[test]
fn execute_says_whether_a_conditional_instruction_acted() {
    let mut mmu = machine(&[0x05, 0x00]);
    mmu.set_flag_z(true);
    assert_eq!(execute(&mut mmu, Instruction::JrIf(Cond::Z)), Ok(true));
    assert_eq!(mmu.pc, 0x0106);
    assert_eq!(execute(&mut mmu, Instruction::JpIf(Cond::NZ)), Ok(false));
    assert_eq!(execute(&mut mmu, Instruction::Jr), Ok(false));
    assert_eq!(execute(&mut mmu, Instruction::Nop), Ok(false));
}
