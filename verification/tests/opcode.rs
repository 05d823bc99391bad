use gameboy::opcode::{Flags, OpCode, Operand};
use gameboy::OpCodes;

fn entry(mnemonic: &str, cycles: Vec<u8>) -> OpCode {
    OpCode {
        mnemonic: String::from(mnemonic),
        bytes: 1,
        operands: vec![Operand {
            name: String::from("A"),
            decrement: None,
            increment: None,
            immediate: true,
        }],
        flags: Flags {
            Z: String::from("Z"),
            N: String::from("0"),
            H: String::from("0"),
            C: String::from("0"),
        },
        cycles,
    }
}

#[test]
fn the_table_holds_ticks_and_gives_machine_cycles() {
    let mut table = OpCodes::new();
    table.insert(0x00, false, entry("NOP", vec![4]));
    table.insert(0x01, false, entry("LD", vec![12]));
    table.insert(0x11, true, entry("RL", vec![8]));
    assert_eq!(table.get_cycles(0x00, false, false), Some(1));
    assert_eq!(table.get_cycles(0x00, false, true), Some(1));
    assert_eq!(table.get_cycles(0x01, false, false), Some(3));
    assert_eq!(table.get_cycles(0x11, true, false), Some(2));
}

#[test]
fn an_opcode_that_is_not_in_the_table_has_no_cost() {
    let mut table = OpCodes::new();
    assert_eq!(table.get_cycles(0x00, false, false), None);
    table.insert(0x00, false, entry("NOP", vec![4]));
    assert_eq!(table.get_cycles(0x00, true, false), None);
    assert_eq!(table.get_cycles(0x01, false, false), None);
    assert!(table.get_opcode(0x00, false).is_some());
    assert!(table.get_opcode(0x00, true).is_none());
}

#[test]
fn an_entry_without_costs_has_no_cost() {
    let mut table = OpCodes::new();
    table.insert(0x00, false, entry("NOP", vec![]));
    assert_eq!(table.get_cycles(0x00, false, false), None);
    assert_eq!(table.get_cycles(0x00, false, true), None);
}

#[test]
fn acting_costs_the_higher_of_two_costs() {
    let mut table = OpCodes::new();
    table.insert(0x20, false, entry("JR", vec![12, 8]));
    table.insert(0x28, false, entry("JR", vec![8, 12]));
    table.insert(0xC0, false, entry("RET", vec![20, 8]));
    assert_eq!(table.get_cycles(0x20, false, true), Some(3));
    assert_eq!(table.get_cycles(0x20, false, false), Some(2));
    assert_eq!(table.get_cycles(0x28, false, true), Some(3));
    assert_eq!(table.get_cycles(0x28, false, false), Some(2));
    assert_eq!(table.get_cycles(0xC0, false, true), Some(5));
    assert_eq!(table.get_cycles(0xC0, false, false), Some(2));
}

#[test]
fn acting_never_costs_less_for_any_two_costs() {
    for first in (0..=255u8).step_by(3) {
        for second in (0..=255u8).step_by(5) {
            let mut table = OpCodes::new();
            table.insert(0x00, false, entry("X", vec![first, second]));
            let taken = table.get_cycles(0x00, false, true).unwrap();
            let untaken = table.get_cycles(0x00, false, false).unwrap();
            assert!(taken >= untaken);
            assert_eq!(taken, (first / 4).max(second / 4));
            assert_eq!(untaken, (first / 4).min(second / 4));
        }
    }
}

#[test]
fn a_later_entry_replaces_an_earlier_one() {
    let mut table = OpCodes::new();
    table.insert(0x00, false, entry("NOP", vec![4]));
    table.insert(0x00, false, entry("NOP", vec![8]));
    assert_eq!(table.get_cycles(0x00, false, false), Some(2));
    assert_eq!(table.get_opcode(0x00, false).unwrap().mnemonic, "NOP");
}

fn operand(name: &str, immediate: bool, decrement: Option<bool>, increment: Option<bool>) -> Operand {
    Operand { name: String::from(name), decrement, increment, immediate }
}

fn described(mnemonic: &str, bytes: u8, operands: Vec<Operand>, cycles: Vec<u8>, flags: [&str; 4]) -> OpCode {
    OpCode {
        mnemonic: String::from(mnemonic),
        bytes,
        operands,
        flags: Flags {
            Z: String::from(flags[0]),
            N: String::from(flags[1]),
            H: String::from(flags[2]),
            C: String::from(flags[3]),
        },
        cycles,
    }
}

#[test]
fn an_opcode_is_described_on_one_line() {
    let mut table = OpCodes::new();
    table.insert(
        0x31,
        false,
        described(
            "LD",
            3,
            vec![operand("SP", true, None, None), operand("d16", true, None, None)],
            vec![12],
            ["-", "-", "-", "-"],
        ),
    );
    table.insert(
        0xAF,
        false,
        described("XOR", 1, vec![operand("A", true, None, None)], vec![4], ["Z", "0", "0", "0"]),
    );
    table.insert(
        0x32,
        false,
        described(
            "LD",
            1,
            vec![operand("HL", false, Some(true), None), operand("A", true, None, None)],
            vec![8],
            ["-", "-", "-", "-"],
        ),
    );
    assert_eq!(
        table.get_opcode_repr(0x31, false).unwrap(),
        "0x31 LD   SP    d16    3 12    [- - - -]"
    );
    assert_eq!(
        table.get_opcode_repr(0xAF, false).unwrap(),
        "0xAF XOR  A            1 4     [Z 0 0 0]"
    );
    assert_eq!(
        table.get_opcode_repr(0x32, false).unwrap(),
        "0x32 LD   (HL-) A      1 8     [- - - -]"
    );
    assert_eq!(table.get_opcode_repr(0x32, true), None);
    assert_eq!(table.get_opcode_repr(0x33, false), None);
}

#[test]
fn two_costs_are_described_with_a_slash() {
    let mut table = OpCodes::new();
    table.insert(
        0x20,
        false,
        described(
            "JR",
            2,
            vec![operand("NZ", true, None, None), operand("r8", true, None, None)],
            vec![12, 8],
            ["-", "-", "-", "-"],
        ),
    );
    table.insert(
        0x2A,
        false,
        described(
            "LD",
            1,
            vec![operand("A", true, None, None), operand("HL", false, None, Some(true))],
            vec![8],
            ["-", "-", "-", "-"],
        ),
    );
    table.insert(0x0A, true, described("PREFIXED", 200, vec![], vec![100, 20, 3], ["Z", "N", "H", "C"]));
    assert_eq!(
        table.get_opcode_repr(0x20, false).unwrap(),
        "0x20 JR   NZ    r8     2 12/8  [- - - -]"
    );
    assert_eq!(
        table.get_opcode_repr(0x2A, false).unwrap(),
        "0x2A LD   A     (HL+)  1 8     [- - - -]"
    );
    assert_eq!(
        table.get_opcode_repr(0x0A, true).unwrap(),
        "0x0A PREFIXED              200 100/20/3 [Z N H C]"
    );
}

#[test]
fn test_get_opcode() {
    let mut opcodes = OpCodes::new();
    opcodes.insert(0x00, false, described("NOP", 1, vec![], vec![4], ["-", "-", "-", "-"]));

    let cycles = opcodes.get_cycles(0x00, false, false);
    assert_eq!(cycles, Some(1));
}
