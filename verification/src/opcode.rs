//! The opcode table: the cost of each instruction, and its description.

use vstd::prelude::*;
use std::collections::HashMap;
use crate::text::{
    decimal, padded, push_decimal, push_padded, push_upper_hex_byte, upper_hex_byte,
};

verus! {

broadcast use vstd::std_specs::hash::group_hash_axioms;

/// What an instruction does to each of the four flags, as the opcode table
/// words it: "Z", "0", "1", "-" and the like.
#[allow(non_snake_case)]
#[derive(Debug)]
pub struct Flags {
    pub Z: String,
    pub N: String,
    pub H: String,
    pub C: String,
}

/// One operand of an instruction, as the opcode table describes it.
#[derive(Debug)]
pub struct Operand {
    pub name: String,
    pub decrement: Option<bool>,
    pub increment: Option<bool>,
    pub immediate: bool,
}

/// One entry of the opcode table.
#[derive(Debug)]
pub struct OpCode {
    pub mnemonic: String,
    pub bytes: u8,
    pub operands: Vec<Operand>,
    pub flags: Flags,
    /// One or two costs in clock ticks, four to a machine cycle. Where there
    /// are two, they are those of a conditional instruction, taken and not.
    pub cycles: Vec<u8>,
}

/// The opcode table: what is known of each opcode, with and without the
/// prefix byte.
#[derive(Debug)]
pub struct OpCodes {
    pub unprefixed: HashMap<u8, OpCode>,
    pub cbprefixed: HashMap<u8, OpCode>,
}

/// The first cost of a list of costs, in machine cycles.
pub open spec fn first_cost(cycles: Seq<u8>) -> u8 {
    cycles[0] / 4
}

/// The second cost of a list of costs, in machine cycles; the first where the
/// list holds one only.
pub open spec fn second_cost(cycles: Seq<u8>) -> u8 {
    if cycles.len() >= 2 {
        cycles[1] / 4
    } else {
        cycles[0] / 4
    }
}

/// The cost in machine cycles that a list of costs gives an instruction: the
/// lower of its costs where a conditional instruction does not act, the
/// higher where it does. None for a list without costs.
pub open spec fn cost(cycles: Seq<u8>, action_taken: bool) -> Option<u8> {
    if cycles.len() == 0 {
        None
    } else if action_taken == (first_cost(cycles) >= second_cost(cycles)) {
        Some(first_cost(cycles))
    } else {
        Some(second_cost(cycles))
    }
}

/// An operand as text: its name, a minus or a plus where the instruction
/// decrements or increments it, in brackets where it is an address, padded
/// to six characters.
pub open spec fn operand_text(operand: Operand) -> Seq<char> {
    let moved = operand.name@ + (if operand.decrement == Some(true) {
        seq!['-']
    } else {
        Seq::empty()
    }) + (if operand.increment == Some(true) {
        seq!['+']
    } else {
        Seq::empty()
    });
    padded(
        if operand.immediate {
            moved
        } else {
            seq!['('] + moved + seq![')']
        },
        6,
    )
}

/// The first `upto` operands as text, one after the other.
pub open spec fn operands_text(operands: Seq<Operand>, upto: int) -> Seq<char>
    decreases upto,
{
    if upto <= 0 {
        Seq::empty()
    } else {
        operands_text(operands, upto - 1) + operand_text(operands[upto - 1])
    }
}

/// The first `upto` costs as text, in decimal digits with a slash between
/// two of them.
pub open spec fn costs_text(cycles: Seq<u8>, upto: int) -> Seq<char>
    decreases upto,
{
    if upto <= 0 {
        Seq::empty()
    } else if upto == 1 {
        decimal(cycles[0] as nat)
    } else {
        costs_text(cycles, upto - 1) + seq!['/'] + decimal(cycles[upto - 1] as nat)
    }
}

/// An entry of the table as a line of text: the opcode in hexadecimal
/// digits, the mnemonic, the operands, the length in bytes, the costs, and
/// the flags in square brackets, as in
/// `0x32 LD   (HL-) A      1 8     [- - - -]`.
pub open spec fn repr(opcode_number: u8, opcode: OpCode) -> Seq<char> {
    seq!['0', 'x'] + upper_hex_byte(opcode_number) + seq![' '] + padded(opcode.mnemonic@, 4)
        + seq![' '] + padded(operands_text(opcode.operands@, opcode.operands@.len() as int), 12)
        + seq![' '] + decimal(opcode.bytes as nat) + seq![' '] + padded(
        costs_text(opcode.cycles@, opcode.cycles@.len() as int),
        5,
    ) + seq![' ', '['] + opcode.flags.Z@ + seq![' '] + opcode.flags.N@ + seq![' ']
        + opcode.flags.H@ + seq![' '] + opcode.flags.C@ + seq![']']
}

/// An operand as text.
fn format_operand(operand: &Operand) -> (text: String)
    ensures
        text@ == operand_text(*operand),
{
    let mut inner = String::new();
    if !operand.immediate {
        inner.push('(');
    }
    inner.push_str(operand.name.as_str());
    if let Some(true) = operand.decrement {
        inner.push('-');
    }
    if let Some(true) = operand.increment {
        inner.push('+');
    }
    if !operand.immediate {
        inner.push(')');
    }
    let mut text = String::new();
    push_padded(&mut text, inner.as_str(), 6);
    assert(text@ =~= operand_text(*operand));
    text
}

/// The operands as text, one after the other.
fn format_operands(operands: &Vec<Operand>) -> (text: String)
    ensures
        text@ == operands_text(operands@, operands@.len() as int),
{
    let mut text = String::new();
    let mut index: usize = 0;
    while index < operands.len()
        invariant
            index <= operands@.len(),
            text@ == operands_text(operands@, index as int),
        decreases operands@.len() - index,
    {
        let piece = format_operand(&operands[index]);
        text.push_str(piece.as_str());
        index = index + 1;
    }
    text
}

/// The costs as text, with a slash between two of them.
fn format_costs(cycles: &Vec<u8>) -> (text: String)
    ensures
        text@ == costs_text(cycles@, cycles@.len() as int),
{
    let mut text = String::new();
    let mut index: usize = 0;
    while index < cycles.len()
        invariant
            index <= cycles@.len(),
            text@ == costs_text(cycles@, index as int),
        decreases cycles@.len() - index,
    {
        if index > 0 {
            text.push('/');
        }
        push_decimal(&mut text, cycles[index]);
        index = index + 1;
        assert(text@ =~= costs_text(cycles@, index as int));
    }
    text
}

/// An entry of the table as a line of text.
fn format_opcode(opcode_number: u8, opcode: &OpCode) -> (text: String)
    ensures
        text@ == repr(opcode_number, *opcode),
{
    let operands = format_operands(&opcode.operands);
    let costs = format_costs(&opcode.cycles);
    let mut text = String::new();
    text.push('0');
    text.push('x');
    push_upper_hex_byte(&mut text, opcode_number);
    text.push(' ');
    push_padded(&mut text, opcode.mnemonic.as_str(), 4);
    text.push(' ');
    push_padded(&mut text, operands.as_str(), 12);
    text.push(' ');
    push_decimal(&mut text, opcode.bytes);
    text.push(' ');
    push_padded(&mut text, costs.as_str(), 5);
    text.push(' ');
    text.push('[');
    text.push_str(opcode.flags.Z.as_str());
    text.push(' ');
    text.push_str(opcode.flags.N.as_str());
    text.push(' ');
    text.push_str(opcode.flags.H.as_str());
    text.push(' ');
    text.push_str(opcode.flags.C.as_str());
    text.push(']');
    assert(text@ =~= repr(opcode_number, *opcode));
    text
}

impl OpCodes {
    /// The entry of an opcode, if the table has one.
    pub open spec fn entry(self, opcode_number: u8, is_cbprefix: bool) -> Option<OpCode> {
        let table = if is_cbprefix { self.cbprefixed@ } else { self.unprefixed@ };
        if table.contains_key(opcode_number) {
            Some(table[opcode_number])
        } else {
            None
        }
    }

    /// The cost of an opcode in machine cycles, if the table has an entry for
    /// it that names a cost.
    pub open spec fn cycles(self, opcode_number: u8, is_cbprefix: bool, action_taken: bool) -> Option<u8> {
        match self.entry(opcode_number, is_cbprefix) {
            None => None,
            Some(opcode) => cost(opcode.cycles@, action_taken),
        }
    }

    /// A table without entries.
    pub fn new() -> (table: Self)
        ensures
            forall|opcode_number: u8, is_cbprefix: bool|
                table.entry(opcode_number, is_cbprefix).is_none(),
    {
        Self { unprefixed: HashMap::new(), cbprefixed: HashMap::new() }
    }

    /// Put an entry into the table, in place of the one that the opcode had.
    pub fn insert(&mut self, opcode_number: u8, is_cbprefix: bool, opcode: OpCode)
        ensures
            final(self).entry(opcode_number, is_cbprefix) == Some(opcode),
            forall|other: u8, prefix: bool|
                other != opcode_number || prefix != is_cbprefix ==> final(self).entry(other, prefix)
                    == old(self).entry(other, prefix),
    {
        if is_cbprefix {
            self.cbprefixed.insert(opcode_number, opcode);
        } else {
            self.unprefixed.insert(opcode_number, opcode);
        }
    }

    /// Look up an opcode.
    pub fn get_opcode(&self, opcode_number: u8, is_cbprefix: bool) -> (found: Option<&OpCode>)
        ensures
            match found {
                Some(opcode) => self.entry(opcode_number, is_cbprefix) == Some(*opcode),
                None => self.entry(opcode_number, is_cbprefix).is_none(),
            },
    {
        if is_cbprefix {
            self.cbprefixed.get(&opcode_number)
        } else {
            self.unprefixed.get(&opcode_number)
        }
    }

    /// Get an opcode as a line of text, for a programmer to read. None for
    /// an opcode that the table does not have.
    pub fn get_opcode_repr(&self, opcode_number: u8, is_cbprefix: bool) -> (text: Option<String>)
        ensures
            match self.entry(opcode_number, is_cbprefix) {
                Some(opcode) => text.is_some() && text.unwrap()@ == repr(opcode_number, opcode),
                None => text.is_none(),
            },
    {
        match self.get_opcode(opcode_number, is_cbprefix) {
            None => None,
            Some(opcode) => Some(format_opcode(opcode_number, opcode)),
        }
    }

    /// The number of machine cycles that an instruction takes. The table
    /// holds clock ticks, four to a machine cycle. `action_taken` says
    /// whether a conditional instruction acted, which costs more.
    pub fn get_cycles(&self, opcode_number: u8, is_cbprefix: bool, action_taken: bool) -> (cycles:
        Option<u8>)
        ensures
            cycles == self.cycles(opcode_number, is_cbprefix, action_taken),
    {
        match self.get_opcode(opcode_number, is_cbprefix) {
            None => None,
            Some(opcode) => {
                if opcode.cycles.len() == 0 {
                    return None;
                }
                let first: u8 = opcode.cycles[0] / 4;
                let second: u8 = if opcode.cycles.len() >= 2 {
                    opcode.cycles[1] / 4
                } else {
                    first
                };
                if action_taken == (first >= second) {
                    Some(first)
                } else {
                    Some(second)
                }
            },
        }
    }
}

/// An instruction that acts never costs less than one that does not: the
/// table has a cost for both or for neither, and the cost of acting is the
/// higher.
pub proof fn law_taken_costs_no_less(table: OpCodes, opcode_number: u8, is_cbprefix: bool)
    ensures
        table.cycles(opcode_number, is_cbprefix, true).is_some() == table.cycles(
            opcode_number,
            is_cbprefix,
            false,
        ).is_some(),
        table.cycles(opcode_number, is_cbprefix, true).is_some() ==> table.cycles(
            opcode_number,
            is_cbprefix,
            true,
        ).unwrap() >= table.cycles(opcode_number, is_cbprefix, false).unwrap(),
{
}

} // verus!
