//! The CPU registers: the flags, and the pairs of 8-bit registers.

use vstd::prelude::*;
use crate::bits::{lemma_join_arith, lemma_word_arith};
use crate::mmu::MMU;

verus! {

/// The word that two bytes make, the first one being the high byte.
pub open spec fn pair(high: u8, low: u8) -> u16 {
    (high * 256 + low) as u16
}

/// The high byte of a word.
pub open spec fn high_byte(word: u16) -> u8 {
    (word / 256) as u8
}

/// The low byte of a word.
pub open spec fn low_byte(word: u16) -> u8 {
    (word % 256) as u8
}

/// The flag register as a byte: zero, subtract, half-carry and carry in bits
/// 7 to 4, and zeros in bits 3 to 0.
pub open spec fn flags_byte(zero: bool, subtract: bool, half_carry: bool, carry: bool) -> u8 {
    ((if zero { 0x80int } else { 0 }) + (if subtract { 0x40int } else { 0 }) + (if half_carry {
        0x20int
    } else {
        0
    }) + (if carry { 0x10int } else { 0 })) as u8
}

/// The byte as a number in two's complement.
pub open spec fn signed(byte: u8) -> i8 {
    if byte < 128 {
        byte as i8
    } else {
        (byte - 256) as i8
    }
}

/// The byte as a number in two's complement.
pub fn to_signed(byte: u8) -> (number: i8)
    ensures
        number == signed(byte),
{
    if byte < 128 {
        byte as i8
    } else {
        (byte as i16 - 256) as i8
    }
}

/// Join two bytes to a word.
pub fn join(high: u8, low: u8) -> (word: u16)
    ensures
        word == pair(high, low),
{
    proof {
        lemma_join_arith(high, low);
    }
    ((high as u16) << 8) | (low as u16)
}

/// The high byte of a word.
pub fn upper(word: u16) -> (byte: u8)
    ensures
        byte == high_byte(word),
{
    proof {
        lemma_word_arith(word);
    }
    (word >> 8) as u8
}

/// The low byte of a word.
pub fn lower(word: u16) -> (byte: u8)
    ensures
        byte == low_byte(word),
{
    proof {
        lemma_word_arith(word);
    }
    (word & 0xFF) as u8
}

impl MMU {
    /// The flag register as a byte.
    pub open spec fn spec_f(self) -> u8 {
        flags_byte(self.zero, self.subtract, self.half_carry, self.carry)
    }

    /// The machine with the four flags that `value` holds in its bits 7 to 4.
    /// Its bits 3 to 0 are dropped: the flag register has no such bits.
    pub open spec fn with_f(self, value: u8) -> MMU {
        MMU {
            zero: value >= 0x80,
            subtract: (value / 0x40) % 2 == 1,
            half_carry: (value / 0x20) % 2 == 1,
            carry: (value / 0x10) % 2 == 1,
            ..self
        }
    }

    /// The machine with the four flags given.
    pub open spec fn with_flags(self, zero: bool, subtract: bool, half_carry: bool, carry: bool) -> MMU {
        MMU { zero, subtract, half_carry, carry, ..self }
    }

    pub open spec fn spec_af(self) -> u16 {
        pair(self.a, self.spec_f())
    }

    pub open spec fn spec_bc(self) -> u16 {
        pair(self.b, self.c)
    }

    pub open spec fn spec_de(self) -> u16 {
        pair(self.d, self.e)
    }

    pub open spec fn spec_hl(self) -> u16 {
        pair(self.h, self.l)
    }

    pub open spec fn with_af(self, value: u16) -> MMU {
        MMU { a: high_byte(value), ..self }.with_f(low_byte(value))
    }

    pub open spec fn with_bc(self, value: u16) -> MMU {
        MMU { b: high_byte(value), c: low_byte(value), ..self }
    }

    pub open spec fn with_de(self, value: u16) -> MMU {
        MMU { d: high_byte(value), e: low_byte(value), ..self }
    }

    pub open spec fn with_hl(self, value: u16) -> MMU {
        MMU { h: high_byte(value), l: low_byte(value), ..self }
    }

    /// Set register A.
    pub fn set_a(&mut self, value: u8)
        ensures
            *final(self) == (MMU { a: value, ..*old(self) }),
    {
        self.a = value;
    }

    /// Set register B.
    pub fn set_b(&mut self, value: u8)
        ensures
            *final(self) == (MMU { b: value, ..*old(self) }),
    {
        self.b = value;
    }

    /// Set register C.
    pub fn set_c(&mut self, value: u8)
        ensures
            *final(self) == (MMU { c: value, ..*old(self) }),
    {
        self.c = value;
    }

    /// Set register D.
    pub fn set_d(&mut self, value: u8)
        ensures
            *final(self) == (MMU { d: value, ..*old(self) }),
    {
        self.d = value;
    }

    /// Set register E.
    pub fn set_e(&mut self, value: u8)
        ensures
            *final(self) == (MMU { e: value, ..*old(self) }),
    {
        self.e = value;
    }

    /// Set register H.
    pub fn set_h(&mut self, value: u8)
        ensures
            *final(self) == (MMU { h: value, ..*old(self) }),
    {
        self.h = value;
    }

    /// Set register L.
    pub fn set_l(&mut self, value: u8)
        ensures
            *final(self) == (MMU { l: value, ..*old(self) }),
    {
        self.l = value;
    }

    /// The zero flag.
    pub fn flag_z(&self) -> (flag: bool)
        ensures
            flag == self.zero,
    {
        self.zero
    }

    /// The subtract flag.
    pub fn flag_n(&self) -> (flag: bool)
        ensures
            flag == self.subtract,
    {
        self.subtract
    }

    /// The half-carry flag.
    pub fn flag_h(&self) -> (flag: bool)
        ensures
            flag == self.half_carry,
    {
        self.half_carry
    }

    /// The carry flag.
    pub fn flag_c(&self) -> (flag: bool)
        ensures
            flag == self.carry,
    {
        self.carry
    }

    pub fn set_flag_z(&mut self, value: bool)
        ensures
            *final(self) == (MMU { zero: value, ..*old(self) }),
    {
        self.zero = value;
    }

    pub fn set_flag_n(&mut self, value: bool)
        ensures
            *final(self) == (MMU { subtract: value, ..*old(self) }),
    {
        self.subtract = value;
    }

    pub fn set_flag_h(&mut self, value: bool)
        ensures
            *final(self) == (MMU { half_carry: value, ..*old(self) }),
    {
        self.half_carry = value;
    }

    pub fn set_flag_c(&mut self, value: bool)
        ensures
            *final(self) == (MMU { carry: value, ..*old(self) }),
    {
        self.carry = value;
    }

    /// Set the four flags at once.
    pub fn set_flags(&mut self, zero: bool, subtract: bool, half_carry: bool, carry: bool)
        ensures
            *final(self) == old(self).with_flags(zero, subtract, half_carry, carry),
    {
        self.zero = zero;
        self.subtract = subtract;
        self.half_carry = half_carry;
        self.carry = carry;
    }

    /// The flag register as a byte. Its low four bits are always zero.
    pub fn f(&self) -> (value: u8)
        ensures
            value == self.spec_f(),
            value % 16 == 0,
    {
        let z: u8 = if self.zero { 0x80 } else { 0 };
        let n: u8 = if self.subtract { 0x40 } else { 0 };
        let h: u8 = if self.half_carry { 0x20 } else { 0 };
        let c: u8 = if self.carry { 0x10 } else { 0 };
        z + n + h + c
    }

    /// Set the flag register from a byte. Its low four bits are dropped.
    pub fn set_f(&mut self, value: u8)
        ensures
            *final(self) == old(self).with_f(value),
    {
        self.zero = value >= 0x80;
        self.subtract = (value / 0x40) % 2 == 1;
        self.half_carry = (value / 0x20) % 2 == 1;
        self.carry = (value / 0x10) % 2 == 1;
    }

    pub fn af(&self) -> (value: u16)
        ensures
            value == self.spec_af(),
    {
        join(self.a, self.f())
    }

    pub fn bc(&self) -> (value: u16)
        ensures
            value == self.spec_bc(),
    {
        join(self.b, self.c)
    }

    pub fn de(&self) -> (value: u16)
        ensures
            value == self.spec_de(),
    {
        join(self.d, self.e)
    }

    pub fn hl(&self) -> (value: u16)
        ensures
            value == self.spec_hl(),
    {
        join(self.h, self.l)
    }

    pub fn set_af(&mut self, value: u16)
        ensures
            *final(self) == old(self).with_af(value),
    {
        self.a = upper(value);
        self.set_f(lower(value));
    }

    pub fn set_bc(&mut self, value: u16)
        ensures
            *final(self) == old(self).with_bc(value),
    {
        self.b = upper(value);
        self.c = lower(value);
    }

    pub fn set_de(&mut self, value: u16)
        ensures
            *final(self) == old(self).with_de(value),
    {
        self.d = upper(value);
        self.e = lower(value);
    }

    pub fn set_hl(&mut self, value: u16)
        ensures
            *final(self) == old(self).with_hl(value),
    {
        self.h = upper(value);
        self.l = lower(value);
    }
}

/// Setting BC, DE or HL to the word of two bytes and reading the halves gives
/// exactly the two bytes; setting the halves and reading the pair gives
/// exactly the word.
pub proof fn law_register_pair_round_trip(machine: MMU, high: u8, low: u8)
    ensures
        machine.with_bc(pair(high, low)).b == high,
        machine.with_bc(pair(high, low)).c == low,
        machine.with_de(pair(high, low)).d == high,
        machine.with_de(pair(high, low)).e == low,
        machine.with_hl(pair(high, low)).h == high,
        machine.with_hl(pair(high, low)).l == low,
        (MMU { b: high, c: low, ..machine }).spec_bc() == pair(high, low),
        (MMU { d: high, e: low, ..machine }).spec_de() == pair(high, low),
        (MMU { h: high, l: low, ..machine }).spec_hl() == pair(high, low),
        machine.with_bc(pair(high, low)).spec_bc() == pair(high, low),
        machine.with_de(pair(high, low)).spec_de() == pair(high, low),
        machine.with_hl(pair(high, low)).spec_hl() == pair(high, low),
{
}

/// Setting AF to the word of two bytes and reading the halves gives the high
/// byte and the low byte without its low four bits, which the flag register
/// does not have: exactly the two bytes where those four bits are zero.
pub proof fn law_af_round_trip(machine: MMU, high: u8, low: u8)
    ensures
        machine.with_af(pair(high, low)).a == high,
        machine.with_af(pair(high, low)).spec_f() == low - low % 16,
        low % 16 == 0 ==> machine.with_af(pair(high, low)).spec_f() == low,
        low % 16 == 0 ==> machine.with_af(pair(high, low)).spec_af() == pair(high, low),
        machine.with_af(pair(high, low)).spec_f() % 16 == 0,
{
}

} // verus!
