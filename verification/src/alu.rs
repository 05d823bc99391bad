//! The arithmetic and logic unit: what each operation makes of A and the
//! flags.

use vstd::prelude::*;
use crate::bits::{
    bit_is_set, is_bit_set, lemma_low_twelve_arith, lemma_mask_arith, lemma_rotate_left_arith,
    lemma_rotate_right_arith, lemma_shift_left_arith, lemma_shift_right_arith,
    lemma_shift_right_signed_arith, lemma_swap_arith,
};
use crate::mmu::MMU;

verus! {

/// 1 for a flag that is set, 0 for one that is not.
pub open spec fn as_bit(flag: bool) -> int {
    if flag {
        1
    } else {
        0
    }
}

/// The machine after XOR of `n` into A. Flags: zero, and the others clear.
pub open spec fn after_xor(m: MMU, n: u8) -> MMU {
    MMU { a: m.a ^ n, ..m }.with_flags(m.a ^ n == 0, false, false, false)
}

/// The machine after OR of `n` into A. Flags: zero, and the others clear.
pub open spec fn after_or(m: MMU, n: u8) -> MMU {
    MMU { a: m.a | n, ..m }.with_flags(m.a | n == 0, false, false, false)
}

/// The machine after AND of `n` into A. Flags: zero, half-carry set, the
/// others clear.
pub open spec fn after_and(m: MMU, n: u8) -> MMU {
    MMU { a: m.a & n, ..m }.with_flags(m.a & n == 0, false, true, false)
}

/// A byte plus one, 0xFF giving 0.
pub open spec fn incremented(value: u8) -> u8 {
    value.wrapping_add(1)
}

/// A byte minus one, 0 giving 0xFF.
pub open spec fn decremented(value: u8) -> u8 {
    value.wrapping_sub(1)
}

/// The flags after the increment of `value`: zero, subtract clear, half-carry
/// where the low nibble overflowed; carry is kept.
pub open spec fn after_inc(m: MMU, value: u8) -> MMU {
    m.with_flags(incremented(value) == 0, false, value % 16 == 15, m.carry)
}

/// The flags after the decrement of `value`: zero, subtract set, half-carry
/// where the low nibble had nothing to lend; carry is kept.
pub open spec fn after_dec(m: MMU, value: u8) -> MMU {
    m.with_flags(decremented(value) == 0, true, value % 16 == 0, m.carry)
}

/// The flags after the test of bit `bit_index` of `value`: zero where the bit
/// is 0, subtract clear, half-carry set; carry is kept.
pub open spec fn after_bit(m: MMU, bit_index: u8, value: u8) -> MMU {
    m.with_flags(!bit_is_set(value, bit_index), false, true, m.carry)
}

/// The machine after the addition of `value` to A: half-carry is the carry
/// out of bit 3, carry the carry out of bit 7.
pub open spec fn after_add(m: MMU, value: u8) -> MMU {
    let sum = m.a.wrapping_add(value);
    MMU { a: sum, ..m }.with_flags(
        sum == 0,
        false,
        m.a % 16 + value % 16 > 15,
        m.a + value > 255,
    )
}

/// The machine after the addition of `value` to HL: half-carry is the carry
/// out of bit 11, carry the carry out of bit 15; zero is kept.
pub open spec fn after_add_hl_16(m: MMU, value: u16) -> MMU {
    let hl = m.spec_hl();
    m.with_hl(hl.wrapping_add(value)).with_flags(
        m.zero,
        false,
        hl % 4096 + value % 4096 > 4095,
        hl + value > 0xFFFF,
    )
}

/// The flags of the subtraction of `value` from A: half-carry is the borrow
/// into bit 4, carry the borrow into bit 8.
pub open spec fn after_cp(m: MMU, value: u8) -> MMU {
    m.with_flags(m.a == value, true, m.a % 16 < value % 16, m.a < value)
}

/// The machine after the subtraction of `value` from A.
pub open spec fn after_sub(m: MMU, value: u8) -> MMU {
    MMU { a: m.a.wrapping_sub(value), ..after_cp(m, value) }
}

/// The sum of a byte, a value and a carry, cut to a byte: what the addition
/// with carry leaves in A.
pub open spec fn sum_with_carry(a: u8, value: u8, carry: bool) -> u8 {
    ((a + value + as_bit(carry)) % 256) as u8
}

/// A byte less a value and a borrow, cut to a byte: what the subtraction
/// with carry leaves in A.
pub open spec fn difference_with_carry(a: u8, value: u8, carry: bool) -> u8 {
    ((a - value - as_bit(carry)) % 256) as u8
}

/// The machine after the subtraction of `value` and the carry flag from A:
/// half-carry is the borrow into bit 4 and carry the borrow into bit 8 of
/// the whole subtraction, the carry flag counted in.
pub open spec fn after_sbc(m: MMU, value: u8) -> MMU {
    let difference = difference_with_carry(m.a, value, m.carry);
    MMU { a: difference, ..m }.with_flags(
        difference == 0,
        true,
        m.a % 16 < value % 16 + as_bit(m.carry),
        m.a < value + as_bit(m.carry),
    )
}

/// The machine after the addition of `value` and the carry flag to A:
/// half-carry is the carry out of bit 3 and carry the carry out of bit 7 of
/// the whole addition, the carry flag counted in.
pub open spec fn after_adc(m: MMU, value: u8) -> MMU {
    let sum = sum_with_carry(m.a, value, m.carry);
    MMU { a: sum, ..m }.with_flags(
        sum == 0,
        false,
        m.a % 16 + value % 16 + as_bit(m.carry) > 15,
        m.a + value + as_bit(m.carry) > 255,
    )
}

/// The machine with the flags of a rotate or shift that gave `result` and
/// pushed `carry` out: zero, carry, and the others clear.
pub open spec fn after_shift(m: MMU, result: u8, carry: bool) -> MMU {
    m.with_flags(result == 0, false, false, carry)
}

/// `value` rotated left through the carry flag: bit 7 goes out, the carry
/// flag comes in as bit 0.
pub open spec fn rotated_left_through(value: u8, carry: bool) -> u8 {
    ((value * 2) % 256 + as_bit(carry)) as u8
}

/// `value` rotated left: bit 7 comes back in as bit 0.
pub open spec fn rotated_left(value: u8) -> u8 {
    ((value * 2) % 256 + value / 128) as u8
}

/// `value` rotated right through the carry flag: bit 0 goes out, the carry
/// flag comes in as bit 7.
pub open spec fn rotated_right_through(value: u8, carry: bool) -> u8 {
    (value / 2 + 128 * as_bit(carry)) as u8
}

/// `value` rotated right: bit 0 comes back in as bit 7.
pub open spec fn rotated_right(value: u8) -> u8 {
    (value / 2 + 128 * (value % 2)) as u8
}

/// `value` shifted left: bit 0 becomes 0.
pub open spec fn shifted_left(value: u8) -> u8 {
    ((value * 2) % 256) as u8
}

/// `value` shifted right with its sign: bit 7 stays what it was.
pub open spec fn shifted_right_signed(value: u8) -> u8 {
    (value / 2 + 128 * (value / 128)) as u8
}

/// `value` shifted right: bit 7 becomes 0.
pub open spec fn shifted_right(value: u8) -> u8 {
    value / 2
}

/// `value` with its two nibbles swapped.
pub open spec fn swapped(value: u8) -> u8 {
    ((value % 16) * 16 + value / 16) as u8
}

/// The machine after the complement of A: subtract and half-carry set.
pub open spec fn after_cpl(m: MMU) -> MMU {
    MMU { a: !m.a, ..m }.with_flags(m.zero, true, true, m.carry)
}

/// `value` with bit `bit` cleared.
pub open spec fn spec_res(bit: u8, value: u8) -> u8 {
    value & !(1u8 << bit)
}

/// `value` with bit `bit` set.
pub open spec fn spec_set(bit: u8, value: u8) -> u8 {
    value | (1u8 << bit)
}

/// Whether the decimal adjustment after an addition corrects the high
/// nibble: there was a carry, or A is above 0x99.
pub open spec fn daa_corrects_high(m: MMU) -> bool {
    m.carry || m.a > 0x99
}

/// Whether the decimal adjustment after an addition corrects the low nibble:
/// there was a half-carry, or the low nibble is above 9.
pub open spec fn daa_corrects_low(m: MMU) -> bool {
    m.half_carry || m.a % 16 > 9
}

/// A after its decimal adjustment. After an addition, 6 is added to a nibble
/// that carried or is above 9; after a subtraction, 6 is taken from a nibble
/// that borrowed.
pub open spec fn decimal_adjusted(m: MMU) -> u8 {
    if m.subtract {
        let high = if m.carry { m.a.wrapping_sub(0x60) } else { m.a };
        if m.half_carry {
            high.wrapping_sub(0x06)
        } else {
            high
        }
    } else {
        let high = if daa_corrects_high(m) { m.a.wrapping_add(0x60) } else { m.a };
        if daa_corrects_low(m) {
            high.wrapping_add(0x06)
        } else {
            high
        }
    }
}

/// The machine after the decimal adjustment of A: zero, half-carry clear,
/// carry set where the high nibble was corrected after an addition and kept
/// otherwise; subtract is kept.
pub open spec fn after_daa(m: MMU) -> MMU {
    MMU { a: decimal_adjusted(m), ..m }.with_flags(
        decimal_adjusted(m) == 0,
        m.subtract,
        false,
        m.carry || (!m.subtract && m.a > 0x99),
    )
}

fn set_a(mmu: &mut MMU, value: u8)
    ensures
        *final(mmu) == (MMU { a: value, ..*old(mmu) }),
{
    mmu.a = value;
}

/// Logical exclusive OR n with register A, result stored in A.
/// Flags: [Z 0 0 0]
pub fn xor(mmu: &mut MMU, n: u8)
    ensures
        *final(mmu) == after_xor(*old(mmu), n),
{
    let result: u8 = mmu.a ^ n;
    set_a(mmu, result);
    mmu.set_flags(result == 0, false, false, false);
}

/// Logical OR n with register A, result stored in A.
/// Flags: [Z 0 0 0]
pub fn or(mmu: &mut MMU, n: u8)
    ensures
        *final(mmu) == after_or(*old(mmu), n),
{
    let result: u8 = mmu.a | n;
    set_a(mmu, result);
    mmu.set_flags(result == 0, false, false, false);
}

/// Logical AND n with register A, result stored in A.
/// Flags: [Z 0 1 0]
pub fn and(mmu: &mut MMU, n: u8)
    ensures
        *final(mmu) == after_and(*old(mmu), n),
{
    let result: u8 = mmu.a & n;
    set_a(mmu, result);
    mmu.set_flags(result == 0, false, true, false);
}

/// Increment a value. Not for the 16-bit increments, which touch no flag.
/// Flags: [Z 0 H -]
pub fn inc(mmu: &mut MMU, value: u8) -> (new_value: u8)
    ensures
        new_value == incremented(value),
        *final(mmu) == after_inc(*old(mmu), value),
{
    proof {
        lemma_mask_arith(value);
    }
    let new_value = value.wrapping_add(1);
    mmu.set_flags(new_value == 0, false, ((value & 0x0F) + 1) > 0xF, mmu.carry);
    new_value
}

/// Decrement a value.
/// Flags: [Z 1 H -]
pub fn dec(mmu: &mut MMU, value: u8) -> (new_value: u8)
    ensures
        new_value == decremented(value),
        *final(mmu) == after_dec(*old(mmu), value),
{
    proof {
        lemma_mask_arith(value);
    }
    let new_value = value.wrapping_sub(1);
    mmu.set_flags(new_value == 0, true, (value & 0x0F) == 0, mmu.carry);
    new_value
}

/// Test a bit of a byte: the zero flag is set where the bit is 0.
/// Flags: [Z 0 1 -]
pub fn bit(mmu: &mut MMU, bit_index: u8, value: u8)
    requires
        bit_index < 8,
    ensures
        *final(mmu) == after_bit(*old(mmu), bit_index, value),
{
    let is_unset = !is_bit_set(value, bit_index);
    mmu.set_flags(is_unset, false, true, mmu.carry);
}

/// Add value to A.
/// Flags: [Z 0 H C]
pub fn add(mmu: &mut MMU, value: u8)
    ensures
        *final(mmu) == after_add(*old(mmu), value),
{
    proof {
        lemma_mask_arith(value);
        lemma_mask_arith(mmu.a);
    }
    let a = mmu.a;
    let new_a = a.wrapping_add(value);
    let overflow = (a as u16) + (value as u16) > 0xFF;
    set_a(mmu, new_a);
    mmu.set_flags(new_a == 0, false, (a & 0xF) + (value & 0xF) > 0xF, overflow);
}

/// Add a 16-bit value to HL.
/// Flags: [- 0 H C]
pub fn add_hl_16(mmu: &mut MMU, value: u16)
    ensures
        *final(mmu) == after_add_hl_16(*old(mmu), value),
{
    let hl = mmu.hl();
    proof {
        lemma_low_twelve_arith(hl);
        lemma_low_twelve_arith(value);
    }
    let new_hl = hl.wrapping_add(value);
    let overflow = (hl as u32) + (value as u32) > 0xFFFF;
    let half = (hl & 0x0FFF) + (value & 0x0FFF) > 0x0FFF;
    mmu.set_hl(new_hl);
    mmu.set_flags(mmu.zero, false, half, overflow);
}

/// Subtract value from A.
/// Flags: [Z 1 H C]
pub fn sub(mmu: &mut MMU, value: u8)
    ensures
        *final(mmu) == after_sub(*old(mmu), value),
{
    proof {
        lemma_mask_arith(value);
        lemma_mask_arith(mmu.a);
    }
    let a = mmu.a;
    let new_a = a.wrapping_sub(value);
    mmu.set_flags(new_a == 0, true, (a & 0x0F) < (value & 0x0F), a < value);
    set_a(mmu, new_a);
}

/// A less a value and a borrow, with the half-borrow and the borrow of the
/// whole subtraction.
fn subtract_with_carry(a: u8, value: u8, carry: bool) -> (difference: (u8, bool, bool))
    ensures
        difference.0 == difference_with_carry(a, value, carry),
        difference.1 == (a % 16 < value % 16 + as_bit(carry)),
        difference.2 == (a < value + as_bit(carry)),
{
    proof {
        lemma_mask_arith(value);
        lemma_mask_arith(a);
    }
    let borrow_in: u8 = if carry { 1 } else { 0 };
    let new_a = a.wrapping_sub(value).wrapping_sub(borrow_in);
    let half = (a & 0x0F) < (value & 0x0F) + borrow_in;
    let borrow = (a as u16) < (value as u16) + (borrow_in as u16);
    (new_a, half, borrow)
}

/// Subtract value and the carry flag from A.
/// Flags: [Z 1 H C]
pub fn sbc(mmu: &mut MMU, value: u8)
    ensures
        *final(mmu) == after_sbc(*old(mmu), value),
{
    let (new_a, half, borrow) = subtract_with_carry(mmu.a, value, mmu.carry);
    set_a(mmu, new_a);
    mmu.set_flags(new_a == 0, true, half, borrow);
}

/// Rotate left through the carry flag: bit 7 becomes the carry flag, the old
/// carry flag becomes bit 0.
/// Flags: [Z 0 0 C]
pub fn rl(mmu: &mut MMU, value: u8) -> (new_value: u8)
    ensures
        new_value == rotated_left_through(value, old(mmu).carry),
        *final(mmu) == after_shift(*old(mmu), new_value, value >= 128),
{
    let carry: u8 = if mmu.carry { 1 } else { 0 };
    proof {
        lemma_rotate_left_arith(value, carry);
        lemma_mask_arith(value);
    }
    let new_value = value << 1 | carry;
    mmu.set_flags(new_value == 0, false, false, (value & 0x80) == 0x80);
    new_value
}

/// Rotate left: bit 7 becomes the carry flag and bit 0.
/// Flags: [Z 0 0 C]
pub fn rlc(mmu: &mut MMU, value: u8) -> (new_value: u8)
    ensures
        new_value == rotated_left(value),
        *final(mmu) == after_shift(*old(mmu), new_value, value >= 128),
{
    let has_carry = value & 0x80 == 0x80;
    let low: u8 = if has_carry { 1 } else { 0 };
    proof {
        lemma_rotate_left_arith(value, low);
        lemma_mask_arith(value);
    }
    let new_value = value << 1 | low;
    mmu.set_flags(new_value == 0, false, false, has_carry);
    new_value
}

/// Rotate right through the carry flag: bit 0 becomes the carry flag, the old
/// carry flag becomes bit 7.
/// Flags: [Z 0 0 C]
pub fn rr(mmu: &mut MMU, value: u8) -> (new_value: u8)
    ensures
        new_value == rotated_right_through(value, old(mmu).carry),
        *final(mmu) == after_shift(*old(mmu), new_value, value % 2 == 1),
{
    let has_carry = value & 0x01 == 0x01;
    let high: u8 = if mmu.carry { 0x80 } else { 0x00 };
    proof {
        lemma_rotate_right_arith(value, high);
        lemma_mask_arith(value);
    }
    let new_value = value >> 1 | high;
    mmu.set_flags(new_value == 0, false, false, has_carry);
    new_value
}

/// Rotate right: bit 0 becomes the carry flag and bit 7.
/// Flags: [Z 0 0 C]
pub fn rrc(mmu: &mut MMU, value: u8) -> (new_value: u8)
    ensures
        new_value == rotated_right(value),
        *final(mmu) == after_shift(*old(mmu), new_value, value % 2 == 1),
{
    let has_carry = value & 0x01 == 0x01;
    let high: u8 = if has_carry { 0x80 } else { 0x00 };
    proof {
        lemma_rotate_right_arith(value, high);
        lemma_mask_arith(value);
    }
    let new_value = value >> 1 | high;
    mmu.set_flags(new_value == 0, false, false, has_carry);
    new_value
}

/// Compare value with A: the flags of the subtraction, while A stays.
/// Flags: [Z 1 H C]
pub fn cp(mmu: &mut MMU, value: u8)
    ensures
        *final(mmu) == after_cp(*old(mmu), value),
{
    proof {
        lemma_mask_arith(value);
        lemma_mask_arith(mmu.a);
    }
    let a = mmu.a;
    mmu.set_flags(a.wrapping_sub(value) == 0, true, (a & 0x0F) < (value & 0x0F), a < value);
}

/// Complement A.
/// Flags: [- 1 1 -]
pub fn cpl(mmu: &mut MMU)
    ensures
        *final(mmu) == after_cpl(*old(mmu)),
{
    let result: u8 = !mmu.a;
    set_a(mmu, result);
    mmu.set_flags(mmu.zero, true, true, mmu.carry);
}

/// Swap the upper and the lower four bits.
/// Flags: [Z 0 0 0]
pub fn swap(mmu: &mut MMU, value: u8) -> (new_value: u8)
    ensures
        new_value == swapped(value),
        *final(mmu) == after_shift(*old(mmu), new_value, false),
{
    proof {
        lemma_swap_arith(value);
    }
    mmu.set_flags(value == 0, false, false, false);
    (value >> 4) | (value << 4)
}

/// Reset a bit of a value.
/// Flags: [- - - -]
pub fn res(bit: u8, value: u8) -> (new_value: u8)
    requires
        bit < 8,
    ensures
        new_value == spec_res(bit, value),
{
    value & !(1u8 << bit)
}

/// Set a bit of a value.
/// Flags: [- - - -]
pub fn set(bit: u8, value: u8) -> (new_value: u8)
    requires
        bit < 8,
    ensures
        new_value == spec_set(bit, value),
{
    value | (1u8 << bit)
}

/// Shift left: bit 7 becomes the carry flag, bit 0 becomes 0.
/// Flags: [Z 0 0 C]
pub fn sla(mmu: &mut MMU, value: u8) -> (new_value: u8)
    ensures
        new_value == shifted_left(value),
        *final(mmu) == after_shift(*old(mmu), new_value, value >= 128),
{
    proof {
        lemma_shift_left_arith(value);
        lemma_shift_right_arith(value);
    }
    let new_value = value << 1;
    mmu.set_flags(new_value == 0, false, false, value >> 7 == 1);
    new_value
}

/// Shift right with the sign: bit 0 becomes the carry flag, bit 7 stays.
/// Flags: [Z 0 0 C]
pub fn sra(mmu: &mut MMU, value: u8) -> (new_value: u8)
    ensures
        new_value == shifted_right_signed(value),
        *final(mmu) == after_shift(*old(mmu), new_value, value % 2 == 1),
{
    proof {
        lemma_shift_right_signed_arith(value);
        lemma_mask_arith(value);
    }
    let msb = value & 0x80;
    let new_value = (value >> 1) | msb;
    mmu.set_flags(new_value == 0, false, false, value & 0x01 == 0x01);
    new_value
}

/// Shift right: bit 0 becomes the carry flag, bit 7 becomes 0.
/// Flags: [Z 0 0 C]
pub fn srl(mmu: &mut MMU, value: u8) -> (new_value: u8)
    ensures
        new_value == shifted_right(value),
        *final(mmu) == after_shift(*old(mmu), new_value, value % 2 == 1),
{
    proof {
        lemma_shift_right_arith(value);
        lemma_mask_arith(value);
    }
    let new_value = value >> 1;
    mmu.set_flags(new_value == 0, false, false, value & 0x01 == 0x01);
    new_value
}

/// The sum of A, a value and a carry, with the half-carry and the carry of
/// the whole addition.
fn add_with_carry(a: u8, value: u8, carry: bool) -> (sum: (u8, bool, bool))
    ensures
        sum.0 == sum_with_carry(a, value, carry),
        sum.1 == (a % 16 + value % 16 + as_bit(carry) > 15),
        sum.2 == (a + value + as_bit(carry) > 255),
{
    proof {
        lemma_mask_arith(value);
        lemma_mask_arith(a);
    }
    let carry_in: u8 = if carry { 1 } else { 0 };
    let new_a = a.wrapping_add(value).wrapping_add(carry_in);
    let half = (a & 0xF) + (value & 0xF) + carry_in > 0xF;
    let overflow = (a as u16) + (value as u16) + (carry_in as u16) > 0xFF;
    (new_a, half, overflow)
}

/// Add value plus the carry flag to A.
/// Flags: [Z 0 H C]
pub fn adc(mmu: &mut MMU, value: u8)
    ensures
        *final(mmu) == after_adc(*old(mmu), value),
{
    let (new_a, half, overflow) = add_with_carry(mmu.a, value, mmu.carry);
    set_a(mmu, new_a);
    mmu.set_flags(new_a == 0, false, half, overflow);
}

/// Decimal adjust A, so that it holds two decimal digits again after an
/// addition or a subtraction of two such numbers.
/// Flags: [Z - 0 C]
pub fn daa(mmu: &mut MMU)
    ensures
        *final(mmu) == after_daa(*old(mmu)),
{
    let subtract = mmu.subtract;
    let carry = mmu.carry;
    let halfcarry = mmu.half_carry;
    let mut a = mmu.a;
    let mut new_carry = carry;
    proof {
        lemma_mask_arith(a);
    }
    if subtract {
        if carry {
            a = a.wrapping_sub(0x60);
        }
        if halfcarry {
            a = a.wrapping_sub(0x6);
        }
    } else {
        let low_over = halfcarry || (a & 0x0F) > 0x09;
        if carry || a > 0x99 {
            a = a.wrapping_add(0x60);
            new_carry = true;
        }
        if low_over {
            a = a.wrapping_add(0x6);
        }
    }
    set_a(mmu, a);
    mmu.set_flags(a == 0, subtract, false, new_carry);
}

/// XOR of A with itself gives 0, with the zero flag set and every other flag
/// clear.
pub proof fn law_xor_with_itself(m: MMU)
    ensures
        after_xor(m, m.a).a == 0,
        after_xor(m, m.a).zero,
        !after_xor(m, m.a).subtract,
        !after_xor(m, m.a).half_carry,
        !after_xor(m, m.a).carry,
{
    let a = m.a;
    assert(a ^ a == 0) by (bit_vector);
}

/// An addition followed by the subtraction of the same value gives A back.
/// The subtraction borrows exactly where the addition carried: carry and
/// half-carry are clear after it where the addition did not carry.
pub proof fn law_add_then_sub(m: MMU, value: u8)
    ensures
        after_sub(after_add(m, value), value).a == m.a,
        after_sub(after_add(m, value), value).carry == (m.a + value > 255),
        after_sub(after_add(m, value), value).half_carry == (m.a % 16 + value % 16 > 15),
        after_sub(after_add(m, value), value).subtract,
        after_sub(after_add(m, value), value).zero == (m.a == 0),
{
}

/// An increment followed by a decrement gives the byte back, and so does a
/// decrement followed by an increment.
pub proof fn law_inc_then_dec(value: u8)
    ensures
        decremented(incremented(value)) == value,
        incremented(decremented(value)) == value,
{
}

/// A rotate left followed by a rotate right gives the byte back, through the
/// carry flag or not.
pub proof fn law_rotate_left_then_right(value: u8, carry: bool)
    ensures
        rotated_right(rotated_left(value)) == value,
        rotated_right_through(rotated_left_through(value, carry), value >= 128) == value,
{
}

/// Swapping the nibbles twice gives the byte back.
pub proof fn law_swap_twice(value: u8)
    ensures
        swapped(swapped(value)) == value,
{
}

/// With the carry flag clear, the addition with carry is the addition and
/// the subtraction with carry is the subtraction.
pub proof fn law_carry_clear_leaves_add_and_sub(m: MMU, value: u8)
    requires
        !m.carry,
    ensures
        after_adc(m, value) == after_add(m, value),
        after_sbc(m, value) == after_sub(m, value),
{
}

/// With the carry flag set, the addition with carry of 0xFF leaves A as it
/// is and carries, and the subtraction with carry of 0xFF leaves A as it is
/// and borrows, whatever A holds.
pub proof fn law_carry_set_with_ff(m: MMU)
    requires
        m.carry,
    ensures
        after_adc(m, 0xFF).a == m.a,
        after_adc(m, 0xFF).carry,
        after_adc(m, 0xFF).half_carry,
        after_sbc(m, 0xFF).a == m.a,
        after_sbc(m, 0xFF).carry,
        after_sbc(m, 0xFF).half_carry,
{
}

/// An addition with carry followed by the subtraction with carry of the same
/// value, with the carry flag as it was before the addition, gives A back.
pub proof fn law_adc_then_sbc(m: MMU, value: u8)
    ensures
        after_sbc(MMU { carry: m.carry, ..after_adc(m, value) }, value).a == m.a,
{
}

} // verus!
