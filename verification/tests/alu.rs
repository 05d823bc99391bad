use gameboy::alu::{
    adc, add_hl_16, and, bit, cp, cpl, daa, dec, inc, or, res, rl, rlc, rr, rrc, sbc, sla, sra,
    srl, swap, xor,
};
use gameboy::MMU;

/// A machine whose registers and flags are all zero.
fn fresh() -> MMU {
    MMU::new(None, Some([0u8; 0x100])).unwrap()
}

/// Assert that all flags are certain values, in the order Z N H C.
fn assert_flags(mmu: &MMU, z: bool, n: bool, h: bool, c: bool) {
    assert_eq!(mmu.flag_z(), z, "Flag Z");
    assert_eq!(mmu.flag_n(), n, "Flag N");
    assert_eq!(mmu.flag_h(), h, "Flag H");
    assert_eq!(mmu.flag_c(), c, "Flag C");
}

#[test]
fn test_inc() {
    let mmu = &mut fresh();
    mmu.a = 0xFF;
    mmu.a = inc(mmu, mmu.a);
    assert_eq!(mmu.a, 0x0);
    assert_flags(mmu, true, false, true, false);
}

#[test]
fn test_dec() {
    let mmu = &mut fresh();
    mmu.a = 0x10; // There will be a half-borrow.
    mmu.a = dec(mmu, mmu.a);
    assert_eq!(mmu.a, 0x0F);
    assert_flags(mmu, false, true, true, false);
}

#[test]
fn test_xor() {
    let mmu = &mut fresh();
    xor(mmu, 0x11);
    assert_eq!(mmu.a, 0x11);
    assert_flags(mmu, false, false, false, false);

    xor(mmu, 0xFF);
    assert_eq!(mmu.a, 0xEE);
    assert_flags(mmu, false, false, false, false);

    mmu.a = 0x00;
    xor(mmu, 0x00);
    assert_eq!(mmu.a, 0x00);
    assert_flags(mmu, true, false, false, false);
}

#[test]
fn test_bit() {
    let mmu = &mut fresh();
    mmu.a = 0b00001000;
    bit(mmu, 3, mmu.a);
    assert_flags(mmu, false, false, true, false);

    mmu.a = 0b00000000;
    bit(mmu, 3, mmu.a);
    assert_flags(mmu, true, false, true, false);
}

#[test]
fn test_sub() {
    let mmu = &mut fresh();
    mmu.a = 0x10;
    gameboy::alu::sub(mmu, 0xFF);
    assert_eq!(mmu.a, 0x11);
    assert_flags(mmu, false, true, true, true);
}

#[test]
fn test_sub_no_borrows() {
    let mmu = &mut fresh();
    mmu.a = 0xFF;
    gameboy::alu::sub(mmu, 0xFF);
    assert_eq!(mmu.a, 0x00);
    assert_flags(mmu, true, true, false, false);
}

#[test]
fn test_cp() {
    let mmu = &mut fresh();
    mmu.a = 0x10;
    cp(mmu, 0xFF);
    assert_eq!(mmu.a, 0x10); // Does not get changed.
    assert_flags(mmu, false, true, true, true);
}

#[test]
fn test_cp_no_borrows() {
    let mmu = &mut fresh();
    mmu.a = 0xFF;
    cp(mmu, 0xFF);
    assert_eq!(mmu.a, 0xFF);
    assert_flags(mmu, true, true, false, false);
}

#[test]
fn test_rl() {
    let mmu = &mut fresh();
    let result = rl(mmu, 0b10000001);

    // MSB becomes carry (c=true), LSB is 0 (carry was false). Shift left.
    assert_eq!(result, 0b00000010);
    assert_flags(mmu, false, false, false, true);
}

#[test]
fn test_add() {
    let mmu = &mut fresh();
    mmu.a = 0xFF;
    gameboy::alu::add(mmu, 0xFF);
    assert_eq!(mmu.a, 0xFE);
    assert_flags(mmu, false, false, true, true);
}

#[test]
fn test_add_no_carry() {
    let mmu = &mut fresh();
    mmu.a = 0x00;
    gameboy::alu::add(mmu, 0xE);
    assert_eq!(mmu.a, 0xE);
    assert_flags(mmu, false, false, false, false);
}

#[test]
fn test_or() {
    let mmu = &mut fresh();
    or(mmu, 0x11);
    assert_eq!(mmu.a, 0x11);
    assert_flags(mmu, false, false, false, false);

    or(mmu, 0xFF);
    assert_eq!(mmu.a, 0xFF);
    assert_flags(mmu, false, false, false, false);

    mmu.a = 0x00;
    or(mmu, 0x00);
    assert_eq!(mmu.a, 0x00);
    assert_flags(mmu, true, false, false, false);
}

#[test]
fn test_and() {
    let mmu = &mut fresh();
    and(mmu, 0x11);
    assert_eq!(mmu.a, 0x00);
    assert_flags(mmu, true, false, true, false);

    and(mmu, 0xFF);
    assert_eq!(mmu.a, 0x00);
    assert_flags(mmu, true, false, true, false);

    mmu.a = 0xF0;
    and(mmu, 0xF0);
    assert_eq!(mmu.a, 0xF0);
    assert_flags(mmu, false, false, true, false);

    mmu.a = 0xF0;
    and(mmu, 0xE0);
    assert_eq!(mmu.a, 0xE0);
    assert_flags(mmu, false, false, true, false);
}

#[test]
fn test_cpl() {
    let mmu = &mut fresh();
    mmu.a = 0b10101100;
    cpl(mmu);
    assert_eq!(mmu.a, 0b01010011); // The inverse of all bits.
    assert_flags(mmu, false, true, true, false);
}

#[test]
fn test_swap() {
    let mmu = &mut fresh();
    let result = swap(mmu, 0b11110000);
    assert_eq!(result, 0b00001111);
    assert_flags(mmu, false, false, false, false);
}

#[test]
fn test_add_hl_16() {
    let mmu = &mut fresh();
    add_hl_16(mmu, 0xFFFF);
    assert_eq!(mmu.hl(), 0xFFFF);
    assert_flags(mmu, false, false, false, false);

    add_hl_16(mmu, 0xFFFF); // Both overflows.
    assert_eq!(mmu.hl(), 0xFFFE);
    assert_flags(mmu, false, false, true, true);
}

#[test]
fn test_res() {
    assert_eq!(res(0, 0xFF), 0xFE);
    assert_eq!(res(1, 0xFF), 0xFD);
    assert_eq!(res(7, 0xFF), 0x7F);
}

#[test]
fn test_set() {
    assert_eq!(gameboy::alu::set(0, 0x00), 0x01);
    assert_eq!(gameboy::alu::set(1, 0x00), 0x02);
    assert_eq!(gameboy::alu::set(7, 0xFF), 0xFF);
}

#[test]
fn test_sla() {
    let mmu = &mut fresh();
    assert_eq!(sla(mmu, 0b10000001), 0b00000010);
    assert_flags(mmu, false, false, false, true);

    assert_eq!(sla(mmu, 0b10000000), 0);
    assert_flags(mmu, true, false, false, true);
}

#[test]
fn test_rlc() {
    let mmu = &mut fresh();
    let result = rlc(mmu, 0b10000001);

    // MSB becomes carry (c=true) and LSB. Shift left.
    assert_eq!(result, 0b00000011);
    assert_flags(mmu, false, false, false, true);
}

#[test]
fn test_adc() {
    let mmu = &mut fresh();
    mmu.set_flag_c(true);
    mmu.a = 0xFF;
    adc(mmu, 0xFF);
    assert_eq!(mmu.a, 0xFF);
    // 0xFF + 0xFF + 1 is 0x1FF: the byte overflows, and so does its low nibble.
    assert_flags(mmu, false, false, true, true);
}

#[test]
fn test_alu_inc() {
    let mmu = &mut fresh();
    mmu.a = 0xFF;
    mmu.a = inc(mmu, mmu.a);
    assert_eq!(mmu.a, 0x0);
    assert_flags(mmu, true, false, true, false);
}

#[test]
fn test_alu_dec() {
    let mmu = &mut fresh();
    mmu.a = 0x10; // There will be a half-borrow.
    mmu.a = dec(mmu, mmu.a);
    assert_eq!(mmu.a, 0x0F);
    assert_flags(mmu, false, true, true, false);
}

#[test]
fn test_alu_xor() {
    let mmu = &mut fresh();
    xor(mmu, 0x11);
    assert_eq!(mmu.a, 0x11);
    assert_flags(mmu, false, false, false, false);

    xor(mmu, 0xFF);
    assert_eq!(mmu.a, 0xEE);
    assert_flags(mmu, false, false, false, false);

    mmu.a = 0x00;
    xor(mmu, 0x00);
    assert_eq!(mmu.a, 0x00);
    assert_flags(mmu, true, false, false, false);
}

#[test]
fn test_alu_bit() {
    let mmu = &mut fresh();
    mmu.a = 0b00001000;
    bit(mmu, 3, mmu.a);
    assert_flags(mmu, false, false, true, false);

    mmu.a = 0b00000000;
    bit(mmu, 3, mmu.a);
    assert_flags(mmu, true, false, true, false);
}

#[test]
fn test_alu_sub() {
    let mmu = &mut fresh();
    mmu.a = 0x10;
    gameboy::alu::sub(mmu, 0xFF);
    assert_eq!(mmu.a, 0x11);
    assert_flags(mmu, false, true, true, true);
}

#[test]
fn test_alu_sub_no_borrows() {
    let mmu = &mut fresh();
    mmu.a = 0xFF;
    gameboy::alu::sub(mmu, 0xFF);
    assert_eq!(mmu.a, 0x00);
    assert_flags(mmu, true, true, false, false);
}

#[test]
fn test_alu_cp() {
    let mmu = &mut fresh();
    mmu.a = 0x10;
    cp(mmu, 0xFF);
    assert_eq!(mmu.a, 0x10); // Does not get changed.
    assert_flags(mmu, false, true, true, true);
}

#[test]
fn test_alu_cp_no_borrows() {
    let mmu = &mut fresh();
    mmu.a = 0xFF;
    cp(mmu, 0xFF);
    assert_eq!(mmu.a, 0xFF);
    assert_flags(mmu, true, true, false, false);
}

#[test]
fn test_alu_rl() {
    let mmu = &mut fresh();
    let result = rl(mmu, 0b10000001);
    assert_eq!(result, 0b00000010);
    assert_flags(mmu, false, false, false, true);
}

#[test]
fn test_alu_add() {
    let mmu = &mut fresh();
    mmu.a = 0xFF;
    gameboy::alu::add(mmu, 0xFF);
    assert_eq!(mmu.a, 0xFE);
    assert_flags(mmu, false, false, true, true);
}

#[test]
fn test_alu_add_no_carry() {
    let mmu = &mut fresh();
    mmu.a = 0x00;
    gameboy::alu::add(mmu, 0xE);
    assert_eq!(mmu.a, 0xE);
    assert_flags(mmu, false, false, false, false);
}

#[test]
fn test_alu_or() {
    let mmu = &mut fresh();
    or(mmu, 0x11);
    assert_eq!(mmu.a, 0x11);
    assert_flags(mmu, false, false, false, false);

    or(mmu, 0xFF);
    assert_eq!(mmu.a, 0xFF);
    assert_flags(mmu, false, false, false, false);

    mmu.a = 0x00;
    or(mmu, 0x00);
    assert_eq!(mmu.a, 0x00);
    assert_flags(mmu, true, false, false, false);
}

#[test]
fn test_alu_and() {
    let mmu = &mut fresh();
    and(mmu, 0x11);
    assert_eq!(mmu.a, 0x00);
    assert_flags(mmu, true, false, true, false);

    and(mmu, 0xFF);
    assert_eq!(mmu.a, 0x00);
    assert_flags(mmu, true, false, true, false);

    mmu.a = 0xF0;
    and(mmu, 0xF0);
    assert_eq!(mmu.a, 0xF0);
    assert_flags(mmu, false, false, true, false);

    mmu.a = 0xF0;
    and(mmu, 0xE0);
    assert_eq!(mmu.a, 0xE0);
    assert_flags(mmu, false, false, true, false);
}

#[test]
fn test_alu_cpl() {
    let mmu = &mut fresh();
    mmu.a = 0b10101100;
    cpl(mmu);
    assert_eq!(mmu.a, 0b01010011);
    assert_flags(mmu, false, true, true, false);
}

#[test]
fn test_alu_swap() {
    let mmu = &mut fresh();
    let result = swap(mmu, 0b11110000);
    assert_eq!(result, 0b00001111);
    assert_flags(mmu, false, false, false, false);
}

#[test]
fn test_alu_add_16() {
    let mmu = &mut fresh();
    add_hl_16(mmu, 0xFFFF);
    assert_eq!(mmu.hl(), 0xFFFF);
    assert_flags(mmu, false, false, false, false);

    add_hl_16(mmu, 0xFFFF); // Both overflows.
    assert_eq!(mmu.hl(), 0xFFFE);
    assert_flags(mmu, false, false, true, true);
}

#[test]
fn test_alu_res() {
    assert_eq!(res(0, 0xFF), 0xFE);
    assert_eq!(res(1, 0xFF), 0xFD);
    assert_eq!(res(7, 0xFF), 0x7F);
}

#[test]
fn test_alu_sla() {
    let mmu = &mut fresh();
    assert_eq!(sla(mmu, 0b10000001), 0b00000010);
    assert_flags(mmu, false, false, false, true);

    assert_eq!(sla(mmu, 0b10000000), 0);
    assert_flags(mmu, true, false, false, true);
}

#[test]
fn xor_of_a_with_itself_is_zero_for_every_byte() {
    for a in 0..=255u8 {
        let mmu = &mut fresh();
        mmu.a = a;
        mmu.set_flags(false, true, true, true);
        xor(mmu, a);
        assert_eq!(mmu.a, 0);
        assert_flags(mmu, true, false, false, false);
    }
}

#[test]
fn add_then_sub_restores_a_for_every_pair() {
    for a in 0..=255u8 {
        for v in 0..=255u8 {
            let mmu = &mut fresh();
            mmu.a = a;
            gameboy::alu::add(mmu, v);
            gameboy::alu::sub(mmu, v);
            assert_eq!(mmu.a, a);
            assert_eq!(mmu.flag_c(), a as u16 + v as u16 > 255);
            assert_eq!(mmu.flag_h(), (a & 0xF) + (v & 0xF) > 15);
        }
    }
}

#[test]
fn add_then_sub_without_carry_clears_both_carries() {
    let mmu = &mut fresh();
    mmu.a = 0x21;
    gameboy::alu::add(mmu, 0x33);
    assert_eq!(mmu.a, 0x54);
    gameboy::alu::sub(mmu, 0x33);
    assert_eq!(mmu.a, 0x21);
    assert_flags(mmu, false, true, false, false);
}

#[test]
fn inc_then_dec_restores_every_byte() {
    for v in 0..=255u8 {
        let mmu = &mut fresh();
        let up = inc(mmu, v);
        assert_eq!(dec(mmu, up), v);
        let down = dec(mmu, v);
        assert_eq!(inc(mmu, down), v);
    }
}

#[test]
fn inc_and_dec_keep_the_carry_flag() {
    let mmu = &mut fresh();
    mmu.set_flag_c(true);
    assert_eq!(inc(mmu, 0x0F), 0x10);
    assert_flags(mmu, false, false, true, true);
    assert_eq!(dec(mmu, 0x01), 0x00);
    assert_flags(mmu, true, true, false, true);
}

#[test]
fn sbc_subtracts_the_carry_too() {
    let mmu = &mut fresh();
    mmu.a = 0x10;
    mmu.set_flag_c(true);
    sbc(mmu, 0x01);
    assert_eq!(mmu.a, 0x0E);
    assert_flags(mmu, false, true, true, false);
}

#[test]
fn sbc_of_ff_with_carry_leaves_a_and_borrows() {
    let mmu = &mut fresh();
    mmu.a = 0x42;
    mmu.set_flag_c(true);
    sbc(mmu, 0xFF);
    assert_eq!(mmu.a, 0x42);
    assert_flags(mmu, false, true, true, true);
}

#[test]
fn the_carry_in_counts_for_the_half_carry() {
    let mmu = &mut fresh();
    mmu.a = 0x0F;
    mmu.set_flag_c(true);
    adc(mmu, 0x00);
    assert_eq!(mmu.a, 0x10);
    assert_flags(mmu, false, false, true, false);

    let mmu = &mut fresh();
    mmu.a = 0x10;
    mmu.set_flag_c(true);
    sbc(mmu, 0x0F);
    assert_eq!(mmu.a, 0x00);
    assert_flags(mmu, true, true, true, false);
}

#[test]
fn adc_is_the_sum_of_all_three_for_every_input() {
    for a in 0..=255u8 {
        for v in 0..=255u8 {
            for cy in [false, true] {
                let mmu = &mut fresh();
                mmu.a = a;
                mmu.set_flags(true, true, false, cy);
                adc(mmu, v);
                let total = a as u16 + v as u16 + cy as u16;
                assert_eq!(mmu.a, (total % 256) as u8);
                assert_eq!(mmu.flag_z(), total % 256 == 0);
                assert_eq!(mmu.flag_n(), false);
                assert_eq!(mmu.flag_h(), (a & 0xF) + (v & 0xF) + cy as u8 > 0xF);
                assert_eq!(mmu.flag_c(), total > 0xFF);
            }
        }
    }
}

#[test]
fn sbc_is_the_difference_of_all_three_for_every_input() {
    for a in 0..=255u8 {
        for v in 0..=255u8 {
            for cy in [false, true] {
                let mmu = &mut fresh();
                mmu.a = a;
                mmu.set_flags(true, false, false, cy);
                sbc(mmu, v);
                assert_eq!(mmu.a, a.wrapping_sub(v).wrapping_sub(cy as u8));
                assert_eq!(mmu.flag_z(), mmu.a == 0);
                assert_eq!(mmu.flag_n(), true);
                assert_eq!(mmu.flag_h(), (a & 0xF) < (v & 0xF) + cy as u8);
                assert_eq!(mmu.flag_c(), (a as u16) < v as u16 + cy as u16);
            }
        }
    }
}

#[test]
fn adc_without_carry_is_add() {
    let mmu = &mut fresh();
    mmu.a = 0x0F;
    adc(mmu, 0x01);
    assert_eq!(mmu.a, 0x10);
    assert_flags(mmu, false, false, true, false);
}

#[test]
fn rr_brings_the_carry_in_at_the_top() {
    let mmu = &mut fresh();
    mmu.set_flag_c(true);
    assert_eq!(rr(mmu, 0b00000001), 0b10000000);
    assert_flags(mmu, false, false, false, true);
    assert_eq!(rr(mmu, 0b00000010), 0b10000001);
    assert_flags(mmu, false, false, false, false);
    assert_eq!(rr(mmu, 0b00000001), 0b00000000);
    assert_flags(mmu, true, false, false, true);
}

#[test]
fn rrc_brings_bit_zero_in_at_the_top() {
    let mmu = &mut fresh();
    assert_eq!(rrc(mmu, 0b00000001), 0b10000000);
    assert_flags(mmu, false, false, false, true);
    assert_eq!(rrc(mmu, 0b00000010), 0b00000001);
    assert_flags(mmu, false, false, false, false);
}

#[test]
fn sra_keeps_the_sign_and_srl_does_not() {
    let mmu = &mut fresh();
    assert_eq!(sra(mmu, 0b10000001), 0b11000000);
    assert_flags(mmu, false, false, false, true);
    assert_eq!(srl(mmu, 0b10000001), 0b01000000);
    assert_flags(mmu, false, false, false, true);
    assert_eq!(srl(mmu, 0b00000001), 0);
    assert_flags(mmu, true, false, false, true);
}

#[test]
fn swap_twice_restores_every_byte() {
    for v in 0..=255u8 {
        let mmu = &mut fresh();
        let once = swap(mmu, v);
        assert_eq!(swap(mmu, once), v);
    }
    let mmu = &mut fresh();
    assert_eq!(swap(mmu, 0x12), 0x21);
    assert_eq!(swap(mmu, 0x00), 0x00);
    assert_flags(mmu, true, false, false, false);
}

#[test]
fn daa_after_an_addition_of_two_decimal_numbers() {
    // 0x45 + 0x38 = 0x7D, which is 83 in decimal digits.
    let mmu = &mut fresh();
    mmu.a = 0x45;
    gameboy::alu::add(mmu, 0x38);
    assert_eq!(mmu.a, 0x7D);
    daa(mmu);
    assert_eq!(mmu.a, 0x83);
    assert_flags(mmu, false, false, false, false);
}

#[test]
fn daa_after_an_addition_that_passes_99() {
    // 0x90 + 0x20 = 0xB0, which is 110: 0x10 with the carry flag.
    let mmu = &mut fresh();
    mmu.a = 0x90;
    gameboy::alu::add(mmu, 0x20);
    daa(mmu);
    assert_eq!(mmu.a, 0x10);
    assert_flags(mmu, false, false, false, true);
}

#[test]
fn daa_after_a_subtraction_with_half_borrow() {
    // 0x42 - 0x05 = 0x3D, which is 37 in decimal digits.
    let mmu = &mut fresh();
    mmu.a = 0x42;
    gameboy::alu::sub(mmu, 0x05);
    assert_eq!(mmu.a, 0x3D);
    daa(mmu);
    assert_eq!(mmu.a, 0x37);
    assert_flags(mmu, false, true, false, false);
}

#[test]
fn daa_of_zero_sets_the_zero_flag() {
    let mmu = &mut fresh();
    daa(mmu);
    assert_eq!(mmu.a, 0);
    assert_flags(mmu, true, false, false, false);
}

#[test]
fn add_hl_16_half_carry_is_the_carry_out_of_bit_11() {
    let mmu = &mut fresh();
    mmu.set_hl(0x0800);
    mmu.set_flag_z(true);
    add_hl_16(mmu, 0x0800);
    assert_eq!(mmu.hl(), 0x1000);
    assert_flags(mmu, true, false, true, false);
    add_hl_16(mmu, 0x0400);
    assert_eq!(mmu.hl(), 0x1400);
    assert_flags(mmu, true, false, false, false);
}

#[test]
fn registers_test_alu_inc() {
    let mmu = &mut fresh();
    mmu.a = 0xFF;
    mmu.a = inc(mmu, mmu.a);
    assert_eq!(mmu.a, 0x0);
    assert_flags(mmu, true, false, true, false);
}

#[test]
fn registers_test_alu_xor() {
    let mmu = &mut fresh();
    xor(mmu, 0x11);
    assert_eq!(mmu.a, 0x11);
    assert_eq!(mmu.flag_z(), false);

    xor(mmu, 0xFF);
    assert_eq!(mmu.a, 0xEE);
    assert_eq!(mmu.flag_z(), false);

    mmu.a = 0x00;
    xor(mmu, 0x00);
    assert_eq!(mmu.a, 0x00);
    assert_eq!(mmu.flag_z(), true);
}

#[test]
fn registers_test_alu_bit() {
    let mmu = &mut fresh();
    mmu.a = 0b00001000;
    bit(mmu, 3, mmu.a);
    assert_flags(mmu, false, false, true, false);

    mmu.a = 0b00000000;
    bit(mmu, 3, mmu.a);
    assert_flags(mmu, true, false, true, false);
}

#[test]
fn registers_test_alu_sub() {
    let mmu = &mut fresh();
    mmu.a = 0x10;
    gameboy::alu::sub(mmu, 0xFF);
    assert_eq!(mmu.a, 0x11);
    assert_flags(mmu, false, true, true, true);
}

#[test]
fn registers_test_alu_sub_no_borrows() {
    let mmu = &mut fresh();
    mmu.a = 0xFF;
    gameboy::alu::sub(mmu, 0xFF);
    assert_eq!(mmu.a, 0x00);
    assert_flags(mmu, true, true, false, false);
}

#[test]
fn registers_test_alu_rl() {
    let mmu = &mut fresh();
    let result = rl(mmu, 0b10000001);
    assert_eq!(result, 0b00000010);
    assert_flags(mmu, false, false, false, true);
}

#[test]
fn registers_test_alu_dec() {
    let mmu = &mut fresh();
    mmu.a = 0xFF;
    mmu.a = dec(mmu, mmu.a);
    assert_eq!(mmu.a, 0xFE);
    // The low nibble of 0xFF has something to lend: there is no half-borrow.
    assert_flags(mmu, false, true, false, false);
}
