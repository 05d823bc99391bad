use gameboy::{Timer, MMU};

fn machine() -> (Timer, MMU) {
    (Timer::new(), MMU::new(None, None).unwrap())
}

/// Step by `cycles` cycles, at most 255 at a time.
fn advance(timer: &mut Timer, mmu: &mut MMU, cycles: u32) {
    let mut left = cycles;
    while left > 0 {
        let chunk = left.min(255);
        timer.step(mmu, chunk as u8);
        left -= chunk;
    }
}

#[test]
fn the_divider_ticks_every_16384_cycles() {
    let (mut timer, mut mmu) = machine();
    advance(&mut timer, &mut mmu, 16383);
    assert_eq!(mmu.timer.divider, 0);
    advance(&mut timer, &mut mmu, 1);
    assert_eq!(mmu.timer.divider, 1);
    advance(&mut timer, &mut mmu, 16384 * 3);
    assert_eq!(mmu.timer.divider, 4);
}

#[test]
fn the_divider_wraps_at_eight_bits() {
    let (mut timer, mut mmu) = machine();
    mmu.timer.divider = 0xFF;
    advance(&mut timer, &mut mmu, 16384);
    assert_eq!(mmu.timer.divider, 0);
    assert_eq!(mmu.interrupts.intf, 0);
}

#[test]
fn the_counter_stands_still_while_it_is_stopped() {
    let (mut timer, mut mmu) = machine();
    mmu.timer.counter = 5;
    advance(&mut timer, &mut mmu, 262144 * 2);
    assert_eq!(mmu.timer.counter, 5);
    assert_eq!(timer.counter_lapsed, 0);
}

#[test]
fn the_clock_select_picks_one_of_four_tick_sizes() {
    for (clock, size) in [(0u8, 4096u32), (1, 262144), (2, 65536), (3, 16384)] {
        let (mut timer, mut mmu) = machine();
        mmu.wb(0xFF07, 0b100 | clock).unwrap();
        advance(&mut timer, &mut mmu, size - 1);
        assert_eq!(mmu.timer.counter, 0);
        advance(&mut timer, &mut mmu, 1);
        assert_eq!(mmu.timer.counter, 1);
        advance(&mut timer, &mut mmu, size * 2);
        assert_eq!(mmu.timer.counter, 3);
    }
}

#[test]
fn an_overflow_reloads_the_counter_and_requests_the_interrupt() {
    let (mut timer, mut mmu) = machine();
    mmu.wb(0xFF07, 0b100).unwrap();
    mmu.wb(0xFF06, 0xAB).unwrap();
    mmu.wb(0xFF05, 0xFF).unwrap();
    advance(&mut timer, &mut mmu, 4096);
    assert_eq!(mmu.timer.counter, 0xAB);
    assert_eq!(mmu.interrupts.intf, 0x04);
}

#[test]
fn fewer_cycles_than_a_tick_change_nothing() {
    let (mut timer, mut mmu) = machine();
    mmu.wb(0xFF07, 0b100).unwrap();
    mmu.wb(0xFF06, 0xAB).unwrap();
    mmu.wb(0xFF05, 0xFF).unwrap();
    advance(&mut timer, &mut mmu, 4095);
    assert_eq!(mmu.timer.counter, 0xFF);
    assert_eq!(mmu.interrupts.intf, 0);
}

#[test]
fn the_counter_goes_on_from_the_modulo() {
    let (mut timer, mut mmu) = machine();
    mmu.wb(0xFF07, 0b100).unwrap();
    mmu.wb(0xFF06, 0xFE).unwrap();
    mmu.wb(0xFF05, 0xFE).unwrap();
    advance(&mut timer, &mut mmu, 4096 * 2);
    assert_eq!(mmu.timer.counter, 0xFE);
    assert_eq!(mmu.interrupts.intf, 0x04);
    mmu.interrupts.intf = 0;
    advance(&mut timer, &mut mmu, 4096);
    assert_eq!(mmu.timer.counter, 0xFF);
    assert_eq!(mmu.interrupts.intf, 0);
    advance(&mut timer, &mut mmu, 4096);
    assert_eq!(mmu.timer.counter, 0xFE);
    assert_eq!(mmu.interrupts.intf, 0x04);
}

#[test]
fn a_faster_clock_catches_up_with_the_cycles_that_have_lapsed() {
    let (mut timer, mut mmu) = machine();
    mmu.wb(0xFF07, 0b101).unwrap();
    advance(&mut timer, &mut mmu, 20000);
    assert_eq!(mmu.timer.counter, 0);
    mmu.wb(0xFF07, 0b100).unwrap();
    timer.step(&mut mmu, 0);
    assert_eq!(mmu.timer.counter, 4);
    assert_eq!(timer.counter_lapsed, 20000 - 4 * 4096);
}
