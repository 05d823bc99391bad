use gameboy::mmu::Interrupts;

#[test]
fn test_try_interrupt() {
    let mut interrupts = Interrupts::new();

    // Nothing.
    let result = interrupts.try_interrupt();
    assert_eq!(result, None);

    // Enable some interrupts.
    interrupts.inte = 0b00011100;
    let result = interrupts.try_interrupt();
    assert_eq!(result, None);

    // Set some interrupt flags high.
    interrupts.intf = 0b00010100;
    let result = interrupts.try_interrupt();
    assert_eq!(result, Some(2));
    assert_eq!(interrupts.intf, 0b00010000);

    // Call another interrupt.
    let result = interrupts.try_interrupt();
    assert_eq!(result, Some(4));
    assert_eq!(interrupts.intf, 0b00000000);

    // Set IME to false and try again.
    interrupts.intf = 0b00010100;
    interrupts.ime = false;
    let result = interrupts.try_interrupt();
    assert_eq!(result, None);
    assert_eq!(interrupts.intf, 0b00010100);
}

#[test]
fn test_disable_ime() {
    let mut interrupts = Interrupts::new();

    // Count down.
    interrupts.disable_ime();
    assert_eq!(interrupts.disable_ime_counter, 2);
    interrupts.tick_ime_timer();
    assert_eq!(interrupts.disable_ime_counter, 1);
    interrupts.tick_ime_timer();
    assert_eq!(interrupts.disable_ime_counter, 0);
    interrupts.tick_ime_timer();
    assert_eq!(interrupts.disable_ime_counter, 0);

    // Spam and reset.
    interrupts.disable_ime();
    interrupts.disable_ime();
    interrupts.disable_ime();
    assert_eq!(interrupts.disable_ime_counter, 2);
    interrupts.tick_ime_timer();
    interrupts.disable_ime();
    assert_eq!(interrupts.disable_ime_counter, 2);
}

#[test]
fn test_enable_ime() {
    let mut interrupts = Interrupts::new();

    // Count down.
    interrupts.enable_ime(2);
    assert_eq!(interrupts.enable_ime_counter, 2);
    interrupts.tick_ime_timer();
    assert_eq!(interrupts.enable_ime_counter, 1);
    interrupts.tick_ime_timer();
    assert_eq!(interrupts.enable_ime_counter, 0);
    interrupts.tick_ime_timer();
    assert_eq!(interrupts.enable_ime_counter, 0);

    // Spam and reset.
    interrupts.enable_ime(2);
    interrupts.enable_ime(2);
    interrupts.enable_ime(2);
    assert_eq!(interrupts.enable_ime_counter, 2);
    interrupts.tick_ime_timer();
    interrupts.enable_ime(2);
    assert_eq!(interrupts.enable_ime_counter, 2);

    // Enable 1.
    interrupts.enable_ime(1);
    assert_eq!(interrupts.enable_ime_counter, 1);
    interrupts.tick_ime_timer();
    assert_eq!(interrupts.enable_ime_counter, 0);
}

#[test]
fn vblank_is_served_before_the_timer() {
    let mut interrupts = Interrupts::new();
    interrupts.inte = 0b00000101;
    interrupts.intf = 0b00000101;
    assert_eq!(interrupts.try_interrupt(), Some(0));
    assert_eq!(interrupts.intf, 0b00000100);
    assert_eq!(interrupts.inte, 0b00000101);
    assert_eq!(interrupts.try_interrupt(), Some(2));
    assert_eq!(interrupts.intf, 0);
    assert_eq!(interrupts.try_interrupt(), None);
}

#[test]
fn the_priority_is_the_order_of_the_bits() {
    let mut interrupts = Interrupts::new();
    interrupts.inte = 0x1F;
    interrupts.intf = 0x1F;
    for index in 0..5u8 {
        assert_eq!(interrupts.try_interrupt(), Some(index));
    }
    assert_eq!(interrupts.try_interrupt(), None);
    assert_eq!(interrupts.intf, 0);
}

#[test]
fn a_request_that_is_not_enabled_is_not_served() {
    let mut interrupts = Interrupts::new();
    interrupts.inte = 0b00000010;
    interrupts.intf = 0b00000101;
    assert_eq!(interrupts.try_interrupt(), None);
    assert_eq!(interrupts.intf, 0b00000101);
}

#[test]
fn bits_5_to_7_name_no_interrupt() {
    let mut interrupts = Interrupts::new();
    interrupts.inte = 0xFF;
    interrupts.intf = 0xE0;
    assert_eq!(interrupts.try_interrupt(), None);
    assert_eq!(interrupts.intf, 0xE0);
    interrupts.intf = 0xF0;
    assert_eq!(interrupts.try_interrupt(), Some(4));
    assert_eq!(interrupts.intf, 0xE0);
}

#[test]
fn a_halted_cpu_is_woken_even_with_the_master_enable_off() {
    let mut interrupts = Interrupts::new();
    interrupts.ime = false;
    interrupts.is_halted = true;
    interrupts.inte = 0b00001000;
    assert_eq!(interrupts.try_interrupt(), None);
    assert!(interrupts.is_halted);
    interrupts.intf = 0b00001000;
    assert_eq!(interrupts.try_interrupt(), Some(3));
    assert!(!interrupts.is_halted);
    assert_eq!(interrupts.intf, 0);
}

#[test]
fn disable_takes_effect_after_two_ticks() {
    let mut interrupts = Interrupts::new();
    assert!(interrupts.ime);
    interrupts.disable_ime();
    assert!(interrupts.ime);
    interrupts.tick_ime_timer();
    assert!(interrupts.ime);
    interrupts.tick_ime_timer();
    assert!(!interrupts.ime);
}

#[test]
fn enable_takes_effect_after_its_delay() {
    let mut interrupts = Interrupts::new();
    interrupts.ime = false;
    interrupts.enable_ime(2);
    interrupts.tick_ime_timer();
    assert!(!interrupts.ime);
    interrupts.tick_ime_timer();
    assert!(interrupts.ime);

    interrupts.ime = false;
    interrupts.enable_ime(1);
    interrupts.tick_ime_timer();
    assert!(interrupts.ime);
}

#[test]
fn disable_then_enable_leaves_the_master_enable_on() {
    let mut interrupts = Interrupts::new();
    interrupts.disable_ime();
    interrupts.enable_ime(2);
    interrupts.tick_ime_timer();
    interrupts.tick_ime_timer();
    assert!(interrupts.ime);
    assert_eq!(interrupts.disable_ime_counter, 0);
    assert_eq!(interrupts.enable_ime_counter, 0);
}
