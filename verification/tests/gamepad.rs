use gameboy::gamepad::{is_pressed, key_states};
use gameboy::{Gamepad, MMU};

#[test]
fn nothing_is_pressed_at_first() {
    let gamepad = Gamepad::new();
    assert_eq!(gamepad.button_state, 0x0F);
    assert_eq!(gamepad.dpad_state, 0x0F);
}

#[test]
fn a_row_has_a_zero_for_each_key_that_is_pressed() {
    let keys = [true, false, false, true, false, true, true, false];
    assert_eq!(Gamepad::parse_row(&keys, 0), 0b0110);
    assert_eq!(Gamepad::parse_row(&keys, 4), 0b1001);
    assert_eq!(Gamepad::parse_row(&[false; 8], 0), 0b1111);
    assert_eq!(Gamepad::parse_row(&[true; 8], 4), 0b0000);
    assert_eq!(Gamepad::parse_row(&keys, 2), 0b0101);
}

#[test]
fn the_first_four_keys_are_directions_and_the_last_four_buttons() {
    let mut gamepad = Gamepad::new();
    // Right and A are pressed.
    gamepad.update_state([true, false, false, false, true, false, false, false]);
    assert_eq!(gamepad.dpad_state, 0b1110);
    assert_eq!(gamepad.button_state, 0b1110);
    // Down, Select and Start are pressed.
    gamepad.update_state([false, false, false, true, false, false, true, true]);
    assert_eq!(gamepad.dpad_state, 0b0111);
    assert_eq!(gamepad.button_state, 0b0011);
}

#[test]
fn the_latch_shows_the_row_that_is_selected() {
    let mut gamepad = Gamepad::new();
    gamepad.update_state([true, false, false, false, false, true, false, false]);
    let mut mmu = MMU::new(None, None).unwrap();
    // Bit 5 is 0: the buttons are selected.
    mmu.wb(0xFF00, 0x10).unwrap();
    gamepad.step(&mut mmu);
    assert_eq!(mmu.rb(0xFF00), Ok(0x10 | 0b1101));
    // Bit 4 is 0: the direction keys are selected.
    mmu.wb(0xFF00, 0x20).unwrap();
    gamepad.step(&mut mmu);
    assert_eq!(mmu.rb(0xFF00), Ok(0x20 | 0b1110));
}

#[test]
fn with_both_rows_selected_a_key_of_either_shows_as_pressed() {
    let mut gamepad = Gamepad::new();
    gamepad.update_state([true, false, false, false, false, true, false, false]);
    let mut mmu = MMU::new(None, None).unwrap();
    mmu.wb(0xFF00, 0x00).unwrap();
    gamepad.step(&mut mmu);
    assert_eq!(mmu.rb(0xFF00), Ok(0b1100));
}

#[test]
fn with_no_row_selected_the_latch_shows_the_direction_keys() {
    let mut gamepad = Gamepad::new();
    gamepad.update_state([true, false, false, false, false, true, false, false]);
    let mut mmu = MMU::new(None, None).unwrap();
    mmu.wb(0xFF00, 0x30).unwrap();
    gamepad.step(&mut mmu);
    assert_eq!(mmu.rb(0xFF00), Ok(0x30 | 0b1110));
}

#[test]
fn bits_that_are_set_in_the_latch_stay_set() {
    let mut gamepad = Gamepad::new();
    let mut mmu = MMU::new(None, None).unwrap();
    assert_eq!(mmu.gamepad, 0x2F);
    gamepad.update_state([true; 8]);
    gamepad.step(&mut mmu);
    assert_eq!(mmu.gamepad, 0x2F);
}

#[test]
fn a_key_of_the_gamepad_is_pressed_while_its_binding_is_held() {
    let bindings = [79, 80, 82, 81, 4, 22, 27, 29];
    assert_eq!(key_states(&vec![], &bindings), [false; 8]);
    assert_eq!(
        key_states(&vec![80, 4, 99], &bindings),
        [false, true, false, false, true, false, false, false]
    );
    assert_eq!(key_states(&vec![29, 27, 22, 4, 81, 82, 80, 79], &bindings), [true; 8]);
    assert!(is_pressed(&vec![1, 2, 3], 3));
    assert!(!is_pressed(&vec![1, 2, 3], 4));
}
