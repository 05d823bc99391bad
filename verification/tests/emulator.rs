use gameboy::opcode::{Flags, OpCode};
use gameboy::{Emulator, Fault, OpCodes};

fn entry(cycles: Vec<u8>) -> OpCode {
    OpCode {
        mnemonic: String::from("OP"),
        bytes: 1,
        operands: Vec::new(),
        flags: Flags {
            Z: String::from("-"),
            N: String::from("-"),
            H: String::from("-"),
            C: String::from("-"),
        },
        cycles,
    }
}

/// A table in which every opcode costs 4 ticks.
fn table() -> OpCodes {
    let mut table = OpCodes::new();
    for opcode in 0..=255u8 {
        table.insert(opcode, false, entry(vec![4]));
        table.insert(opcode, true, entry(vec![8]));
    }
    table
}

/// A plain cartridge with `program` at 0x0100.
fn image(program: &[u8]) -> Vec<u8> {
    let mut image = vec![0u8; 0x8000];
    image[0x100..0x100 + program.len()].copy_from_slice(program);
    image
}

#[test]
fn a_step_feeds_the_cycles_of_the_cpu_to_timer_and_display() {
    // NOP; NOP
    let mut emulator = Emulator::new(table(), Some(image(&[0x00, 0x00])), None).unwrap();
    emulator.mmu.wb(0xFF07, 0b100).unwrap();
    assert_eq!(emulator.step(), Ok(1));
    assert_eq!(emulator.mmu.pc, 0x0101);
    assert_eq!(emulator.timer.divider_lapsed, 1);
    assert_eq!(emulator.timer.counter_lapsed, 1);
    assert_eq!(emulator.ppu.modeclock, 1);
    assert_eq!(emulator.step(), Ok(1));
    assert_eq!(emulator.ppu.modeclock, 2);
}

#[test]
fn a_frame_is_69905_cycles_of_steps() {
    // JR -2: a loop of one instruction of one cycle.
    let mut emulator = Emulator::new(table(), Some(image(&[0x18, 0xFE])), None).unwrap();
    assert_eq!(emulator.emulate_frame([false; 8]), Ok(()));
    assert_eq!(emulator.mmu.pc, 0x0100);
    // The display is on and began at line 0 in mode 0, 252 cycles into the
    // line: 69905 cycles later it is 70157 cycles into the frame.
    assert_eq!(emulator.mmu.ppu.line, (70157 / 456) as u8);
    assert_eq!(emulator.mmu.ppu.mode, 1);
    assert_eq!(emulator.ppu.modeclock as u32, 70157u32 % 456);
    assert_eq!(emulator.timer.divider_lapsed, (69905 % 16384) as u16);
    assert_eq!(emulator.mmu.timer.divider, 4);
    assert_eq!(emulator.mmu.interrupts.intf & 0x01, 0x01);
}

#[test]
fn a_frame_takes_the_state_of_the_keys() {
    let mut emulator = Emulator::new(table(), Some(image(&[0x18, 0xFE])), None).unwrap();
    emulator.mmu.wb(0xFF00, 0x20).unwrap();
    let keys = [false, true, false, false, true, false, false, false];
    assert_eq!(emulator.emulate_frame(keys), Ok(()));
    assert_eq!(emulator.gamepad.dpad_state, 0b1101);
    assert_eq!(emulator.gamepad.button_state, 0b1110);
    assert_eq!(emulator.mmu.gamepad, 0x20 | 0b1101);
}

#[test]
fn a_fault_ends_the_frame() {
    // NOP; then an opcode that the CPU does not have.
    let mut emulator = Emulator::new(table(), Some(image(&[0x00, 0xFC])), None).unwrap();
    assert_eq!(
        emulator.emulate_frame([false; 8]),
        Err(Fault::UnimplementedOpcode { opcode: 0xFC, prefixed: false, address: 0x0101 })
    );
}

#[test]
fn a_table_whose_costs_are_zero_still_ends_the_frame() {
    let mut costs = OpCodes::new();
    costs.insert(0x18, false, entry(vec![0]));
    let mut emulator = Emulator::new(costs, Some(image(&[0x18, 0xFE])), None).unwrap();
    assert_eq!(emulator.emulate_frame([false; 8]), Ok(()));
    assert_eq!(emulator.ppu.modeclock, 0);
}

#[test]
fn an_unsupported_cartridge_is_refused() {
    let mut bad = image(&[]);
    bad[0x147] = 0x42;
    let refused = Emulator::new(table(), Some(bad), None);
    assert!(matches!(refused, Err(Fault::UnsupportedCartridge { controller: 0x42 })));
}

#[test]
fn the_boot_program_runs_from_address_zero() {
    let mut boot = [0u8; 0x100];
    boot[0] = 0x3C; // INC A
    boot[1] = 0x3C;
    let mut emulator = Emulator::new(table(), None, Some(boot)).unwrap();
    assert_eq!(emulator.step(), Ok(1));
    assert_eq!(emulator.step(), Ok(1));
    assert_eq!(emulator.mmu.a, 2);
    assert_eq!(emulator.mmu.pc, 2);
}

#[test]
fn a_new_machine_is_well_formed_and_stays_so() {
    let mut emulator = Emulator::new(table(), Some(image(&[0x18, 0xFE])), None).unwrap();
    assert!(emulator.is_wf());
    emulator.emulate_frame([false; 8]).unwrap();
    assert!(emulator.is_wf());
    emulator.ppu.image_buffer[100] = 4;
    assert!(!emulator.is_wf());
    emulator.ppu.image_buffer[100] = 3;
    emulator.timer.divider_lapsed = 16384;
    assert!(!emulator.is_wf());
}

#[test]
fn the_sequencer_of_the_sound_unit_counts_a_length_down() {
    let mut emulator = Emulator::new(table(), Some(image(&[0x18, 0xFE])), None).unwrap();
    emulator.mmu.wb(0xFF16, 0x3F).unwrap();
    emulator.mmu.wb(0xFF19, 0x40).unwrap();
    assert_eq!(emulator.mmu.apu.square2_length, 0x3F);
    // A frame is 17 steps of the sequencer, of which 8 are even ones.
    emulator.emulate_frame([false; 8]).unwrap();
    assert_eq!(emulator.apu.frame_sequence, 17 % 8);
    assert_eq!(emulator.apu.clock, 69905 - 17 * 4096);
    assert_eq!(emulator.mmu.apu.square2_length, 0x3F - 8);
}

#[test]
fn the_queue_of_samples_is_bounded() {
    assert!(!gameboy::emulator::audio_queue_is_full(0));
    assert!(!gameboy::emulator::audio_queue_is_full(20_000));
    assert!(gameboy::emulator::audio_queue_is_full(20_001));
}

#[test]
fn a_square_voice_steps_through_its_duty_cycle() {
    let mut voice = gameboy::apu::SquareVoice::new();
    // A frequency of 2047 gives a period of 4 cycles: every tick is a step.
    assert_eq!(voice.tick(0, 2047, 2), None);
    assert_eq!((voice.clock, voice.duty_phase), (0, 0));
    assert_eq!(voice.tick(1, 2047, 2), Some(1));
    assert_eq!((voice.clock, voice.duty_phase), (4, 0));
    let samples: Vec<u8> = (0..8).map(|_| voice.tick(1, 2047, 2).unwrap()).collect();
    assert_eq!(samples, vec![0, 0, 0, 0, 1, 1, 1, 1]);
    assert_eq!(voice.duty_phase, 0);
    let samples: Vec<u8> = (0..8).map(|_| voice.tick(1, 2047, 0).unwrap()).collect();
    assert_eq!(samples, vec![0, 0, 0, 0, 0, 0, 1, 0]);
    let samples: Vec<u8> = (0..8).map(|_| voice.tick(1, 2047, 3).unwrap()).collect();
    assert_eq!(samples, vec![1, 1, 1, 1, 1, 1, 1, 0]);
    // A frequency of 2046 gives a period of 8 cycles: every other tick is a step.
    let mut voice = gameboy::apu::SquareVoice::new();
    let phases: Vec<u8> = (0..6)
        .map(|_| {
            voice.tick(1, 2046, 1);
            voice.duty_phase
        })
        .collect();
    assert_eq!(phases, vec![0, 0, 1, 1, 2, 2]);
    assert!(voice.is_wf());
}

#[test]
fn the_wave_voice_steps_through_the_wave_pattern() {
    let mut emulator = Emulator::new(table(), None, None).unwrap();
    emulator.mmu.wb(0xFF30, 0x12).unwrap();
    emulator.mmu.wb(0xFF32, 0x34).unwrap();
    emulator.mmu.wb(0xFF1C, 0x40).unwrap();
    emulator.mmu.wb(0xFF1D, 0xFE).unwrap();
    emulator.mmu.wb(0xFF1E, 0x07).unwrap();
    assert_eq!(emulator.mmu.apu.wave_frequency, 2046);
    let mut voice = gameboy::apu::WaveVoice::new();
    // A period of 4 cycles: after the first tick, every tick is a sample.
    let samples: Vec<(u8, u8)> = (0..4).map(|_| voice.tick(&emulator.mmu)).collect();
    assert_eq!(samples, vec![(1, 2), (3, 2), (4, 2), (0, 2)]);
    assert_eq!(voice.sample_index, 3);
    assert!(voice.is_wf());
}
