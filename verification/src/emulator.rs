//! The machine as a whole: one step of all its parts, and one frame of steps.

use vstd::prelude::*;
use crate::apu::APU;
use crate::cpu::CPU;
use crate::fault::Fault;
use crate::gamepad::Gamepad;
use crate::mmu::MMU;
use crate::opcode::OpCodes;
use crate::ppu::{in_time, Display, PPU};
use crate::timer::Timer;

verus! {

/// The number of frames in a second.
pub const FRAMERATE: u32 = 60;

/// The number of cycles of one frame: the clock of the CPU divided by the
/// frame rate.
pub const CYCLES_PER_FRAME: u32 = 69905;

/// The parts of the machine that the program runs on: CPU, address space,
/// display controller, timer and gamepad.
pub struct Emulator {
    pub cpu: CPU,
    pub ppu: PPU,
    pub mmu: MMU,
    pub apu: APU,
    pub gamepad: Gamepad,
    pub timer: Timer,
}

/// What a step changes: the address space, the display, the timer and the
/// sound unit's sequencer.
pub struct State {
    pub mmu: MMU,
    pub display: Display,
    pub timer: Timer,
    pub apu: APU,
}

/// A fault, and the state as the fault leaves it.
pub struct Halt {
    pub fault: Fault,
    pub state: State,
}

/// The outcome of one step of the machine: the selected keys are shown in
/// the input latch, the CPU does one step, and timer, display controller and
/// sound unit catch up with the cycles that it took, in that order.
pub open spec fn stepped(table: OpCodes, gamepad: Gamepad, state: State) -> Result<
    (State, u8),
    Halt,
> {
    match crate::cpu::stepped(table, gamepad.latched(state.mmu)) {
        Err(failure) => Err(
            Halt { fault: failure.fault, state: State { mmu: failure.machine, ..state } },
        ),
        Ok((after_cpu, cycles)) => {
            let (timer, after_timer) = state.timer.stepped(after_cpu, cycles);
            let (display, after_display) = crate::ppu::stepped(state.display, after_timer, cycles);
            let (apu, mmu) = state.apu.stepped(after_display, cycles);
            Ok((State { mmu, display, timer, apu }, cycles))
        },
    }
}

/// The outcome of the rest of a frame of which `count` cycles and `steps`
/// steps are done: steps follow each other until the cycles of a frame are
/// done, or a fault ends them. A frame has no more steps than cycles.
pub open spec fn framed(
    table: OpCodes,
    gamepad: Gamepad,
    state: State,
    count: int,
    steps: int,
) -> Result<State, Halt>
    decreases CYCLES_PER_FRAME - steps,
{
    if count >= CYCLES_PER_FRAME || steps >= CYCLES_PER_FRAME {
        Ok(state)
    } else {
        match stepped(table, gamepad, state) {
            Err(halt) => Err(halt),
            Ok((next, cycles)) => framed(table, gamepad, next, count + cycles, steps + 1),
        }
    }
}

/// Advance each part of the machine by one step of the CPU.
fn step_parts(
    cpu: &CPU,
    gamepad: &Gamepad,
    mmu: &mut MMU,
    timer: &mut Timer,
    ppu: &mut PPU,
    apu: &mut APU,
) -> (cycles: Result<u8, Fault>)
    requires
        old(timer).wf(),
        old(ppu).wf(),
        old(apu).wf(),
        in_time(old(ppu).modeclock as int, old(mmu).ppu),
    ensures
        match stepped(
            cpu.opcodes,
            *gamepad,
            State { mmu: *old(mmu), display: old(ppu)@, timer: *old(timer), apu: *old(apu) },
        ) {
            Ok((state, cost)) => {
                &&& cycles == Ok::<u8, Fault>(cost)
                &&& state == (State {
                    mmu: *final(mmu),
                    display: final(ppu)@,
                    timer: *final(timer),
                    apu: *final(apu),
                })
                &&& final(timer).wf()
                &&& final(ppu).wf()
                &&& final(apu).wf()
                &&& in_time(final(ppu).modeclock as int, final(mmu).ppu)
            },
            Err(halt) => {
                &&& cycles == Err::<u8, Fault>(halt.fault)
                &&& halt.state == (State {
                    mmu: *final(mmu),
                    display: final(ppu)@,
                    timer: *final(timer),
                    apu: *final(apu),
                })
            },
        },
{
    gamepad.step(mmu);
    let ghost latched = *mmu;
    let cycles = cpu.step(mmu)?;
    assert(in_time(ppu.modeclock as int, mmu.ppu)) by {
        assert(mmu.keeps_display_timing(latched));
    }
    timer.step(mmu, cycles);
    ppu.step(mmu, cycles);
    apu.step(mmu, cycles);
    Ok(cycles)
}

impl Emulator {
    /// What a step changes.
    pub open spec fn state(self) -> State {
        State { mmu: self.mmu, display: self.ppu@, timer: self.timer, apu: self.apu }
    }

    /// Whether the parts fit together: timer, display controller and sound
    /// unit are well-formed, and the display controller's clock fits its
    /// mode.
    pub open spec fn wf(self) -> bool {
        &&& self.timer.wf()
        &&& self.apu.wf()
        &&& self.ppu.wf()
        &&& in_time(self.ppu.modeclock as int, self.mmu.ppu)
    }

    /// Whether the parts fit together.
    pub fn is_wf(&self) -> (fine: bool)
        ensures
            fine == self.wf(),
    {
        self.timer.is_wf() && self.apu.is_wf() && self.ppu.is_wf() && self.ppu.is_in_time(
            &self.mmu.ppu,
        )
    }

    /// Build the machine around an opcode table, a cartridge image or an
    /// empty cartridge slot, and a boot program or none.
    pub fn new(opcodes: OpCodes, cartridge_image: Option<Vec<u8>>, boot_rom: Option<[u8; 0x100]>) -> (machine:
        Result<Self, Fault>)
        ensures
            match machine {
                Ok(emulator) => {
                    &&& cartridge_image matches Some(data) ==> crate::cartridge::is_supported(
                        crate::cartridge::header_controller(data@),
                    )
                    &&& crate::cartridge::Cartridge::loaded(cartridge_image, emulator.mmu.cartridge)
                    &&& emulator.mmu == MMU::started(emulator.mmu.cartridge, boot_rom)
                    &&& emulator.cpu.opcodes == opcodes
                    &&& emulator.ppu@ == (Display { clock: 0, image: crate::ppu::blank() })
                    &&& emulator.timer == (Timer { divider_lapsed: 0, counter_lapsed: 0 })
                    &&& emulator.apu == (APU { clock: 0, frame_sequence: 0 })
                    &&& emulator.gamepad == (Gamepad { button_state: 0xF, dpad_state: 0xF })
                    &&& emulator.wf()
                },
                Err(fault) => {
                    &&& cartridge_image matches Some(data)
                    &&& !crate::cartridge::is_supported(crate::cartridge::header_controller(data@))
                    &&& fault == (Fault::UnsupportedCartridge {
                        controller: crate::cartridge::header_controller(data@),
                    })
                },
            },
    {
        let mmu = MMU::new(cartridge_image, boot_rom)?;
        proof {
            crate::mmu::lemma_started_display_is_in_time(mmu.cartridge, boot_rom);
        }
        Ok(
            Self {
                cpu: CPU::new(opcodes),
                mmu,
                ppu: PPU::new(),
                apu: APU::new(),
                timer: Timer::new(),
                gamepad: Gamepad::new(),
            },
        )
    }

    /// Advance each part of the machine by one step of the CPU, and return
    /// the cycles that it took.
    pub fn step(&mut self) -> (cycles: Result<u8, Fault>)
        requires
            old(self).wf(),
        ensures
            final(self).cpu == old(self).cpu,
            final(self).gamepad == old(self).gamepad,
            match stepped(old(self).cpu.opcodes, old(self).gamepad, old(self).state()) {
                Ok((state, cost)) => cycles == Ok::<u8, Fault>(cost) && final(self).state() == state
                    && final(self).wf(),
                Err(halt) => cycles == Err::<u8, Fault>(halt.fault) && final(self).state()
                    == halt.state,
            },
    {
        step_parts(
            &self.cpu,
            &self.gamepad,
            &mut self.mmu,
            &mut self.timer,
            &mut self.ppu,
            &mut self.apu,
        )
    }

    /// Emulate one frame: take the state of the keys, then step until the
    /// cycles of a frame are done.
    pub fn emulate_frame(&mut self, gamepad_state: [bool; 8]) -> (done: Result<(), Fault>)
        requires
            old(self).wf(),
        ensures
            final(self).cpu == old(self).cpu,
            final(self).gamepad.button_state == crate::gamepad::row(
                gamepad_state@[4],
                gamepad_state@[5],
                gamepad_state@[6],
                gamepad_state@[7],
            ),
            final(self).gamepad.dpad_state == crate::gamepad::row(
                gamepad_state@[0],
                gamepad_state@[1],
                gamepad_state@[2],
                gamepad_state@[3],
            ),
            match framed(old(self).cpu.opcodes, final(self).gamepad, old(self).state(), 0, 0) {
                Ok(state) => done is Ok && final(self).state() == state && final(self).wf(),
                Err(halt) => done == Err::<(), Fault>(halt.fault) && final(self).state()
                    == halt.state,
            },
    {
        self.gamepad.update_state(gamepad_state);
        let mut cycle_count: u32 = 0;
        let mut steps: u32 = 0;
        while cycle_count < CYCLES_PER_FRAME && steps < CYCLES_PER_FRAME
            invariant
                self.wf(),
                self.cpu == old(self).cpu,
                self.gamepad.button_state == crate::gamepad::row(
                    gamepad_state@[4],
                    gamepad_state@[5],
                    gamepad_state@[6],
                    gamepad_state@[7],
                ),
                self.gamepad.dpad_state == crate::gamepad::row(
                    gamepad_state@[0],
                    gamepad_state@[1],
                    gamepad_state@[2],
                    gamepad_state@[3],
                ),
                steps <= CYCLES_PER_FRAME,
                cycle_count <= CYCLES_PER_FRAME + 255,
                framed(self.cpu.opcodes, self.gamepad, self.state(), cycle_count as int, steps as int)
                    == framed(old(self).cpu.opcodes, self.gamepad, old(self).state(), 0, 0),
            decreases CYCLES_PER_FRAME - steps,
        {
            let cycles = self.step()?;
            cycle_count = cycle_count + cycles as u32;
            steps = steps + 1;
        }
        Ok(())
    }
}

/// The number of bytes above which the queue of samples of the host is
/// emptied, so that what is heard does not fall behind.
pub const AUDIO_QUEUE_LIMIT: u32 = 20_000;

/// Whether the queue of samples of the host holds too much and is to be
/// emptied: the samples in it are dropped.
pub fn audio_queue_is_full(queued: u32) -> (full: bool)
    ensures
        full == (queued > AUDIO_QUEUE_LIMIT),
{
    queued > AUDIO_QUEUE_LIMIT
}

} // verus!
