//! The frame sequencer of the sound unit.

use vstd::prelude::*;
use crate::mmu::MMU;

verus! {

/// The number of cycles between two steps of the frame sequencer.
pub const CYCLES_PER_FRAME: u32 = 4096;

/// The number of cycles that the CPU clock is divided by for the voices.
pub const APU_DIVISOR: u32 = 4;

/// The sound unit's frame sequencer: it counts the cycles of the CPU and, at
/// every other of its eight steps, counts the length of a voice down.
pub struct APU {
    /// The cycles since the last step of the sequencer.
    pub clock: u32,
    /// The step of the sequencer, 0 to 7.
    pub frame_sequence: u8,
}

/// The step of the sequencer after `step`.
pub open spec fn next_sequence(step: u8) -> u8 {
    ((step + 1) % 8) as u8
}

/// The machine after a step of the sequencer that has become `sequence`: at
/// the even steps the length of the second square voice goes down by one,
/// while it is enabled and above zero.
pub open spec fn sequenced(m: MMU, sequence: u8) -> MMU {
    if sequence % 2 == 0 && m.apu.square2_length > 0 && m.apu.square2_length_enabled {
        m.with_square2_length((m.apu.square2_length - 1) as u8)
    } else {
        m
    }
}

impl APU {
    /// Whether the sequencer is one that `new` and `step` give: less than a
    /// step of cycles is on its clock, and its step is one of the eight.
    pub open spec fn wf(self) -> bool {
        self.clock < CYCLES_PER_FRAME && self.frame_sequence < 8
    }

    /// Sequencer and machine after `cycles` cycles: once a step of cycles is
    /// on the clock, the sequencer goes on by one step.
    pub open spec fn stepped(self, m: MMU, cycles: u8) -> (APU, MMU) {
        if self.clock + cycles >= CYCLES_PER_FRAME {
            (
                APU {
                    clock: (self.clock + cycles - CYCLES_PER_FRAME) as u32,
                    frame_sequence: next_sequence(self.frame_sequence),
                },
                sequenced(m, next_sequence(self.frame_sequence)),
            )
        } else {
            (APU { clock: (self.clock + cycles) as u32, ..self }, m)
        }
    }

    /// Whether the sequencer is well-formed.
    pub fn is_wf(&self) -> (fine: bool)
        ensures
            fine == self.wf(),
    {
        self.clock < CYCLES_PER_FRAME && self.frame_sequence < 8
    }

    pub fn new() -> (apu: Self)
        ensures
            apu == (APU { clock: 0, frame_sequence: 0 }),
            apu.wf(),
    {
        Self { clock: 0, frame_sequence: 0 }
    }

    /// Advance the sequencer by the cycles that the CPU has just spent.
    pub fn step(&mut self, mmu: &mut MMU, cycles: u8)
        requires
            old(self).wf(),
        ensures
            (*final(self), *final(mmu)) == old(self).stepped(*old(mmu), cycles),
            final(self).wf(),
            final(mmu).ppu == old(mmu).ppu,
    {
        let mut clock = self.clock + cycles as u32;
        let mut sequence = self.frame_sequence;
        if clock >= CYCLES_PER_FRAME {
            clock = clock - CYCLES_PER_FRAME;
            sequence = (sequence + 1) % 8;
            if sequence % 2 == 0 && mmu.apu.square2_length > 0 && mmu.apu.square2_length_enabled {
                mmu.set_square2_length(mmu.apu.square2_length - 1);
            }
        }
        self.clock = clock;
        self.frame_sequence = sequence;
    }
}

/// The number of steps of a duty cycle.
pub const DUTY_STEPS: u8 = 8;

/// The number of samples of the wave pattern.
pub const WAVE_SAMPLES: u8 = 32;

/// The highest value of the frequency of a voice, of eleven bits, plus one.
pub const FREQUENCY_LIMIT: u16 = 2048;

/// A voice that plays a square wave: where it is in the step of its duty
/// cycle, and which of the eight steps it is at.
pub struct SquareVoice {
    /// The cycles since the last step of the duty cycle.
    pub clock: u32,
    /// The step of the duty cycle, 0 to 7.
    pub duty_phase: u8,
}

/// Whether the square wave is high at step `phase` of the duty cycle that
/// `wave_duty` selects: 1 for high, 0 for low. The four duty cycles are high
/// for one, two, four and six of their eight steps.
pub open spec fn duty_sample(wave_duty: u8, phase: u8) -> u8 {
    if wave_duty == 0 {
        if phase == 7 {
            1
        } else {
            0
        }
    } else if wave_duty == 1 {
        if phase == 0 || phase == 7 {
            1
        } else {
            0
        }
    } else if wave_duty == 2 {
        if phase == 0 || phase >= 5 {
            1
        } else {
            0
        }
    } else if phase == 0 {
        0
    } else {
        1
    }
}

/// The number of cycles of one step of the duty cycle of a square voice.
pub open spec fn square_period(frequency: u16) -> int {
    (2048 - frequency) * 4
}

/// The number of cycles of one sample of the wave voice.
pub open spec fn wave_period(frequency: u16) -> int {
    2 * (2048 - frequency)
}

impl SquareVoice {
    /// Whether the voice is one that `new` and `tick` give.
    pub open spec fn wf(self) -> bool {
        self.duty_phase < DUTY_STEPS && self.clock <= 8192 + APU_DIVISOR
    }

    /// The voice after a tick: once a period of cycles is on its clock, the
    /// clock starts again and the duty cycle goes on by one step; then the
    /// cycles of the tick go on the clock. A voice whose length is 0 rests.
    pub open spec fn ticked(self, length: u8, frequency: u16) -> SquareVoice {
        if length == 0 {
            self
        } else if self.clock >= square_period(frequency) {
            SquareVoice { clock: APU_DIVISOR, duty_phase: ((self.duty_phase + 1) % 8) as u8 }
        } else {
            SquareVoice { clock: (self.clock + APU_DIVISOR) as u32, ..self }
        }
    }

    /// Whether the voice is well-formed.
    pub fn is_wf(&self) -> (fine: bool)
        ensures
            fine == self.wf(),
    {
        self.duty_phase < DUTY_STEPS && self.clock <= 8192 + APU_DIVISOR
    }

    pub fn new() -> (voice: Self)
        ensures
            voice == (SquareVoice { clock: 0, duty_phase: 0 }),
            voice.wf(),
    {
        Self { clock: 0, duty_phase: 0 }
    }

    /// Advance the voice by one tick and return whether its wave is high
    /// then, 1 or 0; nothing for a voice whose length is 0, which is silent.
    pub fn tick(&mut self, length: u8, frequency: u16, wave_duty: u8) -> (sample: Option<u8>)
        requires
            old(self).wf(),
            frequency <= FREQUENCY_LIMIT,
            wave_duty < 4,
        ensures
            *final(self) == old(self).ticked(length, frequency),
            final(self).wf(),
            sample == (if length == 0 {
                None
            } else {
                Some(duty_sample(wave_duty, final(self).duty_phase))
            }),
    {
        if length == 0 {
            return None;
        }
        let period: u32 = (2048 - frequency as u32) * 4;
        let mut clock = self.clock;
        let mut phase = self.duty_phase;
        if clock >= period {
            clock = 0;
            phase = (phase + 1) % 8;
        }
        clock = clock + APU_DIVISOR;
        self.clock = clock;
        self.duty_phase = phase;
        let high = match wave_duty {
            0 => phase == 7,
            1 => phase == 0 || phase == 7,
            2 => phase == 0 || phase >= 5,
            _ => phase != 0,
        };
        Some(if high { 1 } else { 0 })
    }
}

/// The voice that plays the wave pattern: where it is in its sample, and
/// which of the 32 samples it is at.
pub struct WaveVoice {
    /// The cycles since the last sample began.
    pub clock: u32,
    /// The sample that is played, 0 to 31.
    pub sample_index: u8,
}

impl WaveVoice {
    /// Whether the voice is one that `new` and `tick` give.
    pub open spec fn wf(self) -> bool {
        self.sample_index < WAVE_SAMPLES && self.clock <= 4096 + APU_DIVISOR
    }

    /// The voice after a tick: once a period of cycles is on its clock, the
    /// clock starts again and the next sample begins; then the cycles of the
    /// tick go on the clock.
    pub open spec fn ticked(self, frequency: u16) -> WaveVoice {
        if self.clock >= wave_period(frequency) {
            WaveVoice { clock: APU_DIVISOR, sample_index: ((self.sample_index + 1) % 32) as u8 }
        } else {
            WaveVoice { clock: (self.clock + APU_DIVISOR) as u32, ..self }
        }
    }

    /// Whether the voice is well-formed.
    pub fn is_wf(&self) -> (fine: bool)
        ensures
            fine == self.wf(),
    {
        self.sample_index < WAVE_SAMPLES && self.clock <= 4096 + APU_DIVISOR
    }

    pub fn new() -> (voice: Self)
        ensures
            voice == (WaveVoice { clock: 0, sample_index: 0 }),
            voice.wf(),
    {
        Self { clock: 0, sample_index: 0 }
    }

    /// Advance the voice by one tick and return the sample of the wave
    /// pattern that it plays then, with the volume setting of the voice.
    pub fn tick(&mut self, mmu: &MMU) -> (sample: (u8, u8))
        requires
            old(self).wf(),
            mmu.apu.wave_frequency <= FREQUENCY_LIMIT,
        ensures
            *final(self) == old(self).ticked(mmu.apu.wave_frequency),
            final(self).wf(),
            sample == (mmu.apu.wave_ram@[final(self).sample_index as int], mmu.apu.wave_output),
    {
        let period: u32 = 2 * (2048 - mmu.apu.wave_frequency as u32);
        let mut clock = self.clock;
        let mut index = self.sample_index;
        if clock >= period {
            clock = 0;
            index = (index + 1) % 32;
        }
        clock = clock + APU_DIVISOR;
        self.clock = clock;
        self.sample_index = index;
        (mmu.apu.wave_ram[index as usize], mmu.apu.wave_output)
    }
}

} // verus!
