//! The registers of the sound unit.

use vstd::prelude::*;
use vstd::array::spec_array_update;
use crate::bits::{bit_is_set, is_bit_set, zeros};
use crate::fault::Fault;

verus! {

/// The registers of the sound unit, at 0xFF10 to 0xFF3F. The core keeps what
/// is written to them; it synthesises no sound.
#[derive(Clone, Copy, Debug)]
pub struct ApuRegisters {
    pub square1_sweep_time: u8,
    /// Whether the sweep raises the frequency; it lowers it otherwise.
    pub square1_sweep_increase: bool,
    pub square1_sweep_shift: u8,
    pub square1_wave_duty: u8,
    pub square1_length: u8,
    pub square1_frequency: u16,
    pub square1_initialize: bool,
    pub square1_length_enabled: bool,
    /// 0xFF12: envelope of the first square voice.
    pub nr12: u8,
    pub square2_wave_duty: u8,
    pub square2_length: u8,
    pub square2_frequency: u16,
    pub square2_initialize: bool,
    pub square2_length_enabled: bool,
    /// 0xFF17: envelope of the second square voice.
    pub nr22: u8,
    pub wave_on: bool,
    pub wave_length: u8,
    pub wave_length_enabled: bool,
    /// 0: mute, 1: as it is, 2: shifted right once, 3: shifted right twice.
    pub wave_output: u8,
    pub wave_frequency: u16,
    /// The 4-bit samples of the wave pattern.
    pub wave_ram: [u8; 32],
    pub wave_initialize: bool,
    /// 0xFF20: length of the noise voice.
    pub nr41: u8,
    /// 0xFF21: envelope of the noise voice.
    pub nr42: u8,
    /// 0xFF22: polynomial counter of the noise voice.
    pub nr43: u8,
    /// 0xFF23: counter and restart of the noise voice.
    pub nr44: u8,
    /// 0xFF24: channel control and volume.
    pub nr50: u8,
    /// 0xFF25: which voice goes to which output terminal.
    pub nr51: u8,
    /// 0xFF26: power of the sound unit.
    pub nr52: u8,
}

/// The low byte of a frequency replaced by `value`.
pub open spec fn with_frequency_low(frequency: u16, value: u8) -> u16 {
    (frequency & 0xFF00) | (value & 0xFF) as u16
}

/// Bits 8 to 10 of a frequency replaced by the low three bits of `value`.
pub open spec fn with_frequency_high(frequency: u16, value: u8) -> u16 {
    (frequency & 0xFF) | (((value & 0x07) as u16) << 8)
}

impl ApuRegisters {
    /// Every address of the block can be read.
    pub open spec fn maps_read(address: u16) -> bool {
        0xFF10 <= address <= 0xFF3F
    }

    /// The addresses behind which a register stands.
    pub open spec fn maps_write(address: u16) -> bool {
        ||| 0xFF10 <= address <= 0xFF14
        ||| 0xFF16 <= address <= 0xFF1E
        ||| 0xFF20 <= address <= 0xFF26
        ||| 0xFF30 <= address <= 0xFF3F
    }

    /// Where in the wave pattern the first of the two samples of the byte at
    /// `address` goes; the second goes one place up.
    pub open spec fn wave_index(address: u16) -> int {
        (address - 0xFF30) / 2
    }

    /// The registers after a write to a writable address.
    pub open spec fn written(self, address: u16, value: u8) -> ApuRegisters {
        if address == 0xFF10 {
            ApuRegisters {
                square1_sweep_time: (value >> 4) & 0x7,
                square1_sweep_shift: value & 0x7,
                square1_sweep_increase: bit_is_set(value, 3),
                ..self
            }
        } else if address == 0xFF11 {
            ApuRegisters { square1_wave_duty: value >> 6, square1_length: value & 0x3F, ..self }
        } else if address == 0xFF12 {
            ApuRegisters { nr12: value, ..self }
        } else if address == 0xFF13 {
            ApuRegisters {
                square1_frequency: with_frequency_low(self.square1_frequency, value),
                ..self
            }
        } else if address == 0xFF14 {
            ApuRegisters {
                square1_frequency: with_frequency_high(self.square1_frequency, value),
                square1_initialize: bit_is_set(value, 7),
                square1_length_enabled: bit_is_set(value, 6),
                ..self
            }
        } else if address == 0xFF16 {
            ApuRegisters { square2_wave_duty: value >> 6, square2_length: value & 0x3F, ..self }
        } else if address == 0xFF17 {
            ApuRegisters { nr22: value, ..self }
        } else if address == 0xFF18 {
            ApuRegisters {
                square2_frequency: with_frequency_low(self.square2_frequency, value),
                ..self
            }
        } else if address == 0xFF19 {
            ApuRegisters {
                square2_frequency: with_frequency_high(self.square2_frequency, value),
                square2_initialize: bit_is_set(value, 7),
                square2_length_enabled: bit_is_set(value, 6),
                ..self
            }
        } else if address == 0xFF1A {
            ApuRegisters { wave_on: bit_is_set(value, 7), ..self }
        } else if address == 0xFF1B {
            ApuRegisters { wave_length: value, ..self }
        } else if address == 0xFF1C {
            ApuRegisters { wave_output: (value >> 5) & 0x3, ..self }
        } else if address == 0xFF1D {
            ApuRegisters { wave_frequency: with_frequency_low(self.wave_frequency, value), ..self }
        } else if address == 0xFF1E {
            ApuRegisters {
                wave_frequency: with_frequency_high(self.wave_frequency, value),
                wave_initialize: bit_is_set(value, 7),
                wave_length_enabled: bit_is_set(value, 6),
                ..self
            }
        } else if address == 0xFF20 {
            ApuRegisters { nr41: value, ..self }
        } else if address == 0xFF21 {
            ApuRegisters { nr42: value, ..self }
        } else if address == 0xFF22 {
            ApuRegisters { nr43: value, ..self }
        } else if address == 0xFF23 {
            ApuRegisters { nr44: value, ..self }
        } else if address == 0xFF24 {
            ApuRegisters { nr50: value, ..self }
        } else if address == 0xFF25 {
            ApuRegisters { nr51: value, ..self }
        } else if address == 0xFF26 {
            ApuRegisters { nr52: value, ..self }
        } else {
            ApuRegisters {
                wave_ram: spec_array_update(
                    spec_array_update(self.wave_ram, Self::wave_index(address), value >> 4),
                    Self::wave_index(address) + 1,
                    value & 0xF,
                ),
                ..self
            }
        }
    }

    /// The registers at power-on: the wave voice is on, everything else is
    /// zero.
    pub open spec fn reset() -> ApuRegisters {
        ApuRegisters {
            square1_sweep_time: 0,
            square1_sweep_increase: false,
            square1_sweep_shift: 0,
            square1_wave_duty: 0,
            square1_length: 0,
            square1_frequency: 0,
            square1_initialize: false,
            square1_length_enabled: false,
            nr12: 0,
            square2_wave_duty: 0,
            square2_length: 0,
            square2_frequency: 0,
            square2_initialize: false,
            square2_length_enabled: false,
            nr22: 0,
            wave_on: true,
            wave_length: 0,
            wave_length_enabled: false,
            wave_output: 0,
            wave_frequency: 0,
            wave_initialize: false,
            nr41: 0,
            nr42: 0,
            nr43: 0,
            nr44: 0,
            nr50: 0,
            nr51: 0,
            nr52: 0,
            wave_ram: zeros::<32>(),
        }
    }

    pub fn new() -> (fresh: Self)
        ensures
            fresh == Self::reset(),
    {
        Self {
            square1_sweep_time: 0,
            square1_sweep_increase: false,
            square1_sweep_shift: 0,
            square1_wave_duty: 0,
            square1_length: 0,
            square1_frequency: 0,
            square1_initialize: false,
            square1_length_enabled: false,
            nr12: 0,
            square2_wave_duty: 0,
            square2_length: 0,
            square2_frequency: 0,
            square2_initialize: false,
            square2_length_enabled: false,
            nr22: 0,
            wave_on: true,
            wave_length: 0,
            wave_length_enabled: false,
            wave_output: 0,
            wave_frequency: 0,
            wave_initialize: false,
            nr41: 0,
            nr42: 0,
            nr43: 0,
            nr44: 0,
            nr50: 0,
            nr51: 0,
            nr52: 0,
            wave_ram: [0u8; 32],
        }
    }

    /// Write the two samples that `value` holds into the wave pattern.
    fn write_wave(&mut self, address: u16, value: u8)
        requires
            0xFF30 <= address <= 0xFF3F,
        ensures
            *final(self) == old(self).written(address, value),
    {
        let index: usize = (address as usize - 0xFF30) / 2;
        let mut ram = self.wave_ram;
        ram[index] = value >> 4;
        ram[index + 1] = value & 0xF;
        *self = ApuRegisters { wave_ram: ram, ..*self };
    }

    /// Write one of the registers of the two square voices.
    fn write_square(&mut self, address: u16, value: u8)
        requires
            0xFF10 <= address <= 0xFF19,
            address != 0xFF15,
        ensures
            *final(self) == old(self).written(address, value),
    {
        match address {
            0xFF10 => *self = ApuRegisters {
                square1_sweep_time: (value >> 4) & 0x7,
                square1_sweep_shift: value & 0x7,
                square1_sweep_increase: is_bit_set(value, 3),
                ..*self
            },
            0xFF11 => *self = ApuRegisters {
                square1_wave_duty: value >> 6,
                square1_length: value & 0x3F,
                ..*self
            },
            0xFF12 => *self = ApuRegisters { nr12: value, ..*self },
            0xFF13 => *self = ApuRegisters {
                square1_frequency: (self.square1_frequency & 0xFF00) | (value & 0xFF) as u16,
                ..*self
            },
            0xFF14 => *self = ApuRegisters {
                square1_frequency: (self.square1_frequency & 0xFF) | (((value & 0x07) as u16) << 8),
                square1_initialize: is_bit_set(value, 7),
                square1_length_enabled: is_bit_set(value, 6),
                ..*self
            },
            0xFF16 => *self = ApuRegisters {
                square2_wave_duty: value >> 6,
                square2_length: value & 0x3F,
                ..*self
            },
            0xFF17 => *self = ApuRegisters { nr22: value, ..*self },
            0xFF18 => *self = ApuRegisters {
                square2_frequency: (self.square2_frequency & 0xFF00) | (value & 0xFF) as u16,
                ..*self
            },
            _ => *self = ApuRegisters {
                square2_frequency: (self.square2_frequency & 0xFF) | (((value & 0x07) as u16) << 8),
                square2_initialize: is_bit_set(value, 7),
                square2_length_enabled: is_bit_set(value, 6),
                ..*self
            },
        }
    }

    /// Write one of the registers of the wave voice.
    fn write_wave_control(&mut self, address: u16, value: u8)
        requires
            0xFF1A <= address <= 0xFF1E,
        ensures
            *final(self) == old(self).written(address, value),
    {
        match address {
            0xFF1A => *self = ApuRegisters { wave_on: is_bit_set(value, 7), ..*self },
            0xFF1B => *self = ApuRegisters { wave_length: value, ..*self },
            0xFF1C => *self = ApuRegisters { wave_output: (value >> 5) & 0x3, ..*self },
            0xFF1D => *self = ApuRegisters {
                wave_frequency: (self.wave_frequency & 0xFF00) | (value & 0xFF) as u16,
                ..*self
            },
            _ => *self = ApuRegisters {
                wave_frequency: (self.wave_frequency & 0xFF) | (((value & 0x07) as u16) << 8),
                wave_initialize: is_bit_set(value, 7),
                wave_length_enabled: is_bit_set(value, 6),
                ..*self
            },
        }
    }

    /// Write one of the registers of the noise voice and of the mixer.
    fn write_noise(&mut self, address: u16, value: u8)
        requires
            0xFF20 <= address <= 0xFF26,
        ensures
            *final(self) == old(self).written(address, value),
    {
        match address {
            0xFF20 => *self = ApuRegisters { nr41: value, ..*self },
            0xFF21 => *self = ApuRegisters { nr42: value, ..*self },
            0xFF22 => *self = ApuRegisters { nr43: value, ..*self },
            0xFF23 => *self = ApuRegisters { nr44: value, ..*self },
            0xFF24 => *self = ApuRegisters { nr50: value, ..*self },
            0xFF25 => *self = ApuRegisters { nr51: value, ..*self },
            _ => *self = ApuRegisters { nr52: value, ..*self },
        }
    }

    /// Write a register of the sound unit.
    pub fn wb(&mut self, address: u16, value: u8) -> (done: Result<(), Fault>)
        ensures
            done == (if Self::maps_write(address) {
                Ok::<(), Fault>(())
            } else {
                Err(Fault::UnmappedAccess { address, write: true })
            }),
            *final(self) == (if Self::maps_write(address) {
                old(self).written(address, value)
            } else {
                *old(self)
            }),
    {
        match address {
            0xFF10..=0xFF14 | 0xFF16..=0xFF19 => self.write_square(address, value),
            0xFF1A..=0xFF1E => self.write_wave_control(address, value),
            0xFF20..=0xFF26 => self.write_noise(address, value),
            0xFF30..=0xFF3F => self.write_wave(address, value),
            _ => {
                return Err(Fault::UnmappedAccess { address, write: true });
            },
        }
        Ok(())
    }

    /// Read a register of the sound unit: every one of them reads as 0.
    pub fn rb(&self, address: u16) -> (value: Result<u8, Fault>)
        ensures
            value == (if Self::maps_read(address) {
                Ok::<u8, Fault>(0u8)
            } else {
                Err(Fault::UnmappedAccess { address, write: false })
            }),
    {
        if 0xFF10 <= address && address <= 0xFF3F {
            Ok(0)
        } else {
            Err(Fault::UnmappedAccess { address, write: false })
        }
    }
}

} // verus!
