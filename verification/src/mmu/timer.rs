//! The registers of the timer.

use vstd::prelude::*;
use crate::bits::{bit_is_set, is_bit_set};
use crate::fault::Fault;

verus! {

/// The registers of the two timers, at 0xFF04 to 0xFF07. The divider always
/// runs; the counter runs while `started` and at the rate that `clock` selects.
#[derive(Clone, Copy, Debug)]
pub struct TimerRegisters {
    /// 0xFF04: the free-running divider.
    pub divider: u8,
    /// 0xFF05: the programmable counter.
    pub counter: u8,
    /// 0xFF06: what the counter is reloaded with when it overflows.
    pub modulo: u8,
    /// 0xFF07, bit 2: whether the counter runs.
    pub started: bool,
    /// 0xFF07, bits 0 and 1: which of the four rates the counter runs at.
    pub clock: u8,
}

impl TimerRegisters {
    /// The addresses that can be read: divider, counter and modulo.
    pub open spec fn maps_read(address: u16) -> bool {
        0xFF04 <= address <= 0xFF06
    }

    /// The addresses that can be written.
    pub open spec fn maps_write(address: u16) -> bool {
        0xFF04 <= address <= 0xFF07
    }

    /// What a read of a readable address returns.
    pub open spec fn read(self, address: u16) -> u8 {
        if address == 0xFF04 {
            self.divider
        } else if address == 0xFF05 {
            self.counter
        } else {
            self.modulo
        }
    }

    /// The registers after a write to a writable address. Any write to the
    /// divider resets it to zero, whatever the value.
    pub open spec fn written(self, address: u16, value: u8) -> TimerRegisters {
        if address == 0xFF04 {
            TimerRegisters { divider: 0, ..self }
        } else if address == 0xFF05 {
            TimerRegisters { counter: value, ..self }
        } else if address == 0xFF06 {
            TimerRegisters { modulo: value, ..self }
        } else {
            TimerRegisters { started: bit_is_set(value, 2), clock: value & 0b11, ..self }
        }
    }

    /// The registers at power-on: everything zero, the counter stopped.
    pub open spec fn reset() -> TimerRegisters {
        TimerRegisters { divider: 0, counter: 0, modulo: 0, started: false, clock: 0 }
    }

    pub fn new() -> (fresh: Self)
        ensures
            fresh == Self::reset(),
    {
        Self { divider: 0, counter: 0, modulo: 0, started: false, clock: 0 }
    }

    pub fn rb(&self, address: u16) -> (value: Result<u8, Fault>)
        ensures
            value == (if Self::maps_read(address) {
                Ok::<u8, Fault>(self.read(address))
            } else {
                Err(Fault::UnmappedAccess { address, write: false })
            }),
    {
        match address {
            0xFF04 => Ok(self.divider),
            0xFF05 => Ok(self.counter),
            0xFF06 => Ok(self.modulo),
            _ => Err(Fault::UnmappedAccess { address, write: false }),
        }
    }

    pub fn wb(&mut self, address: u16, value: u8) -> (done: Result<(), Fault>)
        ensures
            done == (if Self::maps_write(address) {
                Ok::<(), Fault>(())
            } else {
                Err(Fault::UnmappedAccess { address, write: true })
            }),
            *final(self) == (if Self::maps_write(address) {
                old(self).written(address, value)
            } else {
                *old(self)
            }),
    {
        match address {
            0xFF04 => *self = TimerRegisters { divider: 0, ..*self },
            0xFF05 => *self = TimerRegisters { counter: value, ..*self },
            0xFF06 => *self = TimerRegisters { modulo: value, ..*self },
            0xFF07 => *self = TimerRegisters {
                started: is_bit_set(value, 2),
                clock: value & 0b11,
                ..*self
            },
            _ => {
                return Err(Fault::UnmappedAccess { address, write: true });
            },
        }
        Ok(())
    }
}

} // verus!
