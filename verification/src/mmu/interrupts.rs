//! The interrupt controller.

use vstd::prelude::*;

verus! {

/// Index of the V-Blank interrupt, the one of highest priority.
pub const VBLANK: u8 = 0;

/// Index of the LCD status interrupt.
pub const LCD_STATUS: u8 = 1;

/// Index of the timer overflow interrupt.
pub const TIMER: u8 = 2;

/// Index of the serial transfer interrupt.
pub const SERIAL: u8 = 3;

/// Index of the joypad interrupt, the one of lowest priority.
pub const JOYPAD: u8 = 4;

/// The five interrupt lines of the enable and request masks.
pub const LINES: u8 = 0x1F;

/// The interrupt controller: the enable and request masks, the halted flag
/// and the master enable with its two delay counters.
///
/// Both masks give bits 0 to 4 the same meaning: V-Blank, LCD status, timer,
/// serial, joypad. Bits 5 to 7 name no interrupt and are never served.
#[derive(Clone, Copy, Debug)]
pub struct Interrupts {
    /// Address 0xFFFF: which interrupts are enabled.
    pub inte: u8,
    /// Address 0xFF0F: which interrupts are requested.
    pub intf: u8,
    pub is_halted: bool,
    /// The master enable. Requests to change it take effect one instruction late.
    pub ime: bool,
    pub disable_ime_counter: u8,
    pub enable_ime_counter: u8,
}

/// One step of a delay counter: 2 becomes 1, anything else becomes 0.
pub open spec fn counter_after_tick(counter: u8) -> u8 {
    if counter == 2 {
        1
    } else {
        0
    }
}

/// The index of the lowest of the five interrupt lines that is set in `lines`,
/// which holds at least one of them.
pub open spec fn highest_priority(lines: u8) -> u8 {
    if lines & 0x01 != 0 {
        VBLANK
    } else if lines & 0x02 != 0 {
        LCD_STATUS
    } else if lines & 0x04 != 0 {
        TIMER
    } else if lines & 0x08 != 0 {
        SERIAL
    } else {
        JOYPAD
    }
}

impl Interrupts {
    /// The interrupt lines that are both enabled and requested.
    pub open spec fn pending(self) -> u8 {
        self.inte & self.intf & LINES
    }

    /// Whether a call of `try_interrupt` serves an interrupt: the master
    /// enable is on or the CPU is halted, and some line is pending.
    pub open spec fn serves(self) -> bool {
        (self.ime || self.is_halted) && self.pending() != 0
    }

    /// The state after the interrupt of index `index` has been taken.
    pub open spec fn after_service(self, index: u8) -> Interrupts {
        Interrupts { is_halted: false, intf: self.intf & !(1u8 << index), ..self }
    }

    /// The state after `try_interrupt`.
    pub open spec fn after_try(self) -> Interrupts {
        if self.serves() {
            self.after_service(highest_priority(self.pending()))
        } else {
            self
        }
    }

    /// The state after one tick of the delay counters. The disable counter is
    /// looked at first, so where both reach zero in one tick the master enable
    /// ends up on.
    pub open spec fn after_tick(self) -> Interrupts {
        Interrupts {
            ime: if self.enable_ime_counter == 1 {
                true
            } else if self.disable_ime_counter == 1 {
                false
            } else {
                self.ime
            },
            disable_ime_counter: counter_after_tick(self.disable_ime_counter),
            enable_ime_counter: counter_after_tick(self.enable_ime_counter),
            ..self
        }
    }

    /// The controller at power-on: nothing enabled, nothing requested, the
    /// master enable on.
    pub open spec fn reset() -> Interrupts {
        Interrupts {
            inte: 0,
            intf: 0,
            is_halted: false,
            ime: true,
            disable_ime_counter: 0,
            enable_ime_counter: 0,
        }
    }

    pub fn new() -> (fresh: Self)
        ensures
            fresh == Self::reset(),
    {
        Self {
            is_halted: false,
            inte: 0,
            intf: 0,
            ime: true,
            disable_ime_counter: 0,
            enable_ime_counter: 0,
        }
    }

    /// Ask for the master enable to go off after the next instruction.
    pub fn disable_ime(&mut self)
        ensures
            *final(self) == (Interrupts { disable_ime_counter: 2, ..*old(self) }),
    {
        self.disable_ime_counter = 2;
    }

    /// Ask for the master enable to go on after `delay` ticks (1 or 2).
    pub fn enable_ime(&mut self, delay: u8)
        ensures
            *final(self) == (Interrupts { enable_ime_counter: delay, ..*old(self) }),
    {
        self.enable_ime_counter = delay;
    }

    /// Called at the start of every CPU step: tick the delay counters down and
    /// apply a change of the master enable whose counter reaches zero.
    pub fn tick_ime_timer(&mut self)
        ensures
            *final(self) == old(self).after_tick(),
    {
        if self.disable_ime_counter == 2 {
            self.disable_ime_counter = 1;
        } else {
            if self.disable_ime_counter == 1 {
                self.ime = false;
            }
            self.disable_ime_counter = 0;
        }
        if self.enable_ime_counter == 2 {
            self.enable_ime_counter = 1;
        } else {
            if self.enable_ime_counter == 1 {
                self.ime = true;
            }
            self.enable_ime_counter = 0;
        }
    }

    /// Take the pending interrupt of highest priority, if one is to be served:
    /// leave the halted state, clear its request bit and return its index.
    pub fn try_interrupt(&mut self) -> (index: Option<u8>)
        ensures
            *final(self) == old(self).after_try(),
            index == (if old(self).serves() {
                Some(highest_priority(old(self).pending()))
            } else {
                None
            }),
            index matches Some(i) ==> i < 5,
    {
        if !self.ime && !self.is_halted {
            return None;
        }
        let active: u8 = self.inte & self.intf & LINES;
        if active == 0 {
            return None;
        }
        self.is_halted = false;
        let flag_index: u8 = if active & 0x01 != 0 {
            VBLANK
        } else if active & 0x02 != 0 {
            LCD_STATUS
        } else if active & 0x04 != 0 {
            TIMER
        } else if active & 0x08 != 0 {
            SERIAL
        } else {
            JOYPAD
        };
        self.intf = self.intf & !(1u8 << flag_index);
        Some(flag_index)
    }
}

/// The lowest set line of a non-empty set of lines is one of the set, none of
/// the set is below it, and it is one of the five.
pub proof fn law_highest_priority_is_the_lowest_line(lines: u8)
    requires
        lines & LINES != 0,
    ensures
        highest_priority(lines & LINES) < 5,
        (lines & LINES) & (1u8 << highest_priority(lines & LINES)) != 0,
        forall|lower: u8|
            lower < highest_priority(lines & LINES) ==> (lines & LINES) & (1u8 << lower) == 0,
{
    let x = lines & LINES;
    assert(x & 0x01 != 0 || x & 0x02 != 0 || x & 0x04 != 0 || x & 0x08 != 0 || x & 0x10 != 0)
        by (bit_vector)
        requires
            x == lines & 0x1F,
            x != 0,
    ;
    assert((1u8 << 0u8) == 1 && (1u8 << 1u8) == 2 && (1u8 << 2u8) == 4 && (1u8 << 3u8) == 8 && (1u8
        << 4u8) == 16) by (bit_vector);
}

/// With the master enable on, V-Blank and timer both pending and LCD status
/// not pending, `try_interrupt` serves V-Blank and clears its request bit
/// alone, and a second call serves the timer.
pub proof fn law_priority_vblank_before_timer(state: Interrupts)
    requires
        state.ime,
        state.pending() & 0x01 != 0,
        state.pending() & 0x04 != 0,
        state.pending() & 0x02 == 0,
    ensures
        state.serves(),
        highest_priority(state.pending()) == VBLANK,
        state.after_try().intf == state.intf & !0x01u8,
        state.after_try().inte == state.inte,
        state.after_try().ime,
        state.after_try().serves(),
        highest_priority(state.after_try().pending()) == TIMER,
        state.after_try().after_try().intf == state.intf & !0x05u8,
{
    let inte = state.inte;
    let intf = state.intf;
    assert((1u8 << 0u8) == 1 && (1u8 << 2u8) == 4) by (bit_vector);
    assert({
        let pending = inte & intf & 0x1F;
        let cleared = intf & !1u8;
        let remaining = inte & cleared & 0x1F;
        &&& pending != 0
        &&& remaining != 0
        &&& remaining & 0x01 == 0
        &&& remaining & 0x02 == 0
        &&& remaining & 0x04 != 0
        &&& cleared & !4u8 == intf & !0x05u8
    }) by (bit_vector)
        requires
            (inte & intf & 0x1F) & 0x01 != 0,
            (inte & intf & 0x1F) & 0x04 != 0,
            (inte & intf & 0x1F) & 0x02 == 0,
    ;
}

/// After a request to disable, with the master enable on and no request to
/// enable under way, the master enable is still on after one tick and off
/// after two.
pub proof fn law_disable_takes_two_ticks(state: Interrupts)
    requires
        state.ime,
        state.enable_ime_counter == 0,
    ensures
        ({
            let requested = Interrupts { disable_ime_counter: 2, ..state };
            &&& requested.after_tick().ime
            &&& !requested.after_tick().after_tick().ime
        }),
{
}

/// After a request to enable with a delay of two, with the master enable off
/// and no request to disable under way, the master enable is still off after
/// one tick and on after two.
pub proof fn law_enable_takes_two_ticks(state: Interrupts)
    requires
        !state.ime,
        state.disable_ime_counter == 0,
    ensures
        ({
            let requested = Interrupts { enable_ime_counter: 2, ..state };
            &&& !requested.after_tick().ime
            &&& requested.after_tick().after_tick().ime
        }),
{
}

} // verus!
