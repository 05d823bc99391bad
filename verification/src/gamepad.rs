//! The eight keys and the input latch that shows them.

use vstd::prelude::*;
use crate::mmu::MMU;

verus! {

/// The select bit of the buttons in the input latch: 0 selects them.
pub const SELECT_BUTTONS: u8 = 0x20;

/// The select bit of the direction keys in the input latch: 0 selects them.
pub const SELECT_DPAD: u8 = 0x10;

/// The state of the eight keys, as two rows of four bits in which 0 means
/// pressed.
pub struct Gamepad {
    /// A, B, Select, Start in bits 0 to 3.
    pub button_state: u8,
    /// Right, Left, Up, Down in bits 0 to 3.
    pub dpad_state: u8,
}

/// The row of four keys: bit n is 1 where key n is not pressed.
pub open spec fn row(first: bool, second: bool, third: bool, fourth: bool) -> u8 {
    ((if first { 0int } else { 1 }) + (if second { 0int } else { 2 }) + (if third {
        0int
    } else {
        4
    }) + (if fourth { 0int } else { 8 })) as u8
}

/// What the input latch shows of the two rows: the row that its select bits
/// select, and a key as pressed that is pressed in either row where they
/// select both. Where they select none, it shows the direction keys.
pub open spec fn shown(latch: u8, buttons: u8, dpad: u8) -> u8 {
    if latch & SELECT_BUTTONS == 0 && latch & SELECT_DPAD == 0 {
        buttons & dpad
    } else if latch & SELECT_BUTTONS == 0 {
        buttons
    } else {
        dpad
    }
}

impl Gamepad {
    /// A gamepad on which nothing is pressed.
    pub fn new() -> (gamepad: Self)
        ensures
            gamepad == (Gamepad { button_state: 0xF, dpad_state: 0xF }),
    {
        Self { button_state: 0xF, dpad_state: 0xF }
    }

    /// Assemble a row of four bits from the four keys that begin at `first`.
    /// A key that is pressed gives a 0.
    pub fn parse_row(keys: &[bool; 8], first: usize) -> (bits: u8)
        requires
            first + 4 <= 8,
        ensures
            bits == row(
                keys@[first as int],
                keys@[first + 1],
                keys@[first + 2],
                keys@[first + 3],
            ),
    {
        let mut bits: u8 = 0;
        let mut weight: u8 = 1;
        let mut n: usize = 0;
        while n < 4
            invariant
                n <= 4,
                first + 4 <= 8,
                weight == (if n == 0 {
                    1int
                } else if n == 1 {
                    2
                } else if n == 2 {
                    4
                } else if n == 3 {
                    8
                } else {
                    16
                }),
                bits == (if n >= 1 && !keys@[first as int] { 1int } else { 0 }) + (if n >= 2
                    && !keys@[first + 1] { 2int } else { 0 }) + (if n >= 3 && !keys@[first + 2] {
                    4int
                } else {
                    0
                }) + (if n >= 4 && !keys@[first + 3] { 8int } else { 0 }),
            decreases 4 - n,
        {
            if !keys[first + n] {
                bits = bits + weight;
            }
            weight = weight * 2;
            n = n + 1;
        }
        bits
    }

    /// Take the state of the eight keys, in the order Right, Left, Up, Down,
    /// A, B, Select, Start; true means pressed.
    pub fn update_state(&mut self, new_state: [bool; 8])
        ensures
            *final(self) == (Gamepad {
                button_state: row(new_state@[4], new_state@[5], new_state@[6], new_state@[7]),
                dpad_state: row(new_state@[0], new_state@[1], new_state@[2], new_state@[3]),
            }),
    {
        self.button_state = Self::parse_row(&new_state, 4);
        self.dpad_state = Self::parse_row(&new_state, 0);
    }

    /// The machine after the selected row is shown in the input latch: the
    /// bits of the row that are 1 are set there.
    pub open spec fn latched(self, m: MMU) -> MMU {
        MMU { gamepad: m.gamepad | shown(m.gamepad, self.button_state, self.dpad_state), ..m }
    }

    /// Show the selected row in the input latch.
    pub fn step(&self, mmu: &mut MMU)
        ensures
            *final(mmu) == self.latched(*old(mmu)),
    {
        let read_buttons = mmu.gamepad & SELECT_BUTTONS;
        let read_dpad = mmu.gamepad & SELECT_DPAD;
        let state: u8 = if read_buttons == 0 && read_dpad == 0 {
            self.button_state & self.dpad_state
        } else if read_buttons == 0 {
            self.button_state
        } else {
            self.dpad_state
        };
        mmu.set_gamepad(mmu.gamepad | state);
    }
}

/// Whether `code` is among the codes of the keys that are held down.
pub fn is_pressed(pressed: &Vec<i32>, code: i32) -> (held: bool)
    ensures
        held == pressed@.contains(code),
{
    let mut index: usize = 0;
    while index < pressed.len()
        invariant
            index <= pressed@.len(),
            forall|i: int| 0 <= i < index ==> pressed@[i] != code,
        decreases pressed@.len() - index,
    {
        if pressed[index] == code {
            return true;
        }
        index = index + 1;
    }
    false
}

/// The state of the eight keys of the gamepad, given the codes of the keys
/// of the host that are held down and the code that is bound to each of the
/// eight: a key of the gamepad is pressed while the key bound to it is held.
pub fn key_states(pressed: &Vec<i32>, bindings: &[i32; 8]) -> (states: [bool; 8])
    ensures
        forall|key: int| 0 <= key < 8 ==> states@[key] == pressed@.contains(#[trigger] bindings@[key]),
{
    let mut states = [false; 8];
    let mut key: usize = 0;
    while key < 8
        invariant
            key <= 8,
            forall|k: int| 0 <= k < key ==> states@[k] == pressed@.contains(#[trigger] bindings@[k]),
        decreases 8 - key,
    {
        states[key] = is_pressed(pressed, bindings[key]);
        key = key + 1;
    }
    states
}

} // verus!
