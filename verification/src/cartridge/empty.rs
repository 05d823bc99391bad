//! The empty cartridge slot.

use vstd::prelude::*;
use crate::cartridge::Mbc;

verus! {

/// The empty cartridge slot: every read returns 0xFF, every write is ignored.
#[derive(Clone, Copy, Debug)]
pub struct MbcEmpty {}

impl MbcEmpty {
    pub fn new() -> (slot: Self) {
        Self {  }
    }
}

impl Mbc for MbcEmpty {
    open spec fn read(&self, address: u16) -> u8 {
        0xFF
    }

    open spec fn written(&self, address: u16, value: u8) -> Self {
        *self
    }

    fn rb(&self, address: u16) -> (value: u8) {
        0xFF
    }

    fn wb(&mut self, address: u16, value: u8) {
    }
}

} // verus!
