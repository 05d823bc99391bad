//! The cartridge without bank switching.

use vstd::prelude::*;
use crate::cartridge::{image_byte, spec_image_byte, Mbc};

verus! {

/// A cartridge without bank switching: the image is read at the address
/// itself, and writes are ignored.
pub struct Mbc0 {
    pub data: Vec<u8>,
}

impl Mbc0 {
    pub fn new(data: Vec<u8>) -> (controller: Self)
        ensures
            controller.data@ == data@,
    {
        Self { data }
    }
}

impl Mbc for Mbc0 {
    open spec fn read(&self, address: u16) -> u8 {
        spec_image_byte(self.data@, address as int)
    }

    open spec fn written(&self, address: u16, value: u8) -> Self {
        *self
    }

    fn rb(&self, address: u16) -> (value: u8) {
        image_byte(&self.data, address as usize)
    }

    fn wb(&mut self, address: u16, value: u8) {
    }
}

} // verus!
