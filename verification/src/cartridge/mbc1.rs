//! The cartridge with bank switching.

use vstd::prelude::*;
use vstd::array::spec_array_update;
use crate::cartridge::{image_byte, spec_image_byte, Mbc};

verus! {

/// The size of one ROM bank.
pub const BANK_SIZE: usize = 0x4000;

/// A cartridge with bank switching: the first bank is read at 0x0000 to
/// 0x3FFF, the selected bank at 0x4000 to 0x7FFF, and 8 KiB of RAM at 0xA000
/// to 0xBFFF.
pub struct Mbc1 {
    pub data: Vec<u8>,
    pub ram: [u8; 0x2000],
    /// The 5-bit bank select register. It never holds 0.
    pub rom_bank_number: u8,
}

/// What a write of `value` to the bank select register selects: its low five
/// bits, and bank 1 where they are all zero.
pub open spec fn selected_bank(value: u8) -> u8 {
    if value & 0x1F == 0 {
        1
    } else {
        value & 0x1F
    }
}

impl Mbc1 {
    pub fn new(data: Vec<u8>) -> (controller: Self)
        ensures
            controller.data@ == data@,
            controller.rom_bank_number == 1,
            forall|i: int| 0 <= i < 0x2000 ==> controller.ram@[i] == 0,
    {
        Self { data, ram: [0u8; 0x2000], rom_bank_number: 0x01 }
    }

    /// Select a ROM bank.
    fn select_bank(&mut self, value: u8)
        ensures
            *final(self) == (Mbc1 { rom_bank_number: selected_bank(value), ..*old(self) }),
    {
        let bank: u8 = value & 0x1F;
        self.rom_bank_number = if bank == 0 { 1 } else { bank };
    }

    /// Write a byte of the cartridge's RAM.
    fn write_ram(&mut self, index: usize, value: u8)
        requires
            index < 0x2000,
        ensures
            *final(self) == (Mbc1 {
                ram: spec_array_update(old(self).ram, index as int, value),
                ..*old(self)
            }),
    {
        self.ram[index] = value;
    }
}

impl Mbc for Mbc1 {
    open spec fn read(&self, address: u16) -> u8 {
        if address <= 0x3FFF {
            spec_image_byte(self.data@, address as int)
        } else if address <= 0x7FFF {
            spec_image_byte(self.data@, (address - 0x4000) + 0x4000 * self.rom_bank_number)
        } else if 0xA000 <= address <= 0xBFFF {
            self.ram@[address - 0xA000]
        } else {
            0xFF
        }
    }

    open spec fn written(&self, address: u16, value: u8) -> Self {
        if 0x2000 <= address <= 0x3FFF {
            Mbc1 { rom_bank_number: selected_bank(value), ..*self }
        } else if 0xA000 <= address <= 0xBFFF {
            Mbc1 { ram: spec_array_update(self.ram, address - 0xA000, value), ..*self }
        } else {
            *self
        }
    }

    fn rb(&self, address: u16) -> (value: u8) {
        match address {
            0x0000..=0x3FFF => image_byte(&self.data, address as usize),
            0x4000..=0x7FFF => {
                let offset: usize = BANK_SIZE * self.rom_bank_number as usize;
                image_byte(&self.data, (address as usize - 0x4000) + offset)
            },
            0xA000..=0xBFFF => self.ram[(address - 0xA000) as usize],
            _ => 0xFF,
        }
    }

    fn wb(&mut self, address: u16, value: u8) {
        match address {
            0x2000..=0x3FFF => self.select_bank(value),
            0xA000..=0xBFFF => self.write_ram((address - 0xA000) as usize, value),
            _ => {},
        }
    }
}

} // verus!
