//! The cartridge slot: the header of an image and the bank controller that
//! it selects.

use vstd::prelude::*;
use crate::fault::Fault;

pub mod empty;
pub mod mbc0;
pub mod mbc1;

pub use empty::MbcEmpty;
pub use mbc0::Mbc0;
pub use mbc1::{selected_bank, Mbc1};

verus! {

/// Where in the image the header names the bank controller.
pub const HEADER_CONTROLLER: usize = 0x147;

/// The byte of a cartridge image at `index`; 0xFF beyond its end, as on a bus
/// that nothing drives.
pub open spec fn spec_image_byte(image: Seq<u8>, index: int) -> u8 {
    if 0 <= index < image.len() {
        image[index]
    } else {
        0xFF
    }
}

/// The byte of a cartridge image at `index`; 0xFF beyond its end.
pub fn image_byte(image: &Vec<u8>, index: usize) -> (value: u8)
    ensures
        value == spec_image_byte(image@, index as int),
{
    if index < image.len() {
        image[index]
    } else {
        0xFF
    }
}

/// A memory bank controller: what answers reads of the cartridge and takes
/// the writes that select banks. Every access is answered, whatever the
/// address.
pub trait Mbc: Sized {
    /// What a read of `address` returns.
    spec fn read(&self, address: u16) -> u8;

    /// The controller after a write of `value` to `address`.
    spec fn written(&self, address: u16, value: u8) -> Self;

    fn rb(&self, address: u16) -> (value: u8)
        ensures
            value == self.read(address),
    ;

    fn wb(&mut self, address: u16, value: u8)
        ensures
            *final(self) == old(self).written(address, value),
    ;
}

/// The three kinds of what may sit in the cartridge slot.
pub enum Controller {
    Empty(MbcEmpty),
    Plain(Mbc0),
    Banked(Mbc1),
}

/// The cartridge slot and the bank controller in it.
pub struct Cartridge {
    pub mbc: Controller,
}

/// The controller type that the header of `image` names; 0xFF where the
/// image ends before it.
pub open spec fn header_controller(image: Seq<u8>) -> u8 {
    spec_image_byte(image, HEADER_CONTROLLER as int)
}

/// Whether a controller type of the header is supported: 0 is the plain
/// cartridge, 1 to 3 are the bank-switched ones.
pub open spec fn is_supported(controller: u8) -> bool {
    controller <= 0x03
}

impl Cartridge {
    /// What `new` returns for an image, where it returns a cartridge.
    pub open spec fn loaded(image: Option<Vec<u8>>, cartridge: Cartridge) -> bool {
        match image {
            None => cartridge.mbc is Empty,
            Some(data) => if header_controller(data@) == 0 {
                &&& cartridge.mbc matches Controller::Plain(plain)
                &&& plain.data@ == data@
            } else {
                &&& cartridge.mbc matches Controller::Banked(banked)
                &&& banked.data@ == data@
                &&& banked.rom_bank_number == 1
                &&& forall|i: int| 0 <= i < 0x2000 ==> banked.ram@[i] == 0
            },
        }
    }

    /// Put an image in the slot, or leave the slot empty. The header of the
    /// image picks the bank controller; one that names a controller that is
    /// not supported is refused.
    pub fn new(image: Option<Vec<u8>>) -> (slot: Result<Self, Fault>)
        ensures
            match slot {
                Ok(cartridge) => {
                    &&& image matches Some(data) ==> is_supported(header_controller(data@))
                    &&& Self::loaded(image, cartridge)
                },
                Err(fault) => {
                    &&& image matches Some(data)
                    &&& !is_supported(header_controller(data@))
                    &&& fault == (Fault::UnsupportedCartridge {
                        controller: header_controller(data@),
                    })
                },
            },
    {
        match image {
            None => Ok(Self { mbc: Controller::Empty(MbcEmpty::new()) }),
            Some(data) => {
                let controller = image_byte(&data, HEADER_CONTROLLER);
                match controller {
                    0x00 => Ok(Self { mbc: Controller::Plain(Mbc0::new(data)) }),
                    0x01..=0x03 => Ok(Self { mbc: Controller::Banked(Mbc1::new(data)) }),
                    _ => Err(Fault::UnsupportedCartridge { controller }),
                }
            },
        }
    }

    /// What a read of `address` returns.
    pub open spec fn read(self, address: u16) -> u8 {
        match self.mbc {
            Controller::Empty(mbc) => mbc.read(address),
            Controller::Plain(mbc) => mbc.read(address),
            Controller::Banked(mbc) => mbc.read(address),
        }
    }

    /// The cartridge after a write of `value` to `address`.
    pub open spec fn written(self, address: u16, value: u8) -> Cartridge {
        match self.mbc {
            Controller::Empty(mbc) => Cartridge {
                mbc: Controller::Empty(mbc.written(address, value)),
            },
            Controller::Plain(mbc) => Cartridge {
                mbc: Controller::Plain(mbc.written(address, value)),
            },
            Controller::Banked(mbc) => Cartridge {
                mbc: Controller::Banked(mbc.written(address, value)),
            },
        }
    }

    pub fn rb(&self, address: u16) -> (value: u8)
        ensures
            value == self.read(address),
    {
        match &self.mbc {
            Controller::Empty(mbc) => mbc.rb(address),
            Controller::Plain(mbc) => mbc.rb(address),
            Controller::Banked(mbc) => mbc.rb(address),
        }
    }

    /// Write to the cartridge: nothing of the image changes, but a bank
    /// controller may select another bank or store the byte in its RAM.
    pub fn wb(&mut self, address: u16, value: u8)
        ensures
            *final(self) == old(self).written(address, value),
    {
        match &mut self.mbc {
            Controller::Empty(mbc) => mbc.wb(address, value),
            Controller::Plain(mbc) => mbc.wb(address, value),
            Controller::Banked(mbc) => mbc.wb(address, value),
        }
    }
}

/// Where in the image the header holds the title: 15 bytes of ASCII.
pub const HEADER_TITLE: usize = 0x134;

/// The number of bytes of the title.
pub const TITLE_LENGTH: usize = 15;

/// Where in the image the header encodes the size of the ROM.
pub const HEADER_ROM_SIZE: usize = 0x148;

/// What the header of a cartridge image says of it.
pub struct Header {
    /// The 15 bytes of the title.
    pub title: Vec<u8>,
    /// The type of the bank controller.
    pub controller: u8,
    /// The size of the ROM in KiB.
    pub rom_size: u32,
    /// The number of banks of 16 KiB of the ROM.
    pub bank_count: u32,
}

/// The size of a ROM in KiB that the header encodes as `code`: 32 KiB,
/// doubled `code` times.
pub open spec fn rom_size_of(code: u8) -> u32 {
    32u32 << code
}

/// Whether an image has a header that can be read: it reaches beyond the
/// byte that encodes the size of the ROM, and that byte is below 32.
pub open spec fn has_header(image: Seq<u8>) -> bool {
    image.len() > HEADER_ROM_SIZE && image[HEADER_ROM_SIZE as int] < 32
}

/// Read the header of a cartridge image: its title, the type of its bank
/// controller, and the size of its ROM.
pub fn read_header(image: &Vec<u8>) -> (header: Option<Header>)
    ensures
        header.is_some() == has_header(image@),
        header matches Some(found) ==> {
            &&& found.title@ == image@.subrange(
                HEADER_TITLE as int,
                HEADER_TITLE as int + TITLE_LENGTH as int,
            )
            &&& found.controller == image@[HEADER_CONTROLLER as int]
            &&& found.rom_size == rom_size_of(image@[HEADER_ROM_SIZE as int])
            &&& found.bank_count == found.rom_size / 16
        },
{
    if image.len() <= HEADER_ROM_SIZE {
        return None;
    }
    let code = image[HEADER_ROM_SIZE];
    if code >= 32 {
        return None;
    }
    let mut title: Vec<u8> = Vec::new();
    let mut index: usize = 0;
    while index < TITLE_LENGTH
        invariant
            index <= TITLE_LENGTH,
            image@.len() > HEADER_ROM_SIZE,
            title@ == image@.subrange(HEADER_TITLE as int, HEADER_TITLE as int + index as int),
        decreases TITLE_LENGTH - index,
    {
        title.push(image[HEADER_TITLE + index]);
        assert(title@ =~= image@.subrange(HEADER_TITLE as int, HEADER_TITLE as int + index + 1));
        index = index + 1;
    }
    let rom_size: u32 = 32u32 << code;
    Some(Header { title, controller: image[HEADER_CONTROLLER], rom_size, bank_count: rom_size / 16 })
}

/// The sizes that the header encodes: 32 KiB for 0, twice as much for each
/// step up.
pub proof fn law_rom_sizes()
    ensures
        rom_size_of(0) == 32,
        rom_size_of(1) == 64,
        rom_size_of(2) == 128,
        rom_size_of(3) == 256,
        rom_size_of(4) == 512,
        rom_size_of(5) == 1024,
        rom_size_of(6) == 2048,
        rom_size_of(7) == 4096,
        rom_size_of(8) == 8192,
{
    assert(32u32 << 0u8 == 32 && 32u32 << 1u8 == 64 && 32u32 << 2u8 == 128 && 32u32 << 3u8 == 256
        && 32u32 << 4u8 == 512) by (bit_vector);
    assert(32u32 << 5u8 == 1024 && 32u32 << 6u8 == 2048 && 32u32 << 7u8 == 4096 && 32u32 << 8u8
        == 8192) by (bit_vector);
}

/// A plain cartridge returns the byte of its image at 0x4000 whatever has
/// been written to it.
pub proof fn law_plain_cartridge_ignores_writes(
    cartridge: Cartridge,
    address: u16,
    value: u8,
    read_at: u16,
)
    requires
        cartridge.mbc is Plain,
    ensures
        cartridge.written(address, value) == cartridge,
        cartridge.written(address, value).read(read_at) == spec_image_byte(
            cartridge.mbc->Plain_0.data@,
            read_at as int,
        ),
{
}

/// Selecting bank 0 of a bank-switched cartridge selects bank 1, and the
/// selected bank is never 0.
pub proof fn law_bank_zero_selects_bank_one(value: u8)
    ensures
        selected_bank(0) == 1,
        1 <= selected_bank(value) <= 0x1F,
{
    assert(0u8 & 0x1F == 0) by (bit_vector);
    assert(value & 0x1F <= 0x1F) by (bit_vector);
}

} // verus!
