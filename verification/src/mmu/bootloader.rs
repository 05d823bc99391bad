//! The boot program.

use vstd::prelude::*;
use crate::bits::zeros;

verus! {

/// The 256-byte boot program that shadows the start of the cartridge until
/// the program switches it off.
pub struct BootLoader {
    pub data: [u8; 0x100],
    pub is_enabled: bool,
}

impl BootLoader {
    /// A boot loader that holds `rom` and is enabled, or, without one, an
    /// empty boot loader that is disabled.
    pub fn new(rom: Option<[u8; 0x100]>) -> (loader: Self)
        ensures
            loader == (match rom {
                Some(image) => BootLoader { data: image, is_enabled: true },
                None => BootLoader { data: zeros::<0x100>(), is_enabled: false },
            }),
    {
        match rom {
            Some(image) => Self { data: image, is_enabled: true },
            None => Self { data: [0u8; 0x100], is_enabled: false },
        }
    }

    /// The byte of the boot program at `addr`.
    pub fn rb(&self, addr: u16) -> (value: u8)
        requires
            addr < 0x100,
        ensures
            value == self.data@[addr as int],
    {
        self.data[addr as usize]
    }
}

} // verus!
