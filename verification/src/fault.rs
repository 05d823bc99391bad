//! The fatal conditions of the core.

use vstd::prelude::*;

verus! {

/// The fatal conditions of the core. None of them is recoverable in the
/// middle of an instruction: the caller stops the machine.
#[derive(Clone, Copy, Debug, PartialEq, Eq, Structural)]
pub enum Fault {
    /// An address that no store or register handles was read or written.
    UnmappedAccess { address: u16, write: bool },
    /// The fetched opcode has no dispatch entry, or no entry in the cycle table.
    UnimplementedOpcode { opcode: u8, prefixed: bool, address: u16 },
    /// The cartridge header names a bank controller that is not supported.
    UnsupportedCartridge { controller: u8 },
}

} // verus!
