//! A verified core for the DMG-01 handheld: address space, cartridge bank
//! controllers, interrupt controller, timer, display controller and the
//! instruction-executing CPU.

pub mod alu;
pub mod apu;
pub mod bits;
pub mod cartridge;
pub mod cpu;
pub mod debug;
pub mod emulator;
pub mod fault;
pub mod gamepad;
pub mod mmu;
pub mod opcode;
pub mod ppu;
pub mod screen;
pub mod text;
pub mod timer;

pub use apu::APU;
pub use cartridge::Cartridge;
pub use cpu::CPU;
pub use emulator::Emulator;
pub use fault::Fault;
pub use gamepad::Gamepad;
pub use mmu::MMU;
pub use opcode::OpCodes;
pub use ppu::PPU;
pub use timer::Timer;
