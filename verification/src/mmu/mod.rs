//! The address space: which store or register answers at each address.

use vstd::prelude::*;
use vstd::array::spec_array_update;
use crate::bits::zeros;
use crate::cartridge::Cartridge;
use crate::fault::Fault;

pub mod apu;
pub mod bootloader;
pub mod interrupts;
pub mod ppu;
pub mod registers;
pub mod timer;

pub use apu::ApuRegisters;
pub use bootloader::BootLoader;
pub use interrupts::Interrupts;
pub use ppu::PpuRegisters;
pub use timer::TimerRegisters;

verus! {

/// The address space and the CPU registers: everything that the parts of the
/// machine share. Each part gets it by exclusive reference for one step.
pub struct MMU {
    /// 127 bytes of high memory, at 0xFF80 to 0xFFFE.
    pub hram: [u8; 0x7F],
    /// The sprite attribute table, at 0xFE00 to 0xFE9F.
    pub oam: [u8; 0xA0],
    /// 8 KiB of work memory, at 0xC000 to 0xDFFF and again at 0xE000 to 0xFDFF.
    pub sram: [u8; 0x2000],
    /// 8 KiB of video memory, at 0x8000 to 0x9FFF.
    pub vram: [u8; 0x2000],
    pub bootloader: BootLoader,
    pub ppu: PpuRegisters,
    pub apu: ApuRegisters,
    pub timer: TimerRegisters,
    pub cartridge: Cartridge,
    /// The input latch, at 0xFF00.
    pub gamepad: u8,
    pub interrupts: Interrupts,
    pub pc: u16,
    pub sp: u16,
    pub a: u8,
    pub b: u8,
    pub c: u8,
    pub d: u8,
    pub e: u8,
    pub h: u8,
    pub l: u8,
    /// The zero flag, bit 7 of the flag register.
    pub zero: bool,
    /// The subtract flag, bit 6 of the flag register.
    pub subtract: bool,
    /// The half-carry flag, bit 5 of the flag register.
    pub half_carry: bool,
    /// The carry flag, bit 4 of the flag register.
    pub carry: bool,
}

/// A fault, and the machine as the fault leaves it: what had been done when
/// the fault came stays done.
pub struct Failure {
    pub fault: Fault,
    pub machine: MMU,
}

/// The number of bytes that a DMA transfer copies into the sprite table.
pub const DMA_LENGTH: u16 = 0xA0;

/// The fault of a read of an address that nothing handles.
pub open spec fn unmapped_read(address: u16) -> Fault {
    Fault::UnmappedAccess { address, write: false }
}

/// The fault of a write to an address that nothing handles.
pub open spec fn unmapped_write(address: u16) -> Fault {
    Fault::UnmappedAccess { address, write: true }
}

/// The address after `address`; the one after 0xFFFF is 0.
pub open spec fn next_address(address: u16) -> u16 {
    address.wrapping_add(1)
}

impl MMU {
    /// The addresses that can be read. The cartridge's RAM window, 0xFF03,
    /// 0xFF07 to 0xFF0E and 0xFF46 to 0xFF7F cannot.
    pub open spec fn maps_read(address: u16) -> bool {
        ||| address <= 0x9FFF
        ||| 0xC000 <= address <= 0xFF02
        ||| TimerRegisters::maps_read(address)
        ||| address == 0xFF0F
        ||| ApuRegisters::maps_read(address)
        ||| PpuRegisters::maps_read(address)
        ||| 0xFF80 <= address
    }

    /// What a read of a readable address returns.
    pub open spec fn read(self, address: u16) -> u8 {
        if address <= 0xFF && self.bootloader.is_enabled {
            self.bootloader.data@[address as int]
        } else if address <= 0x7FFF {
            self.cartridge.read(address)
        } else if address <= 0x9FFF {
            self.vram@[address - 0x8000]
        } else if address <= 0xBFFF {
            0xFF
        } else if address <= 0xDFFF {
            self.sram@[address - 0xC000]
        } else if address <= 0xFDFF {
            self.sram@[address - 0xE000]
        } else if address <= 0xFE9F {
            self.oam@[address - 0xFE00]
        } else if address <= 0xFEFF {
            0xFF
        } else if address == 0xFF00 {
            self.gamepad
        } else if address == 0xFF0F {
            self.interrupts.intf
        } else if TimerRegisters::maps_read(address) {
            self.timer.read(address)
        } else if PpuRegisters::maps_read(address) {
            self.ppu.read(address)
        } else if 0xFF80 <= address <= 0xFFFE {
            self.hram@[address - 0xFF80]
        } else if address == 0xFFFF {
            self.interrupts.inte
        } else {
            0
        }
    }

    /// The outcome of a read of `address`.
    pub open spec fn load(self, address: u16) -> Result<u8, Fault> {
        if Self::maps_read(address) {
            Ok(self.read(address))
        } else {
            Err(unmapped_read(address))
        }
    }

    /// The outcome of a read of the word at `address`: its low byte is read
    /// first, its high byte from the address after.
    pub open spec fn load_word(self, address: u16) -> Result<u16, Fault> {
        match self.load(address) {
            Err(fault) => Err(fault),
            Ok(low) => match self.load(next_address(address)) {
                Err(fault) => Err(fault),
                Ok(high) => Ok(registers::pair(high, low)),
            },
        }
    }

    /// The addresses that can be written. 0xFF03, 0xFF08 to 0xFF0E, the gaps
    /// of the sound unit, the current line (0xFF44), 0xFF4C to 0xFF4F and
    /// 0xFF51 to 0xFF7E cannot.
    pub open spec fn maps_write(address: u16) -> bool {
        ||| address <= 0xFF02
        ||| TimerRegisters::maps_write(address)
        ||| address == 0xFF0F
        ||| ApuRegisters::maps_write(address)
        ||| PpuRegisters::maps_write(address)
        ||| address == 0xFF46
        ||| address == 0xFF50
        ||| 0xFF7F <= address
    }

    /// The first address of the source of a DMA transfer.
    pub open spec fn dma_base(value: u8) -> u16 {
        (value * 256) as u16
    }

    /// The first of the 160 source addresses of a DMA transfer that cannot be
    /// read, if there is one.
    pub open spec fn dma_fault(value: u8) -> Option<u16> {
        if 0xA0 <= value <= 0xBF {
            Some(Self::dma_base(value))
        } else if value == 0xFF {
            Some(0xFF03u16)
        } else {
            None
        }
    }

    /// The sprite table after the first `count` bytes of a DMA transfer.
    pub open spec fn dma_copy(self, value: u8, count: nat) -> [u8; 0xA0]
        decreases count,
    {
        if count == 0 {
            self.oam
        } else {
            spec_array_update(
                self.dma_copy(value, (count - 1) as nat),
                count - 1,
                self.read((Self::dma_base(value) + count - 1) as u16),
            )
        }
    }

    /// The machine after a write to a writable address, where a DMA transfer
    /// that the write starts can read its source.
    pub open spec fn written(self, address: u16, value: u8) -> MMU {
        if address <= 0x7FFF {
            MMU { cartridge: self.cartridge.written(address, value), ..self }
        } else if address <= 0x9FFF {
            MMU { vram: spec_array_update(self.vram, address - 0x8000, value), ..self }
        } else if address <= 0xBFFF {
            MMU { cartridge: self.cartridge.written(address, value), ..self }
        } else if address <= 0xDFFF {
            MMU { sram: spec_array_update(self.sram, address - 0xC000, value), ..self }
        } else if address <= 0xFDFF {
            MMU { sram: spec_array_update(self.sram, address - 0xE000, value), ..self }
        } else if address <= 0xFE9F {
            MMU { oam: spec_array_update(self.oam, address - 0xFE00, value), ..self }
        } else if address <= 0xFEFF {
            self
        } else if address == 0xFF00 {
            MMU { gamepad: value, ..self }
        } else if address == 0xFF0F {
            MMU { interrupts: Interrupts { intf: value, ..self.interrupts }, ..self }
        } else if TimerRegisters::maps_write(address) {
            MMU { timer: self.timer.written(address, value), ..self }
        } else if ApuRegisters::maps_write(address) {
            MMU { apu: self.apu.written(address, value), ..self }
        } else if address == 0xFF46 {
            MMU { oam: self.dma_copy(value, DMA_LENGTH as nat), ..self }
        } else if PpuRegisters::maps_write(address) {
            MMU { ppu: self.ppu.written(address, value), ..self }
        } else if address == 0xFF50 {
            MMU { bootloader: BootLoader { is_enabled: false, ..self.bootloader }, ..self }
        } else if 0xFF80 <= address <= 0xFFFE {
            MMU { hram: spec_array_update(self.hram, address - 0xFF80, value), ..self }
        } else if address == 0xFFFF {
            MMU { interrupts: Interrupts { inte: value, ..self.interrupts }, ..self }
        } else {
            self
        }
    }

    /// The fault of a write of `value` to `address`, if it has one: the
    /// address cannot be written, or the write starts a DMA transfer whose
    /// source cannot be read.
    pub open spec fn store_fault(address: u16, value: u8) -> Option<Fault> {
        if !Self::maps_write(address) {
            Some(unmapped_write(address))
        } else if address == 0xFF46 && Self::dma_fault(value).is_some() {
            Some(unmapped_read(Self::dma_fault(value).unwrap()))
        } else {
            None
        }
    }

    /// The outcome of a write of `value` to `address`.
    pub open spec fn store(self, address: u16, value: u8) -> Result<MMU, Failure> {
        match Self::store_fault(address, value) {
            Some(fault) => Err(Failure { fault, machine: self }),
            None => Ok(self.written(address, value)),
        }
    }

    /// The outcome of a write of the word `value` at `address`: its low byte
    /// is written first, its high byte to the address after.
    pub open spec fn store_word(self, address: u16, value: u16) -> Result<MMU, Failure> {
        match self.store(address, registers::low_byte(value)) {
            Err(failure) => Err(failure),
            Ok(machine) => machine.store(next_address(address), registers::high_byte(value)),
        }
    }

    /// The outcome of a push of `value`: the stack pointer goes down by two,
    /// then the word is written where it points.
    pub open spec fn pushed(self, value: u16) -> Result<MMU, Failure> {
        let sp = self.sp.wrapping_sub(2);
        (MMU { sp, ..self }).store_word(sp, value)
    }

    /// The outcome of a pop: the word where the stack pointer points, and the
    /// machine with the stack pointer two up.
    pub open spec fn popped(self) -> Result<(u16, MMU), Failure> {
        match self.load_word(self.sp) {
            Err(fault) => Err(Failure { fault, machine: self }),
            Ok(value) => Ok((value, MMU { sp: self.sp.wrapping_add(2), ..self })),
        }
    }

    /// The outcome of the fetch of the byte at the program counter.
    pub open spec fn fetched(self) -> Result<(u8, MMU), Failure> {
        match self.load(self.pc) {
            Err(fault) => Err(Failure { fault, machine: self }),
            Ok(byte) => Ok((byte, MMU { pc: self.pc.wrapping_add(1), ..self })),
        }
    }

    /// The outcome of the fetch of the word at the program counter.
    pub open spec fn fetched_word(self) -> Result<(u16, MMU), Failure> {
        match self.load_word(self.pc) {
            Err(fault) => Err(Failure { fault, machine: self }),
            Ok(word) => Ok((word, MMU { pc: self.pc.wrapping_add(2), ..self })),
        }
    }

    /// The machine after the comparison of the current line with the compare
    /// value: where they are equal and the comparison is enabled, the LCD
    /// status interrupt is requested.
    pub open spec fn after_lyc_check(self) -> MMU {
        if self.ppu.lyc_int_enable && self.ppu.line == self.ppu.lyc {
            self.with_request(0x02)
        } else {
            self
        }
    }

    /// The machine with the display controller in mode `mode`.
    pub open spec fn with_ppu_mode(self, mode: u8) -> MMU {
        MMU { ppu: PpuRegisters { mode, ..self.ppu }, ..self }
    }

    /// The machine with the display controller on scanline `line`.
    pub open spec fn with_ppu_line(self, line: u8) -> MMU {
        MMU { ppu: PpuRegisters { line, ..self.ppu }, ..self }
    }

    /// The machine with the interrupts requested that `lines` holds.
    pub open spec fn with_request(self, lines: u8) -> MMU {
        MMU { interrupts: Interrupts { intf: self.interrupts.intf | lines, ..self.interrupts }, ..self }
    }

    /// The machine with the display controller's registers reset after a
    /// power-off.
    pub open spec fn with_ppu_reset(self) -> MMU {
        MMU { ppu: PpuRegisters { line: 0, mode: 0, clear_screen: false, ..self.ppu }, ..self }
    }

    /// The machine with `value` in the divider.
    pub open spec fn with_divider(self, value: u8) -> MMU {
        MMU { timer: TimerRegisters { divider: value, ..self.timer }, ..self }
    }

    /// The machine with `value` in the programmable counter.
    pub open spec fn with_counter(self, value: u8) -> MMU {
        MMU { timer: TimerRegisters { counter: value, ..self.timer }, ..self }
    }

    /// The machine after one tick of the programmable counter: the counter
    /// is one up, or, where that overflows, reloaded from the modulo, with
    /// the timer interrupt requested.
    pub open spec fn after_counter_tick(self) -> MMU {
        if self.timer.counter == 0xFF {
            self.with_counter(self.timer.modulo).with_request(0x04)
        } else {
            self.with_counter((self.timer.counter + 1) as u8)
        }
    }

    /// Whether the display controller's line and mode are as in `before`,
    /// or a reset of the display controller is pending; and a reset that was
    /// pending in `before` still is. The CPU never changes more than that.
    pub open spec fn keeps_display_timing(self, before: MMU) -> bool {
        &&& self.ppu.keeps_timing_of(before.ppu)
        &&& before.ppu.clear_screen ==> self.ppu.clear_screen
    }

    /// The machine with `length` in the length counter of the second square
    /// voice.
    pub open spec fn with_square2_length(self, length: u8) -> MMU {
        MMU { apu: ApuRegisters { square2_length: length, ..self.apu }, ..self }
    }

    /// The address of the handler of the interrupt of index `index`.
    pub open spec fn vector(index: u8) -> u16 {
        (0x0040 + 8 * index) as u16
    }

    /// The outcome of `try_interrupt`: where an interrupt is served, the
    /// program counter is pushed and replaced by the handler's address, at a
    /// cost of 4 cycles; where none is, nothing changes, at no cost.
    pub open spec fn interrupted(self) -> Result<(u8, MMU), Failure> {
        if self.interrupts.serves() {
            let index = interrupts::highest_priority(self.interrupts.pending());
            let taken = MMU { interrupts: self.interrupts.after_try(), ..self };
            match taken.pushed(self.pc) {
                Err(failure) => Err(failure),
                Ok(machine) => Ok((4u8, MMU { pc: Self::vector(index), ..machine })),
            }
        } else {
            Ok((0u8, self))
        }
    }

    /// The machine at power-on: all memory and every register zero, nothing
    /// pressed on the input latch, the master enable on.
    pub open spec fn power_on(cartridge: Cartridge, bootloader: BootLoader) -> MMU {
        MMU {
            hram: zeros::<0x7F>(),
            oam: zeros::<0xA0>(),
            sram: zeros::<0x2000>(),
            vram: zeros::<0x2000>(),
            bootloader,
            ppu: PpuRegisters::reset(),
            apu: ApuRegisters::reset(),
            timer: TimerRegisters::reset(),
            cartridge,
            gamepad: 0x2F,
            interrupts: Interrupts::reset(),
            pc: 0,
            sp: 0,
            a: 0,
            b: 0,
            c: 0,
            d: 0,
            e: 0,
            h: 0,
            l: 0,
            zero: false,
            subtract: false,
            half_carry: false,
            carry: false,
        }
    }

    /// The machine after the writes to the I/O registers that the boot
    /// program ends with.
    pub open spec fn after_boot_writes(self) -> MMU {
        self.written(0xFF05, 0x00).written(0xFF06, 0x00).written(0xFF07, 0x00).written(
            0xFF10,
            0x80,
        ).written(0xFF11, 0xBF).written(0xFF12, 0xF3).written(0xFF14, 0xBF).written(
            0xFF16,
            0x3F,
        ).written(0xFF17, 0x00).written(0xFF19, 0xBF).written(0xFF1A, 0x7F).written(
            0xFF1B,
            0xFF,
        ).written(0xFF1C, 0x9F).written(0xFF1E, 0xFF).written(0xFF20, 0xFF).written(
            0xFF21,
            0x00,
        ).written(0xFF22, 0x00).written(0xFF23, 0xBF).written(0xFF24, 0x77).written(
            0xFF25,
            0xF3,
        ).written(0xFF26, 0xF1).written(0xFF40, 0x91).written(0xFF42, 0x00).written(
            0xFF43,
            0x00,
        ).written(0xFF45, 0x00).written(0xFF47, 0xFC).written(0xFF48, 0xFF).written(
            0xFF49,
            0xFF,
        ).written(0xFF4A, 0x00).written(0xFF4B, 0x00)
    }

    /// The machine as the boot program leaves it: the I/O registers written,
    /// the CPU registers set, the program counter at the start of the
    /// cartridge's program.
    pub open spec fn after_boot(self) -> MMU {
        MMU {
            a: 0x01,
            b: 0x00,
            c: 0x13,
            d: 0x00,
            e: 0xD8,
            h: 0x01,
            l: 0x4D,
            zero: true,
            subtract: false,
            half_carry: true,
            carry: true,
            pc: 0x0100,
            sp: 0xFFFE,
            ..self.after_boot_writes()
        }
    }

    /// What `new` builds from a cartridge and, where there is one, a boot
    /// program: with one, the machine at power-on; without, the machine as
    /// the boot program would have left it.
    pub open spec fn started(cartridge: Cartridge, boot_rom: Option<[u8; 0x100]>) -> MMU {
        match boot_rom {
            Some(image) => Self::power_on(cartridge, BootLoader { data: image, is_enabled: true }),
            None => Self::power_on(
                cartridge,
                BootLoader { data: zeros::<0x100>(), is_enabled: false },
            ).after_boot(),
        }
    }

    /// Build the machine around a cartridge image, or around an empty
    /// cartridge slot, with or without a boot program. An image whose header
    /// names a bank controller that is not supported is refused.
    pub fn new(cartridge_image: Option<Vec<u8>>, boot_rom: Option<[u8; 0x100]>) -> (machine: Result<
        Self,
        Fault,
    >)
        ensures
            match machine {
                Ok(mmu) => {
                    &&& cartridge_image matches Some(data) ==> crate::cartridge::is_supported(
                        crate::cartridge::header_controller(data@),
                    )
                    &&& Cartridge::loaded(cartridge_image, mmu.cartridge)
                    &&& mmu == Self::started(mmu.cartridge, boot_rom)
                },
                Err(fault) => {
                    &&& cartridge_image matches Some(data)
                    &&& !crate::cartridge::is_supported(crate::cartridge::header_controller(data@))
                    &&& fault == (Fault::UnsupportedCartridge {
                        controller: crate::cartridge::header_controller(data@),
                    })
                },
            },
    {
        let cartridge = Cartridge::new(cartridge_image)?;
        let skip_boot = boot_rom.is_none();
        let mut mmu = Self {
            bootloader: BootLoader::new(boot_rom),
            cartridge,
            ppu: PpuRegisters::new(),
            apu: ApuRegisters::new(),
            interrupts: Interrupts::new(),
            timer: TimerRegisters::new(),
            hram: [0u8; 0x7F],
            oam: [0u8; 0xA0],
            sram: [0u8; 0x2000],
            vram: [0u8; 0x2000],
            gamepad: 0x2F,
            pc: 0,
            sp: 0,
            a: 0,
            b: 0,
            c: 0,
            d: 0,
            e: 0,
            h: 0,
            l: 0,
            zero: false,
            subtract: false,
            half_carry: false,
            carry: false,
        };
        if skip_boot {
            mmu.write_boot_values();
            mmu.set_boot_registers();
        }
        Ok(mmu)
    }

    /// Write to the I/O registers what the boot program leaves in them.
    fn write_boot_values(&mut self)
        ensures
            *final(self) == old(self).after_boot_writes(),
    {
        let _ = self.wb(0xFF05, 0x00);
        let _ = self.wb(0xFF06, 0x00);
        let _ = self.wb(0xFF07, 0x00);
        let _ = self.wb(0xFF10, 0x80);
        let _ = self.wb(0xFF11, 0xBF);
        let _ = self.wb(0xFF12, 0xF3);
        let _ = self.wb(0xFF14, 0xBF);
        let _ = self.wb(0xFF16, 0x3F);
        let _ = self.wb(0xFF17, 0x00);
        let _ = self.wb(0xFF19, 0xBF);
        let _ = self.wb(0xFF1A, 0x7F);
        let _ = self.wb(0xFF1B, 0xFF);
        let _ = self.wb(0xFF1C, 0x9F);
        let _ = self.wb(0xFF1E, 0xFF);
        let _ = self.wb(0xFF20, 0xFF);
        let _ = self.wb(0xFF21, 0x00);
        let _ = self.wb(0xFF22, 0x00);
        let _ = self.wb(0xFF23, 0xBF);
        let _ = self.wb(0xFF24, 0x77);
        let _ = self.wb(0xFF25, 0xF3);
        let _ = self.wb(0xFF26, 0xF1);
        let _ = self.wb(0xFF40, 0x91);
        let _ = self.wb(0xFF42, 0x00);
        let _ = self.wb(0xFF43, 0x00);
        let _ = self.wb(0xFF45, 0x00);
        let _ = self.wb(0xFF47, 0xFC);
        let _ = self.wb(0xFF48, 0xFF);
        let _ = self.wb(0xFF49, 0xFF);
        let _ = self.wb(0xFF4A, 0x00);
        let _ = self.wb(0xFF4B, 0x00);
    }

    /// Set the CPU registers to what the boot program leaves in them.
    fn set_boot_registers(&mut self)
        ensures
            *final(self) == (MMU {
                a: 0x01,
                b: 0x00,
                c: 0x13,
                d: 0x00,
                e: 0xD8,
                h: 0x01,
                l: 0x4D,
                zero: true,
                subtract: false,
                half_carry: true,
                carry: true,
                pc: 0x0100,
                sp: 0xFFFE,
                ..*old(self)
            }),
    {
        self.a = 0x01;
        self.set_f(0xB0);
        self.b = 0x00;
        self.c = 0x13;
        self.d = 0x00;
        self.e = 0xD8;
        self.h = 0x01;
        self.l = 0x4D;
        self.pc = 0x0100;
        self.sp = 0xFFFE;
    }

    fn write_cartridge(&mut self, address: u16, value: u8)
        ensures
            *final(self) == (MMU {
                cartridge: old(self).cartridge.written(address, value),
                ..*old(self)
            }),
    {
        self.cartridge.wb(address, value);
    }

    fn write_vram(&mut self, index: usize, value: u8)
        requires
            index < 0x2000,
        ensures
            *final(self) == (MMU {
                vram: spec_array_update(old(self).vram, index as int, value),
                ..*old(self)
            }),
    {
        self.vram[index] = value;
    }

    fn write_sram(&mut self, index: usize, value: u8)
        requires
            index < 0x2000,
        ensures
            *final(self) == (MMU {
                sram: spec_array_update(old(self).sram, index as int, value),
                ..*old(self)
            }),
    {
        self.sram[index] = value;
    }

    fn write_oam(&mut self, index: usize, value: u8)
        requires
            index < 0xA0,
        ensures
            *final(self) == (MMU {
                oam: spec_array_update(old(self).oam, index as int, value),
                ..*old(self)
            }),
    {
        self.oam[index] = value;
    }

    fn write_hram(&mut self, index: usize, value: u8)
        requires
            index < 0x7F,
        ensures
            *final(self) == (MMU {
                hram: spec_array_update(old(self).hram, index as int, value),
                ..*old(self)
            }),
    {
        self.hram[index] = value;
    }

    fn write_gamepad(&mut self, value: u8)
        ensures
            *final(self) == (MMU { gamepad: value, ..*old(self) }),
    {
        self.gamepad = value;
    }

    fn write_intf(&mut self, value: u8)
        ensures
            *final(self) == (MMU {
                interrupts: Interrupts { intf: value, ..old(self).interrupts },
                ..*old(self)
            }),
    {
        self.interrupts.intf = value;
    }

    fn write_inte(&mut self, value: u8)
        ensures
            *final(self) == (MMU {
                interrupts: Interrupts { inte: value, ..old(self).interrupts },
                ..*old(self)
            }),
    {
        self.interrupts.inte = value;
    }

    fn write_timer(&mut self, address: u16, value: u8)
        requires
            TimerRegisters::maps_write(address),
        ensures
            *final(self) == (MMU { timer: old(self).timer.written(address, value), ..*old(self) }),
    {
        let _ = self.timer.wb(address, value);
    }

    fn write_apu(&mut self, address: u16, value: u8)
        requires
            ApuRegisters::maps_write(address),
        ensures
            *final(self) == (MMU { apu: old(self).apu.written(address, value), ..*old(self) }),
    {
        let _ = self.apu.wb(address, value);
    }

    fn write_ppu(&mut self, address: u16, value: u8)
        requires
            PpuRegisters::maps_write(address),
        ensures
            *final(self) == (MMU { ppu: old(self).ppu.written(address, value), ..*old(self) }),
            final(self).keeps_display_timing(*old(self)),
    {
        let _ = self.ppu.wb(address, value);
    }

    fn disable_bootloader(&mut self)
        ensures
            *final(self) == (MMU {
                bootloader: BootLoader { is_enabled: false, ..old(self).bootloader },
                ..*old(self)
            }),
    {
        self.bootloader.is_enabled = false;
    }

    fn replace_oam(&mut self, table: [u8; 0xA0])
        ensures
            *final(self) == (MMU { oam: table, ..*old(self) }),
    {
        self.oam = table;
    }

    /// Halt the CPU until an interrupt is pending.
    pub fn halt(&mut self)
        ensures
            *final(self) == (MMU {
                interrupts: Interrupts { is_halted: true, ..old(self).interrupts },
                ..*old(self)
            }),
    {
        self.interrupts.is_halted = true;
    }

    /// Ask for the master enable to go off after the next instruction.
    pub fn request_disable(&mut self)
        ensures
            *final(self) == (MMU {
                interrupts: Interrupts { disable_ime_counter: 2, ..old(self).interrupts },
                ..*old(self)
            }),
    {
        self.interrupts.disable_ime();
    }

    /// Ask for the master enable to go on after `delay` ticks.
    pub fn request_enable(&mut self, delay: u8)
        ensures
            *final(self) == (MMU {
                interrupts: Interrupts { enable_ime_counter: delay, ..old(self).interrupts },
                ..*old(self)
            }),
    {
        self.interrupts.enable_ime(delay);
    }

    /// Tick the delay counters of the master enable.
    pub fn tick_ime_timer(&mut self)
        ensures
            *final(self) == (MMU { interrupts: old(self).interrupts.after_tick(), ..*old(self) }),
    {
        self.interrupts.tick_ime_timer();
    }

    /// Set the mode of the display controller.
    pub fn set_ppu_mode(&mut self, mode: u8)
        ensures
            *final(self) == old(self).with_ppu_mode(mode),
    {
        self.ppu.mode = mode;
    }

    /// Set the current scanline.
    pub fn set_ppu_line(&mut self, line: u8)
        ensures
            *final(self) == old(self).with_ppu_line(line),
    {
        self.ppu.line = line;
    }

    /// Request the interrupts that `lines` holds.
    pub fn request_interrupt(&mut self, lines: u8)
        ensures
            *final(self) == old(self).with_request(lines),
    {
        self.interrupts.intf = self.interrupts.intf | lines;
    }

    /// Reset the display controller's registers after a power-off: line and
    /// mode 0, and no reset pending any more.
    pub fn reset_ppu(&mut self)
        ensures
            *final(self) == old(self).with_ppu_reset(),
    {
        self.ppu.line = 0;
        self.ppu.mode = 0;
        self.ppu.clear_screen = false;
    }

    /// Advance the divider by one, 0xFF giving 0.
    pub fn tick_divider(&mut self)
        ensures
            *final(self) == old(self).with_divider(old(self).timer.divider.wrapping_add(1)),
    {
        self.timer.divider = self.timer.divider.wrapping_add(1);
    }

    /// Advance the programmable counter by one. Where it overflows, it is
    /// reloaded from the modulo and the timer interrupt is requested.
    pub fn tick_counter(&mut self)
        ensures
            *final(self) == old(self).after_counter_tick(),
    {
        let next = self.timer.counter.wrapping_add(1);
        if next == 0 {
            self.set_counter(self.timer.modulo);
            self.request_interrupt(0x04);
        } else {
            self.set_counter(next);
        }
    }

    fn set_counter(&mut self, value: u8)
        ensures
            *final(self) == old(self).with_counter(value),
    {
        self.timer.counter = value;
    }

    /// Set the input latch.
    pub fn set_gamepad(&mut self, value: u8)
        ensures
            *final(self) == (MMU { gamepad: value, ..*old(self) }),
    {
        self.gamepad = value;
    }

    /// Set the length counter of the second square voice.
    pub fn set_square2_length(&mut self, length: u8)
        ensures
            *final(self) == old(self).with_square2_length(length),
    {
        self.apu.square2_length = length;
    }

    /// Set the program counter.
    pub fn set_pc(&mut self, value: u16)
        ensures
            *final(self) == (MMU { pc: value, ..*old(self) }),
    {
        self.pc = value;
    }

    /// Set the stack pointer.
    pub fn set_sp(&mut self, value: u16)
        ensures
            *final(self) == (MMU { sp: value, ..*old(self) }),
    {
        self.sp = value;
    }

    /// Read a byte from an address.
    pub fn rb(&self, address: u16) -> (value: Result<u8, Fault>)
        ensures
            value == self.load(address),
    {
        match address {
            0x0000..=0x00FF => {
                if self.bootloader.is_enabled {
                    Ok(self.bootloader.rb(address))
                } else {
                    Ok(self.cartridge.rb(address))
                }
            },
            0x0100..=0x7FFF => Ok(self.cartridge.rb(address)),
            0x8000..=0x9FFF => Ok(self.vram[(address - 0x8000) as usize]),
            0xC000..=0xDFFF => Ok(self.sram[(address - 0xC000) as usize]),
            0xE000..=0xFDFF => Ok(self.sram[(address - 0xE000) as usize]),
            0xFE00..=0xFE9F => Ok(self.oam[(address - 0xFE00) as usize]),
            0xFEA0..=0xFEFF => Ok(0xFF),
            0xFF00 => Ok(self.gamepad),
            0xFF0F => Ok(self.interrupts.intf),
            0xFF01 => Ok(0),
            0xFF02 => Ok(0),
            0xFF04..=0xFF07 => self.timer.rb(address),
            0xFF10..=0xFF3F => self.apu.rb(address),
            0xFF40..=0xFF45 => self.ppu.rb(address),
            0xFF80..=0xFFFE => Ok(self.hram[(address - 0xFF80) as usize]),
            0xFFFF => Ok(self.interrupts.inte),
            _ => Err(Fault::UnmappedAccess { address, write: false }),
        }
    }

    /// Write an 8-bit value to an address. Where the write faults, nothing
    /// has changed.
    pub fn wb(&mut self, address: u16, value: u8) -> (done: Result<(), Fault>)
        ensures
            match old(self).store(address, value) {
                Ok(machine) => done is Ok && *final(self) == machine,
                Err(failure) => done == Err::<(), Fault>(failure.fault) && *final(self)
                    == failure.machine,
            },
            final(self).keeps_display_timing(*old(self)),
    {
        match address {
            0x0000..=0x7FFF => self.write_cartridge(address, value),
            0x8000..=0x9FFF => self.write_vram((address - 0x8000) as usize, value),
            0xA000..=0xBFFF => self.write_cartridge(address, value),
            0xC000..=0xDFFF => self.write_sram((address - 0xC000) as usize, value),
            0xE000..=0xFDFF => self.write_sram((address - 0xE000) as usize, value),
            0xFE00..=0xFE9F => self.write_oam((address - 0xFE00) as usize, value),
            0xFEA0..=0xFEFF => {},
            0xFF00 => self.write_gamepad(value),
            0xFF01 => {},
            0xFF02 => {},
            0xFF04..=0xFF07 => self.write_timer(address, value),
            0xFF0F => self.write_intf(value),
            0xFF10..=0xFF14 | 0xFF16..=0xFF1E | 0xFF20..=0xFF26 | 0xFF30..=0xFF3F => self.write_apu(
                address,
                value,
            ),
            0xFF46 => {
                return self.oam_dma(value);
            },
            0xFF40..=0xFF43 | 0xFF45 | 0xFF47..=0xFF4B => self.write_ppu(address, value),
            0xFF50 => self.disable_bootloader(),
            0xFF7F => {},
            0xFF80..=0xFFFE => self.write_hram((address - 0xFF80) as usize, value),
            0xFFFF => self.write_inte(value),
            _ => {
                return Err(Fault::UnmappedAccess { address, write: true });
            },
        }
        Ok(())
    }

    /// Read a word from an address: the low byte first, the high byte from
    /// the address after.
    pub fn rw(&self, address: u16) -> (value: Result<u16, Fault>)
        ensures
            value == self.load_word(address),
    {
        let lsb = self.rb(address)?;
        let msb = self.rb(address.wrapping_add(1))?;
        Ok(registers::join(msb, lsb))
    }

    /// Write a word to an address: the low byte first, the high byte to the
    /// address after.
    pub fn ww(&mut self, address: u16, value: u16) -> (done: Result<(), Fault>)
        ensures
            match old(self).store_word(address, value) {
                Ok(machine) => done is Ok && *final(self) == machine,
                Err(failure) => done == Err::<(), Fault>(failure.fault) && *final(self)
                    == failure.machine,
            },
            final(self).keeps_display_timing(*old(self)),
    {
        self.wb(address, registers::lower(value))?;
        self.wb(address.wrapping_add(1), registers::upper(value))
    }

    /// Get the byte at the program counter and advance the program counter.
    pub fn get_next_byte(&mut self) -> (byte: Result<u8, Fault>)
        ensures
            match old(self).fetched() {
                Ok((value, machine)) => byte == Ok::<u8, Fault>(value) && *final(self) == machine,
                Err(failure) => byte == Err::<u8, Fault>(failure.fault) && *final(self)
                    == failure.machine,
            },
            final(self).keeps_display_timing(*old(self)),
    {
        let byte = self.rb(self.pc)?;
        self.set_pc(self.pc.wrapping_add(1));
        Ok(byte)
    }

    /// Get the byte at the program counter as a signed number and advance the
    /// program counter.
    pub fn get_signed_byte(&mut self) -> (byte: Result<i8, Fault>)
        ensures
            match old(self).fetched() {
                Ok((value, machine)) => byte == Ok::<i8, Fault>(registers::signed(value))
                    && *final(self) == machine,
                Err(failure) => byte == Err::<i8, Fault>(failure.fault) && *final(self)
                    == failure.machine,
            },
            final(self).keeps_display_timing(*old(self)),
    {
        let byte = self.get_next_byte()?;
        Ok(registers::to_signed(byte))
    }

    /// Get the word at the program counter and advance the program counter
    /// by two.
    pub fn get_next_word(&mut self) -> (word: Result<u16, Fault>)
        ensures
            match old(self).fetched_word() {
                Ok((value, machine)) => word == Ok::<u16, Fault>(value) && *final(self) == machine,
                Err(failure) => word == Err::<u16, Fault>(failure.fault) && *final(self)
                    == failure.machine,
            },
            final(self).keeps_display_timing(*old(self)),
    {
        let word = self.rw(self.pc)?;
        self.set_pc(self.pc.wrapping_add(2));
        Ok(word)
    }

    /// Push a word to the stack, which grows downward.
    pub fn push_stack(&mut self, address: u16) -> (done: Result<(), Fault>)
        ensures
            match old(self).pushed(address) {
                Ok(machine) => done is Ok && *final(self) == machine,
                Err(failure) => done == Err::<(), Fault>(failure.fault) && *final(self)
                    == failure.machine,
            },
            final(self).keeps_display_timing(*old(self)),
    {
        self.set_sp(self.sp.wrapping_sub(2));
        self.ww(self.sp, address)
    }

    /// Pop a word off the stack.
    pub fn pop_stack(&mut self) -> (word: Result<u16, Fault>)
        ensures
            match old(self).popped() {
                Ok((value, machine)) => word == Ok::<u16, Fault>(value) && *final(self) == machine,
                Err(failure) => word == Err::<u16, Fault>(failure.fault) && *final(self)
                    == failure.machine,
            },
            final(self).keeps_display_timing(*old(self)),
    {
        let address = self.rw(self.sp)?;
        self.set_sp(self.sp.wrapping_add(2));
        Ok(address)
    }

    /// Copy 160 bytes, from the address whose high byte is `value` on, into
    /// the sprite table, all at once. Where one of them cannot be read,
    /// nothing is copied.
    pub fn oam_dma(&mut self, value: u8) -> (done: Result<(), Fault>)
        ensures
            match Self::dma_fault(value) {
                None => done is Ok && *final(self) == (MMU {
                    oam: old(self).dma_copy(value, DMA_LENGTH as nat),
                    ..*old(self)
                }),
                Some(address) => done == Err::<(), Fault>(unmapped_read(address)) && *final(self)
                    == *old(self),
            },
            final(self).keeps_display_timing(*old(self)),
    {
        let base: u16 = (value as u16) * 256;
        let mut table = self.oam;
        let mut n: u16 = 0;
        while n < DMA_LENGTH
            invariant
                n <= DMA_LENGTH,
                base == Self::dma_base(value),
                *self == *old(self),
                table == self.dma_copy(value, n as nat),
                n > 0 ==> !(0xA0 <= value <= 0xBF),
                n > 3 ==> value != 0xFF,
            decreases DMA_LENGTH - n,
        {
            match self.rb(base + n) {
                Ok(byte) => {
                    table[n as usize] = byte;
                },
                Err(fault) => {
                    return Err(fault);
                },
            }
            n = n + 1;
        }
        self.replace_oam(table);
        Ok(())
    }

    /// Try to serve an interrupt and return the number of cycles that took:
    /// 4 where one was served, 0 where none was.
    pub fn try_interrupt(&mut self) -> (cycles: Result<u8, Fault>)
        ensures
            match old(self).interrupted() {
                Ok((cost, machine)) => cycles == Ok::<u8, Fault>(cost) && *final(self) == machine,
                Err(failure) => cycles == Err::<u8, Fault>(failure.fault) && *final(self)
                    == failure.machine,
            },
            final(self).keeps_display_timing(*old(self)),
    {
        match self.take_interrupt() {
            None => Ok(0),
            Some(n) => {
                let address: u16 = 0x0040 + 8 * (n as u16);
                self.push_stack(self.pc)?;
                self.set_pc(address);
                Ok(4)
            },
        }
    }

    fn take_interrupt(&mut self) -> (index: Option<u8>)
        ensures
            *final(self) == (MMU { interrupts: old(self).interrupts.after_try(), ..*old(self) }),
            index == (if old(self).interrupts.serves() {
                Some(interrupts::highest_priority(old(self).interrupts.pending()))
            } else {
                None
            }),
            index matches Some(i) ==> i < 5,
            final(self).keeps_display_timing(*old(self)),
    {
        self.interrupts.try_interrupt()
    }

    /// Request the LCD status interrupt where the current line equals the
    /// compare value and that comparison is enabled.
    pub fn check_lyc_interrupt(&mut self)
        ensures
            *final(self) == old(self).after_lyc_check(),
            final(self).keeps_display_timing(*old(self)),
    {
        if self.ppu.lyc_int_enable && self.ppu.line == self.ppu.lyc {
            self.request_interrupt(0x02);
        }
    }
}

/// The addresses behind which plain memory stands: video memory, work memory
/// and its echo, the sprite table and high memory. A byte written there is
/// read back, and nothing else happens.
pub open spec fn is_plain_memory(address: u16) -> bool {
    ||| 0x8000 <= address <= 0x9FFF
    ||| 0xC000 <= address <= 0xFE9F
    ||| 0xFF80 <= address <= 0xFFFE
}

/// Whether two addresses of plain memory name the same byte: they are equal,
/// or one is the echo of the other.
pub open spec fn same_byte(first: u16, second: u16) -> bool {
    ||| first == second
    ||| 0xC000 <= first <= 0xDDFF && second == first + 0x2000
    ||| 0xC000 <= second <= 0xDDFF && first == second + 0x2000
}

/// A byte written to plain memory is read back from there, and a read of any
/// other byte of plain memory returns what it returned before.
pub proof fn law_write_then_read(machine: MMU, address: u16, value: u8, other: u16)
    requires
        is_plain_memory(address),
        is_plain_memory(other),
        !same_byte(address, other),
    ensures
        machine.store(address, value) == Ok::<MMU, Failure>(machine.written(address, value)),
        machine.written(address, value).load(address) == Ok::<u8, Fault>(value),
        machine.written(address, value).load(other) == machine.load(other),
        machine.written(address, value).sp == machine.sp,
        machine.written(address, value).pc == machine.pc,
{
    broadcast use vstd::array::axiom_spec_array_update;

}

/// With plain memory under the stack pointer, a push followed by a pop
/// returns the word that was pushed and leaves the stack pointer where it
/// was, two above where the push put it.
pub proof fn law_stack_round_trip(machine: MMU, word: u16)
    requires
        is_plain_memory(machine.sp.wrapping_sub(2)),
        is_plain_memory(machine.sp.wrapping_sub(1)),
    ensures
        machine.pushed(word) is Ok,
        machine.pushed(word)->Ok_0.sp == machine.sp.wrapping_sub(2),
        machine.pushed(word)->Ok_0.popped() is Ok,
        machine.pushed(word)->Ok_0.popped()->Ok_0.0 == word,
        machine.pushed(word)->Ok_0.popped()->Ok_0.1.sp == machine.sp,
{
    broadcast use vstd::array::axiom_spec_array_update;

    let top = machine.sp.wrapping_sub(2);
    let lowered = MMU { sp: top, ..machine };
    let low = registers::low_byte(word);
    let high = registers::high_byte(word);
    assert(next_address(top) == machine.sp.wrapping_sub(1));
    let first = lowered.written(top, low);
    assert(lowered.store(top, low) == Ok::<MMU, Failure>(first));
    let second = first.written(next_address(top), high);
    assert(first.store(next_address(top), high) == Ok::<MMU, Failure>(second));
    assert(second.load(top) == Ok::<u8, Fault>(low));
    assert(second.load(next_address(top)) == Ok::<u8, Fault>(high));
    assert(registers::pair(high, low) == word);
}

/// With plain memory under the stack pointer, two pushes followed by two
/// pops return the second word and then the first: last in, first out. Each
/// push lowers the stack pointer by two.
pub proof fn law_stack_is_last_in_first_out(machine: MMU, first: u16, second: u16)
    requires
        is_plain_memory(machine.sp.wrapping_sub(4)),
        is_plain_memory(machine.sp.wrapping_sub(3)),
        is_plain_memory(machine.sp.wrapping_sub(2)),
        is_plain_memory(machine.sp.wrapping_sub(1)),
    ensures
        machine.pushed(first) is Ok,
        machine.pushed(first)->Ok_0.sp == machine.sp.wrapping_sub(2),
        machine.pushed(first)->Ok_0.pushed(second) is Ok,
        ({
            let twice = machine.pushed(first)->Ok_0.pushed(second)->Ok_0;
            &&& twice.sp == machine.sp.wrapping_sub(4)
            &&& twice.popped() is Ok
            &&& twice.popped()->Ok_0.0 == second
            &&& twice.popped()->Ok_0.1.popped() is Ok
            &&& twice.popped()->Ok_0.1.popped()->Ok_0.0 == first
            &&& twice.popped()->Ok_0.1.popped()->Ok_0.1.sp == machine.sp
        }),
{
    broadcast use vstd::array::axiom_spec_array_update;

    law_stack_round_trip(machine, first);
    let once = machine.pushed(first)->Ok_0;
    assert(once.sp.wrapping_sub(2) == machine.sp.wrapping_sub(4));
    assert(once.sp.wrapping_sub(1) == machine.sp.wrapping_sub(3));
    law_stack_round_trip(once, second);
    let twice = once.pushed(second)->Ok_0;
    let after = twice.popped()->Ok_0.1;
    assert(after.sp == once.sp);
    // The second push left the first word where it was.
    let a0 = machine.sp.wrapping_sub(2);
    let a1 = machine.sp.wrapping_sub(1);
    let b0 = machine.sp.wrapping_sub(4);
    let b1 = machine.sp.wrapping_sub(3);
    let lowered = MMU { sp: b0, ..once };
    let low = registers::low_byte(second);
    let high = registers::high_byte(second);
    assert(next_address(b0) == b1);
    law_write_then_read(lowered, b0, low, a0);
    law_write_then_read(lowered, b0, low, a1);
    law_write_then_read(lowered.written(b0, low), b1, high, a0);
    law_write_then_read(lowered.written(b0, low), b1, high, a1);
    assert(twice == lowered.written(b0, low).written(b1, high));
    assert(once.popped() is Ok);
    assert(next_address(a0) == a1);
    assert(after.load(a0) == once.load(a0));
    assert(after.load(a1) == once.load(a1));
}

/// The machine that `new` builds has no reset of the display controller
/// pending, and the display controller at line 0 in mode 0.
pub proof fn lemma_started_display_is_in_time(cartridge: Cartridge, boot_rom: Option<[u8; 0x100]>)
    ensures
        !MMU::started(cartridge, boot_rom).ppu.clear_screen,
        MMU::started(cartridge, boot_rom).ppu.line == 0,
        MMU::started(cartridge, boot_rom).ppu.mode == 0,
{
}

/// With a plain cartridge in the slot and the boot program switched off, a
/// read of an address of the cartridge returns the byte of the image there,
/// whatever has been written to the addresses of the cartridge before.
pub proof fn law_plain_cartridge_at_the_bus(machine: MMU, write_to: u16, value: u8, address: u16)
    requires
        machine.cartridge.mbc is Plain,
        !machine.bootloader.is_enabled,
        write_to <= 0x7FFF,
        address <= 0x7FFF,
    ensures
        machine.store(write_to, value) is Ok,
        machine.written(write_to, value).load(address) == Ok::<u8, Fault>(
            crate::cartridge::spec_image_byte(
                machine.cartridge.mbc->Plain_0.data@,
                address as int,
            ),
        ),
        machine.written(write_to, value).load(address) == machine.load(address),
{
}

} // verus!
