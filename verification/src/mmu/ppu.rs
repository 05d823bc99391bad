//! The registers of the display controller.

use vstd::prelude::*;
use crate::bits::{bit_is_set, is_bit_set};
use crate::fault::Fault;

verus! {

/// Horizontal blank, mode 0 of the display controller.
pub const MODE_HBLANK: u8 = 0;

/// Vertical blank, mode 1.
pub const MODE_VBLANK: u8 = 1;

/// Sprite scan, mode 2.
pub const MODE_SPRITE_SCAN: u8 = 2;

/// Pixel transfer, mode 3.
pub const MODE_PIXEL_TRANSFER: u8 = 3;

/// The registers of the display controller, at 0xFF40 to 0xFF4B.
#[derive(Clone, Copy, Debug)]
pub struct PpuRegisters {
    /// 0xFF41, bit 6: raise a status interrupt when the scanline equals `lyc`.
    pub lyc_int_enable: bool,
    /// 0xFF41, bit 5: raise a status interrupt on entering sprite scan.
    pub mode2_int_enable: bool,
    /// 0xFF41, bit 4: raise a status interrupt on entering vertical blank.
    pub mode1_int_enable: bool,
    /// 0xFF41, bit 3: raise a status interrupt on entering horizontal blank.
    pub mode0_int_enable: bool,
    /// 0xFF42: vertical scroll of the background.
    pub scy: u8,
    /// 0xFF43: horizontal scroll of the background.
    pub scx: u8,
    /// 0xFF44: the current scanline, 0 to 153.
    pub line: u8,
    /// 0xFF47: palette of background and window.
    pub background_palette: u8,
    /// 0xFF48: first sprite palette.
    pub obj_palette_0: u8,
    /// 0xFF49: second sprite palette.
    pub obj_palette_1: u8,
    /// 0xFF4B: horizontal position of the window, plus 7.
    pub win_x: u8,
    /// 0xFF4A: vertical position of the window.
    pub win_y: u8,
    /// 0xFF45: the scanline to compare with.
    pub lyc: u8,
    /// The current mode, 0 to 3.
    pub mode: u8,
    /// 0xFF40, bit 7: the display is powered.
    pub lcd_on: bool,
    /// 0xFF40, bit 6: the window's tile map is at 0x9C00, not 0x9800.
    pub window_tilemap: bool,
    /// 0xFF40, bit 5: the window is drawn.
    pub window_on: bool,
    /// 0xFF40, bit 4: tile data is at 0x8000, not at 0x8800 with signed numbers.
    pub tile_data_table: bool,
    /// 0xFF40, bit 3: the background's tile map is at 0x9C00, not 0x9800.
    pub bg_tilemap: bool,
    /// 0xFF40, bit 2: sprites are 8 by 16, not 8 by 8.
    pub sprite_size: bool,
    /// 0xFF40, bit 1: sprites are drawn.
    pub sprite_on: bool,
    /// 0xFF40, bit 0: background and window are drawn.
    pub window_bg_on: bool,
    /// Set when the display is powered off: the display controller clears the
    /// screen and restarts its accounting at its next step.
    pub clear_screen: bool,
}

impl PpuRegisters {
    /// The addresses that can be read: control, status, scroll, line, compare.
    pub open spec fn maps_read(address: u16) -> bool {
        0xFF40 <= address <= 0xFF45
    }

    /// The addresses that can be written: all but the current line (0xFF44)
    /// and the DMA trigger (0xFF46), which is not a register of this block.
    pub open spec fn maps_write(address: u16) -> bool {
        0xFF40 <= address <= 0xFF4B && address != 0xFF44 && address != 0xFF46
    }

    /// The control byte, 0xFF40.
    pub open spec fn control(self) -> u8 {
        (if self.lcd_on { 0x80u8 } else { 0 }) | (if self.window_tilemap { 0x40u8 } else { 0 })
            | (if self.window_on { 0x20u8 } else { 0 }) | (if self.tile_data_table { 0x10u8 } else { 0 })
            | (if self.bg_tilemap { 0x08u8 } else { 0 }) | (if self.sprite_size { 0x04u8 } else { 0 })
            | (if self.sprite_on { 0x02u8 } else { 0 }) | (if self.window_bg_on { 0x01u8 } else { 0 })
    }

    /// The status byte, 0xFF41: the four interrupt enables, the coincidence
    /// of line and compare value, and the mode.
    pub open spec fn status(self) -> u8 {
        (if self.lyc_int_enable { 0x40u8 } else { 0 }) | (if self.mode2_int_enable { 0x20u8 } else { 0 })
            | (if self.mode1_int_enable { 0x10u8 } else { 0 }) | (if self.mode0_int_enable { 0x08u8 } else { 0 })
            | (if self.line == self.lyc { 0x04u8 } else { 0 }) | self.mode
    }

    /// What a read of a readable address returns.
    pub open spec fn read(self, address: u16) -> u8 {
        if address == 0xFF40 {
            self.control()
        } else if address == 0xFF41 {
            self.status()
        } else if address == 0xFF42 {
            self.scy
        } else if address == 0xFF43 {
            self.scx
        } else if address == 0xFF44 {
            self.line
        } else {
            self.lyc
        }
    }

    /// The registers after a write of the control byte. Powering the display
    /// off resets line and mode to 0 and asks for the screen to be cleared.
    pub open spec fn with_control(self, value: u8) -> PpuRegisters {
        let turned_off = self.lcd_on && !bit_is_set(value, 7);
        PpuRegisters {
            lcd_on: bit_is_set(value, 7),
            window_tilemap: bit_is_set(value, 6),
            window_on: bit_is_set(value, 5),
            tile_data_table: bit_is_set(value, 4),
            bg_tilemap: bit_is_set(value, 3),
            sprite_size: bit_is_set(value, 2),
            sprite_on: bit_is_set(value, 1),
            window_bg_on: bit_is_set(value, 0),
            line: if turned_off { 0 } else { self.line },
            mode: if turned_off { 0 } else { self.mode },
            clear_screen: turned_off || self.clear_screen,
            ..self
        }
    }

    /// The registers after a write to a writable address.
    pub open spec fn written(self, address: u16, value: u8) -> PpuRegisters {
        if address == 0xFF40 {
            self.with_control(value)
        } else if address == 0xFF41 {
            PpuRegisters {
                lyc_int_enable: bit_is_set(value, 6),
                mode2_int_enable: bit_is_set(value, 5),
                mode1_int_enable: bit_is_set(value, 4),
                mode0_int_enable: bit_is_set(value, 3),
                ..self
            }
        } else if address == 0xFF42 {
            PpuRegisters { scy: value, ..self }
        } else if address == 0xFF43 {
            PpuRegisters { scx: value, ..self }
        } else if address == 0xFF45 {
            PpuRegisters { lyc: value, ..self }
        } else if address == 0xFF47 {
            PpuRegisters { background_palette: value, ..self }
        } else if address == 0xFF48 {
            PpuRegisters { obj_palette_0: value, ..self }
        } else if address == 0xFF49 {
            PpuRegisters { obj_palette_1: value, ..self }
        } else if address == 0xFF4A {
            PpuRegisters { win_y: value, ..self }
        } else {
            PpuRegisters { win_x: value, ..self }
        }
    }

    /// Line and mode are as in `before`, unless a reset of the display
    /// controller is pending.
    pub open spec fn keeps_timing_of(self, before: PpuRegisters) -> bool {
        self.clear_screen || (self.line == before.line && self.mode == before.mode)
    }

    /// The registers at power-on: the display is off, everything is zero.
    pub open spec fn reset() -> PpuRegisters {
        PpuRegisters {
            lyc_int_enable: false,
            mode2_int_enable: false,
            mode1_int_enable: false,
            mode0_int_enable: false,
            scy: 0,
            scx: 0,
            line: 0,
            background_palette: 0,
            obj_palette_0: 0,
            obj_palette_1: 0,
            win_x: 0,
            win_y: 0,
            lyc: 0,
            mode: 0,
            lcd_on: false,
            window_tilemap: false,
            window_on: false,
            tile_data_table: false,
            bg_tilemap: false,
            sprite_size: false,
            sprite_on: false,
            window_bg_on: false,
            clear_screen: false,
        }
    }

    pub fn new() -> (fresh: Self)
        ensures
            fresh == Self::reset(),
    {
        Self {
            background_palette: 0,
            bg_tilemap: false,
            lcd_on: false,
            line: 0,
            lyc_int_enable: false,
            mode2_int_enable: false,
            mode1_int_enable: false,
            mode0_int_enable: false,
            lyc: 0,
            mode: 0,
            obj_palette_0: 0,
            obj_palette_1: 0,
            scx: 0,
            scy: 0,
            sprite_on: false,
            sprite_size: false,
            tile_data_table: false,
            win_x: 0,
            win_y: 0,
            window_bg_on: false,
            window_on: false,
            window_tilemap: false,
            clear_screen: false,
        }
    }

    /// Read a register. The palettes and the window position are write-only.
    pub fn rb(&self, address: u16) -> (value: Result<u8, Fault>)
        ensures
            value == (if Self::maps_read(address) {
                Ok::<u8, Fault>(self.read(address))
            } else {
                Err(Fault::UnmappedAccess { address, write: false })
            }),
    {
        match address {
            0xFF40 => Ok(
                (if self.lcd_on { 0x80u8 } else { 0 }) | (if self.window_tilemap { 0x40u8 } else { 0 })
                    | (if self.window_on { 0x20u8 } else { 0 }) | (if self.tile_data_table { 0x10u8 } else { 0 })
                    | (if self.bg_tilemap { 0x08u8 } else { 0 }) | (if self.sprite_size { 0x04u8 } else { 0 })
                    | (if self.sprite_on { 0x02u8 } else { 0 }) | (if self.window_bg_on { 0x01u8 } else { 0 }),
            ),
            0xFF41 => Ok(
                (if self.lyc_int_enable { 0x40u8 } else { 0 }) | (if self.mode2_int_enable { 0x20u8 } else { 0 })
                    | (if self.mode1_int_enable { 0x10u8 } else { 0 }) | (if self.mode0_int_enable { 0x08u8 } else { 0 })
                    | (if self.line == self.lyc { 0x04u8 } else { 0 }) | self.mode,
            ),
            0xFF42 => Ok(self.scy),
            0xFF43 => Ok(self.scx),
            0xFF44 => Ok(self.line),
            0xFF45 => Ok(self.lyc),
            _ => Err(Fault::UnmappedAccess { address, write: false }),
        }
    }

    /// Write the control byte.
    fn write_control(&mut self, value: u8)
        ensures
            *final(self) == old(self).with_control(value),
    {
        let was_lcd_on = self.lcd_on;
        self.lcd_on = is_bit_set(value, 7);
        self.window_tilemap = is_bit_set(value, 6);
        self.window_on = is_bit_set(value, 5);
        self.tile_data_table = is_bit_set(value, 4);
        self.bg_tilemap = is_bit_set(value, 3);
        self.sprite_size = is_bit_set(value, 2);
        self.sprite_on = is_bit_set(value, 1);
        self.window_bg_on = is_bit_set(value, 0);
        if was_lcd_on && !self.lcd_on {
            self.line = 0;
            self.mode = 0;
            self.clear_screen = true;
        }
    }

    /// Write the interrupt enables of the status byte.
    fn write_status(&mut self, value: u8)
        ensures
            *final(self) == old(self).written(0xFF41, value),
    {
        self.lyc_int_enable = is_bit_set(value, 6);
        self.mode2_int_enable = is_bit_set(value, 5);
        self.mode1_int_enable = is_bit_set(value, 4);
        self.mode0_int_enable = is_bit_set(value, 3);
    }

    /// Write a register. The current line cannot be written.
    pub fn wb(&mut self, address: u16, value: u8) -> (done: Result<(), Fault>)
        ensures
            done == (if Self::maps_write(address) {
                Ok::<(), Fault>(())
            } else {
                Err(Fault::UnmappedAccess { address, write: true })
            }),
            *final(self) == (if Self::maps_write(address) {
                old(self).written(address, value)
            } else {
                *old(self)
            }),
    {
        match address {
            0xFF40 => self.write_control(value),
            0xFF41 => self.write_status(value),
            0xFF42 => *self = PpuRegisters { scy: value, ..*self },
            0xFF43 => *self = PpuRegisters { scx: value, ..*self },
            0xFF45 => *self = PpuRegisters { lyc: value, ..*self },
            0xFF47 => *self = PpuRegisters { background_palette: value, ..*self },
            0xFF48 => *self = PpuRegisters { obj_palette_0: value, ..*self },
            0xFF49 => *self = PpuRegisters { obj_palette_1: value, ..*self },
            0xFF4A => *self = PpuRegisters { win_y: value, ..*self },
            0xFF4B => *self = PpuRegisters { win_x: value, ..*self },
            _ => {
                return Err(Fault::UnmappedAccess { address, write: true });
            },
        }
        Ok(())
    }
}

/// No write to the registers moves line or mode, but for a power-off, which
/// leaves a reset pending.
pub proof fn law_writes_keep_line_and_mode(registers: PpuRegisters, address: u16, value: u8)
    ensures
        registers.written(address, value).keeps_timing_of(registers),
        registers.clear_screen ==> registers.written(address, value).clear_screen,
{
}

} // verus!
