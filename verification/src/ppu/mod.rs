//! The display controller: its cycle of four modes, and the picture that it
//! draws line by line.

use vstd::prelude::*;
use crate::mmu::ppu::{MODE_HBLANK, MODE_PIXEL_TRANSFER, MODE_SPRITE_SCAN, MODE_VBLANK};
use crate::mmu::{PpuRegisters, MMU};

pub mod render;

pub use render::{
    get_pixel, get_tile_data_address, get_tile_pixel, rendered, with_background, with_sprites,
    with_window, SCREEN_HEIGHT, SCREEN_WIDTH,
};

verus! {

/// The number of pixels of the screen.
pub const PIXELS: usize = 23040;

/// The number of the last scanline; lines 144 to 153 are the vertical blank.
pub const LAST_LINE: u8 = 153;

/// The first scanline of the vertical blank.
pub const FIRST_BLANK_LINE: u8 = 144;

/// The number of cycles of one scanline.
pub const LINE_CYCLES: u16 = 456;

/// The number of cycles of one frame: 154 scanlines.
pub const FRAME_CYCLES: u32 = 70224;

/// The request bit of the V-Blank interrupt.
pub const REQUEST_VBLANK: u8 = 0x01;

/// The request bit of the LCD status interrupt.
pub const REQUEST_STATUS: u8 = 0x02;

/// The display controller: where it is in its cycle of modes, and the
/// picture, one byte of 0 to 3 for each pixel, row by row.
pub struct PPU {
    /// The cycles spent in the current mode.
    pub modeclock: u16,
    pub image_buffer: [u8; 23040],
}

/// What the display controller holds: the cycles spent in the current mode,
/// and the picture.
pub struct Display {
    pub clock: int,
    pub image: Seq<u8>,
}

impl View for PPU {
    type V = Display;

    open spec fn view(&self) -> Display {
        Display { clock: self.modeclock as int, image: self.image_buffer@ }
    }
}

/// The number of cycles that a mode lasts: sprite scan 80, pixel transfer
/// 172, horizontal blank 204, and one line of the vertical blank 456.
pub open spec fn duration(mode: u8) -> int {
    if mode == MODE_SPRITE_SCAN {
        80
    } else if mode == MODE_PIXEL_TRANSFER {
        172
    } else if mode == MODE_HBLANK {
        204
    } else {
        456
    }
}

/// The picture without anything on it.
pub open spec fn blank() -> Seq<u8> {
    Seq::new(PIXELS as nat, |i: int| 0u8)
}

/// Whether every pixel of a picture is one of the four shades.
pub open spec fn is_picture(image: Seq<u8>) -> bool {
    &&& image.len() == PIXELS
    &&& forall|i: int| 0 <= i < PIXELS ==> #[trigger] image[i] <= 3
}

/// Whether the pixel of index `index` is on the current line.
pub open spec fn on_row(m: MMU, index: int) -> bool {
    m.ppu.line * 160 <= index < m.ppu.line * 160 + 160
}

/// The column of a pixel of the current line.
pub open spec fn column(m: MMU, index: int) -> int {
    index - m.ppu.line * 160
}

/// The picture after the background of the current line is drawn.
pub open spec fn background_drawn(image: Seq<u8>, m: MMU) -> Seq<u8> {
    Seq::new(
        image.len(),
        |i: int|
            if on_row(m, i) {
                with_background(m, column(m, i), image[i])
            } else {
                image[i]
            },
    )
}

/// The picture after the window of the current line is drawn.
pub open spec fn window_drawn(image: Seq<u8>, m: MMU) -> Seq<u8> {
    Seq::new(
        image.len(),
        |i: int|
            if on_row(m, i) {
                with_window(m, column(m, i), image[i])
            } else {
                image[i]
            },
    )
}

/// The picture after the sprites of the current line are drawn.
pub open spec fn sprites_drawn(image: Seq<u8>, m: MMU) -> Seq<u8> {
    Seq::new(
        image.len(),
        |i: int|
            if on_row(m, i) {
                with_sprites(m, column(m, i), image[i])
            } else {
                image[i]
            },
    )
}

/// The picture after the current line is drawn: background, then window,
/// then sprites. Nothing is drawn while the display is off.
pub open spec fn drawn(image: Seq<u8>, m: MMU) -> Seq<u8> {
    if m.ppu.lcd_on {
        sprites_drawn(window_drawn(background_drawn(image, m), m), m)
    } else {
        image
    }
}

/// The machine after the LCD status interrupt is requested, where `enabled`.
pub open spec fn status_requested(m: MMU, enabled: bool) -> MMU {
    if enabled {
        m.with_request(REQUEST_STATUS)
    } else {
        m
    }
}

/// The machine after the display controller has entered sprite scan.
pub open spec fn sprite_scan_entered(m: MMU) -> MMU {
    status_requested(m.with_ppu_mode(MODE_SPRITE_SCAN), m.ppu.mode2_int_enable)
}

/// The machine after the display controller has gone on to line `line`: the
/// line is compared with the compare value.
pub open spec fn line_entered(m: MMU, line: u8) -> MMU {
    m.with_ppu_line(line).after_lyc_check()
}

/// The machine after the end of a horizontal blank: the next line begins,
/// with a sprite scan, or, after the last visible line, with the vertical
/// blank and its interrupt.
pub open spec fn after_hblank(m: MMU) -> MMU {
    let next = line_entered(m, (m.ppu.line + 1) as u8);
    if next.ppu.line == FIRST_BLANK_LINE {
        status_requested(
            next.with_ppu_mode(MODE_VBLANK).with_request(REQUEST_VBLANK),
            m.ppu.mode1_int_enable,
        )
    } else {
        sprite_scan_entered(next)
    }
}

/// The machine after the end of a line of the vertical blank: the next line
/// of it begins, or, after the last, line 0 with a sprite scan.
pub open spec fn after_blank_line(m: MMU) -> MMU {
    if m.ppu.line == LAST_LINE {
        sprite_scan_entered(line_entered(m, 0))
    } else {
        line_entered(m, (m.ppu.line + 1) as u8)
    }
}

/// The machine after the end of the current mode.
pub open spec fn mode_ended(m: MMU) -> MMU {
    if m.ppu.mode == MODE_SPRITE_SCAN {
        m.with_ppu_mode(MODE_PIXEL_TRANSFER)
    } else if m.ppu.mode == MODE_PIXEL_TRANSFER {
        status_requested(m.with_ppu_mode(MODE_HBLANK), m.ppu.mode0_int_enable)
    } else if m.ppu.mode == MODE_HBLANK {
        after_hblank(m)
    } else {
        after_blank_line(m)
    }
}

/// The display after the end of the current mode: the cycles of the mode are
/// taken off the clock, and at the end of a pixel transfer the line is drawn.
pub open spec fn display_after_mode(d: Display, m: MMU) -> Display {
    Display {
        clock: d.clock - duration(m.ppu.mode),
        image: if m.ppu.mode == MODE_PIXEL_TRANSFER {
            drawn(d.image, mode_ended(m))
        } else {
            d.image
        },
    }
}

/// Display and machine after every mode has ended whose cycles are on the
/// clock.
pub open spec fn settled(d: Display, m: MMU) -> (Display, MMU)
    decreases d.clock,
{
    if d.clock >= duration(m.ppu.mode) {
        settled(display_after_mode(d, m), mode_ended(m))
    } else {
        (d, m)
    }
}

/// Display and machine after the reset that a power-off leaves pending: the
/// picture is blank, the clock, the line and the mode are 0.
pub open spec fn after_reset(d: Display, m: MMU) -> (Display, MMU) {
    if m.ppu.clear_screen {
        (Display { clock: 0, image: blank() }, m.with_ppu_reset())
    } else {
        (d, m)
    }
}

/// Display and machine after a step of `cycles` cycles: a pending reset is
/// applied first; then, while the display is on, the cycles go on the clock
/// and the modes end that they complete.
pub open spec fn stepped(d: Display, m: MMU, cycles: u8) -> (Display, MMU) {
    let (d1, m1) = after_reset(d, m);
    if m1.ppu.lcd_on {
        settled(Display { clock: d1.clock + cycles, ..d1 }, m1)
    } else {
        (d1, m1)
    }
}

/// Whether line and mode are ones that the display controller can be in:
/// the vertical blank on lines 144 to 153 and on no other.
pub open spec fn in_cycle(registers: PpuRegisters) -> bool {
    &&& registers.mode <= 3
    &&& registers.line <= LAST_LINE
    &&& (registers.mode == MODE_VBLANK <==> registers.line >= FIRST_BLANK_LINE)
}

/// Whether the clock and the registers fit together: line and mode are in
/// the cycle and the mode has not lasted its time yet. Anything fits while a
/// reset is pending.
pub open spec fn in_time(clock: int, registers: PpuRegisters) -> bool {
    registers.clear_screen || (in_cycle(registers) && 0 <= clock < duration(registers.mode))
}

/// How far into the frame the display controller is, in cycles from the
/// start of line 0.
pub open spec fn position(clock: int, registers: PpuRegisters) -> int {
    registers.line * 456 + clock + (if registers.mode == MODE_PIXEL_TRANSFER {
        80int
    } else if registers.mode == MODE_HBLANK {
        252int
    } else {
        0int
    })
}

impl PPU {
    /// Whether the controller is one that `new` and `step` give: its picture
    /// holds shades only.
    pub open spec fn wf(&self) -> bool {
        is_picture(self.image_buffer@)
    }

    /// Whether the controller is well-formed: every pixel of its picture is
    /// one of the four shades.
    pub fn is_wf(&self) -> (fine: bool)
        ensures
            fine == self.wf(),
    {
        let mut index: usize = 0;
        while index < PIXELS
            invariant
                index <= PIXELS,
                forall|i: int| 0 <= i < index ==> #[trigger] self.image_buffer@[i] <= 3,
            decreases PIXELS - index,
        {
            if self.image_buffer[index] > 3 {
                return false;
            }
            index = index + 1;
        }
        true
    }

    /// Whether the clock fits the line and the mode of the registers.
    pub fn is_in_time(&self, registers: &PpuRegisters) -> (fine: bool)
        ensures
            fine == in_time(self.modeclock as int, *registers),
    {
        registers.clear_screen || (registers.mode <= 3 && registers.line <= LAST_LINE && ((
        registers.mode == MODE_VBLANK) == (registers.line >= FIRST_BLANK_LINE)) && self.modeclock
            < Self::mode_cycles(registers.mode))
    }

    /// A display controller with a blank picture, at the start of a mode.
    pub fn new() -> (ppu: Self)
        ensures
            ppu@ == (Display { clock: 0, image: blank() }),
            ppu.wf(),
    {
        let ppu = Self { modeclock: 0, image_buffer: [0u8; 23040] };
        assert(ppu.image_buffer@ =~= blank());
        ppu
    }

    fn draw_pixel(&mut self, line: u8, col: u8, value: u8)
        requires
            line < 144,
            col < 160,
        ensures
            final(self).modeclock == old(self).modeclock,
            final(self).image_buffer@ == old(self).image_buffer@.update(
                line * 160 + col,
                value,
            ),
    {
        self.image_buffer[line as usize * 160 + col as usize] = value;
    }

    fn set_clock(&mut self, clock: u16)
        ensures
            final(self)@ == (Display { clock: clock as int, ..old(self)@ }),
    {
        self.modeclock = clock;
    }

    /// Blank the picture and restart the clock.
    fn clear(&mut self)
        ensures
            final(self)@ == (Display { clock: 0, image: blank() }),
    {
        self.image_buffer = [0u8; 23040];
        self.modeclock = 0;
        assert(self.image_buffer@ =~= blank());
    }

    /// Draw the background of the current line: for each of its 160 pixels,
    /// the pixel of the scrolled scene, through the palette.
    fn draw_background_scanline(&mut self, mmu: &MMU)
        requires
            mmu.ppu.line < 144,
            old(self).wf(),
        ensures
            final(self)@ == (Display {
                image: background_drawn(old(self)@.image, *mmu),
                ..old(self)@
            }),
            final(self).wf(),
    {
        if !mmu.ppu.window_bg_on {
            assert(self.image_buffer@ =~= background_drawn(self.image_buffer@, *mmu));
            return ;
        }
        let line = mmu.ppu.line;
        let mut col: u8 = 0;
        while col < 160
            invariant
                col <= 160,
                line == mmu.ppu.line,
                line < 144,
                mmu.ppu.window_bg_on,
                self.modeclock == old(self).modeclock,
                self.wf(),
                forall|i: int|
                    0 <= i < PIXELS ==> self.image_buffer@[i] == (if line * 160 <= i < line * 160
                        + col {
                        with_background(*mmu, column(*mmu, i), old(self).image_buffer@[i])
                    } else {
                        old(self).image_buffer@[i]
                    }),
            decreases 160 - col,
        {
            let pixel_value = render::get_background_value(mmu, col);
            let color = render::get_shade(mmu.ppu.background_palette, pixel_value);
            self.draw_pixel(line, col, color);
            col = col + 1;
        }
        assert(self.image_buffer@ =~= background_drawn(old(self).image_buffer@, *mmu));
    }

    /// Draw the window of the current line over the background, where the
    /// window is on and has begun.
    fn draw_window_scanline(&mut self, mmu: &MMU)
        requires
            mmu.ppu.line < 144,
            old(self).wf(),
        ensures
            final(self)@ == (Display { image: window_drawn(old(self)@.image, *mmu), ..old(self)@ }),
            final(self).wf(),
    {
        if !mmu.ppu.window_on || mmu.ppu.line < mmu.ppu.win_y {
            assert(self.image_buffer@ =~= window_drawn(self.image_buffer@, *mmu));
            return ;
        }
        let line = mmu.ppu.line;
        let win_y: u8 = line - mmu.ppu.win_y;
        let tilemap_address = if mmu.ppu.window_tilemap {
            render::TILEMAP_1
        } else {
            render::TILEMAP_0
        };
        let mut x: u8 = 0;
        while x < 160
            invariant
                x <= 160,
                line == mmu.ppu.line,
                line < 144,
                mmu.ppu.window_on,
                line >= mmu.ppu.win_y,
                win_y == line - mmu.ppu.win_y,
                tilemap_address == render::window_map(*mmu),
                self.modeclock == old(self).modeclock,
                self.wf(),
                forall|i: int|
                    0 <= i < PIXELS ==> self.image_buffer@[i] == (if line * 160 <= i < line * 160
                        + x {
                        with_window(*mmu, column(*mmu, i), old(self).image_buffer@[i])
                    } else {
                        old(self).image_buffer@[i]
                    }),
            decreases 160 - x,
        {
            let win_x: i16 = x as i16 + 7 - mmu.ppu.win_x as i16;
            if 0 <= win_x && win_x < 160 {
                let pixel = get_tile_pixel(mmu, win_x as u8, win_y, tilemap_address);
                let color = render::get_shade(mmu.ppu.background_palette, pixel);
                self.draw_pixel(line, x, color);
            }
            x = x + 1;
        }
        assert(self.image_buffer@ =~= window_drawn(old(self).image_buffer@, *mmu));
    }

    /// Draw the sprites of the current line over background and window: of
    /// the sprites that the line shows, the first in the table that paints a
    /// pixel shows there.
    fn draw_sprites_scanline(&mut self, mmu: &MMU)
        requires
            mmu.ppu.line < 144,
            old(self).wf(),
        ensures
            final(self)@ == (Display { image: sprites_drawn(old(self)@.image, *mmu), ..old(self)@ }),
            final(self).wf(),
    {
        if !mmu.ppu.sprite_on {
            assert(self.image_buffer@ =~= sprites_drawn(self.image_buffer@, *mmu));
            return ;
        }
        let line = mmu.ppu.line;
        let sprites_to_draw = render::select_sprites(mmu);
        let mut col: u8 = 0;
        while col < 160
            invariant
                col <= 160,
                line == mmu.ppu.line,
                line < 144,
                sprites_to_draw@ == render::selected(*mmu, render::SPRITE_COUNT as int),
                self.modeclock == old(self).modeclock,
                self.wf(),
                old(self).wf(),
                forall|i: int|
                    0 <= i < PIXELS ==> self.image_buffer@[i] == (if line * 160 <= i < line * 160
                        + col {
                        with_sprites(*mmu, column(*mmu, i), old(self).image_buffer@[i])
                    } else {
                        old(self).image_buffer@[i]
                    }),
            decreases 160 - col,
        {
            let under = self.image_buffer[line as usize * 160 + col as usize];
            let color = render::draw_sprites_pixel(mmu, &sprites_to_draw, col, under);
            self.draw_pixel(line, col, color);
            col = col + 1;
        }
        assert(self.image_buffer@ =~= sprites_drawn(old(self).image_buffer@, *mmu));
    }

    /// Draw the current line: background, then window, then sprites.
    fn draw_scanline(&mut self, mmu: &MMU)
        requires
            mmu.ppu.line < 144,
            old(self).wf(),
        ensures
            final(self)@ == (Display { image: drawn(old(self)@.image, *mmu), ..old(self)@ }),
            final(self).wf(),
    {
        if !mmu.ppu.lcd_on {
            return ;
        }
        self.draw_background_scanline(mmu);
        self.draw_window_scanline(mmu);
        self.draw_sprites_scanline(mmu);
    }

    /// End the current mode, whose cycles are on the clock.
    fn end_mode(&mut self, mmu: &mut MMU)
        requires
            old(self).wf(),
            in_cycle(old(mmu).ppu),
            old(self).modeclock >= duration(old(mmu).ppu.mode),
        ensures
            final(self)@ == display_after_mode(old(self)@, *old(mmu)),
            *final(mmu) == mode_ended(*old(mmu)),
            final(self).wf(),
            in_cycle(final(mmu).ppu),
            final(mmu).ppu.lcd_on == old(mmu).ppu.lcd_on,
            final(mmu).ppu.clear_screen == old(mmu).ppu.clear_screen,
    {
        let mode = mmu.ppu.mode;
        if mode == MODE_SPRITE_SCAN {
            self.set_clock(self.modeclock - 80);
            mmu.set_ppu_mode(MODE_PIXEL_TRANSFER);
        } else if mode == MODE_PIXEL_TRANSFER {
            self.set_clock(self.modeclock - 172);
            let raise = mmu.ppu.mode0_int_enable;
            mmu.set_ppu_mode(MODE_HBLANK);
            if raise {
                mmu.request_interrupt(REQUEST_STATUS);
            }
            self.draw_scanline(mmu);
        } else if mode == MODE_HBLANK {
            self.set_clock(self.modeclock - 204);
            let enter_blank = mmu.ppu.mode1_int_enable;
            mmu.set_ppu_line(mmu.ppu.line + 1);
            mmu.check_lyc_interrupt();
            if mmu.ppu.line == FIRST_BLANK_LINE {
                mmu.set_ppu_mode(MODE_VBLANK);
                mmu.request_interrupt(REQUEST_VBLANK);
                if enter_blank {
                    mmu.request_interrupt(REQUEST_STATUS);
                }
            } else {
                Self::enter_sprite_scan(mmu);
            }
        } else {
            self.set_clock(self.modeclock - 456);
            if mmu.ppu.line == LAST_LINE {
                mmu.set_ppu_line(0);
                mmu.check_lyc_interrupt();
                Self::enter_sprite_scan(mmu);
            } else {
                mmu.set_ppu_line(mmu.ppu.line + 1);
                mmu.check_lyc_interrupt();
            }
        }
    }

    fn enter_sprite_scan(mmu: &mut MMU)
        ensures
            *final(mmu) == sprite_scan_entered(*old(mmu)),
    {
        let raise = mmu.ppu.mode2_int_enable;
        mmu.set_ppu_mode(MODE_SPRITE_SCAN);
        if raise {
            mmu.request_interrupt(REQUEST_STATUS);
        }
    }

    /// Apply the reset that a power-off leaves pending.
    fn apply_reset(&mut self, mmu: &mut MMU)
        requires
            old(self).wf(),
        ensures
            (final(self)@, *final(mmu)) == after_reset(old(self)@, *old(mmu)),
            final(self).wf(),
            !final(mmu).ppu.clear_screen,
            final(mmu).ppu.lcd_on == old(mmu).ppu.lcd_on,
    {
        if mmu.ppu.clear_screen {
            self.clear();
            mmu.reset_ppu();
        }
    }

    /// Advance the display controller by the cycles that the CPU has just
    /// spent.
    pub fn step(&mut self, mmu: &mut MMU, cycles: u8)
        requires
            old(self).wf(),
            in_time(old(self).modeclock as int, old(mmu).ppu),
        ensures
            (final(self)@, *final(mmu)) == stepped(old(self)@, *old(mmu), cycles),
            final(self).wf(),
            in_time(final(self).modeclock as int, final(mmu).ppu),
            !final(mmu).ppu.clear_screen,
    {
        self.apply_reset(mmu);
        if !mmu.ppu.lcd_on {
            return ;
        }
        self.set_clock(self.modeclock + cycles as u16);
        let ghost start = (self@, *mmu);
        while self.modeclock >= Self::mode_cycles(mmu.ppu.mode)
            invariant
                self.wf(),
                in_cycle(mmu.ppu),
                !mmu.ppu.clear_screen,
                mmu.ppu.lcd_on,
                self.modeclock < 456 + 256,
                settled(self@, *mmu) == settled(start.0, start.1),
            decreases self.modeclock,
        {
            self.end_mode(mmu);
        }
    }

    /// The number of cycles that a mode lasts.
    fn mode_cycles(mode: u8) -> (cycles: u16)
        ensures
            cycles == duration(mode),
    {
        if mode == MODE_SPRITE_SCAN {
            80
        } else if mode == MODE_PIXEL_TRANSFER {
            172
        } else if mode == MODE_HBLANK {
            204
        } else {
            LINE_CYCLES
        }
    }
}

/// The end of a mode keeps line and mode in the cycle, and keeps the place
/// in the frame, but for the end of the last line, which starts the frame
/// again.
proof fn lemma_mode_ended(d: Display, m: MMU) -> (wraps: bool)
    requires
        in_cycle(m.ppu),
        d.clock >= duration(m.ppu.mode),
    ensures
        in_cycle(mode_ended(m).ppu),
        mode_ended(m).ppu.lcd_on == m.ppu.lcd_on,
        mode_ended(m).ppu.clear_screen == m.ppu.clear_screen,
        display_after_mode(d, m).clock >= 0,
        display_after_mode(d, m).clock < d.clock,
        position(display_after_mode(d, m).clock, mode_ended(m).ppu) == position(d.clock, m.ppu)
            - (if wraps { FRAME_CYCLES as int } else { 0 }),
{
    m.ppu.mode == MODE_VBLANK && m.ppu.line == LAST_LINE
}

/// Settling keeps line and mode in the cycle and leaves the mode short of
/// its time; the place in the frame moves back by whole frames only.
proof fn lemma_settled(d: Display, m: MMU) -> (frames: int)
    requires
        in_cycle(m.ppu),
        d.clock >= 0,
    ensures
        frames >= 0,
        in_cycle(settled(d, m).1.ppu),
        0 <= settled(d, m).0.clock < duration(settled(d, m).1.ppu.mode),
        settled(d, m).1.ppu.lcd_on == m.ppu.lcd_on,
        settled(d, m).1.ppu.clear_screen == m.ppu.clear_screen,
        position(settled(d, m).0.clock, settled(d, m).1.ppu) == position(d.clock, m.ppu) - frames
            * FRAME_CYCLES,
    decreases d.clock,
{
    if d.clock >= duration(m.ppu.mode) {
        let wraps = lemma_mode_ended(d, m);
        let more = lemma_settled(display_after_mode(d, m), mode_ended(m));
        if wraps {
            more + 1
        } else {
            more
        }
    } else {
        0
    }
}

/// While the display is on and no reset is pending, a step moves the
/// display controller on in the frame by exactly its cycles, around the end
/// of the frame; the display stays on and no reset comes to be pending.
pub proof fn law_step_advances_position(d: Display, m: MMU, cycles: u8)
    requires
        in_time(d.clock, m.ppu),
        !m.ppu.clear_screen,
        m.ppu.lcd_on,
    ensures
        in_time(stepped(d, m, cycles).0.clock, stepped(d, m, cycles).1.ppu),
        !stepped(d, m, cycles).1.ppu.clear_screen,
        stepped(d, m, cycles).1.ppu.lcd_on,
        position(stepped(d, m, cycles).0.clock, stepped(d, m, cycles).1.ppu) == (position(
            d.clock,
            m.ppu,
        ) + cycles) % (FRAME_CYCLES as int),
{
    let begun = Display { clock: d.clock + cycles, ..d };
    let frames = lemma_settled(begun, m);
    let before = position(d.clock, m.ppu) + cycles;
    let after = position(settled(begun, m).0.clock, settled(begun, m).1.ppu);
    assert(0 <= after < 70224);
    assert(after == before % 70224) by (nonlinear_arith)
        requires
            0 <= after < 70224,
            after == before - frames * 70224,
    ;
}

/// The place in the frame tells line, mode and clock.
pub proof fn law_position_tells_the_state(clock: int, registers: PpuRegisters, other_clock: int, other: PpuRegisters)
    requires
        in_cycle(registers),
        0 <= clock < duration(registers.mode),
        in_cycle(other),
        0 <= other_clock < duration(other.mode),
        position(clock, registers) == position(other_clock, other),
    ensures
        registers.line == other.line,
        registers.mode == other.mode,
        clock == other_clock,
{
}

/// The sum of the cycles of a sequence of steps.
pub open spec fn total(chunks: Seq<u8>) -> int
    decreases chunks.len(),
{
    if chunks.len() == 0 {
        0
    } else {
        chunks[0] + total(chunks.drop_first())
    }
}

/// Display and machine after a sequence of steps of the display controller,
/// one for each number of cycles in `chunks`.
pub open spec fn ran(d: Display, m: MMU, chunks: Seq<u8>) -> (Display, MMU)
    decreases chunks.len(),
{
    if chunks.len() == 0 {
        (d, m)
    } else {
        ran(stepped(d, m, chunks[0]).0, stepped(d, m, chunks[0]).1, chunks.drop_first())
    }
}

/// While the display is on and no reset is pending, steps move the display
/// controller on in the frame by the sum of their cycles, however the cycles
/// are spread over the steps.
pub proof fn law_steps_advance_position(d: Display, m: MMU, chunks: Seq<u8>)
    requires
        in_time(d.clock, m.ppu),
        !m.ppu.clear_screen,
        m.ppu.lcd_on,
    ensures
        in_time(ran(d, m, chunks).0.clock, ran(d, m, chunks).1.ppu),
        !ran(d, m, chunks).1.ppu.clear_screen,
        ran(d, m, chunks).1.ppu.lcd_on,
        position(ran(d, m, chunks).0.clock, ran(d, m, chunks).1.ppu) == (position(d.clock, m.ppu)
            + total(chunks)) % (FRAME_CYCLES as int),
        total(chunks) >= 0,
    decreases chunks.len(),
{
    if chunks.len() == 0 {
        assert(0 <= position(d.clock, m.ppu) < 70224);
    } else {
        law_step_advances_position(d, m, chunks[0]);
        let next = stepped(d, m, chunks[0]);
        law_steps_advance_position(next.0, next.1, chunks.drop_first());
        let start = position(d.clock, m.ppu);
        let first = chunks[0] as int;
        let rest = total(chunks.drop_first());
        assert(((start + first) % 70224 + rest) % 70224 == (start + first + rest) % 70224) by {
            vstd::arithmetic::div_mod::lemma_add_mod_noop(start + first, rest, 70224);
            vstd::arithmetic::div_mod::lemma_add_mod_noop(
                (start + first) % 70224,
                rest,
                70224,
            );
            vstd::arithmetic::div_mod::lemma_mod_twice(start + first, 70224);
        }
    }
}

/// With the display on, at the start of the sprite scan of line 0, steps of
/// 456 cycles in all, 80 and 172 and 204, leave the display controller at
/// the start of the sprite scan of line 1.
pub proof fn law_scanline_takes_456_cycles(d: Display, m: MMU, chunks: Seq<u8>)
    requires
        m.ppu.lcd_on,
        !m.ppu.clear_screen,
        m.ppu.line == 0,
        m.ppu.mode == MODE_SPRITE_SCAN,
        d.clock == 0,
        total(chunks) == 80 + 172 + 204,
    ensures
        ran(d, m, chunks).1.ppu.line == 1,
        ran(d, m, chunks).1.ppu.mode == MODE_SPRITE_SCAN,
        ran(d, m, chunks).0.clock == 0,
{
    law_steps_advance_position(d, m, chunks);
}

/// Fewer cycles than those of a whole line leave the display controller on
/// the line it was on at the start of a sprite scan.
pub proof fn law_line_stays_for_fewer_cycles(d: Display, m: MMU, chunks: Seq<u8>)
    requires
        m.ppu.lcd_on,
        !m.ppu.clear_screen,
        m.ppu.line < FIRST_BLANK_LINE,
        m.ppu.mode == MODE_SPRITE_SCAN,
        d.clock == 0,
        total(chunks) < 456,
    ensures
        ran(d, m, chunks).1.ppu.line == m.ppu.line,
{
    law_steps_advance_position(d, m, chunks);
}

/// Every pixel of the current line of the drawn picture is what background,
/// window and sprites make of the pixel that was there, and every other
/// pixel is what it was.
pub proof fn law_drawn_pixels(image: Seq<u8>, m: MMU, index: int)
    requires
        m.ppu.lcd_on,
        0 <= index < image.len(),
    ensures
        drawn(image, m).len() == image.len(),
        drawn(image, m)[index] == (if on_row(m, index) {
            rendered(m, column(m, index), image[index])
        } else {
            image[index]
        }),
{
}

} // verus!
