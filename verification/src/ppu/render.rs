//! What a pixel of a scanline shows: background, window and sprites.

use vstd::prelude::*;
use crate::bits::{bit_is_set, is_bit_set};
use crate::mmu::MMU;

verus! {

/// The width of the screen in pixels.
pub const SCREEN_WIDTH: usize = 160;

/// The height of the screen in pixels.
pub const SCREEN_HEIGHT: usize = 144;

/// The number of entries of the sprite table.
pub const SPRITE_COUNT: u8 = 40;

/// The number of sprites that one scanline shows at most.
pub const SPRITES_PER_LINE: usize = 10;

/// Where the first tile map stands in memory; the second stands at 0x9C00.
pub const TILEMAP_0: u16 = 0x9800;

/// Where the second tile map stands in memory.
pub const TILEMAP_1: u16 = 0x9C00;

/// Where the tile data stand that are numbered from 0 to 255; those numbered
/// from -128 to 127 stand at 0x8800.
pub const TILEDATA_0: u16 = 0x8000;

/// Where the tile data stand that are numbered from -128 to 127.
pub const TILEDATA_1: u16 = 0x8800;

/// The address of the 16 bytes of a tile. From the base 0x8800 the tile
/// number counts as signed, so that tile 0 stands at 0x9000; from any other
/// base it counts as unsigned.
pub open spec fn tile_data_address(base_address: u16, tile_number: u8) -> int {
    if base_address == TILEDATA_1 {
        if tile_number < 128 {
            base_address + (tile_number + 128) * 16
        } else {
            base_address + (tile_number - 128) * 16
        }
    } else {
        base_address + tile_number * 16
    }
}

/// The colour index, 0 to 3, of pixel `pixel_num` of a row of a tile. A row
/// is two bytes; the pixel's low bit is in the first and its high bit in the
/// second, the leftmost pixel in bit 7.
pub open spec fn pixel(tile_lower: u8, tile_upper: u8, pixel_num: u8) -> u8 {
    ((if bit_is_set(tile_upper, (7 - pixel_num) as u8) { 2int } else { 0 }) + (if bit_is_set(
        tile_lower,
        (7 - pixel_num) as u8,
    ) { 1int } else { 0 })) as u8
}

/// The shade that a palette gives a colour index: two bits of the palette.
pub open spec fn shade(palette: u8, value: u8) -> u8 {
    (palette >> ((value * 2) as u8)) & 0x3
}

/// The byte of video memory at `address`, which lies in video memory.
pub open spec fn video(m: MMU, address: int) -> u8 {
    m.vram@[address - 0x8000]
}

/// The colour index of the pixel at (`x`, `y`) of the 256 by 256 scene that
/// a tile map describes: the map names the tile, the tile data hold its rows.
pub open spec fn tile_pixel(m: MMU, x: u8, y: u8, tilemap_address: u16) -> u8 {
    let tile_number = (y / 8) * 32 + x / 8;
    let tile_data_number = video(m, tilemap_address + tile_number);
    let base = if m.ppu.tile_data_table { TILEDATA_0 } else { TILEDATA_1 };
    let row = tile_data_address(base, tile_data_number) + (y % 8) * 2;
    pixel(video(m, row), video(m, row + 1), x % 8)
}

/// The tile map of the background.
pub open spec fn background_map(m: MMU) -> u16 {
    if m.ppu.bg_tilemap {
        TILEMAP_1
    } else {
        TILEMAP_0
    }
}

/// The tile map of the window.
pub open spec fn window_map(m: MMU) -> u16 {
    if m.ppu.window_tilemap {
        TILEMAP_1
    } else {
        TILEMAP_0
    }
}

/// The colour index of the background at column `col` of the current line:
/// the scene is scrolled by the two scroll registers and wraps around.
pub open spec fn background_value(m: MMU, col: int) -> u8 {
    tile_pixel(
        m,
        (col as u8).wrapping_add(m.ppu.scx),
        m.ppu.line.wrapping_add(m.ppu.scy),
        background_map(m),
    )
}

/// The shade at column `col` after the background is drawn over `under`;
/// `under` itself where the background is off.
pub open spec fn with_background(m: MMU, col: int, under: u8) -> u8 {
    if m.ppu.window_bg_on {
        shade(m.ppu.background_palette, background_value(m, col))
    } else {
        under
    }
}

/// The column of the window that shows at column `col` of the screen.
pub open spec fn window_column(m: MMU, col: int) -> int {
    col + 7 - m.ppu.win_x
}

/// Whether the window covers column `col` of the current line.
pub open spec fn window_covers(m: MMU, col: int) -> bool {
    &&& m.ppu.window_on
    &&& m.ppu.line >= m.ppu.win_y
    &&& 0 <= window_column(m, col) < 160
}

/// The shade at column `col` after the window is drawn over `under`.
pub open spec fn with_window(m: MMU, col: int, under: u8) -> u8 {
    if window_covers(m, col) {
        shade(
            m.ppu.background_palette,
            tile_pixel(
                m,
                window_column(m, col) as u8,
                (m.ppu.line - m.ppu.win_y) as u8,
                window_map(m),
            ),
        )
    } else {
        under
    }
}

/// The height of a sprite in pixels.
pub open spec fn sprite_height(m: MMU) -> int {
    if m.ppu.sprite_size {
        16
    } else {
        8
    }
}

/// The line of the screen that the top of sprite `s` is on; it may be above
/// the screen.
pub open spec fn sprite_top(m: MMU, s: int) -> int {
    m.oam@[4 * s] - 16
}

/// The column of the screen that the left of sprite `s` is on; it may be left
/// of the screen.
pub open spec fn sprite_left(m: MMU, s: int) -> int {
    m.oam@[4 * s + 1] - 8
}

/// The tile number of sprite `s`.
pub open spec fn sprite_tile(m: MMU, s: int) -> u8 {
    m.oam@[4 * s + 2]
}

/// The flags of sprite `s`: bit 7 puts it behind the background, bit 6
/// flips it top to bottom, bit 5 left to right, bit 4 picks its palette.
pub open spec fn sprite_flags(m: MMU, s: int) -> u8 {
    m.oam@[4 * s + 3]
}

/// Whether sprite `s` shows on the current line: the line crosses it, and
/// some of it is on the screen.
pub open spec fn on_line(m: MMU, s: int) -> bool {
    &&& sprite_top(m, s) <= m.ppu.line < sprite_top(m, s) + sprite_height(m)
    &&& -7 <= sprite_left(m, s) < 160
}

/// The sprites that the current line shows, of the first `upto` of the table:
/// the first ten of them that are on the line, in the order of the table.
pub open spec fn selected(m: MMU, upto: int) -> Seq<u8>
    decreases upto,
{
    if upto <= 0 {
        Seq::empty()
    } else {
        let earlier = selected(m, upto - 1);
        if earlier.len() < SPRITES_PER_LINE && on_line(m, upto - 1) {
            earlier.push((upto - 1) as u8)
        } else {
            earlier
        }
    }
}

/// Whether sprite `s` paints column `col`: the column crosses it, and it is
/// not hidden there behind a background pixel that is not of colour 0.
pub open spec fn paints(m: MMU, s: int, col: int) -> bool {
    &&& sprite_left(m, s) <= col < sprite_left(m, s) + 8
    &&& !(m.ppu.window_bg_on && bit_is_set(sprite_flags(m, s), 7) && background_value(m, col)
        != 0)
}

/// The row of sprite `s` that the current line shows, counted from the top
/// of its tile data: from the bottom of the sprite where it is flipped.
pub open spec fn sprite_row(m: MMU, s: int) -> int {
    if bit_is_set(sprite_flags(m, s), 6) {
        sprite_height(m) - 1 - (m.ppu.line - sprite_top(m, s))
    } else {
        m.ppu.line - sprite_top(m, s)
    }
}

/// The shade of sprite `s` at column `col`, which crosses it.
pub open spec fn sprite_shade(m: MMU, s: int, col: int) -> u8 {
    let flags = sprite_flags(m, s);
    let palette = if bit_is_set(flags, 4) { m.ppu.obj_palette_1 } else { m.ppu.obj_palette_0 };
    let row = TILEDATA_0 + sprite_tile(m, s) * 16 + sprite_row(m, s) * 2;
    let across = col - sprite_left(m, s);
    let pixel_num = if bit_is_set(flags, 5) { 7 - across } else { across };
    shade(palette, pixel(video(m, row), video(m, row + 1), pixel_num as u8))
}

/// The first of the sprites `chosen`, from index `from` on, that paints
/// column `col`: the one that shows there, as earlier sprites win.
pub open spec fn top_sprite(m: MMU, chosen: Seq<u8>, col: int, from: int) -> Option<u8>
    decreases chosen.len() - from,
{
    if from < 0 || from >= chosen.len() {
        None
    } else if paints(m, chosen[from] as int, col) {
        Some(chosen[from])
    } else {
        top_sprite(m, chosen, col, from + 1)
    }
}

/// The shade at column `col` after the sprites are drawn over `under`.
pub open spec fn with_sprites(m: MMU, col: int, under: u8) -> u8 {
    if m.ppu.sprite_on {
        match top_sprite(m, selected(m, SPRITE_COUNT as int), col, 0) {
            Some(s) => sprite_shade(m, s as int, col),
            None => under,
        }
    } else {
        under
    }
}

/// The shade at column `col` of the current line after background, window
/// and sprites are drawn, in that order, over `under`.
pub open spec fn rendered(m: MMU, col: int, under: u8) -> u8 {
    with_sprites(m, col, with_window(m, col, with_background(m, col, under)))
}

/// The address of the 16 bytes of a tile, given the base address of the tile
/// data and a tile number.
pub fn get_tile_data_address(base_address: u16, tile_number: u8) -> (address: u16)
    requires
        base_address <= 0xF000,
    ensures
        address == tile_data_address(base_address, tile_number),
{
    if base_address == TILEDATA_1 {
        let index: u16 = if tile_number < 128 {
            tile_number as u16 + 128
        } else {
            tile_number as u16 - 128
        };
        base_address + index * 16
    } else {
        base_address + (tile_number as u16 * 16)
    }
}

/// The colour index of a pixel of a row of a tile.
pub fn get_pixel(tile_lower: u8, tile_upper: u8, pixel_num: u8) -> (value: u8)
    requires
        pixel_num < 8,
    ensures
        value == pixel(tile_lower, tile_upper, pixel_num),
        value <= 3,
{
    let low: u8 = if is_bit_set(tile_lower, 7 - pixel_num) { 1 } else { 0 };
    let high: u8 = if is_bit_set(tile_upper, 7 - pixel_num) { 2 } else { 0 };
    high + low
}

/// The shade that a palette gives a colour index.
pub fn get_shade(palette: u8, value: u8) -> (color: u8)
    requires
        value <= 3,
    ensures
        color == shade(palette, value),
        color <= 3,
{
    let shift: u8 = value * 2;
    proof {
        assert((palette >> shift) & 0x3 <= 3) by (bit_vector);
    }
    (palette >> shift) & 0x3
}

/// The byte of video memory at `address`.
pub fn video_byte(mmu: &MMU, address: u16) -> (value: u8)
    requires
        0x8000 <= address <= 0x9FFF,
    ensures
        value == video(*mmu, address as int),
        mmu.load(address) == Ok::<u8, crate::fault::Fault>(value),
{
    mmu.vram[(address - 0x8000) as usize]
}

/// Given the machine, coordinates in the scene and the address of a tile
/// map, get the colour index of the pixel.
pub fn get_tile_pixel(mmu: &MMU, x: u8, y: u8, tilemap_address: u16) -> (value: u8)
    requires
        tilemap_address == TILEMAP_0 || tilemap_address == TILEMAP_1,
    ensures
        value == tile_pixel(*mmu, x, y, tilemap_address),
        value <= 3,
{
    let tiledata_base_address = if mmu.ppu.tile_data_table { TILEDATA_0 } else { TILEDATA_1 };
    let tile_row_num = y / 8;
    let tile_col_num = x / 8;
    let tile_number = tile_row_num as u16 * 32 + tile_col_num as u16;
    let tile_data_number = video_byte(mmu, tilemap_address + tile_number);
    let tile_data_address = get_tile_data_address(tiledata_base_address, tile_data_number);
    let pixel_row_num = y % 8;
    let pixel_col_num = x % 8;
    let tile_row_index = tile_data_address + (pixel_row_num as u16 * 2);
    let tile_data_lower = video_byte(mmu, tile_row_index);
    let tile_data_upper = video_byte(mmu, tile_row_index + 1);
    get_pixel(tile_data_lower, tile_data_upper, pixel_col_num)
}

/// The colour index of the background at a column of the current line.
pub fn get_background_value(mmu: &MMU, col: u8) -> (value: u8)
    requires
        col < 160,
    ensures
        value == background_value(*mmu, col as int),
        value <= 3,
{
    let tilemap_address = if mmu.ppu.bg_tilemap { TILEMAP_1 } else { TILEMAP_0 };
    let x = col.wrapping_add(mmu.ppu.scx);
    let y = mmu.ppu.line.wrapping_add(mmu.ppu.scy);
    get_tile_pixel(mmu, x, y, tilemap_address)
}

/// Whether sprite `s` shows on the current line.
fn is_on_line(mmu: &MMU, s: u8) -> (shows: bool)
    requires
        s < SPRITE_COUNT,
    ensures
        shows == on_line(*mmu, s as int),
{
    let line = mmu.ppu.line as i16;
    let height: i16 = if mmu.ppu.sprite_size { 16 } else { 8 };
    let y_pos = mmu.oam[4 * s as usize] as i16 - 16;
    let x_pos = mmu.oam[4 * s as usize + 1] as i16 - 8;
    !(line < y_pos || line >= y_pos + height || x_pos < -7 || x_pos >= 160)
}

/// Walk through the 40 sprites of the table and collect the first 10 that
/// show on the current line.
pub fn select_sprites(mmu: &MMU) -> (chosen: Vec<u8>)
    ensures
        chosen@ == selected(*mmu, SPRITE_COUNT as int),
        chosen@.len() <= SPRITES_PER_LINE,
        forall|i: int| 0 <= i < chosen@.len() ==> chosen@[i] < SPRITE_COUNT,
{
    let mut chosen: Vec<u8> = Vec::new();
    let mut s: u8 = 0;
    while s < SPRITE_COUNT
        invariant
            s <= SPRITE_COUNT,
            chosen@ == selected(*mmu, s as int),
            chosen@.len() <= SPRITES_PER_LINE,
            forall|i: int| 0 <= i < chosen@.len() ==> chosen@[i] < SPRITE_COUNT,
        decreases SPRITE_COUNT - s,
    {
        if chosen.len() < SPRITES_PER_LINE && is_on_line(mmu, s) {
            chosen.push(s);
        }
        s = s + 1;
    }
    chosen
}

/// Whether sprite `s` paints column `col`.
fn sprite_paints(mmu: &MMU, s: u8, col: u8) -> (painted: bool)
    requires
        s < SPRITE_COUNT,
        col < 160,
    ensures
        painted == paints(*mmu, s as int, col as int),
{
    let x_pos = mmu.oam[4 * s as usize + 1] as i16 - 8;
    let across = col as i16 - x_pos;
    if across < 0 || across >= 8 {
        return false;
    }
    let flags = mmu.oam[4 * s as usize + 3];
    let bg_priority = is_bit_set(flags, 7);
    !(mmu.ppu.window_bg_on && bg_priority && get_background_value(mmu, col) != 0)
}

/// The shade of sprite `s`, which shows on the current line, at column
/// `col`, which crosses it.
fn get_sprite_shade(mmu: &MMU, s: u8, col: u8) -> (color: u8)
    requires
        s < SPRITE_COUNT,
        col < 160,
        on_line(*mmu, s as int),
        sprite_left(*mmu, s as int) <= col < sprite_left(*mmu, s as int) + 8,
    ensures
        color == sprite_shade(*mmu, s as int, col as int),
        color <= 3,
{
    let line = mmu.ppu.line as i16;
    let height: i16 = if mmu.ppu.sprite_size { 16 } else { 8 };
    let y_pos = mmu.oam[4 * s as usize] as i16 - 16;
    let x_pos = mmu.oam[4 * s as usize + 1] as i16 - 8;
    let sprite_number = mmu.oam[4 * s as usize + 2] as u16;
    let flags = mmu.oam[4 * s as usize + 3];
    let palette = if is_bit_set(flags, 4) { mmu.ppu.obj_palette_1 } else { mmu.ppu.obj_palette_0 };
    let y_flip = is_bit_set(flags, 6);
    let x_flip = is_bit_set(flags, 5);
    let sprite_y: u16 = if y_flip {
        (height - 1 - (line - y_pos)) as u16
    } else {
        (line - y_pos) as u16
    };
    let sprite_data_address: u16 = TILEDATA_0 + (sprite_number * 16) + (sprite_y * 2);
    let sprite_data_lower = video_byte(mmu, sprite_data_address);
    let sprite_data_upper = video_byte(mmu, sprite_data_address + 1);
    let across = col as i16 - x_pos;
    let pixel_num: u8 = if x_flip { (7 - across) as u8 } else { across as u8 };
    get_shade(palette, get_pixel(sprite_data_lower, sprite_data_upper, pixel_num))
}

/// Every sprite that `selected` picks is one of the table and shows on the
/// current line.
pub proof fn lemma_selected_are_on_line(m: MMU, upto: int)
    requires
        0 <= upto <= SPRITE_COUNT,
    ensures
        selected(m, upto).len() <= SPRITES_PER_LINE,
        forall|i: int|
            0 <= i < selected(m, upto).len() ==> 0 <= #[trigger] selected(m, upto)[i] < upto
                && on_line(m, selected(m, upto)[i] as int),
    decreases upto,
{
    if upto > 0 {
        lemma_selected_are_on_line(m, upto - 1);
    }
}

/// The shade at a column after the sprites `chosen`, those of the current
/// line, are drawn over `under`.
pub fn draw_sprites_pixel(mmu: &MMU, chosen: &Vec<u8>, col: u8, under: u8) -> (color: u8)
    requires
        col < 160,
        under <= 3,
        chosen@ == selected(*mmu, SPRITE_COUNT as int),
    ensures
        color == with_sprites(*mmu, col as int, under),
        color <= 3,
{
    if !mmu.ppu.sprite_on {
        return under;
    }
    proof {
        lemma_selected_are_on_line(*mmu, SPRITE_COUNT as int);
    }
    let mut i: usize = 0;
    while i < chosen.len()
        invariant
            i <= chosen@.len(),
            col < 160,
            under <= 3,
            mmu.ppu.sprite_on,
            chosen@ == selected(*mmu, SPRITE_COUNT as int),
            forall|k: int|
                0 <= k < chosen@.len() ==> 0 <= #[trigger] chosen@[k] < SPRITE_COUNT && on_line(
                    *mmu,
                    chosen@[k] as int,
                ),
            top_sprite(*mmu, chosen@, col as int, 0) == top_sprite(
                *mmu,
                chosen@,
                col as int,
                i as int,
            ),
        decreases chosen@.len() - i,
    {
        let s = chosen[i];
        assert(top_sprite(*mmu, chosen@, col as int, i as int) == (if paints(
            *mmu,
            s as int,
            col as int,
        ) {
            Some(s)
        } else {
            top_sprite(*mmu, chosen@, col as int, i + 1)
        }));
        if sprite_paints(mmu, s, col) {
            return get_sprite_shade(mmu, s, col);
        }
        i = i + 1;
    }
    assert(top_sprite(*mmu, chosen@, col as int, i as int).is_none());
    under
}

} // verus!
