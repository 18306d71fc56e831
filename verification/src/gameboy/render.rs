use vstd::prelude::*;

use crate::cpu::bit_of;
use crate::gameboy::Gameboy;
use crate::memory::zeroed;
use crate::gameboy::{GameboyState, draw_line_spec};
use crate::ppu::{
    bg_line, bg_tile_index, blank_line, colored_atlas, colored_tilemap, draw_object,
    draw_object_columns, draw_objects, lemma_pixel_decomposition, lemma_pixel_layout,
    object_atlas_byte, object_on_line, object_tile, object_x, object_y, pixel_rgba,
    shade_rgba, tile_atlas_2bpp, tile_of, row_of, col_of, tile_pixel,
};

verus! {

/// The value (0 to 3) that two tile bytes give a pixel, read with shifts and masks.
proof fn lemma_pixel_value(lo: u8, hi: u8, x: u8)
    requires
        x < 8,
    ensures
        ((lo >> (7 - x) as u8) & 1) | (((hi >> (7 - x) as u8) & 1) << 1u8) == (if bit_of(lo, (7 - x) as u8) { 1int } else { 0 }) + (if bit_of(hi, (7 - x) as u8) { 2int } else { 0 }),
{
    let s = (7 - x) as u8;
    assert(((lo >> s) & 1) | (((hi >> s) & 1) << 1u8) == (if (lo >> s) & 1 == 1 { 1u8 } else { 0u8 }) + (if (hi >> s) & 1 == 1 { 2u8 } else { 0u8 })) by (bit_vector)
        requires
            s < 8,
    ;
}

/// The RGBA color of a shade.
fn shade_color(shade: u8) -> (c: [u8; 4])
    ensures
        c@ == shade_rgba(shade),
{
    let c = if shade == 0 {
        [250, 251, 246, /* alpha */ 255]
    } else if shade == 1 {
        [198, 183, 190, /* alpha */ 255]
    } else if shade == 2 {
        [86, 90, 117, /* alpha */ 255]
    } else {
        [15, 15, 27, /* alpha */ 255]
    };
    assert(c@ =~= shade_rgba(shade));
    c
}

impl Gameboy {
    /// The colors of the four pixel values under the background palette.
    fn get_palette(&self) -> (palette: [[u8; 4]; 4])
        requires
            self@.wf(),
        ensures
            forall|v: int| 0 <= v < 4 ==> #[trigger] palette@[v]@ == pixel_rgba(self@.machine.mem, v as u8),
    {
        // https://gbdev.io/pandocs/Palettes.html
        let palette_reg = self.memory.read_byte(0xFF47);
        proof {
            crate::cpu::lemma_byte_bits(palette_reg, 0);
        }
        let palette = [
            shade_color(palette_reg & 3),
            shade_color((palette_reg >> 2) & 3),
            shade_color((palette_reg >> 4) & 3),
            shade_color((palette_reg >> 6) & 3),
        ];
        palette
    }

    // returns a 256 * 256 atlas (32 * 32 tiles)
    // with each pixel being an u8 encoding its value (0-3)
    // the gameboy holds only 384 tiles, i.e. 32 * 12
    // so a good chunk of the atlas is empty
    pub fn get_tile_atlas_2bpp(&self) -> (img: Vec<u8>)
        requires
            self@.wf(),
        ensures
            img@ == tile_atlas_2bpp(self@.machine.mem.vram),
    {
        let ghost vram = self@.machine.mem.vram;
        let mut img = zeroed(65536);
        // https://gbdev.io/pandocs/Tile_Data.html
        // each tile is 16 bytes in memory
        // each couple of bytes encodes a line of the tile
        let mut id: usize = 0;
        while id < 384
            invariant
                self@.wf(),
                vram == self@.machine.mem.vram,
                id <= 384,
                img@.len() == 65536,
                forall|p: int| 0 <= p < 65536 ==> #[trigger] img@[p] == if tile_of(p) < id {
                    tile_pixel(vram, tile_of(p), row_of(p), col_of(p))
                } else {
                    0u8
                },
            decreases 384 - id,
        {
            let address = (0x8000 + id * 16) as u16;
            // for each line of the tile
            let mut y: u16 = 0;
            while y < 8
                invariant
                    self@.wf(),
                    vram == self@.machine.mem.vram,
                    id < 384,
                    y <= 8,
                    address == 0x8000 + id * 16,
                    img@.len() == 65536,
                    forall|p: int| 0 <= p < 65536 ==> #[trigger] img@[p] == if tile_of(p) < id || (tile_of(p) == id && row_of(p) < y) {
                        tile_pixel(vram, tile_of(p), row_of(p), col_of(p))
                    } else {
                        0u8
                    },
                decreases 8 - y,
            {
                let byte_1 = self.memory.read_byte(address + y * 2);
                let byte_2 = self.memory.read_byte(address + y * 2 + 1);
                let mut x: u8 = 0;
                while x < 8
                    invariant
                        self@.wf(),
                        vram == self@.machine.mem.vram,
                        id < 384,
                        y < 8,
                        x <= 8,
                        byte_1 == vram[16 * id + 2 * y],
                        byte_2 == vram[16 * id + 2 * y + 1],
                        img@.len() == 65536,
                        forall|p: int| 0 <= p < 65536 ==> #[trigger] img@[p] == if tile_of(p) < id || (tile_of(p) == id && (row_of(p) < y || (row_of(p) == y && col_of(p) < x))) {
                            tile_pixel(vram, tile_of(p), row_of(p), col_of(p))
                        } else {
                            0u8
                        },
                    decreases 8 - x,
                {
                    let bit_0 = (byte_1 >> (7 - x)) & 1;
                    let bit_1 = (byte_2 >> (7 - x)) & 1;
                    let value: u8 = bit_0 | (bit_1 << 1);
                    assert(id / 32 < 12 && id % 32 < 32);
                    // tile start (8 * 8 * 32 = 2048 bytes per row of tiles) | pixel start
                    let pixel = 8 * (id % 32) + 2048 * (id / 32) + (y as usize) * 256 + (x as usize);
                    proof {
                        lemma_pixel_value(byte_1, byte_2, x);
                        lemma_pixel_layout(id as int, y as int, x as int);
                    }
                    img.set(pixel, value);
                    proof {
                        assert forall|p: int| 0 <= p < 65536 implies #[trigger] img@[p] == if tile_of(p) < id || (tile_of(p) == id && (row_of(p) < y || (row_of(p) == y && col_of(p) < x + 1))) {
                            tile_pixel(vram, tile_of(p), row_of(p), col_of(p))
                        } else {
                            0u8
                        } by {
                            lemma_pixel_decomposition(p);
                        }
                    }
                    x = x + 1;
                }
                y = y + 1;
            }
            id = id + 1;
        }
        assert(img@ =~= tile_atlas_2bpp(vram));
        img
    }
}


impl Gameboy {
    /// Redraws the RGBA tile atlas from video RAM.
    pub fn update_tile_atlas(&mut self)
        requires
            old(self)@.wf(),
        ensures
            final(self)@.wf(),
            final(self)@ == (GameboyState {
                tile_atlas: colored_atlas(old(self)@.tile_atlas, old(self)@.machine.mem),
                ..old(self)@
            }),
    {
        let ghost old_state = self@;
        let ghost mem = self@.machine.mem;
        let ghost vram = mem.vram;
        let palette = self.get_palette();
        // for each tile
        let mut id: usize = 0;
        while id < 384
            invariant
                self@ == (GameboyState { tile_atlas: self@.tile_atlas, ..old_state }),
                old_state.wf(),
                mem == old_state.machine.mem,
                vram == mem.vram,
                forall|v: int| 0 <= v < 4 ==> #[trigger] palette@[v]@ == pixel_rgba(mem, v as u8),
                id <= 384,
                self@.tile_atlas.len() == 262144,
                forall|i: int| 0 <= i < 262144 ==> #[trigger] self@.tile_atlas[i] == if tile_of(i / 4) < id {
                    pixel_rgba(mem, tile_pixel(vram, tile_of(i / 4), row_of(i / 4), col_of(i / 4)))[i % 4]
                } else {
                    old_state.tile_atlas[i]
                },
            decreases 384 - id,
        {
            let address = (0x8000 + id * 16) as u16;
            // for each line of the tile
            let mut y: u16 = 0;
            while y < 8
                invariant
                    self@ == (GameboyState { tile_atlas: self@.tile_atlas, ..old_state }),
                    old_state.wf(),
                    mem == old_state.machine.mem,
                    vram == mem.vram,
                    forall|v: int| 0 <= v < 4 ==> #[trigger] palette@[v]@ == pixel_rgba(mem, v as u8),
                    id < 384,
                    y <= 8,
                    address == 0x8000 + id * 16,
                    self@.tile_atlas.len() == 262144,
                    forall|i: int| 0 <= i < 262144 ==> #[trigger] self@.tile_atlas[i] == if tile_of(i / 4) < id || (tile_of(i / 4) == id && row_of(i / 4) < y) {
                        pixel_rgba(mem, tile_pixel(vram, tile_of(i / 4), row_of(i / 4), col_of(i / 4)))[i % 4]
                    } else {
                        old_state.tile_atlas[i]
                    },
                decreases 8 - y,
            {
                let byte_1 = self.memory.read_byte(address + y * 2);
                let byte_2 = self.memory.read_byte(address + y * 2 + 1);
                let mut x: u8 = 0;
                while x < 8
                    invariant
                        self@ == (GameboyState { tile_atlas: self@.tile_atlas, ..old_state }),
                        old_state.wf(),
                        mem == old_state.machine.mem,
                        vram == mem.vram,
                        forall|v: int| 0 <= v < 4 ==> #[trigger] palette@[v]@ == pixel_rgba(mem, v as u8),
                        id < 384,
                        y < 8,
                        x <= 8,
                        byte_1 == vram[16 * id + 2 * y],
                        byte_2 == vram[16 * id + 2 * y + 1],
                        self@.tile_atlas.len() == 262144,
                        forall|i: int| 0 <= i < 262144 ==> #[trigger] self@.tile_atlas[i] == if tile_of(i / 4) < id || (tile_of(i / 4) == id && (row_of(i / 4) < y || (row_of(i / 4) == y && col_of(i / 4) < x))) {
                            pixel_rgba(mem, tile_pixel(vram, tile_of(i / 4), row_of(i / 4), col_of(i / 4)))[i % 4]
                        } else {
                            old_state.tile_atlas[i]
                        },
                    decreases 8 - x,
                {
                    let bit_0 = (byte_1 >> (7 - x)) & 1;
                    let bit_1 = (byte_2 >> (7 - x)) & 1;
                    let value: u8 = bit_0 | (bit_1 << 1);
                    assert(id / 32 < 12 && id % 32 < 32);
                    // tile start (8 * 8 * 32 = 2048 pixels per row of tiles) | pixel start
                    let pixel = 8 * (id % 32) + 2048 * (id / 32) + (y as usize) * 256 + (x as usize);
                    proof {
                        lemma_pixel_value(byte_1, byte_2, x);
                        lemma_pixel_layout(id as int, y as int, x as int);
                    }
                    let color = palette[value as usize];
                    self.tile_atlas.set(pixel * 4, color[0]);
                    self.tile_atlas.set(pixel * 4 + 1, color[1]);
                    self.tile_atlas.set(pixel * 4 + 2, color[2]);
                    self.tile_atlas.set(pixel * 4 + 3, color[3]);
                    proof {
                        assert forall|i: int| 0 <= i < 262144 implies #[trigger] self@.tile_atlas[i] == if tile_of(i / 4) < id || (tile_of(i / 4) == id && (row_of(i / 4) < y || (row_of(i / 4) == y && col_of(i / 4) < x + 1))) {
                            pixel_rgba(mem, tile_pixel(vram, tile_of(i / 4), row_of(i / 4), col_of(i / 4)))[i % 4]
                        } else {
                            old_state.tile_atlas[i]
                        } by {
                            lemma_pixel_decomposition(i / 4);
                        }
                    }
                    x = x + 1;
                }
                y = y + 1;
            }
            id = id + 1;
        }
        assert(self@.tile_atlas =~= colored_atlas(old_state.tile_atlas, mem));
    }
}


impl Gameboy {
    /// Redraws the RGBA background map from the tile map and video RAM.
    pub fn update_tile_map(&mut self)
        requires
            old(self)@.wf(),
        ensures
            final(self)@.wf(),
            final(self)@ == (GameboyState { tilemap: colored_tilemap(old(self)@.machine.mem), ..old(self)@ }),
    {
        //https://gbdev.io/pandocs/Tile_Maps.html
        let ghost old_state = self@;
        let ghost mem = self@.machine.mem;
        let ghost vram = mem.vram;
        let mut indexes: Vec<u32> = Vec::new();
        let palette = self.get_palette();
        let addressing_mode_bit = self.memory.is_bg_tile_addressing_mode_normal();
        let mut i: u16 = 0;
        while i < 32 * 32
            invariant
                self@ == old_state,
                old_state.wf(),
                mem == old_state.machine.mem,
                addressing_mode_bit == bit_of(mem.io[0x40], 4),
                i <= 1024,
                indexes@.len() == i,
                forall|t: int| 0 <= t < i ==> #[trigger] indexes@[t] as int == bg_tile_index(mem, t),
            decreases 1024 - i,
        {
            let index = self.memory.read_byte(0x9800 + i);
            let entry: u32 = if addressing_mode_bit {
                // index is just the index, starting at tile 0
                index as u32
            } else {
                // index is signed, and the base tile is 256 (first tile of group 3)
                let signed_index: i32 = (index as i8) as i32;
                (256 + signed_index) as u32
            };
            indexes.push(entry);
            i = i + 1;
        }
        let atlas = self.get_tile_atlas_2bpp();
        // for each tile
        let mut tile: usize = 0;
        while tile < 32 * 32
            invariant
                self@ == (GameboyState { tilemap: self@.tilemap, ..old_state }),
                old_state.wf(),
                mem == old_state.machine.mem,
                vram == mem.vram,
                atlas@ == tile_atlas_2bpp(vram),
                forall|v: int| 0 <= v < 4 ==> #[trigger] palette@[v]@ == pixel_rgba(mem, v as u8),
                indexes@.len() == 1024,
                forall|t: int| 0 <= t < 1024 ==> #[trigger] indexes@[t] as int == bg_tile_index(mem, t),
                tile <= 1024,
                self@.tilemap.len() == 262144,
                forall|j: int| 0 <= j < 262144 ==> #[trigger] self@.tilemap[j] == if tile_of(j / 4) < tile {
                    pixel_rgba(mem, tile_pixel(vram, bg_tile_index(mem, tile_of(j / 4)), row_of(j / 4), col_of(j / 4)))[j % 4]
                } else {
                    old_state.tilemap[j]
                },
            decreases 1024 - tile,
        {
            let index = indexes[tile] as usize;
            // for each line of the tile
            let mut y: usize = 0;
            while y < 8
                invariant
                    self@ == (GameboyState { tilemap: self@.tilemap, ..old_state }),
                    old_state.wf(),
                    mem == old_state.machine.mem,
                    vram == mem.vram,
                    atlas@ == tile_atlas_2bpp(vram),
                    forall|v: int| 0 <= v < 4 ==> #[trigger] palette@[v]@ == pixel_rgba(mem, v as u8),
                    tile < 1024,
                    index as int == bg_tile_index(mem, tile as int),
                    y <= 8,
                    self@.tilemap.len() == 262144,
                    forall|j: int| 0 <= j < 262144 ==> #[trigger] self@.tilemap[j] == if tile_of(j / 4) < tile || (tile_of(j / 4) == tile && row_of(j / 4) < y) {
                        pixel_rgba(mem, tile_pixel(vram, bg_tile_index(mem, tile_of(j / 4)), row_of(j / 4), col_of(j / 4)))[j % 4]
                    } else {
                        old_state.tilemap[j]
                    },
                decreases 8 - y,
            {
                let mut x: usize = 0;
                while x < 8
                    invariant
                        self@ == (GameboyState { tilemap: self@.tilemap, ..old_state }),
                        old_state.wf(),
                        mem == old_state.machine.mem,
                        vram == mem.vram,
                        atlas@ == tile_atlas_2bpp(vram),
                        forall|v: int| 0 <= v < 4 ==> #[trigger] palette@[v]@ == pixel_rgba(mem, v as u8),
                        tile < 1024,
                        index as int == bg_tile_index(mem, tile as int),
                        y < 8,
                        x <= 8,
                        self@.tilemap.len() == 262144,
                        forall|j: int| 0 <= j < 262144 ==> #[trigger] self@.tilemap[j] == if tile_of(j / 4) < tile || (tile_of(j / 4) == tile && (row_of(j / 4) < y || (row_of(j / 4) == y && col_of(j / 4) < x))) {
                            pixel_rgba(mem, tile_pixel(vram, bg_tile_index(mem, tile_of(j / 4)), row_of(j / 4), col_of(j / 4)))[j % 4]
                        } else {
                            old_state.tilemap[j]
                        },
                    decreases 8 - x,
                {
                    assert(tile / 32 < 32 && tile % 32 < 32);
                    assert(index < 384 && index / 32 < 12 && index % 32 < 32);
                    // tile start (8 * 8 * 32 = 2048 pixels per row of tiles) | pixel start
                    let dst_pixel = (8 * (tile % 32) + 2048 * (tile / 32) + y * 256 + x) * 4;
                    let atlas_pos = 8 * (index % 32) + 2048 * (index / 32) + y * 256 + x;
                    proof {
                        lemma_pixel_layout(tile as int, y as int, x as int);
                        lemma_pixel_layout(index as int, y as int, x as int);
                    }
                    // https://lospec.com/palette-list/2bit-demichrome
                    let color = palette[atlas[atlas_pos] as usize];
                    self.tilemap.set(dst_pixel, color[0]);
                    self.tilemap.set(dst_pixel + 1, color[1]);
                    self.tilemap.set(dst_pixel + 2, color[2]);
                    self.tilemap.set(dst_pixel + 3, color[3]);
                    proof {
                        assert forall|j: int| 0 <= j < 262144 implies #[trigger] self@.tilemap[j] == if tile_of(j / 4) < tile || (tile_of(j / 4) == tile && (row_of(j / 4) < y || (row_of(j / 4) == y && col_of(j / 4) < x + 1))) {
                            pixel_rgba(mem, tile_pixel(vram, bg_tile_index(mem, tile_of(j / 4)), row_of(j / 4), col_of(j / 4)))[j % 4]
                        } else {
                            old_state.tilemap[j]
                        } by {
                            lemma_pixel_decomposition(j / 4);
                        }
                    }
                    x = x + 1;
                }
                y = y + 1;
            }
            tile = tile + 1;
        }
        proof {
            assert forall|j: int| 0 <= j < 262144 implies #[trigger] tile_of(j / 4) < 1024 by {
                lemma_pixel_decomposition(j / 4);
            }
        }
        assert(self@.tilemap =~= colored_tilemap(mem));
    }
}


impl Gameboy {
    /// Copies screen line `line` from the background map.
    fn draw_background_line(&mut self, line: usize, scroll_x: usize, scroll_y: usize)
        requires
            old(self)@.wf(),
            line < 144,
            scroll_x < 256,
            scroll_y < 256,
        ensures
            final(self)@.wf(),
            final(self)@ == (GameboyState {
                framebuffer: bg_line(
                    old(self)@.framebuffer,
                    old(self)@.tilemap,
                    line as int,
                    scroll_x as int,
                    scroll_y as int,
                ),
                ..old(self)@
            }),
    {
        let ghost old_state = self@;
        // the tilemap is 256 * 256, but the screen is only 160 * 144
        // so the scrolling registers tell us the top left corner pixel coordinates
        // of the screen view into the tilemap
        let tilemap_y = (line + scroll_y) % 256;
        let mut screen_x: usize = 0;
        while screen_x < 160
            invariant
                self@ == (GameboyState { framebuffer: self@.framebuffer, ..old_state }),
                old_state.wf(),
                line < 144,
                scroll_x < 256,
                scroll_y < 256,
                tilemap_y == (line + scroll_y) % 256,
                screen_x <= 160,
                self@.framebuffer.len() == 92160,
                forall|j: int| 0 <= j < 92160 ==> #[trigger] self@.framebuffer[j] == if line * 160 <= j / 4 < line * 160 + screen_x {
                    old_state.tilemap[(tilemap_y * 256 + (j / 4 - line * 160 + scroll_x) % 256) * 4 + j % 4]
                } else {
                    old_state.framebuffer[j]
                },
            decreases 160 - screen_x,
        {
            let tilemap_x: usize = (screen_x + scroll_x) % 256;
            let src = (tilemap_y * 256 + tilemap_x) * 4;
            let dst = (line * 160 + screen_x) * 4;
            let b0 = self.tilemap[src];
            let b1 = self.tilemap[src + 1];
            let b2 = self.tilemap[src + 2];
            let b3 = self.tilemap[src + 3];
            self.framebuffer.set(dst, b0);
            self.framebuffer.set(dst + 1, b1);
            self.framebuffer.set(dst + 2, b2);
            self.framebuffer.set(dst + 3, b3);
            screen_x = screen_x + 1;
        }
        assert(self@.framebuffer =~= bg_line(
            old_state.framebuffer,
            old_state.tilemap,
            line as int,
            scroll_x as int,
            scroll_y as int,
        ));
    }

    /// Draws object `obj` on screen line `line`, if the object crosses it.
    fn draw_object_line(&mut self, line: usize, obj: u16)
        requires
            old(self)@.wf(),
            line < 144,
            obj < 40,
        ensures
            final(self)@.wf(),
            final(self)@ == (GameboyState {
                framebuffer: draw_object(
                    old(self)@.framebuffer,
                    old(self)@.tile_atlas,
                    old(self)@.machine.mem,
                    line as int,
                    obj as int,
                ),
                ..old(self)@
            }),
    {
        let ghost old_state = self@;
        let ghost mem = self@.machine.mem;
        // the stored value is actually the screen y position + 16
        // y_pos is between -16 and SCREEN_H : sprites can be outside the screen
        // placing a sprite outside the screen (leaving the x & y pos bytes to 0) is actually
        // how you're meant to "disable" it being drawn
        let y_pos = self.memory.read_byte(0xFE00 + obj * 4) as isize - 16;
        // if the current line doesn't intersect the sprite, don't bother trying to draw it
        if !(y_pos <= line as isize && (line as isize) < y_pos + 8) {
            return;
        }
        assert(object_on_line(mem, obj as int, line as int));
        // same thing for x_pos: it is between -8 and SCREEN_W
        let x_pos = self.memory.read_byte(0xFE00 + obj * 4 + 1) as isize - 8;
        let sprite_id = self.memory.read_byte(0xFE00 + obj * 4 + 2);
        let mut x_pxl: usize = 0;
        while x_pxl < 8
            invariant
                self@ == (GameboyState { framebuffer: self@.framebuffer, ..old_state }),
                old_state.wf(),
                mem == old_state.machine.mem,
                line < 144,
                obj < 40,
                object_on_line(mem, obj as int, line as int),
                y_pos == object_y(mem, obj as int),
                x_pos == object_x(mem, obj as int),
                sprite_id as int == object_tile(mem, obj as int),
                x_pxl <= 8,
                self@.framebuffer =~= draw_object_columns(
                    old_state.framebuffer,
                    old_state.tile_atlas,
                    mem,
                    line as int,
                    obj as int,
                    x_pxl as int,
                ),
            decreases 8 - x_pxl,
        {
            // sprites can be half-outside and half-inside the screen
            if x_pos + (x_pxl as isize) >= 0 && x_pos + (x_pxl as isize) < 160 {
                let pixel_start_framebuffer = ((line * 160) as isize + x_pos + x_pxl as isize) as usize * 4;
                assert(sprite_id / 32 < 8 && sprite_id % 32 < 32);
                let pixel_start_tile_atlas = ((sprite_id as usize / 32) * 2048 + (sprite_id as usize % 32) * 8
                    + x_pxl + ((line as isize - y_pos) as usize) * 256) * 4;
                assert(pixel_start_tile_atlas == object_atlas_byte(mem, obj as int, line as int, x_pxl as int, 0));
                let b0 = self.tile_atlas[pixel_start_tile_atlas];
                let b1 = self.tile_atlas[pixel_start_tile_atlas + 1];
                let b2 = self.tile_atlas[pixel_start_tile_atlas + 2];
                let b3 = self.tile_atlas[pixel_start_tile_atlas + 3];
                self.framebuffer.set(pixel_start_framebuffer, b0);
                self.framebuffer.set(pixel_start_framebuffer + 1, b1);
                self.framebuffer.set(pixel_start_framebuffer + 2, b2);
                self.framebuffer.set(pixel_start_framebuffer + 3, b3);
            }
            x_pxl = x_pxl + 1;
        }
    }

    /// Draws screen line LY.
    pub(crate) fn draw_current_line(&mut self)
        requires
            old(self)@.wf(),
        ensures
            final(self)@.wf(),
            final(self)@ == draw_line_spec(old(self)@),
    {
        let ghost old_state = self@;
        let ghost mem = self@.machine.mem;
        let line: usize = self.memory.read_byte(0xFF44) as usize;
        if line >= 144 {
            //v-blank period
            return;
        }
        if !self.memory.is_lcd_enabled() {
            // screen turned off
            let mut j: usize = 0;
            while j < 640
                invariant
                    self@ == (GameboyState { framebuffer: self@.framebuffer, ..old_state }),
                    old_state.wf(),
                    line < 144,
                    j <= 640,
                    self@.framebuffer.len() == 92160,
                    forall|i: int| 0 <= i < 92160 ==> #[trigger] self@.framebuffer[i] == if line * 640 <= i < line * 640 + j { 30u8 } else { old_state.framebuffer[i] },
                decreases 640 - j,
            {
                self.framebuffer.set(line * 640 + j, 30);
                j = j + 1;
            }
            assert(self@.framebuffer =~= blank_line(old_state.framebuffer, line as int));
            return;
        }
        if line == 0 {
            // we just returned from a v-blank period where vram might have been modified
            // so the tile atlas & tilemap needs to be updated
            self.update_tile_atlas();
            self.update_tile_map();
        }
        // first draw the tilemap at this line
        let (scroll_x, scroll_y) = self.memory.read_scrolling_registers();
        self.draw_background_line(line, scroll_x, scroll_y);
        // then we can draw the objects
        let ghost fb1 = self@.framebuffer;
        let ghost atlas = self@.tile_atlas;
        let mut obj: u16 = 0;
        while obj < 40
            invariant
                self@ == (GameboyState { framebuffer: self@.framebuffer, ..self@ }),
                self@.wf(),
                self@.machine == old_state.machine,
                self@.tile_atlas == atlas,
                mem == old_state.machine.mem,
                line < 144,
                line == mem.io[0x44],
                obj <= 40,
                self@.framebuffer == draw_objects(fb1, atlas, mem, line as int, obj as nat),
                self@.div_cycles == old_state.div_cycles,
                self@.ly_cycles == old_state.ly_cycles,
                self@.tima_cycles == old_state.tima_cycles,
                self@.tilemap == draw_line_spec(old_state).tilemap,
                atlas == draw_line_spec(old_state).tile_atlas,
                fb1 == bg_line(
                    if line == 0 { old_state.framebuffer } else { old_state.framebuffer },
                    draw_line_spec(old_state).tilemap,
                    line as int,
                    mem.io[0x43] as int,
                    mem.io[0x42] as int,
                ),
            decreases 40 - obj,
        {
            self.draw_object_line(line, obj);
            obj = obj + 1;
        }
    }
}


impl Gameboy {
    /// The screen, 160 * 144 RGBA pixels.
    pub fn get_framebuffer(&self) -> (fb: &[u8])
        ensures
            fb@ == self@.framebuffer,
    {
        self.framebuffer.as_slice()
    }

    /// The stored vertical position of the 40 objects.
    pub fn get_obj_y_pos_buffer(&self) -> (buffer: [u32; 40])
        requires
            self@.wf(),
        ensures
            forall|obj: int| 0 <= obj < 40 ==> #[trigger] buffer@[obj] == self@.machine.mem.oam[4 * obj] as u32,
    {
        self.obj_attribute_buffer(0)
    }

    /// The stored horizontal position of the 40 objects.
    pub fn get_obj_x_pos_buffer(&self) -> (buffer: [u32; 40])
        requires
            self@.wf(),
        ensures
            forall|obj: int| 0 <= obj < 40 ==> #[trigger] buffer@[obj] == self@.machine.mem.oam[4 * obj + 1] as u32,
    {
        self.obj_attribute_buffer(1)
    }

    /// The tile of the 40 objects.
    pub fn get_obj_sprite_ids_buffer(&self) -> (buffer: [u32; 40])
        requires
            self@.wf(),
        ensures
            forall|obj: int| 0 <= obj < 40 ==> #[trigger] buffer@[obj] == self@.machine.mem.oam[4 * obj + 2] as u32,
    {
        self.obj_attribute_buffer(2)
    }

    /// Byte `attribute` of each of the 40 objects.
    fn obj_attribute_buffer(&self, attribute: u16) -> (buffer: [u32; 40])
        requires
            self@.wf(),
            attribute < 4,
        ensures
            forall|obj: int| 0 <= obj < 40 ==> #[trigger] buffer@[obj] == self@.machine.mem.oam[4 * obj + attribute] as u32,
    {
        let mut buffer = [0u32; 40];
        let mut obj: u16 = 0;
        while obj < 40
            invariant
                self@.wf(),
                attribute < 4,
                obj <= 40,
                forall|o: int| 0 <= o < obj ==> #[trigger] buffer@[o] == self@.machine.mem.oam[4 * o + attribute] as u32,
            decreases 40 - obj,
        {
            let v = self.memory.read_byte(0xFE00 + attribute + obj * 4) as u32;
            buffer.set(obj as usize, v);
            obj = obj + 1;
        }
        buffer
    }
}

} // verus!
