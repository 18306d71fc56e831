use vstd::prelude::*;

use crate::cpu::bit_of;
use crate::memory::MemState;

verus! {

// https://gbdev.io/pandocs/Tile_Data.html
// Tiles are laid out in 256 * 256 images, 32 tiles per row of 8 * 8 pixels:
// pixel (x, y) of tile `id` is pixel number
// 8 * (id % 32) + (8 * 8 * 32) * (id / 32) + 256 * y + x.

/// The pixel number of pixel (x, y) of tile `id` in a 256 * 256 image.
pub open spec fn pixel_of(id: int, y: int, x: int) -> int {
    8 * (id % 32) + 2048 * (id / 32) + 256 * y + x
}

/// The tile a pixel number of a 256 * 256 image belongs to.
pub open spec fn tile_of(p: int) -> int {
    ((p / 256) / 8) * 32 + (p % 256) / 8
}

/// The row of a pixel number within its tile.
pub open spec fn row_of(p: int) -> int {
    (p / 256) % 8
}

/// The column of a pixel number within its tile.
pub open spec fn col_of(p: int) -> int {
    p % 8
}

/// Tiles and pixel numbers correspond one to one.
pub proof fn lemma_pixel_layout(id: int, y: int, x: int)
    requires
        0 <= id < 1024,
        0 <= y < 8,
        0 <= x < 8,
    ensures
        0 <= pixel_of(id, y, x) < 65536,
        tile_of(pixel_of(id, y, x)) == id,
        row_of(pixel_of(id, y, x)) == y,
        col_of(pixel_of(id, y, x)) == x,
{
    let a = id / 32;
    let b = id % 32;
    let p = pixel_of(id, y, x);
    assert(p == 256 * (8 * a + y) + (8 * b + x));
    assert(0 <= 8 * b + x < 256);
    vstd::arithmetic::div_mod::lemma_fundamental_div_mod_converse(p, 256, 8 * a + y, 8 * b + x);
    vstd::arithmetic::div_mod::lemma_fundamental_div_mod_converse(8 * a + y, 8, a, y);
    vstd::arithmetic::div_mod::lemma_fundamental_div_mod_converse(8 * b + x, 8, b, x);
    vstd::arithmetic::div_mod::lemma_fundamental_div_mod_converse(p, 8, 32 * (8 * a + y) + b, x);
}

/// Every pixel number is the pixel of its tile, row and column.
pub proof fn lemma_pixel_decomposition(p: int)
    requires
        0 <= p < 65536,
    ensures
        0 <= tile_of(p) < 1024,
        0 <= row_of(p) < 8,
        0 <= col_of(p) < 8,
        pixel_of(tile_of(p), row_of(p), col_of(p)) == p,
{
    let r = p / 256;
    let c = p % 256;
    let id = tile_of(p);
    assert(id / 32 == r / 8 && id % 32 == c / 8) by {
        vstd::arithmetic::div_mod::lemma_fundamental_div_mod_converse(id, 32, r / 8, c / 8);
    }
    assert(c % 8 == p % 8) by {
        vstd::arithmetic::div_mod::lemma_fundamental_div_mod_converse(p, 8, 32 * r + c / 8, c % 8);
    }
}

/// The value (0 to 3) of pixel (x, y) of tile `id`, from the two bytes that
/// encode the tile's row `y`.
pub open spec fn tile_pixel(vram: Seq<u8>, id: int, y: int, x: int) -> u8 {
    let lo = vram[16 * id + 2 * y];
    let hi = vram[16 * id + 2 * y + 1];
    ((if bit_of(lo, (7 - x) as u8) { 1int } else { 0 }) + (if bit_of(hi, (7 - x) as u8) { 2int } else { 0 })) as u8
}

/// The 256 * 256 atlas of the 384 tiles of video RAM, one byte (0 to 3) per
/// pixel; the pixels below the last tile are 0.
pub open spec fn tile_atlas_2bpp(vram: Seq<u8>) -> Seq<u8> {
    Seq::new(
        65536,
        |p: int| if tile_of(p) < 384 { tile_pixel(vram, tile_of(p), row_of(p), col_of(p)) } else { 0u8 },
    )
}

// https://gbdev.io/pandocs/Palettes.html
// https://lospec.com/palette-list/2bit-demichrome

/// The RGBA color of each of the four shades.
pub open spec fn shade_rgba(shade: u8) -> Seq<u8> {
    if shade == 0 {
        seq![250u8, 251, 246, 255]
    } else if shade == 1 {
        seq![198u8, 183, 190, 255]
    } else if shade == 2 {
        seq![86u8, 90, 117, 255]
    } else {
        seq![15u8, 15, 27, 255]
    }
}

/// The shade the palette register gives to a pixel value.
pub open spec fn palette_shade(bgp: u8, value: u8) -> u8 {
    if value == 0 {
        bgp % 4
    } else if value == 1 {
        (bgp / 4) % 4
    } else if value == 2 {
        (bgp / 16) % 4
    } else {
        bgp / 64
    }
}

/// The RGBA color of a pixel value under the background palette.
pub open spec fn pixel_rgba(mem: MemState, value: u8) -> Seq<u8> {
    shade_rgba(palette_shade(mem.io[0x47], value))
}

/// The RGBA tile atlas after it is redrawn from video RAM: the pixels of the
/// 384 tiles are colored, the others keep their old bytes.
pub open spec fn colored_atlas(old: Seq<u8>, mem: MemState) -> Seq<u8> {
    Seq::new(
        262144,
        |i: int|
            {
                let p = i / 4;
                if tile_of(p) < 384 {
                    pixel_rgba(mem, tile_pixel(mem.vram, tile_of(p), row_of(p), col_of(p)))[i % 4]
                } else {
                    old[i]
                }
            },
    )
}

/// The tile shown at place `i` (0 to 1023) of the background map: the byte is
/// a tile number, or with the other addressing mode a signed offset from tile 256.
// https://gbdev.io/pandocs/Tile_Maps.html
pub open spec fn bg_tile_index(mem: MemState, i: int) -> int {
    let index = mem.vram[0x1800 + i];
    if bit_of(mem.io[0x40], 4) {
        index as int
    } else {
        256 + (index as i8) as int
    }
}

/// The RGBA background map: 32 * 32 tiles of the map, colored.
pub open spec fn colored_tilemap(mem: MemState) -> Seq<u8> {
    Seq::new(
        262144,
        |i: int|
            {
                let p = i / 4;
                pixel_rgba(mem, tile_pixel(mem.vram, bg_tile_index(mem, tile_of(p)), row_of(p), col_of(p)))[i % 4]
            },
    )
}


// ---- drawing a line of the screen ----

/// The screen line `line` copied from the background map, scrolled by (scx, scy).
pub open spec fn bg_line(fb: Seq<u8>, tilemap: Seq<u8>, line: int, scx: int, scy: int) -> Seq<u8> {
    Seq::new(
        fb.len(),
        |j: int|
            {
                let q = j / 4;
                if line * 160 <= q < line * 160 + 160 {
                    let tilemap_y = (line + scy) % 256;
                    let tilemap_x = (q - line * 160 + scx) % 256;
                    tilemap[(tilemap_y * 256 + tilemap_x) * 4 + j % 4]
                } else {
                    fb[j]
                }
            },
    )
}

/// The screen line `line` painted in the "screen off" color.
pub open spec fn blank_line(fb: Seq<u8>, line: int) -> Seq<u8> {
    Seq::new(fb.len(), |j: int| if line * 640 <= j < line * 640 + 640 { 30u8 } else { fb[j] })
}

// https://gbdev.io/pandocs/OAM.html
/// The screen row of the top of object `obj` (its stored value minus 16).
pub open spec fn object_y(mem: MemState, obj: int) -> int {
    mem.oam[4 * obj] - 16
}

/// The screen column of the left of object `obj` (its stored value minus 8).
pub open spec fn object_x(mem: MemState, obj: int) -> int {
    mem.oam[4 * obj + 1] - 8
}

/// The tile of object `obj`.
pub open spec fn object_tile(mem: MemState, obj: int) -> int {
    mem.oam[4 * obj + 2] as int
}

/// Whether the 8 rows of object `obj` cross screen line `line`.
pub open spec fn object_on_line(mem: MemState, obj: int, line: int) -> bool {
    object_y(mem, obj) <= line < object_y(mem, obj) + 8
}

/// The byte of the atlas that gives byte `k` of column `x` of object `obj` on line `line`.
pub open spec fn object_atlas_byte(mem: MemState, obj: int, line: int, x: int, k: int) -> int {
    let id = object_tile(mem, obj);
    ((id / 32) * 2048 + (id % 32) * 8 + x + (line - object_y(mem, obj)) * 256) * 4 + k
}

/// The screen after the first `n` columns of object `obj` are drawn on line
/// `line`; columns left or right of the screen are skipped.
pub open spec fn draw_object_columns(fb: Seq<u8>, atlas: Seq<u8>, mem: MemState, line: int, obj: int, n: int) -> Seq<u8> {
    Seq::new(
        fb.len(),
        |j: int|
            {
                let x = j / 4 - line * 160 - object_x(mem, obj);
                if 0 <= x < n && 0 <= object_x(mem, obj) + x < 160 {
                    atlas[object_atlas_byte(mem, obj, line, x, j % 4)]
                } else {
                    fb[j]
                }
            },
    )
}

/// The screen after object `obj` is drawn on line `line`, if it crosses it.
pub open spec fn draw_object(fb: Seq<u8>, atlas: Seq<u8>, mem: MemState, line: int, obj: int) -> Seq<u8> {
    if object_on_line(mem, obj, line) {
        draw_object_columns(fb, atlas, mem, line, obj, 8)
    } else {
        fb
    }
}

/// The screen after objects 0 to n - 1 are drawn on line `line`, in that order.
pub open spec fn draw_objects(fb: Seq<u8>, atlas: Seq<u8>, mem: MemState, line: int, n: nat) -> Seq<u8>
    decreases n,
{
    if n == 0 {
        fb
    } else {
        draw_object(draw_objects(fb, atlas, mem, line, (n - 1) as nat), atlas, mem, line, n - 1)
    }
}

/// Drawing objects on screen line `line` changes only the bytes of that
/// line: object pixels left or right of the screen are dropped.
pub proof fn lemma_objects_stay_on_their_line(fb: Seq<u8>, atlas: Seq<u8>, mem: MemState, line: int, n: nat)
    ensures
        draw_objects(fb, atlas, mem, line, n).len() == fb.len(),
        forall|j: int|
            0 <= j < fb.len() && !(line * 640 <= j < line * 640 + 640) ==> #[trigger] draw_objects(
                fb,
                atlas,
                mem,
                line,
                n,
            )[j] == fb[j],
    decreases n,
{
    if n > 0 {
        lemma_objects_stay_on_their_line(fb, atlas, mem, line, (n - 1) as nat);
        let prev = draw_objects(fb, atlas, mem, line, (n - 1) as nat);
        let obj = n - 1;
        assert forall|j: int| 0 <= j < fb.len() && !(line * 640 <= j < line * 640 + 640) implies #[trigger] draw_objects(
            fb,
            atlas,
            mem,
            line,
            n,
        )[j] == fb[j] by {
            assert(prev[j] == fb[j]);
            if object_on_line(mem, obj, line) {
                let x = j / 4 - line * 160 - object_x(mem, obj);
                assert(!(0 <= object_x(mem, obj) + x < 160));
            }
        }
    }
}

/// The background palette register BGP holds four 2-bit shades: pixel value
/// `v` takes the shade in bits 2v+1 and 2v, and shades 0 to 3 go from the
/// lightest color to the darkest.
pub proof fn lemma_palette_bits(mem: MemState, v: u8)
    requires
        v < 4,
    ensures
        pixel_rgba(mem, v) == shade_rgba((mem.io[0x47] >> (2 * v) as u8) & 3),
        shade_rgba(0) == seq![250u8, 251, 246, 255],
        shade_rgba(1) == seq![198u8, 183, 190, 255],
        shade_rgba(2) == seq![86u8, 90, 117, 255],
        shade_rgba(3) == seq![15u8, 15, 27, 255],
{
    let bgp = mem.io[0x47];
    crate::cpu::lemma_byte_bits(bgp, 0);
}

} // verus!
