//! What a frame shows for one content of the memories: a single tile on
//! plane A over the background.
//!
//! Plane A has its tilemap at 0xC000 and is 64 by 32 tiles. The first word
//! of the tilemap names tile 1, whose 32 bytes are all 0x11, so that each of
//! its pixels has colour index 1. Everything else in video RAM is zero.
//! Plane B lies wherever its register puts it. Nothing is scrolled, the
//! window is off and there are no sprites. The
//! frame then shows entry 1 of colour RAM in its top left block of eight by
//! eight pixels and the background colour everywhere else.

use vstd::prelude::*;
use crate::vdp::cram::{argb_of_color, Cram};
use crate::vdp::planes::{background_color, Plane, PlaneType};
use crate::vdp::registers::{
    has_bit, RegistersView, VdpRegisters, R1_DISPLAY_ENABLE, R6_ROW_SCROLL,
};
use crate::vdp::renderer::{composite_cell, frame_cell, planes_of, RenderFlags};
use crate::vdp::sprite::Sprite;
use crate::vdp::video_modes::{lemma_mode_of_registers, VdpModeFlags, VdpVideoMode};
use crate::vdp::vram::Vram;
use crate::vdp::vsram::{ScrollMode, Vsram};

verus! {

/// Where the tilemap of plane A lies.
pub const PICTURE_PLANE_A: u16 = 0xC000;

/// The byte that video RAM holds at an address: 0x11 in the 32 bytes of
/// tile 1, the number 1 in the low byte of the first word of the tilemap of
/// plane A, and zero everywhere else.
pub open spec fn picture_byte(addr: int) -> u8 {
    if 0x20 <= addr < 0x40 {
        0x11
    } else if addr == 0xC000 {
        1
    } else {
        0
    }
}

/// Video RAM of 64 KiB that holds tile 1 and the tilemap word that names
/// it, and nothing else.
pub open spec fn one_tile_vram(vram: &Vram) -> bool {
    &&& vram.data@.len() == 0x1_0000
    &&& forall|addr: int| 0 <= addr < 0x1_0000 ==> #[trigger] vram.data@[addr] == picture_byte(addr)
}

/// Registers that put plane A at 0xC000 and plane B at any of the bases
/// that its register can select, the multiples of 0x2000, make the planes 64
/// by 32 tiles, scroll nothing and leave the window off.
pub open spec fn one_tile_registers(regs: &VdpRegisters) -> bool {
    &&& regs.regs@.len() == 24
    &&& regs.plane_a_addr == PICTURE_PLANE_A
    &&& regs.plane_b_addr as int % 0x2000 == 0
    &&& regs.regs@[16] == 0x10
    &&& regs.regs@[8] == 0
    &&& regs.regs@[9] == 0
    &&& regs.regs@[11] == 0
    &&& regs.regs@[19] == 0
    &&& !has_bit(regs.regs@[6], R6_ROW_SCROLL)
    &&& regs.regs@[17] == 0
    &&& regs.regs@[18] == 0
}

/// The registers after power-on and the writes that set the picture up:
/// the display on, plane A at 0xC000, the wide mode, planes of 64 by 32
/// tiles and a background entry; and, where `plane_b` names a value, that
/// value written to the register of the base of plane B.
pub open spec fn picture_registers(background: u8, plane_b: Option<u8>) -> RegistersView {
    let written = RegistersView::initial().write_reg(1, 0x40).write_reg(2, 0x30).write_reg(
        12,
        0x01,
    ).write_reg(16, 0x10).write_reg(7, background);
    match plane_b {
        Some(value) => written.write_reg(4, value),
        None => written,
    }
}

/// Registers that were powered on and written as `picture_registers` says
/// are registers of the one-tile content, wherever the base of plane B was
/// put, and give a mode of 320 by 224 pixels with the display on.
pub proof fn lemma_picture_registers(regs: &VdpRegisters, background: u8, plane_b: Option<u8>)
    requires
        regs@ == picture_registers(background, plane_b),
    ensures
        one_tile_registers(regs),
        regs.regs@[7] == background,
        VdpVideoMode::of_registers(regs, false).flags.has(VdpModeFlags::DISPLAY_ENABLED),
        VdpVideoMode::of_registers(regs, false).visible_width == 320,
        VdpVideoMode::of_registers(regs, false).visible_height == 224,
{
    reveal(RegistersView::write_reg);
    reveal(RegistersView::set_register);
    reveal(RegistersView::register_effect);
    assert(0x40u8 & 0x40u8 != 0) by (bit_vector);
    assert(0u8 & 0x01u8 == 0) by (bit_vector);
    assert(has_bit(0x40, R1_DISPLAY_ENABLE));
    assert(!has_bit(0, R6_ROW_SCROLL));
    let v1 = RegistersView::initial().write_reg(1, 0x40);
    let v2 = v1.write_reg(2, 0x30);
    let v3 = v2.write_reg(12, 0x01);
    let v4 = v3.write_reg(16, 0x10);
    let v5 = v4.write_reg(7, background);
    assert(v5.regs =~= Seq::new(
        24,
        |i: int|
            if i == 1 {
                0x40u8
            } else if i == 2 {
                0x30u8
            } else if i == 7 {
                background
            } else if i == 12 {
                1u8
            } else if i == 15 {
                2u8
            } else if i == 16 {
                0x10u8
            } else {
                0u8
            },
    ));
    assert(v5.plane_a_addr == 0xC000 && v5.plane_b_addr == 0xE000);
    lemma_mode_of_registers(regs, false);
}

/// Scroll RAM that scrolls neither plane anywhere.
pub open spec fn unscrolled(vsram: &Vsram) -> bool {
    forall|line: u16, column: u16|
        #![trigger vsram.line_scroll_a(line, column, vsram.scroll_mode)]
        #![trigger vsram.line_scroll_b(line, column, vsram.scroll_mode)]
        vsram.line_scroll_a(line, column, vsram.scroll_mode) == 0 && vsram.line_scroll_b(
            line,
            column,
            vsram.scroll_mode,
        ) == 0
}

/// Scroll RAM in its global mode whose two global scrolls are zero, as it
/// is after power-on, scrolls neither plane anywhere.
pub proof fn lemma_global_scroll_of_zero(vsram: &Vsram)
    requires
        vsram.scroll_mode == ScrollMode::Global,
        vsram.plane_a_scroll == 0,
        vsram.plane_b_scroll == 0,
    ensures
        unscrolled(vsram),
{
}

/// The word that video RAM holds at an even address: sixteen bits of tile 1
/// inside the tile, the number 1 at the start of the tilemap of plane A,
/// and zero everywhere else.
pub open spec fn picture_word(addr: int) -> u16 {
    if 0x20 <= addr < 0x40 {
        0x1111
    } else if addr == 0xC000 {
        1
    } else {
        0
    }
}

/// The words of the one-tile content.
proof fn lemma_picture_words(vram: &Vram, addr: int)
    requires
        one_tile_vram(vram),
        0 <= addr < 0xFFFF,
        addr % 2 == 0,
    ensures
        vram.checked_word_at(addr) == Some(picture_word(addr)),
{
    assert(vram.data@[addr] == picture_byte(addr));
    assert(vram.data@[addr + 1] == picture_byte(addr + 1));
}

/// The colour that the tile of a tilemap word of the one-tile content
/// gives: entry 1 of colour RAM for the word that names tile 1, in the low
/// pass, and none for the others.
proof fn lemma_picture_tiles(vram: &Vram, cram: &Cram, word: u16, wx: int, wy: int, high: bool)
    requires
        one_tile_vram(vram),
        word == 0 || word == 1 || word == 0x1111,
        0 <= wx,
        0 <= wy,
    ensures
        Plane::tile_color(vram, cram, word, wx, wy, high) == (if word == 1 && !high {
            Some(argb_of_color(cram.data@[1]) as u32)
        } else {
            None::<u32>
        }),
{
    let px = wx % 8;
    let py = wy % 8;
    let straight = py * 4 + px / 2;
    let mirrored = (7 - py) * 4 + px / 2;
    assert(0 <= straight < 32 && 0 <= mirrored < 32);
    assert(vram.data@[straight] == picture_byte(straight));
    assert(vram.data@[32 + straight] == picture_byte(32 + straight));
    assert(vram.data@[0x111 * 32 + mirrored] == picture_byte(0x111 * 32 + mirrored));
}

/// Neither plane is scrolled: each shows at a place of the screen the same
/// place of the plane.
proof fn lemma_picture_places(regs: &VdpRegisters, vram: &Vram, vsram: &Vsram, x: int, y: int)
    requires
        one_tile_registers(regs),
        unscrolled(vsram),
        0 <= x < 512,
        0 <= y < 256,
    ensures
        planes_of(regs).0.world_x(vram, regs, x, y) == x,
        planes_of(regs).0.world_y(vsram, x, y) == y,
        planes_of(regs).1.world_x(vram, regs, x, y) == x,
        planes_of(regs).1.world_y(vsram, x, y) == y,
        planes_of(regs).0.width_tiles == 64,
        planes_of(regs).0.height_tiles == 32,
        planes_of(regs).1.width_tiles == 64,
        planes_of(regs).1.height_tiles == 32,
        planes_of(regs).0.name_table_addr == PICTURE_PLANE_A,
        planes_of(regs).1.name_table_addr == regs.plane_b_addr,
{
    let a = planes_of(regs).0;
    let b = planes_of(regs).1;
    let line = y as u16;
    let column = x as u16;
    assert(vsram.line_scroll_a(line, column, vsram.scroll_mode) == 0);
    assert(vsram.line_scroll_b(line, column, vsram.scroll_mode) == 0);
    assert(a.width_tiles == 64 && a.height_tiles == 32);
    assert(b.width_tiles == 64 && b.height_tiles == 32);
    assert(a.width_pixels == 512 && a.height_pixels == 256);
    assert(b.width_pixels == 512 && b.height_pixels == 256);
    assert(a.plane_type == PlaneType::A && b.plane_type == PlaneType::B);
    assert(a.scroll_x == 0 && a.scroll_y == 0 && b.scroll_x == 0 && b.scroll_y == 0);
    assert(a.row_scroll(vram, regs, y) == 0);
    assert(b.row_scroll(vram, regs, y) == 0);
    assert(a.column_scroll(vsram, x, y) == 0);
    assert(b.column_scroll(vsram, x, y) == 0);
}

/// The colour that a plane gives to a place of the screen in a pass, for
/// the one-tile content: plane A gives entry 1 of colour RAM to the block of
/// eight by eight pixels at the top left in the low pass, and so does plane
/// B where it shares the tilemap of plane A; nothing else is given.
proof fn lemma_plane_colors(
    regs: &VdpRegisters,
    cram: &Cram,
    vram: &Vram,
    vsram: &Vsram,
    x: int,
    y: int,
    high: bool,
)
    requires
        one_tile_registers(regs),
        one_tile_vram(vram),
        unscrolled(vsram),
        0 <= x < 512,
        0 <= y < 256,
    ensures
        planes_of(regs).0.pixel_color(vram, cram, vsram, regs, x, y, high) == (if x < 8 && y < 8
            && !high {
            Some(argb_of_color(cram.data@[1]) as u32)
        } else {
            None::<u32>
        }),
        planes_of(regs).1.pixel_color(vram, cram, vsram, regs, x, y, high) == (if x < 8 && y < 8
            && !high && regs.plane_b_addr == PICTURE_PLANE_A {
            Some(argb_of_color(cram.data@[1]) as u32)
        } else {
            None::<u32>
        }),
{
    reveal(Plane::pixel_color);
    lemma_picture_places(regs, vram, vsram, x, y);
    let a = planes_of(regs).0;
    let b = planes_of(regs).1;
    let tx = x / 8;
    let ty = y / 8;
    let cell = ty * 64 + tx;
    assert(0 <= cell < 2048);
    assert(cell == 0 <==> (x < 8 && y < 8));
    let base_b = regs.plane_b_addr as int;
    assert(base_b == 0 || base_b == 0x2000 || base_b == 0x4000 || base_b == 0x6000 || base_b
        == 0x8000 || base_b == 0xA000 || base_b == 0xC000 || base_b == 0xE000);
    let addr_a = 0xC000 + cell * 2;
    let addr_b = base_b + cell * 2;
    assert(a.entry_addr(tx, ty) == addr_a);
    assert(b.entry_addr(tx, ty) == addr_b);
    lemma_picture_words(vram, addr_a);
    lemma_picture_words(vram, addr_b);
    assert(a.entry_word(vram, tx, ty) == Some(picture_word(addr_a)));
    assert(b.entry_word(vram, tx, ty) == Some(picture_word(addr_b)));
    lemma_picture_tiles(vram, cram, picture_word(addr_a), x, y, high);
    lemma_picture_tiles(vram, cram, picture_word(addr_b), x, y, high);
}

/// The frame of the one-tile content: entry 1 of colour RAM in the block of
/// eight by eight pixels at the top left, which differs from the background
/// wherever that entry differs from the background entry, and the
/// background colour at every other place.
pub proof fn lemma_one_tile_picture(
    flags: RenderFlags,
    regs: &VdpRegisters,
    cram: &Cram,
    vram: &Vram,
    vsram: &Vsram,
    sprites: Seq<Sprite>,
    sprite_count: usize,
    mode: &VdpVideoMode,
    width: int,
    height: int,
    frames: u64,
    x: int,
    y: int,
)
    requires
        flags.show_background,
        flags.show_planes,
        !flags.debug_overlay,
        mode.flags.has(VdpModeFlags::DISPLAY_ENABLED),
        one_tile_registers(regs),
        one_tile_vram(vram),
        unscrolled(vsram),
        sprites.len() == 0,
        0 <= x < width <= 512,
        0 <= y < height <= 256,
    ensures
        composite_cell(flags, regs, cram, vram, vsram, sprites, mode, width, height, x, y).0 == (
        if x < 8 && y < 8 {
            argb_of_color(cram.data@[1]) as u32
        } else {
            background_color(regs, cram)
        }),
        frame_cell(
            flags,
            regs,
            cram,
            vram,
            vsram,
            sprites,
            sprite_count,
            mode,
            width,
            height,
            frames,
            x,
            y,
        ) == composite_cell(flags, regs, cram, vram, vsram, sprites, mode, width, height, x, y),
        x < 8 && y < 8 && argb_of_color(cram.data@[1]) != argb_of_color(
            cram.data@[regs.regs@[7] as int % 64],
        ) ==> composite_cell(
            flags,
            regs,
            cram,
            vram,
            vsram,
            sprites,
            mode,
            width,
            height,
            x,
            y,
        ).0 != background_color(regs, cram),
{
    reveal(composite_cell);
    lemma_plane_colors(regs, cram, vram, vsram, x, y, false);
    lemma_plane_colors(regs, cram, vram, vsram, x, y, true);
    let window = planes_of(regs).2;
    assert(!window.draws_at(regs, mode, width, height, x, y));
    assert(planes_of(regs).0.draws_at(regs, mode, width, height, x, y));
    assert(planes_of(regs).0.plane_type == PlaneType::A);
    assert(planes_of(regs).1.plane_type == PlaneType::B);
    assert(planes_of(regs).1.draws_at(regs, mode, width, height, x, y));
}

} // verus!
