//! The tile planes A, B and Window: tilemap look-up, scrolling, and the
//! contribution of a plane to each pixel of the frame.
//!
//! A tilemap word holds the tile index in bits 0 to 10, the horizontal and
//! vertical flip in bits 11 and 12, the palette in bits 13 and 14 and the
//! priority in bit 15. A plane is drawn in two passes, first its tiles of
//! low priority, then those of high priority.

use vstd::prelude::*;
use vstd::arithmetic::div_mod::{lemma_add_mod_noop_right, lemma_mod_bound, lemma_mod_multiples_vanish};
use crate::text::{
    bool_text, decimal, hex4, push_bool, push_decimal, push_hex4, push_signed, signed_decimal,
    text_of,
};
use crate::vdp::cram::{argb_of_color, color_to_argb, Cram};
use crate::vdp::framebuffer::{merged, FrameBuffer};
use crate::vdp::registers::{has_bit, signed_byte_of, VdpRegisters, R6_ROW_SCROLL};
use crate::vdp::video_modes::{VdpModeFlags, VdpVideoMode};
use crate::vdp::vram::{
    entry_hflip, entry_palette, entry_priority, entry_tile_index, entry_vflip, Vram,
};
use crate::vdp::vsram::{signed_of, word_to_signed, Vsram};

verus! {

/// Most tiles a plane has along one axis.
pub const MAX_PLANE_TILES: usize = 128;

/// Layer tags of the planes, in the order in which the layers are laid.
pub const TAG_LOW_B: u8 = 1;

pub const TAG_LOW_A: u8 = 2;

pub const TAG_LOW_WINDOW: u8 = 3;

pub const TAG_HIGH_B: u8 = 5;

pub const TAG_HIGH_A: u8 = 6;

pub const TAG_HIGH_WINDOW: u8 = 7;

/// The three planes.
#[derive(Debug, Clone, Copy, PartialEq, Eq, Hash, Structural)]
pub enum PlaneType {
    A,
    B,
    Window,
}

/// The layer tag of a pass of a plane.
pub open spec fn plane_tag(plane_type: PlaneType, high: bool) -> u8 {
    match plane_type {
        PlaneType::B => if high {
            TAG_HIGH_B
        } else {
            TAG_LOW_B
        },
        PlaneType::A => if high {
            TAG_HIGH_A
        } else {
            TAG_LOW_A
        },
        PlaneType::Window => if high {
            TAG_HIGH_WINDOW
        } else {
            TAG_LOW_WINDOW
        },
    }
}

/// A decoded tilemap word.
#[derive(Debug, Clone, Copy, PartialEq, Eq, Structural)]
pub struct TileEntry {
    pub tile_index: u16,
    pub palette: u8,
    pub priority: bool,
    pub flip_horizontal: bool,
    pub flip_vertical: bool,
    pub hscroll_priority: bool,
    pub vscroll_priority: bool,
}

/// The entry that a tilemap word decodes to. The two scroll priorities
/// follow the flip bits.
pub open spec fn entry_of_word(word: u16) -> TileEntry {
    TileEntry {
        tile_index: entry_tile_index(word) as u16,
        palette: entry_palette(word) as u8,
        priority: entry_priority(word),
        flip_horizontal: entry_hflip(word),
        flip_vertical: entry_vflip(word),
        hscroll_priority: entry_hflip(word),
        vscroll_priority: entry_vflip(word),
    }
}

/// The tilemap word of an entry; of the tile index the low eleven bits
/// count, of the palette the low two.
pub open spec fn word_of_entry(entry: TileEntry) -> u16 {
    (entry.tile_index as int % 2048 + (if entry.flip_horizontal {
        2048int
    } else {
        0int
    }) + (if entry.flip_vertical {
        4096int
    } else {
        0int
    }) + (entry.palette as int % 4) * 8192 + (if entry.priority {
        32768int
    } else {
        0int
    })) as u16
}

/// Decoding a tilemap word and encoding the entry gives the word back.
pub proof fn lemma_tile_word_round_trip(word: u16)
    ensures
        word_of_entry(entry_of_word(word)) == word,
{
    let w = word as int;
    assert(w == (w / 32768) * 32768 + ((w / 8192) % 4) * 8192 + ((w / 4096) % 2) * 4096 + ((w
        / 2048) % 2) * 2048 + w % 2048);
}

/// A coordinate inside a tile, mirrored where the tile is flipped along that axis.
pub open spec fn flipped(coord: int, flip: bool) -> int {
    if flip {
        7 - coord % 8
    } else {
        coord % 8
    }
}

impl TileEntry {
    /// Decodes a tilemap word.
    pub fn from_word(word: u16) -> (e: TileEntry)
        ensures
            e == entry_of_word(word),
    {
        let hflip: bool = (word / 2048) % 2 == 1;
        let vflip: bool = (word / 4096) % 2 == 1;
        TileEntry {
            tile_index: word % 2048,
            palette: ((word / 8192) % 4) as u8,
            priority: word >= 0x8000,
            flip_horizontal: hflip,
            flip_vertical: vflip,
            hscroll_priority: hflip,
            vscroll_priority: vflip,
        }
    }

    /// Encodes the entry as a tilemap word.
    pub fn to_word(&self) -> (word: u16)
        ensures
            word == word_of_entry(*self),
    {
        let mut word: u16 = self.tile_index % 2048;
        word = word + (self.palette % 4) as u16 * 8192;
        if self.priority {
            word = word + 32768;
        }
        if self.flip_horizontal {
            word = word + 2048;
        }
        if self.flip_vertical {
            word = word + 4096;
        }
        word
    }

    /// Colour index of the pixel (`x mod 8`, `y mod 8`) of the tile, read as
    /// a 4-bit tile, with the flips applied.
    pub fn get_pixel_color_4bpp(&self, vram: &Vram, x: u8, y: u8) -> (c: u8)
        requires
            vram.wf(),
        ensures
            c == vram.tile_pixel_4bpp(
                self.tile_index as int,
                flipped(x as int, self.flip_horizontal),
                flipped(y as int, self.flip_vertical),
            ),
            c < 16,
    {
        let px: u8 = if self.flip_horizontal {
            7 - x % 8
        } else {
            x % 8
        };
        let py: u8 = if self.flip_vertical {
            7 - y % 8
        } else {
            y % 8
        };
        vram.read_tile_pixel_4bpp(self.tile_index as usize, px as usize, py as usize)
    }

    /// Colour index of the pixel (`x mod 8`, `y mod 8`) of the tile, read as
    /// an 8-bit tile, with the flips applied.
    pub fn get_pixel_color_8bpp(&self, vram: &Vram, x: u8, y: u8) -> (c: u8)
        requires
            vram.wf(),
        ensures
            c == vram.tile_pixel_8bpp(
                self.tile_index as int,
                flipped(x as int, self.flip_horizontal),
                flipped(y as int, self.flip_vertical),
            ),
    {
        let px: u8 = if self.flip_horizontal {
            7 - x % 8
        } else {
            x % 8
        };
        let py: u8 = if self.flip_vertical {
            7 - y % 8
        } else {
            y % 8
        };
        vram.read_tile_pixel_8bpp(self.tile_index as usize, px as usize, py as usize)
    }
}

/// A plane: where its tilemap lies, how large it is and how far it is scrolled.
#[derive(Clone, Copy, Debug)]
pub struct Plane {
    pub plane_type: PlaneType,
    pub name_table_addr: u32,
    pub width_tiles: usize,
    pub height_tiles: usize,
    pub width_pixels: usize,
    pub height_pixels: usize,
    pub enabled: bool,
    pub priority: u8,
    pub scroll_x: i32,
    pub scroll_y: i32,
    pub window_x: i32,
    pub window_y: i32,
    pub window_hsplit: bool,
    pub window_vsplit: bool,
}

/// A screen coordinate moved by `shift` and wrapped into a plane `size` pixels long.
pub open spec fn wrapped(pos: int, shift: int, size: int) -> int {
    (pos + shift) % size
}

fn wrap_into(pos: usize, shift: i64, size: usize) -> (r: usize)
    requires
        0 < size <= 1024,
        -0x2_0000_0000 <= shift <= 0x2_0000_0000,
    ensures
        r == wrapped(pos as int, shift as int, size as int),
        r < size,
{
    let base: i64 = (pos % size) as i64;
    assert(0 <= size * 0x4_0000_0000 <= 1024 * 0x4_0000_0000) by (nonlinear_arith)
        requires
            0 < size <= 1024,
    ;
    let lift: i64 = (size as i64) * 0x4_0000_0000;
    let lifted: i64 = base + shift + lift;
    let r: i64 = lifted % (size as i64);
    proof {
        let m = size as int;
        lemma_mod_multiples_vanish(0x4_0000_0000, base + shift, m);
        lemma_add_mod_noop_right(shift as int, pos as int, m);
        assert(((shift as int) + (pos as int % m)) % m == (shift as int + pos as int) % m);
        lemma_mod_bound(lifted as int, m);
    }
    r as usize
}

impl Plane {
    /// The plane has between 1 and 128 tiles a side, eight pixels to a tile.
    pub open spec fn wf(&self) -> bool {
        &&& 1 <= self.width_tiles <= MAX_PLANE_TILES
        &&& 1 <= self.height_tiles <= MAX_PLANE_TILES
        &&& self.width_pixels == self.width_tiles * 8
        &&& self.height_pixels == self.height_tiles * 8
    }

    /// Whether the plane is well formed.
    pub fn is_well_formed(&self) -> (ok: bool)
        ensures
            ok == self.wf(),
    {
        1 <= self.width_tiles && self.width_tiles <= MAX_PLANE_TILES && 1 <= self.height_tiles
            && self.height_tiles <= MAX_PLANE_TILES && self.width_pixels == self.width_tiles * 8
            && self.height_pixels == self.height_tiles * 8
    }

    /// The layer tag of the pass `high` of this plane.
    pub open spec fn tag(&self, high: bool) -> u8 {
        plane_tag(self.plane_type, high)
    }

    /// The plane that the registers describe.
    pub open spec fn of_registers(plane_type: PlaneType, regs: &VdpRegisters) -> Plane {
        let addr = match plane_type {
            PlaneType::A => regs.plane_a_addr,
            PlaneType::B => regs.plane_b_addr,
            PlaneType::Window => regs.window_addr,
        };
        let width = crate::vdp::registers::plane_dimension_of((regs.regs@[16] as int / 16) % 4);
        let height = crate::vdp::registers::plane_dimension_of(regs.regs@[16] as int % 4);
        Plane {
            plane_type,
            name_table_addr: addr as u32,
            width_tiles: width as usize,
            height_tiles: height as usize,
            width_pixels: (width as int * 8) as usize,
            height_pixels: (height as int * 8) as usize,
            enabled: plane_type != PlaneType::Window || addr != 0,
            priority: match plane_type {
                PlaneType::A => 0u8,
                PlaneType::B => 1u8,
                PlaneType::Window => 2u8,
            },
            scroll_x: 0,
            scroll_y: 0,
            window_x: if plane_type == PlaneType::Window {
                signed_byte_of(regs.regs@[17]) as i32
            } else {
                0i32
            },
            window_y: if plane_type == PlaneType::Window {
                signed_byte_of(regs.regs@[18]) as i32
            } else {
                0i32
            },
            window_hsplit: false,
            window_vsplit: false,
        }
    }

    /// The plane that the registers describe: base address, size, and for the
    /// window its position. The window is enabled where it has a base address.
    pub fn new(plane_type: PlaneType, regs: &VdpRegisters, mode: &VdpVideoMode) -> (p: Plane)
        ensures
            p == Self::of_registers(plane_type, regs),
            p.wf(),
    {
        let name_table_addr: u32 = match plane_type {
            PlaneType::A => regs.plane_a_address() as u32,
            PlaneType::B => regs.plane_b_address() as u32,
            PlaneType::Window => regs.window_address() as u32,
        };
        let (width, height) = regs.plane_size();
        let width_tiles: usize = width as usize;
        let height_tiles: usize = height as usize;
        let (window_x, window_y): (i32, i32) = match plane_type {
            PlaneType::Window => {
                let (wx, wy) = regs.window_position();
                (wx as i32, wy as i32)
            },
            _ => (0, 0),
        };
        let enabled: bool = match plane_type {
            PlaneType::Window => name_table_addr != 0,
            _ => true,
        };
        Plane {
            plane_type,
            name_table_addr,
            width_tiles,
            height_tiles,
            width_pixels: width_tiles * 8,
            height_pixels: height_tiles * 8,
            enabled,
            priority: match plane_type {
                PlaneType::A => 0,
                PlaneType::B => 1,
                PlaneType::Window => 2,
            },
            scroll_x: 0,
            scroll_y: 0,
            window_x,
            window_y,
            window_hsplit: false,
            window_vsplit: false,
        }
    }

    /// The plane with the scroll that the registers give it: registers 8 and
    /// 11 for plane A, 9 and 19 for plane B, none for the window.
    pub open spec fn scrolled(self, regs: &VdpRegisters) -> Plane {
        Plane {
            scroll_x: match self.plane_type {
                PlaneType::A => regs.regs@[8] as i32,
                PlaneType::B => regs.regs@[9] as i32,
                PlaneType::Window => 0i32,
            },
            scroll_y: match self.plane_type {
                PlaneType::A => regs.regs@[11] as i32,
                PlaneType::B => regs.regs@[19] as i32,
                PlaneType::Window => 0i32,
            },
            ..self
        }
    }

    /// Takes the scroll of the plane from the registers.
    pub fn update_scroll(&mut self, regs: &VdpRegisters)
        ensures
            *final(self) == old(self).scrolled(regs),
    {
        match self.plane_type {
            PlaneType::A => {
                self.scroll_x = regs.hscroll_a() as i32;
                self.scroll_y = regs.vscroll_a() as i32;
            },
            PlaneType::B => {
                self.scroll_x = regs.hscroll_b() as i32;
                self.scroll_y = regs.vscroll_b() as i32;
            },
            PlaneType::Window => {
                self.scroll_x = 0;
                self.scroll_y = 0;
            },
        }
    }

    /// Address of the tilemap word of tile (`tile_x`, `tile_y`).
    pub open spec fn entry_addr(&self, tile_x: int, tile_y: int) -> int {
        self.name_table_addr as int + (tile_y * self.width_tiles + tile_x) * 2
    }

    /// The tilemap word of tile (`tile_x`, `tile_y`), or `None` where the
    /// tile lies outside the plane or its word outside video RAM.
    pub open spec fn entry_word(&self, vram: &Vram, tile_x: int, tile_y: int) -> Option<u16> {
        if 0 <= tile_x < self.width_tiles && 0 <= tile_y < self.height_tiles {
            vram.checked_word_at(self.entry_addr(tile_x, tile_y))
        } else {
            None
        }
    }

    fn read_entry_word(&self, vram: &Vram, tile_x: usize, tile_y: usize) -> (w: Option<u16>)
        requires
            self.wf(),
            vram.wf(),
        ensures
            w == self.entry_word(vram, tile_x as int, tile_y as int),
    {
        if tile_x >= self.width_tiles || tile_y >= self.height_tiles {
            return None;
        }
        assert(tile_y * self.width_tiles + tile_x < 128 * 128) by (nonlinear_arith)
            requires
                tile_x < self.width_tiles <= 128,
                tile_y < self.height_tiles <= 128,
        ;
        let index: u64 = (tile_y * self.width_tiles + tile_x) as u64;
        vram.read_word_checked(self.name_table_addr as u64 + index * 2)
    }

    /// The entry of tile (`tile_x`, `tile_y`), or `None` where the tile lies
    /// outside the plane or its word outside video RAM.
    pub fn read_tile_entry(&self, vram: &Vram, tile_x: usize, tile_y: usize) -> (e: Option<
        TileEntry,
    >)
        requires
            self.wf(),
            vram.wf(),
        ensures
            e == (match self.entry_word(vram, tile_x as int, tile_y as int) {
                Some(word) => Some(entry_of_word(word)),
                None => None,
            }),
    {
        match self.read_entry_word(vram, tile_x, tile_y) {
            Some(word) => Some(TileEntry::from_word(word)),
            None => None,
        }
    }

    /// Horizontal scroll of line `y` from the scroll table: none unless
    /// register 6 asks for scroll per row; else the signed word of the line,
    /// where the table holds a word for plane A and one for plane B per line.
    /// The window is never scrolled.
    pub open spec fn row_scroll(&self, vram: &Vram, regs: &VdpRegisters, y: int) -> int {
        if self.plane_type == PlaneType::Window || !has_bit(regs.regs@[6], R6_ROW_SCROLL) {
            0
        } else {
            let slot = if self.plane_type == PlaneType::A {
                y * 2
            } else {
                y * 2 + 1
            };
            signed_of(vram.whole_word_at(regs.hscroll_addr as int + slot * 2))
        }
    }

    /// Vertical scroll at (`x`, `y`) from scroll RAM, in the mode that scroll
    /// RAM is in. The window is never scrolled.
    pub open spec fn column_scroll(&self, vsram: &Vsram, x: int, y: int) -> int {
        let line = if y > 0xFFFF {
            0xFFFFu16
        } else {
            y as u16
        };
        let column = if x > 0xFFFF {
            0xFFFFu16
        } else {
            x as u16
        };
        match self.plane_type {
            PlaneType::A => vsram.line_scroll_a(line, column, vsram.scroll_mode),
            PlaneType::B => vsram.line_scroll_b(line, column, vsram.scroll_mode),
            PlaneType::Window => 0,
        }
    }

    /// The column of the plane that the screen place (`x`, `y`) shows.
    pub open spec fn world_x(&self, vram: &Vram, regs: &VdpRegisters, x: int, y: int) -> int {
        wrapped(x, self.scroll_x + self.row_scroll(vram, regs, y), self.width_pixels as int)
    }

    /// The row of the plane that the screen place (`x`, `y`) shows.
    pub open spec fn world_y(&self, vsram: &Vsram, x: int, y: int) -> int {
        wrapped(y, self.scroll_y + self.column_scroll(vsram, x, y), self.height_pixels as int)
    }

    /// The colour that the plane gives to the screen place (`x`, `y`) in the
    /// pass `high`, or `None` where it gives none: the tile has the other
    /// priority, its pixel has colour index 0, or its tilemap word lies
    /// outside video RAM.
    #[verifier::opaque]
    pub open spec fn pixel_color(
        &self,
        vram: &Vram,
        cram: &Cram,
        vsram: &Vsram,
        regs: &VdpRegisters,
        x: int,
        y: int,
        high: bool,
    ) -> Option<u32> {
        let wx = self.world_x(vram, regs, x, y);
        let wy = self.world_y(vsram, x, y);
        match self.entry_word(vram, wx / 8, wy / 8) {
            None => None,
            Some(word) => Self::tile_color(vram, cram, word, wx, wy, high),
        }
    }

    fn row_shift(&self, vram: &Vram, regs: &VdpRegisters, y: usize) -> (shift: i64)
        requires
            vram.wf(),
        ensures
            shift == self.row_scroll(vram, regs, y as int),
            -0x8000 <= shift <= 0x7FFF,
    {
        if matches!(self.plane_type, PlaneType::Window) || !regs.row_scroll_enabled() {
            0
        } else {
            let addr: u128 = regs.hscroll_address() as u128 + y as u128 * 4 + (if matches!(
                self.plane_type,
                PlaneType::A
            ) {
                0
            } else {
                2
            });
            let word: u16 = if addr < u64::MAX as u128 {
                match vram.read_word_checked(addr as u64) {
                    Some(w) => w,
                    None => 0,
                }
            } else {
                0
            };
            word_to_signed(word) as i64
        }
    }

    fn column_shift(&self, vsram: &Vsram, x: usize, y: usize) -> (shift: i64)
        ensures
            shift == self.column_scroll(vsram, x as int, y as int),
            -0x8000 <= shift <= 0x7FFF,
    {
        let line: u16 = if y > 0xFFFF {
            0xFFFF
        } else {
            y as u16
        };
        let column: u16 = if x > 0xFFFF {
            0xFFFF
        } else {
            x as u16
        };
        match self.plane_type {
            PlaneType::A => vsram.get_line_scroll_a(line, column, vsram.scroll_mode) as i64,
            PlaneType::B => vsram.get_line_scroll_b(line, column, vsram.scroll_mode) as i64,
            PlaneType::Window => 0,
        }
    }

    /// The colour that the tile of the tilemap word `word` gives to the pixel
    /// (`wx mod 8`, `wy mod 8`) in the pass `high`.
    pub open spec fn tile_color(
        vram: &Vram,
        cram: &Cram,
        word: u16,
        wx: int,
        wy: int,
        high: bool,
    ) -> Option<u32> {
        let index = vram.tile_pixel_4bpp(
            entry_tile_index(word),
            flipped(wx, entry_hflip(word)),
            flipped(wy, entry_vflip(word)),
        );
        if entry_priority(word) != high || index == 0 {
            None
        } else {
            Some(argb_of_color(cram.data@[(entry_palette(word) * 16 + index) % 64]) as u32)
        }
    }

    fn color_of_tile(vram: &Vram, cram: &Cram, word: u16, wx: usize, wy: usize, high: bool) -> (c:
        Option<u32>)
        requires
            vram.wf(),
        ensures
            c == Self::tile_color(vram, cram, word, wx as int, wy as int, high),
    {
        let entry = TileEntry::from_word(word);
        let index: u8 = entry.get_pixel_color_4bpp(vram, (wx % 8) as u8, (wy % 8) as u8);
        if entry.priority != high || index == 0 {
            None
        } else {
            let slot: usize = (entry.palette as usize * 16 + index as usize) % 64;
            Some(color_to_argb(cram.data[slot]))
        }
    }

    fn pixel(
        &self,
        vram: &Vram,
        cram: &Cram,
        vsram: &Vsram,
        regs: &VdpRegisters,
        x: usize,
        y: usize,
        high: bool,
    ) -> (c: Option<u32>)
        requires
            self.wf(),
            vram.wf(),
        ensures
            c == self.pixel_color(vram, cram, vsram, regs, x as int, y as int, high),
    {
        reveal(Plane::pixel_color);
        let row: i64 = self.row_shift(vram, regs, y);
        let col: i64 = self.column_shift(vsram, x, y);
        let wx: usize = wrap_into(x, self.scroll_x as i64 + row, self.width_pixels);
        let wy: usize = wrap_into(y, self.scroll_y as i64 + col, self.height_pixels);
        match self.read_entry_word(vram, wx / 8, wy / 8) {
            None => None,
            Some(word) => Self::color_of_tile(vram, cram, word, wx, wy, high),
        }
    }

    /// First and one past the last column or row of the window along one
    /// axis of a screen `limit` long: from `position` to the end where the
    /// position is not negative, else from the start to `limit + position`.
    pub open spec fn window_span(position: int, limit: int) -> (int, int) {
        if position < 0 {
            (0, if limit + position > 0 {
                limit + position
            } else {
                0
            })
        } else if position < limit {
            (position, limit)
        } else {
            (limit, limit)
        }
    }

    fn span_of_window(position: i8, limit: usize) -> (span: (usize, usize))
        ensures
            span.0 == Self::window_span(position as int, limit as int).0,
            span.1 == Self::window_span(position as int, limit as int).1,
            span.0 <= span.1 <= limit,
    {
        if position < 0 {
            let back: usize = (-(position as i16)) as usize;
            if limit > back {
                (0, limit - back)
            } else {
                (0, 0)
            }
        } else if (position as usize) < limit {
            (position as usize, limit)
        } else {
            (limit, limit)
        }
    }

    /// Whether the plane is drawn at the place (`x`, `y`) of a screen
    /// `width` by `height`: the plane is enabled and the display is on, and,
    /// for the window, its position is not (0, 0) and the place lies in the
    /// part of the screen that the position gives it.
    pub open spec fn draws_at(
        &self,
        regs: &VdpRegisters,
        mode: &VdpVideoMode,
        width: int,
        height: int,
        x: int,
        y: int,
    ) -> bool {
        &&& self.enabled
        &&& mode.flags.has(VdpModeFlags::DISPLAY_ENABLED)
        &&& 0 <= x < width
        &&& 0 <= y < height
        &&& self.plane_type == PlaneType::Window ==> {
            let wx = signed_byte_of(regs.regs@[17]);
            let wy = signed_byte_of(regs.regs@[18]);
            &&& !(wx == 0 && wy == 0)
            &&& Self::window_span(wx, width).0 <= x < Self::window_span(wx, width).1
            &&& Self::window_span(wy, height).0 <= y < Self::window_span(wy, height).1
        }
    }

    /// Colour and tag of the place (`x`, `y`) after the pass `high` of the
    /// plane, where `cell` is what the place held before.
    pub open spec fn rendered_cell(
        &self,
        cell: (u32, u8),
        vram: &Vram,
        cram: &Cram,
        vsram: &Vsram,
        regs: &VdpRegisters,
        mode: &VdpVideoMode,
        width: int,
        height: int,
        x: int,
        y: int,
        high: bool,
    ) -> (u32, u8) {
        if self.draws_at(regs, mode, width, height, x, y) {
            match self.pixel_color(vram, cram, vsram, regs, x, y, high) {
                Some(c) => merged(cell, c, self.tag(high)),
                None => cell,
            }
        } else {
            cell
        }
    }

    /// Draws one pass of the plane: with `render_priority` its tiles of high
    /// priority, without it those of low priority. Each pixel that the plane
    /// colours is offered to the frame buffer under the layer tag of the pass.
    pub fn render(
        &self,
        framebuffer: &mut FrameBuffer,
        vram: &Vram,
        cram: &Cram,
        vsram: &Vsram,
        regs: &VdpRegisters,
        mode: &VdpVideoMode,
        render_priority: bool,
    )
        requires
            self.wf(),
            vram.wf(),
            old(framebuffer).wf(),
        ensures
            final(framebuffer).wf(),
            final(framebuffer).same_size(old(framebuffer)),
            forall|x: int, y: int|
                final(framebuffer).contains(x, y) ==> final(framebuffer).cell(x, y)
                    == self.rendered_cell(
                    old(framebuffer).cell(x, y),
                    vram,
                    cram,
                    vsram,
                    regs,
                    mode,
                    old(framebuffer).width as int,
                    old(framebuffer).height as int,
                    x,
                    y,
                    render_priority,
                ),
    {
        if !self.enabled || !mode.display_enabled() {
            return ;
        }
        let width: usize = framebuffer.width;
        let height: usize = framebuffer.height;
        let (x0, x1, y0, y1): (usize, usize, usize, usize) = match self.plane_type {
            PlaneType::Window => {
                let (wx, wy) = regs.window_position();
                if wx == 0 && wy == 0 {
                    return ;
                }
                let (sx, ex) = Self::span_of_window(wx, width);
                let (sy, ey) = Self::span_of_window(wy, height);
                (sx, ex, sy, ey)
            },
            _ => (0, width, 0, height),
        };
        let tag: u8 = match self.plane_type {
            PlaneType::B => if render_priority {
                TAG_HIGH_B
            } else {
                TAG_LOW_B
            },
            PlaneType::A => if render_priority {
                TAG_HIGH_A
            } else {
                TAG_LOW_A
            },
            PlaneType::Window => if render_priority {
                TAG_HIGH_WINDOW
            } else {
                TAG_LOW_WINDOW
            },
        };
        let mut y: usize = y0;
        while y < y1
            invariant
                self.wf(),
                vram.wf(),
                framebuffer.wf(),
                framebuffer.same_size(old(framebuffer)),
                width == framebuffer.width,
                height == framebuffer.height,
                x0 <= x1 <= width,
                y0 <= y <= y1 <= height,
                tag == self.tag(render_priority),
                forall|px: int, py: int|
                    0 <= px < width && 0 <= py < height ==> (self.draws_at(
                        regs,
                        mode,
                        width as int,
                        height as int,
                        px,
                        py,
                    ) <==> x0 <= px < x1 && y0 <= py < y1),
                forall|px: int, py: int|
                    framebuffer.contains(px, py) ==> framebuffer.cell(px, py) == (if py < y {
                        self.rendered_cell(
                            old(framebuffer).cell(px, py),
                            vram,
                            cram,
                            vsram,
                            regs,
                            mode,
                            width as int,
                            height as int,
                            px,
                            py,
                            render_priority,
                        )
                    } else {
                        old(framebuffer).cell(px, py)
                    }),
            decreases y1 - y,
        {
            let mut x: usize = x0;
            while x < x1
                invariant
                    self.wf(),
                    vram.wf(),
                    framebuffer.wf(),
                    framebuffer.same_size(old(framebuffer)),
                    width == framebuffer.width,
                    height == framebuffer.height,
                    x0 <= x <= x1 <= width,
                    y0 <= y < y1 <= height,
                    tag == self.tag(render_priority),
                    forall|px: int, py: int|
                        0 <= px < width && 0 <= py < height ==> (self.draws_at(
                            regs,
                            mode,
                            width as int,
                            height as int,
                            px,
                            py,
                        ) <==> x0 <= px < x1 && y0 <= py < y1),
                    forall|px: int, py: int|
                        framebuffer.contains(px, py) ==> framebuffer.cell(px, py) == (if py < y
                            || (py == y && px < x) {
                            self.rendered_cell(
                                old(framebuffer).cell(px, py),
                                vram,
                                cram,
                                vsram,
                                regs,
                                mode,
                                width as int,
                                height as int,
                                px,
                                py,
                                render_priority,
                            )
                        } else {
                            old(framebuffer).cell(px, py)
                        }),
                decreases x1 - x,
            {
                match self.pixel(vram, cram, vsram, regs, x, y, render_priority) {
                    Some(c) => {
                        framebuffer.merge_pixel(x, y, c, tag);
                    },
                    None => {},
                }
                x += 1;
            }
            y += 1;
        }
    }

    /// Draws one pass of the plane as `render` does. The area named is a
    /// hint; the whole pass is drawn.
    pub fn render_region(
        &self,
        framebuffer: &mut FrameBuffer,
        vram: &Vram,
        cram: &Cram,
        vsram: &Vsram,
        regs: &VdpRegisters,
        mode: &VdpVideoMode,
        start_x: usize,
        start_y: usize,
        width: usize,
        height: usize,
        render_priority: bool,
    )
        requires
            self.wf(),
            vram.wf(),
            old(framebuffer).wf(),
        ensures
            final(framebuffer).wf(),
            final(framebuffer).same_size(old(framebuffer)),
            forall|x: int, y: int|
                final(framebuffer).contains(x, y) ==> final(framebuffer).cell(x, y)
                    == self.rendered_cell(
                    old(framebuffer).cell(x, y),
                    vram,
                    cram,
                    vsram,
                    regs,
                    mode,
                    old(framebuffer).width as int,
                    old(framebuffer).height as int,
                    x,
                    y,
                    render_priority,
                ),
    {
        self.render(framebuffer, vram, cram, vsram, regs, mode, render_priority);
    }

    /// Whether the point (`x`, `y`) lies on the plane: inside its pixels,
    /// counted for the window from the position of the window.
    pub fn contains_point(&self, x: i32, y: i32) -> (b: bool)
        ensures
            b == (if self.plane_type == PlaneType::Window {
                0 <= x - self.window_x < self.width_pixels && 0 <= y - self.window_y
                    < self.height_pixels
            } else {
                0 <= x < self.width_pixels && 0 <= y < self.height_pixels
            }),
    {
        let (px, py): (i64, i64) = match self.plane_type {
            PlaneType::Window => (x as i64 - self.window_x as i64, y as i64 - self.window_y as i64),
            _ => (x as i64, y as i64),
        };
        px >= 0 && py >= 0 && (px as u64) < self.width_pixels as u64 && (py as u64)
            < self.height_pixels as u64
    }
}

/// The three planes and the order in which they are laid.
#[derive(Clone)]
pub struct PlaneManager {
    pub plane_a: Plane,
    pub plane_b: Plane,
    pub plane_window: Plane,
    pub plane_order: Vec<PlaneType>,
}

impl PlaneManager {
    /// The three planes are well formed.
    pub open spec fn wf(&self) -> bool {
        self.plane_a.wf() && self.plane_b.wf() && self.plane_window.wf()
    }

    /// Whether the three planes are well formed.
    pub fn is_well_formed(&self) -> (ok: bool)
        ensures
            ok == self.wf(),
    {
        self.plane_a.is_well_formed() && self.plane_b.is_well_formed()
            && self.plane_window.is_well_formed()
    }

    /// Colour and tag of the place (`x`, `y`) after the three planes were
    /// laid over `cell` in the pass `high`: B, then A, then the window.
    #[verifier::opaque]
    pub open spec fn pass_cell(
        &self,
        cell: (u32, u8),
        vram: &Vram,
        cram: &Cram,
        vsram: &Vsram,
        regs: &VdpRegisters,
        mode: &VdpVideoMode,
        width: int,
        height: int,
        x: int,
        y: int,
        high: bool,
    ) -> (u32, u8) {
        self.plane_window.rendered_cell(
            self.plane_a.rendered_cell(
                self.plane_b.rendered_cell(
                    cell,
                    vram,
                    cram,
                    vsram,
                    regs,
                    mode,
                    width,
                    height,
                    x,
                    y,
                    high,
                ),
                vram,
                cram,
                vsram,
                regs,
                mode,
                width,
                height,
                x,
                y,
                high,
            ),
            vram,
            cram,
            vsram,
            regs,
            mode,
            width,
            height,
            x,
            y,
            high,
        )
    }

    /// The planes that the registers describe, laid in the order B, A, window.
    pub fn new(regs: &VdpRegisters, mode: &VdpVideoMode) -> (m: PlaneManager)
        ensures
            m.plane_a == Plane::of_registers(PlaneType::A, regs),
            m.plane_b == Plane::of_registers(PlaneType::B, regs),
            m.plane_window == Plane::of_registers(PlaneType::Window, regs),
            m.plane_order@ == seq![PlaneType::B, PlaneType::A, PlaneType::Window],
            m.wf(),
    {
        let mut order: Vec<PlaneType> = Vec::new();
        order.push(PlaneType::B);
        order.push(PlaneType::A);
        order.push(PlaneType::Window);
        assert(order@ =~= seq![PlaneType::B, PlaneType::A, PlaneType::Window]);
        PlaneManager {
            plane_a: Plane::new(PlaneType::A, regs, mode),
            plane_b: Plane::new(PlaneType::B, regs, mode),
            plane_window: Plane::new(PlaneType::Window, regs, mode),
            plane_order: order,
        }
    }

    /// The planes with the scroll that the registers give to the first two.
    pub open spec fn scrolled(&self, regs: &VdpRegisters) -> (Plane, Plane, Plane) {
        (self.plane_a.scrolled(regs), self.plane_b.scrolled(regs), self.plane_window)
    }

    /// Takes the scroll of the first two planes from the registers.
    pub fn update(&mut self, regs: &VdpRegisters, mode: &VdpVideoMode)
        requires
            old(self).wf(),
        ensures
            final(self).wf(),
            (final(self).plane_a, final(self).plane_b, final(self).plane_window) == old(self).scrolled(regs),
            final(self).plane_order == old(self).plane_order,
    {
        self.plane_a.update_scroll(regs);
        self.plane_b.update_scroll(regs);
    }

    /// One pass of the three planes, in the order B, A, window.
    pub fn render_pass(
        &self,
        framebuffer: &mut FrameBuffer,
        vram: &Vram,
        cram: &Cram,
        vsram: &Vsram,
        regs: &VdpRegisters,
        mode: &VdpVideoMode,
        high: bool,
    )
        requires
            self.wf(),
            vram.wf(),
            old(framebuffer).wf(),
        ensures
            final(framebuffer).wf(),
            final(framebuffer).same_size(old(framebuffer)),
            forall|x: int, y: int|
                final(framebuffer).contains(x, y) ==> final(framebuffer).cell(x, y)
                    == self.pass_cell(
                    old(framebuffer).cell(x, y),
                    vram,
                    cram,
                    vsram,
                    regs,
                    mode,
                    old(framebuffer).width as int,
                    old(framebuffer).height as int,
                    x,
                    y,
                    high,
                ),
    {
        reveal(PlaneManager::pass_cell);
        self.plane_b.render(framebuffer, vram, cram, vsram, regs, mode, high);
        self.plane_a.render(framebuffer, vram, cram, vsram, regs, mode, high);
        self.plane_window.render(framebuffer, vram, cram, vsram, regs, mode, high);
    }

    /// Fills the frame buffer with the background colour and lays the three
    /// planes over it, first their tiles of low priority, then those of high
    /// priority.
    pub fn render_all(
        &self,
        framebuffer: &mut FrameBuffer,
        vram: &Vram,
        cram: &Cram,
        vsram: &Vsram,
        regs: &VdpRegisters,
        mode: &VdpVideoMode,
    )
        requires
            self.wf(),
            vram.wf(),
            old(framebuffer).wf(),
        ensures
            final(framebuffer).wf(),
            final(framebuffer).same_size(old(framebuffer)),
            forall|x: int, y: int|
                final(framebuffer).contains(x, y) ==> final(framebuffer).cell(x, y)
                    == self.pass_cell(
                    self.pass_cell(
                        (background_color(regs, cram), 0u8),
                        vram,
                        cram,
                        vsram,
                        regs,
                        mode,
                        old(framebuffer).width as int,
                        old(framebuffer).height as int,
                        x,
                        y,
                        false,
                    ),
                    vram,
                    cram,
                    vsram,
                    regs,
                    mode,
                    old(framebuffer).width as int,
                    old(framebuffer).height as int,
                    x,
                    y,
                    true,
                ),
    {
        let bg: u32 = background(regs, cram);
        framebuffer.clear(bg);
        self.render_pass(framebuffer, vram, cram, vsram, regs, mode, false);
        self.render_pass(framebuffer, vram, cram, vsram, regs, mode, true);
    }
}

/// The name of a plane.
pub open spec fn plane_name(plane_type: PlaneType) -> &'static str {
    match plane_type {
        PlaneType::A => "A",
        PlaneType::B => "B",
        PlaneType::Window => "Window",
    }
}

/// The name of a plane.
pub fn plane_text(plane_type: PlaneType) -> (name: &'static str)
    ensures
        name@ == plane_name(plane_type)@,
{
    match plane_type {
        PlaneType::A => "A",
        PlaneType::B => "B",
        PlaneType::Window => "Window",
    }
}

/// The names of the first `n` planes of a list, separated by a comma and a blank.
pub open spec fn plane_list(order: Seq<PlaneType>, n: int) -> Seq<char>
    decreases n,
{
    if n <= 0 {
        Seq::empty()
    } else if n == 1 {
        plane_name(order[0])@
    } else {
        plane_list(order, n - 1) + ", "@ + plane_name(order[n - 1])@
    }
}

impl Plane {
    /// The one-line report of the plane.
    pub open spec fn info_text(&self) -> Seq<char> {
        "Plane "@ + plane_name(self.plane_type)@ + ": "@ + decimal(self.width_tiles as nat) + "x"@
            + decimal(self.height_tiles as nat) + " tiles ("@ + decimal(self.width_pixels as nat)
            + "x"@ + decimal(self.height_pixels as nat) + " pixels), addr: 0x"@ + hex4(
            self.name_table_addr as nat,
        ) + ", enabled: "@ + bool_text(self.enabled) + ", scroll: ("@ + signed_decimal(
            self.scroll_x as int,
        ) + ", "@ + signed_decimal(self.scroll_y as int) + ")"@
    }

    /// A one-line report: size, base address, whether enabled, and scroll.
    pub fn get_info(&self) -> (info: String)
        ensures
            info@ == self.info_text(),
    {
        let mut s = text_of("Plane ");
        s.push_str(plane_text(self.plane_type));
        s.push_str(": ");
        push_decimal(&mut s, self.width_tiles as u64);
        s.push_str("x");
        push_decimal(&mut s, self.height_tiles as u64);
        s.push_str(" tiles (");
        push_decimal(&mut s, self.width_pixels as u64);
        s.push_str("x");
        push_decimal(&mut s, self.height_pixels as u64);
        s.push_str(" pixels), addr: 0x");
        push_hex4(&mut s, self.name_table_addr);
        s.push_str(", enabled: ");
        push_bool(&mut s, self.enabled);
        s.push_str(", scroll: (");
        push_signed(&mut s, self.scroll_x as i64);
        s.push_str(", ");
        push_signed(&mut s, self.scroll_y as i64);
        s.push_str(")");
        s
    }
}

impl PlaneManager {
    /// The four lines of the report: the three planes and the order.
    pub open spec fn debug_text(&self) -> Seq<Seq<char>> {
        seq![
            self.plane_a.info_text(),
            self.plane_b.info_text(),
            self.plane_window.info_text(),
            "Render order: ["@ + plane_list(self.plane_order@, self.plane_order@.len() as int)
                + "]"@,
        ]
    }

    /// The reports of the three planes and the order in which they are laid.
    pub fn get_debug_info(&self) -> (info: Vec<String>)
        ensures
            info@.len() == 4,
            forall|i: int| 0 <= i < 4 ==> info@[i]@ == self.debug_text()[i],
    {
        let mut info: Vec<String> = Vec::new();
        info.push(self.plane_a.get_info());
        info.push(self.plane_b.get_info());
        info.push(self.plane_window.get_info());
        let mut s = text_of("Render order: [");
        let n: usize = self.plane_order.len();
        let mut i: usize = 0;
        proof {
            assert("Render order: ["@ + plane_list(self.plane_order@, 0) =~= "Render order: ["@);
        }
        while i < n
            invariant
                n == self.plane_order@.len(),
                i <= n,
                s@ == "Render order: ["@ + plane_list(self.plane_order@, i as int),
            decreases n - i,
        {
            let ghost before = s@;
            if i > 0 {
                s.push_str(", ");
            }
            s.push_str(plane_text(self.plane_order[i]));
            proof {
                let head = "Render order: ["@;
                let name = plane_name(self.plane_order@[i as int])@;
                if i > 0 {
                    assert(head + plane_list(self.plane_order@, i as int) + ", "@ + name =~= head
                        + (plane_list(self.plane_order@, i as int) + ", "@ + name));
                } else {
                    assert(plane_list(self.plane_order@, 0) =~= Seq::<char>::empty());
                    assert(head + plane_list(self.plane_order@, 0) + name =~= head + name);
                }
            }
            i += 1;
        }
        s.push_str("]");
        info.push(s);
        info
    }
}

/// The background colour: the colour RAM entry that register 7 selects.
pub open spec fn background_color(regs: &VdpRegisters, cram: &Cram) -> u32 {
    argb_of_color(cram.data@[regs.regs@[7] as int % 64]) as u32
}

/// The background colour: the colour RAM entry that register 7 selects.
pub fn background(regs: &VdpRegisters, cram: &Cram) -> (c: u32)
    ensures
        c == background_color(regs, cram),
        c >= 0xFF00_0000,
{
    color_to_argb(cram.data[(regs.background_color_index() % 64) as usize])
}

} // verus!
