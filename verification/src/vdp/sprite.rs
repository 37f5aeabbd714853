//! The sprite engine: the sprite attribute table, the limit of sprites per
//! line, collisions, and the contribution of the sprites to each pixel.
//!
//! An entry of the table has four little-endian words: Y, size and link, X,
//! and the tile attributes. Y and X are 9-bit two's-complement numbers with
//! an offset of 128. The size and link word holds the link in bits 0 to 6,
//! the height code in bits 8 and 9 and the width code in bits 10 and 11. The
//! attribute word is laid out as a tilemap word.

use vstd::prelude::*;
use crate::text::{
    bool_text, decimal, hex4, push_bool, push_decimal, push_hex4, push_signed, signed_decimal,
    text_of,
};
use crate::vdp::cram::{argb_of_color, color_to_argb, Cram};
use crate::vdp::framebuffer::{merged, FrameBuffer};
use crate::vdp::planes::flipped;
use crate::vdp::vram::{
    coord_of_word, decode_coord, entry_hflip, entry_palette, entry_priority, entry_tile_index,
    entry_vflip, put8, word_of, Vram,
};

verus! {

/// Most sprites of a frame.
pub const MAX_SPRITES_PER_FRAME: usize = 80;

/// Most sprites shown on a line.
pub const MAX_SPRITES_PER_LINE: usize = 20;

/// Bytes of a table entry.
pub const SPRITE_ENTRY_SIZE: usize = 8;

/// Side of a tile in pixels.
pub const TILE_SIZE: usize = 8;

/// Lines for which the number of sprites is recorded.
pub const RECORDED_LINES: usize = 512;

/// Layer tags of the sprites of low and of high priority.
pub const TAG_LOW_SPRITE: u8 = 4;

pub const TAG_HIGH_SPRITE: u8 = 8;

/// The sixteen sizes of a sprite, width by height in tiles.
#[derive(Debug, Clone, Copy, PartialEq, Eq, Structural)]
pub enum SpriteSize {
    Size1x1,
    Size1x2,
    Size1x3,
    Size1x4,
    Size2x1,
    Size2x2,
    Size2x3,
    Size2x4,
    Size3x1,
    Size3x2,
    Size3x3,
    Size3x4,
    Size4x1,
    Size4x2,
    Size4x3,
    Size4x4,
}

/// The size with the given codes, each one less than the number of tiles.
pub open spec fn size_of_codes(width_code: int, height_code: int) -> Option<SpriteSize> {
    if width_code == 0 && height_code == 0 {
        Some(SpriteSize::Size1x1)
    } else if width_code == 0 && height_code == 1 {
        Some(SpriteSize::Size1x2)
    } else if width_code == 0 && height_code == 2 {
        Some(SpriteSize::Size1x3)
    } else if width_code == 0 && height_code == 3 {
        Some(SpriteSize::Size1x4)
    } else if width_code == 1 && height_code == 0 {
        Some(SpriteSize::Size2x1)
    } else if width_code == 1 && height_code == 1 {
        Some(SpriteSize::Size2x2)
    } else if width_code == 1 && height_code == 2 {
        Some(SpriteSize::Size2x3)
    } else if width_code == 1 && height_code == 3 {
        Some(SpriteSize::Size2x4)
    } else if width_code == 2 && height_code == 0 {
        Some(SpriteSize::Size3x1)
    } else if width_code == 2 && height_code == 1 {
        Some(SpriteSize::Size3x2)
    } else if width_code == 2 && height_code == 2 {
        Some(SpriteSize::Size3x3)
    } else if width_code == 2 && height_code == 3 {
        Some(SpriteSize::Size3x4)
    } else if width_code == 3 && height_code == 0 {
        Some(SpriteSize::Size4x1)
    } else if width_code == 3 && height_code == 1 {
        Some(SpriteSize::Size4x2)
    } else if width_code == 3 && height_code == 2 {
        Some(SpriteSize::Size4x3)
    } else if width_code == 3 && height_code == 3 {
        Some(SpriteSize::Size4x4)
    } else {
        None
    }
}

impl SpriteSize {
    /// Width in tiles.
    pub open spec fn tiles_wide(self) -> int {
        match self {
            SpriteSize::Size1x1 | SpriteSize::Size1x2 | SpriteSize::Size1x3 | SpriteSize::Size1x4 => 1,
            SpriteSize::Size2x1 | SpriteSize::Size2x2 | SpriteSize::Size2x3 | SpriteSize::Size2x4 => 2,
            SpriteSize::Size3x1 | SpriteSize::Size3x2 | SpriteSize::Size3x3 | SpriteSize::Size3x4 => 3,
            SpriteSize::Size4x1 | SpriteSize::Size4x2 | SpriteSize::Size4x3 | SpriteSize::Size4x4 => 4,
        }
    }

    /// Height in tiles.
    pub open spec fn tiles_high(self) -> int {
        match self {
            SpriteSize::Size1x1 | SpriteSize::Size2x1 | SpriteSize::Size3x1 | SpriteSize::Size4x1 => 1,
            SpriteSize::Size1x2 | SpriteSize::Size2x2 | SpriteSize::Size3x2 | SpriteSize::Size4x2 => 2,
            SpriteSize::Size1x3 | SpriteSize::Size2x3 | SpriteSize::Size3x3 | SpriteSize::Size4x3 => 3,
            SpriteSize::Size1x4 | SpriteSize::Size2x4 | SpriteSize::Size3x4 | SpriteSize::Size4x4 => 4,
        }
    }

    /// Width and height in tiles.
    pub fn dimensions(&self) -> (d: (u8, u8))
        ensures
            d.0 == self.tiles_wide(),
            d.1 == self.tiles_high(),
            1 <= d.0 <= 4,
            1 <= d.1 <= 4,
    {
        match self {
            SpriteSize::Size1x1 => (1, 1),
            SpriteSize::Size1x2 => (1, 2),
            SpriteSize::Size1x3 => (1, 3),
            SpriteSize::Size1x4 => (1, 4),
            SpriteSize::Size2x1 => (2, 1),
            SpriteSize::Size2x2 => (2, 2),
            SpriteSize::Size2x3 => (2, 3),
            SpriteSize::Size2x4 => (2, 4),
            SpriteSize::Size3x1 => (3, 1),
            SpriteSize::Size3x2 => (3, 2),
            SpriteSize::Size3x3 => (3, 3),
            SpriteSize::Size3x4 => (3, 4),
            SpriteSize::Size4x1 => (4, 1),
            SpriteSize::Size4x2 => (4, 2),
            SpriteSize::Size4x3 => (4, 3),
            SpriteSize::Size4x4 => (4, 4),
        }
    }

    /// Width and height in pixels.
    pub fn pixel_dimensions(&self) -> (d: (usize, usize))
        ensures
            d.0 == self.tiles_wide() * 8,
            d.1 == self.tiles_high() * 8,
    {
        let (w, h) = self.dimensions();
        (w as usize * TILE_SIZE, h as usize * TILE_SIZE)
    }

    /// The size with the given width and height codes, or `None` where a code is above 3.
    pub fn from_hardware_code(width_code: u8, height_code: u8) -> (s: Option<SpriteSize>)
        ensures
            s == size_of_codes(width_code as int, height_code as int),
            s is Some <==> width_code <= 3 && height_code <= 3,
            s is Some ==> s->0.tiles_wide() == width_code + 1 && s->0.tiles_high() == height_code
                + 1,
    {
        if width_code > 3 || height_code > 3 {
            return None;
        }
        let s = match width_code * 4 + height_code {
            0 => SpriteSize::Size1x1,
            1 => SpriteSize::Size1x2,
            2 => SpriteSize::Size1x3,
            3 => SpriteSize::Size1x4,
            4 => SpriteSize::Size2x1,
            5 => SpriteSize::Size2x2,
            6 => SpriteSize::Size2x3,
            7 => SpriteSize::Size2x4,
            8 => SpriteSize::Size3x1,
            9 => SpriteSize::Size3x2,
            10 => SpriteSize::Size3x3,
            11 => SpriteSize::Size3x4,
            12 => SpriteSize::Size4x1,
            13 => SpriteSize::Size4x2,
            14 => SpriteSize::Size4x3,
            _ => SpriteSize::Size4x4,
        };
        Some(s)
    }

    /// The width and height codes of the size: the tiles less one.
    pub fn to_hardware_code(&self) -> (c: (u8, u8))
        ensures
            c.0 == self.tiles_wide() - 1,
            c.1 == self.tiles_high() - 1,
            size_of_codes(c.0 as int, c.1 as int) == Some(*self),
    {
        let (w, h) = self.dimensions();
        (w - 1, h - 1)
    }
}

/// A sprite.
#[derive(Debug, Clone, Copy, PartialEq, Eq, Structural)]
pub struct Sprite {
    pub y: i16,
    pub x: i16,
    pub size: SpriteSize,
    pub link: u8,
    pub tile_index: u16,
    pub palette: u8,
    pub priority: bool,
    pub flip_horizontal: bool,
    pub flip_vertical: bool,
    pub valid: bool,
    pub visible: bool,
    pub high_color_mode: bool,
}

/// The word that holds a coordinate: the coordinate plus 128, wrapped as a
/// 16-bit number, of which the low nine bits are kept and the bits above
/// them are set where the sum is negative.
pub open spec fn coord_word(coord: i16) -> u16 {
    let sum = if coord + 128 > 32767 {
        coord + 128 - 65536
    } else {
        coord + 128
    };
    if sum < 0 {
        (0xFE00 + sum % 512) as u16
    } else {
        (sum % 512) as u16
    }
}

/// The size and link word of a sprite.
pub open spec fn size_link_word(size: SpriteSize, link: u8) -> u16 {
    (((size.tiles_wide() - 1) * 4 + (size.tiles_high() - 1)) * 256 + link as int % 128) as u16
}

/// The attribute word of a sprite, laid out as a tilemap word.
pub open spec fn attribute_word(sprite: Sprite) -> u16 {
    (sprite.tile_index as int % 2048 + (if sprite.flip_horizontal {
        2048int
    } else {
        0int
    }) + (if sprite.flip_vertical {
        4096int
    } else {
        0int
    }) + (sprite.palette as int % 4) * 8192 + (if sprite.priority {
        32768int
    } else {
        0int
    })) as u16
}

/// Word `k` of a table entry: low byte first.
pub open spec fn entry_word_of(data: Seq<u8>, k: int) -> u16 {
    word_of(data[2 * k], data[2 * k + 1])
}

/// The sprite that the eight bytes of a table entry decode to. A sprite
/// above the top of the picture counts as valid only where it links on.
pub open spec fn sprite_of_bytes(data: Seq<u8>, high_color_mode: bool) -> Sprite {
    let y = coord_of_word(entry_word_of(data, 0));
    let size_link = entry_word_of(data, 1);
    let attributes = entry_word_of(data, 3);
    let link = size_link as int % 128;
    Sprite {
        y: y as i16,
        x: coord_of_word(entry_word_of(data, 2)) as i16,
        size: match size_of_codes((size_link as int / 1024) % 4, (size_link as int / 256) % 4) {
            Some(s) => s,
            None => SpriteSize::Size1x1,
        },
        link: link as u8,
        tile_index: entry_tile_index(attributes) as u16,
        palette: entry_palette(attributes) as u8,
        priority: entry_priority(attributes),
        flip_horizontal: entry_hflip(attributes),
        flip_vertical: entry_vflip(attributes),
        valid: y >= -128 || link != 0,
        visible: true,
        high_color_mode,
    }
}

/// The four words of the table entry of a sprite.
pub open spec fn words_of_sprite(sprite: Sprite) -> Seq<u16> {
    seq![
        coord_word(sprite.y),
        size_link_word(sprite.size, sprite.link),
        coord_word(sprite.x),
        attribute_word(sprite),
    ]
}

/// The eight bytes of the table entry of a sprite.
pub open spec fn bytes_of_sprite(sprite: Sprite) -> Seq<u8> {
    Seq::new(
        8,
        |i: int|
            if i % 2 == 0 {
                (words_of_sprite(sprite)[i / 2] % 256) as u8
            } else {
                (words_of_sprite(sprite)[i / 2] / 256) as u8
            },
    )
}

/// Which sprites a pass draws.
#[derive(Debug, Clone, Copy, PartialEq, Eq, Structural)]
pub enum SpritePass {
    /// Every sprite.
    All,
    /// The sprites of low priority.
    LowOnly,
    /// The sprites of high priority.
    HighOnly,
}

impl SpritePass {
    /// Whether the pass draws a sprite of the given priority.
    pub open spec fn admits(self, priority: bool) -> bool {
        match self {
            SpritePass::All => true,
            SpritePass::LowOnly => !priority,
            SpritePass::HighOnly => priority,
        }
    }

    /// Whether the pass draws a sprite of the given priority.
    pub fn draws(&self, priority: bool) -> (b: bool)
        ensures
            b == self.admits(priority),
    {
        match self {
            SpritePass::All => true,
            SpritePass::LowOnly => !priority,
            SpritePass::HighOnly => priority,
        }
    }
}

fn encode_coord(coord: i16) -> (w: u16)
    ensures
        w == coord_word(coord),
{
    let sum: i32 = coord as i32 + 128;
    let sum: i32 = if sum > 32767 {
        sum - 65536
    } else {
        sum
    };
    let low: u16 = ((sum + 65536) % 512) as u16;
    if sum < 0 {
        0xFE00 + low
    } else {
        low
    }
}

impl Sprite {
    /// Width in pixels.
    pub open spec fn width_px(&self) -> int {
        self.size.tiles_wide() * 8
    }

    /// Height in pixels.
    pub open spec fn height_px(&self) -> int {
        self.size.tiles_high() * 8
    }

    /// Whether the sprite covers the line: it is valid and visible and the
    /// line lies from its Y up to, but not at, Y plus its height.
    pub open spec fn on_line(&self, line: int) -> bool {
        self.valid && self.visible && self.y <= line < self.y + self.height_px()
    }

    /// Whether no pixel of the sprite lies on a screen `width` by `height`.
    pub open spec fn offscreen(&self, width: int, height: int) -> bool {
        self.x + self.width_px() <= 0 || self.x >= width || self.y + self.height_px() <= 0 || self.y
            >= height
    }

    /// Whether the pixel (`px`, `py`) of the screen lies in the rectangle of the sprite.
    pub open spec fn covers(&self, px: int, py: int) -> bool {
        self.x <= px < self.x + self.width_px() && self.y <= py < self.y + self.height_px()
    }

    /// The layer tag under which the sprite is drawn.
    pub open spec fn tag(&self) -> u8 {
        if self.priority {
            TAG_HIGH_SPRITE
        } else {
            TAG_LOW_SPRITE
        }
    }

    /// Colour index of the pixel (`sx`, `sy`) of the sprite. The tiles of a
    /// sprite follow each other row by row; the flips mirror each tile.
    pub open spec fn color_index(&self, vram: &Vram, sx: int, sy: int) -> int {
        let tile = self.tile_index as int + (sy / 8) * self.size.tiles_wide() + sx / 8;
        if self.high_color_mode {
            vram.tile_pixel_8bpp(
                tile,
                flipped(sx, self.flip_horizontal),
                flipped(sy, self.flip_vertical),
            )
        } else {
            vram.tile_pixel_4bpp(
                tile,
                flipped(sx, self.flip_horizontal),
                flipped(sy, self.flip_vertical),
            )
        }
    }

    /// The colour RAM entry of a colour index: the index itself with 8-bit
    /// tiles, else the index within the palette of the sprite.
    pub open spec fn cram_slot(&self, index: int) -> int {
        if self.high_color_mode {
            index % 64
        } else {
            (self.palette as int * 16 + index) % 64
        }
    }

    /// The colour that the sprite gives to the pixel (`px`, `py`) of the
    /// screen, or `None` where it gives none: the sprite is not valid or not
    /// visible, the pixel lies outside it, or the colour index is 0.
    #[verifier::opaque]
    pub open spec fn sprite_color(&self, vram: &Vram, cram: &Cram, px: int, py: int) -> Option<
        u32,
    > {
        if self.valid && self.visible && self.covers(px, py) {
            let index = self.color_index(vram, px - self.x, py - self.y);
            if index == 0 {
                None
            } else {
                Some(argb_of_color(cram.data@[self.cram_slot(index)]) as u32)
            }
        } else {
            None
        }
    }

    /// A sprite gives colour only inside its rectangle, and only where it is
    /// valid and visible.
    pub proof fn lemma_color_inside(&self, vram: &Vram, cram: &Cram, px: int, py: int)
        ensures
            self.sprite_color(vram, cram, px, py) is Some ==> self.valid && self.visible
                && self.covers(px, py),
    {
        reveal(Sprite::sprite_color);
    }

    /// Colour and tag of a pixel after the sprite was offered to it.
    pub open spec fn drawn_cell(
        &self,
        cell: (u32, u8),
        vram: &Vram,
        cram: &Cram,
        px: int,
        py: int,
    ) -> (u32, u8) {
        match self.sprite_color(vram, cram, px, py) {
            Some(c) => merged(cell, c, self.tag()),
            None => cell,
        }
    }

    /// An empty sprite: not valid, not visible.
    pub fn new() -> (s: Sprite)
        ensures
            s == (Sprite {
                y: 0,
                x: 0,
                size: SpriteSize::Size1x1,
                link: 0,
                tile_index: 0,
                palette: 0,
                priority: false,
                flip_horizontal: false,
                flip_vertical: false,
                valid: false,
                visible: false,
                high_color_mode: false,
            }),
    {
        Sprite {
            y: 0,
            x: 0,
            size: SpriteSize::Size1x1,
            link: 0,
            tile_index: 0,
            palette: 0,
            priority: false,
            flip_horizontal: false,
            flip_vertical: false,
            valid: false,
            visible: false,
            high_color_mode: false,
        }
    }

    /// A valid, visible sprite that links to nothing.
    pub fn with_params(
        x: i16,
        y: i16,
        size: SpriteSize,
        tile_index: u16,
        palette: u8,
        priority: bool,
        flip_h: bool,
        flip_v: bool,
        high_color_mode: bool,
    ) -> (s: Sprite)
        ensures
            s == (Sprite {
                y,
                x,
                size,
                link: 0,
                tile_index,
                palette,
                priority,
                flip_horizontal: flip_h,
                flip_vertical: flip_v,
                valid: true,
                visible: true,
                high_color_mode,
            }),
    {
        Sprite {
            y,
            x,
            size,
            link: 0,
            tile_index,
            palette,
            priority,
            flip_horizontal: flip_h,
            flip_vertical: flip_v,
            valid: true,
            visible: true,
            high_color_mode,
        }
    }

    /// Decodes the eight bytes of a table entry.
    pub fn from_bytes(data: &[u8; 8], high_color_mode: bool) -> (s: Sprite)
        ensures
            s == sprite_of_bytes(data@, high_color_mode),
            -384 <= s.x <= 127,
            -384 <= s.y <= 127,
    {
        let y_raw: u16 = data[1] as u16 * 256 + data[0] as u16;
        let size_link: u16 = data[3] as u16 * 256 + data[2] as u16;
        let x_raw: u16 = data[5] as u16 * 256 + data[4] as u16;
        let attributes: u16 = data[7] as u16 * 256 + data[6] as u16;
        let y: i16 = decode_coord(y_raw);
        let x: i16 = decode_coord(x_raw);
        let size: SpriteSize = match SpriteSize::from_hardware_code(
            ((size_link / 1024) % 4) as u8,
            ((size_link / 256) % 4) as u8,
        ) {
            Some(s) => s,
            None => SpriteSize::Size1x1,
        };
        let link: u8 = (size_link % 128) as u8;
        Sprite {
            y,
            x,
            size,
            link,
            tile_index: attributes % 2048,
            palette: ((attributes / 8192) % 4) as u8,
            priority: attributes >= 0x8000,
            flip_horizontal: (attributes / 2048) % 2 == 1,
            flip_vertical: (attributes / 4096) % 2 == 1,
            valid: y >= -128 || link != 0,
            visible: true,
            high_color_mode,
        }
    }

    /// Encodes the sprite as the eight bytes of a table entry.
    pub fn to_bytes(&self) -> (bytes: [u8; 8])
        ensures
            bytes@ == bytes_of_sprite(*self),
    {
        let y_raw: u16 = encode_coord(self.y);
        let (width_code, height_code) = self.size.to_hardware_code();
        let size_link: u16 = (width_code as u16 * 4 + height_code as u16) * 256 + (self.link
            % 128) as u16;
        let x_raw: u16 = encode_coord(self.x);
        let mut attributes: u16 = self.tile_index % 2048 + (self.palette % 4) as u16 * 8192;
        if self.priority {
            attributes = attributes + 32768;
        }
        if self.flip_horizontal {
            attributes = attributes + 2048;
        }
        if self.flip_vertical {
            attributes = attributes + 4096;
        }
        let mut bytes: [u8; 8] = [0u8; 8];
        bytes[0] = (y_raw % 256) as u8;
        bytes[1] = (y_raw / 256) as u8;
        bytes[2] = (size_link % 256) as u8;
        bytes[3] = (size_link / 256) as u8;
        bytes[4] = (x_raw % 256) as u8;
        bytes[5] = (x_raw / 256) as u8;
        bytes[6] = (attributes % 256) as u8;
        bytes[7] = (attributes / 256) as u8;
        assert(bytes@ =~= bytes_of_sprite(*self));
        bytes
    }

    /// Width in pixels.
    pub fn width_pixels(&self) -> (w: usize)
        ensures
            w == self.width_px(),
            8 <= w <= 32,
    {
        let (w, _h) = self.size.pixel_dimensions();
        w
    }

    /// Height in pixels.
    pub fn height_pixels(&self) -> (h: usize)
        ensures
            h == self.height_px(),
            8 <= h <= 32,
    {
        let (_w, h) = self.size.pixel_dimensions();
        h
    }

    /// Whether the sprite covers the line.
    pub fn is_on_line(&self, line: i16) -> (b: bool)
        ensures
            b == self.on_line(line as int),
    {
        self.covers_line(line as i64)
    }

    fn covers_line(&self, line: i64) -> (b: bool)
        ensures
            b == self.on_line(line as int),
    {
        if !self.valid || !self.visible {
            return false;
        }
        let top: i64 = self.y as i64;
        let bottom: i64 = top + self.height_pixels() as i64;
        line >= top && line < bottom
    }

    /// Whether no pixel of the sprite lies on a screen of the given size.
    pub fn is_offscreen(&self, screen_width: usize, screen_height: usize) -> (b: bool)
        ensures
            b == self.offscreen(screen_width as int, screen_height as int),
    {
        let right: i64 = self.x as i64 + self.width_pixels() as i64;
        let bottom: i64 = self.y as i64 + self.height_pixels() as i64;
        right <= 0 || (self.x >= 0 && self.x as u64 >= screen_width as u64) || bottom <= 0 || (
        self.y >= 0 && self.y as u64 >= screen_height as u64)
    }

    /// Colour index and palette of the pixel (`sprite_x`, `sprite_y`) of the
    /// sprite, or `None` outside the sprite.
    pub fn get_pixel_color(&self, vram: &Vram, sprite_x: usize, sprite_y: usize) -> (c: Option<
        (u8, u8),
    >)
        requires
            vram.wf(),
        ensures
            c == (if sprite_x < self.width_px() && sprite_y < self.height_px() {
                Some((self.color_index(vram, sprite_x as int, sprite_y as int) as u8, self.palette))
            } else {
                None
            }),
    {
        if sprite_x >= self.width_pixels() || sprite_y >= self.height_pixels() {
            return None;
        }
        let tiles_wide: usize = self.size.dimensions().0 as usize;
        let tile_x: usize = sprite_x / TILE_SIZE;
        let tile_y: usize = sprite_y / TILE_SIZE;
        let mut pixel_x: usize = sprite_x % TILE_SIZE;
        let mut pixel_y: usize = sprite_y % TILE_SIZE;
        if self.flip_horizontal {
            pixel_x = TILE_SIZE - 1 - pixel_x;
        }
        if self.flip_vertical {
            pixel_y = TILE_SIZE - 1 - pixel_y;
        }
        assert(tile_y * tiles_wide <= 12) by (nonlinear_arith)
            requires
                tile_y <= 3,
                tiles_wide <= 4,
        ;
        let tile_offset: usize = tile_y * tiles_wide + tile_x;
        let absolute_tile_index: usize = self.tile_index as usize + tile_offset;
        let color_index: u8 = if self.high_color_mode {
            vram.read_tile_pixel_8bpp(absolute_tile_index, pixel_x, pixel_y)
        } else {
            vram.read_tile_pixel_4bpp(absolute_tile_index, pixel_x, pixel_y)
        };
        Some((color_index, self.palette))
    }

    fn pixel(&self, vram: &Vram, cram: &Cram, px: usize, py: usize) -> (c: Option<u32>)
        requires
            vram.wf(),
        ensures
            c == self.sprite_color(vram, cram, px as int, py as int),
    {
        reveal(Sprite::sprite_color);
        if !self.valid || !self.visible {
            return None;
        }
        let x: i64 = self.x as i64;
        let y: i64 = self.y as i64;
        let w: i64 = self.width_pixels() as i64;
        let h: i64 = self.height_pixels() as i64;
        if px > 0xFFFF || py > 0xFFFF {
            return None;
        }
        let sx: i64 = px as i64 - x;
        let sy: i64 = py as i64 - y;
        if sx < 0 || sx >= w || sy < 0 || sy >= h {
            return None;
        }
        match self.get_pixel_color(vram, sx as usize, sy as usize) {
            Some((color_index, palette)) => {
                if color_index == 0 {
                    None
                } else {
                    let slot: usize = if self.high_color_mode {
                        color_index as usize % 64
                    } else {
                        (palette as usize * 16 + color_index as usize) % 64
                    };
                    Some(color_to_argb(cram.data[slot]))
                }
            },
            None => None,
        }
    }

    /// Whether a call of `render` draws row `py`: every row where no line
    /// is named, else the named line alone.
    pub open spec fn row_selected(line: Option<u16>, py: int) -> bool {
        match line {
            Some(l) => py == l,
            None => true,
        }
    }

    /// Draws the sprite, or only its row on the line `line` where one is
    /// named. Each pixel that the sprite colours is offered to the frame
    /// buffer under the layer tag of the sprite.
    pub fn render(&self, framebuffer: &mut FrameBuffer, vram: &Vram, cram: &Cram, line: Option<u16>)
        requires
            vram.wf(),
            old(framebuffer).wf(),
        ensures
            final(framebuffer).wf(),
            final(framebuffer).same_size(old(framebuffer)),
            forall|px: int, py: int|
                final(framebuffer).contains(px, py) ==> final(framebuffer).cell(px, py) == (
                if Self::row_selected(line, py) {
                    self.drawn_cell(old(framebuffer).cell(px, py), vram, cram, px, py)
                } else {
                    old(framebuffer).cell(px, py)
                }),
    {
        let width: usize = framebuffer.width;
        let height: usize = framebuffer.height;
        let (mut y0, mut y1): (usize, usize) = Self::span(self.y, self.height_pixels(), height);
        let (x0, x1): (usize, usize) = Self::span(self.x, self.width_pixels(), width);
        match line {
            Some(l) => {
                if y0 <= l as usize && (l as usize) < y1 {
                    y0 = l as usize;
                    y1 = l as usize + 1;
                } else {
                    y1 = y0;
                }
            },
            None => {},
        }
        let tag: u8 = if self.priority {
            TAG_HIGH_SPRITE
        } else {
            TAG_LOW_SPRITE
        };
        proof {
            assert forall|px: int, py: int|
                0 <= px < width && 0 <= py < height && Self::row_selected(line, py) && !(x0 <= px
                    < x1 && y0 <= py < y1) implies self.sprite_color(vram, cram, px, py) is None by {
                self.lemma_color_inside(vram, cram, px, py);
            }
        }
        let mut y: usize = y0;
        while y < y1
            invariant
                vram.wf(),
                framebuffer.wf(),
                framebuffer.same_size(old(framebuffer)),
                width == framebuffer.width,
                height == framebuffer.height,
                x0 <= x1 <= width,
                y0 <= y <= y1 <= height,
                tag == self.tag(),
                line is Some ==> y1 <= y0 + 1 && (y0 < y1 ==> y0 == line->0),
                forall|px: int, py: int|
                    0 <= px < width && 0 <= py < height && Self::row_selected(line, py) && !(x0
                        <= px < x1 && y0 <= py < y1) ==> self.sprite_color(vram, cram, px, py)
                        is None,
                forall|px: int, py: int|
                    framebuffer.contains(px, py) ==> framebuffer.cell(px, py) == (if x0 <= px < x1
                        && y0 <= py < y {
                        self.drawn_cell(old(framebuffer).cell(px, py), vram, cram, px, py)
                    } else {
                        old(framebuffer).cell(px, py)
                    }),
            decreases y1 - y,
        {
            let mut x: usize = x0;
            while x < x1
                invariant
                    vram.wf(),
                    framebuffer.wf(),
                    framebuffer.same_size(old(framebuffer)),
                    width == framebuffer.width,
                    height == framebuffer.height,
                    x0 <= x <= x1 <= width,
                    y0 <= y < y1 <= height,
                    tag == self.tag(),
                    forall|px: int, py: int|
                        framebuffer.contains(px, py) ==> framebuffer.cell(px, py) == (if x0 <= px
                            < x1 && (y0 <= py < y || (py == y && px < x)) {
                            self.drawn_cell(old(framebuffer).cell(px, py), vram, cram, px, py)
                        } else {
                            old(framebuffer).cell(px, py)
                        }),
                decreases x1 - x,
            {
                match self.pixel(vram, cram, x, y) {
                    Some(c) => {
                        framebuffer.merge_pixel(x, y, c, tag);
                    },
                    None => {},
                }
                x += 1;
            }
            y += 1;
        }
    }

    /// The part of a screen axis `limit` long that a sprite at `start`,
    /// `extent` long, covers.
    pub open spec fn span_of(start: int, extent: int, limit: int) -> (int, int) {
        let first = if start < 0 {
            0
        } else if start > limit {
            limit
        } else {
            start
        };
        let end = if start + extent < first {
            first
        } else if start + extent > limit {
            limit
        } else {
            start + extent
        };
        (first, end)
    }

    fn span(start: i16, extent: usize, limit: usize) -> (s: (usize, usize))
        requires
            extent <= 32,
        ensures
            s.0 == Self::span_of(start as int, extent as int, limit as int).0,
            s.1 == Self::span_of(start as int, extent as int, limit as int).1,
            s.0 <= s.1 <= limit,
    {
        let first: usize = if start < 0 {
            0
        } else if start as usize > limit {
            limit
        } else {
            start as usize
        };
        let stop: i64 = start as i64 + extent as i64;
        let end: usize = if stop < 0 || (stop as u64) < first as u64 {
            first
        } else if stop as u64 > limit as u64 {
            limit
        } else {
            stop as usize
        };
        (first, end)
    }
}

/// Of the first `n` sprites, the number that cover the line.
pub open spec fn count_on_line(sprites: Seq<Sprite>, n: int, line: int) -> int
    decreases n,
{
    if n <= 0 {
        0
    } else {
        count_on_line(sprites, n - 1, line) + (if sprites[n - 1].on_line(line) {
            1int
        } else {
            0int
        })
    }
}

/// Whether sprite `i` is drawn on the line in the pass: it covers the line,
/// fewer than twenty sprites before it do, and the pass draws its priority.
pub open spec fn shown_on_line(sprites: Seq<Sprite>, i: int, line: int, pass: SpritePass) -> bool {
    sprites[i].on_line(line) && count_on_line(sprites, i, line) < MAX_SPRITES_PER_LINE
        && pass.admits(sprites[i].priority)
}

/// Colour and tag of the pixel (`px`, `py`) after the first `n` sprites were
/// offered to it in the pass, in the order of the table, where `cell` is
/// what the pixel held before.
pub open spec fn sprites_cell(
    sprites: Seq<Sprite>,
    n: int,
    vram: &Vram,
    cram: &Cram,
    pass: SpritePass,
    cell: (u32, u8),
    px: int,
    py: int,
) -> (u32, u8)
    decreases n,
{
    if n <= 0 {
        cell
    } else {
        let before = sprites_cell(sprites, n - 1, vram, cram, pass, cell, px, py);
        if shown_on_line(sprites, n - 1, py, pass) {
            sprites[n - 1].drawn_cell(before, vram, cram, px, py)
        } else {
            before
        }
    }
}

/// No sprite reaches a line beyond 65535: there the sprites leave a pixel as it is.
pub proof fn lemma_lines_beyond_sprites(
    sprites: Seq<Sprite>,
    n: int,
    vram: &Vram,
    cram: &Cram,
    pass: SpritePass,
    cell: (u32, u8),
    px: int,
    py: int,
)
    requires
        py > 0xFFFF,
    ensures
        sprites_cell(sprites, n, vram, cram, pass, cell, px, py) == cell,
    decreases n,
{
    if n > 0 {
        lemma_lines_beyond_sprites(sprites, n - 1, vram, cram, pass, cell, px, py);
        assert(!sprites[n - 1].on_line(py));
    }
}

/// The number recorded for a line of a screen `screen_height` lines high:
/// the number of sprites that cover the line, at most twenty, and zero from
/// the height of the screen on.
pub open spec fn recorded_on_line(sprites: Seq<Sprite>, line: int, screen_height: int) -> int {
    if line < screen_height {
        if count_on_line(sprites, sprites.len() as int, line) < MAX_SPRITES_PER_LINE {
            count_on_line(sprites, sprites.len() as int, line)
        } else {
            MAX_SPRITES_PER_LINE as int
        }
    } else {
        0
    }
}

/// The first line from `from` up to `limit` on which more than twenty
/// sprites lie, if there is one.
pub open spec fn first_overflow(sprites: Seq<Sprite>, from: int, limit: int) -> Option<u16>
    decreases limit - from,
{
    if from >= limit {
        None
    } else if count_on_line(sprites, sprites.len() as int, from) > MAX_SPRITES_PER_LINE {
        Some(from as u16)
    } else {
        first_overflow(sprites, from + 1, limit)
    }
}

/// Whether a sprite takes part in collisions on a screen of the given size.
pub open spec fn collidable(sprite: Sprite, width: int, height: int) -> bool {
    sprite.valid && sprite.visible && !sprite.offscreen(width, height)
}

/// Whether the rectangles of two sprites overlap.
pub open spec fn overlap(a: Sprite, b: Sprite) -> bool {
    a.x < b.x + b.width_px() && a.x + a.width_px() > b.x && a.y < b.y + b.height_px() && a.y
        + a.height_px() > b.y
}

/// Whether sprites `i` and `j` collide.
pub open spec fn collide(sprites: Seq<Sprite>, i: int, j: int, width: int, height: int) -> bool {
    collidable(sprites[i], width, height) && collidable(sprites[j], width, height) && overlap(
        sprites[i],
        sprites[j],
    )
}

/// Whether two sprites of the table collide.
pub open spec fn any_collision(sprites: Seq<Sprite>, width: int, height: int) -> bool {
    exists|i: int, j: int| 0 <= i < j < sprites.len() && collide(sprites, i, j, width, height)
}

/// The eight bytes of table entry `index` of a table at `base`.
pub open spec fn entry_bytes(vram: &Vram, base: int, index: int) -> Seq<u8> {
    Seq::new(8, |k: int| vram.byte_at(base + index * 8 + k))
}

/// The sprites found by following the links from entry `index`, at most
/// `budget` of them: the walk ends behind a sprite that links to entry 0 or
/// to an entry past the last, 79.
pub open spec fn sprite_chain(vram: &Vram, base: int, high: bool, index: int, budget: int) -> Seq<
    Sprite,
>
    decreases budget,
{
    if budget <= 0 || index >= MAX_SPRITES_PER_FRAME {
        Seq::empty()
    } else {
        let sprite = sprite_of_bytes(entry_bytes(vram, base, index), high);
        if sprite.link == 0 {
            seq![sprite]
        } else {
            seq![sprite] + sprite_chain(vram, base, high, sprite.link as int, budget - 1)
        }
    }
}

/// Video RAM after the first `k` bytes of `bytes` were stored from `addr` up.
pub open spec fn with_bytes(data: Seq<u8>, addr: int, bytes: Seq<u8>, k: int) -> Seq<u8>
    decreases k,
{
    if k <= 0 {
        data
    } else {
        put8(with_bytes(data, addr, bytes, k - 1), addr + k - 1, bytes[k - 1])
    }
}

/// Video RAM after the first `n` sprites were stored as entries 0 to `n - 1`
/// of a table at `base`.
pub open spec fn with_sprites(data: Seq<u8>, base: int, sprites: Seq<Sprite>, n: int) -> Seq<u8>
    decreases n,
{
    if n <= 0 {
        data
    } else {
        with_bytes(
            with_sprites(data, base, sprites, n - 1),
            base + (n - 1) * 8,
            bytes_of_sprite(sprites[n - 1]),
            8,
        )
    }
}

/// The sprites of a frame.
#[derive(Clone)]
pub struct SpriteTable {
    pub sprites: Vec<Sprite>,
    pub base_address: u32,
    pub sprite_count: usize,
    pub active_sprites_per_line: Vec<usize>,
    pub overflow_line: Option<u16>,
    pub collision_detected: bool,
    pub high_color_mode: bool,
}

impl SpriteTable {
    /// The count is the number of sprites, at most 80, and there is a record
    /// for each of 512 lines.
    pub open spec fn wf(&self) -> bool {
        &&& self.sprites@.len() == self.sprite_count
        &&& self.sprite_count <= MAX_SPRITES_PER_FRAME
        &&& self.active_sprites_per_line@.len() == RECORDED_LINES
    }

    /// Whether the table is well formed.
    pub fn is_well_formed(&self) -> (ok: bool)
        ensures
            ok == self.wf(),
    {
        self.sprites.len() == self.sprite_count && self.sprite_count <= MAX_SPRITES_PER_FRAME
            && self.active_sprites_per_line.len() == RECORDED_LINES
    }

    /// An empty table for the entries at `base_address`.
    pub fn new(base_address: u32, high_color_mode: bool) -> (t: SpriteTable)
        ensures
            t.wf(),
            t.sprites@.len() == 0,
            t.base_address == base_address,
            t.high_color_mode == high_color_mode,
            t.overflow_line is None,
            !t.collision_detected,
            forall|i: int| 0 <= i < RECORDED_LINES ==> t.active_sprites_per_line@[i] == 0,
    {
        SpriteTable {
            sprites: Vec::new(),
            base_address,
            sprite_count: 0,
            active_sprites_per_line: vec![0usize; 512],
            overflow_line: None,
            collision_detected: false,
            high_color_mode,
        }
    }

    /// Empties the table and its records.
    pub fn clear(&mut self)
        ensures
            final(self).wf(),
            final(self).sprites@.len() == 0,
            final(self).base_address == old(self).base_address,
            final(self).high_color_mode == old(self).high_color_mode,
            final(self).overflow_line is None,
            !final(self).collision_detected,
            forall|i: int| 0 <= i < RECORDED_LINES ==> final(self).active_sprites_per_line@[i] == 0,
    {
        self.sprites = Vec::new();
        self.sprite_count = 0;
        self.active_sprites_per_line = vec![0usize; 512];
        self.overflow_line = None;
        self.collision_detected = false;
    }

    /// Reads the sprites of the frame from the table in video RAM by
    /// following the links from entry 0; at most 80 sprites are read.
    pub fn load_from_vram(&mut self, vram: &Vram)
        requires
            vram.wf(),
        ensures
            final(self).wf(),
            final(self).sprites@ == sprite_chain(
                vram,
                old(self).base_address as int,
                old(self).high_color_mode,
                0,
                MAX_SPRITES_PER_FRAME as int,
            ),
            final(self).base_address == old(self).base_address,
            final(self).high_color_mode == old(self).high_color_mode,
            final(self).overflow_line is None,
            !final(self).collision_detected,
            forall|i: int| 0 <= i < RECORDED_LINES ==> final(self).active_sprites_per_line@[i] == 0,
    {
        self.clear();
        let ghost full = sprite_chain(
            vram,
            self.base_address as int,
            self.high_color_mode,
            0,
            MAX_SPRITES_PER_FRAME as int,
        );
        let mut link_index: usize = 0;
        let mut processed: usize = 0;
        let mut done: bool = false;
        while !done && link_index < MAX_SPRITES_PER_FRAME && processed < MAX_SPRITES_PER_FRAME
            invariant
                vram.wf(),
                self.base_address == old(self).base_address,
                self.high_color_mode == old(self).high_color_mode,
                self.overflow_line is None,
                !self.collision_detected,
                forall|i: int| 0 <= i < RECORDED_LINES ==> self.active_sprites_per_line@[i] == 0,
                self.active_sprites_per_line@.len() == RECORDED_LINES,
                self.sprites@.len() == processed,
                self.sprite_count == processed,
                processed <= MAX_SPRITES_PER_FRAME,
                full == sprite_chain(
                    vram,
                    self.base_address as int,
                    self.high_color_mode,
                    0,
                    MAX_SPRITES_PER_FRAME as int,
                ),
                done ==> self.sprites@ == full,
                !done ==> self.sprites@ + sprite_chain(
                    vram,
                    self.base_address as int,
                    self.high_color_mode,
                    link_index as int,
                    MAX_SPRITES_PER_FRAME - processed,
                ) == full,
            decreases
                    (if done {
                        0int
                    } else {
                        1int
                    }) + MAX_SPRITES_PER_FRAME - processed,
        {
            let addr: u64 = self.base_address as u64 + link_index as u64 * 8;
            let mut bytes: [u8; 8] = [0u8; 8];
            let mut k: usize = 0;
            while k < 8
                invariant
                    vram.wf(),
                    k <= 8,
                    addr == self.base_address + link_index * 8,
                    link_index < MAX_SPRITES_PER_FRAME,
                    forall|j: int| 0 <= j < k ==> bytes@[j] == vram.byte_at(addr + j),
                decreases 8 - k,
            {
                bytes[k] = vram.read8_at(addr + k as u64);
                k += 1;
            }
            assert(bytes@ =~= entry_bytes(vram, self.base_address as int, link_index as int));
            let sprite: Sprite = Sprite::from_bytes(&bytes, self.high_color_mode);
            let ghost before = self.sprites@;
            self.sprites.push(sprite);
            self.sprite_count = self.sprite_count + 1;
            processed = processed + 1;
            proof {
                let rest = sprite_chain(
                    vram,
                    self.base_address as int,
                    self.high_color_mode,
                    sprite.link as int,
                    MAX_SPRITES_PER_FRAME - processed,
                );
                if sprite.link == 0 {
                    assert(before + seq![sprite] =~= before.push(sprite));
                } else {
                    assert(before + (seq![sprite] + rest) =~= before.push(sprite) + rest);
                }
            }
            link_index = sprite.link as usize;
            if sprite.link == 0 {
                done = true;
            }
        }
        proof {
            if !done {
                assert(sprite_chain(
                    vram,
                    self.base_address as int,
                    self.high_color_mode,
                    link_index as int,
                    MAX_SPRITES_PER_FRAME - processed,
                ) =~= Seq::<Sprite>::empty());
                assert(self.sprites@ + Seq::<Sprite>::empty() =~= self.sprites@);
            }
        }
    }

    /// Writes the sprites to video RAM as entries 0, 1, 2 and so on of the table.
    pub fn save_to_vram(&self, vram: &mut Vram)
        requires
            self.wf(),
            old(vram).wf(),
        ensures
            final(vram).wf(),
            final(vram).size == old(vram).size,
            final(vram).data@ == with_sprites(
                old(vram).data@,
                self.base_address as int,
                self.sprites@,
                self.sprites@.len() as int,
            ),
    {
        let n: usize = self.sprites.len();
        let mut i: usize = 0;
        while i < n
            invariant
                self.wf(),
                vram.wf(),
                vram.size == old(vram).size,
                n == self.sprites@.len(),
                i <= n,
                vram.data@ == with_sprites(
                    old(vram).data@,
                    self.base_address as int,
                    self.sprites@,
                    i as int,
                ),
            decreases n - i,
        {
            let bytes: [u8; 8] = self.sprites[i].to_bytes();
            let ghost start = vram.data@;
            let mut j: usize = 0;
            while j < 8
                invariant
                    self.wf(),
                    vram.wf(),
                    vram.size == old(vram).size,
                    i < n,
                    n == self.sprites@.len(),
                    j <= 8,
                    bytes@ == bytes_of_sprite(self.sprites@[i as int]),
                    vram.data@ == with_bytes(
                        start,
                        self.base_address as int + i as int * 8,
                        bytes@,
                        j as int,
                    ),
                decreases 8 - j,
            {
                let offset: u64 = (i as u64) * 8 + j as u64;
                vram.write8_at(self.base_address as u64 + offset, bytes[j]);
                j += 1;
            }
            i += 1;
        }
    }

    /// Records, for each line of the screen up to line 511, how many sprites
    /// cover it, at most twenty, and finds the first line with more.
    pub fn calculate_active_sprites(&mut self, screen_height: u16)
        requires
            old(self).wf(),
        ensures
            final(self).wf(),
            final(self).sprites == old(self).sprites,
            final(self).base_address == old(self).base_address,
            final(self).high_color_mode == old(self).high_color_mode,
            final(self).collision_detected == old(self).collision_detected,
            forall|line: int|
                0 <= line < RECORDED_LINES ==> final(self).active_sprites_per_line@[line]
                    == recorded_on_line(old(self).sprites@, line, screen_height as int),
            final(self).overflow_line == first_overflow(
                old(self).sprites@,
                0,
                if screen_height < RECORDED_LINES {
                    screen_height as int
                } else {
                    RECORDED_LINES as int
                },
            ),
    {
        self.active_sprites_per_line = vec![0usize; 512];
        self.overflow_line = None;
        let limit: usize = if (screen_height as usize) < RECORDED_LINES {
            screen_height as usize
        } else {
            RECORDED_LINES
        };
        let n: usize = self.sprites.len();
        let mut line: usize = 0;
        while line < limit
            invariant
                self.wf(),
                self.sprites == old(self).sprites,
                self.base_address == old(self).base_address,
                self.high_color_mode == old(self).high_color_mode,
                self.collision_detected == old(self).collision_detected,
                n == self.sprites@.len(),
                limit <= RECORDED_LINES,
                limit == (if screen_height < RECORDED_LINES {
                    screen_height as int
                } else {
                    RECORDED_LINES as int
                }),
                line <= limit,
                forall|l: int|
                    0 <= l < RECORDED_LINES ==> self.active_sprites_per_line@[l] == (if l < line {
                        if count_on_line(self.sprites@, n as int, l) < MAX_SPRITES_PER_LINE {
                            count_on_line(self.sprites@, n as int, l)
                        } else {
                            MAX_SPRITES_PER_LINE as int
                        }
                    } else {
                        0int
                    }),
                self.overflow_line is None ==> first_overflow(self.sprites@, 0, limit as int)
                    == first_overflow(self.sprites@, line as int, limit as int),
                self.overflow_line is Some ==> self.overflow_line == first_overflow(
                    self.sprites@,
                    0,
                    limit as int,
                ),
            decreases limit - line,
        {
            let mut count: usize = 0;
            let mut i: usize = 0;
            while i < n
                invariant
                    n == self.sprites@.len(),
                    n <= MAX_SPRITES_PER_FRAME,
                    i <= n,
                    line < RECORDED_LINES,
                    count == count_on_line(self.sprites@, i as int, line as int),
                    count <= i,
                decreases n - i,
            {
                if self.sprites[i].covers_line(line as i64) {
                    count += 1;
                }
                i += 1;
            }
            if count > MAX_SPRITES_PER_LINE && self.overflow_line.is_none() {
                self.overflow_line = Some(line as u16);
            }
            self.active_sprites_per_line[line] = if count < MAX_SPRITES_PER_LINE {
                count
            } else {
                MAX_SPRITES_PER_LINE
            };
            line += 1;
        }
    }

    fn render_line_pass(
        &self,
        line: usize,
        framebuffer: &mut FrameBuffer,
        vram: &Vram,
        cram: &Cram,
        pass: SpritePass,
    )
        requires
            vram.wf(),
            old(framebuffer).wf(),
        ensures
            final(framebuffer).wf(),
            final(framebuffer).same_size(old(framebuffer)),
            forall|px: int, py: int|
                final(framebuffer).contains(px, py) ==> final(framebuffer).cell(px, py) == (if py
                    == line {
                    sprites_cell(
                        self.sprites@,
                        self.sprites@.len() as int,
                        vram,
                        cram,
                        pass,
                        old(framebuffer).cell(px, py),
                        px,
                        py,
                    )
                } else {
                    old(framebuffer).cell(px, py)
                }),
    {
        if line > 0xFFFF {
            proof {
                assert forall|px: int, py: int| py == line implies #[trigger] sprites_cell(
                    self.sprites@,
                    self.sprites@.len() as int,
                    vram,
                    cram,
                    pass,
                    framebuffer.cell(px, py),
                    px,
                    py,
                ) == framebuffer.cell(px, py) by {
                    lemma_lines_beyond_sprites(
                        self.sprites@,
                        self.sprites@.len() as int,
                        vram,
                        cram,
                        pass,
                        framebuffer.cell(px, py),
                        px,
                        py,
                    );
                }
            }
            return ;
        }
        let n: usize = self.sprites.len();
        let mut on_line: usize = 0;
        let mut i: usize = 0;
        while i < n
            invariant
                vram.wf(),
                framebuffer.wf(),
                framebuffer.same_size(old(framebuffer)),
                n == self.sprites@.len(),
                i <= n,
                line <= 0xFFFF,
                on_line == count_on_line(self.sprites@, i as int, line as int),
                on_line <= i,
                forall|px: int, py: int|
                    framebuffer.contains(px, py) ==> framebuffer.cell(px, py) == (if py == line {
                        sprites_cell(
                            self.sprites@,
                            i as int,
                            vram,
                            cram,
                            pass,
                            old(framebuffer).cell(px, py),
                            px,
                            py,
                        )
                    } else {
                        old(framebuffer).cell(px, py)
                    }),
            decreases n - i,
        {
            let sprite: Sprite = self.sprites[i];
            if sprite.covers_line(line as i64) {
                if on_line < MAX_SPRITES_PER_LINE && pass.draws(sprite.priority) {
                    sprite.render(framebuffer, vram, cram, Some(line as u16));
                }
                on_line += 1;
            }
            i += 1;
        }
    }

    /// Draws the sprites on the line `line`: of those that cover it the
    /// first twenty of the table, and of these all, or with
    /// `high_priority_only` those of high priority.
    pub fn render_line(
        &self,
        line: u16,
        framebuffer: &mut FrameBuffer,
        vram: &Vram,
        cram: &Cram,
        high_priority_only: bool,
    )
        requires
            vram.wf(),
            old(framebuffer).wf(),
        ensures
            final(framebuffer).wf(),
            final(framebuffer).same_size(old(framebuffer)),
            forall|px: int, py: int|
                final(framebuffer).contains(px, py) ==> final(framebuffer).cell(px, py) == (if py
                    == line {
                    sprites_cell(
                        self.sprites@,
                        self.sprites@.len() as int,
                        vram,
                        cram,
                        if high_priority_only {
                            SpritePass::HighOnly
                        } else {
                            SpritePass::All
                        },
                        old(framebuffer).cell(px, py),
                        px,
                        py,
                    )
                } else {
                    old(framebuffer).cell(px, py)
                }),
    {
        let pass: SpritePass = if high_priority_only {
            SpritePass::HighOnly
        } else {
            SpritePass::All
        };
        self.render_line_pass(line as usize, framebuffer, vram, cram, pass);
    }

    /// Draws one pass of the sprites on every line of the frame buffer.
    pub fn render_pass(
        &self,
        framebuffer: &mut FrameBuffer,
        vram: &Vram,
        cram: &Cram,
        pass: SpritePass,
    )
        requires
            vram.wf(),
            old(framebuffer).wf(),
        ensures
            final(framebuffer).wf(),
            final(framebuffer).same_size(old(framebuffer)),
            forall|px: int, py: int|
                final(framebuffer).contains(px, py) ==> final(framebuffer).cell(px, py)
                    == sprites_cell(
                    self.sprites@,
                    self.sprites@.len() as int,
                    vram,
                    cram,
                    pass,
                    old(framebuffer).cell(px, py),
                    px,
                    py,
                ),
    {
        let height: usize = framebuffer.height;
        let mut line: usize = 0;
        while line < height
            invariant
                vram.wf(),
                framebuffer.wf(),
                framebuffer.same_size(old(framebuffer)),
                height == framebuffer.height,
                line <= height,
                forall|px: int, py: int|
                    framebuffer.contains(px, py) ==> framebuffer.cell(px, py) == (if py < line {
                        sprites_cell(
                            self.sprites@,
                            self.sprites@.len() as int,
                            vram,
                            cram,
                            pass,
                            old(framebuffer).cell(px, py),
                            px,
                            py,
                        )
                    } else {
                        old(framebuffer).cell(px, py)
                    }),
            decreases height - line,
        {
            self.render_line_pass(line, framebuffer, vram, cram, pass);
            line += 1;
        }
    }

    /// Draws all sprites: first those of low priority, then those of high
    /// priority, on each line the first twenty that cover it.
    pub fn render_all(&self, framebuffer: &mut FrameBuffer, vram: &Vram, cram: &Cram)
        requires
            vram.wf(),
            old(framebuffer).wf(),
        ensures
            final(framebuffer).wf(),
            final(framebuffer).same_size(old(framebuffer)),
            forall|px: int, py: int|
                final(framebuffer).contains(px, py) ==> final(framebuffer).cell(px, py)
                    == sprites_cell(
                    self.sprites@,
                    self.sprites@.len() as int,
                    vram,
                    cram,
                    SpritePass::HighOnly,
                    sprites_cell(
                        self.sprites@,
                        self.sprites@.len() as int,
                        vram,
                        cram,
                        SpritePass::LowOnly,
                        old(framebuffer).cell(px, py),
                        px,
                        py,
                    ),
                    px,
                    py,
                ),
    {
        self.render_pass(framebuffer, vram, cram, SpritePass::LowOnly);
        self.render_pass(framebuffer, vram, cram, SpritePass::HighOnly);
    }

    /// Looks for two sprites whose rectangles overlap, among the valid and
    /// visible sprites that touch a screen of the given size, and records
    /// whether there are two.
    pub fn detect_collisions(&mut self, screen_width: usize, screen_height: usize) -> (found: bool)
        requires
            old(self).wf(),
        ensures
            final(self).wf(),
            found == any_collision(old(self).sprites@, screen_width as int, screen_height as int),
            final(self).collision_detected == found,
            final(self).sprites == old(self).sprites,
            final(self).base_address == old(self).base_address,
            final(self).high_color_mode == old(self).high_color_mode,
            final(self).active_sprites_per_line == old(self).active_sprites_per_line,
            final(self).overflow_line == old(self).overflow_line,
            final(self).sprite_count == old(self).sprite_count,
    {
        self.collision_detected = false;
        let n: usize = self.sprites.len();
        let ghost w = screen_width as int;
        let ghost h = screen_height as int;
        let mut i: usize = 0;
        while i < n
            invariant
                self.wf(),
                self.sprites == old(self).sprites,
                self.base_address == old(self).base_address,
                self.high_color_mode == old(self).high_color_mode,
                self.active_sprites_per_line == old(self).active_sprites_per_line,
                self.overflow_line == old(self).overflow_line,
                self.sprite_count == old(self).sprite_count,
                !self.collision_detected,
                n == self.sprites@.len(),
                i <= n,
                w == screen_width,
                h == screen_height,
                forall|a: int, b: int| 0 <= a < i && a < b < n ==> !collide(self.sprites@, a, b, w, h),
            decreases n - i,
        {
            let sprite_a: Sprite = self.sprites[i];
            if sprite_a.valid && sprite_a.visible && !sprite_a.is_offscreen(
                screen_width,
                screen_height,
            ) {
                let mut j: usize = i + 1;
                while j < n
                    invariant
                        self.wf(),
                        self.sprites == old(self).sprites,
                        self.base_address == old(self).base_address,
                        self.high_color_mode == old(self).high_color_mode,
                        self.active_sprites_per_line == old(self).active_sprites_per_line,
                        self.overflow_line == old(self).overflow_line,
                        self.sprite_count == old(self).sprite_count,
                        !self.collision_detected,
                        n == self.sprites@.len(),
                        i < n,
                        i < j <= n,
                        w == screen_width,
                        h == screen_height,
                        sprite_a == self.sprites@[i as int],
                        collidable(sprite_a, w, h),
                        forall|a: int, b: int|
                            0 <= a < i && a < b < n ==> !collide(self.sprites@, a, b, w, h),
                        forall|b: int| i < b < j ==> !collide(self.sprites@, i as int, b, w, h),
                    decreases n - j,
                {
                    let sprite_b: Sprite = self.sprites[j];
                    if sprite_b.valid && sprite_b.visible && !sprite_b.is_offscreen(
                        screen_width,
                        screen_height,
                    ) {
                        let a_left: i32 = sprite_a.x as i32;
                        let a_right: i32 = a_left + sprite_a.width_pixels() as i32;
                        let a_top: i32 = sprite_a.y as i32;
                        let a_bottom: i32 = a_top + sprite_a.height_pixels() as i32;
                        let b_left: i32 = sprite_b.x as i32;
                        let b_right: i32 = b_left + sprite_b.width_pixels() as i32;
                        let b_top: i32 = sprite_b.y as i32;
                        let b_bottom: i32 = b_top + sprite_b.height_pixels() as i32;
                        if a_left < b_right && a_right > b_left && a_top < b_bottom && a_bottom
                            > b_top {
                            self.collision_detected = true;
                            assert(collide(self.sprites@, i as int, j as int, w, h));
                            return true;
                        }
                    }
                    j += 1;
                }
            }
            i += 1;
        }
        false
    }

    /// Adds a sprite behind the others; returns `false`, with nothing
    /// changed, where the table holds 80 sprites.
    pub fn add_sprite(&mut self, sprite: Sprite) -> (added: bool)
        requires
            old(self).wf(),
        ensures
            final(self).wf(),
            added == (old(self).sprite_count < MAX_SPRITES_PER_FRAME),
            added ==> final(self).sprites@ == old(self).sprites@.push(sprite),
            !added ==> final(self).sprites@ == old(self).sprites@,
            final(self).base_address == old(self).base_address,
            final(self).high_color_mode == old(self).high_color_mode,
            final(self).active_sprites_per_line == old(self).active_sprites_per_line,
            final(self).overflow_line == old(self).overflow_line,
            final(self).collision_detected == old(self).collision_detected,
    {
        if self.sprite_count >= MAX_SPRITES_PER_FRAME {
            return false;
        }
        self.sprites.push(sprite);
        self.sprite_count += 1;
        true
    }

    /// Takes sprite `index` out; returns `false`, with nothing changed,
    /// where there is no such sprite.
    pub fn remove_sprite(&mut self, index: usize) -> (removed: bool)
        requires
            old(self).wf(),
        ensures
            final(self).wf(),
            removed == (index < old(self).sprites@.len()),
            removed ==> final(self).sprites@ == old(self).sprites@.remove(index as int),
            !removed ==> final(self).sprites@ == old(self).sprites@,
            final(self).base_address == old(self).base_address,
            final(self).high_color_mode == old(self).high_color_mode,
            final(self).active_sprites_per_line == old(self).active_sprites_per_line,
            final(self).overflow_line == old(self).overflow_line,
            final(self).collision_detected == old(self).collision_detected,
    {
        if index >= self.sprites.len() {
            return false;
        }
        self.sprites.remove(index);
        self.sprite_count -= 1;
        true
    }

    /// Replaces sprite `index`; returns `false`, with nothing changed, where
    /// there is no such sprite.
    pub fn update_sprite(&mut self, index: usize, sprite: Sprite) -> (updated: bool)
        requires
            old(self).wf(),
        ensures
            final(self).wf(),
            updated == (index < old(self).sprites@.len()),
            updated ==> final(self).sprites@ == old(self).sprites@.update(index as int, sprite),
            !updated ==> final(self).sprites@ == old(self).sprites@,
            final(self).base_address == old(self).base_address,
            final(self).high_color_mode == old(self).high_color_mode,
            final(self).active_sprites_per_line == old(self).active_sprites_per_line,
            final(self).overflow_line == old(self).overflow_line,
            final(self).collision_detected == old(self).collision_detected,
    {
        if index >= self.sprites.len() {
            return false;
        }
        self.sprites[index] = sprite;
        true
    }
}

/// The line of the report for sprite `index`.
pub open spec fn sprite_line(index: int, sprite: Sprite) -> Seq<char> {
    "  Sprite "@ + decimal(index as nat) + ": ("@ + signed_decimal(sprite.x as int) + ", "@
        + signed_decimal(sprite.y as int) + ") "@ + decimal(sprite.width_px() as nat) + "x"@
        + decimal(sprite.height_px() as nat) + ", tile: "@ + decimal(sprite.tile_index as nat)
        + ", link: "@ + decimal(sprite.link as nat) + "\n"@
}

/// The lines of the report for the first `n` sprites.
pub open spec fn sprite_lines(sprites: Seq<Sprite>, n: int) -> Seq<char>
    decreases n,
{
    if n <= 0 {
        Seq::empty()
    } else {
        sprite_lines(sprites, n - 1) + sprite_line(n - 1, sprites[n - 1])
    }
}

impl SpriteTable {
    /// The head of the report: count, base address, colour mode, and the
    /// overflow and collision found.
    pub open spec fn head_text(&self) -> Seq<char> {
        let top = "Sprite Table ("@ + decimal(self.sprite_count as nat) + " sprites):\n"@
            + "  Base Address: 0x"@ + hex4(self.base_address as nat) + "\n"@
            + "  High Color Mode: "@ + bool_text(self.high_color_mode) + "\n"@;
        let with_overflow = match self.overflow_line {
            Some(line) => top + "  Overflow at line: "@ + decimal(line as nat) + "\n"@,
            None => top,
        };
        if self.collision_detected {
            with_overflow + "  Collision detected\n"@
        } else {
            with_overflow
        }
    }

    /// Number of sprites that the report lists: at most five.
    pub open spec fn listed(&self) -> int {
        if self.sprites@.len() < 5 {
            self.sprites@.len() as int
        } else {
            5
        }
    }

    /// The report: the head, the first five sprites, and the number of the others.
    pub open spec fn debug_text(&self) -> Seq<char> {
        let body = self.head_text() + sprite_lines(self.sprites@, self.listed());
        if self.sprite_count > 5 {
            body + "  ... and "@ + decimal((self.sprite_count - 5) as nat) + " more sprites\n"@
        } else {
            body
        }
    }

    fn line_text(index: usize, sprite: Sprite) -> (line: String)
        ensures
            line@ == sprite_line(index as int, sprite),
    {
        let (w, h) = sprite.size.pixel_dimensions();
        let mut s = text_of("  Sprite ");
        push_decimal(&mut s, index as u64);
        s.push_str(": (");
        push_signed(&mut s, sprite.x as i64);
        s.push_str(", ");
        push_signed(&mut s, sprite.y as i64);
        s.push_str(") ");
        push_decimal(&mut s, w as u64);
        s.push_str("x");
        push_decimal(&mut s, h as u64);
        s.push_str(", tile: ");
        push_decimal(&mut s, sprite.tile_index as u64);
        s.push_str(", link: ");
        push_decimal(&mut s, sprite.link as u64);
        s.push_str("\n");
        s
    }

    /// A report of the table, one line per value and per sprite.
    pub fn debug_info(&self) -> (info: String)
        ensures
            info@ == self.debug_text(),
    {
        let mut s = text_of("Sprite Table (");
        push_decimal(&mut s, self.sprite_count as u64);
        s.push_str(" sprites):\n");
        s.push_str("  Base Address: 0x");
        push_hex4(&mut s, self.base_address);
        s.push_str("\n");
        s.push_str("  High Color Mode: ");
        push_bool(&mut s, self.high_color_mode);
        s.push_str("\n");
        match self.overflow_line {
            Some(line) => {
                s.push_str("  Overflow at line: ");
                push_decimal(&mut s, line as u64);
                s.push_str("\n");
            },
            None => {},
        }
        if self.collision_detected {
            s.push_str("  Collision detected\n");
        }
        let n: usize = if self.sprites.len() < 5 {
            self.sprites.len()
        } else {
            5
        };
        let mut i: usize = 0;
        proof {
            assert(self.head_text() + sprite_lines(self.sprites@, 0) =~= self.head_text());
        }
        while i < n
            invariant
                n == self.listed(),
                i <= n,
                s@ == self.head_text() + sprite_lines(self.sprites@, i as int),
            decreases n - i,
        {
            let line: String = Self::line_text(i, self.sprites[i]);
            s.push_str(line.as_str());
            proof {
                let text = sprite_line(i as int, self.sprites@[i as int]);
                assert(self.head_text() + sprite_lines(self.sprites@, i as int) + text
                    =~= self.head_text() + (sprite_lines(self.sprites@, i as int) + text));
            }
            i += 1;
        }
        if self.sprite_count > 5 {
            s.push_str("  ... and ");
            push_decimal(&mut s, (self.sprite_count - 5) as u64);
            s.push_str(" more sprites\n");
        }
        s
    }
}

/// A sprite whose coordinates lie from -384 to 127, whose tile index is
/// below 2048, whose palette is below 4 and whose link is below 128 comes
/// back from its table entry with the same position, size, link, tile index,
/// palette, priority and flips.
pub proof fn lemma_sprite_round_trip(sprite: Sprite, high_color_mode: bool)
    requires
        -384 <= sprite.x <= 127,
        -384 <= sprite.y <= 127,
        sprite.tile_index < 2048,
        sprite.palette < 4,
        sprite.link < 128,
    ensures
        ({
            let back = sprite_of_bytes(bytes_of_sprite(sprite), high_color_mode);
            &&& back.x == sprite.x
            &&& back.y == sprite.y
            &&& back.size == sprite.size
            &&& back.link == sprite.link
            &&& back.tile_index == sprite.tile_index
            &&& back.palette == sprite.palette
            &&& back.priority == sprite.priority
            &&& back.flip_horizontal == sprite.flip_horizontal
            &&& back.flip_vertical == sprite.flip_vertical
        }),
{
    lemma_entry_words(sprite);
    lemma_coord_round_trip(sprite.x);
    lemma_coord_round_trip(sprite.y);
    lemma_size_link_round_trip(sprite.size, sprite.link);
    lemma_attribute_round_trip(sprite);
}

/// The words of the bytes of a table entry are the words of the sprite.
pub proof fn lemma_entry_words(sprite: Sprite)
    ensures
        entry_word_of(bytes_of_sprite(sprite), 0) == coord_word(sprite.y),
        entry_word_of(bytes_of_sprite(sprite), 1) == size_link_word(sprite.size, sprite.link),
        entry_word_of(bytes_of_sprite(sprite), 2) == coord_word(sprite.x),
        entry_word_of(bytes_of_sprite(sprite), 3) == attribute_word(sprite),
{
    let bytes = bytes_of_sprite(sprite);
    let words = words_of_sprite(sprite);
    assert forall|k: int| 0 <= k < 4 implies entry_word_of(bytes, k) == words[k] by {
        assert(bytes[2 * k] == (words[k] % 256) as u8);
        assert(bytes[2 * k + 1] == (words[k] / 256) as u8);
    }
    assert(words[0] == coord_word(sprite.y));
    assert(words[1] == size_link_word(sprite.size, sprite.link));
    assert(words[2] == coord_word(sprite.x));
    assert(words[3] == attribute_word(sprite));
}

/// The size and a link below 128 come back from the size and link word.
pub proof fn lemma_size_link_round_trip(size: SpriteSize, link: u8)
    requires
        link < 128,
    ensures
        size_of_codes(
            (size_link_word(size, link) as int / 1024) % 4,
            (size_link_word(size, link) as int / 256) % 4,
        ) == Some(size),
        size_link_word(size, link) as int % 128 == link,
{
    let sl = size_link_word(size, link) as int;
    let wc = size.tiles_wide() - 1;
    let hc = size.tiles_high() - 1;
    assert(0 <= wc <= 3 && 0 <= hc <= 3);
    assert(sl == (wc * 4 + hc) * 256 + link);
    assert((sl / 1024) % 4 == wc);
    assert((sl / 256) % 4 == hc);
    assert(sl % 128 == link);
}

/// A tile index below 2048, a palette below 4, the priority and the flips
/// come back from the attribute word.
pub proof fn lemma_attribute_round_trip(sprite: Sprite)
    requires
        sprite.tile_index < 2048,
        sprite.palette < 4,
    ensures
        entry_tile_index(attribute_word(sprite)) == sprite.tile_index,
        entry_palette(attribute_word(sprite)) == sprite.palette,
        entry_priority(attribute_word(sprite)) == sprite.priority,
        entry_hflip(attribute_word(sprite)) == sprite.flip_horizontal,
        entry_vflip(attribute_word(sprite)) == sprite.flip_vertical,
{
}

/// A coordinate from -384 to 127 comes back from its word.
pub proof fn lemma_coord_round_trip(coord: i16)
    requires
        -384 <= coord <= 127,
    ensures
        coord_of_word(coord_word(coord)) == coord,
{
}

} // verus!
