//! Video RAM: a linear byte array holding tile patterns, tilemaps, scroll
//! tables and the sprite attribute table.
//!
//! Words are little-endian. A read outside the array yields zero and a write
//! outside it changes nothing, so every access succeeds.

use vstd::prelude::*;

verus! {

/// Low byte of a word.
pub open spec fn low_byte(word: u16) -> u8 {
    (word % 256) as u8
}

/// High byte of a word.
pub open spec fn high_byte(word: u16) -> u8 {
    (word / 256) as u8
}

/// The word made of a low and a high byte.
pub open spec fn word_of(lo: u8, hi: u8) -> u16 {
    (hi as int * 256 + lo as int) as u16
}

/// `data` with the byte at `addr` replaced, or unchanged where `addr` lies outside.
pub open spec fn put8(data: Seq<u8>, addr: int, value: u8) -> Seq<u8> {
    if 0 <= addr < data.len() {
        data.update(addr, value)
    } else {
        data
    }
}

/// `data` after a little-endian word write at `addr`.
pub open spec fn put16(data: Seq<u8>, addr: int, value: u16) -> Seq<u8> {
    put8(put8(data, addr, low_byte(value)), addr + 1, high_byte(value))
}

/// `data` after a big-endian word write at `addr`.
pub open spec fn put16_be(data: Seq<u8>, addr: int, value: u16) -> Seq<u8> {
    put8(put8(data, addr, high_byte(value)), addr + 1, low_byte(value))
}

/// The byte of `data` at `addr`, zero outside the array.
pub open spec fn get8(data: Seq<u8>, addr: int) -> u8 {
    if 0 <= addr < data.len() {
        data[addr]
    } else {
        0
    }
}

/// The little-endian word of `data` at `addr`.
pub open spec fn get16(data: Seq<u8>, addr: int) -> u16 {
    word_of(get8(data, addr), get8(data, addr + 1))
}

/// Tile index of a tilemap word: bits 0 to 10.
pub open spec fn entry_tile_index(word: u16) -> int {
    word as int % 2048
}

/// Horizontal flip of a tilemap word: bit 11.
pub open spec fn entry_hflip(word: u16) -> bool {
    (word as int / 2048) % 2 == 1
}

/// Vertical flip of a tilemap word: bit 12.
pub open spec fn entry_vflip(word: u16) -> bool {
    (word as int / 4096) % 2 == 1
}

/// Palette of a tilemap word: bits 13 and 14.
pub open spec fn entry_palette(word: u16) -> int {
    (word as int / 8192) % 4
}

/// Priority of a tilemap word: bit 15.
pub open spec fn entry_priority(word: u16) -> bool {
    word >= 0x8000
}

/// Value of a 9-bit two's-complement coordinate field, less the 128 offset.
pub open spec fn coord_of_word(word: u16) -> int {
    let raw = word as int % 512;
    if raw >= 256 {
        raw - 512 - 128
    } else {
        raw - 128
    }
}

/// Decodes a 9-bit two's-complement coordinate and removes the 128 offset.
pub fn decode_coord(word: u16) -> (c: i16)
    ensures
        c == coord_of_word(word),
        -384 <= c <= 127,
{
    let raw: i16 = (word % 512) as i16;
    if raw >= 256 {
        raw - 640
    } else {
        raw - 128
    }
}

/// Video RAM.
#[derive(Clone)]
pub struct Vram {
    pub data: Vec<u8>,
    pub size: usize,
}

impl Vram {
    pub const SIZE_64K: usize = 65536;

    pub const SIZE_128K: usize = 131072;

    pub const TILE_SIZE_4BPP: usize = 32;

    pub const TILE_SIZE_8BPP: usize = 64;

    pub const NAME_TABLE_ENTRY_SIZE: usize = 2;

    pub const SPRITE_ATTRIBUTE_SIZE: usize = 8;

    /// The recorded size is the length of the array.
    pub open spec fn wf(&self) -> bool {
        self.data@.len() == self.size
    }

    /// Whether the memory is well formed.
    pub fn is_well_formed(&self) -> (ok: bool)
        ensures
            ok == self.wf(),
    {
        self.data.len() == self.size
    }

    /// The byte at `addr`, zero outside the array.
    pub open spec fn byte_at(&self, addr: int) -> u8 {
        get8(self.data@, addr)
    }

    /// The little-endian word at `addr`.
    pub open spec fn word_at(&self, addr: int) -> u16 {
        get16(self.data@, addr)
    }

    /// The big-endian word at `addr`.
    pub open spec fn word_be_at(&self, addr: int) -> u16 {
        word_of(self.byte_at(addr + 1), self.byte_at(addr))
    }

    /// A word that is read only where both of its bytes lie inside the array.
    pub open spec fn whole_word_at(&self, addr: int) -> u16 {
        if 0 <= addr && addr + 1 < self.data@.len() {
            self.word_at(addr)
        } else {
            0
        }
    }

    /// Colour index of pixel (`x`, `y`) of the 4-bit tile `tile`: four bytes
    /// per row, the left pixel of a pair in the high nibble.
    pub open spec fn tile_pixel_4bpp(&self, tile: int, x: int, y: int) -> int {
        let byte = self.byte_at(tile * 32 + y * 4 + x / 2) as int;
        if x % 2 == 0 {
            byte / 16
        } else {
            byte % 16
        }
    }

    /// Colour index of pixel (`x`, `y`) of the 8-bit tile `tile`.
    pub open spec fn tile_pixel_8bpp(&self, tile: int, x: int, y: int) -> int {
        self.byte_at(tile * 64 + y * 8 + x) as int
    }

    /// Address of the tilemap entry at (`row`, `col`) of a table `width` entries wide.
    pub open spec fn name_table_addr(base_addr: int, row: int, col: int, width: int) -> int {
        base_addr + (row * width + col) * 2
    }

    /// The range `start..end` clipped to `size`; empty at the clipped start
    /// where the clipped range would be reversed.
    pub open spec fn clip(size: usize, start: usize, end: usize) -> (int, int) {
        let s = if start < size {
            start as int
        } else {
            size as int
        };
        let e = if end < size {
            end as int
        } else {
            size as int
        };
        if s <= e {
            (s, e)
        } else {
            (s, s)
        }
    }

    /// 64 KB of zeroed video RAM.
    pub fn new() -> (v: Vram)
        ensures
            v.wf(),
            v.size == 65536,
            forall|i: int| 0 <= i < 65536 ==> v.data@[i] == 0,
    {
        Vram::with_size(65536)
    }

    /// Zeroed video RAM of `size` bytes.
    pub fn with_size(size: usize) -> (v: Vram)
        ensures
            v.wf(),
            v.size == size,
            forall|i: int| 0 <= i < size ==> v.data@[i] == 0,
    {
        Vram { data: vec![0u8; size], size }
    }

    fn byte(&self, addr: usize) -> (b: u8)
        requires
            self.wf(),
        ensures
            b == self.byte_at(addr as int),
    {
        if addr < self.size {
            self.data[addr]
        } else {
            0
        }
    }

    fn word(&self, addr: usize) -> (w: u16)
        requires
            self.wf(),
        ensures
            w == self.word_at(addr as int),
    {
        let lo: u8 = self.byte(addr);
        let hi: u8 = if addr < usize::MAX {
            self.byte(addr + 1)
        } else {
            0
        };
        hi as u16 * 256 + lo as u16
    }

    fn put_byte(&mut self, addr: usize, value: u8)
        requires
            old(self).wf(),
        ensures
            final(self).wf(),
            final(self).size == old(self).size,
            final(self).data@ == put8(old(self).data@, addr as int, value),
    {
        if addr < self.size {
            self.data[addr] = value;
        }
    }

    fn put_word(&mut self, addr: usize, value: u16)
        requires
            old(self).wf(),
        ensures
            final(self).wf(),
            final(self).size == old(self).size,
            final(self).data@ == put16(old(self).data@, addr as int, value),
    {
        self.put_byte(addr, (value % 256) as u8);
        if addr < usize::MAX {
            self.put_byte(addr + 1, (value / 256) as u8);
        }
    }

    /// The word at `addr`, or `None` unless both of its bytes lie inside the array.
    pub open spec fn checked_word_at(&self, addr: int) -> Option<u16> {
        if 0 <= addr && addr + 1 < self.data@.len() {
            Some(self.word_at(addr))
        } else {
            None
        }
    }

    /// Reads the word at `addr` where both of its bytes lie inside the array.
    pub fn read_word_checked(&self, addr: u64) -> (w: Option<u16>)
        requires
            self.wf(),
        ensures
            w == self.checked_word_at(addr as int),
    {
        if addr < u64::MAX && addr + 1 < self.size as u64 {
            Some(self.word(addr as usize))
        } else {
            None
        }
    }

    /// Reads the byte at an address of any size.
    pub fn read8_at(&self, addr: u64) -> (b: u8)
        requires
            self.wf(),
        ensures
            b == self.byte_at(addr as int),
    {
        if addr < self.size as u64 {
            self.data[addr as usize]
        } else {
            0
        }
    }

    /// Writes the byte at an address of any size.
    pub fn write8_at(&mut self, addr: u64, value: u8)
        requires
            old(self).wf(),
        ensures
            final(self).wf(),
            final(self).size == old(self).size,
            final(self).data@ == put8(old(self).data@, addr as int, value),
    {
        if addr < self.size as u64 {
            self.data[addr as usize] = value;
        }
    }

    /// Reads a byte.
    pub fn read8(&self, addr: u32) -> (b: u8)
        requires
            self.wf(),
        ensures
            b == self.byte_at(addr as int),
    {
        self.byte(addr as usize)
    }

    /// Reads a little-endian word.
    pub fn read16(&self, addr: u32) -> (w: u16)
        requires
            self.wf(),
        ensures
            w == self.word_at(addr as int),
    {
        self.word(addr as usize)
    }

    /// Reads a big-endian word.
    pub fn read16_be(&self, addr: u32) -> (w: u16)
        requires
            self.wf(),
        ensures
            w == self.word_be_at(addr as int),
    {
        let a: usize = addr as usize;
        let hi: u8 = self.byte(a);
        let lo: u8 = if a < usize::MAX {
            self.byte(a + 1)
        } else {
            0
        };
        hi as u16 * 256 + lo as u16
    }

    /// Reads a little-endian double word.
    pub fn read32(&self, addr: u32) -> (d: u32)
        requires
            self.wf(),
        ensures
            d == self.word_at(addr as int + 2) as int * 65536 + self.word_at(addr as int) as int,
    {
        let a: usize = addr as usize;
        let w1: u16 = self.word(a);
        let w2: u16 = if a < usize::MAX - 2 {
            self.word(a + 2)
        } else {
            0
        };
        w2 as u32 * 65536 + w1 as u32
    }

    /// Writes a byte.
    pub fn write8(&mut self, addr: u32, value: u8)
        requires
            old(self).wf(),
        ensures
            final(self).wf(),
            final(self).size == old(self).size,
            final(self).data@ == put8(old(self).data@, addr as int, value),
    {
        self.put_byte(addr as usize, value);
    }

    /// Writes a little-endian word.
    pub fn write16(&mut self, addr: u32, value: u16)
        requires
            old(self).wf(),
        ensures
            final(self).wf(),
            final(self).size == old(self).size,
            final(self).data@ == put16(old(self).data@, addr as int, value),
    {
        self.put_word(addr as usize, value);
    }

    /// Writes a big-endian word.
    pub fn write16_be(&mut self, addr: u32, value: u16)
        requires
            old(self).wf(),
        ensures
            final(self).wf(),
            final(self).size == old(self).size,
            final(self).data@ == put16_be(old(self).data@, addr as int, value),
    {
        let a: usize = addr as usize;
        self.put_byte(a, (value / 256) as u8);
        if a < usize::MAX {
            self.put_byte(a + 1, (value % 256) as u8);
        }
    }

    /// Writes a little-endian double word.
    pub fn write32(&mut self, addr: u32, value: u32)
        requires
            old(self).wf(),
        ensures
            final(self).wf(),
            final(self).size == old(self).size,
            final(self).data@ == put16(
                put16(old(self).data@, addr as int, (value % 65536) as u16),
                addr as int + 2,
                (value / 65536) as u16,
            ),
    {
        let a: usize = addr as usize;
        self.put_word(a, (value % 65536) as u16);
        if a < usize::MAX - 2 {
            self.put_word(a + 2, (value / 65536) as u16);
        }
    }

    /// The 32 bytes of 4-bit tile `tile_index`, zero where the tile leaves the array.
    pub fn read_tile_4bpp(&self, tile_index: usize) -> (tile: [u8; 32])
        requires
            self.wf(),
        ensures
            forall|i: int| 0 <= i < 32 ==> tile@[i] == self.byte_at(tile_index * 32 + i),
    {
        let mut tile: [u8; 32] = [0u8; 32];
        match tile_index.checked_mul(32) {
            Some(base) => {
                if base < self.size {
                    let mut i: usize = 0;
                    while i < 32 && i < self.size - base
                        invariant
                            self.wf(),
                            base == tile_index * 32,
                            base < self.size,
                            i <= 32,
                            i <= self.size - base,
                            forall|k: int| 0 <= k < i ==> tile@[k] == self.byte_at(base + k),
                            forall|k: int| i <= k < 32 ==> tile@[k] == 0,
                        decreases 32 - i,
                    {
                        tile[i] = self.data[base + i];
                        i += 1;
                    }
                }
            },
            None => {},
        }
        tile
    }

    /// The 64 bytes of 8-bit tile `tile_index`, zero where the tile leaves the array.
    pub fn read_tile_8bpp(&self, tile_index: usize) -> (tile: [u8; 64])
        requires
            self.wf(),
        ensures
            forall|i: int| 0 <= i < 64 ==> tile@[i] == self.byte_at(tile_index * 64 + i),
    {
        let mut tile: [u8; 64] = [0u8; 64];
        match tile_index.checked_mul(64) {
            Some(base) => {
                if base < self.size {
                    let mut i: usize = 0;
                    while i < 64 && i < self.size - base
                        invariant
                            self.wf(),
                            base == tile_index * 64,
                            base < self.size,
                            i <= 64,
                            i <= self.size - base,
                            forall|k: int| 0 <= k < i ==> tile@[k] == self.byte_at(base + k),
                            forall|k: int| i <= k < 64 ==> tile@[k] == 0,
                        decreases 64 - i,
                    {
                        tile[i] = self.data[base + i];
                        i += 1;
                    }
                }
            },
            None => {},
        }
        tile
    }

    /// Stores 4-bit tile `tile_index`; bytes that fall outside the array are dropped.
    pub fn write_tile_4bpp(&mut self, tile_index: usize, tile: &[u8; 32])
        requires
            old(self).wf(),
        ensures
            final(self).wf(),
            final(self).size == old(self).size,
            forall|a: int|
                0 <= a < old(self).size ==> final(self).data@[a] == (if tile_index * 32 <= a
                    < tile_index * 32 + 32 {
                    tile@[a - tile_index * 32]
                } else {
                    old(self).data@[a]
                }),
    {
        match tile_index.checked_mul(32) {
            Some(base) => {
                if base < self.size {
                    let mut i: usize = 0;
                    while i < 32 && i < self.size - base
                        invariant
                            self.wf(),
                            self.size == old(self).size,
                            base == tile_index * 32,
                            base < self.size,
                            i <= 32,
                            i <= self.size - base,
                            forall|a: int|
                                0 <= a < self.size ==> self.data@[a] == (if base <= a < base + i {
                                    tile@[a - base]
                                } else {
                                    old(self).data@[a]
                                }),
                        decreases 32 - i,
                    {
                        self.data[base + i] = tile[i];
                        i += 1;
                    }
                }
            },
            None => {},
        }
    }

    /// Stores 8-bit tile `tile_index`; bytes that fall outside the array are dropped.
    pub fn write_tile_8bpp(&mut self, tile_index: usize, tile: &[u8; 64])
        requires
            old(self).wf(),
        ensures
            final(self).wf(),
            final(self).size == old(self).size,
            forall|a: int|
                0 <= a < old(self).size ==> final(self).data@[a] == (if tile_index * 64 <= a
                    < tile_index * 64 + 64 {
                    tile@[a - tile_index * 64]
                } else {
                    old(self).data@[a]
                }),
    {
        match tile_index.checked_mul(64) {
            Some(base) => {
                if base < self.size {
                    let mut i: usize = 0;
                    while i < 64 && i < self.size - base
                        invariant
                            self.wf(),
                            self.size == old(self).size,
                            base == tile_index * 64,
                            base < self.size,
                            i <= 64,
                            i <= self.size - base,
                            forall|a: int|
                                0 <= a < self.size ==> self.data@[a] == (if base <= a < base + i {
                                    tile@[a - base]
                                } else {
                                    old(self).data@[a]
                                }),
                        decreases 64 - i,
                    {
                        self.data[base + i] = tile[i];
                        i += 1;
                    }
                }
            },
            None => {},
        }
    }

    fn sum3(a: Option<usize>, b: Option<usize>, c: usize) -> (r: Option<usize>)
        ensures
            match (a, b) {
                (Some(x), Some(y)) => match r {
                    Some(v) => v == x + y + c,
                    None => x + y + c > usize::MAX,
                },
                _ => r is None,
            },
    {
        match (a, b) {
            (Some(x), Some(y)) => match x.checked_add(y) {
                Some(s) => s.checked_add(c),
                None => None,
            },
            _ => None,
        }
    }

    /// Colour index of pixel (`x`, `y`) of 4-bit tile `tile_index`.
    pub fn read_tile_pixel_4bpp(&self, tile_index: usize, x: usize, y: usize) -> (c: u8)
        requires
            self.wf(),
        ensures
            c == self.tile_pixel_4bpp(tile_index as int, x as int, y as int),
            c < 16,
    {
        let byte: u8 = match Self::sum3(tile_index.checked_mul(32), y.checked_mul(4), x / 2) {
            Some(a) => self.byte(a),
            None => 0,
        };
        if x % 2 == 0 {
            byte / 16
        } else {
            byte % 16
        }
    }

    /// Colour index of pixel (`x`, `y`) of 8-bit tile `tile_index`.
    pub fn read_tile_pixel_8bpp(&self, tile_index: usize, x: usize, y: usize) -> (c: u8)
        requires
            self.wf(),
        ensures
            c == self.tile_pixel_8bpp(tile_index as int, x as int, y as int),
    {
        match Self::sum3(tile_index.checked_mul(64), y.checked_mul(8), x) {
            Some(a) => self.byte(a),
            None => 0,
        }
    }

    fn table_addr(base_addr: usize, row: usize, col: usize, width: usize) -> (a: Option<usize>)
        ensures
            match a {
                Some(v) => v == Self::name_table_addr(
                    base_addr as int,
                    row as int,
                    col as int,
                    width as int,
                ),
                None => Self::name_table_addr(base_addr as int, row as int, col as int, width as int)
                    > usize::MAX,
            },
    {
        let cells: usize = match row.checked_mul(width) {
            Some(v) => v,
            None => {
                assert(row * width + col > usize::MAX);
                return None;
            },
        };
        let index: usize = match cells.checked_add(col) {
            Some(v) => v,
            None => {
                return None;
            },
        };
        let offset: usize = match index.checked_mul(2) {
            Some(v) => v,
            None => {
                return None;
            },
        };
        base_addr.checked_add(offset)
    }

    /// The tilemap entry at (`row`, `col`) of a table `width` entries wide that
    /// starts at `base_addr`; zero unless the whole entry lies inside the array.
    pub fn read_name_table_entry(&self, base_addr: usize, row: usize, col: usize, width: usize) -> (w:
        u16)
        requires
            self.wf(),
        ensures
            w == self.whole_word_at(
                Self::name_table_addr(base_addr as int, row as int, col as int, width as int),
            ),
    {
        match Self::table_addr(base_addr, row, col, width) {
            Some(a) => {
                if a < usize::MAX && a + 1 < self.size {
                    self.word(a)
                } else {
                    0
                }
            },
            None => 0,
        }
    }

    /// Stores a tilemap entry; nothing changes unless the whole entry lies inside the array.
    pub fn write_name_table_entry(
        &mut self,
        base_addr: usize,
        row: usize,
        col: usize,
        width: usize,
        value: u16,
    )
        requires
            old(self).wf(),
        ensures
            final(self).wf(),
            final(self).size == old(self).size,
            final(self).data@ == ({
                let a = Self::name_table_addr(
                    base_addr as int,
                    row as int,
                    col as int,
                    width as int,
                );
                if a + 1 < old(self).size {
                    put16(old(self).data@, a, value)
                } else {
                    old(self).data@
                }
            }),
    {
        match Self::table_addr(base_addr, row, col, width) {
            Some(a) => {
                if a < usize::MAX && a + 1 < self.size {
                    self.put_word(a, value);
                }
            },
            None => {},
        }
    }

    /// Splits a tilemap word into tile index, priority, horizontal flip,
    /// palette and vertical flip.
    pub fn decode_name_table_entry(entry: u16) -> (d: (usize, bool, bool, u8, bool))
        ensures
            d.0 == entry_tile_index(entry),
            d.1 == entry_priority(entry),
            d.2 == entry_hflip(entry),
            d.3 == entry_palette(entry),
            d.4 == entry_vflip(entry),
    {
        let tile_index: usize = (entry % 2048) as usize;
        let priority: bool = entry >= 0x8000;
        let palette: u8 = ((entry / 8192) % 4) as u8;
        let hflip: bool = (entry / 2048) % 2 == 1;
        let vflip: bool = (entry / 4096) % 2 == 1;
        (tile_index, priority, hflip, palette, vflip)
    }

    /// Address of word `k` of sprite entry `sprite_index` of a table at `base_addr`.
    pub open spec fn sprite_word_addr(base_addr: int, sprite_index: int, k: int) -> int {
        base_addr + sprite_index * 8 + k * 2
    }

    fn sprite_addr(base_addr: usize, sprite_index: usize, k: usize) -> (a: Option<usize>)
        requires
            k < 4,
        ensures
            match a {
                Some(v) => v == Self::sprite_word_addr(
                    base_addr as int,
                    sprite_index as int,
                    k as int,
                ),
                None => Self::sprite_word_addr(base_addr as int, sprite_index as int, k as int)
                    > usize::MAX,
            },
    {
        let offset: usize = match sprite_index.checked_mul(8) {
            Some(v) => v,
            None => {
                return None;
            },
        };
        let entry: usize = match base_addr.checked_add(offset) {
            Some(v) => v,
            None => {
                return None;
            },
        };
        entry.checked_add(k * 2)
    }

    /// The four words of sprite entry `sprite_index`.
    pub fn read_sprite_attributes(&self, base_addr: usize, sprite_index: usize) -> (attrs: [u16; 4])
        requires
            self.wf(),
        ensures
            forall|k: int|
                0 <= k < 4 ==> attrs@[k] == self.word_at(
                    Self::sprite_word_addr(base_addr as int, sprite_index as int, k),
                ),
    {
        let mut attrs: [u16; 4] = [0u16; 4];
        let mut k: usize = 0;
        while k < 4
            invariant
                self.wf(),
                k <= 4,
                forall|j: int|
                    0 <= j < k ==> attrs@[j] == self.word_at(
                        Self::sprite_word_addr(base_addr as int, sprite_index as int, j),
                    ),
            decreases 4 - k,
        {
            let w: u16 = match Self::sprite_addr(base_addr, sprite_index, k) {
                Some(a) => self.word(a),
                None => 0,
            };
            attrs[k] = w;
            k += 1;
        }
        attrs
    }

    /// `data` after the first `n` words of a sprite entry were stored, each
    /// only where it lies wholly inside the array.
    pub open spec fn put_sprite_words(
        data: Seq<u8>,
        base_addr: int,
        sprite_index: int,
        attrs: Seq<u16>,
        n: int,
    ) -> Seq<u8>
        decreases n,
    {
        if n <= 0 {
            data
        } else {
            let before = Self::put_sprite_words(data, base_addr, sprite_index, attrs, n - 1);
            let a = Self::sprite_word_addr(base_addr, sprite_index, n - 1);
            if a + 1 < data.len() {
                put16(before, a, attrs[n - 1])
            } else {
                before
            }
        }
    }

    /// Stores the four words of sprite entry `sprite_index`.
    pub fn write_sprite_attributes(
        &mut self,
        base_addr: usize,
        sprite_index: usize,
        attributes: &[u16; 4],
    )
        requires
            old(self).wf(),
        ensures
            final(self).wf(),
            final(self).size == old(self).size,
            final(self).data@ == Self::put_sprite_words(
                old(self).data@,
                base_addr as int,
                sprite_index as int,
                attributes@,
                4,
            ),
    {
        let mut k: usize = 0;
        while k < 4
            invariant
                self.wf(),
                old(self).wf(),
                self.size == old(self).size,
                k <= 4,
                self.data@ == Self::put_sprite_words(
                    old(self).data@,
                    base_addr as int,
                    sprite_index as int,
                    attributes@,
                    k as int,
                ),
            decreases 4 - k,
        {
            match Self::sprite_addr(base_addr, sprite_index, k) {
                Some(a) => {
                    if a < usize::MAX && a + 1 < self.size {
                        self.put_word(a, attributes[k]);
                    }
                },
                None => {},
            }
            k += 1;
        }
    }

    /// Splits the four words of a sprite entry (Y, size and link, X, tile
    /// attributes) into Y, X, tile index, priority, link, palette and the
    /// horizontal and vertical flip.
    pub fn decode_sprite_attributes(attrs: &[u16; 4]) -> (d: (
        i16,
        i16,
        usize,
        u16,
        usize,
        u8,
        bool,
        bool,
    ))
        ensures
            d.0 == coord_of_word(attrs@[0]),
            d.1 == coord_of_word(attrs@[2]),
            d.2 == entry_tile_index(attrs@[3]),
            d.3 == (if entry_priority(attrs@[3]) {
                1int
            } else {
                0int
            }),
            d.4 == attrs@[1] as int % 128,
            d.5 == entry_palette(attrs@[3]),
            d.6 == entry_hflip(attrs@[3]),
            d.7 == entry_vflip(attrs@[3]),
    {
        let y_pos: i16 = decode_coord(attrs[0]);
        let x_pos: i16 = decode_coord(attrs[2]);
        let link: usize = (attrs[1] % 128) as usize;
        let (tile_index, priority, hflip, palette, vflip) = Self::decode_name_table_entry(
            attrs[3],
        );
        let priority_bit: u16 = if priority {
            1
        } else {
            0
        };
        (y_pos, x_pos, tile_index, priority_bit, link, palette, hflip, vflip)
    }

    /// Entry `line` of the horizontal scroll table at `base_addr`.
    pub fn read_hscroll(&self, base_addr: usize, line: usize) -> (w: u16)
        requires
            self.wf(),
        ensures
            w == self.whole_word_at(base_addr as int + line as int * 2),
    {
        self.read_name_table_entry(base_addr, 0, line, 0)
    }

    /// Entry `column` of the vertical scroll table at `base_addr`.
    pub fn read_vscroll(&self, base_addr: usize, column: usize) -> (w: u16)
        requires
            self.wf(),
        ensures
            w == self.whole_word_at(base_addr as int + column as int * 2),
    {
        self.read_name_table_entry(base_addr, 0, column, 0)
    }

    /// Zeroes every byte.
    pub fn clear(&mut self)
        requires
            old(self).wf(),
        ensures
            final(self).wf(),
            final(self).size == old(self).size,
            forall|i: int| 0 <= i < final(self).size ==> final(self).data@[i] == 0,
    {
        self.fill(0);
    }

    /// Sets every byte to `value`.
    pub fn fill(&mut self, value: u8)
        requires
            old(self).wf(),
        ensures
            final(self).wf(),
            final(self).size == old(self).size,
            forall|i: int| 0 <= i < final(self).size ==> final(self).data@[i] == value,
    {
        let mut i: usize = 0;
        while i < self.size
            invariant
                self.wf(),
                self.size == old(self).size,
                i <= self.size,
                forall|k: int| 0 <= k < i ==> self.data@[k] == value,
            decreases self.size - i,
        {
            self.data[i] = value;
            i += 1;
        }
    }

    /// Copies `data` to `addr` and up; what would fall outside the array is dropped.
    pub fn copy_from(&mut self, addr: u32, data: &[u8])
        requires
            old(self).wf(),
        ensures
            final(self).wf(),
            final(self).size == old(self).size,
            forall|a: int|
                0 <= a < old(self).size ==> final(self).data@[a] == (if addr <= a < addr
                    + data@.len() {
                    data@[a - addr]
                } else {
                    old(self).data@[a]
                }),
    {
        let start: usize = addr as usize;
        if start >= self.size {
            return ;
        }
        let room: usize = self.size - start;
        let mut i: usize = 0;
        while i < data.len() && i < room
            invariant
                self.wf(),
                self.size == old(self).size,
                start == addr,
                start < self.size,
                room == self.size - start,
                i <= data@.len(),
                i <= room,
                forall|a: int|
                    0 <= a < self.size ==> self.data@[a] == (if start <= a < start + i {
                        data@[a - start]
                    } else {
                        old(self).data@[a]
                    }),
            decreases data@.len() - i,
        {
            self.data[start + i] = data[i];
            i += 1;
        }
    }

    /// The `len` bytes from `addr` up, zero where they lie outside the array.
    pub fn copy_to(&self, addr: u32, len: usize) -> (out: Vec<u8>)
        requires
            self.wf(),
        ensures
            out@.len() == len,
            forall|i: int| 0 <= i < len ==> out@[i] == self.byte_at(addr as int + i),
    {
        let start: usize = addr as usize;
        let mut out: Vec<u8> = Vec::new();
        let mut i: usize = 0;
        while i < len
            invariant
                self.wf(),
                start == addr,
                i <= len,
                out@.len() == i,
                forall|k: int| 0 <= k < i ==> out@[k] == self.byte_at(start as int + k),
            decreases len - i,
        {
            let b: u8 = if start <= usize::MAX - i {
                self.byte(start + i)
            } else {
                0
            };
            out.push(b);
            i += 1;
        }
        out
    }

    /// Whether `addr` lies inside the array.
    pub fn is_valid_address(&self, addr: u32) -> (b: bool)
        ensures
            b == (addr < self.size),
    {
        (addr as usize) < self.size
    }

    /// Size in bytes.
    pub fn size(&self) -> (s: usize)
        ensures
            s == self.size,
    {
        self.size
    }

    /// A copy of the whole array.
    pub fn dump(&self) -> (out: Vec<u8>)
        ensures
            out@ == self.data@,
    {
        self.data.clone()
    }

    /// The bytes from `start` up to `end`, both clipped to the size; empty
    /// where the clipped range is empty.
    pub fn slice(&self, start: usize, end: usize) -> (out: &[u8])
        requires
            self.wf(),
        ensures
            out@ == self.data@.subrange(
                Self::clip(self.size, start, end).0,
                Self::clip(self.size, start, end).1,
            ),
    {
        let s: usize = if start < self.size {
            start
        } else {
            self.size
        };
        let e: usize = if end < self.size {
            end
        } else {
            self.size
        };
        let e: usize = if s <= e {
            e
        } else {
            s
        };
        vstd::slice::slice_subrange(self.data.as_slice(), s, e)
    }

    /// The same bytes as `slice`, open to writing: what is written through
    /// the result is written to the array.
    pub fn slice_mut(&mut self, start: usize, end: usize) -> (out: &mut [u8])
        requires
            old(self).wf(),
        ensures
            out@ == old(self).data@.subrange(
                Self::clip(old(self).size, start, end).0,
                Self::clip(old(self).size, start, end).1,
            ),
            final(self).data@ == old(self).data@.subrange(
                0,
                Self::clip(old(self).size, start, end).0,
            ) + final(out)@ + old(self).data@.subrange(
                Self::clip(old(self).size, start, end).1,
                old(self).size as int,
            ),
            final(self).size == old(self).size,
    {
        let s: usize = if start < self.size {
            start
        } else {
            self.size
        };
        let e: usize = if end < self.size {
            end
        } else {
            self.size
        };
        let e: usize = if s <= e {
            e
        } else {
            s
        };
        let whole: &mut [u8] = self.data.as_mut_slice();
        let (front, _back) = whole.split_at_mut(e);
        let (_skipped, out) = front.split_at_mut(s);
        out
    }
}

impl Default for Vram {
    fn default() -> (v: Vram)
        ensures
            v.wf(),
            v.size == 65536,
    {
        Vram::new()
    }
}

} // verus!
