//! Colour RAM: 64 entries of 9-bit colour, four palettes of sixteen colours.
//!
//! An entry keeps three bits per channel in the layout `0000 BBB0 GGG0 RRR0`.
//! Every index wraps modulo 64, so no access is ever out of range.

use vstd::prelude::*;

verus! {

/// Number of colour entries.
pub const CRAM_ENTRIES: usize = 64;

/// The bits of a word that an entry keeps.
pub const CRAM_COLOR_MASK: u16 = 0x0EEE;

/// Step between two levels of a channel once widened to eight bits.
pub const CHANNEL_STEP: u8 = 36;

/// The word an entry holds after `value` was written to it.
pub open spec fn stored_color(value: u16) -> u16 {
    value & CRAM_COLOR_MASK
}

/// Red level (0..=7) of a colour word.
pub open spec fn red_level(color: u16) -> int {
    (color as int / 2) % 8
}

/// Green level (0..=7) of a colour word.
pub open spec fn green_level(color: u16) -> int {
    (color as int / 32) % 8
}

/// Blue level (0..=7) of a colour word.
pub open spec fn blue_level(color: u16) -> int {
    (color as int / 512) % 8
}

/// The opaque `0xAARRGGBB` pixel of a colour word: each level times 36.
pub open spec fn argb_of_color(color: u16) -> int {
    0xFF00_0000 + red_level(color) * 36 * 0x1_0000 + green_level(color) * 36 * 0x100
        + blue_level(color) * 36
}

/// Widens a colour word to an opaque `0xAARRGGBB` pixel.
pub fn color_to_argb(color: u16) -> (pixel: u32)
    ensures
        pixel == argb_of_color(color),
        pixel >= 0xFF00_0000,
{
    let r: u32 = ((color / 2) % 8) as u32 * 36;
    let g: u32 = ((color / 32) % 8) as u32 * 36;
    let b: u32 = ((color / 512) % 8) as u32 * 36;
    0xFF00_0000u32 + r * 0x1_0000 + g * 0x100 + b
}

/// Colour RAM.
#[derive(Clone)]
pub struct Cram {
    pub data: [u16; 64],
}

impl Cram {
    /// The entry an index refers to.
    pub open spec fn slot(index: int) -> int {
        index % 64
    }

    /// The entry a byte address refers to: two bytes per entry.
    pub open spec fn slot_of_addr(addr: u16) -> int {
        (addr as int / 2) % 64
    }

    /// A colour RAM of 64 black entries.
    pub fn new() -> (c: Cram)
        ensures
            c.data@ == Seq::new(64, |i: int| 0u16),
    {
        let c = Cram { data: [0; 64] };
        assert(c.data@ =~= Seq::new(64, |i: int| 0u16));
        c
    }

    /// Writes the entry at byte address `addr`.
    pub fn write_word(&mut self, addr: u16, value: u16)
        ensures
            final(self).data@ == old(self).data@.update(
                Self::slot_of_addr(addr),
                stored_color(value),
            ),
    {
        let index: usize = ((addr / 2) % 64) as usize;
        self.data[index] = value & CRAM_COLOR_MASK;
    }

    /// Reads the entry at byte address `addr`.
    pub fn read_word(&self, addr: u16) -> (value: u16)
        ensures
            value == self.data@[Self::slot_of_addr(addr)],
    {
        self.data[((addr / 2) % 64) as usize]
    }

    /// Writes entry `index mod 64`, keeping the colour bits of `value`.
    pub fn write(&mut self, index: usize, value: u16)
        ensures
            final(self).data@ == old(self).data@.update(
                Self::slot(index as int),
                stored_color(value),
            ),
    {
        self.data[index % 64] = value & CRAM_COLOR_MASK;
    }

    /// Reads entry `index mod 64`.
    pub fn read(&self, index: usize) -> (value: u16)
        ensures
            value == self.data@[Self::slot(index as int)],
    {
        self.data[index % 64]
    }

    /// Red, green and blue of entry `index mod 64`, each level times 36.
    pub fn to_rgb(&self, index: usize) -> (rgb: (u8, u8, u8))
        ensures
            rgb.0 == red_level(self.data@[Self::slot(index as int)]) * 36,
            rgb.1 == green_level(self.data@[Self::slot(index as int)]) * 36,
            rgb.2 == blue_level(self.data@[Self::slot(index as int)]) * 36,
    {
        let v: u16 = self.data[index % 64];
        let r: u8 = ((v / 2) % 8) as u8 * CHANNEL_STEP;
        let g: u8 = ((v / 32) % 8) as u8 * CHANNEL_STEP;
        let b: u8 = ((v / 512) % 8) as u8 * CHANNEL_STEP;
        (r, g, b)
    }

    /// Entry `index mod 64` as an opaque `0xAARRGGBB` pixel.
    pub fn to_rgb888(&self, index: usize) -> (pixel: u32)
        ensures
            pixel == argb_of_color(self.data@[Self::slot(index as int)]),
    {
        color_to_argb(self.data[index % 64])
    }

    /// A copy of all 64 entries.
    pub fn dump(&self) -> (out: Vec<u16>)
        ensures
            out@ == self.data@,
    {
        let mut out: Vec<u16> = Vec::new();
        let mut i: usize = 0;
        while i < 64
            invariant
                i <= 64,
                out@ == self.data@.subrange(0, i as int),
            decreases 64 - i,
        {
            out.push(self.data[i]);
            assert(out@ =~= self.data@.subrange(0, i as int + 1));
            i += 1;
        }
        assert(out@ =~= self.data@);
        out
    }
}

/// An index and its remainder modulo 64 name the same entry, so a write
/// through either leaves the same colour RAM.
pub proof fn lemma_index_wraps(data: Seq<u16>, index: usize, value: u16)
    ensures
        0 <= Cram::slot(index as int) < 64,
        Cram::slot(index as int) == Cram::slot(index as int % 64),
        data.update(Cram::slot(index as int), stored_color(value)) == data.update(
            Cram::slot(index as int % 64),
            stored_color(value),
        ),
{
}

impl Default for Cram {
    fn default() -> (c: Cram)
        ensures
            c.data@ == Seq::new(64, |i: int| 0u16),
    {
        Cram::new()
    }
}

} // verus!
