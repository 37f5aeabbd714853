//! Vertical scroll RAM: 40 words that give the planes their vertical scroll,
//! for the whole plane, per line, per column or for the two halves of a
//! split screen.
//!
//! Byte addresses wrap modulo 80, so every port access succeeds.

use vstd::prelude::*;
use crate::text::{bool_text, decimal, push_bool, push_decimal, push_signed, signed_decimal, text_of};
use crate::vdp::vram::{high_byte, low_byte, word_of};

verus! {

/// Size in bytes.
pub const VSRAM_SIZE_BYTES: usize = 80;

/// Size in words.
pub const VSRAM_SIZE_WORDS: usize = 40;

/// Most lines a frame can have.
pub const MAX_VERTICAL_LINES: usize = 313;

/// Number of column-scroll entries.
pub const COLUMN_SCROLL_ENTRIES: usize = 20;

/// A word read as a 16-bit two's-complement number.
pub open spec fn signed_of(word: u16) -> int {
    if word < 0x8000 {
        word as int
    } else {
        word as int - 0x1_0000
    }
}

/// The word that holds a 16-bit two's-complement number.
pub open spec fn unsigned_of(value: i16) -> int {
    if value >= 0 {
        value as int
    } else {
        value as int + 0x1_0000
    }
}

/// Reads a word as a signed number.
pub fn word_to_signed(word: u16) -> (v: i16)
    ensures
        v == signed_of(word),
        unsigned_of(v) == word,
{
    if word < 0x8000 {
        word as i16
    } else {
        ((word - 0x8000) as i16) - 0x4000 - 0x4000
    }
}

/// Stores a signed number in a word.
pub fn signed_to_word(value: i16) -> (w: u16)
    ensures
        w == unsigned_of(value),
        signed_of(w) == value,
{
    if value >= 0 {
        value as u16
    } else {
        ((value as i32) + 0x1_0000) as u16
    }
}

/// The byte of a word array at byte address `addr`: even addresses hold the
/// low byte of a word, odd addresses its high byte.
pub open spec fn byte_of_words(data: Seq<u16>, addr: int) -> u8 {
    if addr % 2 == 0 {
        low_byte(data[addr / 2])
    } else {
        high_byte(data[addr / 2])
    }
}

/// `word` with the byte that `addr` selects replaced by `value`.
pub open spec fn with_byte(word: u16, addr: int, value: u8) -> u16 {
    if addr % 2 == 0 {
        word_of(value, high_byte(word))
    } else {
        word_of(low_byte(word), value)
    }
}

/// Replacing one byte of a word sets that byte and keeps the other.
pub proof fn lemma_with_byte(word: u16, addr: int, value: u8)
    ensures
        addr % 2 == 0 ==> low_byte(with_byte(word, addr, value)) == value && high_byte(
            with_byte(word, addr, value),
        ) == high_byte(word),
        addr % 2 != 0 ==> high_byte(with_byte(word, addr, value)) == value && low_byte(
            with_byte(word, addr, value),
        ) == low_byte(word),
{
}

/// How the vertical scroll of a pixel is found.
#[derive(Debug, Clone, Copy, PartialEq, Eq, Structural)]
pub enum ScrollMode {
    /// One value for the whole plane.
    Global,
    /// One entry per line.
    LineScroll,
    /// One entry per column of eight pixels.
    ColumnScroll,
    /// One value above the split line, another from it on.
    SplitScreen,
}

/// Vertical scroll RAM with the scroll values that follow from it.
#[derive(Clone)]
pub struct Vsram {
    pub data: [u16; 40],
    pub plane_a_scroll: i16,
    pub plane_b_scroll: i16,
    pub split_line: u16,
    pub split_scroll_a: i16,
    pub split_scroll_b: i16,
    pub scroll_mode: ScrollMode,
    pub line_scroll_enabled: bool,
    pub column_scroll_enabled: bool,
}

impl Vsram {
    /// The scroll values are those of the first five words: scroll of plane
    /// A, scroll of plane B, split line, and the two scrolls below the split.
    pub open spec fn scroll_follows_data(&self) -> bool {
        &&& self.plane_a_scroll == signed_of(self.data@[0])
        &&& self.plane_b_scroll == signed_of(self.data@[1])
        &&& self.split_line == self.data@[2]
        &&& self.split_scroll_a == signed_of(self.data@[3])
        &&& self.split_scroll_b == signed_of(self.data@[4])
    }

    /// The mode and the two enable flags are those of `other`.
    pub open spec fn same_mode_as(&self, other: &Vsram) -> bool {
        &&& self.scroll_mode == other.scroll_mode
        &&& self.line_scroll_enabled == other.line_scroll_enabled
        &&& self.column_scroll_enabled == other.column_scroll_enabled
    }

    /// The five scroll values are those of `other`.
    pub open spec fn same_scroll_as(&self, other: &Vsram) -> bool {
        &&& self.plane_a_scroll == other.plane_a_scroll
        &&& self.plane_b_scroll == other.plane_b_scroll
        &&& self.split_line == other.split_line
        &&& self.split_scroll_a == other.split_scroll_a
        &&& self.split_scroll_b == other.split_scroll_b
    }

    /// The word a byte address refers to.
    pub open spec fn slot(addr: u32) -> int {
        (addr as int % 80) / 2
    }

    /// The entry that scrolls pixel column `column`.
    pub open spec fn column_slot(column: int) -> int {
        (column / 8) % 20
    }

    /// Vertical scroll of a plane whose global scroll is `global` and whose
    /// scroll below the split line is `below_split`.
    pub open spec fn line_scroll(
        &self,
        global: i16,
        below_split: i16,
        line: u16,
        column: u16,
        mode: ScrollMode,
    ) -> int {
        match mode {
            ScrollMode::Global => global as int,
            ScrollMode::LineScroll => if self.line_scroll_enabled && line < 40 {
                signed_of(self.data@[line as int])
            } else {
                global as int
            },
            ScrollMode::ColumnScroll => if self.column_scroll_enabled {
                signed_of(self.data@[Self::column_slot(column as int)])
            } else {
                global as int
            },
            ScrollMode::SplitScreen => if line < self.split_line {
                global as int
            } else {
                below_split as int
            },
        }
    }

    /// Vertical scroll of plane A at (`line`, `column`).
    pub open spec fn line_scroll_a(&self, line: u16, column: u16, mode: ScrollMode) -> int {
        self.line_scroll(self.plane_a_scroll, self.split_scroll_a, line, column, mode)
    }

    /// Vertical scroll of plane B at (`line`, `column`).
    pub open spec fn line_scroll_b(&self, line: u16, column: u16, mode: ScrollMode) -> int {
        self.line_scroll(self.plane_b_scroll, self.split_scroll_b, line, column, mode)
    }

    /// Zeroed scroll RAM in global mode.
    pub fn new() -> (v: Vsram)
        ensures
            v.data@ == Seq::new(40, |i: int| 0u16),
            v.scroll_follows_data(),
            v.scroll_mode == ScrollMode::Global,
            !v.line_scroll_enabled,
            !v.column_scroll_enabled,
    {
        let v = Vsram {
            data: [0; 40],
            plane_a_scroll: 0,
            plane_b_scroll: 0,
            split_line: 0,
            split_scroll_a: 0,
            split_scroll_b: 0,
            scroll_mode: ScrollMode::Global,
            line_scroll_enabled: false,
            column_scroll_enabled: false,
        };
        assert(v.data@ =~= Seq::new(40, |i: int| 0u16));
        v
    }

    /// Reads the byte at `addr mod 80`.
    pub fn read8(&self, addr: u32) -> (b: u8)
        ensures
            b == byte_of_words(self.data@, addr as int % 80),
    {
        let a: usize = (addr % 80) as usize;
        let word: u16 = self.data[a / 2];
        if a % 2 == 0 {
            (word % 256) as u8
        } else {
            (word / 256) as u8
        }
    }

    /// Reads the word that holds byte `addr mod 80`.
    pub fn read16(&self, addr: u32) -> (w: u16)
        ensures
            w == self.data@[Self::slot(addr)],
    {
        self.data[((addr % 80) / 2) as usize]
    }

    /// Writes the byte at `addr mod 80`; the scroll values follow.
    pub fn write8(&mut self, addr: u32, value: u8)
        ensures
            final(self).data@ == old(self).data@.update(
                Self::slot(addr),
                with_byte(old(self).data@[Self::slot(addr)], addr as int % 80, value),
            ),
            final(self).scroll_follows_data(),
            final(self).same_mode_as(old(self)),
    {
        let a: usize = (addr % 80) as usize;
        let word: u16 = self.data[a / 2];
        let new_word: u16 = if a % 2 == 0 {
            (word / 256) * 256 + value as u16
        } else {
            (value as u16) * 256 + word % 256
        };
        self.data[a / 2] = new_word;
        self.update_scroll_from_data();
    }

    /// Writes the word that holds byte `addr mod 80`; the scroll values follow.
    pub fn write16(&mut self, addr: u32, value: u16)
        ensures
            final(self).data@ == old(self).data@.update(Self::slot(addr), value),
            final(self).scroll_follows_data(),
            final(self).same_mode_as(old(self)),
    {
        self.data[((addr % 80) / 2) as usize] = value;
        self.update_scroll_from_data();
    }

    fn update_scroll_from_data(&mut self)
        ensures
            final(self).data == old(self).data,
            final(self).scroll_follows_data(),
            final(self).same_mode_as(old(self)),
    {
        self.plane_a_scroll = word_to_signed(self.data[0]);
        self.plane_b_scroll = word_to_signed(self.data[1]);
        self.split_line = self.data[2];
        self.split_scroll_a = word_to_signed(self.data[3]);
        self.split_scroll_b = word_to_signed(self.data[4]);
    }

    /// Vertical scroll of plane A at (`line`, `column`) under `mode`.
    pub fn get_line_scroll_a(&self, line: u16, column: u16, mode: ScrollMode) -> (s: i16)
        ensures
            s == self.line_scroll_a(line, column, mode),
    {
        self.resolve_scroll(self.plane_a_scroll, self.split_scroll_a, line, column, mode)
    }

    /// Vertical scroll of plane B at (`line`, `column`) under `mode`.
    pub fn get_line_scroll_b(&self, line: u16, column: u16, mode: ScrollMode) -> (s: i16)
        ensures
            s == self.line_scroll_b(line, column, mode),
    {
        self.resolve_scroll(self.plane_b_scroll, self.split_scroll_b, line, column, mode)
    }

    fn resolve_scroll(
        &self,
        global: i16,
        below_split: i16,
        line: u16,
        column: u16,
        mode: ScrollMode,
    ) -> (s: i16)
        ensures
            s == self.line_scroll(global, below_split, line, column, mode),
    {
        match mode {
            ScrollMode::Global => global,
            ScrollMode::LineScroll => {
                if self.line_scroll_enabled && line < 40 {
                    word_to_signed(self.data[line as usize])
                } else {
                    global
                }
            },
            ScrollMode::ColumnScroll => {
                if self.column_scroll_enabled {
                    word_to_signed(self.data[((column / 8) % 20) as usize])
                } else {
                    global
                }
            },
            ScrollMode::SplitScreen => {
                if line < self.split_line {
                    global
                } else {
                    below_split
                }
            },
        }
    }

    /// Sets the global scroll of both planes and stores it in words 0 and 1.
    pub fn set_global_scroll(&mut self, plane_a_scroll: i16, plane_b_scroll: i16)
        ensures
            final(self).plane_a_scroll == plane_a_scroll,
            final(self).plane_b_scroll == plane_b_scroll,
            final(self).data@ == old(self).data@.update(
                0,
                unsigned_of(plane_a_scroll) as u16,
            ).update(1, unsigned_of(plane_b_scroll) as u16),
            final(self).split_line == old(self).split_line,
            final(self).split_scroll_a == old(self).split_scroll_a,
            final(self).split_scroll_b == old(self).split_scroll_b,
            final(self).same_mode_as(old(self)),
    {
        self.plane_a_scroll = plane_a_scroll;
        self.plane_b_scroll = plane_b_scroll;
        self.data[0] = signed_to_word(plane_a_scroll);
        self.data[1] = signed_to_word(plane_b_scroll);
    }

    /// Stores the scroll of line `line`; lines from 40 on have no entry.
    pub fn set_line_scroll(&mut self, line: usize, scroll: i16)
        ensures
            final(self).data@ == (if line < 40 {
                old(self).data@.update(line as int, unsigned_of(scroll) as u16)
            } else {
                old(self).data@
            }),
            final(self).same_scroll_as(old(self)),
            final(self).same_mode_as(old(self)),
    {
        if line < VSRAM_SIZE_WORDS {
            self.data[line] = signed_to_word(scroll);
        }
    }

    /// Stores the scroll of the eight-pixel column that holds pixel column `column`.
    pub fn set_column_scroll(&mut self, column: usize, scroll: i16)
        ensures
            final(self).data@ == old(self).data@.update(
                Self::column_slot(column as int),
                unsigned_of(scroll) as u16,
            ),
            final(self).same_scroll_as(old(self)),
            final(self).same_mode_as(old(self)),
    {
        let entry: usize = (column / 8) % COLUMN_SCROLL_ENTRIES;
        self.data[entry] = signed_to_word(scroll);
    }

    /// Chooses the scroll mode.
    pub fn set_scroll_mode(&mut self, mode: ScrollMode)
        ensures
            final(self).scroll_mode == mode,
            final(self).data == old(self).data,
            final(self).same_scroll_as(old(self)),
            final(self).line_scroll_enabled == old(self).line_scroll_enabled,
            final(self).column_scroll_enabled == old(self).column_scroll_enabled,
    {
        self.scroll_mode = mode;
    }

    /// Switches line scroll on or off; switching it on selects line-scroll mode.
    pub fn set_line_scroll_enabled(&mut self, enabled: bool)
        ensures
            final(self).line_scroll_enabled == enabled,
            final(self).scroll_mode == (if enabled {
                ScrollMode::LineScroll
            } else {
                old(self).scroll_mode
            }),
            final(self).data == old(self).data,
            final(self).same_scroll_as(old(self)),
            final(self).column_scroll_enabled == old(self).column_scroll_enabled,
    {
        self.line_scroll_enabled = enabled;
        if enabled {
            self.scroll_mode = ScrollMode::LineScroll;
        }
    }

    /// Switches column scroll on or off; switching it on selects column-scroll mode.
    pub fn set_column_scroll_enabled(&mut self, enabled: bool)
        ensures
            final(self).column_scroll_enabled == enabled,
            final(self).scroll_mode == (if enabled {
                ScrollMode::ColumnScroll
            } else {
                old(self).scroll_mode
            }),
            final(self).data == old(self).data,
            final(self).same_scroll_as(old(self)),
            final(self).line_scroll_enabled == old(self).line_scroll_enabled,
    {
        self.column_scroll_enabled = enabled;
        if enabled {
            self.scroll_mode = ScrollMode::ColumnScroll;
        }
    }

    /// Sets up a split screen: the split line and the two scrolls below it,
    /// stored in words 2, 3 and 4.
    pub fn set_split_screen(&mut self, split_line: u16, scroll_a: i16, scroll_b: i16)
        ensures
            final(self).split_line == split_line,
            final(self).split_scroll_a == scroll_a,
            final(self).split_scroll_b == scroll_b,
            final(self).scroll_mode == ScrollMode::SplitScreen,
            final(self).data@ == old(self).data@.update(2, split_line).update(
                3,
                unsigned_of(scroll_a) as u16,
            ).update(4, unsigned_of(scroll_b) as u16),
            final(self).plane_a_scroll == old(self).plane_a_scroll,
            final(self).plane_b_scroll == old(self).plane_b_scroll,
            final(self).line_scroll_enabled == old(self).line_scroll_enabled,
            final(self).column_scroll_enabled == old(self).column_scroll_enabled,
    {
        self.split_line = split_line;
        self.split_scroll_a = scroll_a;
        self.split_scroll_b = scroll_b;
        self.data[2] = split_line;
        self.data[3] = signed_to_word(scroll_a);
        self.data[4] = signed_to_word(scroll_b);
        self.scroll_mode = ScrollMode::SplitScreen;
    }

    /// Zeroes every word and scroll value and returns to global mode.
    pub fn clear(&mut self)
        ensures
            final(self).data@ == Seq::new(40, |i: int| 0u16),
            final(self).scroll_follows_data(),
            final(self).scroll_mode == ScrollMode::Global,
            final(self).line_scroll_enabled == old(self).line_scroll_enabled,
            final(self).column_scroll_enabled == old(self).column_scroll_enabled,
    {
        self.data = [0; 40];
        self.plane_a_scroll = 0;
        self.plane_b_scroll = 0;
        self.split_line = 0;
        self.split_scroll_a = 0;
        self.split_scroll_b = 0;
        self.scroll_mode = ScrollMode::Global;
        assert(self.data@ =~= Seq::new(40, |i: int| 0u16));
    }

    /// Sets every word to `value`; the scroll values follow.
    pub fn fill(&mut self, value: u16)
        ensures
            final(self).data@ == Seq::new(40, |i: int| value),
            final(self).scroll_follows_data(),
            final(self).same_mode_as(old(self)),
    {
        self.data = [value; 40];
        self.update_scroll_from_data();
        assert(self.data@ =~= Seq::new(40, |i: int| value));
    }

    /// Copies `data` to byte address `addr` and up; what would fall past
    /// byte 79 is dropped, and so is everything where `addr` is 80 or more.
    pub fn copy_from(&mut self, addr: u32, data: &[u8])
        ensures
            forall|a: int|
                0 <= a < 80 ==> byte_of_words(final(self).data@, a) == (if addr <= a < addr
                    + data@.len() {
                    data@[a - addr]
                } else {
                    byte_of_words(old(self).data@, a)
                }),
            data@.len() > 0 && addr < 80 ==> final(self).scroll_follows_data(),
            data@.len() == 0 || addr >= 80 ==> *final(self) == *old(self),
            final(self).same_mode_as(old(self)),
    {
        let start: usize = addr as usize;
        if start >= VSRAM_SIZE_BYTES {
            return ;
        }
        let room: usize = VSRAM_SIZE_BYTES - start;
        let mut i: usize = 0;
        while i < data.len() && i < room
            invariant
                start == addr,
                start < 80,
                room == 80 - start,
                i <= data@.len(),
                i <= room,
                forall|a: int|
                    0 <= a < 80 ==> byte_of_words(self.data@, a) == (if start <= a < start + i {
                        data@[a - start]
                    } else {
                        byte_of_words(old(self).data@, a)
                    }),
                i > 0 ==> self.scroll_follows_data(),
                i == 0 ==> *self == *old(self),
                self.same_mode_as(old(self)),
            decreases data@.len() - i,
        {
            let ghost before = self.data@;
            let target: u32 = (start + i) as u32;
            self.write8(target, data[i]);
            proof {
                let t = target as int;
                assert(t % 80 == t);
                assert(Self::slot(target) == t / 2);
                lemma_with_byte(before[t / 2], t, data@[i as int]);
                assert forall|a: int| 0 <= a < 80 implies byte_of_words(self.data@, a) == (if start
                    <= a < start + i + 1 {
                    data@[a - start]
                } else {
                    byte_of_words(old(self).data@, a)
                }) by {
                    let nw = with_byte(before[t / 2], t, data@[i as int]);
                    assert(self.data@ == before.update(t / 2, nw));
                    if a == t {
                        assert(self.data@[a / 2] == nw);
                        assert(byte_of_words(self.data@, a) == data@[i as int]);
                    } else if a / 2 == t / 2 {
                        assert(self.data@[a / 2] == nw);
                        assert(a % 2 != t % 2);
                        assert(byte_of_words(self.data@, a) == byte_of_words(before, a));
                    } else {
                        assert(self.data@[a / 2] == before[a / 2]);
                        assert(byte_of_words(self.data@, a) == byte_of_words(before, a));
                    }
                }
            }
            i += 1;
        }
    }

    /// The `len` bytes from byte address `addr` up, zero from byte 80 on.
    pub fn copy_to(&self, addr: u32, len: usize) -> (out: Vec<u8>)
        ensures
            out@.len() == len,
            forall|i: int|
                0 <= i < len ==> out@[i] == (if addr + i < 80 {
                    byte_of_words(self.data@, addr + i)
                } else {
                    0u8
                }),
    {
        let start: usize = addr as usize;
        let mut out: Vec<u8> = Vec::new();
        let mut i: usize = 0;
        while i < len
            invariant
                start == addr,
                i <= len,
                out@.len() == i,
                forall|k: int|
                    0 <= k < i ==> out@[k] == (if start + k < 80 {
                        byte_of_words(self.data@, start + k)
                    } else {
                        0u8
                    }),
            decreases len - i,
        {
            let b: u8 = if start < 80 && i < 80 - start {
                self.read8((start + i) as u32)
            } else {
                0
            };
            out.push(b);
            i += 1;
        }
        out
    }

    /// A copy of the 40 words.
    pub fn dump(&self) -> (out: Vec<u16>)
        ensures
            out@ == self.data@,
    {
        let mut out: Vec<u16> = Vec::new();
        let mut i: usize = 0;
        while i < 40
            invariant
                i <= 40,
                out@ == self.data@.subrange(0, i as int),
            decreases 40 - i,
        {
            out.push(self.data[i]);
            assert(out@ =~= self.data@.subrange(0, i as int + 1));
            i += 1;
        }
        assert(out@ =~= self.data@);
        out
    }

    /// The 80 bytes, the low byte of each word first.
    pub fn dump_bytes(&self) -> (out: Vec<u8>)
        ensures
            out@.len() == 80,
            forall|a: int| 0 <= a < 80 ==> out@[a] == byte_of_words(self.data@, a),
    {
        let mut out: Vec<u8> = Vec::new();
        let mut i: usize = 0;
        while i < 40
            invariant
                i <= 40,
                out@.len() == 2 * i,
                forall|a: int| 0 <= a < 2 * i ==> out@[a] == byte_of_words(self.data@, a),
            decreases 40 - i,
        {
            let word: u16 = self.data[i];
            out.push((word % 256) as u8);
            out.push((word / 256) as u8);
            i += 1;
        }
        out
    }

    /// Size in bytes.
    pub fn size_bytes(&self) -> (n: usize)
        ensures
            n == 80,
    {
        VSRAM_SIZE_BYTES
    }

    /// Size in words.
    pub fn size_words(&self) -> (n: usize)
        ensures
            n == 40,
    {
        VSRAM_SIZE_WORDS
    }

    /// Whether `addr` is below 80.
    pub fn is_valid_address(&self, addr: u32) -> (b: bool)
        ensures
            b == (addr < 80),
    {
        (addr as usize) < VSRAM_SIZE_BYTES
    }
}

/// A byte address and its remainder modulo 80 name the same byte of the
/// same word, so a write through either leaves the same scroll RAM.
pub proof fn lemma_address_wraps(data: Seq<u16>, addr: u32, word: u16, byte: u8)
    ensures
        0 <= Vsram::slot(addr) < 40,
        Vsram::slot(addr) == Vsram::slot((addr % 80) as u32),
        data.update(Vsram::slot(addr), word) == data.update(Vsram::slot((addr % 80) as u32), word),
        with_byte(data[Vsram::slot(addr)], addr as int % 80, byte) == with_byte(
            data[Vsram::slot((addr % 80) as u32)],
            (addr % 80) as int % 80,
            byte,
        ),
{
}

/// The name of a scroll mode.
pub open spec fn scroll_mode_name(mode: ScrollMode) -> &'static str {
    match mode {
        ScrollMode::Global => "Global",
        ScrollMode::LineScroll => "LineScroll",
        ScrollMode::ColumnScroll => "ColumnScroll",
        ScrollMode::SplitScreen => "SplitScreen",
    }
}

/// The name of a scroll mode.
pub fn scroll_mode_text(mode: ScrollMode) -> (name: &'static str)
    ensures
        name@ == scroll_mode_name(mode)@,
{
    match mode {
        ScrollMode::Global => "Global",
        ScrollMode::LineScroll => "LineScroll",
        ScrollMode::ColumnScroll => "ColumnScroll",
        ScrollMode::SplitScreen => "SplitScreen",
    }
}

impl Vsram {
    /// The one-line report: size, mode and the two global scrolls.
    pub open spec fn info_text(&self) -> Seq<char> {
        "VSRAM: "@ + decimal(40) + " words ("@ + decimal(80) + " bytes), Mode: "@
            + scroll_mode_name(self.scroll_mode)@ + ", Plane A Scroll: "@ + signed_decimal(
            self.plane_a_scroll as int,
        ) + ", Plane B Scroll: "@ + signed_decimal(self.plane_b_scroll as int)
    }

    /// The eight lines of the scroll report.
    pub open spec fn scroll_info_text(&self) -> Seq<Seq<char>> {
        seq![
            "Scroll Mode: "@ + scroll_mode_name(self.scroll_mode)@,
            "Plane A Scroll: "@ + signed_decimal(self.plane_a_scroll as int),
            "Plane B Scroll: "@ + signed_decimal(self.plane_b_scroll as int),
            "Split Line: "@ + decimal(self.split_line as nat),
            "Split Scroll A: "@ + signed_decimal(self.split_scroll_a as int),
            "Split Scroll B: "@ + signed_decimal(self.split_scroll_b as int),
            "Line Scroll Enabled: "@ + bool_text(self.line_scroll_enabled),
            "Column Scroll Enabled: "@ + bool_text(self.column_scroll_enabled),
        ]
    }

    /// A one-line report: size, mode and the two global scrolls.
    pub fn get_info(&self) -> (info: String)
        ensures
            info@ == self.info_text(),
    {
        let mut s = text_of("VSRAM: ");
        push_decimal(&mut s, VSRAM_SIZE_WORDS as u64);
        s.push_str(" words (");
        push_decimal(&mut s, VSRAM_SIZE_BYTES as u64);
        s.push_str(" bytes), Mode: ");
        s.push_str(scroll_mode_text(self.scroll_mode));
        s.push_str(", Plane A Scroll: ");
        push_signed(&mut s, self.plane_a_scroll as i64);
        s.push_str(", Plane B Scroll: ");
        push_signed(&mut s, self.plane_b_scroll as i64);
        s
    }

    /// The scroll state, one line per value.
    pub fn get_scroll_info(&self) -> (info: Vec<String>)
        ensures
            info@.len() == 8,
            forall|i: int| 0 <= i < 8 ==> info@[i]@ == self.scroll_info_text()[i],
    {
        let mut info: Vec<String> = Vec::new();
        let mut s = text_of("Scroll Mode: ");
        s.push_str(scroll_mode_text(self.scroll_mode));
        info.push(s);
        let mut s = text_of("Plane A Scroll: ");
        push_signed(&mut s, self.plane_a_scroll as i64);
        info.push(s);
        let mut s = text_of("Plane B Scroll: ");
        push_signed(&mut s, self.plane_b_scroll as i64);
        info.push(s);
        let mut s = text_of("Split Line: ");
        push_decimal(&mut s, self.split_line as u64);
        info.push(s);
        let mut s = text_of("Split Scroll A: ");
        push_signed(&mut s, self.split_scroll_a as i64);
        info.push(s);
        let mut s = text_of("Split Scroll B: ");
        push_signed(&mut s, self.split_scroll_b as i64);
        info.push(s);
        let mut s = text_of("Line Scroll Enabled: ");
        push_bool(&mut s, self.line_scroll_enabled);
        info.push(s);
        let mut s = text_of("Column Scroll Enabled: ");
        push_bool(&mut s, self.column_scroll_enabled);
        info.push(s);
        info
    }
}

impl core::ops::Index<usize> for Vsram {
    type Output = u16;

    /// Word `index mod 40`.
    fn index(&self, index: usize) -> (word: &u16)
        ensures
            *word == self.data@[index as int % 40],
    {
        &self.data[index % VSRAM_SIZE_WORDS]
    }
}

impl core::ops::IndexMut<usize> for Vsram {
    /// Word `index mod 40`, open to writing; the scroll values stay as they are.
    fn index_mut(&mut self, index: usize) -> (word: &mut u16)
        ensures
            *word == old(self).data@[index as int % 40],
            final(self).data@ == old(self).data@.update(index as int % 40, *final(word)),
            final(self).same_scroll_as(old(self)),
            final(self).same_mode_as(old(self)),
    {
        &mut self.data[index % VSRAM_SIZE_WORDS]
    }
}

impl Default for Vsram {
    fn default() -> (v: Vsram)
        ensures
            v.data@ == Seq::new(40, |i: int| 0u16),
            v.scroll_follows_data(),
    {
        Vsram::new()
    }
}

} // verus!
