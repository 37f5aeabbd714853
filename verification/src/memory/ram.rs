//! The three blocks of RAM of the machine: 64 KiB of work RAM, 64 KiB of
//! video RAM and 8 KiB of sound RAM. Words are big-endian, and the address
//! of a word's low byte wraps within sixteen bits.

use vstd::prelude::*;

verus! {

/// Bytes of work RAM, and of video RAM.
pub const MAIN_RAM_SIZE: usize = 65536;

/// Bytes of sound RAM.
pub const SOUND_RAM_SIZE: usize = 8192;

/// Bytes of a tile: eight rows of eight pixels, four bits each.
pub const TILE_BYTES: usize = 32;

/// Why a block of RAM refused data.
#[derive(Clone, Copy, Debug, PartialEq, Eq, Structural)]
pub enum RamError {
    /// The data would end behind the block.
    OutOfBounds { offset: usize, length: usize, size: usize },
}

/// The word made of two bytes, high byte first.
pub open spec fn be_word(hi: u8, lo: u8) -> u16 {
    (hi as int * 256 + lo as int) as u16
}

/// The offset after `offset`, wrapping within sixteen bits.
pub open spec fn next_offset(offset: u16) -> int {
    (offset as int + 1) % 65536
}

/// The byte that a block gives at an offset: zero behind its end.
pub open spec fn byte_in(mem: Seq<u8>, offset: int) -> u8 {
    if 0 <= offset < mem.len() {
        mem[offset]
    } else {
        0
    }
}

/// A block after a byte was written at an offset: unchanged behind its end.
pub open spec fn with_byte(mem: Seq<u8>, offset: int, value: u8) -> Seq<u8> {
    if 0 <= offset < mem.len() {
        mem.update(offset, value)
    } else {
        mem
    }
}

/// The word that a block gives at an offset.
pub open spec fn word_in(mem: Seq<u8>, offset: u16) -> u16 {
    be_word(byte_in(mem, offset as int), byte_in(mem, next_offset(offset)))
}

/// A block after a word was written at an offset, high byte first.
pub open spec fn with_word(mem: Seq<u8>, offset: u16, value: u16) -> Seq<u8> {
    with_byte(
        with_byte(mem, offset as int, (value / 256) as u8),
        next_offset(offset),
        (value % 256) as u8,
    )
}

/// A block after `data` was copied to it from `start` on.
pub open spec fn with_data(mem: Seq<u8>, start: int, data: Seq<u8>) -> Seq<u8> {
    Seq::new(
        mem.len(),
        |i: int|
            if start <= i < start + data.len() {
                data[i - start]
            } else {
                mem[i]
            },
    )
}

/// The part of a block from `offset` on, `length` bytes or up to its end.
pub open spec fn window(mem: Seq<u8>, offset: u16, length: u16) -> Seq<u8> {
    let end = if offset + length <= mem.len() {
        offset as int + length as int
    } else {
        mem.len() as int
    };
    if offset <= end {
        mem.subrange(offset as int, end)
    } else {
        Seq::empty()
    }
}

/// What loading data into a block of `size` bytes returns.
pub open spec fn load_outcome(size: int, offset: u16, length: int) -> Result<(), RamError> {
    if offset + length > size {
        Err(
            RamError::OutOfBounds {
                offset: offset as usize,
                length: length as usize,
                size: size as usize,
            },
        )
    } else {
        Ok(())
    }
}

/// Work RAM: 64 KiB.
pub struct WorkRam {
    memory: [u8; 65536],
}

/// Video RAM: 64 KiB.
pub struct VideoRam {
    memory: [u8; 65536],
}

/// Sound RAM: 8 KiB.
pub struct SoundRam {
    memory: [u8; 8192],
}

impl View for WorkRam {
    type V = Seq<u8>;

    closed spec fn view(&self) -> Seq<u8> {
        self.memory@
    }
}

impl View for VideoRam {
    type V = Seq<u8>;

    closed spec fn view(&self) -> Seq<u8> {
        self.memory@
    }
}

impl View for SoundRam {
    type V = Seq<u8>;

    closed spec fn view(&self) -> Seq<u8> {
        self.memory@
    }
}

/// Copies `data` into a block from `start` on.
fn copy_into<const N: usize>(memory: &mut [u8; N], start: usize, data: &[u8])
    requires
        start + data@.len() <= N,
    ensures
        final(memory)@ == with_data(old(memory)@, start as int, data@),
{
    let mut i: usize = 0;
    while i < data.len()
        invariant
            i <= data@.len(),
            start + data@.len() <= N,
            memory@.len() == N,
            forall|k: int|
                0 <= k < N ==> memory@[k] == (if start <= k < start + i {
                    data@[k - start]
                } else {
                    old(memory)@[k]
                }),
        decreases data@.len() - i,
    {
        memory[start + i] = data[i];
        i += 1;
    }
    assert(memory@ =~= with_data(old(memory)@, start as int, data@));
}

impl WorkRam {
    /// Work RAM of zeroes.
    pub fn new() -> (ram: WorkRam)
        ensures
            ram@ == Seq::new(65536, |i: int| 0u8),
    {
        let ram = WorkRam { memory: [0; 65536] };
        assert(ram@ =~= Seq::new(65536, |i: int| 0u8));
        ram
    }

    /// The length of the block.
    pub proof fn lemma_len(&self)
        ensures
            self@.len() == 65536,
    {
    }

    /// Sets every byte to zero.
    pub fn clear(&mut self)
        ensures
            final(self)@ == Seq::new(65536, |i: int| 0u8),
    {
        self.memory = [0; 65536];
        assert(self@ =~= Seq::new(65536, |i: int| 0u8));
    }

    /// The byte at an offset.
    pub fn read_byte(&self, offset: u16) -> (res: Result<u8, RamError>)
        ensures
            res == Ok::<u8, RamError>(byte_in(self@, offset as int)),
    {
        Ok(self.memory[offset as usize])
    }

    /// Stores a byte at an offset.
    pub fn write_byte(&mut self, offset: u16, value: u8) -> (res: Result<(), RamError>)
        ensures
            res is Ok,
            final(self)@ == with_byte(old(self)@, offset as int, value),
    {
        self.memory[offset as usize] = value;
        Ok(())
    }

    /// The word at an offset, high byte first.
    pub fn read_word(&self, offset: u16) -> (res: Result<u16, RamError>)
        ensures
            res == Ok::<u16, RamError>(word_in(self@, offset)),
    {
        let high: u8 = self.memory[offset as usize];
        let low: u8 = self.memory[offset.wrapping_add(1) as usize];
        Ok(high as u16 * 256 + low as u16)
    }

    /// Stores a word at an offset, high byte first.
    pub fn write_word(&mut self, offset: u16, value: u16) -> (res: Result<(), RamError>)
        ensures
            res is Ok,
            final(self)@ == with_word(old(self)@, offset, value),
    {
        self.memory[offset as usize] = (value / 256) as u8;
        self.memory[offset.wrapping_add(1) as usize] = (value % 256) as u8;
        Ok(())
    }

    /// The bytes from `offset` on, `length` of them or up to the end.
    pub fn get_slice(&self, offset: u16, length: u16) -> (out: &[u8])
        ensures
            out@ == window(self@, offset, length),
    {
        let start: usize = offset as usize;
        let end: usize = if start + length as usize <= MAIN_RAM_SIZE {
            start + length as usize
        } else {
            MAIN_RAM_SIZE
        };
        vstd::slice::slice_subrange(vstd::array::array_as_slice(&self.memory), start, end)
    }

    /// Copies `data` into the block from `offset` on, or refuses data that
    /// would end behind the block.
    pub fn load_data(&mut self, offset: u16, data: &[u8]) -> (res: Result<(), RamError>)
        ensures
            res == load_outcome(65536, offset, data@.len() as int),
            res is Ok ==> final(self)@ == with_data(old(self)@, offset as int, data@),
            res is Err ==> final(self)@ == old(self)@,
    {
        let start: usize = offset as usize;
        if data.len() > MAIN_RAM_SIZE - start {
            return Err(
                RamError::OutOfBounds { offset: start, length: data.len(), size: MAIN_RAM_SIZE },
            );
        }
        copy_into(&mut self.memory, start, data);
        Ok(())
    }
}

impl VideoRam {
    /// Video RAM of zeroes.
    pub fn new() -> (ram: VideoRam)
        ensures
            ram@ == Seq::new(65536, |i: int| 0u8),
    {
        let ram = VideoRam { memory: [0; 65536] };
        assert(ram@ =~= Seq::new(65536, |i: int| 0u8));
        ram
    }

    /// The length of the block.
    pub proof fn lemma_len(&self)
        ensures
            self@.len() == 65536,
    {
    }

    /// Sets every byte to zero.
    pub fn clear(&mut self)
        ensures
            final(self)@ == Seq::new(65536, |i: int| 0u8),
    {
        self.memory = [0; 65536];
        assert(self@ =~= Seq::new(65536, |i: int| 0u8));
    }

    /// The byte at an offset.
    pub fn read_byte(&self, offset: u16) -> (res: Result<u8, RamError>)
        ensures
            res == Ok::<u8, RamError>(byte_in(self@, offset as int)),
    {
        Ok(self.memory[offset as usize])
    }

    /// Stores a byte at an offset.
    pub fn write_byte(&mut self, offset: u16, value: u8) -> (res: Result<(), RamError>)
        ensures
            res is Ok,
            final(self)@ == with_byte(old(self)@, offset as int, value),
    {
        self.memory[offset as usize] = value;
        Ok(())
    }

    /// The word at an offset, high byte first.
    pub fn read_word(&self, offset: u16) -> (res: Result<u16, RamError>)
        ensures
            res == Ok::<u16, RamError>(word_in(self@, offset)),
    {
        let high: u8 = self.memory[offset as usize];
        let low: u8 = self.memory[offset.wrapping_add(1) as usize];
        Ok(high as u16 * 256 + low as u16)
    }

    /// Stores a word at an offset, high byte first.
    pub fn write_word(&mut self, offset: u16, value: u16) -> (res: Result<(), RamError>)
        ensures
            res is Ok,
            final(self)@ == with_word(old(self)@, offset, value),
    {
        self.memory[offset as usize] = (value / 256) as u8;
        self.memory[offset.wrapping_add(1) as usize] = (value % 256) as u8;
        Ok(())
    }

    /// The 32 bytes of tile `tile_index`.
    pub fn read_tile(&self, tile_index: u16) -> (res: Result<[u8; 32], RamError>)
        requires
            tile_index < 2048,
        ensures
            res is Ok,
            res->Ok_0@ == self@.subrange(tile_index * 32, tile_index * 32 + 32),
    {
        let offset: usize = tile_index as usize * TILE_BYTES;
        let mut tile: [u8; 32] = [0; 32];
        let mut i: usize = 0;
        while i < 32
            invariant
                i <= 32,
                offset == tile_index * 32,
                tile_index < 2048,
                forall|k: int| 0 <= k < i ==> tile@[k] == self.memory@[offset + k],
            decreases 32 - i,
        {
            tile[i] = self.memory[offset + i];
            i += 1;
        }
        assert(tile@ =~= self@.subrange(tile_index * 32, tile_index * 32 + 32));
        Ok(tile)
    }

    /// Stores the 32 bytes of tile `tile_index`.
    pub fn write_tile(&mut self, tile_index: u16, tile: &[u8; 32]) -> (res: Result<(), RamError>)
        requires
            tile_index < 2048,
        ensures
            res is Ok,
            final(self)@ == with_data(old(self)@, tile_index * 32, tile@),
    {
        let offset: usize = tile_index as usize * TILE_BYTES;
        copy_into(&mut self.memory, offset, vstd::array::array_as_slice(tile));
        Ok(())
    }

    /// The bytes from `offset` on, `length` of them or up to the end.
    pub fn get_slice(&self, offset: u16, length: u16) -> (out: &[u8])
        ensures
            out@ == window(self@, offset, length),
    {
        let start: usize = offset as usize;
        let end: usize = if start + length as usize <= MAIN_RAM_SIZE {
            start + length as usize
        } else {
            MAIN_RAM_SIZE
        };
        vstd::slice::slice_subrange(vstd::array::array_as_slice(&self.memory), start, end)
    }
}

impl SoundRam {
    /// Sound RAM of zeroes.
    pub fn new() -> (ram: SoundRam)
        ensures
            ram@ == Seq::new(8192, |i: int| 0u8),
    {
        let ram = SoundRam { memory: [0; 8192] };
        assert(ram@ =~= Seq::new(8192, |i: int| 0u8));
        ram
    }

    /// The length of the block.
    pub proof fn lemma_len(&self)
        ensures
            self@.len() == 8192,
    {
    }

    /// Sets every byte to zero.
    pub fn clear(&mut self)
        ensures
            final(self)@ == Seq::new(8192, |i: int| 0u8),
    {
        self.memory = [0; 8192];
        assert(self@ =~= Seq::new(8192, |i: int| 0u8));
    }

    /// The byte at an offset: zero behind the end of the block.
    pub fn read_byte(&self, offset: u16) -> (res: Result<u8, RamError>)
        ensures
            res == Ok::<u8, RamError>(byte_in(self@, offset as int)),
    {
        if offset as usize >= SOUND_RAM_SIZE {
            Ok(0)
        } else {
            Ok(self.memory[offset as usize])
        }
    }

    /// Stores a byte at an offset; behind the end of the block nothing is
    /// stored.
    pub fn write_byte(&mut self, offset: u16, value: u8) -> (res: Result<(), RamError>)
        ensures
            res is Ok,
            final(self)@ == with_byte(old(self)@, offset as int, value),
    {
        if (offset as usize) < SOUND_RAM_SIZE {
            self.memory[offset as usize] = value;
        }
        Ok(())
    }

    /// The word at an offset, high byte first.
    pub fn read_word(&self, offset: u16) -> (res: Result<u16, RamError>)
        ensures
            res == Ok::<u16, RamError>(word_in(self@, offset)),
    {
        let next: u16 = offset.wrapping_add(1);
        let high: u8 = if offset as usize >= SOUND_RAM_SIZE {
            0
        } else {
            self.memory[offset as usize]
        };
        let low: u8 = if next as usize >= SOUND_RAM_SIZE {
            0
        } else {
            self.memory[next as usize]
        };
        Ok(high as u16 * 256 + low as u16)
    }

    /// Stores a word at an offset, high byte first.
    pub fn write_word(&mut self, offset: u16, value: u16) -> (res: Result<(), RamError>)
        ensures
            res is Ok,
            final(self)@ == with_word(old(self)@, offset, value),
    {
        let next: u16 = offset.wrapping_add(1);
        if (offset as usize) < SOUND_RAM_SIZE {
            self.memory[offset as usize] = (value / 256) as u8;
        }
        if (next as usize) < SOUND_RAM_SIZE {
            self.memory[next as usize] = (value % 256) as u8;
        }
        Ok(())
    }

    /// Copies `data` into the block from `offset` on, or refuses data that
    /// would end behind the block.
    pub fn load_data(&mut self, offset: u16, data: &[u8]) -> (res: Result<(), RamError>)
        ensures
            res == load_outcome(8192, offset, data@.len() as int),
            res is Ok ==> final(self)@ == with_data(old(self)@, offset as int, data@),
            res is Err ==> final(self)@ == old(self)@,
    {
        let start: usize = offset as usize;
        if start > SOUND_RAM_SIZE || data.len() > SOUND_RAM_SIZE - start {
            return Err(
                RamError::OutOfBounds { offset: start, length: data.len(), size: SOUND_RAM_SIZE },
            );
        }
        copy_into(&mut self.memory, start, data);
        Ok(())
    }
}

/// A byte or a word written to a block is the one read back from the same
/// offset.
pub proof fn lemma_read_after_write(mem: Seq<u8>, offset: u16, byte: u8, word: u16)
    requires
        offset < mem.len(),
        next_offset(offset) < mem.len(),
        mem.len() >= 2,
    ensures
        byte_in(with_byte(mem, offset as int, byte), offset as int) == byte,
        word_in(with_word(mem, offset, word), offset) == word,
{
}

} // verus!
