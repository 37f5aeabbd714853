//! The memory of the machine as the host processor sees it: the blocks of
//! RAM, the cartridge, the boot image, the input and output registers, and
//! the map from a 24-bit address to one of them. Words and long words are
//! big-endian; the address of a later byte wraps within 32 bits.

pub mod mapper;
pub mod ram;
pub mod rom;

use vstd::prelude::*;

pub use mapper::{MappedAddress, MemoryMapper, MemoryRegion};
pub use ram::{RamError, SoundRam, VideoRam, WorkRam};
pub use rom::{Cartridge, CartridgeView, Region, RomError, RomHeader};

verus! {

/// Number of input and output registers.
pub const IO_REGISTERS: usize = 0x100;

/// The input and output registers below this offset cannot be written.
pub const FIRST_WRITABLE_IO: u16 = 2;

/// The two lengths that a boot image may have.
pub const BIOS_SMALL: usize = 0x2000;

pub const BIOS_LARGE: usize = 0x4000;

/// Why the memory refused something.
#[derive(Clone, Copy, Debug, PartialEq, Eq, Structural)]
pub enum MemoryError {
    /// The cartridge image was refused.
    Rom(RomError),
    /// A block of RAM refused an access.
    Ram(RamError),
    /// A boot image is 8 KiB or 16 KiB long; this one has another length.
    InvalidBiosSize(usize),
}

/// What the memory holds.
#[verifier::ext_equal]
pub struct MemoryView {
    /// Work RAM.
    pub work: Seq<u8>,
    /// Video RAM.
    pub video: Seq<u8>,
    /// Sound RAM.
    pub sound: Seq<u8>,
    /// Input and output registers.
    pub io: Seq<u8>,
    /// The boot image, if one was loaded.
    pub bios: Option<Seq<u8>>,
    /// The cartridge, if one was loaded.
    pub cartridge: Option<CartridgeView>,
    /// Whether the boot image covers the first 1 KiB.
    pub locked: bool,
    /// Whether the map shows save RAM.
    pub save_ram: bool,
}

/// The address `step` after `address`, wrapping within 32 bits.
pub open spec fn address_after(address: u32, step: int) -> u32 {
    ((address as int + step) % 0x1_0000_0000) as u32
}

impl MemoryView {
    /// Every block has its length and the cartridge is well formed.
    pub open spec fn wf(self) -> bool {
        &&& self.work.len() == ram::MAIN_RAM_SIZE
        &&& self.video.len() == ram::MAIN_RAM_SIZE
        &&& self.sound.len() == ram::SOUND_RAM_SIZE
        &&& self.io.len() == IO_REGISTERS
        &&& self.cartridge is Some ==> self.cartridge.unwrap().wf()
    }

    /// What an address is mapped to.
    pub open spec fn mapped(self, address: u32) -> MappedAddress {
        mapper::mapped(self.locked, self.save_ram, address)
    }

    /// The byte at an address. Where nothing answers, 0xFF is read; an
    /// input or output register that does not exist reads as zero.
    #[verifier::opaque]
    pub open spec fn byte_at(self, address: u32) -> u8 {
        let m = self.mapped(address);
        match m.region {
            MemoryRegion::Bios => match self.bios {
                Some(bios) => if m.offset < bios.len() {
                    bios[m.offset as int]
                } else {
                    rom::OPEN_BUS
                },
                None => rom::OPEN_BUS,
            },
            MemoryRegion::WorkRam => ram::byte_in(self.work, m.offset as int),
            MemoryRegion::VideoRam => ram::byte_in(self.video, m.offset as int),
            MemoryRegion::SoundRam => ram::byte_in(self.sound, m.offset as int),
            MemoryRegion::CartridgeRom => match self.cartridge {
                Some(cartridge) => cartridge.byte_at(m.offset),
                None => rom::OPEN_BUS,
            },
            MemoryRegion::CartridgeRam => match self.cartridge {
                Some(cartridge) => cartridge.save_byte(m.offset),
                None => rom::OPEN_BUS,
            },
            MemoryRegion::IoRegisters => ram::byte_in(self.io, m.offset as int),
            MemoryRegion::Unmapped => rom::OPEN_BUS,
        }
    }

    /// The memory after a byte was written at an address. The first two
    /// input and output registers, the boot image and what is not mapped
    /// take no write; a write into the cartridge image reaches its banks.
    #[verifier::opaque]
    pub open spec fn with_byte(self, address: u32, value: u8) -> MemoryView {
        let m = self.mapped(address);
        match m.region {
            MemoryRegion::WorkRam => MemoryView {
                work: ram::with_byte(self.work, m.offset as int, value),
                ..self
            },
            MemoryRegion::VideoRam => MemoryView {
                video: ram::with_byte(self.video, m.offset as int, value),
                ..self
            },
            MemoryRegion::SoundRam => MemoryView {
                sound: ram::with_byte(self.sound, m.offset as int, value),
                ..self
            },
            MemoryRegion::CartridgeRam => match self.cartridge {
                Some(cartridge) => MemoryView {
                    cartridge: Some(cartridge.with_save_byte(m.offset, value)),
                    ..self
                },
                None => self,
            },
            MemoryRegion::IoRegisters => if m.offset >= FIRST_WRITABLE_IO {
                MemoryView { io: ram::with_byte(self.io, m.offset as int, value), ..self }
            } else {
                self
            },
            MemoryRegion::CartridgeRom => match self.cartridge {
                Some(cartridge) => MemoryView {
                    cartridge: Some(cartridge.with_bank_switch(m.offset, value)),
                    ..self
                },
                None => self,
            },
            MemoryRegion::Bios => self,
            MemoryRegion::Unmapped => self,
        }
    }

    /// The word at an address, high byte first.
    pub open spec fn word_at(self, address: u32) -> u16 {
        ram::be_word(self.byte_at(address), self.byte_at(address_after(address, 1)))
    }

    /// The long word at an address, high word first.
    pub open spec fn long_at(self, address: u32) -> u32 {
        (self.word_at(address) as int * 0x1_0000 + self.word_at(address_after(address, 2)) as int)
            as u32
    }

    /// The memory after a word was written at an address, high byte first.
    pub open spec fn with_word(self, address: u32, value: u16) -> MemoryView {
        self.with_byte(address, (value / 256) as u8).with_byte(
            address_after(address, 1),
            (value % 256) as u8,
        )
    }

    /// The memory after a long word was written at an address, high word
    /// first.
    pub open spec fn with_long(self, address: u32, value: u32) -> MemoryView {
        self.with_word(address, (value / 0x1_0000) as u16).with_word(
            address_after(address, 2),
            (value % 0x1_0000) as u16,
        )
    }

    /// The memory after a reset: the RAM and the registers are zero, the
    /// cartridge, the boot image and the map stay.
    pub open spec fn cleared(self) -> MemoryView {
        MemoryView {
            work: Seq::new(65536, |i: int| 0u8),
            video: Seq::new(65536, |i: int| 0u8),
            sound: Seq::new(8192, |i: int| 0u8),
            io: Seq::new(256, |i: int| 0u8),
            ..self
        }
    }

    /// A memory without cartridge and boot image.
    pub open spec fn empty() -> MemoryView {
        MemoryView {
            work: Seq::new(65536, |i: int| 0u8),
            video: Seq::new(65536, |i: int| 0u8),
            sound: Seq::new(8192, |i: int| 0u8),
            io: Seq::new(256, |i: int| 0u8),
            bios: None,
            cartridge: None,
            locked: false,
            save_ram: false,
        }
    }
}

/// The memory of the machine.
pub struct MemorySystem {
    work_ram: WorkRam,
    vram: VideoRam,
    sound_ram: SoundRam,
    cartridge: Option<Cartridge>,
    mapper: MemoryMapper,
    bios: Option<Vec<u8>>,
    io_registers: [u8; 256],
}

impl View for MemorySystem {
    type V = MemoryView;

    closed spec fn view(&self) -> MemoryView {
        MemoryView {
            work: self.work_ram@,
            video: self.vram@,
            sound: self.sound_ram@,
            io: self.io_registers@,
            bios: match self.bios {
                Some(bios) => Some(bios@),
                None => None,
            },
            cartridge: match self.cartridge {
                Some(cartridge) => Some(cartridge@),
                None => None,
            },
            locked: self.mapper.locked(),
            save_ram: self.mapper.save_ram(),
        }
    }
}

impl MemorySystem {
    /// Every block has its length, the cartridge is well formed, and the
    /// map has the save RAM where it belongs.
    pub closed spec fn wf(&self) -> bool {
        &&& self@.wf()
        &&& self.mapper.wf()
    }

    /// A well-formed memory has a well-formed content.
    pub proof fn lemma_wf(&self)
        requires
            self.wf(),
        ensures
            self@.wf(),
    {
    }

    /// A memory without cartridge and boot image, all zero.
    pub fn new() -> (memory: MemorySystem)
        ensures
            memory.wf(),
            memory@ == MemoryView::empty(),
    {
        let memory = MemorySystem {
            work_ram: WorkRam::new(),
            vram: VideoRam::new(),
            sound_ram: SoundRam::new(),
            cartridge: None,
            mapper: MemoryMapper::new(),
            bios: None,
            io_registers: [0; 256],
        };
        assert(memory.io_registers@ =~= Seq::new(256, |i: int| 0u8));
        memory
    }

    /// Puts a cartridge around an image into the machine and lets the map
    /// show its save RAM, if it has any. An image that is refused changes
    /// nothing.
    pub fn load_cartridge(&mut self, rom_data: Vec<u8>) -> (res: Result<(), MemoryError>)
        requires
            old(self).wf(),
        ensures
            final(self).wf(),
            rom_data@.len() < rom::MIN_ROM_SIZE ==> res == Err::<(), MemoryError>(
                MemoryError::Rom(RomError::TooSmall(rom_data.len())),
            ) && final(self)@ == old(self)@,
            rom_data@.len() >= rom::MIN_ROM_SIZE ==> {
                &&& res is Ok
                &&& final(self)@.cartridge is Some
                &&& final(self)@.cartridge.unwrap().rom == rom_data@
                &&& final(self)@.cartridge.unwrap().bank == 0
                &&& final(self)@.save_ram == (final(self)@.cartridge.unwrap().header.ram_size_kb
                    > 0)
                &&& final(self)@ == (MemoryView {
                    cartridge: final(self)@.cartridge,
                    save_ram: final(self)@.save_ram,
                    ..old(self)@
                })
            },
    {
        let cartridge: Cartridge = match Cartridge::new(rom_data) {
            Ok(cartridge) => cartridge,
            Err(e) => {
                return Err(MemoryError::Rom(e));
            },
        };
        self.mapper.configure(&cartridge);
        self.cartridge = Some(cartridge);
        Ok(())
    }

    /// Takes a boot image of 8 KiB or 16 KiB.
    pub fn load_bios(&mut self, bios_data: Vec<u8>) -> (res: Result<(), MemoryError>)
        requires
            old(self).wf(),
        ensures
            final(self).wf(),
            bios_data@.len() == BIOS_SMALL || bios_data@.len() == BIOS_LARGE ==> res is Ok
                && final(self)@ == (MemoryView { bios: Some(bios_data@), ..old(self)@ }),
            bios_data@.len() != BIOS_SMALL && bios_data@.len() != BIOS_LARGE ==> res == Err::<
                (),
                MemoryError,
            >(MemoryError::InvalidBiosSize(bios_data.len())) && final(self)@ == old(self)@,
    {
        if bios_data.len() != BIOS_SMALL && bios_data.len() != BIOS_LARGE {
            return Err(MemoryError::InvalidBiosSize(bios_data.len()));
        }
        self.bios = Some(bios_data);
        Ok(())
    }

    /// Clears the RAM and the input and output registers.
    pub fn reset(&mut self)
        requires
            old(self).wf(),
        ensures
            final(self).wf(),
            final(self)@ == old(self)@.cleared(),
    {
        self.work_ram.clear();
        self.vram.clear();
        self.sound_ram.clear();
        self.io_registers = [0; 256];
        assert(self.io_registers@ =~= Seq::new(256, |i: int| 0u8));
    }

    /// The header of the cartridge, if there is one.
    pub fn get_cartridge_info(&self) -> (header: Option<&RomHeader>)
        ensures
            header is Some == self@.cartridge is Some,
            header is Some ==> *header.unwrap() == self@.cartridge.unwrap().header,
    {
        match &self.cartridge {
            Some(cartridge) => Some(cartridge.get_header()),
            None => None,
        }
    }

    /// The save RAM of the cartridge as it would be written to a file, if
    /// there is any.
    pub fn save_ram_data(&self) -> (data: Option<&[u8]>)
        ensures
            data is Some == (self@.cartridge is Some && self@.cartridge.unwrap().save_ram is Some),
            data is Some ==> data.unwrap()@ == self@.cartridge.unwrap().save_ram.unwrap(),
    {
        match &self.cartridge {
            Some(cartridge) => cartridge.sram_data(),
            None => None,
        }
    }

    /// Takes the save RAM of the cartridge from data that was read from a
    /// file. Data of another length than the save RAM is refused, and so is
    /// any where there is no save RAM.
    pub fn restore_save_ram(&mut self, data: &[u8]) -> (taken: bool)
        requires
            old(self).wf(),
        ensures
            final(self).wf(),
            taken == (old(self)@.cartridge is Some && old(self)@.cartridge.unwrap().takes_save_data(
                data@,
            )),
            final(self)@ == (MemoryView {
                cartridge: match old(self)@.cartridge {
                    Some(cartridge) => Some(cartridge.with_save_data(data@)),
                    None => None,
                },
                ..old(self)@
            }),
    {
        match &mut self.cartridge {
            Some(cartridge) => cartridge.restore_sram(data),
            None => false,
        }
    }

    /// Reads a byte.
    pub fn read_byte(&self, address: u32) -> (res: Result<u8, MemoryError>)
        requires
            self.wf(),
        ensures
            res == Ok::<u8, MemoryError>(self@.byte_at(address)),
    {
        let mapped: MappedAddress = self.mapper.map_address(address);
        proof {
            reveal(MemoryView::byte_at);
            reveal(MemoryView::with_byte);
            self.work_ram.lemma_len();
            self.vram.lemma_len();
            self.sound_ram.lemma_len();
        }
        match mapped.region {
            MemoryRegion::Bios => match &self.bios {
                Some(bios) => {
                    let offset: usize = mapped.offset as usize;
                    if offset < bios.len() {
                        Ok(bios[offset])
                    } else {
                        Ok(rom::OPEN_BUS)
                    }
                },
                None => Ok(rom::OPEN_BUS),
            },
            MemoryRegion::WorkRam => match self.work_ram.read_byte(mapped.offset) {
                Ok(byte) => Ok(byte),
                Err(e) => Err(MemoryError::Ram(e)),
            },
            MemoryRegion::VideoRam => match self.vram.read_byte(mapped.offset) {
                Ok(byte) => Ok(byte),
                Err(e) => Err(MemoryError::Ram(e)),
            },
            MemoryRegion::SoundRam => match self.sound_ram.read_byte(mapped.offset) {
                Ok(byte) => Ok(byte),
                Err(e) => Err(MemoryError::Ram(e)),
            },
            MemoryRegion::CartridgeRom => match &self.cartridge {
                Some(cartridge) => match cartridge.read_byte(mapped.offset) {
                    Ok(byte) => Ok(byte),
                    Err(e) => Err(MemoryError::Rom(e)),
                },
                None => Ok(rom::OPEN_BUS),
            },
            MemoryRegion::CartridgeRam => match &self.cartridge {
                Some(cartridge) => match cartridge.read_sram(mapped.offset) {
                    Ok(byte) => Ok(byte),
                    Err(e) => Err(MemoryError::Rom(e)),
                },
                None => Ok(rom::OPEN_BUS),
            },
            MemoryRegion::IoRegisters => {
                let offset: usize = mapped.offset as usize;
                if offset < IO_REGISTERS {
                    Ok(self.io_registers[offset])
                } else {
                    Ok(0)
                }
            },
            MemoryRegion::Unmapped => Ok(rom::OPEN_BUS),
        }
    }

    /// Writes a byte.
    pub fn write_byte(&mut self, address: u32, value: u8) -> (res: Result<(), MemoryError>)
        requires
            old(self).wf(),
        ensures
            final(self).wf(),
            res is Ok,
            final(self)@ == old(self)@.with_byte(address, value),
    {
        let mapped: MappedAddress = self.mapper.map_address(address);
        proof {
            reveal(MemoryView::byte_at);
            reveal(MemoryView::with_byte);
            self.work_ram.lemma_len();
            self.vram.lemma_len();
            self.sound_ram.lemma_len();
        }
        match mapped.region {
            MemoryRegion::WorkRam => {
                let _ = self.work_ram.write_byte(mapped.offset, value);
            },
            MemoryRegion::VideoRam => {
                let _ = self.vram.write_byte(mapped.offset, value);
            },
            MemoryRegion::SoundRam => {
                let _ = self.sound_ram.write_byte(mapped.offset, value);
            },
            MemoryRegion::CartridgeRam => match &mut self.cartridge {
                Some(cartridge) => {
                    proof {
                        rom::lemma_writes_keep_the_cartridge(cartridge@, mapped.offset, value);
                    }
                    let _ = cartridge.write_sram(mapped.offset, value);
                },
                None => {},
            },
            MemoryRegion::IoRegisters => {
                let offset: usize = mapped.offset as usize;
                if offset < IO_REGISTERS && mapped.offset >= FIRST_WRITABLE_IO {
                    self.io_registers[offset] = value;
                }
            },
            MemoryRegion::CartridgeRom => match &mut self.cartridge {
                Some(cartridge) => {
                    proof {
                        rom::lemma_writes_keep_the_cartridge(cartridge@, mapped.offset, value);
                    }
                    let _ = cartridge.handle_bank_switch(mapped.offset, value);
                },
                None => {},
            },
            MemoryRegion::Bios => {},
            MemoryRegion::Unmapped => {},
        }
        Ok(())
    }

    /// Reads a word, high byte first.
    pub fn read_word(&self, address: u32) -> (res: Result<u16, MemoryError>)
        requires
            self.wf(),
        ensures
            res == Ok::<u16, MemoryError>(self@.word_at(address)),
    {
        let high: u8 = match self.read_byte(address) {
            Ok(byte) => byte,
            Err(e) => {
                return Err(e);
            },
        };
        let low: u8 = match self.read_byte(address.wrapping_add(1)) {
            Ok(byte) => byte,
            Err(e) => {
                return Err(e);
            },
        };
        Ok(high as u16 * 256 + low as u16)
    }

    /// Writes a word, high byte first.
    pub fn write_word(&mut self, address: u32, value: u16) -> (res: Result<(), MemoryError>)
        requires
            old(self).wf(),
        ensures
            final(self).wf(),
            res is Ok,
            final(self)@ == old(self)@.with_word(address, value),
    {
        let _ = self.write_byte(address, (value / 256) as u8);
        let _ = self.write_byte(address.wrapping_add(1), (value % 256) as u8);
        Ok(())
    }

    /// Reads a long word, high word first.
    pub fn read_long(&self, address: u32) -> (res: Result<u32, MemoryError>)
        requires
            self.wf(),
        ensures
            res == Ok::<u32, MemoryError>(self@.long_at(address)),
    {
        let high: u16 = match self.read_word(address) {
            Ok(word) => word,
            Err(e) => {
                return Err(e);
            },
        };
        let low: u16 = match self.read_word(address.wrapping_add(2)) {
            Ok(word) => word,
            Err(e) => {
                return Err(e);
            },
        };
        Ok(high as u32 * 0x1_0000 + low as u32)
    }

    /// Writes a long word, high word first.
    pub fn write_long(&mut self, address: u32, value: u32) -> (res: Result<(), MemoryError>)
        requires
            old(self).wf(),
        ensures
            final(self).wf(),
            res is Ok,
            final(self)@ == old(self)@.with_long(address, value),
    {
        let _ = self.write_word(address, (value / 0x1_0000) as u16);
        let _ = self.write_word(address.wrapping_add(2), (value % 0x1_0000) as u16);
        Ok(())
    }

    /// The video RAM.
    pub fn vram(&self) -> (vram: &VideoRam)
        ensures
            vram@ == self@.video,
    {
        &self.vram
    }

    /// The video RAM, open to writing.
    pub fn vram_mut(&mut self) -> (vram: &mut VideoRam)
        ensures
            vram@ == old(self)@.video,
            final(self)@ == (MemoryView { video: final(vram)@, ..old(self)@ }),
    {
        &mut self.vram
    }

    /// The sound RAM.
    pub fn sound_ram(&self) -> (sound_ram: &SoundRam)
        ensures
            sound_ram@ == self@.sound,
    {
        &self.sound_ram
    }

    /// The sound RAM, open to writing.
    pub fn sound_ram_mut(&mut self) -> (sound_ram: &mut SoundRam)
        ensures
            sound_ram@ == old(self)@.sound,
            final(self)@ == (MemoryView { sound: final(sound_ram)@, ..old(self)@ }),
    {
        &mut self.sound_ram
    }

    /// The `length` bytes from `start` on.
    pub fn dump_memory(&self, start: u32, length: usize) -> (out: Vec<u8>)
        requires
            self.wf(),
        ensures
            out@.len() == length,
            forall|i: int| 0 <= i < length ==> out@[i] == self@.byte_at(address_after(start, i)),
    {
        let mut out: Vec<u8> = Vec::new();
        let mut at: u32 = start;
        let mut i: usize = 0;
        while i < length
            invariant
                self.wf(),
                i <= length,
                out@.len() == i,
                at == address_after(start, i as int),
                forall|k: int| 0 <= k < i ==> out@[k] == self@.byte_at(address_after(start, k)),
            decreases length - i,
        {
            let byte: u8 = match self.read_byte(at) {
                Ok(byte) => byte,
                Err(_) => rom::OPEN_BUS,
            };
            out.push(byte);
            at = at.wrapping_add(1);
            i += 1;
        }
        out
    }
}

/// A byte written to the work RAM is the byte read back from that address,
/// and a write leaves a well-formed memory well formed.
pub proof fn lemma_work_ram_keeps_bytes(memory: MemoryView, address: u32, value: u8)
    requires
        memory.wf(),
    ensures
        memory.with_byte(address, value).wf(),
        memory.mapped(address).region == MemoryRegion::WorkRam ==> memory.with_byte(
            address,
            value,
        ).byte_at(address) == value,
{
    reveal(MemoryView::byte_at);
    reveal(MemoryView::with_byte);
    if memory.cartridge is Some {
        rom::lemma_writes_keep_the_cartridge(
            memory.cartridge.unwrap(),
            memory.mapped(address).offset,
            value,
        );
    }
}

} // verus!
