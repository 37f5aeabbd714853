//! The bus of the host processor: a read-only image from address zero and
//! a block of RAM at a base address. Words and long words are big-endian.

use vstd::prelude::*;

verus! {

/// Where the RAM of a new bus begins.
pub const RAM_BASE: u32 = 0xFF_0000;

/// Why an access failed.
#[derive(Clone, Copy, Debug, PartialEq, Eq, Structural)]
pub enum BusError {
    /// Nothing can be read at the address.
    InvalidRead(u32),
    /// Nothing can be written at the address.
    InvalidWrite(u32),
    /// The address is outside the bus.
    OutOfRange(u32),
}

/// A device that answers on a range of addresses.
pub trait MemoryMappedDevice {
    /// Whether the device is in a state in which it may be used.
    spec fn usable(&self) -> bool;

    /// Reads a byte.
    fn read8(&mut self, addr: u32) -> (res: Result<u8, BusError>)
        requires
            old(self).usable(),
        ensures
            final(self).usable(),
    ;

    /// Reads a word.
    fn read16(&mut self, addr: u32) -> (res: Result<u16, BusError>)
        requires
            old(self).usable(),
        ensures
            final(self).usable(),
    ;

    /// Writes a byte.
    fn write8(&mut self, addr: u32, value: u8) -> (res: Result<(), BusError>)
        requires
            old(self).usable(),
        ensures
            final(self).usable(),
    ;

    /// Writes a word.
    fn write16(&mut self, addr: u32, value: u16) -> (res: Result<(), BusError>)
        requires
            old(self).usable(),
        ensures
            final(self).usable(),
    ;
}

/// The bus.
pub struct Bus {
    pub ram: Vec<u8>,
    pub rom: Vec<u8>,
    pub rom_base: u32,
    pub ram_base: u32,
    pub ram_size: u32,
}

/// The word made of two bytes, high byte first.
pub open spec fn word_of(hi: u8, lo: u8) -> u16 {
    (hi as int * 256 + lo as int) as u16
}

/// The long word made of two words, high word first.
pub open spec fn long_of(hi: u16, lo: u16) -> u32 {
    (hi as int * 0x1_0000 + lo as int) as u32
}

impl Bus {
    /// The RAM is as long as the bus says and ends inside the address
    /// space, and the image is not longer than the address space.
    pub open spec fn wf(&self) -> bool {
        &&& self.ram@.len() == self.ram_size
        &&& self.ram_base + self.ram_size <= u32::MAX
        &&& self.rom@.len() <= u32::MAX
    }

    /// Whether two buses have the same image and the same place for the RAM.
    pub open spec fn same_map(&self, other: &Bus) -> bool {
        &&& self.rom == other.rom
        &&& self.rom_base == other.rom_base
        &&& self.ram_base == other.ram_base
        &&& self.ram_size == other.ram_size
    }

    /// Whether an address falls into the image.
    pub open spec fn in_rom(&self, addr: int) -> bool {
        0 <= addr < self.rom@.len()
    }

    /// Whether an address falls into the RAM.
    pub open spec fn in_ram(&self, addr: int) -> bool {
        self.ram_base <= addr < self.ram_base + self.ram_size
    }

    /// The byte at an address: the image comes first, then the RAM.
    pub open spec fn byte_at(&self, addr: int) -> Option<u8> {
        if self.in_rom(addr) {
            Some(self.rom@[addr])
        } else if self.in_ram(addr) {
            Some(self.ram@[addr - self.ram_base])
        } else {
            None
        }
    }

    /// The word at an address, or the address of the byte that cannot be
    /// read.
    pub open spec fn word_at(&self, addr: int) -> Result<u16, BusError> {
        match (self.byte_at(addr), self.byte_at(addr + 1)) {
            (Some(hi), Some(lo)) => Ok(word_of(hi, lo)),
            (Some(_), None) => Err(BusError::InvalidRead((addr + 1) as u32)),
            (None, _) => Err(BusError::InvalidRead(addr as u32)),
        }
    }

    /// The long word at an address, or the address of the byte that cannot
    /// be read.
    pub open spec fn long_at(&self, addr: int) -> Result<u32, BusError> {
        match self.word_at(addr) {
            Ok(hi) => match self.word_at(addr + 2) {
                Ok(lo) => Ok(long_of(hi, lo)),
                Err(e) => Err(e),
            },
            Err(e) => Err(e),
        }
    }

    /// The RAM after a byte was written at an address: unchanged where the
    /// address is outside it.
    pub open spec fn stored8(&self, ram: Seq<u8>, addr: int, value: u8) -> Seq<u8> {
        if self.in_ram(addr) {
            ram.update(addr - self.ram_base, value)
        } else {
            ram
        }
    }

    /// The RAM after a word was written at an address, high byte first. The
    /// low byte is written only where the high byte was.
    pub open spec fn stored16(&self, ram: Seq<u8>, addr: int, value: u16) -> Seq<u8> {
        if self.in_ram(addr) {
            self.stored8(
                self.stored8(ram, addr, (value / 256) as u8),
                addr + 1,
                (value % 256) as u8,
            )
        } else {
            ram
        }
    }

    /// The RAM after a long word was written at an address, high word first.
    /// The low word is written only where the high word was, whole.
    pub open spec fn stored32(&self, ram: Seq<u8>, addr: int, value: u32) -> Seq<u8> {
        if self.in_ram(addr) && self.in_ram(addr + 1) {
            self.stored16(
                self.stored16(ram, addr, (value / 0x1_0000) as u16),
                addr + 2,
                (value % 0x1_0000) as u16,
            )
        } else {
            self.stored16(ram, addr, (value / 0x1_0000) as u16)
        }
    }

    /// What a write of `count` bytes from `addr` on returns: the error names
    /// the first address outside the RAM.
    pub open spec fn write_outcome(&self, addr: int, count: int) -> Result<(), BusError>
        decreases count,
    {
        if count <= 0 {
            Ok(())
        } else if !self.in_ram(addr) {
            Err(BusError::InvalidWrite(addr as u32))
        } else {
            self.write_outcome(addr + 1, count - 1)
        }
    }

    /// Whether the bus is well formed.
    pub fn is_well_formed(&self) -> (ok: bool)
        ensures
            ok == self.wf(),
    {
        self.ram.len() == self.ram_size as usize && self.ram_size <= u32::MAX - self.ram_base
            && self.rom.len() <= u32::MAX as usize
    }

    /// A bus with an image from address zero and `ram_size` bytes of zeroed
    /// RAM at the usual base.
    pub fn new(rom_data: Vec<u8>, ram_size: usize) -> (bus: Bus)
        requires
            rom_data@.len() <= u32::MAX,
            RAM_BASE + ram_size <= u32::MAX,
        ensures
            bus.wf(),
            bus.rom@ == rom_data@,
            bus.ram@ == Seq::new(ram_size as nat, |i: int| 0u8),
            bus.rom_base == 0,
            bus.ram_base == RAM_BASE,
            bus.ram_size == ram_size,
    {
        let bus = Bus {
            ram: vec![0u8; ram_size],
            rom: rom_data,
            rom_base: 0,
            ram_base: RAM_BASE,
            ram_size: ram_size as u32,
        };
        assert(bus.ram@ =~= Seq::new(ram_size as nat, |i: int| 0u8));
        bus
    }

    /// Reads a byte.
    pub fn read8(&self, addr: u32) -> (res: Result<u8, BusError>)
        requires
            self.wf(),
        ensures
            res == match self.byte_at(addr as int) {
                Some(byte) => Ok::<u8, BusError>(byte),
                None => Err(BusError::InvalidRead(addr)),
            },
    {
        if (addr as usize) < self.rom.len() {
            Ok(self.rom[addr as usize])
        } else if addr >= self.ram_base && addr < self.ram_base + self.ram_size {
            Ok(self.ram[(addr - self.ram_base) as usize])
        } else {
            Err(BusError::InvalidRead(addr))
        }
    }

    /// Reads a word, high byte first.
    pub fn read16(&self, addr: u32) -> (res: Result<u16, BusError>)
        requires
            self.wf(),
        ensures
            res == self.word_at(addr as int),
    {
        let hi: u8 = match self.read8(addr) {
            Ok(byte) => byte,
            Err(e) => {
                return Err(e);
            },
        };
        let lo: u8 = match self.read8(addr + 1) {
            Ok(byte) => byte,
            Err(e) => {
                return Err(e);
            },
        };
        Ok(hi as u16 * 256 + lo as u16)
    }

    /// Reads a long word, high word first.
    pub fn read32(&self, addr: u32) -> (res: Result<u32, BusError>)
        requires
            self.wf(),
        ensures
            res == self.long_at(addr as int),
    {
        let hi: u16 = match self.read16(addr) {
            Ok(word) => word,
            Err(e) => {
                return Err(e);
            },
        };
        let lo: u16 = match self.read16(addr + 2) {
            Ok(word) => word,
            Err(e) => {
                return Err(e);
            },
        };
        Ok(hi as u32 * 0x1_0000 + lo as u32)
    }

    /// Writes a byte into the RAM.
    pub fn write8(&mut self, addr: u32, value: u8) -> (res: Result<(), BusError>)
        requires
            old(self).wf(),
        ensures
            final(self).wf(),
            final(self).ram@ == old(self).stored8(old(self).ram@, addr as int, value),
            final(self).same_map(old(self)),
            res == old(self).write_outcome(addr as int, 1),
    {
        reveal_with_fuel(Bus::write_outcome, 2);
        if addr >= self.ram_base && addr < self.ram_base + self.ram_size {
            let offset: usize = (addr - self.ram_base) as usize;
            self.ram[offset] = value;
            Ok(())
        } else {
            Err(BusError::InvalidWrite(addr))
        }
    }

    /// Writes a word, high byte first.
    pub fn write16(&mut self, addr: u32, value: u16) -> (res: Result<(), BusError>)
        requires
            old(self).wf(),
        ensures
            final(self).wf(),
            final(self).ram@ == old(self).stored16(old(self).ram@, addr as int, value),
            final(self).same_map(old(self)),
            res == old(self).write_outcome(addr as int, 2),
    {
        reveal_with_fuel(Bus::write_outcome, 3);
        let hi: u8 = (value / 256) as u8;
        let lo: u8 = (value % 256) as u8;
        match self.write8(addr, hi) {
            Ok(()) => {},
            Err(e) => {
                return Err(e);
            },
        }
        self.write8(addr + 1, lo)
    }

    /// Writes a long word, high word first.
    pub fn write32(&mut self, addr: u32, value: u32) -> (res: Result<(), BusError>)
        requires
            old(self).wf(),
        ensures
            final(self).wf(),
            final(self).ram@ == old(self).stored32(old(self).ram@, addr as int, value),
            final(self).same_map(old(self)),
            res == old(self).write_outcome(addr as int, 4),
    {
        reveal_with_fuel(Bus::write_outcome, 5);
        let hi: u16 = (value / 0x1_0000) as u16;
        let lo: u16 = (value % 0x1_0000) as u16;
        match self.write16(addr, hi) {
            Ok(()) => {},
            Err(e) => {
                return Err(e);
            },
        }
        self.write16(addr + 2, lo)
    }
}

impl MemoryMappedDevice for Bus {
    open spec fn usable(&self) -> bool {
        self.wf()
    }

    fn read8(&mut self, addr: u32) -> (res: Result<u8, BusError>)
        ensures
            *final(self) == *old(self),
            res == match old(self).byte_at(addr as int) {
                Some(byte) => Ok::<u8, BusError>(byte),
                None => Err(BusError::InvalidRead(addr)),
            },
    {
        Bus::read8(self, addr)
    }

    fn read16(&mut self, addr: u32) -> (res: Result<u16, BusError>)
        ensures
            *final(self) == *old(self),
            res == old(self).word_at(addr as int),
    {
        Bus::read16(self, addr)
    }

    fn write8(&mut self, addr: u32, value: u8) -> (res: Result<(), BusError>)
        ensures
            final(self).ram@ == old(self).stored8(old(self).ram@, addr as int, value),
            final(self).same_map(old(self)),
            res == old(self).write_outcome(addr as int, 1),
    {
        Bus::write8(self, addr, value)
    }

    fn write16(&mut self, addr: u32, value: u16) -> (res: Result<(), BusError>)
        ensures
            final(self).ram@ == old(self).stored16(old(self).ram@, addr as int, value),
            final(self).same_map(old(self)),
            res == old(self).write_outcome(addr as int, 2),
    {
        Bus::write16(self, addr, value)
    }
}

/// A byte written into the RAM is the byte read back from that address,
/// unless the image covers the address.
pub proof fn lemma_write_then_read(bus: Bus, after: Bus, addr: u32, value: u8)
    requires
        bus.wf(),
        bus.in_ram(addr as int),
        !bus.in_rom(addr as int),
        after.ram@ == bus.stored8(bus.ram@, addr as int, value),
        after.same_map(&bus),
    ensures
        after.byte_at(addr as int) == Some(value),
{
}

} // verus!
