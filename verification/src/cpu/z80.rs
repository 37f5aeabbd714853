//! The sound processor, as far as the machine needs it: its 8 KiB of RAM,
//! mirrored through its address space, and the one address at which it
//! writes to the sound generator.

use vstd::prelude::*;

verus! {

/// The address at which the sound generator takes a byte.
pub const PSG_WRITE_ADDR: u16 = 0x7F11;

/// Bytes of RAM.
pub const Z80_RAM_SIZE: usize = 0x2000;

/// Cycles of the master clock that one cycle of the sound processor takes.
pub const MASTER_CYCLES_PER_Z80_TICK: u32 = 15;

/// Where a byte written by the sound processor went.
#[derive(Clone, Copy, Debug, PartialEq, Eq, Structural)]
pub enum Z80Write {
    /// Into the RAM.
    Ram,
    /// To the sound generator, which is to be given the byte.
    Psg(u8),
}

/// The sound processor.
#[derive(Clone, Debug)]
pub struct Z80 {
    pub ram: Vec<u8>,
    pub pc: u16,
    pub sp: u16,
    pub halted: bool,
    pub bus_taken: bool,
}

impl Z80 {
    /// There is RAM.
    pub open spec fn wf(&self) -> bool {
        self.ram@.len() > 0
    }

    /// The place in the RAM that an address reaches.
    pub open spec fn slot(&self, addr: u16) -> int {
        addr as int % self.ram@.len() as int
    }

    /// A sound processor after power-on: the RAM is zero, the stack is at
    /// its top.
    pub fn new() -> (z80: Z80)
        ensures
            z80.wf(),
            z80.ram@ == Seq::new(0x2000, |i: int| 0u8),
            z80.pc == 0,
            z80.sp == 0x1FFF,
            !z80.halted,
            !z80.bus_taken,
    {
        let z80 = Z80 {
            ram: vec![0u8; Z80_RAM_SIZE],
            pc: 0,
            sp: 0x1FFF,
            halted: false,
            bus_taken: false,
        };
        assert(z80.ram@ =~= Seq::new(0x2000, |i: int| 0u8));
        z80
    }

    /// Whether the RAM is there.
    pub fn is_well_formed(&self) -> (ok: bool)
        ensures
            ok == self.wf(),
    {
        self.ram.len() > 0
    }

    /// One cycle: the cycles of the master clock by which the sound chips
    /// are to advance.
    pub fn tick(&mut self) -> (cycles: u32)
        ensures
            cycles == MASTER_CYCLES_PER_Z80_TICK,
            *final(self) == *old(self),
    {
        MASTER_CYCLES_PER_Z80_TICK
    }

    /// The byte of RAM that an address reaches.
    pub fn read_byte(&self, addr: u16) -> (value: u8)
        requires
            self.wf(),
        ensures
            value == self.ram@[self.slot(addr)],
    {
        self.ram[addr as usize % self.ram.len()]
    }

    /// Writes a byte: to the sound generator at its address, else into the
    /// RAM.
    pub fn write_byte(&mut self, addr: u16, val: u8) -> (went: Z80Write)
        requires
            old(self).wf(),
        ensures
            final(self).wf(),
            final(self).pc == old(self).pc,
            final(self).sp == old(self).sp,
            final(self).halted == old(self).halted,
            final(self).bus_taken == old(self).bus_taken,
            addr == PSG_WRITE_ADDR ==> went == Z80Write::Psg(val) && final(self).ram@ == old(
                self,
            ).ram@,
            addr != PSG_WRITE_ADDR ==> went == Z80Write::Ram && final(self).ram@ == old(
                self,
            ).ram@.update(old(self).slot(addr), val),
    {
        if addr == PSG_WRITE_ADDR {
            return Z80Write::Psg(val);
        }
        let index: usize = addr as usize % self.ram.len();
        self.ram[index] = val;
        Z80Write::Ram
    }
}

/// Two addresses that differ by the size of the RAM reach the same byte.
pub proof fn lemma_ram_is_mirrored(z80: &Z80, addr: u16)
    requires
        z80.ram@.len() == Z80_RAM_SIZE,
        addr < 0xE000,
    ensures
        z80.slot(addr) == z80.slot((addr + 0x2000) as u16),
        0 <= z80.slot(addr) < 0x2000,
{
}

} // verus!
