//! The DMA engine: bulk transfers from host memory to video memory, fills of
//! video RAM and copies inside it, one word per transfer step.
//!
//! Host memory is not in reach of the engine. The caller reads the word at
//! [`VdpDma::source_request`] and hands it to [`VdpDma::tick`]; a word that
//! the host could not supply comes back as a [`DmaError`].

use vstd::prelude::*;
use crate::vdp::cram::{stored_color, Cram};
use crate::vdp::registers::{DmaMode as RegisterDmaMode, VdpRegisters};
use crate::vdp::vram::{get16, put16, Vram};
use crate::vdp::vsram::Vsram;

verus! {

/// What the engine is doing.
#[derive(Debug, Clone, Copy, PartialEq, Eq, Structural)]
pub enum DmaMode {
    /// Host memory to video RAM, colour RAM or scroll RAM.
    MemoryToVdp,
    /// Fill of video RAM with one word.
    VramFill,
    /// Copy inside video RAM.
    VramCopy,
    /// Nothing.
    Inactive,
}

/// The host could not supply a source word.
#[derive(Debug, Clone, Copy, PartialEq, Eq, Structural)]
pub enum DmaError {
    /// No word came for the source address `address`.
    SourceReadFailed { address: u32 },
}

/// The memory a destination address selects by its bits 14 and 15.
#[derive(Debug, Clone, Copy, PartialEq, Eq, Structural)]
pub enum DmaTarget {
    Vram,
    Cram,
    Vsram,
}

/// The destination kind of an address: bits 14 and 15, where 1 is colour
/// RAM, 2 is scroll RAM and both other values are video RAM.
pub open spec fn target_of(dest_addr: u32) -> DmaTarget {
    if (dest_addr as int / 0x4000) % 4 == 1 {
        DmaTarget::Cram
    } else if (dest_addr as int / 0x4000) % 4 == 2 {
        DmaTarget::Vsram
    } else {
        DmaTarget::Vram
    }
}

/// A destination address after one word: two further. The memory is
/// decoded anew from bits 14 and 15 at every word, so a transfer that runs
/// past the end of one memory's range goes on in the next. Only at the end
/// of the 32 bits of the address itself does it begin again at zero.
pub open spec fn next_dest(dest_addr: u32) -> u32 {
    ((dest_addr as int + 2) % 0x1_0000_0000) as u32
}

/// The 23-bit source address in registers 21 to 23, made even.
pub open spec fn source_of_registers(r21: u8, r22: u8, r23: u8) -> u32 {
    ((r23 as int % 128) * 0x1_0000 + r22 as int * 0x100 + (r21 as int / 2) * 2) as u32
}

/// The 17-bit copy source in registers 21 to 23, made even.
pub open spec fn copy_source_of_registers(r21: u8, r22: u8, r23: u8) -> u32 {
    ((r23 as int % 2) * 0x1_0000 + r22 as int * 0x100 + (r21 as int / 2) * 2) as u32
}

/// The fill word of register 21: its byte in both halves.
pub open spec fn fill_word_of(r21: u8) -> u16 {
    (r21 as int * 257) as u16
}

/// The name of a mode.
pub open spec fn mode_name(mode: DmaMode) -> &'static str {
    match mode {
        DmaMode::MemoryToVdp => "MemoryToVdp",
        DmaMode::VramFill => "VramFill",
        DmaMode::VramCopy => "VramCopy",
        DmaMode::Inactive => "Inactive",
    }
}

/// The name of a mode.
pub fn mode_text(mode: DmaMode) -> (name: &'static str)
    ensures
        name@ == mode_name(mode)@,
{
    match mode {
        DmaMode::MemoryToVdp => "MemoryToVdp",
        DmaMode::VramFill => "VramFill",
        DmaMode::VramCopy => "VramCopy",
        DmaMode::Inactive => "Inactive",
    }
}

/// The DMA engine.
#[derive(Clone, Copy)]
pub struct VdpDma {
    pub mode: DmaMode,
    pub source_addr: u32,
    pub dest_addr: u32,
    pub length: u16,
    pub words_remaining: u16,
    pub active: bool,
    pub fill_data: u16,
    pub copy_source: u32,
    pub cycles_until_transfer: u32,
    pub words_per_cycle: u32,
}

impl VdpDma {
    /// The idle engine.
    pub open spec fn idle() -> VdpDma {
        VdpDma {
            mode: DmaMode::Inactive,
            source_addr: 0,
            dest_addr: 0,
            length: 0,
            words_remaining: 0,
            active: false,
            fill_data: 0,
            copy_source: 0,
            cycles_until_transfer: 0,
            words_per_cycle: 1,
        }
    }

    /// Whether a tick would find nothing to do.
    pub open spec fn finished(self) -> bool {
        !self.active || self.words_remaining == 0
    }

    /// Whether the next tick transfers a word.
    pub open spec fn transfers_next(self) -> bool {
        !self.finished() && self.cycles_until_transfer == 0
    }

    /// Whether the next tick needs a word from the host.
    pub open spec fn needs_source(self) -> bool {
        self.transfers_next() && self.mode == DmaMode::MemoryToVdp
    }

    /// Whether the next tick reports the end of the transfer: it finds
    /// nothing to do, or it moves the last word.
    pub open spec fn ends_with_tick(self) -> bool {
        self.finished() || (self.cycles_until_transfer == 0 && (self.mode == DmaMode::Inactive
            || self.words_remaining == 1))
    }

    /// The engine switched off, its count kept.
    pub open spec fn stopped(self) -> VdpDma {
        VdpDma { active: false, mode: DmaMode::Inactive, ..self }
    }

    /// The engine after one word was transferred: addresses moved on, the
    /// count one lower, and switched off where the count reached zero.
    #[verifier::opaque]
    pub open spec fn after_transfer(self) -> VdpDma {
        if self.mode == DmaMode::Inactive {
            self
        } else {
            let moved = VdpDma {
                source_addr: if self.mode == DmaMode::MemoryToVdp {
                    ((self.source_addr as int + 2) % 0x80_0000) as u32
                } else {
                    self.source_addr
                },
                copy_source: if self.mode == DmaMode::VramCopy {
                    ((self.copy_source as int + 2) % 0x2_0000) as u32
                } else {
                    self.copy_source
                },
                dest_addr: next_dest(self.dest_addr),
                words_remaining: if self.words_remaining == 0 {
                    0u16
                } else {
                    (self.words_remaining - 1) as u16
                },
                ..self
            };
            if moved.words_remaining == 0 {
                moved.stopped()
            } else {
                moved
            }
        }
    }

    /// The engine after one tick for which the host supplied its word.
    #[verifier::opaque]
    pub open spec fn after_tick(self) -> VdpDma {
        if self.finished() {
            self.stopped()
        } else if self.cycles_until_transfer > 0 {
            VdpDma { cycles_until_transfer: (self.cycles_until_transfer - 1) as u32, ..self }
        } else {
            VdpDma {
                cycles_until_transfer: if self.words_per_cycle == 0 {
                    0u32
                } else {
                    (self.words_per_cycle - 1) as u32
                },
                ..self.after_transfer()
            }
        }
    }

    /// The engine after `n` ticks for which the host supplied every word.
    pub open spec fn after_ticks(self, n: nat) -> VdpDma
        decreases n,
    {
        if n == 0 {
            self
        } else {
            self.after_ticks((n - 1) as nat).after_tick()
        }
    }

    /// Video RAM after the engine transferred the word `word`.
    #[verifier::opaque]
    pub open spec fn vram_after(self, data: Seq<u8>, word: u16) -> Seq<u8> {
        match self.mode {
            DmaMode::MemoryToVdp => if target_of(self.dest_addr) == DmaTarget::Vram {
                put16(data, self.dest_addr as int, word)
            } else {
                data
            },
            DmaMode::VramFill => if (self.dest_addr as int / 0x4000) % 4 == 0 {
                put16(data, self.dest_addr as int, self.fill_data)
            } else {
                data
            },
            DmaMode::VramCopy => put16(
                data,
                self.dest_addr as int,
                get16(data, self.copy_source as int),
            ),
            DmaMode::Inactive => data,
        }
    }

    /// Colour RAM after the engine transferred the word `word`.
    #[verifier::opaque]
    pub open spec fn cram_after(self, data: Seq<u16>, word: u16) -> Seq<u16> {
        if self.mode == DmaMode::MemoryToVdp && target_of(self.dest_addr) == DmaTarget::Cram {
            data.update(((self.dest_addr as int % 0x4000) / 2) % 64, stored_color(word))
        } else {
            data
        }
    }

    /// Scroll RAM after the engine transferred the word `word`.
    #[verifier::opaque]
    pub open spec fn vsram_after(self, data: Seq<u16>, word: u16) -> Seq<u16> {
        if self.mode == DmaMode::MemoryToVdp && target_of(self.dest_addr) == DmaTarget::Vsram {
            data.update(((self.dest_addr as int % 0x4000) % 80) / 2, word)
        } else {
            data
        }
    }

    /// The engine after it was set up from `regs` for the destination `vram_addr`.
    #[verifier::opaque]
    pub open spec fn after_setup(self, regs: &VdpRegisters, vram_addr: u16) -> VdpDma {
        match regs.dma_mode {
            RegisterDmaMode::Desativado => VdpDma { active: false, ..self },
            RegisterDmaMode::MemoriaParaVdp => VdpDma {
                mode: DmaMode::MemoryToVdp,
                source_addr: source_of_registers(regs.regs@[21], regs.regs@[22], regs.regs@[23]),
                dest_addr: vram_addr as u32,
                length: regs.dma_length,
                words_remaining: regs.dma_length,
                active: true,
                cycles_until_transfer: 0,
                words_per_cycle: 1,
                ..self
            },
            RegisterDmaMode::PreenchimentoVram => VdpDma {
                mode: DmaMode::VramFill,
                source_addr: 0,
                fill_data: fill_word_of(regs.regs@[21]),
                dest_addr: vram_addr as u32,
                length: regs.dma_length,
                words_remaining: regs.dma_length,
                active: true,
                cycles_until_transfer: 0,
                words_per_cycle: 1,
                ..self
            },
            RegisterDmaMode::CopiaVram => VdpDma {
                mode: DmaMode::VramCopy,
                copy_source: copy_source_of_registers(
                    regs.regs@[21],
                    regs.regs@[22],
                    regs.regs@[23],
                ),
                dest_addr: vram_addr as u32,
                length: regs.dma_length,
                words_remaining: regs.dma_length,
                active: true,
                cycles_until_transfer: 0,
                words_per_cycle: 1,
                ..self
            },
        }
    }

    /// An idle engine.
    pub fn new() -> (d: VdpDma)
        ensures
            d == VdpDma::idle(),
    {
        VdpDma {
            mode: DmaMode::Inactive,
            source_addr: 0,
            dest_addr: 0,
            length: 0,
            words_remaining: 0,
            active: false,
            fill_data: 0,
            copy_source: 0,
            cycles_until_transfer: 0,
            words_per_cycle: 1,
        }
    }

    /// Sets the engine up for the transfer that the registers describe, to
    /// the destination `vram_addr`, whose bits 14 and 15 select the memory.
    /// Returns whether a transfer was armed: it is unless the registers
    /// select no DMA mode.
    pub fn setup_from_registers(&mut self, regs: &VdpRegisters, vram_addr: u16) -> (armed: bool)
        ensures
            *final(self) == old(self).after_setup(regs, vram_addr),
            armed == (regs.dma_mode != RegisterDmaMode::Desativado),
    {
        reveal(VdpDma::after_setup);
        let r21: u8 = regs.regs[21];
        let r22: u8 = regs.regs[22];
        let r23: u8 = regs.regs[23];
        match regs.dma_mode {
            RegisterDmaMode::Desativado => {
                self.active = false;
                return false;
            },
            RegisterDmaMode::MemoriaParaVdp => {
                self.mode = DmaMode::MemoryToVdp;
                self.source_addr = (r23 % 128) as u32 * 0x1_0000 + r22 as u32 * 0x100 + (r21
                    / 2) as u32 * 2;
            },
            RegisterDmaMode::PreenchimentoVram => {
                self.mode = DmaMode::VramFill;
                self.fill_data = r21 as u16 * 257;
                self.source_addr = 0;
            },
            RegisterDmaMode::CopiaVram => {
                self.mode = DmaMode::VramCopy;
                self.copy_source = (r23 % 2) as u32 * 0x1_0000 + r22 as u32 * 0x100 + (r21
                    / 2) as u32 * 2;
            },
        }
        self.dest_addr = vram_addr as u32;
        self.length = regs.dma_length;
        self.words_remaining = self.length;
        self.cycles_until_transfer = 0;
        self.words_per_cycle = 1;
        self.active = true;
        true
    }

    /// The host address whose word the next tick needs, if it needs one.
    pub fn source_request(&self) -> (request: Option<u32>)
        ensures
            request == (if self.needs_source() {
                Some(self.source_addr)
            } else {
                None
            }),
    {
        if self.active && self.words_remaining > 0 && self.cycles_until_transfer == 0 && self.mode
            == DmaMode::MemoryToVdp {
            Some(self.source_addr)
        } else {
            None
        }
    }

    /// One step of the engine. `source_word` is the host's word at
    /// `source_request()`, or `None` where the host could not supply it.
    ///
    /// Returns `Ok(true)` once the transfer has ended, `Ok(false)` while it
    /// goes on, and the error, with nothing changed, where a word was needed
    /// and none came.
    pub fn tick(
        &mut self,
        source_word: Option<u16>,
        vram: &mut Vram,
        cram: &mut Cram,
        vsram: &mut Vsram,
    ) -> (result: Result<bool, DmaError>)
        requires
            old(vram).wf(),
        ensures
            final(vram).wf(),
            final(vram).size == old(vram).size,
            old(self).needs_source() && source_word is None ==> {
                &&& result == Err::<bool, DmaError>(
                    DmaError::SourceReadFailed { address: old(self).source_addr },
                )
                &&& *final(self) == *old(self)
                &&& *final(vram) == *old(vram)
                &&& *final(cram) == *old(cram)
                &&& *final(vsram) == *old(vsram)
            },
            !(old(self).needs_source() && source_word is None) ==> {
                &&& *final(self) == old(self).after_tick()
                &&& result == Ok::<bool, DmaError>(old(self).ends_with_tick())
            },
            !(old(self).needs_source() && source_word is None) && old(self).transfers_next() ==> {
                &&& final(vram).data@ == old(self).vram_after(
                    old(vram).data@,
                    source_word.unwrap_or(0),
                )
                &&& final(cram).data@ == old(self).cram_after(
                    old(cram).data@,
                    source_word.unwrap_or(0),
                )
                &&& final(vsram).data@ == old(self).vsram_after(
                    old(vsram).data@,
                    source_word.unwrap_or(0),
                )
                &&& final(vsram).same_mode_as(old(vsram))
            },
            !old(self).transfers_next() ==> {
                &&& *final(vram) == *old(vram)
                &&& *final(cram) == *old(cram)
                &&& *final(vsram) == *old(vsram)
            },
    {
        reveal(VdpDma::after_tick);
        reveal(VdpDma::after_transfer);
        if !self.active || self.words_remaining == 0 {
            self.active = false;
            self.mode = DmaMode::Inactive;
            return Ok(true);
        }
        if self.cycles_until_transfer > 0 {
            self.cycles_until_transfer = self.cycles_until_transfer - 1;
            return Ok(false);
        }
        let completed: bool = match self.execute_transfer(source_word, vram, cram, vsram) {
            Ok(done) => done,
            Err(e) => {
                return Err(e);
            },
        };
        self.cycles_until_transfer = if self.words_per_cycle == 0 {
            0
        } else {
            self.words_per_cycle - 1
        };
        Ok(completed)
    }

    /// Transfers one word, whatever the timing. `source_word` is the host's
    /// word at the source address; only a memory transfer reads it.
    ///
    /// Returns `Ok(true)` where the engine is off afterwards, and the error,
    /// with nothing changed, where a memory transfer got no word.
    pub fn execute_transfer(
        &mut self,
        source_word: Option<u16>,
        vram: &mut Vram,
        cram: &mut Cram,
        vsram: &mut Vsram,
    ) -> (result: Result<bool, DmaError>)
        requires
            old(vram).wf(),
        ensures
            final(vram).wf(),
            final(vram).size == old(vram).size,
            old(self).mode == DmaMode::MemoryToVdp && source_word is None ==> {
                &&& result == Err::<bool, DmaError>(
                    DmaError::SourceReadFailed { address: old(self).source_addr },
                )
                &&& *final(self) == *old(self)
                &&& *final(vram) == *old(vram)
                &&& *final(cram) == *old(cram)
                &&& *final(vsram) == *old(vsram)
            },
            !(old(self).mode == DmaMode::MemoryToVdp && source_word is None) ==> {
                &&& *final(self) == old(self).after_transfer()
                &&& result == Ok::<bool, DmaError>(
                    old(self).mode == DmaMode::Inactive || final(self).words_remaining == 0,
                )
                &&& final(vram).data@ == old(self).vram_after(
                    old(vram).data@,
                    source_word.unwrap_or(0),
                )
                &&& final(cram).data@ == old(self).cram_after(
                    old(cram).data@,
                    source_word.unwrap_or(0),
                )
                &&& final(vsram).data@ == old(self).vsram_after(
                    old(vsram).data@,
                    source_word.unwrap_or(0),
                )
                &&& final(vsram).same_mode_as(old(vsram))
                &&& old(self).mode != DmaMode::MemoryToVdp || target_of(old(self).dest_addr)
                    != DmaTarget::Vsram ==> *final(vsram) == *old(vsram)
            },
    {
        reveal(VdpDma::after_transfer);
        reveal(VdpDma::vram_after);
        reveal(VdpDma::cram_after);
        reveal(VdpDma::vsram_after);
        let kind: u32 = (self.dest_addr / 0x4000) % 4;
        let offset: u32 = self.dest_addr % 0x4000;
        match self.mode {
            DmaMode::MemoryToVdp => {
                let data: u16 = match source_word {
                    Some(w) => w,
                    None => {
                        return Err(DmaError::SourceReadFailed { address: self.source_addr });
                    },
                };
                if kind == 1 {
                    cram.write((offset / 2) as usize, data);
                } else if kind == 2 {
                    vsram.write16(offset, data);
                } else {
                    vram.write16(self.dest_addr, data);
                }
                self.source_addr = ((self.source_addr as u64 + 2) % 0x80_0000) as u32;
            },
            DmaMode::VramFill => {
                if kind == 0 {
                    vram.write16(self.dest_addr, self.fill_data);
                }
            },
            DmaMode::VramCopy => {
                let data: u16 = vram.read16(self.copy_source);
                vram.write16(self.dest_addr, data);
                self.copy_source = ((self.copy_source as u64 + 2) % 0x2_0000) as u32;
            },
            DmaMode::Inactive => {
                return Ok(true);
            },
        }
        self.dest_addr = self.dest_addr.wrapping_add(2);
        self.words_remaining = if self.words_remaining == 0 {
            0
        } else {
            self.words_remaining - 1
        };
        if self.words_remaining == 0 {
            self.active = false;
            self.mode = DmaMode::Inactive;
            return Ok(true);
        }
        Ok(false)
    }

    /// Words still to transfer.
    pub fn words_remaining(&self) -> (n: u16)
        ensures
            n == self.words_remaining,
    {
        self.words_remaining
    }

    /// Words the transfer was set up for.
    pub fn length(&self) -> (n: u16)
        ensures
            n == self.length,
    {
        self.length
    }

    /// What the engine is doing.
    pub fn mode(&self) -> (m: DmaMode)
        ensures
            m == self.mode,
    {
        self.mode
    }

    /// Ends the transfer at once and zeroes the count.
    pub fn abort(&mut self)
        ensures
            *final(self) == (VdpDma {
                active: false,
                mode: DmaMode::Inactive,
                words_remaining: 0,
                ..*old(self)
            }),
    {
        self.active = false;
        self.mode = DmaMode::Inactive;
        self.words_remaining = 0;
    }

    /// Whether a transfer is running.
    pub fn is_active(&self) -> (b: bool)
        ensures
            b == self.active,
    {
        self.active
    }

    /// The address the next word is read from; zero for a fill and when idle.
    pub fn current_source_addr(&self) -> (a: u32)
        ensures
            a == (match self.mode {
                DmaMode::MemoryToVdp => self.source_addr,
                DmaMode::VramCopy => self.copy_source,
                _ => 0u32,
            }),
    {
        match self.mode {
            DmaMode::MemoryToVdp => self.source_addr,
            DmaMode::VramCopy => self.copy_source,
            _ => 0,
        }
    }

    /// The address the next word is written to.
    pub fn current_dest_addr(&self) -> (a: u32)
        ensures
            a == self.dest_addr,
    {
        self.dest_addr
    }

    /// Ticks until the transfer ends: the words left times the ticks per
    /// word, plus the wait for the next word; `u32::MAX` where that does not fit.
    pub fn estimated_cycles_remaining(&self) -> (n: u32)
        ensures
            n == (if self.words_remaining * self.words_per_cycle + self.cycles_until_transfer
                > u32::MAX {
                u32::MAX as int
            } else {
                self.words_remaining * self.words_per_cycle + self.cycles_until_transfer
            }),
    {
        assert(self.words_remaining * self.words_per_cycle <= 0xFFFF * 0xFFFF_FFFF)
            by (nonlinear_arith)
            requires
                0 <= self.words_remaining <= 0xFFFF,
                0 <= self.words_per_cycle <= 0xFFFF_FFFF,
        ;
        let total: u64 = self.words_remaining as u64 * self.words_per_cycle as u64;
        let total: u64 = total + self.cycles_until_transfer as u64;
        if total > u32::MAX as u64 {
            u32::MAX
        } else {
            total as u32
        }
    }
}

/// A transfer that moves one word per tick counts down by one per tick and
/// is switched off, with nothing left, by the tick that moves its last word:
/// with `remaining` words to go, `k` ticks leave `remaining - k`, for every
/// `k` up to `remaining`.
pub proof fn lemma_word_count(dma: VdpDma, k: nat)
    requires
        dma.active,
        dma.mode != DmaMode::Inactive,
        dma.words_remaining > 0,
        dma.cycles_until_transfer == 0,
        dma.words_per_cycle <= 1,
        k <= dma.words_remaining,
    ensures
        dma.after_ticks(k).words_remaining == dma.words_remaining - k,
        dma.after_ticks(k).active == (k < dma.words_remaining),
        k < dma.words_remaining ==> dma.after_ticks(k).mode == dma.mode,
        k == dma.words_remaining ==> dma.after_ticks(k).mode == DmaMode::Inactive,
        dma.after_ticks(k).cycles_until_transfer == 0,
        dma.after_ticks(k).words_per_cycle == dma.words_per_cycle,
        dma.after_ticks(k).length == dma.length,
    decreases k,
{
    reveal(VdpDma::after_tick);
    reveal(VdpDma::after_transfer);
    if k > 0 {
        lemma_word_count(dma, (k - 1) as nat);
    }
}

/// The counter never grows: no tick leaves more words than it found.
pub proof fn lemma_count_never_grows(dma: VdpDma)
    ensures
        dma.after_tick().words_remaining <= dma.words_remaining,
        dma.after_transfer().words_remaining <= dma.words_remaining,
        dma.after_tick().words_remaining == 0 && !dma.finished() && dma.cycles_until_transfer == 0
            ==> !dma.after_tick().active && dma.after_tick().mode == DmaMode::Inactive,
{
    reveal(VdpDma::after_tick);
    reveal(VdpDma::after_transfer);
}

impl Default for VdpDma {
    fn default() -> (d: VdpDma)
        ensures
            d == VdpDma::idle(),
    {
        VdpDma::new()
    }
}

} // verus!
