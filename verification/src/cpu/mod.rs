//! The host processor's side of the machine: its register file, the
//! arithmetic unit, the decoder of register operations, its bus, the
//! block-copy controller between the two buses, and the sound processor.
//!
//! The processor itself takes the word that was fetched for it: whoever
//! owns the memory map reads the word at `fetch_address` and hands it to
//! `step`.

pub mod alu;
pub mod bus;
pub mod decoder;
pub mod dma;
pub mod registers;
pub mod z80;

use vstd::prelude::*;

pub use alu::{Alu, AluFlags, AluOp, AluResult, BitOp, ShiftKind, Size};
pub use bus::{Bus, BusError, MemoryMappedDevice};
pub use decoder::{DecodeError, Instruction};
pub use dma::{DmaController, DmaDirection, DmaState};
pub use registers::{RegisterValues, Registers, CCR};
pub use z80::{Z80Write, Z80};

verus! {

/// Cycles that pass while the processor is not running.
pub const IDLE_CYCLES: u32 = 4;

/// Cycles that an operation between registers takes.
pub const OPERATION_CYCLES: u32 = 8;

/// Where the program counter after a reset is read from.
pub const RESET_PC_VECTOR: u32 = 0x00;

/// Where the stack pointer after a reset is read from.
pub const RESET_SP_VECTOR: u32 = 0x04;

/// The address register that serves as the stack pointer.
pub const STACK_POINTER: usize = 7;

/// Whether the processor runs.
#[derive(Clone, Copy, Debug, PartialEq, Eq, Structural)]
pub enum CpuState {
    Running,
    Halted,
    Stopped,
}

/// The host processor.
#[derive(Clone, Debug)]
pub struct M68000 {
    /// The register file.
    pub regs: Registers,
    /// Whether the processor runs.
    pub state: CpuState,
    /// Cycles since the last reset.
    pub cycles: u64,
    /// The word that was carried out last.
    pub last_opcode: u16,
}

/// The address two after `pc`, wrapping at the end of the address space.
pub open spec fn after_fetch(pc: u32) -> u32 {
    ((pc as int + 2) % 0x1_0000_0000) as u32
}

/// The cycle count after `cycles` more, wrapping at the end of its range.
pub open spec fn cycles_after(count: u64, cycles: u32) -> u64 {
    ((count as int + cycles as int) % 0x1_0000_0000_0000_0000) as u64
}

impl M68000 {
    /// The registers after a word was fetched and carried out: the program
    /// counter moves on by two before the operation, and stays there when
    /// the word stands for none.
    pub open spec fn regs_after(regs: RegisterValues, opcode: u16) -> RegisterValues {
        let fetched = RegisterValues { pc: after_fetch(regs.pc), ..regs };
        match decoder::decoded(opcode) {
            Some(instruction) => instruction.applied(fetched),
            None => fetched,
        }
    }

    /// A processor after a reset of its registers, running.
    pub fn new() -> (cpu: M68000)
        ensures
            cpu.regs@ == RegisterValues::reset(),
            cpu.state == CpuState::Running,
            cpu.cycles == 0,
            cpu.last_opcode == 0,
    {
        M68000 { regs: Registers::new(), state: CpuState::Running, cycles: 0, last_opcode: 0 }
    }

    /// Starts the processor anew with the two vectors read from the start
    /// of the memory map: the program counter and the stack pointer.
    pub fn reset(&mut self, reset_pc: u32, reset_sp: u32)
        ensures
            final(self).regs@ == (RegisterValues {
                pc: reset_pc,
                ..old(self).regs@.with_address(STACK_POINTER as int, reset_sp)
            }),
            final(self).state == CpuState::Running,
            final(self).cycles == 0,
            final(self).last_opcode == old(self).last_opcode,
    {
        self.regs.pc = reset_pc;
        self.regs.set_address(STACK_POINTER, reset_sp);
        self.state = CpuState::Running;
        self.cycles = 0;
    }

    /// The address of the word that the next step needs, if it needs one.
    pub fn fetch_address(&self) -> (addr: Option<u32>)
        ensures
            addr == (if self.state == CpuState::Running {
                Some(self.regs.pc)
            } else {
                None
            }),
    {
        if self.state == CpuState::Running {
            Some(self.regs.pc)
        } else {
            None
        }
    }

    /// One step, with the word that was fetched for it, and the cycles it
    /// took. A processor that is not running lets four cycles pass and
    /// changes nothing. A running one that was given no word reports the
    /// address it could not read; one that was given a word that stands for
    /// no operation has fetched it and reports the word.
    pub fn step(&mut self, fetched: Option<u16>) -> (res: Result<u32, DecodeError>)
        ensures
            old(self).state != CpuState::Running ==> res == Ok::<u32, DecodeError>(IDLE_CYCLES)
                && final(self).regs@ == old(self).regs@ && final(self).cycles == old(self).cycles
                && final(self).last_opcode == old(self).last_opcode,
            old(self).state == CpuState::Running && fetched is None ==> res == Err::<
                u32,
                DecodeError,
            >(DecodeError::InvalidAddress(old(self).regs.pc)) && final(self).regs@ == old(
                self,
            ).regs@ && final(self).cycles == old(self).cycles && final(self).last_opcode == old(
                self,
            ).last_opcode,
            old(self).state == CpuState::Running && fetched is Some ==> {
                let opcode = fetched->Some_0;
                &&& final(self).last_opcode == opcode
                &&& final(self).regs@ == M68000::regs_after(old(self).regs@, opcode)
                &&& decoder::decoded(opcode) is Some ==> res == Ok::<u32, DecodeError>(
                    OPERATION_CYCLES,
                ) && final(self).cycles == cycles_after(old(self).cycles, OPERATION_CYCLES)
                &&& decoder::decoded(opcode) is None ==> res == Err::<u32, DecodeError>(
                    DecodeError::UnknownOpcode(opcode),
                ) && final(self).cycles == old(self).cycles
            },
            final(self).state == old(self).state,
    {
        if self.state != CpuState::Running {
            return Ok(IDLE_CYCLES);
        }
        let opcode: u16 = match fetched {
            Some(word) => word,
            None => {
                return Err(DecodeError::InvalidAddress(self.regs.pc));
            },
        };
        self.last_opcode = opcode;
        self.regs.pc = self.regs.pc.wrapping_add(2);
        let instruction: Instruction = match Instruction::decode(opcode) {
            Ok(instruction) => instruction,
            Err(e) => {
                return Err(e);
            },
        };
        match instruction.execute_on(&mut self.regs) {
            Ok(()) => {},
            Err(e) => {
                return Err(e);
            },
        }
        self.cycles = self.cycles.wrapping_add(OPERATION_CYCLES as u64);
        Ok(OPERATION_CYCLES)
    }
}

} // verus!
