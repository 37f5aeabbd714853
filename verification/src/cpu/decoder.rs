//! The decoder of the host processor's register operations, and what each
//! operation does to the register file.
//!
//! An operation word holds the operation in its top four bits, the source
//! register in bits 9 to 11, the size in bits 6 and 7 and the destination
//! register in its low three bits.

use vstd::prelude::*;
use vstd::string::*;
use crate::cpu::alu::{executed, Alu, AluFlags, AluOp, AluResult, Size};
use crate::cpu::bus::Bus;
use crate::cpu::registers::{RegisterValues, Registers};

verus! {

/// The word reported when the arithmetic unit cannot carry out an operation.
pub const UNIT_FAILURE: u16 = 0xFFFF;

/// Why a word could not be decoded or carried out.
#[derive(Clone, Copy, Debug, PartialEq, Eq, Structural)]
pub enum DecodeError {
    /// The word stands for no operation.
    UnknownOpcode(u16),
    /// The operation reached an address that cannot be used.
    InvalidAddress(u32),
}

/// A decoded operation between data registers. `size` is the number of
/// bits: 8, 16 or 32.
#[derive(Clone, Copy, Debug, PartialEq, Eq, Structural)]
pub enum Instruction {
    Move { size: u8, src: usize, dst: usize },
    Add { size: u8, src: usize, dst: usize },
    Sub { size: u8, src: usize, dst: usize },
    And { size: u8, src: usize, dst: usize },
    Or { size: u8, src: usize, dst: usize },
    Eor { size: u8, src: usize, dst: usize },
    Not { size: u8, reg: usize },
    Clr { size: u8, reg: usize },
    Cmp { size: u8, src: usize, dst: usize },
}

/// The operation field of a word.
pub open spec fn major_of(opcode: u16) -> int {
    opcode as int / 4096
}

/// The source register of a word.
pub open spec fn source_of(opcode: u16) -> int {
    (opcode as int / 512) % 8
}

/// The destination register of a word.
pub open spec fn destination_of(opcode: u16) -> int {
    opcode as int % 8
}

/// The size in bits that a word asks for: 32 for code 2, and 16 for the
/// others.
pub open spec fn size_of(opcode: u16) -> u8 {
    let code = (opcode as int / 64) % 4;
    if code == 2 {
        32
    } else {
        16
    }
}

/// The operation that a word stands for, if any.
pub open spec fn decoded(opcode: u16) -> Option<Instruction> {
    let size = size_of(opcode);
    let src = source_of(opcode) as usize;
    let dst = destination_of(opcode) as usize;
    let major = major_of(opcode);
    if major == 0 {
        Some(Instruction::Or { size, src, dst })
    } else if major == 1 {
        Some(Instruction::And { size, src, dst })
    } else if major == 2 {
        Some(Instruction::Sub { size, src, dst })
    } else if major == 3 {
        Some(Instruction::Add { size, src, dst })
    } else if major == 4 {
        Some(Instruction::Eor { size, src, dst })
    } else if major == 5 {
        Some(Instruction::Not { size, reg: dst })
    } else if major == 6 {
        Some(Instruction::Clr { size, reg: dst })
    } else if major == 7 {
        Some(Instruction::Cmp { size, src, dst })
    } else if major == 8 {
        Some(Instruction::Move { size, src, dst })
    } else {
        None
    }
}

/// The registers after the five flags were set one after another, the
/// status word brought up to date after each: zero, negative, overflow,
/// carry, extend.
pub open spec fn flagged(regs: RegisterValues, flags: AluFlags) -> RegisterValues {
    regs.with_flag(seq!['Z'], flags.zero).with_flag(seq!['N'], flags.negative).with_flag(
        seq!['V'],
        flags.overflow,
    ).with_flag(seq!['C'], flags.carry).with_flag(seq!['X'], flags.extend)
}

/// Whether bit `size - 1` of a value is set.
pub open spec fn top_bit(value: u32, size: u8) -> bool {
    value & (1u32 << ((size - 1) as u32)) != 0
}

impl Instruction {
    /// The size field.
    pub open spec fn bits(self) -> u8 {
        match self {
            Instruction::Move { size, .. } => size,
            Instruction::Add { size, .. } => size,
            Instruction::Sub { size, .. } => size,
            Instruction::And { size, .. } => size,
            Instruction::Or { size, .. } => size,
            Instruction::Eor { size, .. } => size,
            Instruction::Not { size, .. } => size,
            Instruction::Clr { size, .. } => size,
            Instruction::Cmp { size, .. } => size,
        }
    }

    /// The destination register.
    pub open spec fn target(self) -> usize {
        match self {
            Instruction::Move { dst, .. } => dst,
            Instruction::Add { dst, .. } => dst,
            Instruction::Sub { dst, .. } => dst,
            Instruction::And { dst, .. } => dst,
            Instruction::Or { dst, .. } => dst,
            Instruction::Eor { dst, .. } => dst,
            Instruction::Not { reg, .. } => reg,
            Instruction::Clr { reg, .. } => reg,
            Instruction::Cmp { dst, .. } => dst,
        }
    }

    /// The source register; the destination where the operation has one
    /// operand.
    pub open spec fn source(self) -> usize {
        match self {
            Instruction::Move { src, .. } => src,
            Instruction::Add { src, .. } => src,
            Instruction::Sub { src, .. } => src,
            Instruction::And { src, .. } => src,
            Instruction::Or { src, .. } => src,
            Instruction::Eor { src, .. } => src,
            Instruction::Not { reg, .. } => reg,
            Instruction::Clr { reg, .. } => reg,
            Instruction::Cmp { src, .. } => src,
        }
    }

    /// The operation of the arithmetic unit behind an instruction, if it
    /// has one.
    pub open spec fn unit_op(self) -> Option<AluOp> {
        match self {
            Instruction::Add { .. } => Some(AluOp::Add),
            Instruction::Sub { .. } => Some(AluOp::Sub),
            Instruction::Cmp { .. } => Some(AluOp::Sub),
            Instruction::And { .. } => Some(AluOp::And),
            Instruction::Or { .. } => Some(AluOp::Or),
            Instruction::Eor { .. } => Some(AluOp::Xor),
            Instruction::Not { .. } => Some(AluOp::Not),
            Instruction::Move { .. } => None,
            Instruction::Clr { .. } => None,
        }
    }

    /// The registers exist, and a move names a bit of a register as its
    /// sign.
    pub open spec fn wf(self) -> bool {
        &&& self.target() < 8
        &&& self.source() < 8
        &&& self is Move ==> 1 <= self.bits() <= 32
    }

    /// Whether the instruction can be carried out: the arithmetic unit
    /// takes 8, 16 and 32 bits.
    pub open spec fn can_execute(self) -> bool {
        self.unit_op() is Some ==> Size::of_width(self.bits() as int) is Some
    }

    /// What the arithmetic unit gives for an instruction on the registers.
    pub open spec fn unit_result(self, regs: RegisterValues) -> AluResult {
        executed(
            self.unit_op().unwrap(),
            regs.d[self.target() as int],
            if self is Not {
                0
            } else {
                regs.d[self.source() as int]
            },
            Size::of_width(self.bits() as int).unwrap(),
            regs.ccr.extend,
        )
    }

    /// The registers after an instruction that can be carried out.
    pub open spec fn applied(self, regs: RegisterValues) -> RegisterValues {
        match self {
            Instruction::Move { size, src, dst } => {
                let value = regs.d[src as int];
                regs.with_data(dst as int, value).with_flag(seq!['Z'], value == 0).with_flag(
                    seq!['N'],
                    top_bit(value, size),
                )
            },
            Instruction::Clr { reg, .. } => regs.with_data(reg as int, 0).with_flag(
                seq!['Z'],
                true,
            ).with_flag(seq!['N'], false).with_flag(seq!['C'], false).with_flag(
                seq!['V'],
                false,
            ).with_flag(seq!['X'], false),
            Instruction::Cmp { .. } => flagged(regs, self.unit_result(regs).flags),
            _ => flagged(
                regs.with_data(self.target() as int, self.unit_result(regs).value),
                self.unit_result(regs).flags,
            ),
        }
    }

    /// Decodes an operation word.
    pub fn decode(opcode: u16) -> (res: Result<Instruction, DecodeError>)
        ensures
            res == match decoded(opcode) {
                Some(instruction) => Ok::<Instruction, DecodeError>(instruction),
                None => Err(DecodeError::UnknownOpcode(opcode)),
            },
            res is Ok ==> res->Ok_0.wf() && res->Ok_0.can_execute(),
    {
        let op_major: u16 = opcode / 4096;
        let src: usize = ((opcode / 512) % 8) as usize;
        let dst: usize = (opcode % 8) as usize;
        let size_code: u16 = (opcode / 64) % 4;
        let size: u8 = if size_code == 2 {
            32
        } else {
            16
        };
        if op_major == 0 {
            Ok(Instruction::Or { size, src, dst })
        } else if op_major == 1 {
            Ok(Instruction::And { size, src, dst })
        } else if op_major == 2 {
            Ok(Instruction::Sub { size, src, dst })
        } else if op_major == 3 {
            Ok(Instruction::Add { size, src, dst })
        } else if op_major == 4 {
            Ok(Instruction::Eor { size, src, dst })
        } else if op_major == 5 {
            Ok(Instruction::Not { size, reg: dst })
        } else if op_major == 6 {
            Ok(Instruction::Clr { size, reg: dst })
        } else if op_major == 7 {
            Ok(Instruction::Cmp { size, src, dst })
        } else if op_major == 8 {
            Ok(Instruction::Move { size, src, dst })
        } else {
            Err(DecodeError::UnknownOpcode(opcode))
        }
    }

    /// Sets the five flags from a result of the arithmetic unit.
    fn update_flags(regs: &mut Registers, flags: AluFlags)
        ensures
            final(regs)@ == flagged(old(regs)@, flags),
    {
        proof {
            reveal_strlit("Z");
            reveal_strlit("N");
            reveal_strlit("V");
            reveal_strlit("C");
            reveal_strlit("X");
        }
        regs.set_flag("Z", flags.zero);
        regs.set_flag("N", flags.negative);
        regs.set_flag("V", flags.overflow);
        regs.set_flag("C", flags.carry);
        regs.set_flag("X", flags.extend);
    }

    /// Carries out an operation of the arithmetic unit on two registers.
    fn run_unit(&self, regs: &mut Registers, op: AluOp, store: bool) -> (res: Result<
        (),
        DecodeError,
    >)
        requires
            self.wf(),
            self.unit_op() == Some(op),
            store == !(self is Cmp),
        ensures
            self.can_execute() ==> res is Ok && final(regs)@ == self.applied(old(regs)@),
            !self.can_execute() ==> res == Err::<(), DecodeError>(
                DecodeError::UnknownOpcode(UNIT_FAILURE),
            ) && final(regs)@ == old(regs)@,
    {
        let size: Size = match Size::from_bits(self.size()) {
            Some(size) => size,
            None => {
                return Err(DecodeError::UnknownOpcode(UNIT_FAILURE));
            },
        };
        let dst: usize = self.destination();
        let a: u32 = regs.get_data(dst);
        let b: u32 = match self {
            Instruction::Not { .. } => 0,
            _ => regs.get_data(self.origin()),
        };
        let res: AluResult = Alu::execute(op, a, b, size, regs.ccr.extend);
        if store {
            regs.set_data(dst, res.value);
        }
        Instruction::update_flags(regs, res.flags);
        Ok(())
    }

    /// The size field.
    pub fn size(&self) -> (size: u8)
        ensures
            size == self.bits(),
    {
        match self {
            Instruction::Move { size, .. } => *size,
            Instruction::Add { size, .. } => *size,
            Instruction::Sub { size, .. } => *size,
            Instruction::And { size, .. } => *size,
            Instruction::Or { size, .. } => *size,
            Instruction::Eor { size, .. } => *size,
            Instruction::Not { size, .. } => *size,
            Instruction::Clr { size, .. } => *size,
            Instruction::Cmp { size, .. } => *size,
        }
    }

    /// The destination register.
    pub fn destination(&self) -> (index: usize)
        ensures
            index == self.target(),
    {
        match self {
            Instruction::Move { dst, .. } => *dst,
            Instruction::Add { dst, .. } => *dst,
            Instruction::Sub { dst, .. } => *dst,
            Instruction::And { dst, .. } => *dst,
            Instruction::Or { dst, .. } => *dst,
            Instruction::Eor { dst, .. } => *dst,
            Instruction::Not { reg, .. } => *reg,
            Instruction::Clr { reg, .. } => *reg,
            Instruction::Cmp { dst, .. } => *dst,
        }
    }

    /// The source register; the destination where the operation has one
    /// operand.
    pub fn origin(&self) -> (index: usize)
        ensures
            index == self.source(),
    {
        match self {
            Instruction::Move { src, .. } => *src,
            Instruction::Add { src, .. } => *src,
            Instruction::Sub { src, .. } => *src,
            Instruction::And { src, .. } => *src,
            Instruction::Or { src, .. } => *src,
            Instruction::Eor { src, .. } => *src,
            Instruction::Not { reg, .. } => *reg,
            Instruction::Clr { reg, .. } => *reg,
            Instruction::Cmp { src, .. } => *src,
        }
    }

    /// Carries out the instruction on the registers. The bus is not
    /// touched: every operand is a data register.
    pub fn execute(&self, regs: &mut Registers, bus: &mut Bus) -> (res: Result<(), DecodeError>)
        requires
            self.wf(),
        ensures
            *final(bus) == *old(bus),
            self.can_execute() ==> res is Ok && final(regs)@ == self.applied(old(regs)@),
            !self.can_execute() ==> res == Err::<(), DecodeError>(
                DecodeError::UnknownOpcode(UNIT_FAILURE),
            ) && final(regs)@ == old(regs)@,
    {
        self.execute_on(regs)
    }

    /// Carries out the instruction on the registers.
    pub fn execute_on(&self, regs: &mut Registers) -> (res: Result<(), DecodeError>)
        requires
            self.wf(),
        ensures
            self.can_execute() ==> res is Ok && final(regs)@ == self.applied(old(regs)@),
            !self.can_execute() ==> res == Err::<(), DecodeError>(
                DecodeError::UnknownOpcode(UNIT_FAILURE),
            ) && final(regs)@ == old(regs)@,
    {
        match self {
            Instruction::Add { .. } => self.run_unit(regs, AluOp::Add, true),
            Instruction::Sub { .. } => self.run_unit(regs, AluOp::Sub, true),
            Instruction::And { .. } => self.run_unit(regs, AluOp::And, true),
            Instruction::Or { .. } => self.run_unit(regs, AluOp::Or, true),
            Instruction::Eor { .. } => self.run_unit(regs, AluOp::Xor, true),
            Instruction::Not { .. } => self.run_unit(regs, AluOp::Not, true),
            Instruction::Cmp { .. } => self.run_unit(regs, AluOp::Sub, false),
            Instruction::Clr { reg, .. } => {
                proof {
                    reveal_strlit("Z");
                    reveal_strlit("N");
                    reveal_strlit("V");
                    reveal_strlit("C");
                    reveal_strlit("X");
                }
                regs.set_data(*reg, 0);
                regs.set_flag("Z", true);
                regs.set_flag("N", false);
                regs.set_flag("C", false);
                regs.set_flag("V", false);
                regs.set_flag("X", false);
                        Ok(())
            },
            Instruction::Move { size, src, dst } => {
                proof {
                    reveal_strlit("Z");
                    reveal_strlit("N");
                }
                let value: u32 = regs.get_data(*src);
                regs.set_data(*dst, value);
                regs.set_flag("Z", value == 0);
                regs.set_flag("N", value & (1u32 << ((*size - 1) as u32)) != 0);
                        Ok(())
            },
        }
    }
}

/// After an operation of the arithmetic unit the condition codes are the
/// flags that the unit gave.
pub proof fn lemma_flags_reach_the_codes(regs: RegisterValues, flags: AluFlags)
    ensures
        flagged(regs, flags).ccr.zero == flags.zero,
        flagged(regs, flags).ccr.negative == flags.negative,
        flagged(regs, flags).ccr.overflow == flags.overflow,
        flagged(regs, flags).ccr.carry == flags.carry,
        flagged(regs, flags).ccr.extend == flags.extend,
        flagged(regs, flags).d == regs.d,
        flagged(regs, flags).a == regs.a,
        flagged(regs, flags).pc == regs.pc,
{
}

} // verus!
