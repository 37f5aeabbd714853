//! The register file of the host processor.
//!
//! The condition codes are five flags, kept both as a record and as the low
//! five bits of the status register: bit 0 carry, bit 1 overflow, bit 2
//! zero, bit 3 negative, bit 4 extend.

use vstd::prelude::*;
use vstd::string::*;

verus! {

/// Number of data registers, and of address registers.
pub const REGISTER_COUNT: usize = 8;

/// The status register after a reset: supervisor mode, interrupts masked.
pub const RESET_STATUS: u16 = 0x2700;

/// The condition codes.
#[derive(Clone, Copy, Debug, PartialEq, Eq, Structural)]
pub struct CCR {
    pub extend: bool,
    pub negative: bool,
    pub zero: bool,
    pub overflow: bool,
    pub carry: bool,
}

/// One of the five condition codes.
#[derive(Clone, Copy, Debug, PartialEq, Eq, Structural)]
pub enum Flag {
    Extend,
    Negative,
    Zero,
    Overflow,
    Carry,
}

/// 1 for a flag that is set, else 0.
pub open spec fn bit(flag: bool) -> int {
    if flag {
        1
    } else {
        0
    }
}

/// The flag that a one-letter name stands for: `X`, `N`, `Z`, `V`, `C`.
pub open spec fn flag_named(name: Seq<char>) -> Option<Flag> {
    if name.len() != 1 {
        None
    } else if name[0] == 'X' {
        Some(Flag::Extend)
    } else if name[0] == 'N' {
        Some(Flag::Negative)
    } else if name[0] == 'Z' {
        Some(Flag::Zero)
    } else if name[0] == 'V' {
        Some(Flag::Overflow)
    } else if name[0] == 'C' {
        Some(Flag::Carry)
    } else {
        None
    }
}

/// Finds the flag that a name stands for.
pub fn flag_of_name(name: &str) -> (flag: Option<Flag>)
    ensures
        flag == flag_named(name@),
{
    if name.unicode_len() != 1 {
        return None;
    }
    let c: char = name.get_char(0);
    if c == 'X' {
        Some(Flag::Extend)
    } else if c == 'N' {
        Some(Flag::Negative)
    } else if c == 'Z' {
        Some(Flag::Zero)
    } else if c == 'V' {
        Some(Flag::Overflow)
    } else if c == 'C' {
        Some(Flag::Carry)
    } else {
        None
    }
}

impl CCR {
    /// The flags as a number below 32.
    pub open spec fn bits(self) -> int {
        bit(self.extend) * 16 + bit(self.negative) * 8 + bit(self.zero) * 4 + bit(self.overflow)
            * 2 + bit(self.carry)
    }

    /// The flags that the low five bits of a word stand for.
    pub open spec fn of_bits(value: int) -> CCR {
        CCR {
            extend: (value / 16) % 2 == 1,
            negative: (value / 8) % 2 == 1,
            zero: (value / 4) % 2 == 1,
            overflow: (value / 2) % 2 == 1,
            carry: value % 2 == 1,
        }
    }

    /// The value of one flag.
    pub open spec fn flag(self, flag: Flag) -> bool {
        match flag {
            Flag::Extend => self.extend,
            Flag::Negative => self.negative,
            Flag::Zero => self.zero,
            Flag::Overflow => self.overflow,
            Flag::Carry => self.carry,
        }
    }

    /// The codes with one flag given a value.
    pub open spec fn with_flag(self, flag: Flag, value: bool) -> CCR {
        match flag {
            Flag::Extend => CCR { extend: value, ..self },
            Flag::Negative => CCR { negative: value, ..self },
            Flag::Zero => CCR { zero: value, ..self },
            Flag::Overflow => CCR { overflow: value, ..self },
            Flag::Carry => CCR { carry: value, ..self },
        }
    }

    /// All five flags clear.
    pub open spec fn cleared() -> CCR {
        CCR { extend: false, negative: false, zero: false, overflow: false, carry: false }
    }

    /// The flags as the low five bits of a word.
    pub fn to_u16(&self) -> (value: u16)
        ensures
            value == self.bits(),
            value < 32,
    {
        let x: u16 = if self.extend { 16 } else { 0 };
        let n: u16 = if self.negative { 8 } else { 0 };
        let z: u16 = if self.zero { 4 } else { 0 };
        let v: u16 = if self.overflow { 2 } else { 0 };
        let c: u16 = if self.carry { 1 } else { 0 };
        x + n + z + v + c
    }

    /// The flags that the low five bits of `value` stand for.
    pub fn from_u16(value: u16) -> (ccr: CCR)
        ensures
            ccr == CCR::of_bits(value as int),
    {
        CCR {
            extend: (value / 16) % 2 == 1,
            negative: (value / 8) % 2 == 1,
            zero: (value / 4) % 2 == 1,
            overflow: (value / 2) % 2 == 1,
            carry: value % 2 == 1,
        }
    }
}

impl Default for CCR {
    fn default() -> (ccr: CCR)
        ensures
            ccr == CCR::cleared(),
    {
        CCR { extend: false, negative: false, zero: false, overflow: false, carry: false }
    }
}

/// Flags written as a word and read back are the same flags, and a word
/// read as flags and written back keeps its low five bits.
pub proof fn lemma_ccr_round_trip(ccr: CCR, value: u16)
    ensures
        CCR::of_bits(ccr.bits()) == ccr,
        0 <= ccr.bits() < 32,
        CCR::of_bits(value as int).bits() == value as int % 32,
{
    assert(((value / 16) % 2) * 16 + ((value / 8) % 2) * 8 + ((value / 4) % 2) * 4 + ((value
        / 2) % 2) * 2 + value % 2 == value % 32) by (bit_vector);
}

/// The status word that takes the condition codes: the codes replace the low
/// four bits, and the extend bit is added to bit 4.
pub open spec fn status_with_codes(sr: u16, ccr: CCR) -> u16 {
    (sr & 0xFFF0) | (ccr.bits() as u16)
}

/// What a register file holds.
#[verifier::ext_equal]
pub struct RegisterValues {
    /// Data registers.
    pub d: Seq<u32>,
    /// Address registers.
    pub a: Seq<u32>,
    /// Program counter.
    pub pc: u32,
    /// Status register.
    pub sr: u16,
    /// Condition codes.
    pub ccr: CCR,
}

impl RegisterValues {
    /// The values after a reset.
    pub open spec fn reset() -> RegisterValues {
        RegisterValues {
            d: Seq::new(8, |i: int| 0u32),
            a: Seq::new(8, |i: int| 0u32),
            pc: 0,
            sr: RESET_STATUS,
            ccr: CCR::cleared(),
        }
    }

    /// The values with the condition codes copied into the status word.
    pub open spec fn with_status_from_codes(self) -> RegisterValues {
        RegisterValues { sr: status_with_codes(self.sr, self.ccr), ..self }
    }

    /// The values with the condition codes taken from the low five bits of
    /// the status word.
    pub open spec fn with_codes_from_status(self) -> RegisterValues {
        RegisterValues { ccr: CCR::of_bits(self.sr as int % 32), ..self }
    }

    /// The values with one flag given a value and the status word brought
    /// up to date. A name that stands for no flag changes the status word
    /// only.
    pub open spec fn with_flag(self, name: Seq<char>, value: bool) -> RegisterValues {
        let ccr = match flag_named(name) {
            Some(flag) => self.ccr.with_flag(flag, value),
            None => self.ccr,
        };
        RegisterValues { ccr, sr: status_with_codes(self.sr, ccr), ..self }
    }

    /// The value of the flag with a name; false for a name that stands for
    /// none.
    pub open spec fn flag(self, name: Seq<char>) -> bool {
        match flag_named(name) {
            Some(flag) => self.ccr.flag(flag),
            None => false,
        }
    }

    /// The values with a data register given a value.
    pub open spec fn with_data(self, index: int, value: u32) -> RegisterValues {
        RegisterValues { d: self.d.update(index, value), ..self }
    }

    /// The values with an address register given a value.
    pub open spec fn with_address(self, index: int, value: u32) -> RegisterValues {
        RegisterValues { a: self.a.update(index, value), ..self }
    }
}

/// The register file.
#[derive(Clone, Debug)]
pub struct Registers {
    /// Data registers.
    pub d: [u32; 8],
    /// Address registers.
    pub a: [u32; 8],
    /// Program counter.
    pub pc: u32,
    /// Status register.
    pub sr: u16,
    /// Condition codes.
    pub ccr: CCR,
}

impl View for Registers {
    type V = RegisterValues;

    open spec fn view(&self) -> RegisterValues {
        RegisterValues { d: self.d@, a: self.a@, pc: self.pc, sr: self.sr, ccr: self.ccr }
    }
}

impl Registers {
    /// The register file after a reset.
    pub fn new() -> (r: Registers)
        ensures
            r@ == RegisterValues::reset(),
    {
        let r = Registers { d: [0; 8], a: [0; 8], pc: 0, sr: RESET_STATUS, ccr: CCR::default() };
        assert(r.d@ =~= Seq::new(8, |i: int| 0u32));
        assert(r.a@ =~= Seq::new(8, |i: int| 0u32));
        r
    }

    /// Copies the condition codes into the status register.
    pub fn update_sr_from_ccr(&mut self)
        ensures
            final(self)@ == old(self)@.with_status_from_codes(),
    {
        self.sr = (self.sr & 0xFFF0) | self.ccr.to_u16();
    }

    /// Takes the condition codes from the low five bits of the status
    /// register.
    pub fn update_ccr_from_sr(&mut self)
        ensures
            final(self)@ == old(self)@.with_codes_from_status(),
    {
        self.ccr = CCR::from_u16(self.sr % 32);
    }

    /// Gives the flag named `flag` a value and brings the status register up
    /// to date.
    pub fn set_flag(&mut self, flag: &str, value: bool)
        ensures
            final(self)@ == old(self)@.with_flag(flag@, value),
    {
        match flag_of_name(flag) {
            Some(Flag::Extend) => self.ccr.extend = value,
            Some(Flag::Negative) => self.ccr.negative = value,
            Some(Flag::Zero) => self.ccr.zero = value,
            Some(Flag::Overflow) => self.ccr.overflow = value,
            Some(Flag::Carry) => self.ccr.carry = value,
            None => {},
        }
        self.update_sr_from_ccr();
    }

    /// The flag named `flag`; false for a name that stands for none.
    pub fn get_flag(&self, flag: &str) -> (value: bool)
        ensures
            value == self@.flag(flag@),
    {
        match flag_of_name(flag) {
            Some(Flag::Extend) => self.ccr.extend,
            Some(Flag::Negative) => self.ccr.negative,
            Some(Flag::Zero) => self.ccr.zero,
            Some(Flag::Overflow) => self.ccr.overflow,
            Some(Flag::Carry) => self.ccr.carry,
            None => false,
        }
    }

    /// Data register `index`.
    pub fn get_data(&self, index: usize) -> (value: u32)
        requires
            index < 8,
        ensures
            value == self@.d[index as int],
    {
        self.d[index]
    }

    /// Address register `index`.
    pub fn get_address(&self, index: usize) -> (value: u32)
        requires
            index < 8,
        ensures
            value == self@.a[index as int],
    {
        self.a[index]
    }

    /// Sets data register `index`.
    pub fn set_data(&mut self, index: usize, value: u32)
        requires
            index < 8,
        ensures
            final(self)@ == old(self)@.with_data(index as int, value),
    {
        self.d[index] = value;
    }

    /// Sets address register `index`.
    pub fn set_address(&mut self, index: usize, value: u32)
        requires
            index < 8,
        ensures
            final(self)@ == old(self)@.with_address(index as int, value),
    {
        self.a[index] = value;
    }
}

impl Default for Registers {
    fn default() -> (r: Registers)
        ensures
            r@ == RegisterValues::reset(),
    {
        Registers::new()
    }
}

/// A flag that was given a value reads back with that value, and a register
/// that was given a value reads back with that value.
pub proof fn lemma_values_read_back(r: RegisterValues, name: Seq<char>, flag: bool, index: int, value: u32)
    requires
        flag_named(name) is Some,
        0 <= index < r.d.len(),
    ensures
        r.with_flag(name, flag).flag(name) == flag,
        r.with_data(index, value).d[index] == value,
        r.with_data(index, value).with_flag(name, flag).d[index] == value,
{
}

} // verus!
