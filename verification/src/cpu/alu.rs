//! The arithmetic unit of the host processor: operations on values of 8, 16
//! or 32 bits, each giving the result and the five condition flags.
//!
//! A sum is formed twice: without sign, to find the carry out of the
//! operand's width, and with sign, to find whether the result left the
//! signed range of that width. A difference is the sum of the first operand
//! and the 32-bit two's complement of the second.

use vstd::prelude::*;

verus! {

/// The width of an operand.
#[derive(Clone, Copy, Debug, PartialEq, Eq, Structural)]
pub enum Size {
    Byte,
    Word,
    Long,
}

impl Size {
    /// Number of bits.
    pub open spec fn width(self) -> int {
        match self {
            Size::Byte => 8,
            Size::Word => 16,
            Size::Long => 32,
        }
    }

    /// Two to the power of the width.
    pub open spec fn modulus(self) -> int {
        match self {
            Size::Byte => 0x100,
            Size::Word => 0x1_0000,
            Size::Long => 0x1_0000_0000,
        }
    }

    /// The size of a given number of bits, if there is one.
    pub open spec fn of_width(bits: int) -> Option<Size> {
        if bits == 8 {
            Some(Size::Byte)
        } else if bits == 16 {
            Some(Size::Word)
        } else if bits == 32 {
            Some(Size::Long)
        } else {
            None
        }
    }

    /// The size of a given number of bits: 8, 16 or 32.
    pub fn from_bits(bits: u8) -> (size: Option<Size>)
        ensures
            size == Size::of_width(bits as int),
    {
        if bits == 8 {
            Some(Size::Byte)
        } else if bits == 16 {
            Some(Size::Word)
        } else if bits == 32 {
            Some(Size::Long)
        } else {
            None
        }
    }

    /// Number of bits.
    pub fn bit_width(self) -> (bits: u32)
        ensures
            bits == self.width(),
    {
        match self {
            Size::Byte => 8,
            Size::Word => 16,
            Size::Long => 32,
        }
    }

    /// The largest value of the width.
    pub fn mask(self) -> (mask: u32)
        ensures
            mask == self.modulus() - 1,
    {
        match self {
            Size::Byte => 0xFF,
            Size::Word => 0xFFFF,
            Size::Long => 0xFFFF_FFFF,
        }
    }

    /// The value of the sign bit.
    pub fn sign_mask(self) -> (mask: u32)
        ensures
            mask == self.modulus() / 2,
    {
        match self {
            Size::Byte => 0x80,
            Size::Word => 0x8000,
            Size::Long => 0x8000_0000,
        }
    }

    /// Two to the power of the width.
    pub fn range(self) -> (modulus: u64)
        ensures
            modulus == self.modulus(),
    {
        match self {
            Size::Byte => 0x100,
            Size::Word => 0x1_0000,
            Size::Long => 0x1_0000_0000,
        }
    }
}

/// The part of a value that an operand of a size holds.
pub open spec fn masked(value: int, size: Size) -> int {
    value % size.modulus()
}

/// Whether the sign bit of a value of a size is set.
pub open spec fn sign_of(value: int, size: Size) -> bool {
    masked(value, size) >= size.modulus() / 2
}

/// A value of a size read as a signed number.
pub open spec fn signed(value: int, size: Size) -> int {
    if sign_of(value, size) {
        masked(value, size) - size.modulus()
    } else {
        masked(value, size)
    }
}

/// The 32-bit two's complement of a value.
pub open spec fn complement(value: u32) -> u32 {
    if value == 0 {
        0
    } else {
        (0x1_0000_0000 - value) as u32
    }
}

/// The condition flags that an operation gives.
#[derive(Clone, Copy, Debug, PartialEq, Eq, Structural)]
pub struct AluFlags {
    pub carry: bool,
    pub overflow: bool,
    pub zero: bool,
    pub negative: bool,
    pub extend: bool,
}

impl AluFlags {
    /// All five flags clear.
    pub open spec fn cleared() -> AluFlags {
        AluFlags { carry: false, overflow: false, zero: false, negative: false, extend: false }
    }
}

impl Default for AluFlags {
    fn default() -> (flags: AluFlags)
        ensures
            flags == AluFlags::cleared(),
    {
        AluFlags { carry: false, overflow: false, zero: false, negative: false, extend: false }
    }
}

/// What an operation gives: the value, the cycles it adds and the flags.
#[derive(Clone, Copy, Debug, PartialEq, Eq, Structural)]
pub struct AluResult {
    pub value: u32,
    pub cycles: u32,
    pub flags: AluFlags,
}

/// The operations between two values.
#[derive(Clone, Copy, Debug, PartialEq, Eq, Structural)]
pub enum AluOp {
    Add,
    Sub,
    And,
    Or,
    Xor,
    Not,
}

/// The sum of two values and a carry at a size. The carry flag tells that
/// the sum without sign reached two to the width; the overflow flag that
/// the sum with sign left the signed range of the width; extend follows
/// carry.
pub open spec fn sum_result(a: u32, b: u32, carry_in: u32, size: Size) -> AluResult {
    let total = a + b + carry_in;
    let with_sign = signed(a as int, size) + signed(b as int, size) + carry_in;
    let half = size.modulus() / 2;
    AluResult {
        value: masked(total, size) as u32,
        cycles: 0,
        flags: AluFlags {
            carry: total >= size.modulus(),
            overflow: with_sign < -half || with_sign > half - 1,
            zero: masked(total, size) == 0,
            negative: sign_of(total, size),
            extend: total >= size.modulus(),
        },
    }
}

/// The result of an operation that only moves or combines bits: carry and
/// overflow are clear, extend stays as it was.
pub open spec fn logic_result(value: u32, size: Size, extend: bool) -> AluResult {
    AluResult {
        value: masked(value as int, size) as u32,
        cycles: 0,
        flags: AluFlags {
            carry: false,
            overflow: false,
            zero: masked(value as int, size) == 0,
            negative: sign_of(value as int, size),
            extend,
        },
    }
}

/// What an operation gives on two values of a size. `a` is the destination
/// operand, `b` the source; `extend` is the extend flag before.
pub open spec fn executed(op: AluOp, a: u32, b: u32, size: Size, extend: bool) -> AluResult {
    let x = masked(a as int, size) as u32;
    let y = masked(b as int, size) as u32;
    match op {
        AluOp::Add => sum_result(x, y, 0, size),
        AluOp::Sub => sum_result(x, complement(y), 0, size),
        AluOp::And => logic_result(x & y, size, extend),
        AluOp::Or => logic_result(x | y, size, extend),
        AluOp::Xor => logic_result(x ^ y, size, extend),
        AluOp::Not => logic_result(!x, size, extend),
    }
}

/// The arithmetic unit.
#[derive(Clone, Copy, Debug)]
pub struct Alu {
}

impl Alu {
    /// An arithmetic unit.
    pub fn new() -> Alu {
        Alu {  }
    }

    /// The part of a value that an operand of a size holds.
    pub fn mask_value(value: u32, size: Size) -> (out: u32)
        ensures
            out == masked(value as int, size),
    {
        match size {
            Size::Byte => value % 0x100,
            Size::Word => value % 0x1_0000,
            Size::Long => value,
        }
    }

    /// A value of a size read as a signed number.
    pub fn sign_extend(value: u32, size: Size) -> (out: i64)
        ensures
            out == signed(value as int, size),
    {
        let low: u32 = Alu::mask_value(value, size);
        if low >= size.sign_mask() {
            low as i64 - size.range() as i64
        } else {
            low as i64
        }
    }

    /// The value at a size, whether its sign bit is set, and whether it is
    /// zero.
    pub fn get_value_info(value: u32, size: Size) -> (info: (u32, bool, bool))
        ensures
            info.0 == masked(value as int, size),
            info.1 == sign_of(value as int, size),
            info.2 == (masked(value as int, size) == 0),
    {
        let low: u32 = Alu::mask_value(value, size);
        (low, low >= size.sign_mask(), low == 0)
    }

    /// The 32-bit two's complement of a value.
    pub fn negate(value: u32) -> (out: u32)
        ensures
            out == complement(value),
    {
        if value == 0 {
            0
        } else {
            (0xFFFF_FFFF - value) + 1
        }
    }

    /// Adds two values and a carry at a size.
    pub fn add_with_carry(a: u32, b: u32, carry_in: u32, size: Size) -> (res: AluResult)
        ensures
            res == sum_result(a, b, carry_in, size),
    {
        let modulus: u64 = size.range();
        let half: i64 = (modulus / 2) as i64;
        let with_sign: i64 = Alu::sign_extend(a, size) + Alu::sign_extend(b, size) + carry_in as i64;
        let total: u64 = a as u64 + b as u64 + carry_in as u64;
        let value: u64 = total % modulus;
        let carry: bool = total >= modulus;
        AluResult {
            value: value as u32,
            cycles: 0,
            flags: AluFlags {
                carry,
                overflow: with_sign < -half || with_sign > half - 1,
                zero: value == 0,
                negative: value >= modulus / 2,
                extend: carry,
            },
        }
    }

    /// The flags and the value of an operation that only moves or combines
    /// bits.
    pub fn logic(value: u32, size: Size, extend: bool) -> (res: AluResult)
        ensures
            res == logic_result(value, size, extend),
    {
        let info: (u32, bool, bool) = Alu::get_value_info(value, size);
        AluResult {
            value: info.0,
            cycles: 0,
            flags: AluFlags {
                carry: false,
                overflow: false,
                zero: info.2,
                negative: info.1,
                extend,
            },
        }
    }

    /// Carries out an operation on the destination operand `a` and the
    /// source operand `b`.
    pub fn execute(op: AluOp, a: u32, b: u32, size: Size, extend: bool) -> (res: AluResult)
        ensures
            res == executed(op, a, b, size, extend),
    {
        let x: u32 = Alu::mask_value(a, size);
        let y: u32 = Alu::mask_value(b, size);
        match op {
            AluOp::Add => Alu::add_with_carry(x, y, 0, size),
            AluOp::Sub => Alu::add_with_carry(x, Alu::negate(y), 0, size),
            AluOp::And => Alu::logic(x & y, size, extend),
            AluOp::Or => Alu::logic(x | y, size, extend),
            AluOp::Xor => Alu::logic(x ^ y, size, extend),
            AluOp::Not => Alu::logic(!x, size, extend),
        }
    }
}

/// The carry that the extend flag brings into a sum.
pub open spec fn carry_of(extend: bool) -> u32 {
    if extend {
        1
    } else {
        0
    }
}

/// The size at which an address register is compared: a byte counts as a
/// word.
pub open spec fn widened(size: Size) -> Size {
    if size == Size::Byte {
        Size::Word
    } else {
        size
    }
}

/// Number of bits that are set in a number.
pub open spec fn ones(n: nat) -> nat
    decreases n,
{
    if n == 0 {
        0
    } else {
        n % 2 + ones(n / 2)
    }
}

/// The quotient of two numbers, rounded towards zero.
pub open spec fn quotient_towards_zero(a: int, b: int) -> int
    recommends
        b != 0,
{
    if a >= 0 && b > 0 {
        a / b
    } else if a < 0 && b > 0 {
        -((-a) / b)
    } else if a >= 0 {
        -(a / (-b))
    } else {
        (-a) / (-b)
    }
}

/// The flags after a product or a quotient: carry and overflow clear,
/// extend as it was.
pub open spec fn result_flags(zero: bool, negative: bool, extend: bool) -> AluFlags {
    AluFlags { carry: false, overflow: false, zero, negative, extend }
}

/// The product of two words without sign, as a long word.
pub open spec fn product_unsigned(src: u16, dst: u16, extend: bool) -> AluResult {
    let value = src as int * dst as int;
    AluResult {
        value: value as u32,
        cycles: (38 + 2 * ones(src as nat)) as u32,
        flags: result_flags(value == 0, value >= 0x8000_0000, extend),
    }
}

/// The product of two words with sign, as a long word in two's complement.
pub open spec fn product_signed(src: u16, dst: u16, extend: bool) -> AluResult {
    let value = (signed(src as int, Size::Word) * signed(dst as int, Size::Word)) % 0x1_0000_0000;
    AluResult {
        value: value as u32,
        cycles: (40 + 2 * ones(src as nat)) as u32,
        flags: result_flags(value == 0, value >= 0x8000_0000, extend),
    }
}

/// A quotient and a remainder as one long word: the remainder in the high
/// word, the quotient in the low word, each cut to sixteen bits.
pub open spec fn packed_division(quotient: int, remainder: int) -> int {
    (remainder % 0x1_0000) * 0x1_0000 + quotient % 0x1_0000
}

/// The division of a long word by a word, both without sign. The flags
/// follow the sixteen bits of the quotient that are kept.
pub open spec fn division_unsigned(src: u16, dst: u32, extend: bool) -> AluResult
    recommends
        src != 0,
{
    let quotient = dst as int / src as int;
    AluResult {
        value: packed_division(quotient, dst as int % src as int) as u32,
        cycles: (136 + 2 * ones(quotient as nat)) as u32,
        flags: result_flags(quotient % 0x1_0000 == 0, quotient % 0x1_0000 >= 0x8000, extend),
    }
}

/// The division of a long word by a word, both with sign: the quotient is
/// rounded towards zero and the remainder has the sign of the dividend.
pub open spec fn division_signed(src: u16, dst: u32, extend: bool) -> AluResult
    recommends
        src != 0,
{
    let dividend = signed(dst as int, Size::Long);
    let divisor = signed(src as int, Size::Word);
    let quotient = quotient_towards_zero(dividend, divisor);
    let remainder = dividend - quotient * divisor;
    let size = if quotient < 0 {
        -quotient
    } else {
        quotient
    };
    AluResult {
        value: packed_division(quotient, remainder) as u32,
        cycles: (140 + 2 * ones(size as nat)) as u32,
        flags: result_flags(quotient % 0x1_0000 == 0, quotient % 0x1_0000 >= 0x8000, extend),
    }
}

/// The ways of moving the bits of a value by one place.
#[derive(Clone, Copy, Debug, PartialEq, Eq, Structural)]
pub enum ShiftKind {
    /// To the left, a zero coming in.
    ArithmeticLeft,
    /// To the right, the sign bit staying.
    ArithmeticRight,
    /// To the left, a zero coming in.
    LogicalLeft,
    /// To the right, a zero coming in.
    LogicalRight,
    /// To the left, the carry flag coming in.
    RotateLeft,
    /// To the right, the carry flag coming in.
    RotateRight,
}

impl ShiftKind {
    /// Whether the bits move to the left.
    pub open spec fn to_left(self) -> bool {
        self == ShiftKind::ArithmeticLeft || self == ShiftKind::LogicalLeft || self
            == ShiftKind::RotateLeft
    }

    /// Whether the carry flag comes in at the free end.
    pub open spec fn is_rotation(self) -> bool {
        self == ShiftKind::RotateLeft || self == ShiftKind::RotateRight
    }
}

/// A value of a size after its bits moved by one place, and the bit that
/// left it. `carry_in` is the carry flag before the operation.
pub open spec fn moved_once(kind: ShiftKind, value: u32, size: Size, carry_in: bool) -> (
    u32,
    bool,
) {
    let half = size.modulus() / 2;
    let incoming = if kind.is_rotation() && carry_in {
        1int
    } else if kind == ShiftKind::ArithmeticRight && value >= half {
        1int
    } else {
        0int
    };
    if kind.to_left() {
        (((value * 2) % size.modulus() + incoming) as u32, value >= half)
    } else {
        ((value / 2 + incoming * half) as u32, value % 2 == 1)
    }
}

/// A value of a size after its bits moved by `count` places, one place at a
/// time, and the bit that left it last.
pub open spec fn moved(kind: ShiftKind, value: u32, count: nat, size: Size, carry_in: bool) -> (
    u32,
    bool,
)
    decreases count,
{
    if count == 0 {
        (value, false)
    } else {
        moved_once(kind, moved(kind, value, (count - 1) as nat, size, carry_in).0, size, carry_in)
    }
}

/// Whether a shift to the left raises the overflow flag: decided by the two
/// top bits before the first place. The arithmetic shift asks for a set
/// sign bit over a clear one, the logical shift for two that differ; no
/// other operation raises it.
pub open spec fn shift_overflow(kind: ShiftKind, value: u32, size: Size) -> bool {
    let top = value >= size.modulus() / 2;
    let next = (value / (size.modulus() / 4) as u32) % 2 == 1;
    if kind == ShiftKind::ArithmeticLeft {
        top && !next
    } else if kind == ShiftKind::LogicalLeft {
        top != next
    } else {
        false
    }
}

/// What moving the bits of a value gives. Only the low six bits of `count`
/// count. No place moved: negative and zero follow the value, overflow is
/// cleared, carry and extend stay. Else carry is the bit that left last; a
/// shift copies it to extend, a rotation leaves extend alone. One place
/// costs nothing more, more places two cycles each.
pub open spec fn shift_result(
    kind: ShiftKind,
    value: u32,
    count: u8,
    size: Size,
    flags: AluFlags,
) -> AluResult {
    let start = masked(value as int, size) as u32;
    let places = (count % 64) as nat;
    let end = moved(kind, start, places, size, flags.carry);
    if places == 0 {
        AluResult {
            value: start,
            cycles: 0,
            flags: AluFlags {
                zero: start == 0,
                negative: sign_of(start as int, size),
                overflow: false,
                ..flags
            },
        }
    } else {
        AluResult {
            value: end.0,
            cycles: if places == 1 {
                0
            } else {
                (places * 2) as u32
            },
            flags: AluFlags {
                zero: end.0 == 0,
                negative: sign_of(end.0 as int, size),
                overflow: shift_overflow(kind, start, size),
                carry: end.1,
                extend: if kind.is_rotation() {
                    flags.extend
                } else {
                    end.1
                },
            },
        }
    }
}

/// The value of the bit that a bit number names: its low five bits count.
pub open spec fn bit_mask(bit: u8) -> u32 {
    1u32 << ((bit % 32) as u32)
}

/// The operations on one bit.
#[derive(Clone, Copy, Debug, PartialEq, Eq, Structural)]
pub enum BitOp {
    Test,
    Raise,
    Clear,
    Change,
}

/// What an operation on one bit gives: the zero flag tells that the bit was
/// clear before, the other flags stay.
pub open spec fn bit_result(op: BitOp, bit: u8, value: u32, size: Size, flags: AluFlags) -> AluResult {
    let start = masked(value as int, size) as u32;
    let after = match op {
        BitOp::Test => start,
        BitOp::Raise => start | bit_mask(bit),
        BitOp::Clear => start & !bit_mask(bit),
        BitOp::Change => start ^ bit_mask(bit),
    };
    AluResult {
        value: masked(after as int, size) as u32,
        cycles: 0,
        flags: AluFlags { zero: start & bit_mask(bit) == 0, ..flags },
    }
}

impl Alu {
    /// Adds the source `b` to the destination `a`.
    pub fn add(a: u32, b: u32, size: Size) -> (res: AluResult)
        ensures
            res == executed(AluOp::Add, a, b, size, false),
    {
        Alu::execute(AluOp::Add, a, b, size, false)
    }

    /// Adds the source `b` and the extend flag to the destination `a`.
    pub fn addx(a: u32, b: u32, size: Size, extend: bool) -> (res: AluResult)
        ensures
            res == sum_result(
                masked(a as int, size) as u32,
                masked(b as int, size) as u32,
                carry_of(extend),
                size,
            ),
    {
        let carry_in: u32 = if extend {
            1
        } else {
            0
        };
        Alu::add_with_carry(Alu::mask_value(a, size), Alu::mask_value(b, size), carry_in, size)
    }

    /// Takes the source `b` from the destination `a`.
    pub fn sub(a: u32, b: u32, size: Size) -> (res: AluResult)
        ensures
            res == executed(AluOp::Sub, a, b, size, false),
    {
        Alu::execute(AluOp::Sub, a, b, size, false)
    }

    /// Adds the complement of the source `b` and the extend flag to the
    /// destination `a`.
    pub fn subx(a: u32, b: u32, size: Size, extend: bool) -> (res: AluResult)
        ensures
            res == sum_result(
                masked(a as int, size) as u32,
                complement(masked(b as int, size) as u32),
                carry_of(extend),
                size,
            ),
    {
        let carry_in: u32 = if extend {
            1
        } else {
            0
        };
        Alu::add_with_carry(
            Alu::mask_value(a, size),
            Alu::negate(Alu::mask_value(b, size)),
            carry_in,
            size,
        )
    }

    /// Takes a value from zero.
    pub fn neg(a: u32, size: Size) -> (res: AluResult)
        ensures
            res == sum_result(0, complement(masked(a as int, size) as u32), 0, size),
    {
        Alu::add_with_carry(0, Alu::negate(Alu::mask_value(a, size)), 0, size)
    }

    /// Adds the complement of a value and the extend flag to zero.
    pub fn negx(a: u32, size: Size, extend: bool) -> (res: AluResult)
        ensures
            res == sum_result(
                0,
                complement(masked(a as int, size) as u32),
                carry_of(extend),
                size,
            ),
    {
        let carry_in: u32 = if extend {
            1
        } else {
            0
        };
        Alu::add_with_carry(0, Alu::negate(Alu::mask_value(a, size)), carry_in, size)
    }

    /// The bits that both values have.
    pub fn and(a: u32, b: u32, size: Size, extend: bool) -> (res: AluResult)
        ensures
            res == executed(AluOp::And, a, b, size, extend),
    {
        Alu::execute(AluOp::And, a, b, size, extend)
    }

    /// The bits that either value has.
    pub fn or(a: u32, b: u32, size: Size, extend: bool) -> (res: AluResult)
        ensures
            res == executed(AluOp::Or, a, b, size, extend),
    {
        Alu::execute(AluOp::Or, a, b, size, extend)
    }

    /// The bits that one value has and the other has not.
    pub fn xor(a: u32, b: u32, size: Size, extend: bool) -> (res: AluResult)
        ensures
            res == executed(AluOp::Xor, a, b, size, extend),
    {
        Alu::execute(AluOp::Xor, a, b, size, extend)
    }

    /// The bits that a value has not.
    pub fn not(a: u32, size: Size, extend: bool) -> (res: AluResult)
        ensures
            res == executed(AluOp::Not, a, 0, size, extend),
    {
        Alu::execute(AluOp::Not, a, 0, size, extend)
    }

    /// The flags of a value that is moved or tested: negative and zero
    /// follow it, carry and overflow are clear, extend stays.
    pub fn tst(a: u32, size: Size, extend: bool) -> (res: AluResult)
        ensures
            res == logic_result(a, size, extend),
    {
        Alu::logic(a, size, extend)
    }

    /// The value that a move stores, with the flags of `tst`.
    pub fn move_instruction(a: u32, size: Size, extend: bool) -> (res: AluResult)
        ensures
            res == logic_result(a, size, extend),
    {
        Alu::logic(a, size, extend)
    }

    /// Compares the destination `a` with the source `b`: the flags of their
    /// difference.
    pub fn cmp(a: u32, b: u32, size: Size) -> (res: AluResult)
        ensures
            res == executed(AluOp::Sub, a, b, size, false),
    {
        Alu::execute(AluOp::Sub, a, b, size, false)
    }

    /// Compares with an address register: a byte is compared as a word.
    pub fn cmpa(a: u32, b: u32, size: Size) -> (res: AluResult)
        ensures
            res == executed(AluOp::Sub, a, b, widened(size), false),
    {
        match size {
            Size::Byte => Alu::execute(AluOp::Sub, a, b, Size::Word, false),
            Size::Word => Alu::execute(AluOp::Sub, a, b, Size::Word, false),
            Size::Long => Alu::execute(AluOp::Sub, a, b, Size::Long, false),
        }
    }

    /// Compares two values in memory: two cycles more than `cmp`.
    pub fn cmpm(a: u32, b: u32, size: Size) -> (res: AluResult)
        ensures
            res == (AluResult { cycles: 2, ..executed(AluOp::Sub, a, b, size, false) }),
    {
        let compared: AluResult = Alu::execute(AluOp::Sub, a, b, size, false);
        AluResult { value: compared.value, cycles: 2, flags: compared.flags }
    }

    /// Number of bits that are set in a number.
    pub fn count_ones(n: u32) -> (count: u32)
        ensures
            count == ones(n as nat),
            count <= 32,
    {
        let mut rest: u32 = n;
        let mut count: u32 = 0;
        let mut steps: u32 = 0;
        while rest != 0
            invariant
                steps <= 32,
                count <= steps,
                rest as int * pow2_of(steps as int) <= u32::MAX,
                count + ones(rest as nat) == ones(n as nat),
            decreases rest,
        {
            proof {
                lemma_pow2_step(steps as int, rest as int);
            }
            count = count + rest % 2;
            rest = rest / 2;
            steps = steps + 1;
        }
        count
    }

    /// Multiplies two words without sign.
    pub fn mulu(src: u16, dst: u16, extend: bool) -> (res: AluResult)
        ensures
            res == product_unsigned(src, dst, extend),
    {
        assert(src as int * dst as int <= 0xFFFF * 0xFFFF) by (nonlinear_arith)
            requires
                src <= 0xFFFF,
                dst <= 0xFFFF,
        ;
        let value: u32 = src as u32 * dst as u32;
        AluResult {
            value,
            cycles: 38 + 2 * Alu::count_ones(src as u32),
            flags: AluFlags {
                carry: false,
                overflow: false,
                zero: value == 0,
                negative: value >= 0x8000_0000,
                extend,
            },
        }
    }

    /// Multiplies two words with sign.
    pub fn muls(src: u16, dst: u16, extend: bool) -> (res: AluResult)
        ensures
            res == product_signed(src, dst, extend),
    {
        let a: i64 = Alu::sign_extend(src as u32, Size::Word);
        let b: i64 = Alu::sign_extend(dst as u32, Size::Word);
        assert(-0x4000_0000 <= a * b <= 0x4000_0000) by (nonlinear_arith)
            requires
                -0x8000 <= a < 0x8000,
                -0x8000 <= b < 0x8000,
        ;
        let product: i64 = a * b;
        let value: u32 = if product < 0 {
            (product + 0x1_0000_0000) as u32
        } else {
            product as u32
        };
        AluResult {
            value,
            cycles: 40 + 2 * Alu::count_ones(src as u32),
            flags: AluFlags {
                carry: false,
                overflow: false,
                zero: value == 0,
                negative: value >= 0x8000_0000,
                extend,
            },
        }
    }

    /// Divides a long word by a word, both without sign. A zero divisor
    /// gives nothing.
    pub fn divu(src: u16, dst: u32, extend: bool) -> (res: Option<AluResult>)
        ensures
            src == 0 ==> res is None,
            src != 0 ==> res == Some(division_unsigned(src, dst, extend)),
    {
        if src == 0 {
            return None;
        }
        let full: u32 = dst / src as u32;
        let quotient: u32 = full % 0x1_0000;
        let remainder: u32 = dst % src as u32;
        Some(
            AluResult {
                value: remainder * 0x1_0000 + quotient,
                cycles: 136 + 2 * Alu::count_ones(full),
                flags: AluFlags {
                    carry: false,
                    overflow: false,
                    zero: quotient == 0,
                    negative: quotient >= 0x8000,
                    extend,
                },
            },
        )
    }

    /// Divides a long word by a word, both with sign. A zero divisor gives
    /// nothing. The one quotient that no long word holds is left out.
    pub fn divs(src: u16, dst: u32, extend: bool) -> (res: Option<AluResult>)
        requires
            !(src == 0xFFFF && dst == 0x8000_0000),
        ensures
            src == 0 ==> res is None,
            src != 0 ==> res == Some(division_signed(src, dst, extend)),
    {
        if src == 0 {
            return None;
        }
        let dividend: i64 = Alu::sign_extend(dst, Size::Long);
        let divisor: i64 = Alu::sign_extend(src as u32, Size::Word);
        let above: u64 = if dividend < 0 {
            (-dividend) as u64
        } else {
            dividend as u64
        };
        let below: u64 = if divisor < 0 {
            (-divisor) as u64
        } else {
            divisor as u64
        };
        let size: u64 = above / below;
        let rest: u64 = above % below;
        let quotient: u64 = Alu::low_word(size, (dividend < 0) != (divisor < 0));
        let remainder: u64 = Alu::low_word(rest, dividend < 0);
        proof {
            lemma_signed_division(dividend as int, divisor as int);
        }
        Some(
            AluResult {
                value: (remainder * 0x1_0000 + quotient) as u32,
                cycles: 140 + 2 * Alu::count_ones(size as u32),
                flags: AluFlags {
                    carry: false,
                    overflow: false,
                    zero: quotient == 0,
                    negative: quotient >= 0x8000,
                    extend,
                },
            },
        )
    }

    /// The low sixteen bits of a number given by its size and its sign, in
    /// two's complement.
    fn low_word(size: u64, negative: bool) -> (word: u64)
        requires
            size <= 0x8000_0000,
        ensures
            word == (if negative {
                -(size as int)
            } else {
                size as int
            }) % 0x1_0000,
            word < 0x1_0000,
    {
        if negative {
            (0x1_0000 - size % 0x1_0000) % 0x1_0000
        } else {
            size % 0x1_0000
        }
    }

    /// Moves the bits of a value of a size by one place.
    fn move_once(kind: ShiftKind, value: u32, size: Size, carry_in: bool) -> (res: (u32, bool))
        requires
            value < size.modulus(),
        ensures
            res == moved_once(kind, value, size, carry_in),
            res.0 < size.modulus(),
    {
        let half: u64 = size.range() / 2;
        let rotation: bool = match kind {
            ShiftKind::RotateLeft => true,
            ShiftKind::RotateRight => true,
            _ => false,
        };
        let left: bool = match kind {
            ShiftKind::ArithmeticLeft => true,
            ShiftKind::LogicalLeft => true,
            ShiftKind::RotateLeft => true,
            _ => false,
        };
        let keeps_sign: bool = match kind {
            ShiftKind::ArithmeticRight => true,
            _ => false,
        };
        let incoming: u64 = if rotation && carry_in {
            1
        } else if keeps_sign && value as u64 >= half {
            1
        } else {
            0
        };
        let wide: u64 = value as u64;
        assert(wide < 0x1_0000_0000 ==> (wide * 2) % 0x100 <= 0xFE && (wide * 2) % 0x1_0000
            <= 0xFFFE && (wide * 2) % 0x1_0000_0000 <= 0xFFFF_FFFE) by (bit_vector);
        if left {
            (((value as u64 * 2) % size.range() + incoming) as u32, value as u64 >= half)
        } else {
            ((value as u64 / 2 + incoming * half) as u32, value % 2 == 1)
        }
    }

    /// Moves the bits of a value by the places that the low six bits of
    /// `count` give.
    fn shift(kind: ShiftKind, value: u32, count: u8, size: Size, flags: AluFlags) -> (res:
        AluResult)
        ensures
            res == shift_result(kind, value, count, size, flags),
    {
        let start: u32 = Alu::mask_value(value, size);
        let places: u8 = count % 64;
        let info: (u32, bool, bool) = Alu::get_value_info(start, size);
        proof {
            lemma_masked_small(start as int, size);
        }
        if places == 0 {
            return AluResult {
                value: start,
                cycles: 0,
                flags: AluFlags {
                    carry: flags.carry,
                    overflow: false,
                    zero: info.2,
                    negative: info.1,
                    extend: flags.extend,
                },
            };
        }
        let top: bool = info.1;
        let next: bool = (start as u64 / (size.range() / 4)) % 2 == 1;
        let overflow: bool = match kind {
            ShiftKind::ArithmeticLeft => top && !next,
            ShiftKind::LogicalLeft => top != next,
            _ => false,
        };
        let rotation: bool = match kind {
            ShiftKind::RotateLeft => true,
            ShiftKind::RotateRight => true,
            _ => false,
        };
        let mut current: (u32, bool) = (start, false);
        let mut i: u8 = 0;
        while i < places
            invariant
                i <= places,
                current.0 < size.modulus(),
                current == moved(kind, start, i as nat, size, flags.carry),
            decreases places - i,
        {
            current = Alu::move_once(kind, current.0, size, flags.carry);
            i += 1;
        }
        let after: (u32, bool, bool) = Alu::get_value_info(current.0, size);
        proof {
            lemma_masked_small(current.0 as int, size);
        }
        AluResult {
            value: current.0,
            cycles: if places == 1 {
                0
            } else {
                places as u32 * 2
            },
            flags: AluFlags {
                carry: current.1,
                overflow,
                zero: after.2,
                negative: after.1,
                extend: if rotation {
                    flags.extend
                } else {
                    current.1
                },
            },
        }
    }

    /// Shifts a value with its sign: to the left a zero comes in, to the
    /// right the sign bit stays.
    pub fn arithmetic_shift(value: u32, count: u8, size: Size, left: bool, flags: AluFlags) -> (res:
        AluResult)
        ensures
            res == shift_result(
                if left {
                    ShiftKind::ArithmeticLeft
                } else {
                    ShiftKind::ArithmeticRight
                },
                value,
                count,
                size,
                flags,
            ),
    {
        if left {
            Alu::shift(ShiftKind::ArithmeticLeft, value, count, size, flags)
        } else {
            Alu::shift(ShiftKind::ArithmeticRight, value, count, size, flags)
        }
    }

    /// Shifts a value without sign: a zero comes in at either end.
    pub fn logical_shift(value: u32, count: u8, size: Size, left: bool, flags: AluFlags) -> (res:
        AluResult)
        ensures
            res == shift_result(
                if left {
                    ShiftKind::LogicalLeft
                } else {
                    ShiftKind::LogicalRight
                },
                value,
                count,
                size,
                flags,
            ),
    {
        if left {
            Alu::shift(ShiftKind::LogicalLeft, value, count, size, flags)
        } else {
            Alu::shift(ShiftKind::LogicalRight, value, count, size, flags)
        }
    }

    /// Rotates a value: the carry flag of before comes in at the free end
    /// at every place.
    pub fn rotate(value: u32, count: u8, size: Size, left: bool, flags: AluFlags) -> (res:
        AluResult)
        ensures
            res == shift_result(
                if left {
                    ShiftKind::RotateLeft
                } else {
                    ShiftKind::RotateRight
                },
                value,
                count,
                size,
                flags,
            ),
    {
        if left {
            Alu::shift(ShiftKind::RotateLeft, value, count, size, flags)
        } else {
            Alu::shift(ShiftKind::RotateRight, value, count, size, flags)
        }
    }

    /// Carries out an operation on one bit of a value.
    fn bit_operation(op: BitOp, bit: u8, value: u32, size: Size, flags: AluFlags) -> (res:
        AluResult)
        ensures
            res == bit_result(op, bit, value, size, flags),
    {
        let start: u32 = Alu::mask_value(value, size);
        let mask: u32 = 1u32 << ((bit % 32) as u32);
        let after: u32 = match op {
            BitOp::Test => start,
            BitOp::Raise => start | mask,
            BitOp::Clear => start & !mask,
            BitOp::Change => start ^ mask,
        };
        AluResult {
            value: Alu::mask_value(after, size),
            cycles: 0,
            flags: AluFlags {
                carry: flags.carry,
                overflow: flags.overflow,
                zero: start & mask == 0,
                negative: flags.negative,
                extend: flags.extend,
            },
        }
    }

    /// Tests a bit.
    pub fn btst(bit: u8, value: u32, size: Size, flags: AluFlags) -> (res: AluResult)
        ensures
            res == bit_result(BitOp::Test, bit, value, size, flags),
    {
        Alu::bit_operation(BitOp::Test, bit, value, size, flags)
    }

    /// Tests a bit and sets it.
    pub fn bset(bit: u8, value: u32, size: Size, flags: AluFlags) -> (res: AluResult)
        ensures
            res == bit_result(BitOp::Raise, bit, value, size, flags),
    {
        Alu::bit_operation(BitOp::Raise, bit, value, size, flags)
    }

    /// Tests a bit and clears it.
    pub fn bclr(bit: u8, value: u32, size: Size, flags: AluFlags) -> (res: AluResult)
        ensures
            res == bit_result(BitOp::Clear, bit, value, size, flags),
    {
        Alu::bit_operation(BitOp::Clear, bit, value, size, flags)
    }

    /// Tests a bit and changes it.
    pub fn bchg(bit: u8, value: u32, size: Size, flags: AluFlags) -> (res: AluResult)
        ensures
            res == bit_result(BitOp::Change, bit, value, size, flags),
    {
        Alu::bit_operation(BitOp::Change, bit, value, size, flags)
    }
}

/// A value below two to the width is its own part at that size, and the
/// part of any value at a size is below two to the width.
pub proof fn lemma_masked_small(value: int, size: Size)
    requires
        0 <= value,
    ensures
        0 <= masked(value, size) < size.modulus(),
        value < size.modulus() ==> masked(value, size) == value,
{
}

/// Two to the power of a number up to 32.
pub open spec fn pow2_of(n: int) -> int
    decreases n,
{
    if n <= 0 {
        1
    } else {
        2 * pow2_of(n - 1)
    }
}

/// A number that was halved `steps` times without running out of 32 bits
/// can be halved once more.
proof fn lemma_pow2_step(steps: int, rest: int)
    requires
        0 <= steps <= 32,
        rest > 0,
        rest * pow2_of(steps) <= u32::MAX,
    ensures
        steps < 32,
        (rest / 2) * pow2_of(steps + 1) <= u32::MAX,
        ones(rest as nat) == rest % 2 + ones((rest / 2) as nat),
{
    reveal_with_fuel(pow2_of, 34);
    assert(pow2_of(32) == 0x1_0000_0000);
    if steps == 32 {
        assert(rest * pow2_of(32) >= pow2_of(32)) by (nonlinear_arith)
            requires
                rest >= 1,
                pow2_of(32) > 0,
        ;
    }
    assert(pow2_of(steps + 1) == 2 * pow2_of(steps));
    assert((rest / 2) * (2 * pow2_of(steps)) <= rest * pow2_of(steps)) by (nonlinear_arith)
        requires
            rest > 0,
            pow2_of(steps) > 0,
    ;
    assert(pow2_of(steps) > 0) by {
        lemma_pow2_positive(steps);
    }
}

/// Every power of two is positive.
proof fn lemma_pow2_positive(n: int)
    ensures
        pow2_of(n) > 0,
    decreases n,
{
    if n > 0 {
        lemma_pow2_positive(n - 1);
    }
}

/// The quotient towards zero and its remainder, from the quotient and the
/// remainder of the sizes of dividend and divisor.
proof fn lemma_signed_division(a: int, b: int)
    requires
        b != 0,
    ensures
        ({
            let above = if a < 0 {
                -a
            } else {
                a
            };
            let below = if b < 0 {
                -b
            } else {
                b
            };
            let q = quotient_towards_zero(a, b);
            &&& q == (if (a < 0) != (b < 0) {
                -(above / below)
            } else {
                above / below
            })
            &&& a - q * b == (if a < 0 {
                -(above % below)
            } else {
                above % below
            })
        }),
{
    let above = if a < 0 {
        -a
    } else {
        a
    };
    let below = if b < 0 {
        -b
    } else {
        b
    };
    vstd::arithmetic::div_mod::lemma_fundamental_div_mod(above, below);
    let m = above / below;
    assert(above == below * m + above % below);
    assert((-m) * b == -(m * b)) by (nonlinear_arith);
    assert(m * (-b) == -(m * b)) by (nonlinear_arith);
    assert(below * m == m * below) by (nonlinear_arith);
}

/// A sum without carry that fits the width is the sum of the numbers, and
/// raises neither carry nor extend.
pub proof fn lemma_small_sum(a: u32, b: u32, size: Size)
    requires
        a + b < size.modulus(),
    ensures
        sum_result(a, b, 0, size).value == a + b,
        !sum_result(a, b, 0, size).flags.carry,
        sum_result(a, b, 0, size).flags.zero == (a + b == 0),
{
}

} // verus!
