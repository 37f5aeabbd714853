//! Numbers as text, for the reports that the parts of the processor give of
//! themselves.

use vstd::prelude::*;

verus! {

/// `String::push_str` of the standard library: appends the given text.
pub assume_specification[ String::push_str ](s: &mut String, text: &str)
    ensures
        final(s)@ == old(s)@ + text@,
;

/// `String::push` of the standard library: appends the given character.
pub assume_specification[ String::push ](s: &mut String, c: char)
    ensures
        final(s)@ == old(s)@.push(c),
;

/// The text that `String::from_utf8_lossy` of the standard library makes of
/// bytes: their reading as UTF-8, with the replacement character in the
/// place of each part that is no UTF-8.
pub uninterp spec fn lossy_text(bytes: Seq<u8>) -> Seq<char>;

/// `String::from_utf8_lossy` of the standard library, as an owned string.
/// The result depends on the bytes alone; what it is for given bytes is
/// left to the standard library.
#[verifier::external_body]
pub(crate) fn text_from_utf8_lossy(bytes: &[u8]) -> (s: String)
    ensures
        s@ == lossy_text(bytes@),
{
    String::from_utf8_lossy(bytes).into_owned()
}

/// The character of a digit below 16.
pub open spec fn digit_char(d: int) -> char {
    if d == 0 {
        '0'
    } else if d == 1 {
        '1'
    } else if d == 2 {
        '2'
    } else if d == 3 {
        '3'
    } else if d == 4 {
        '4'
    } else if d == 5 {
        '5'
    } else if d == 6 {
        '6'
    } else if d == 7 {
        '7'
    } else if d == 8 {
        '8'
    } else if d == 9 {
        '9'
    } else if d == 10 {
        'A'
    } else if d == 11 {
        'B'
    } else if d == 12 {
        'C'
    } else if d == 13 {
        'D'
    } else if d == 14 {
        'E'
    } else {
        'F'
    }
}

/// A number in decimal, without leading zeros.
pub open spec fn decimal(n: nat) -> Seq<char>
    decreases n,
{
    if n < 10 {
        seq![digit_char(n as int)]
    } else {
        decimal(n / 10).push(digit_char((n % 10) as int))
    }
}

/// Number of digits of a number in decimal.
pub fn decimal_len(n: u64) -> (len: u128)
    ensures
        len == decimal(n as nat).len(),
        1 <= len <= 20,
    decreases n,
{
    if n >= 10 {
        let rest: u128 = decimal_len(n / 10);
        proof {
            lemma_decimal_bound(n as nat);
        }
        rest + 1
    } else {
        1
    }
}

/// A number below ten to the twentieth has at most twenty digits.
pub proof fn lemma_decimal_bound(n: nat)
    ensures
        n < 10 ==> decimal(n).len() == 1,
        n < 100_000_000_000_000_000_000 ==> decimal(n).len() <= 20,
        decimal(n).len() >= 1,
{
    reveal_with_fuel(ten_to, 22);
    assert(ten_to(20) == 100_000_000_000_000_000_000);
    lemma_decimal_digits(n, 20);
}

/// A number below ten to the power of `digits` has at most `digits`
/// digits.
proof fn lemma_decimal_digits(n: nat, digits: nat)
    requires
        digits >= 1,
    ensures
        n < ten_to(digits) ==> decimal(n).len() <= digits,
        decimal(n).len() >= 1,
    decreases n,
{
    reveal_with_fuel(ten_to, 2);
    if n >= 10 {
        if digits >= 2 {
            lemma_decimal_digits(n / 10, (digits - 1) as nat);
            assert(ten_to(digits) == 10 * ten_to((digits - 1) as nat));
        } else {
            lemma_decimal_digits(n / 10, 1);
            assert(ten_to(1) == 10);
        }
    }
}

/// Ten to a power.
pub open spec fn ten_to(digits: nat) -> nat
    decreases digits,
{
    if digits == 0 {
        1
    } else {
        10 * ten_to((digits - 1) as nat)
    }
}

/// A number in decimal, with a minus sign where it is negative.
pub open spec fn signed_decimal(n: int) -> Seq<char> {
    if n < 0 {
        seq!['-'] + decimal((-n) as nat)
    } else {
        decimal(n as nat)
    }
}

/// The last `width` digits of a number in the given base, leading zeros included.
pub open spec fn fixed_digits(n: nat, base: nat, width: nat) -> Seq<char>
    decreases width,
{
    if width == 0 || base == 0 {
        Seq::empty()
    } else {
        fixed_digits(n / base, base, (width - 1) as nat).push(digit_char((n % base) as int))
    }
}

/// `true` or `false`.
pub open spec fn bool_text(b: bool) -> Seq<char> {
    if b {
        "true"@
    } else {
        "false"@
    }
}

fn digit(d: u64) -> (c: char)
    requires
        d < 16,
    ensures
        c == digit_char(d as int),
{
    if d == 0 {
        '0'
    } else if d == 1 {
        '1'
    } else if d == 2 {
        '2'
    } else if d == 3 {
        '3'
    } else if d == 4 {
        '4'
    } else if d == 5 {
        '5'
    } else if d == 6 {
        '6'
    } else if d == 7 {
        '7'
    } else if d == 8 {
        '8'
    } else if d == 9 {
        '9'
    } else if d == 10 {
        'A'
    } else if d == 11 {
        'B'
    } else if d == 12 {
        'C'
    } else if d == 13 {
        'D'
    } else if d == 14 {
        'E'
    } else {
        'F'
    }
}

/// Appends a number in decimal.
pub fn push_decimal(s: &mut String, n: u64)
    ensures
        final(s)@ == old(s)@ + decimal(n as nat),
    decreases n,
{
    if n >= 10 {
        push_decimal(s, n / 10);
    }
    s.push(digit(n % 10));
    proof {
        if n >= 10 {
            assert(old(s)@ + decimal((n / 10) as nat).push(digit_char((n % 10) as int)) =~= (old(s)@
                + decimal((n / 10) as nat)).push(digit_char((n % 10) as int)));
        } else {
            assert(old(s)@ + seq![digit_char(n as int)] =~= old(s)@.push(digit_char(n as int)));
        }
    }
}

/// Appends a number in decimal, with a minus sign where it is negative.
pub fn push_signed(s: &mut String, n: i64)
    ensures
        final(s)@ == old(s)@ + signed_decimal(n as int),
{
    if n < 0 {
        s.push('-');
        let magnitude: u64 = if n == i64::MIN {
            0x8000_0000_0000_0000
        } else {
            (-n) as u64
        };
        push_decimal(s, magnitude);
        proof {
            assert(old(s)@.push('-') + decimal((-n) as nat) =~= old(s)@ + (seq!['-'] + decimal(
                (-n) as nat,
            )));
        }
    } else {
        push_decimal(s, n as u64);
    }
}

/// Appends the last `width` digits of a number in the base `base`, which is
/// from 2 to 16.
pub fn push_fixed(s: &mut String, n: u64, base: u64, width: u32)
    requires
        2 <= base <= 16,
    ensures
        final(s)@ == old(s)@ + fixed_digits(n as nat, base as nat, width as nat),
    decreases width,
{
    if width == 0 {
        proof {
            assert(old(s)@ + Seq::<char>::empty() =~= old(s)@);
        }
        return ;
    }
    push_fixed(s, n / base, base, width - 1);
    s.push(digit(n % base));
    proof {
        let front = fixed_digits((n / base) as nat, base as nat, (width - 1) as nat);
        let last = digit_char((n % base) as int);
        assert(old(s)@ + front.push(last) =~= (old(s)@ + front).push(last));
    }
}

/// Number of hexadecimal digits of a number below 2^32, at least four.
pub open spec fn hex_width(n: nat) -> nat {
    if n < 0x1_0000 {
        4
    } else if n < 0x10_0000 {
        5
    } else if n < 0x100_0000 {
        6
    } else if n < 0x1000_0000 {
        7
    } else {
        8
    }
}

/// A number in hexadecimal, with leading zeros up to four digits.
pub open spec fn hex4(n: nat) -> Seq<char> {
    fixed_digits(n, 16, hex_width(n))
}

/// Appends a number in hexadecimal, with leading zeros up to four digits.
pub fn push_hex4(s: &mut String, n: u32)
    ensures
        final(s)@ == old(s)@ + hex4(n as nat),
{
    let width: u32 = if n < 0x1_0000 {
        4
    } else if n < 0x10_0000 {
        5
    } else if n < 0x100_0000 {
        6
    } else if n < 0x1000_0000 {
        7
    } else {
        8
    };
    push_fixed(s, n as u64, 16, width);
}

/// A label followed by a number in decimal.
pub fn labelled_number(label: &str, value: u64) -> (s: String)
    ensures
        s@ == label@ + decimal(value as nat),
{
    let mut s = text_of(label);
    push_decimal(&mut s, value);
    s
}

/// A label followed by `true` or `false`.
pub fn labelled_bool(label: &str, value: bool) -> (s: String)
    ensures
        s@ == label@ + bool_text(value),
{
    let mut s = text_of(label);
    push_bool(&mut s, value);
    s
}

/// A label followed by a text.
pub fn labelled_text(label: &str, value: &str) -> (s: String)
    ensures
        s@ == label@ + value@,
{
    let mut s = text_of(label);
    s.push_str(value);
    s
}

/// An owned copy of a text.
pub fn text_of(text: &str) -> (s: String)
    ensures
        s@ == text@,
{
    text.to_owned()
}

/// Appends `true` or `false`.
pub fn push_bool(s: &mut String, b: bool)
    ensures
        final(s)@ == old(s)@ + bool_text(b),
{
    if b {
        s.push_str("true");
    } else {
        s.push_str("false");
    }
}

} // verus!
