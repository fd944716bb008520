//! Numbers written out in hexadecimal and in decimal digits.

use vstd::prelude::*;

verus! {

/// The hexadecimal digit of a number below sixteen, in capital letters.
pub open spec fn hex_digit(value: int) -> char {
    if value < 10 {
        (value + '0' as int) as char
    } else {
        (value - 10 + 'A' as int) as char
    }
}

/// The last `digits` hexadecimal digits of `value`, in capital letters.
pub open spec fn hex_text(value: int, digits: nat) -> Seq<char>
    decreases digits,
{
    if digits == 0 {
        Seq::empty()
    } else {
        hex_text(value / 16, (digits - 1) as nat).push(hex_digit(value % 16))
    }
}

/// The decimal digits of `value`, without zeros before them.
pub open spec fn decimal_text(value: int) -> Seq<char>
    decreases value,
{
    if value < 10 {
        seq![(value + '0' as int) as char]
    } else {
        decimal_text(value / 10).push((value % 10 + '0' as int) as char)
    }
}

/// A number that can be written out in hexadecimal digits.
pub trait Hex {
    /// The number of hexadecimal digits of the type.
    spec fn digits() -> nat;

    /// The number as an integer.
    spec fn value(&self) -> int;

    /// The number in all the hexadecimal digits of its type, in capital
    /// letters.
    fn to_hex_string(&self) -> (text: String)
        ensures
            text@ == hex_text(self.value(), Self::digits()),
    ;
}

/// The hexadecimal digit of a number below sixteen.
pub fn to_hex_digit(value: u8) -> (digit: char)
    requires
        value < 16,
    ensures
        digit == hex_digit(value as int),
{
    if value < 10 {
        (value + 48) as char
    } else {
        (value - 10 + 65) as char
    }
}

impl Hex for u8 {
    open spec fn digits() -> nat {
        2
    }

    open spec fn value(&self) -> int {
        *self as int
    }

    fn to_hex_string(&self) -> (text: String) {
        let mut text = String::new();
        text.push(to_hex_digit(*self / 16));
        text.push(to_hex_digit(*self % 16));
        proof {
            reveal_with_fuel(hex_text, 3);
            assert(text@ =~= hex_text(*self as int, 2));
        }
        text
    }
}

impl Hex for u16 {
    open spec fn digits() -> nat {
        4
    }

    open spec fn value(&self) -> int {
        *self as int
    }

    fn to_hex_string(&self) -> (text: String) {
        let mut text = String::new();
        text.push(to_hex_digit((*self / 4096) as u8));
        text.push(to_hex_digit(((*self / 256) % 16) as u8));
        text.push(to_hex_digit(((*self / 16) % 16) as u8));
        text.push(to_hex_digit((*self % 16) as u8));
        proof {
            reveal_with_fuel(hex_text, 5);
            let v = *self as int;
            assert(v / 16 / 16 == v / 256);
            assert(v / 16 / 16 / 16 == v / 4096);
            assert((v / 4096) % 16 == v / 4096);
            assert(text@ =~= hex_text(v, 4));
        }
        text
    }
}

/// The decimal digits of `value`.
pub fn to_decimal(value: u16) -> (text: String)
    ensures
        text@ == decimal_text(value as int),
{
    let mut digits: Vec<char> = Vec::new();
    let mut rest = value;
    // the digits from the last to the first
    loop
        invariant_except_break
            decimal_text(value as int) == decimal_text(rest as int) + digits@.reverse(),
        ensures
            decimal_text(value as int) == digits@.reverse(),
        decreases rest,
    {
        let digit = ((rest % 10) as u8 + 48) as char;
        let ghost before = digits@;
        digits.push(digit);
        assert(digits@.reverse() =~= seq![digit] + before.reverse());
        if rest < 10 {
            assert(decimal_text(rest as int) =~= seq![digit]);
            break ;
        }
        assert(decimal_text(rest as int) =~= decimal_text(rest as int / 10).push(digit));
        rest = rest / 10;
    }
    let mut text = String::new();
    let mut i: usize = digits.len();
    while i > 0
        invariant
            i <= digits.len(),
            text@ =~= digits@.reverse().take(digits.len() - i),
        decreases i,
    {
        i -= 1;
        text.push(digits[i]);
    }
    assert(digits@.reverse().take(digits.len() as int) =~= digits@.reverse());
    text
}

} // verus!
