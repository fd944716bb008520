//! Text as sequences of characters, and the numbers that it spells.

use regex::Regex;
use vstd::prelude::*;

verus! {

/// `String::push` appends one character.
pub assume_specification[ std::string::String::push ](text: &mut std::string::String, ch: char)
    ensures
        final(text)@ == old(text)@.push(ch),
;

/// The characters of `text`.
pub fn to_chars(text: &str) -> (chars: Vec<char>)
    ensures
        chars@ == text@,
{
    let mut chars: Vec<char> = Vec::new();
    for c in it: text.chars()
        invariant
            chars@ == it.history(),
            it.seq() == text@,
    {
        chars.push(c);
    }
    chars
}

/// The text that `chars` spell.
pub fn from_chars(chars: &Vec<char>) -> (text: String)
    ensures
        text@ == chars@,
{
    let mut text = String::new();
    let mut i: usize = 0;
    while i < chars.len()
        invariant
            i <= chars.len(),
            text@ == chars@.take(i as int),
        decreases chars.len() - i,
    {
        text.push(chars[i]);
        assert(chars@.take(i + 1) == chars@.take(i as int).push(chars@[i as int]));
        i += 1;
    }
    assert(chars@.take(chars.len() as int) == chars@);
    text
}

/// A capital letter of the Latin alphabet as a small one; any other character
/// as it is.
pub open spec fn lower_char(c: char) -> char {
    if 'A' <= c <= 'Z' {
        ((c as u8) + 32) as char
    } else {
        c
    }
}

/// `text` with its capital Latin letters made small.
pub open spec fn lowered(text: Seq<char>) -> Seq<char> {
    Seq::new(text.len(), |i: int| lower_char(text[i]))
}

/// `text` without the character `c`, wherever it stands.
pub open spec fn without(text: Seq<char>, c: char) -> Seq<char>
    decreases text.len(),
{
    if text.len() == 0 {
        text
    } else if text.last() == c {
        without(text.drop_last(), c)
    } else {
        without(text.drop_last(), c).push(text.last())
    }
}

/// A capital letter of the Latin alphabet as a small one.
pub fn to_lower_char(c: char) -> (small: char)
    ensures
        small == lower_char(c),
{
    if 'A' <= c && c <= 'Z' {
        ((c as u8) + 32) as char
    } else {
        c
    }
}

/// `text` with its capital Latin letters made small.
pub fn to_lower(text: &Vec<char>) -> (small: Vec<char>)
    ensures
        small@ == lowered(text@),
{
    let mut small: Vec<char> = Vec::new();
    let mut i: usize = 0;
    while i < text.len()
        invariant
            i <= text.len(),
            small@ =~= lowered(text@.take(i as int)),
        decreases text.len() - i,
    {
        small.push(to_lower_char(text[i]));
        i += 1;
    }
    assert(text@.take(text.len() as int) == text@);
    small
}

/// `text` without the character `c`, wherever it stands.
pub fn remove_char(text: &Vec<char>, c: char) -> (rest: Vec<char>)
    ensures
        rest@ == without(text@, c),
{
    let mut rest: Vec<char> = Vec::new();
    let mut i: usize = 0;
    while i < text.len()
        invariant
            i <= text.len(),
            rest@ == without(text@.take(i as int), c),
        decreases text.len() - i,
    {
        proof {
            let next = text@.take(i + 1);
            assert(next.drop_last() == text@.take(i as int));
            assert(next.last() == text@[i as int]);
        }
        if text[i] != c {
            rest.push(text[i]);
        }
        i += 1;
    }
    assert(text@.take(text.len() as int) == text@);
    rest
}

/// The pieces of `text` between the characters `sep`: one more than there are
/// such characters, and empty where two of them follow each other or one
/// stands at an end.
pub open spec fn split(text: Seq<char>, sep: char) -> Seq<Seq<char>>
    decreases text.len(),
{
    if text.len() == 0 {
        seq![Seq::<char>::empty()]
    } else {
        let before = split(text.drop_last(), sep);
        if text.last() == sep {
            before.push(Seq::<char>::empty())
        } else {
            before.drop_last().push(before.last().push(text.last()))
        }
    }
}

/// A split yields at least one piece.
pub proof fn lemma_split_has_a_piece(text: Seq<char>, sep: char)
    ensures
        split(text, sep).len() >= 1,
    decreases text.len(),
{
    if text.len() > 0 {
        lemma_split_has_a_piece(text.drop_last(), sep);
    }
}

/// The texts that `strings` spell.
pub open spec fn spelled(strings: Seq<String>) -> Seq<Seq<char>> {
    Seq::new(strings.len(), |i: int| strings[i]@)
}

/// The pieces of `text` between the characters `sep`.
pub fn split_text(text: &Vec<char>, sep: char) -> (pieces: Vec<String>)
    ensures
        spelled(pieces@) == split(text@, sep),
        pieces.len() >= 1,
{
    let mut pieces: Vec<String> = Vec::new();
    let mut current: Vec<char> = Vec::new();
    let mut i: usize = 0;
    while i < text.len()
        invariant
            i <= text.len(),
            spelled(pieces@).push(current@) == split(text@.take(i as int), sep),
        decreases text.len() - i,
    {
        proof {
            let next = text@.take(i + 1);
            assert(next.drop_last() == text@.take(i as int));
            assert(next.last() == text@[i as int]);
            assert(spelled(pieces@).push(current@).drop_last() =~= spelled(pieces@));
        }
        let ghost before = spelled(pieces@);
        if text[i] == sep {
            let ghost piece = current@;
            pieces.push(from_chars(&current));
            current = Vec::new();
            assert(spelled(pieces@) =~= before.push(piece));
        } else {
            current.push(text[i]);
        }
        i += 1;
    }
    assert(text@.take(text.len() as int) == text@);
    let ghost before = spelled(pieces@);
    let ghost piece = current@;
    pieces.push(from_chars(&current));
    assert(spelled(pieces@) =~= before.push(piece));
    pieces
}

/// The value of a digit in the base `radix`, which is ten or sixteen: `0` to
/// `9`, and in base sixteen also `a` to `f` and `A` to `F`.
pub open spec fn digit_of(c: char, radix: int) -> Option<int> {
    if '0' <= c <= '9' {
        Some(c as int - '0' as int)
    } else if radix == 16 && 'a' <= c <= 'f' {
        Some(c as int - 'a' as int + 10)
    } else if radix == 16 && 'A' <= c <= 'F' {
        Some(c as int - 'A' as int + 10)
    } else {
        None
    }
}

/// The number that `digits` spell in the base `radix`; `None` where there is
/// no digit at all, or a character that is no digit.
pub open spec fn number_value(digits: Seq<char>, radix: int) -> Option<int>
    decreases digits.len(),
{
    if digits.len() == 0 {
        None
    } else if digits.len() == 1 {
        digit_of(digits[0], radix)
    } else {
        match (number_value(digits.drop_last(), radix), digit_of(digits.last(), radix)) {
            (Some(high), Some(low)) => Some(high * radix + low),
            _ => None,
        }
    }
}

/// `value` where it is a number up to `max`.
pub open spec fn up_to(value: Option<int>, max: int) -> Option<int> {
    match value {
        Some(number) => if number <= max {
            Some(number)
        } else {
            None
        },
        None => None,
    }
}

/// Whether `text` is a hexadecimal literal: `0x` or `0X` and at least one
/// hexadecimal digit after it, and nothing else.
pub open spec fn is_hex_literal(text: Seq<char>) -> bool {
    &&& text.len() >= 3
    &&& text[0] == '0'
    &&& (text[1] == 'x' || text[1] == 'X')
    &&& forall|i: int| 2 <= i < text.len() ==> digit_of(#[trigger] text[i], 16) is Some
}

/// The number that a numeric literal spells, where it is one up to `max`. A
/// hexadecimal literal spells the number of the digits after its `0x`. Any
/// other text is read as a decimal number: digits, with or without a `+`
/// before them.
pub open spec fn literal_value(text: Seq<char>, max: int) -> Option<int> {
    if is_hex_literal(text) {
        up_to(number_value(text.skip(2), 16), max)
    } else if text.len() > 0 && text[0] == '+' {
        up_to(number_value(text.skip(1), 10), max)
    } else {
        up_to(number_value(text, 10), max)
    }
}

/// The value of a digit in the base `radix`.
pub fn digit(c: char, radix: u32) -> (value: Option<u32>)
    requires
        radix == 10 || radix == 16,
    ensures
        match value {
            Some(number) => digit_of(c, radix as int) == Some(number as int) && number < radix,
            None => digit_of(c, radix as int) is None,
        },
{
    if '0' <= c && c <= '9' {
        Some((c as u32) - ('0' as u32))
    } else if radix == 16 && 'a' <= c && c <= 'f' {
        Some((c as u32) - ('a' as u32) + 10)
    } else if radix == 16 && 'A' <= c && c <= 'F' {
        Some((c as u32) - ('A' as u32) + 10)
    } else {
        None
    }
}

/// Every beginning of a run of digits is a run of digits, and spells no more
/// than the whole run.
pub proof fn lemma_number_prefix(digits: Seq<char>, radix: int, upto: int)
    requires
        radix == 10 || radix == 16,
        1 <= upto <= digits.len(),
        number_value(digits, radix) is Some,
    ensures
        number_value(digits.take(upto), radix) is Some,
        0 <= number_value(digits.take(upto), radix).unwrap() <= number_value(
            digits,
            radix,
        ).unwrap(),
    decreases digits.len(),
{
    if upto == digits.len() {
        assert(digits.take(upto) == digits);
        lemma_number_not_negative(digits, radix);
    } else {
        lemma_number_prefix(digits.drop_last(), radix, upto);
        assert(digits.drop_last().take(upto) == digits.take(upto));
        let high = number_value(digits.drop_last(), radix).unwrap();
        lemma_number_not_negative(digits.drop_last(), radix);
        assert(high * radix >= high) by (nonlinear_arith)
            requires
                high >= 0,
                radix >= 1,
        ;
    }
}

/// A run of digits spells no negative number.
pub proof fn lemma_number_not_negative(digits: Seq<char>, radix: int)
    requires
        radix == 10 || radix == 16,
        number_value(digits, radix) is Some,
    ensures
        number_value(digits, radix).unwrap() >= 0,
    decreases digits.len(),
{
    if digits.len() > 1 {
        lemma_number_not_negative(digits.drop_last(), radix);
        let high = number_value(digits.drop_last(), radix).unwrap();
        assert(high * radix >= 0) by (nonlinear_arith)
            requires
                high >= 0,
                radix >= 1,
        ;
    }
}

/// The number that the characters of `text` from position `from` on spell in
/// the base `radix`, where it is one up to `max`.
pub fn parse_number(text: &Vec<char>, from: usize, radix: u32, max: u32) -> (value: Option<u32>)
    requires
        radix == 10 || radix == 16,
        from <= text.len(),
    ensures
        match value {
            Some(number) => up_to(number_value(text@.skip(from as int), radix as int), max as int)
                == Some(number as int),
            None => up_to(number_value(text@.skip(from as int), radix as int), max as int) is None,
        },
{
    let ghost digits = text@.skip(from as int);
    if from == text.len() {
        return None;
    }
    let mut total: u64 = 0;
    let mut i: usize = from;
    while i < text.len()
        invariant
            from <= i <= text.len(),
            from < text.len(),
            radix == 10 || radix == 16,
            digits == text@.skip(from as int),
            total <= max,
            i > from ==> number_value(digits.take(i - from), radix as int) == Some(total as int),
            i == from ==> total == 0,
        decreases text.len() - i,
    {
        let ghost seen = digits.take(i - from + 1);
        proof {
            assert(seen.drop_last() == digits.take(i - from));
            assert(seen.last() == text@[i as int]);
        }
        match digit(text[i], radix) {
            None => {
                proof {
                    if number_value(digits, radix as int) is Some {
                        lemma_number_prefix(digits, radix as int, i - from + 1);
                    }
                }
                return None;
            },
            Some(value) => {
                let next = total * (radix as u64) + value as u64;
                proof {
                    assert(total * radix <= 0xFFFF_FFFF * 16) by (nonlinear_arith)
                        requires
                            total <= 0xFFFF_FFFF,
                            radix <= 16,
                    ;
                    assert(number_value(seen, radix as int) == Some(next as int));
                }
                if next > max as u64 {
                    proof {
                        if number_value(digits, radix as int) is Some {
                            lemma_number_prefix(digits, radix as int, i - from + 1);
                        }
                    }
                    return None;
                }
                total = next;
            },
        }
        i += 1;
    }
    proof {
        assert(digits.take(text.len() - from) == digits);
    }
    Some(total as u32)
}

/// Whether `text` matches `pattern`, the one pattern that this library asks
/// for: the pattern of a hexadecimal literal. Compiles the pattern with
/// `regex::Regex::new` and tests the text with `Regex::is_match`. The pattern
/// is anchored at both ends, so the whole text must be `0`, then `x` or `X`,
/// then one or more of the characters `0` to `9`, `A` to `F` and `a` to `f`.
#[verifier::external_body]
fn matches_hex_pattern(pattern: &str, text: &str) -> (matched: bool)
    requires
        pattern@ == "^0[xX][0-9A-Fa-f]+$"@,
    ensures
        matched == is_hex_literal(text@),
{
    match Regex::new(pattern) {
        Ok(regex) => regex.is_match(text),
        Err(_) => false,
    }
}

/// The number that a numeric literal spells, where it is one up to `max`.
pub fn parse_literal(text: &str, max: u32) -> (value: Option<u32>)
    ensures
        match value {
            Some(number) => literal_value(text@, max as int) == Some(number as int),
            None => literal_value(text@, max as int) is None,
        },
{
    let chars = to_chars(text);
    assert(chars@.skip(0) == chars@);
    if matches_hex_pattern("^0[xX][0-9A-Fa-f]+$", text) {
        parse_number(&chars, 2, 16, max)
    } else if chars.len() > 0 && chars[0] == '+' {
        parse_number(&chars, 1, 10, max)
    } else {
        parse_number(&chars, 0, 10, max)
    }
}

} // verus!
