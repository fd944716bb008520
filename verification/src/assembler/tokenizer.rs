//! The tokens of the assembly language, and the scanner that finds them in a
//! source text.
//!
//! The scanner takes, at each position, the longest token that begins there.
//! Blanks and comments are passed over. A character with which no token
//! begins becomes an `Error` token of its own.

use crate::common::text::{from_chars, to_chars};
use vstd::prelude::*;

verus! {

/// The kinds of token.
#[derive(Debug, PartialEq, Eq, Clone, Copy, Structural)]
pub enum Token {
    /// `,`
    Comma,
    /// `.int`
    InterruptDefine,
    /// The end of a line.
    NewLine,
    /// `db`
    DefineByte,
    /// `.text`
    TextSection,
    /// `.data`
    DataSection,
    /// Text between two double quotes.
    String,
    /// A dot and letters after it.
    Metadata,
    /// A name and a colon after it.
    Label,
    /// `r` or `R`, and after it a digit from 1 to 6 or one of `pc`, `sp`, `bp`
    /// in small or in capital letters.
    Register,
    /// Decimal digits, or `0x` and hexadecimal digits.
    Number,
    /// `$` and a number after it, whose `0x` may also be `0X`.
    Address,
    /// A letter and one or more letters or digits after it.
    Identifier,
    /// A character with which no token begins.
    Error,
}

/// A token and the text that it was read from.
pub type TokenInfoType = (Token, String);

/// The classes of character that the scanner tells apart.
#[derive(Debug, PartialEq, Eq, Clone, Copy, Structural)]
pub enum CharClass {
    Letter,
    Alphanumeric,
    Digit,
    HexDigit,
    Blank,
    NotQuote,
    NotNewline,
}

/// Whether `c` is a letter of the Latin alphabet.
pub open spec fn is_letter(c: char) -> bool {
    ('a' <= c <= 'z') || ('A' <= c <= 'Z')
}

/// Whether `c` is a decimal digit.
pub open spec fn is_digit(c: char) -> bool {
    '0' <= c <= '9'
}

impl CharClass {
    /// Whether `c` belongs to the class.
    pub open spec fn has(self, c: char) -> bool {
        match self {
            CharClass::Letter => is_letter(c),
            CharClass::Alphanumeric => is_letter(c) || is_digit(c),
            CharClass::Digit => is_digit(c),
            CharClass::HexDigit => is_digit(c) || ('a' <= c <= 'f') || ('A' <= c <= 'F'),
            CharClass::Blank => c == ' ' || c == '\t' || c == '\x0C',
            CharClass::NotQuote => c != '"',
            CharClass::NotNewline => c != '\n',
        }
    }

    /// Whether `c` belongs to the class.
    pub fn contains(self, c: char) -> (inside: bool)
        ensures
            inside == self.has(c),
    {
        let letter = ('a' <= c && c <= 'z') || ('A' <= c && c <= 'Z');
        let digit = '0' <= c && c <= '9';
        match self {
            CharClass::Letter => letter,
            CharClass::Alphanumeric => letter || digit,
            CharClass::Digit => digit,
            CharClass::HexDigit => digit || ('a' <= c && c <= 'f') || ('A' <= c && c <= 'F'),
            CharClass::Blank => c == ' ' || c == '\t' || c == '\x0C',
            CharClass::NotQuote => c != '"',
            CharClass::NotNewline => c != '\n',
        }
    }
}

/// The number of characters of the class that follow each other from
/// position `at` on.
pub open spec fn run(text: Seq<char>, at: int, class: CharClass) -> int
    decreases text.len() - at,
{
    if at < 0 || at >= text.len() || !class.has(text[at]) {
        0
    } else {
        1 + run(text, at + 1, class)
    }
}

/// Whether `word` stands in `text` at position `at`.
pub open spec fn stands_at(text: Seq<char>, at: int, word: Seq<char>) -> bool {
    0 <= at && at + word.len() <= text.len() && text.subrange(at, at + word.len()) == word
}

/// The length of the register name at position `at`; zero where there is
/// none.
pub open spec fn register_length(text: Seq<char>, at: int) -> int {
    if !(0 <= at && at + 1 < text.len() && (text[at] == 'r' || text[at] == 'R')) {
        0
    } else if '1' <= text[at + 1] <= '6' {
        2
    } else if stands_at(text, at + 1, seq!['p', 'c']) || stands_at(text, at + 1, seq!['P', 'C'])
        || stands_at(text, at + 1, seq!['s', 'p']) || stands_at(text, at + 1, seq!['S', 'P'])
        || stands_at(text, at + 1, seq!['b', 'p']) || stands_at(text, at + 1, seq!['B', 'P']) {
        3
    } else {
        0
    }
}

/// The length of the number at position `at`, whose `0x` may be `0X` where
/// `capital` holds; zero where there is none.
pub open spec fn number_length(text: Seq<char>, at: int, capital: bool) -> int {
    if 0 <= at && at + 1 < text.len() && text[at] == '0' && (text[at + 1] == 'x' || (capital
        && text[at + 1] == 'X')) && run(text, at + 2, CharClass::HexDigit) > 0 {
        2 + run(text, at + 2, CharClass::HexDigit)
    } else {
        run(text, at, CharClass::Digit)
    }
}

/// What the scanner finds at one position: a token or something to pass
/// over, and the number of characters that it takes up.
pub struct Scanned {
    pub token: Option<Token>,
    pub length: int,
}

/// What begins with the letter at position `at`.
pub open spec fn scan_word(text: Seq<char>, at: int) -> Scanned {
    let length = run(text, at, CharClass::Alphanumeric);
    if length < 2 {
        Scanned { token: Some(Token::Error), length: 1 }
    } else if at + length < text.len() && text[at + length] == ':' {
        Scanned { token: Some(Token::Label), length: length + 1 }
    } else if length == 2 && stands_at(text, at, seq!['d', 'b']) {
        Scanned { token: Some(Token::DefineByte), length }
    } else if register_length(text, at) == length {
        Scanned { token: Some(Token::Register), length }
    } else {
        Scanned { token: Some(Token::Identifier), length }
    }
}

/// What begins with the dot at position `at`.
pub open spec fn scan_directive(text: Seq<char>, at: int) -> Scanned {
    let length = 1 + run(text, at + 1, CharClass::Letter);
    if length < 2 {
        Scanned { token: Some(Token::Error), length: 1 }
    } else if length == 4 && stands_at(text, at + 1, seq!['i', 'n', 't']) {
        Scanned { token: Some(Token::InterruptDefine), length }
    } else if length == 5 && stands_at(text, at + 1, seq!['t', 'e', 'x', 't']) {
        Scanned { token: Some(Token::TextSection), length }
    } else if length == 5 && stands_at(text, at + 1, seq!['d', 'a', 't', 'a']) {
        Scanned { token: Some(Token::DataSection), length }
    } else {
        Scanned { token: Some(Token::Metadata), length }
    }
}

/// What the scanner finds at position `at`, which lies in the text.
pub open spec fn scan(text: Seq<char>, at: int) -> Scanned {
    let c = text[at];
    if c == ',' {
        Scanned { token: Some(Token::Comma), length: 1 }
    } else if c == '\n' {
        Scanned { token: Some(Token::NewLine), length: 1 }
    } else if CharClass::Blank.has(c) {
        Scanned { token: None, length: run(text, at, CharClass::Blank) }
    } else if c == ';' {
        if run(text, at + 1, CharClass::NotNewline) > 0 {
            Scanned { token: None, length: 1 + run(text, at + 1, CharClass::NotNewline) }
        } else {
            Scanned { token: Some(Token::Error), length: 1 }
        }
    } else if c == '"' {
        let inside = run(text, at + 1, CharClass::NotQuote);
        if at + 1 + inside < text.len() {
            Scanned { token: Some(Token::String), length: inside + 2 }
        } else {
            Scanned { token: Some(Token::Error), length: 1 }
        }
    } else if c == '$' {
        if number_length(text, at + 1, true) > 0 {
            Scanned { token: Some(Token::Address), length: 1 + number_length(text, at + 1, true) }
        } else {
            Scanned { token: Some(Token::Error), length: 1 }
        }
    } else if is_digit(c) {
        Scanned { token: Some(Token::Number), length: number_length(text, at, false) }
    } else if c == '.' {
        scan_directive(text, at)
    } else if is_letter(c) {
        scan_word(text, at)
    } else {
        Scanned { token: Some(Token::Error), length: 1 }
    }
}

/// The tokens of `text` from position `at` on.
pub open spec fn tokens_from(text: Seq<char>, at: int) -> Seq<(Token, Seq<char>)>
    decreases text.len() - at,
{
    if at < 0 || at >= text.len() {
        Seq::empty()
    } else {
        let length = scan(text, at).length;
        if length <= 0 || at + length > text.len() {
            Seq::empty()
        } else {
            let rest = tokens_from(text, at + length);
            match scan(text, at).token {
                Some(token) => seq![(token, text.subrange(at, at + length))] + rest,
                None => rest,
            }
        }
    }
}

/// The tokens of a source text, each with the text that it was read from.
pub open spec fn tokens_of(text: Seq<char>) -> Seq<(Token, Seq<char>)> {
    tokens_from(text, 0)
}

/// A run of a class ends inside the text.
pub proof fn lemma_run_bounds(text: Seq<char>, at: int, class: CharClass)
    requires
        0 <= at <= text.len(),
    ensures
        0 <= run(text, at, class) <= text.len() - at,
    decreases text.len() - at,
{
    if at < text.len() && class.has(text[at]) {
        lemma_run_bounds(text, at + 1, class);
    }
}

/// Counts the characters of a class that follow each other from `at` on.
pub fn scan_run(text: &Vec<char>, at: usize, class: CharClass) -> (length: usize)
    requires
        at <= text.len(),
    ensures
        length == run(text@, at as int, class),
        at + length <= text.len(),
{
    let mut end: usize = at;
    while end < text.len() && class.contains(text[end])
        invariant
            at <= end <= text.len(),
            run(text@, at as int, class) == (end - at) + run(text@, end as int, class),
        decreases text.len() - end,
    {
        end += 1;
    }
    end - at
}

/// Whether the two characters `first` and `second` stand at position `at`.
fn pair_at(text: &Vec<char>, at: usize, first: char, second: char) -> (found: bool)
    ensures
        found == stands_at(text@, at as int, seq![first, second]),
{
    if at < text.len() && text.len() - at >= 2 {
        let found = text[at] == first && text[at + 1] == second;
        proof {
            let part = text@.subrange(at as int, at + 2);
            if found {
                assert(part =~= seq![first, second]);
            } else {
                assert(part[0] == text@[at as int] && part[1] == text@[at + 1]);
            }
        }
        found
    } else {
        false
    }
}

/// Whether `word` stands at position `at`.
fn word_at(text: &Vec<char>, at: usize, word: &Vec<char>) -> (found: bool)
    ensures
        found == stands_at(text@, at as int, word@),
{
    if at > text.len() || text.len() - at < word.len() {
        return false;
    }
    let mut i: usize = 0;
    while i < word.len()
        invariant
            i <= word.len(),
            at + word.len() <= text.len(),
            forall|j: int| 0 <= j < i ==> text@[at + j] == word@[j],
        decreases word.len() - i,
    {
        if text[at + i] != word[i] {
            proof {
                let part = text@.subrange(at as int, at + word.len());
                assert(part[i as int] == text@[at + i]);
            }
            return false;
        }
        i += 1;
    }
    assert(text@.subrange(at as int, at + word.len()) =~= word@);
    true
}

/// The length of the register name at position `at`.
pub fn scan_register(text: &Vec<char>, at: usize) -> (length: usize)
    ensures
        length == register_length(text@, at as int),
{
    if !(at < text.len() && text.len() - at >= 2 && (text[at] == 'r' || text[at] == 'R')) {
        0
    } else if '1' <= text[at + 1] && text[at + 1] <= '6' {
        2
    } else if pair_at(text, at + 1, 'p', 'c') || pair_at(text, at + 1, 'P', 'C') || pair_at(
        text,
        at + 1,
        's',
        'p',
    ) || pair_at(text, at + 1, 'S', 'P') || pair_at(text, at + 1, 'b', 'p') || pair_at(
        text,
        at + 1,
        'B',
        'P',
    ) {
        3
    } else {
        0
    }
}

/// The length of the number at position `at`.
pub fn scan_number(text: &Vec<char>, at: usize, capital: bool) -> (length: usize)
    requires
        at <= text.len(),
    ensures
        length == number_length(text@, at as int, capital),
        at + length <= text.len(),
{
    if at < text.len() && text.len() - at >= 2 && text[at] == '0' && (text[at + 1] == 'x' || (
    capital && text[at + 1] == 'X')) {
        let digits = scan_run(text, at + 2, CharClass::HexDigit);
        if digits > 0 {
            return 2 + digits;
        }
    }
    scan_run(text, at, CharClass::Digit)
}

/// What begins with the letter at position `at`.
fn scan_word_at(text: &Vec<char>, at: usize) -> (found: (Option<Token>, usize))
    requires
        at < text.len(),
    ensures
        found.0 == scan_word(text@, at as int).token,
        found.1 == scan_word(text@, at as int).length,
        0 < found.1 <= text.len() - at,
{
    let length = scan_run(text, at, CharClass::Alphanumeric);
    if length < 2 {
        (Some(Token::Error), 1)
    } else if at + length < text.len() && text[at + length] == ':' {
        (Some(Token::Label), length + 1)
    } else if length == 2 && pair_at(text, at, 'd', 'b') {
        (Some(Token::DefineByte), length)
    } else if scan_register(text, at) == length {
        (Some(Token::Register), length)
    } else {
        (Some(Token::Identifier), length)
    }
}

/// What begins with the dot at position `at`.
fn scan_directive_at(text: &Vec<char>, at: usize) -> (found: (Option<Token>, usize))
    requires
        at < text.len(),
    ensures
        found.0 == scan_directive(text@, at as int).token,
        found.1 == scan_directive(text@, at as int).length,
        0 < found.1 <= text.len() - at,
{
    let length = 1 + scan_run(text, at + 1, CharClass::Letter);
    if length < 2 {
        (Some(Token::Error), 1)
    } else if length == 4 && word_at(text, at + 1, &vec!['i', 'n', 't']) {
        (Some(Token::InterruptDefine), length)
    } else if length == 5 && word_at(text, at + 1, &vec!['t', 'e', 'x', 't']) {
        (Some(Token::TextSection), length)
    } else if length == 5 && word_at(text, at + 1, &vec!['d', 'a', 't', 'a']) {
        (Some(Token::DataSection), length)
    } else {
        (Some(Token::Metadata), length)
    }
}

/// What the scanner finds at position `at`.
pub fn scan_at(text: &Vec<char>, at: usize) -> (found: (Option<Token>, usize))
    requires
        at < text.len(),
    ensures
        found.0 == scan(text@, at as int).token,
        found.1 == scan(text@, at as int).length,
        0 < found.1 <= text.len() - at,
{
    let c = text[at];
    if c == ',' {
        (Some(Token::Comma), 1)
    } else if c == '\n' {
        (Some(Token::NewLine), 1)
    } else if CharClass::Blank.contains(c) {
        assert(run(text@, at as int, CharClass::Blank) > 0) by {
            lemma_run_bounds(text@, at + 1, CharClass::Blank);
        }
        (None, scan_run(text, at, CharClass::Blank))
    } else if c == ';' {
        let rest = scan_run(text, at + 1, CharClass::NotNewline);
        if rest > 0 {
            (None, 1 + rest)
        } else {
            (Some(Token::Error), 1)
        }
    } else if c == '"' {
        let inside = scan_run(text, at + 1, CharClass::NotQuote);
        if at + 1 + inside < text.len() {
            (Some(Token::String), inside + 2)
        } else {
            (Some(Token::Error), 1)
        }
    } else if c == '$' {
        let digits = scan_number(text, at + 1, true);
        if digits > 0 {
            (Some(Token::Address), 1 + digits)
        } else {
            (Some(Token::Error), 1)
        }
    } else if CharClass::Digit.contains(c) {
        assert(run(text@, at as int, CharClass::Digit) > 0) by {
            lemma_run_bounds(text@, at + 1, CharClass::Digit);
        }
        (Some(Token::Number), scan_number(text, at, false))
    } else if c == '.' {
        scan_directive_at(text, at)
    } else if CharClass::Letter.contains(c) {
        scan_word_at(text, at)
    } else {
        (Some(Token::Error), 1)
    }
}

/// The characters of `text` from `from` up to `to`, as a string.
fn slice_text(text: &Vec<char>, from: usize, to: usize) -> (part: String)
    requires
        from <= to <= text.len(),
    ensures
        part@ == text@.subrange(from as int, to as int),
{
    let mut part: Vec<char> = Vec::new();
    let mut i: usize = from;
    while i < to
        invariant
            from <= i <= to <= text.len(),
            part@ =~= text@.subrange(from as int, i as int),
        decreases to - i,
    {
        part.push(text[i]);
        i += 1;
    }
    from_chars(&part)
}

/// The tokens as the contracts see them: each with the characters that it was
/// read from.
pub open spec fn token_views(tokens: Seq<TokenInfoType>) -> Seq<(Token, Seq<char>)> {
    Seq::new(tokens.len(), |i: int| (tokens[i].0, tokens[i].1@))
}

/// Scans a source text into its tokens, in the order in which they stand.
pub fn tokenize(source: &str) -> (tokens: Vec<TokenInfoType>)
    ensures
        token_views(tokens@) == tokens_of(source@),
{
    let text = to_chars(source);
    let mut tokens: Vec<TokenInfoType> = Vec::new();
    let mut at: usize = 0;
    while at < text.len()
        invariant
            at <= text.len(),
            text@ == source@,
            tokens_of(text@) =~= token_views(tokens@) + tokens_from(text@, at as int),
        decreases text.len() - at,
    {
        let (token, length) = scan_at(&text, at);
        let ghost before = token_views(tokens@);
        match token {
            Some(token) => {
                let lexeme = slice_text(&text, at, at + length);
                tokens.push((token, lexeme));
                assert(token_views(tokens@) =~= before.push(
                    (token, text@.subrange(at as int, at + length)),
                ));
            },
            None => {},
        }
        at += length;
    }
    tokens
}

} // verus!
