//! The fixed-width assembler: from the lines of a source to an image of four
//! bytes for each instruction.
//!
//! A source is a directive `.main` with the name of the label at which the
//! program begins, a section `.data` of labels with one `DAT` each, and a
//! section `.text` of labels with instructions. A label is written `@name:`.

use super::label::{no_label, Label, LabelModel, LabelType};
use super::token::{texts, Token, TokenModel};
use super::vcpu::InstructionWord;
use crate::common::instruction::Instruction;
use crate::common::text::{
    from_chars, literal_value, parse_literal, remove_char, split, split_text, to_chars, without,
};
use regex::Regex;
use vstd::prelude::*;

verus! {

/// Why a source is no program.
#[derive(Debug, Clone, Copy, PartialEq, Eq, Structural)]
pub enum AsmError {
    /// `.main` without the name of a label.
    MissingStartLabel,
    /// A line of a section that begins with a blank.
    MalformedLine,
    /// No label has the name that `.main` gives, or there is no `.main`.
    NoStartLabel,
    /// A program without instructions.
    NoTextTokens,
    /// A line of the data section that does not begin with `DAT`.
    InvalidDataInstruction,
    /// A `DAT` with no text or more than one.
    InvalidDataArguments,
    /// A data label with two `DAT`.
    DuplicateDataLabel,
    /// An instruction with too few operands.
    MissingArgument,
    /// An operand that is empty.
    EmptyArgument,
    /// Something that is no register where a register must stand.
    InvalidRegister,
    /// A register `R0`, or one above `R6`.
    RegisterOutOfRange,
    /// Something that is no number up to 65535 where a number must stand.
    InvalidNumber,
    /// An operand that names a label that does not exist.
    UndefinedLabel,
    /// An operand of a kind that the instruction does not take.
    InvalidOperand,
    /// A `POP` with more than one operand.
    TooManyArguments,
    /// The data or the text goes past what a sixteen-bit address reaches.
    ProgramTooLarge,
    /// The pattern for numbers could not be compiled.
    PatternRejected,
}

/// The mnemonics of the fixed-width assembler.
#[allow(clippy::upper_case_acronyms)]
#[derive(Debug, Clone, Copy, PartialEq, Eq, Structural)]
pub enum Mnemonic {
    LD,
    MOV,
    PSH,
    POP,
    LDS,
    ST,
    STL,
    STH,
    CMP,
    BEQ,
    BGT,
    BLT,
    JMP,
    BOF,
    BNE,
    ADD,
    SUB,
    CALL,
    RET,
    HLT,
    NOP,
}

impl Mnemonic {
    /// The mnemonic as it is written, in capital letters.
    pub open spec fn spelling(self) -> Seq<char> {
        match self {
            Mnemonic::LD => seq!['L', 'D'],
            Mnemonic::MOV => seq!['M', 'O', 'V'],
            Mnemonic::PSH => seq!['P', 'S', 'H'],
            Mnemonic::POP => seq!['P', 'O', 'P'],
            Mnemonic::LDS => seq!['L', 'D', 'S'],
            Mnemonic::ST => seq!['S', 'T'],
            Mnemonic::STL => seq!['S', 'T', 'L'],
            Mnemonic::STH => seq!['S', 'T', 'H'],
            Mnemonic::CMP => seq!['C', 'M', 'P'],
            Mnemonic::BEQ => seq!['B', 'E', 'Q'],
            Mnemonic::BGT => seq!['B', 'G', 'T'],
            Mnemonic::BLT => seq!['B', 'L', 'T'],
            Mnemonic::JMP => seq!['J', 'M', 'P'],
            Mnemonic::BOF => seq!['B', 'O', 'F'],
            Mnemonic::BNE => seq!['B', 'N', 'E'],
            Mnemonic::ADD => seq!['A', 'D', 'D'],
            Mnemonic::SUB => seq!['S', 'U', 'B'],
            Mnemonic::CALL => seq!['C', 'A', 'L', 'L'],
            Mnemonic::RET => seq!['R', 'E', 'T'],
            Mnemonic::HLT => seq!['H', 'L', 'T'],
            Mnemonic::NOP => seq!['N', 'O', 'P'],
        }
    }

    /// The mnemonic as it is written, in capital letters.
    pub fn name(self) -> (name: Vec<char>)
        ensures
            name@ == self.spelling(),
    {
        let name = match self {
            Mnemonic::LD => vec!['L', 'D'],
            Mnemonic::MOV => vec!['M', 'O', 'V'],
            Mnemonic::PSH => vec!['P', 'S', 'H'],
            Mnemonic::POP => vec!['P', 'O', 'P'],
            Mnemonic::LDS => vec!['L', 'D', 'S'],
            Mnemonic::ST => vec!['S', 'T'],
            Mnemonic::STL => vec!['S', 'T', 'L'],
            Mnemonic::STH => vec!['S', 'T', 'H'],
            Mnemonic::CMP => vec!['C', 'M', 'P'],
            Mnemonic::BEQ => vec!['B', 'E', 'Q'],
            Mnemonic::BGT => vec!['B', 'G', 'T'],
            Mnemonic::BLT => vec!['B', 'L', 'T'],
            Mnemonic::JMP => vec!['J', 'M', 'P'],
            Mnemonic::BOF => vec!['B', 'O', 'F'],
            Mnemonic::BNE => vec!['B', 'N', 'E'],
            Mnemonic::ADD => vec!['A', 'D', 'D'],
            Mnemonic::SUB => vec!['S', 'U', 'B'],
            Mnemonic::CALL => vec!['C', 'A', 'L', 'L'],
            Mnemonic::RET => vec!['R', 'E', 'T'],
            Mnemonic::HLT => vec!['H', 'L', 'T'],
            Mnemonic::NOP => vec!['N', 'O', 'P'],
        };
        assert(name@ =~= self.spelling());
        name
    }
}

/// The mnemonics in the order in which the assembler knows them.
pub open spec fn mnemonics() -> Seq<Mnemonic> {
    seq![
        Mnemonic::LD,
        Mnemonic::MOV,
        Mnemonic::PSH,
        Mnemonic::POP,
        Mnemonic::LDS,
        Mnemonic::ST,
        Mnemonic::STL,
        Mnemonic::STH,
        Mnemonic::CMP,
        Mnemonic::BEQ,
        Mnemonic::BGT,
        Mnemonic::BLT,
        Mnemonic::JMP,
        Mnemonic::BOF,
        Mnemonic::BNE,
        Mnemonic::ADD,
        Mnemonic::SUB,
        Mnemonic::CALL,
        Mnemonic::RET,
        Mnemonic::HLT,
        Mnemonic::NOP,
    ]
}

/// The first of the mnemonics from position `from` on that is written
/// `name`.
pub open spec fn mnemonic_from(name: Seq<char>, from: int) -> Option<Mnemonic>
    decreases mnemonics().len() - from,
{
    if from < 0 || from >= mnemonics().len() {
        None
    } else if mnemonics()[from].spelling() == name {
        Some(mnemonics()[from])
    } else {
        mnemonic_from(name, from + 1)
    }
}

/// The mnemonic that is written `name`.
pub open spec fn mnemonic_of(name: Seq<char>) -> Option<Mnemonic> {
    mnemonic_from(name, 0)
}

/// The labels of a program.
pub struct AssemblerLabels {
    pub data_labels: Vec<Label>,
    pub text_labels: Vec<Label>,
}

/// The labels of a program as values.
pub struct LabelsModel {
    pub data: Seq<LabelModel>,
    pub text: Seq<LabelModel>,
}

/// The labels as values.
pub open spec fn label_models(labels: Seq<Label>) -> Seq<LabelModel> {
    Seq::new(labels.len(), |i: int| labels[i]@)
}

impl View for AssemblerLabels {
    type V = LabelsModel;

    open spec fn view(&self) -> LabelsModel {
        LabelsModel {
            data: label_models(self.data_labels@),
            text: label_models(self.text_labels@),
        }
    }
}

/// The position of the first label from position `from` on with the name
/// `name`.
pub open spec fn label_index(labels: Seq<LabelModel>, name: Seq<char>, from: int) -> Option<int>
    decreases labels.len() - from,
{
    if from < 0 || from >= labels.len() {
        None
    } else if labels[from].name == name {
        Some(from)
    } else {
        label_index(labels, name, from + 1)
    }
}

/// The label with the name `name`: the first data label of that name, else
/// the first text label of that name, else the label that stands for "not
/// found".
pub open spec fn found_label(labels: LabelsModel, name: Seq<char>) -> LabelModel {
    match label_index(labels.data, name, 0) {
        Some(at) => labels.data[at],
        None => match label_index(labels.text, name, 0) {
            Some(at) => labels.text[at],
            None => no_label(),
        },
    }
}

/// The number of the register that `text` names: `RPC` is 6, `RSP` 7, `RBP`
/// 8, and `R1` to `R6` are 0 to 5. Of a text that begins with `R` and a
/// digit, what follows the digit does not count.
pub open spec fn register_of(text: Seq<char>) -> Result<u8, AsmError> {
    if text == seq!['R', 'P', 'C'] {
        Ok(6u8)
    } else if text == seq!['R', 'S', 'P'] {
        Ok(7u8)
    } else if text == seq!['R', 'B', 'P'] {
        Ok(8u8)
    } else if text.len() < 2 || text[0] != 'R' || !('0' <= text[1] <= '9') {
        Err(AsmError::InvalidRegister)
    } else if text[1] == '0' || text[1] > '6' {
        Err(AsmError::RegisterOutOfRange)
    } else {
        Ok((text[1] as int - '1' as int) as u8)
    }
}

/// The number up to 65535 that `text` spells.
pub open spec fn value_of(text: Seq<char>) -> Result<u16, AsmError> {
    match literal_value(text, 0xFFFF) {
        Some(number) => Ok(number as u16),
        None => Err(AsmError::InvalidNumber),
    }
}

/// The operand with the number `i` of a token.
pub open spec fn arg(token: TokenModel, i: int) -> Result<Seq<char>, AsmError> {
    if 0 <= i < token.args.len() {
        Ok(token.args[i])
    } else {
        Err(AsmError::MissingArgument)
    }
}

/// An instruction as a value.
pub open spec fn word(opcode: u8, register: u8, data: u16) -> InstructionWord {
    InstructionWord { opcode, register, data }
}

/// An instruction whose second operand is a register, with the opcode
/// `with_register`, or a number, with the opcode `with_value`.
pub open spec fn register_or_value(token: TokenModel, with_register: u8, with_value: u8) -> Result<
    InstructionWord,
    AsmError,
> {
    match (arg(token, 0), arg(token, 1)) {
        (Err(error), _) => Err(error),
        (Ok(first), second) => match register_of(first) {
            Err(error) => Err(error),
            Ok(reg) => match second {
                Err(error) => Err(error),
                Ok(second) => if second.len() == 0 {
                    Err(AsmError::EmptyArgument)
                } else if second[0] == 'R' {
                    match register_of(second) {
                        Ok(reg2) => Ok(word(with_register, reg, reg2 as u16)),
                        Err(error) => Err(error),
                    }
                } else {
                    match value_of(second) {
                        Ok(value) => Ok(word(with_value, reg, value)),
                        Err(error) => Err(error),
                    }
                },
            },
        },
    }
}

/// An instruction whose second operand is an address, written with `$` and
/// with the opcode `with_address`, or a register, with the opcode
/// `with_register`.
pub open spec fn address_or_register(token: TokenModel, with_address: u8, with_register: u8) -> Result<
    InstructionWord,
    AsmError,
> {
    match (arg(token, 0), arg(token, 1)) {
        (Err(error), _) => Err(error),
        (Ok(first), second) => match register_of(first) {
            Err(error) => Err(error),
            Ok(reg) => match second {
                Err(error) => Err(error),
                Ok(second) => if second.len() == 0 {
                    Err(AsmError::EmptyArgument)
                } else if second[0] == '$' {
                    match value_of(without(second, '$')) {
                        Ok(value) => Ok(word(with_address, reg, value)),
                        Err(error) => Err(error),
                    }
                } else if second[0] == 'R' {
                    match register_of(second) {
                        Ok(reg2) => Ok(word(with_register, reg, reg2 as u16)),
                        Err(error) => Err(error),
                    }
                } else {
                    Err(AsmError::InvalidOperand)
                },
            },
        },
    }
}

/// An instruction whose only operand is the name of a label.
pub open spec fn label_jump(labels: LabelsModel, token: TokenModel, opcode: u8) -> Result<
    InstructionWord,
    AsmError,
> {
    match arg(token, 0) {
        Err(error) => Err(error),
        Ok(name) => if found_label(labels, name).l_type != LabelType::Unset {
            Ok(word(opcode, 0, found_label(labels, name).addr))
        } else {
            Err(AsmError::UndefinedLabel)
        },
    }
}

/// PSH: of an address, written with `$`, with the opcode 0x05; of a register
/// with 0x04; of a number with 0x03.
pub open spec fn inst_psh_of(token: TokenModel) -> Result<InstructionWord, AsmError> {
    match arg(token, 0) {
        Err(error) => Err(error),
        Ok(first) => if first.len() == 0 {
            Err(AsmError::EmptyArgument)
        } else if first[0] == '$' {
            match value_of(without(first, '$')) {
                Ok(value) => Ok(word(0x05, 0, value)),
                Err(error) => Err(error),
            }
        } else if first[0] == 'R' {
            match register_of(first) {
                Ok(reg) => Ok(word(0x04, reg, 0)),
                Err(error) => Err(error),
            }
        } else {
            match value_of(first) {
                Ok(value) => Ok(word(0x03, 0, value)),
                Err(error) => Err(error),
            }
        },
    }
}

/// POP: into a register with the opcode 0x06; without an operand with 0x07.
pub open spec fn inst_pop_of(token: TokenModel) -> Result<InstructionWord, AsmError> {
    if token.args.len() == 1 {
        match register_of(token.args[0]) {
            Ok(reg) => Ok(word(0x06, reg, 0)),
            Err(error) => Err(error),
        }
    } else if token.args.len() == 0 {
        Ok(word(0x07, 0, 0))
    } else {
        Err(AsmError::TooManyArguments)
    }
}

/// LDS: a register and an address, written with `$`; the opcode 0x08.
pub open spec fn inst_lds_of(token: TokenModel) -> Result<InstructionWord, AsmError> {
    match (arg(token, 0), arg(token, 1)) {
        (Err(error), _) => Err(error),
        (Ok(first), second) => match register_of(first) {
            Err(error) => Err(error),
            Ok(reg) => match second {
                Err(error) => Err(error),
                Ok(second) => if second.len() == 0 {
                    Err(AsmError::EmptyArgument)
                } else if second[0] == '$' {
                    match value_of(without(second, '$')) {
                        Ok(value) => Ok(word(0x08, reg, value)),
                        Err(error) => Err(error),
                    }
                } else {
                    Err(AsmError::InvalidOperand)
                },
            },
        },
    }
}

/// LD: a register, and an address written with `$` or the name of a label,
/// with the opcode 0x02, or a register, with the opcode 0x01. `plain` is the
/// second operand with its first run of digits taken out, where that run is
/// the whole operand, else the operand as it is: an operand is a name unless
/// it begins with `0x` or nothing is left of it.
pub open spec fn inst_ld_with(
    labels: LabelsModel,
    token: TokenModel,
    plain: Option<Seq<char>>,
) -> Result<InstructionWord, AsmError> {
    match (arg(token, 0), arg(token, 1)) {
        (Err(error), _) => Err(error),
        (Ok(first), second) => match register_of(first) {
            Err(error) => Err(error),
            Ok(reg) => match second {
                Err(error) => Err(error),
                Ok(second) => if second.len() == 0 {
                    Err(AsmError::EmptyArgument)
                } else if second[0] == '$' {
                    match value_of(without(second, '$')) {
                        Ok(value) => Ok(word(0x02, reg, value)),
                        Err(error) => Err(error),
                    }
                } else if second[0] == 'R' {
                    match register_of(second) {
                        Ok(reg2) => Ok(word(0x01, reg, reg2 as u16)),
                        Err(error) => Err(error),
                    }
                } else if second.len() >= 2 && second[0] == '0' && second[1] == 'x' {
                    Err(AsmError::InvalidOperand)
                } else {
                    match plain {
                        None => Err(AsmError::PatternRejected),
                        Some(rest) => if rest.len() == 0 {
                            Err(AsmError::InvalidOperand)
                        } else if found_label(labels, second).l_type != LabelType::Unset {
                            Ok(word(0x02, reg, found_label(labels, second).addr))
                        } else {
                            Err(AsmError::UndefinedLabel)
                        },
                    }
                },
            },
        },
    }
}

/// What `regex::Regex::replace` makes of `text` with the pattern `pattern`
/// and the replacement `replacement`; `None` where `regex::Regex::new` does
/// not take the pattern.
pub uninterp spec fn regex_replaced(
    pattern: Seq<char>,
    text: Seq<char>,
    replacement: Seq<char>,
) -> Option<Seq<char>>;

/// Compiles `pattern` with `regex::Regex::new` and replaces with
/// `Regex::replace` the first match in `text` by `replacement`. The outcome
/// depends on the three texts alone; nothing more is claimed of it.
#[verifier::external_body]
fn replace_first(pattern: &str, text: &str, replacement: &str) -> (replaced: Option<String>)
    ensures
        match replaced {
            Some(rest) => regex_replaced(pattern@, text@, replacement@) == Some(rest@),
            None => regex_replaced(pattern@, text@, replacement@) is None,
        },
{
    match Regex::new(pattern) {
        Ok(regex) => Some(regex.replace(text, replacement).into_owned()),
        Err(_) => None,
    }
}

/// Whether the instruction is the one that `expected` names, or the error.
pub open spec fn builds(
    built: Result<Instruction, AsmError>,
    expected: Result<InstructionWord, AsmError>,
) -> bool {
    match expected {
        Ok(word) => built is Ok && built.unwrap().opcode == word.opcode && built.unwrap().register
            == word.register && built.unwrap().data == word.data && built.unwrap().source@
            == Seq::<u8>::empty(),
        Err(error) => built == Err::<Instruction, AsmError>(error),
    }
}

/// The operand with the number `i` of a token.
pub fn argument(token: &Token, i: usize) -> (found: Result<&String, AsmError>)
    ensures
        match found {
            Ok(text) => arg(token@, i as int) == Ok::<Seq<char>, AsmError>(text@) && i
                < token.args.len() && *text == token.args@[i as int],
            Err(error) => arg(token@, i as int) == Err::<Seq<char>, AsmError>(error),
        },
{
    if i < token.args.len() {
        Ok(&token.args[i])
    } else {
        Err(AsmError::MissingArgument)
    }
}

/// The first character of a text.
pub fn first_char(text: &String) -> (first: Result<char, AsmError>)
    ensures
        match first {
            Ok(c) => text@.len() > 0 && c == text@[0],
            Err(error) => text@.len() == 0 && error == AsmError::EmptyArgument,
        },
{
    if text.as_str().unicode_len() == 0 {
        Err(AsmError::EmptyArgument)
    } else {
        Ok(text.as_str().get_char(0))
    }
}

/// The text without the character `c`.
pub fn strip(text: &String, c: char) -> (rest: String)
    ensures
        rest@ == without(text@, c),
{
    from_chars(&remove_char(&to_chars(text.as_str()), c))
}

/// The position of the first of `labels` with the name `name`.
pub fn find_in(labels: &Vec<Label>, name: &String) -> (found: Option<usize>)
    ensures
        match found {
            Some(at) => label_index(label_models(labels@), name@, 0) == Some(at as int) && at
                < labels.len(),
            None => label_index(label_models(labels@), name@, 0) is None,
        },
{
    let mut i: usize = 0;
    while i < labels.len()
        invariant
            i <= labels.len(),
            label_index(label_models(labels@), name@, 0) == label_index(
                label_models(labels@),
                name@,
                i as int,
            ),
        decreases labels.len() - i,
    {
        if labels[i].name == *name {
            return Some(i);
        }
        i += 1;
    }
    None
}

/// The fixed-width assembler.
#[derive(Debug)]
pub struct Assembler {
    /// The path of the source, where the lines come from a file.
    pub file_in: String,
    /// The path to which the image is to go.
    pub file_out: String,
    pub lines: Vec<String>,
    /// Whether the lines are already there, or are still to be read.
    pub from_lines: bool,
    pub start_label: String,
    pub inst_map: Vec<(String, Mnemonic)>,
}

impl Assembler {
    /// The number of the register that `reg` names.
    pub fn is_valid_register(reg: &String) -> (number: Result<u8, AsmError>)
        ensures
            number == register_of(reg@),
    {
        let chars = to_chars(reg.as_str());
        if chars.len() == 3 && chars[0] == 'R' && chars[2] == 'C' && chars[1] == 'P' {
            assert(chars@ =~= seq!['R', 'P', 'C']);
            return Ok(6);
        }
        if chars.len() == 3 && chars[0] == 'R' && chars[1] == 'S' && chars[2] == 'P' {
            assert(chars@ =~= seq!['R', 'S', 'P']);
            return Ok(7);
        }
        if chars.len() == 3 && chars[0] == 'R' && chars[1] == 'B' && chars[2] == 'P' {
            assert(chars@ =~= seq!['R', 'B', 'P']);
            return Ok(8);
        }
        proof {
            let rpc = seq!['R', 'P', 'C'];
            let rsp = seq!['R', 'S', 'P'];
            let rbp = seq!['R', 'B', 'P'];
            assert(rpc.len() == 3 && rpc[0] == 'R' && rpc[1] == 'P' && rpc[2] == 'C');
            assert(rsp.len() == 3 && rsp[0] == 'R' && rsp[1] == 'S' && rsp[2] == 'P');
            assert(rbp.len() == 3 && rbp[0] == 'R' && rbp[1] == 'B' && rbp[2] == 'P');
        }
        if chars.len() < 2 || chars[0] != 'R' || !('0' <= chars[1] && chars[1] <= '9') {
            return Err(AsmError::InvalidRegister);
        }
        if chars[1] == '0' || chars[1] > '6' {
            return Err(AsmError::RegisterOutOfRange);
        }
        Ok(((chars[1] as u32) - ('1' as u32)) as u8)
    }

    /// The number up to 65535 that `text` spells: hexadecimal after `0x`,
    /// else decimal.
    pub fn get_value_from_str(text: &String) -> (value: Result<u16, AsmError>)
        ensures
            value == value_of(text@),
    {
        match parse_literal(text.as_str(), 0xFFFF) {
            Some(number) => Ok(number as u16),
            None => Err(AsmError::InvalidNumber),
        }
    }

    /// The label with the name `name`.
    pub fn find_label(name: &String, labels: &AssemblerLabels) -> (label: Label)
        ensures
            label@ == found_label(labels@, name@),
    {
        match find_in(&labels.data_labels, name) {
            Some(at) => labels.data_labels[at].copy(),
            None => match find_in(&labels.text_labels, name) {
                Some(at) => labels.text_labels[at].copy(),
                None => Label::new(),
            },
        }
    }

    /// An instruction whose second operand is a register or a number.
    pub fn build_register_or_value(token: &Token, with_register: u8, with_value: u8) -> (built:
        Result<Instruction, AsmError>)
        ensures
            builds(built, register_or_value(token@, with_register, with_value)),
    {
        let reg = Assembler::is_valid_register(argument(token, 0)?)?;
        let second = argument(token, 1)?;
        if first_char(second)? == 'R' {
            let reg2 = Assembler::is_valid_register(second)?;
            Ok(Instruction::new_u8(with_register, reg, 0x00, reg2))
        } else {
            let val = Assembler::get_value_from_str(second)?;
            Ok(Instruction::new(with_value, reg, val))
        }
    }

    /// An instruction whose second operand is an address or a register.
    pub fn build_address_or_register(token: &Token, with_address: u8, with_register: u8) -> (built:
        Result<Instruction, AsmError>)
        ensures
            builds(built, address_or_register(token@, with_address, with_register)),
    {
        let reg = Assembler::is_valid_register(argument(token, 0)?)?;
        let second = argument(token, 1)?;
        let first = first_char(second)?;
        if first == '$' {
            let addr = Assembler::get_value_from_str(&strip(second, '$'))?;
            Ok(Instruction::new(with_address, reg, addr))
        } else if first == 'R' {
            let reg2 = Assembler::is_valid_register(second)?;
            Ok(Instruction::new_u8(with_register, reg, 0x00, reg2))
        } else {
            Err(AsmError::InvalidOperand)
        }
    }

    /// An instruction whose only operand is the name of a label.
    pub fn build_label_jump(labels: &AssemblerLabels, token: &Token, opcode: u8) -> (built: Result<
        Instruction,
        AsmError,
    >)
        ensures
            builds(built, label_jump(labels@, token@, opcode)),
    {
        let found_label = Assembler::find_label(argument(token, 0)?, labels);
        if found_label.l_type != LabelType::Unset {
            Ok(Instruction::new(opcode, 0x00, found_label.addr))
        } else {
            Err(AsmError::UndefinedLabel)
        }
    }

    /// LD, with the second operand as `plain` has it without its digits.
    pub fn build_ld(labels: &AssemblerLabels, token: &Token, plain: Option<String>) -> (built:
        Result<Instruction, AsmError>)
        ensures
            builds(
                built,
                inst_ld_with(
                    labels@,
                    token@,
                    match plain {
                        Some(rest) => Some(rest@),
                        None => None,
                    },
                ),
            ),
    {
        let reg = Assembler::is_valid_register(argument(token, 0)?)?;
        let second = argument(token, 1)?;
        let first = first_char(second)?;
        if first == '$' {
            let addr = Assembler::get_value_from_str(&strip(second, '$'))?;
            Ok(Instruction::new(0x02, reg, addr))
        } else if first == 'R' {
            let reg2 = Assembler::is_valid_register(second)?;
            Ok(Instruction::new_u8(0x01, reg, 0x00, reg2))
        } else if second.as_str().unicode_len() >= 2 && first == '0' && second.as_str().get_char(1)
            == 'x' {
            Err(AsmError::InvalidOperand)
        } else {
            match plain {
                None => Err(AsmError::PatternRejected),
                Some(rest) => {
                    if rest.as_str().unicode_len() == 0 {
                        return Err(AsmError::InvalidOperand);
                    }
                    let found_label = Assembler::find_label(second, labels);
                    if found_label.l_type != LabelType::Unset {
                        Ok(Instruction::new(0x02, reg, found_label.addr))
                    } else {
                        Err(AsmError::UndefinedLabel)
                    }
                },
            }
        }
    }

    /// LD. Whether the second operand is a name is left to the pattern
    /// `^\\d+$`: it is one unless the pattern takes all of it.
    pub fn inst_ld(labels: &AssemblerLabels, token: &Token) -> (built: Result<Instruction, AsmError>)
        ensures
            builds(
                built,
                inst_ld_with(
                    labels@,
                    token@,
                    if token@.args.len() >= 2 {
                        regex_replaced("^\\d+$"@, token@.args[1], ""@)
                    } else {
                        None
                    },
                ),
            ),
    {
        let plain = if token.args.len() >= 2 {
            replace_first("^\\d+$", token.args[1].as_str(), "")
        } else {
            None
        };
        Assembler::build_ld(labels, token, plain)
    }

    /// PSH.
    pub fn inst_psh(_labels: &AssemblerLabels, token: &Token) -> (built: Result<
        Instruction,
        AsmError,
    >)
        ensures
            builds(built, inst_psh_of(token@)),
    {
        let first = argument(token, 0)?;
        let c = first_char(first)?;
        if c == '$' {
            let addr = Assembler::get_value_from_str(&strip(first, '$'))?;
            Ok(Instruction::new(0x05, 0x00, addr))
        } else if c == 'R' {
            let reg = Assembler::is_valid_register(first)?;
            Ok(Instruction::new_u8(0x04, reg, 0x00, 0x00))
        } else {
            let addr = Assembler::get_value_from_str(first)?;
            Ok(Instruction::new(0x03, 0x00, addr))
        }
    }

    /// POP.
    pub fn inst_pop(_labels: &AssemblerLabels, token: &Token) -> (built: Result<
        Instruction,
        AsmError,
    >)
        ensures
            builds(built, inst_pop_of(token@)),
    {
        if token.args.len() == 1 {
            let reg = Assembler::is_valid_register(&token.args[0])?;
            Ok(Instruction::new(0x06, reg, 0x00))
        } else if token.args.len() == 0 {
            Ok(Instruction::new(0x07, 0x00, 0x00))
        } else {
            Err(AsmError::TooManyArguments)
        }
    }

    /// LDS.
    pub fn inst_lds(_labels: &AssemblerLabels, token: &Token) -> (built: Result<
        Instruction,
        AsmError,
    >)
        ensures
            builds(built, inst_lds_of(token@)),
    {
        let reg = Assembler::is_valid_register(argument(token, 0)?)?;
        let second = argument(token, 1)?;
        if first_char(second)? == '$' {
            let addr = Assembler::get_value_from_str(&strip(second, '$'))?;
            Ok(Instruction::new(0x08, reg, addr))
        } else {
            Err(AsmError::InvalidOperand)
        }
    }

    /// MOV: with a register the opcode 0x09, with a number 0x00.
    pub fn inst_mov(_labels: &AssemblerLabels, token: &Token) -> (built: Result<Instruction, AsmError>)
        ensures
            builds(built, register_or_value(token@, 0x09, 0x00)),
    {
        Assembler::build_register_or_value(token, 0x09, 0x00)
    }

    /// CMP: with a register the opcode 0x20, with a number 0x21.
    pub fn inst_cmp(_labels: &AssemblerLabels, token: &Token) -> (built: Result<Instruction, AsmError>)
        ensures
            builds(built, register_or_value(token@, 0x20, 0x21)),
    {
        Assembler::build_register_or_value(token, 0x20, 0x21)
    }

    /// ADD: with a register the opcode 0x42, with a number 0x40.
    pub fn inst_add(_labels: &AssemblerLabels, token: &Token) -> (built: Result<Instruction, AsmError>)
        ensures
            builds(built, register_or_value(token@, 0x42, 0x40)),
    {
        Assembler::build_register_or_value(token, 0x42, 0x40)
    }

    /// SUB: with a register the opcode 0x43, with a number 0x41.
    pub fn inst_sub(_labels: &AssemblerLabels, token: &Token) -> (built: Result<Instruction, AsmError>)
        ensures
            builds(built, register_or_value(token@, 0x43, 0x41)),
    {
        Assembler::build_register_or_value(token, 0x43, 0x41)
    }

    /// ST: with an address the opcode 0x10, with a register 0x13.
    pub fn inst_st(_labels: &AssemblerLabels, token: &Token) -> (built: Result<Instruction, AsmError>)
        ensures
            builds(built, address_or_register(token@, 0x10, 0x13)),
    {
        Assembler::build_address_or_register(token, 0x10, 0x13)
    }

    /// STL: with an address the opcode 0x11, with a register 0x14.
    pub fn inst_stl(_labels: &AssemblerLabels, token: &Token) -> (built: Result<Instruction, AsmError>)
        ensures
            builds(built, address_or_register(token@, 0x11, 0x14)),
    {
        Assembler::build_address_or_register(token, 0x11, 0x14)
    }

    /// STH: with an address the opcode 0x12, with a register 0x15.
    pub fn inst_sth(_labels: &AssemblerLabels, token: &Token) -> (built: Result<Instruction, AsmError>)
        ensures
            builds(built, address_or_register(token@, 0x12, 0x15)),
    {
        Assembler::build_address_or_register(token, 0x12, 0x15)
    }

    /// BEQ: the address of a label, with the opcode 0x30.
    pub fn inst_beq(labels: &AssemblerLabels, token: &Token) -> (built: Result<Instruction, AsmError>)
        ensures
            builds(built, label_jump(labels@, token@, 0x30)),
    {
        Assembler::build_label_jump(labels, token, 0x30)
    }

    /// BGT: the address of a label, with the opcode 0x31.
    pub fn inst_bgt(labels: &AssemblerLabels, token: &Token) -> (built: Result<Instruction, AsmError>)
        ensures
            builds(built, label_jump(labels@, token@, 0x31)),
    {
        Assembler::build_label_jump(labels, token, 0x31)
    }

    /// BLT: the address of a label, with the opcode 0x32.
    pub fn inst_blt(labels: &AssemblerLabels, token: &Token) -> (built: Result<Instruction, AsmError>)
        ensures
            builds(built, label_jump(labels@, token@, 0x32)),
    {
        Assembler::build_label_jump(labels, token, 0x32)
    }

    /// JMP: the address of a label, with the opcode 0x33.
    pub fn inst_jmp(labels: &AssemblerLabels, token: &Token) -> (built: Result<Instruction, AsmError>)
        ensures
            builds(built, label_jump(labels@, token@, 0x33)),
    {
        Assembler::build_label_jump(labels, token, 0x33)
    }

    /// BOF: the address of a label, with the opcode 0x34.
    pub fn inst_bof(labels: &AssemblerLabels, token: &Token) -> (built: Result<Instruction, AsmError>)
        ensures
            builds(built, label_jump(labels@, token@, 0x34)),
    {
        Assembler::build_label_jump(labels, token, 0x34)
    }

    /// BNE: the address of a label, with the opcode 0x35.
    pub fn inst_bne(labels: &AssemblerLabels, token: &Token) -> (built: Result<Instruction, AsmError>)
        ensures
            builds(built, label_jump(labels@, token@, 0x35)),
    {
        Assembler::build_label_jump(labels, token, 0x35)
    }

    /// CALL: the address of a label, with the opcode 0x50.
    pub fn inst_call(labels: &AssemblerLabels, token: &Token) -> (built: Result<Instruction, AsmError>)
        ensures
            builds(built, label_jump(labels@, token@, 0x50)),
    {
        Assembler::build_label_jump(labels, token, 0x50)
    }

    /// RET: the opcode 0x51.
    pub fn inst_ret(_labels: &AssemblerLabels, _token: &Token) -> (built: Result<
        Instruction,
        AsmError,
    >)
        ensures
            builds(built, Ok(word(0x51, 0, 0))),
    {
        Ok(Instruction::new(0x51, 0x00, 0x0000))
    }

    /// HLT: the bytes FE FE FF FF.
    pub fn inst_hlt(_labels: &AssemblerLabels, _token: &Token) -> (built: Result<
        Instruction,
        AsmError,
    >)
        ensures
            builds(built, Ok(word(0xFE, 0xFE, 0xFFFF))),
    {
        Ok(Instruction::new_u8(0xFE, 0xFE, 0xFF, 0xFF))
    }

    /// NOP: the bytes FF FF FF FF.
    pub fn inst_nop(_labels: &AssemblerLabels, _token: &Token) -> (built: Result<
        Instruction,
        AsmError,
    >)
        ensures
            builds(built, Ok(word(0xFF, 0xFF, 0xFFFF))),
    {
        Ok(Instruction::new_u8(0xFF, 0xFF, 0xFF, 0xFF))
    }
}

/// The instruction that a line of the text section stands for.
pub open spec fn instruction_of(labels: LabelsModel, token: TokenModel, mnemonic: Mnemonic) -> Result<
    InstructionWord,
    AsmError,
> {
    match mnemonic {
        Mnemonic::LD => inst_ld_with(
            labels,
            token,
            if token.args.len() >= 2 {
                regex_replaced("^\\d+$"@, token.args[1], ""@)
            } else {
                None
            },
        ),
        Mnemonic::MOV => register_or_value(token, 0x09, 0x00),
        Mnemonic::PSH => inst_psh_of(token),
        Mnemonic::POP => inst_pop_of(token),
        Mnemonic::LDS => inst_lds_of(token),
        Mnemonic::ST => address_or_register(token, 0x10, 0x13),
        Mnemonic::STL => address_or_register(token, 0x11, 0x14),
        Mnemonic::STH => address_or_register(token, 0x12, 0x15),
        Mnemonic::CMP => register_or_value(token, 0x20, 0x21),
        Mnemonic::BEQ => label_jump(labels, token, 0x30),
        Mnemonic::BGT => label_jump(labels, token, 0x31),
        Mnemonic::BLT => label_jump(labels, token, 0x32),
        Mnemonic::JMP => label_jump(labels, token, 0x33),
        Mnemonic::BOF => label_jump(labels, token, 0x34),
        Mnemonic::BNE => label_jump(labels, token, 0x35),
        Mnemonic::ADD => register_or_value(token, 0x42, 0x40),
        Mnemonic::SUB => register_or_value(token, 0x43, 0x41),
        Mnemonic::CALL => label_jump(labels, token, 0x50),
        Mnemonic::RET => Ok(word(0x51, 0, 0)),
        Mnemonic::HLT => Ok(word(0xFE, 0xFE, 0xFFFF)),
        Mnemonic::NOP => Ok(word(0xFF, 0xFF, 0xFFFF)),
    }
}

/// Where the scanner of lines stands.
#[derive(Debug, Clone, Copy, PartialEq, Eq, Structural)]
pub enum TokenPaths {
    Unset,
    Data,
    Text,
}

/// What the scanner of lines has found, as a value: the section in which it
/// stands, the label under which it stands, the name that `.main` gave, and
/// the tokens of the two sections.
pub struct Scan {
    pub path: TokenPaths,
    pub current: Seq<char>,
    pub start: Seq<char>,
    pub data: Seq<TokenModel>,
    pub text: Seq<TokenModel>,
}

/// The text of a `DAT` whose text is spread over the pieces `parts` from
/// position `from` on, behind `found`: each piece without its quotes, and a
/// blank behind every piece that does not end the text with a quote.
pub open spec fn quoted_rest(parts: Seq<Seq<char>>, from: int, found: Seq<char>) -> Result<
    Seq<char>,
    AsmError,
>
    decreases parts.len() - from,
{
    if from < 0 || from >= parts.len() {
        Ok(found)
    } else if parts[from].len() == 0 {
        Err(AsmError::MalformedLine)
    } else if parts[from].last() != '"' {
        quoted_rest(parts, from + 1, found + without(parts[from], '"') + seq![' '])
    } else {
        quoted_rest(parts, from + 1, found + without(parts[from], '"'))
    }
}

/// The operands of a line of the data section. After `DAT`, a text in quotes
/// is one operand, however many blanks are in it; anything else is none.
/// After another word, every piece is an operand.
pub open spec fn data_arguments(parts: Seq<Seq<char>>) -> Result<Seq<Seq<char>>, AsmError> {
    if parts[0] == seq!['D', 'A', 'T'] {
        if parts.len() < 2 {
            Err(AsmError::MissingArgument)
        } else if parts[1].len() == 0 {
            Err(AsmError::MalformedLine)
        } else if parts[1][0] != '"' {
            Ok(Seq::empty())
        } else if parts[1].last() == '"' {
            Ok(seq![without(parts[1], '"')])
        } else {
            match quoted_rest(parts, 2, without(parts[1], '"') + seq![' ']) {
                Ok(text) => Ok(seq![text]),
                Err(error) => Err(error),
            }
        }
    } else {
        Ok(parts.skip(1))
    }
}

/// The pieces without their commas.
pub open spec fn without_commas(parts: Seq<Seq<char>>) -> Seq<Seq<char>> {
    Seq::new(parts.len(), |i: int| without(parts[i], ','))
}

/// The name of a label as it is written: without `@` and `:`.
pub open spec fn label_name(head: Seq<char>) -> Seq<char> {
    without(without(head, '@'), ':')
}

/// What one line makes of the scan. An empty line changes nothing. Before
/// any section, `.main` names the start label and `.data` and `.text` open
/// their sections. In a section, tabs do not count and blanks part the line
/// into pieces; a first piece that begins with `@` names the label for the
/// lines that follow; in the data section a first piece that begins with `.`
/// opens the text section; any other line is a token.
pub open spec fn scanned_line(scan: Scan, line: Seq<char>) -> Result<Scan, AsmError> {
    if line.len() == 0 {
        Ok(scan)
    } else if scan.path == TokenPaths::Unset {
        if line[0] != '.' {
            Ok(scan)
        } else {
            let parts = split(line, ' ');
            if parts[0] == seq!['.', 'm', 'a', 'i', 'n'] {
                if parts.len() < 2 {
                    Err(AsmError::MissingStartLabel)
                } else {
                    Ok(Scan { start: parts[1], ..scan })
                }
            } else if parts[0] == seq!['.', 'd', 'a', 't', 'a'] {
                Ok(Scan { path: TokenPaths::Data, ..scan })
            } else if parts[0] == seq!['.', 't', 'e', 'x', 't'] {
                Ok(Scan { path: TokenPaths::Text, ..scan })
            } else {
                Ok(scan)
            }
        }
    } else {
        let parts = split(without(line, '\t'), ' ');
        let head = parts[0];
        if head.len() == 0 {
            Err(AsmError::MalformedLine)
        } else if head[0] == '@' {
            Ok(Scan { current: label_name(head), ..scan })
        } else if scan.path == TokenPaths::Data {
            if head[0] == '.' {
                Ok(Scan { path: TokenPaths::Text, ..scan })
            } else {
                match data_arguments(parts) {
                    Err(error) => Err(error),
                    Ok(args) => Ok(
                        Scan {
                            data: scan.data.push(
                                TokenModel {
                                    label: scan.current,
                                    instruction: head,
                                    args,
                                    section: LabelType::Data,
                                },
                            ),
                            ..scan
                        },
                    ),
                }
            }
        } else {
            Ok(
                Scan {
                    text: scan.text.push(
                        TokenModel {
                            label: scan.current,
                            instruction: head,
                            args: without_commas(parts.skip(1)),
                            section: LabelType::Text,
                        },
                    ),
                    ..scan
                },
            )
        }
    }
}

/// What the lines from position `from` on make of the scan.
pub open spec fn scanned(scan: Scan, lines: Seq<Seq<char>>, from: int) -> Result<Scan, AsmError>
    decreases lines.len() - from,
{
    if from < 0 || from >= lines.len() {
        Ok(scan)
    } else {
        match scanned_line(scan, lines[from]) {
            Ok(next) => scanned(next, lines, from + 1),
            Err(error) => Err(error),
        }
    }
}

/// The scan before the first line.
pub open spec fn fresh_scan() -> Scan {
    Scan {
        path: TokenPaths::Unset,
        current: Seq::empty(),
        start: Seq::empty(),
        data: Seq::empty(),
        text: Seq::empty(),
    }
}

/// The tokens as values.
pub open spec fn token_models(tokens: Seq<Token>) -> Seq<TokenModel> {
    Seq::new(tokens.len(), |i: int| tokens[i]@)
}

/// The data labels of the data tokens from position `from` on, behind
/// `found`, the first of them at the offset `offset`. Every token must be a
/// `DAT` with one text, under a label that no token before it stands under.
/// Each label takes the length of its text and one byte more.
pub open spec fn data_labels_from(
    tokens: Seq<TokenModel>,
    from: int,
    offset: int,
    found: Seq<LabelModel>,
) -> Result<(Seq<LabelModel>, int), AsmError>
    decreases tokens.len() - from,
{
    if from < 0 || from >= tokens.len() {
        Ok((found, offset))
    } else {
        let token = tokens[from];
        if token.instruction != seq!['D', 'A', 'T'] {
            Err(AsmError::InvalidDataInstruction)
        } else if token.args.len() != 1 {
            Err(AsmError::InvalidDataArguments)
        } else if label_index(found, token.label, 0) is Some {
            Err(AsmError::DuplicateDataLabel)
        } else if offset + token.args[0].len() + 1 > 0xFFFF - 2 {
            Err(AsmError::ProgramTooLarge)
        } else {
            data_labels_from(
                tokens,
                from + 1,
                offset + token.args[0].len() + 1,
                found.push(
                    LabelModel {
                        name: token.label,
                        l_type: LabelType::Data,
                        addr: (offset + 2) as u16,
                        value: token.args[0],
                    },
                ),
            )
        }
    }
}

/// A text label whose first instruction is the one with the number `first`.
pub open spec fn text_label(name: Seq<char>, data_length: int, first: int) -> LabelModel {
    LabelModel {
        name,
        l_type: LabelType::Text,
        addr: (data_length + first * 4 + 0xDAC1) as u16,
        value: Seq::empty(),
    }
}

/// The text labels of the text tokens from position `from` on, behind
/// `found`. `name` is the label under which the tokens before stand, and
/// `first` the number of the first of them. A token under another label
/// closes the label before it, and the last token closes its own.
pub open spec fn text_labels_from(
    tokens: Seq<TokenModel>,
    from: int,
    data_length: int,
    name: Seq<char>,
    first: int,
    found: Seq<LabelModel>,
) -> Result<Seq<LabelModel>, AsmError>
    decreases tokens.len() - from,
{
    if from < 0 || from >= tokens.len() {
        Ok(found)
    } else if data_length + (from + 1) * 4 + 0xDAC1 > 0xFFFF {
        Err(AsmError::ProgramTooLarge)
    } else {
        let token = tokens[from];
        let changed = token.label != name;
        let closed = if changed {
            found.push(text_label(name, data_length, first))
        } else {
            found
        };
        let begun = if changed {
            from
        } else {
            first
        };
        let last = if from == tokens.len() - 1 {
            closed.push(text_label(token.label, data_length, begun))
        } else {
            closed
        };
        text_labels_from(tokens, from + 1, data_length, token.label, begun, last)
    }
}

/// The labels of a program.
pub open spec fn labels_of(data: Seq<TokenModel>, text: Seq<TokenModel>) -> Result<
    LabelsModel,
    AsmError,
> {
    if text.len() == 0 {
        Err(AsmError::NoTextTokens)
    } else {
        match data_labels_from(data, 0, 0, Seq::empty()) {
            Err(error) => Err(error),
            Ok((data_labels, data_length)) => match text_labels_from(
                text,
                0,
                data_length,
                text[0].label,
                0,
                Seq::empty(),
            ) {
                Err(error) => Err(error),
                Ok(text_labels) => Ok(LabelsModel { data: data_labels, text: text_labels }),
            },
        }
    }
}

/// The bytes of a text from position `from` on, behind `found`: of each
/// character the low eight bits.
pub open spec fn value_bytes(text: Seq<char>, from: int, found: Seq<u8>) -> Seq<u8>
    decreases text.len() - from,
{
    if from < 0 || from >= text.len() {
        found
    } else {
        value_bytes(text, from + 1, found.push((text[from] as u32 % 256) as u8))
    }
}

/// The bytes of the data labels from position `from` on, behind `found`:
/// each text and a zero byte.
pub open spec fn data_image(labels: Seq<LabelModel>, from: int, found: Seq<u8>) -> Seq<u8>
    decreases labels.len() - from,
{
    if from < 0 || from >= labels.len() {
        found
    } else {
        data_image(labels, from + 1, value_bytes(labels[from].value, 0, found).push(0u8))
    }
}

/// The four bytes of an instruction.
pub open spec fn word_bytes(word: InstructionWord) -> Seq<u8> {
    seq![word.opcode, word.register, (word.data as int / 256) as u8, (word.data as int % 256) as u8]
}

/// The bytes of the text tokens from position `from` on, behind `found`. A
/// token whose first word is no mnemonic has no bytes.
pub open spec fn text_image(labels: LabelsModel, tokens: Seq<TokenModel>, from: int, found: Seq<u8>) -> Result<
    Seq<u8>,
    AsmError,
>
    decreases tokens.len() - from,
{
    if from < 0 || from >= tokens.len() {
        Ok(found)
    } else {
        match mnemonic_of(tokens[from].instruction) {
            None => text_image(labels, tokens, from + 1, found),
            Some(mnemonic) => match instruction_of(labels, tokens[from], mnemonic) {
                Err(error) => Err(error),
                Ok(word) => text_image(labels, tokens, from + 1, found + word_bytes(word)),
            },
        }
    }
}

/// The image of a program: the address of the start label, the data, the
/// instructions.
pub open spec fn program_image(start: Seq<char>, labels: LabelsModel, text: Seq<TokenModel>) -> Result<
    Seq<u8>,
    AsmError,
> {
    let entry = found_label(labels, start);
    if entry.l_type == LabelType::Unset {
        Err(AsmError::NoStartLabel)
    } else {
        text_image(
            labels,
            text,
            0,
            data_image(
                labels.data,
                0,
                seq![(entry.addr as int / 256) as u8, (entry.addr as int % 256) as u8],
            ),
        )
    }
}

/// The image of the source `lines`, with the name of its start label.
pub open spec fn assembled(lines: Seq<Seq<char>>) -> Result<(Seq<u8>, Seq<char>), AsmError> {
    match scanned(fresh_scan(), lines, 0) {
        Err(error) => Err(error),
        Ok(scan) => match labels_of(scan.data, scan.text) {
            Err(error) => Err(error),
            Ok(labels) => match program_image(scan.start, labels, scan.text) {
                Err(error) => Err(error),
                Ok(bytes) => Ok((bytes, scan.start)),
            },
        },
    }
}

/// The mnemonics by their names.
pub open spec fn mnemonic_table() -> Seq<(Seq<char>, Mnemonic)> {
    Seq::new(mnemonics().len(), |i: int| (mnemonics()[i].spelling(), mnemonics()[i]))
}

/// The table as values.
pub open spec fn table_models(table: Seq<(String, Mnemonic)>) -> Seq<(Seq<char>, Mnemonic)> {
    Seq::new(table.len(), |i: int| (table[i].0@, table[i].1))
}

/// Whether `text` is spelled by `chars`.
fn spells(text: &String, chars: &Vec<char>) -> (same: bool)
    ensures
        same == (text@ == chars@),
{
    crate::common::instruction::opcode::same_chars(&to_chars(text.as_str()), chars)
}

/// The mnemonics in the order in which the assembler knows them.
pub fn all_mnemonics() -> (all: Vec<Mnemonic>)
    ensures
        all@ == mnemonics(),
{
    let all = vec![
        Mnemonic::LD,
        Mnemonic::MOV,
        Mnemonic::PSH,
        Mnemonic::POP,
        Mnemonic::LDS,
        Mnemonic::ST,
        Mnemonic::STL,
        Mnemonic::STH,
        Mnemonic::CMP,
        Mnemonic::BEQ,
        Mnemonic::BGT,
        Mnemonic::BLT,
        Mnemonic::JMP,
        Mnemonic::BOF,
        Mnemonic::BNE,
        Mnemonic::ADD,
        Mnemonic::SUB,
        Mnemonic::CALL,
        Mnemonic::RET,
        Mnemonic::HLT,
        Mnemonic::NOP,
    ];
    assert(all@ =~= mnemonics());
    all
}

/// The mnemonic that is written `name`.
pub fn find_mnemonic(name: &String) -> (found: Option<Mnemonic>)
    ensures
        found == mnemonic_of(name@),
{
    let all = all_mnemonics();
    let mut i: usize = 0;
    while i < all.len()
        invariant
            i <= all.len(),
            all@ == mnemonics(),
            mnemonic_of(name@) == mnemonic_from(name@, i as int),
        decreases all.len() - i,
    {
        if spells(name, &all[i].name()) {
            return Some(all[i]);
        }
        i += 1;
    }
    None
}

/// The pieces from position `from` on: as they are where `commas` holds,
/// else each without its commas.
fn texts_skip(parts: &Vec<String>, from: usize, commas: bool) -> (rest: Vec<String>)
    requires
        from <= parts.len(),
    ensures
        texts(rest@) == if commas {
            texts(parts@).skip(from as int)
        } else {
            without_commas(texts(parts@).skip(from as int))
        },
{
    let mut rest: Vec<String> = Vec::new();
    let mut i: usize = from;
    while i < parts.len()
        invariant
            from <= i <= parts.len(),
            rest@.len() == i - from,
            forall|j: int|
                0 <= j < rest@.len() ==> rest@[j]@ == if commas {
                    parts@[from + j]@
                } else {
                    without(parts@[from + j]@, ',')
                },
        decreases parts.len() - i,
    {
        if commas {
            rest.push(parts[i].clone());
        } else {
            rest.push(strip(&parts[i], ','));
        }
        i += 1;
    }
    proof {
        if commas {
            assert(texts(rest@) =~= texts(parts@).skip(from as int));
        } else {
            assert(texts(rest@) =~= without_commas(texts(parts@).skip(from as int)));
        }
    }
    rest
}

/// The last character of a text that is not empty.
fn last_char(text: &String) -> (last: char)
    requires
        text@.len() > 0,
    ensures
        last == text@.last(),
{
    let length = text.as_str().unicode_len();
    text.as_str().get_char(length - 1)
}

/// Writes `text` behind `out`.
fn push_text(out: &mut Vec<char>, text: &String)
    ensures
        final(out)@ == old(out)@ + text@,
{
    let chars = to_chars(text.as_str());
    let mut i: usize = 0;
    while i < chars.len()
        invariant
            i <= chars.len(),
            chars@ == text@,
            out@ =~= old(out)@ + chars@.take(i as int),
        decreases chars.len() - i,
    {
        out.push(chars[i]);
        i += 1;
    }
    assert(chars@.take(chars.len() as int) =~= chars@);
}

/// What the scanner of lines has found.
pub struct Scanner {
    pub path: TokenPaths,
    pub curr_label: String,
    pub start_label: String,
    pub data_tokens: Vec<Token>,
    pub text_tokens: Vec<Token>,
}

impl View for Scanner {
    type V = Scan;

    open spec fn view(&self) -> Scan {
        Scan {
            path: self.path,
            current: self.curr_label@,
            start: self.start_label@,
            data: token_models(self.data_tokens@),
            text: token_models(self.text_tokens@),
        }
    }
}

impl Scanner {
    /// A scanner before the first line.
    pub fn new() -> (scanner: Scanner)
        ensures
            scanner@ == fresh_scan(),
    {
        let scanner = Scanner {
            path: TokenPaths::Unset,
            curr_label: String::new(),
            start_label: String::new(),
            data_tokens: Vec::new(),
            text_tokens: Vec::new(),
        };
        assert(scanner@.data =~= Seq::empty());
        assert(scanner@.text =~= Seq::empty());
        scanner
    }

    /// The operands of a line of the data section.
    pub fn data_args(parts: &Vec<String>) -> (args: Result<Vec<String>, AsmError>)
        requires
            parts.len() >= 1,
        ensures
            match args {
                Ok(args) => data_arguments(texts(parts@)) == Ok::<Seq<Seq<char>>, AsmError>(
                    texts(args@),
                ),
                Err(error) => data_arguments(texts(parts@)) == Err::<Seq<Seq<char>>, AsmError>(
                    error,
                ),
            },
    {
        if !spells(&parts[0], &vec!['D', 'A', 'T']) {
            return Ok(texts_skip(parts, 1, true));
        }
        if parts.len() < 2 {
            return Err(AsmError::MissingArgument);
        }
        if parts[1].as_str().unicode_len() == 0 {
            return Err(AsmError::MalformedLine);
        }
        let mut args: Vec<String> = Vec::new();
        if parts[1].as_str().get_char(0) != '"' {
            assert(texts(args@) =~= Seq::<Seq<char>>::empty());
            return Ok(args);
        }
        let mut arg_str = remove_char(&to_chars(parts[1].as_str()), '"');
        if last_char(&parts[1]) != '"' {
            arg_str.push(' ');
            assert(arg_str@ =~= without(parts@[1]@, '"') + seq![' ']);
            let mut i: usize = 2;
            while i < parts.len()
                invariant
                    2 <= i <= parts.len(),
                    texts(parts@)[0] == seq!['D', 'A', 'T'],
                    parts@[1]@.len() > 0,
                    parts@[1]@[0] == '"',
                    parts@[1]@.last() != '"',
                    quoted_rest(texts(parts@), 2, without(parts@[1]@, '"') + seq![' '])
                        == quoted_rest(texts(parts@), i as int, arg_str@),
                decreases parts.len() - i,
            {
                if parts[i].as_str().unicode_len() == 0 {
                    return Err(AsmError::MalformedLine);
                }
                let ghost before = arg_str@;
                push_text(&mut arg_str, &strip(&parts[i], '"'));
                if last_char(&parts[i]) != '"' {
                    arg_str.push(' ');
                    assert(arg_str@ =~= before + without(parts@[i as int]@, '"') + seq![' ']);
                }
                i += 1;
            }
        }
        let text = from_chars(&arg_str);
        args.push(text);
        assert(texts(args@) =~= seq![arg_str@]);
        Ok(args)
    }

    /// Takes one line in.
    pub fn scan_line(&mut self, line: &String) -> (result: Result<(), AsmError>)
        ensures
            match scanned_line(old(self)@, line@) {
                Ok(next) => result is Ok && final(self)@ == next,
                Err(error) => result == Err::<(), AsmError>(error) && final(self)@ == old(self)@,
            },
    {
        let chars = to_chars(line.as_str());
        if chars.len() == 0 {
            return Ok(());
        }
        if self.path == TokenPaths::Unset {
            if chars[0] != '.' {
                return Ok(());
            }
            let parts = split_text(&chars, ' ');
            if spells(&parts[0], &vec!['.', 'm', 'a', 'i', 'n']) {
                if parts.len() < 2 {
                    return Err(AsmError::MissingStartLabel);
                }
                self.start_label = parts[1].clone();
            } else if spells(&parts[0], &vec!['.', 'd', 'a', 't', 'a']) {
                self.path = TokenPaths::Data;
            } else if spells(&parts[0], &vec!['.', 't', 'e', 'x', 't']) {
                self.path = TokenPaths::Text;
            }
            return Ok(());
        }
        let parts = split_text(&remove_char(&chars, '\t'), ' ');
        let head = &parts[0];
        if head.as_str().unicode_len() == 0 {
            return Err(AsmError::MalformedLine);
        }
        let first = head.as_str().get_char(0);
        if first == '@' {
            self.curr_label = strip(&strip(head, '@'), ':');
            return Ok(());
        }
        if self.path == TokenPaths::Data {
            if first == '.' {
                self.path = TokenPaths::Text;
                return Ok(());
            }
            let args = Scanner::data_args(&parts)?;
            let token = Token::create_token(
                self.curr_label.clone(),
                head.clone(),
                args,
                LabelType::Data,
            );
            let ghost before = token_models(self.data_tokens@);
            let ghost added = token@;
            self.data_tokens.push(token);
            assert(token_models(self.data_tokens@) =~= before.push(added));
        } else {
            let args = texts_skip(&parts, 1, false);
            let token = Token::create_token(
                self.curr_label.clone(),
                head.clone(),
                args,
                LabelType::Text,
            );
            let ghost before = token_models(self.text_tokens@);
            let ghost added = token@;
            self.text_tokens.push(token);
            assert(token_models(self.text_tokens@) =~= before.push(added));
        }
        Ok(())
    }
}

impl Assembler {
    /// An assembler for the source at the path `f_in`, whose lines are still
    /// to be read, and for an image that is to go to the path `f_out`.
    pub fn new(f_in: &String, f_out: &String) -> (assembler: Assembler)
        ensures
            assembler.file_in@ == f_in@,
            assembler.file_out@ == f_out@,
            assembler.lines@.len() == 0,
            !assembler.from_lines,
            assembler.start_label@.len() == 0,
            assembler.inst_map@.len() == 0,
    {
        Assembler {
            file_in: f_in.clone(),
            file_out: f_out.clone(),
            start_label: String::new(),
            inst_map: Vec::new(),
            from_lines: false,
            lines: Vec::new(),
        }
    }

    /// An assembler for the source `lines`.
    pub fn new_lines(lines: Vec<String>) -> (assembler: Assembler)
        ensures
            assembler.lines == lines,
            assembler.from_lines,
            assembler.start_label@.len() == 0,
            assembler.inst_map@.len() == 0,
    {
        Assembler {
            file_in: String::new(),
            file_out: String::new(),
            start_label: String::new(),
            inst_map: Vec::new(),
            from_lines: true,
            lines,
        }
    }

    /// Fills the table of mnemonics.
    pub fn fill_hashmap(&mut self)
        ensures
            table_models(final(self).inst_map@) == mnemonic_table(),
            final(self).lines == old(self).lines,
            final(self).start_label == old(self).start_label,
            final(self).file_in == old(self).file_in,
            final(self).file_out == old(self).file_out,
            final(self).from_lines == old(self).from_lines,
    {
        let all = all_mnemonics();
        let mut table: Vec<(String, Mnemonic)> = Vec::new();
        let mut i: usize = 0;
        while i < all.len()
            invariant
                i <= all.len(),
                all@ == mnemonics(),
                table@.len() == i,
                forall|j: int|
                    0 <= j < i ==> table@[j].0@ == mnemonics()[j].spelling() && table@[j].1
                        == mnemonics()[j],
            decreases all.len() - i,
        {
            table.push((from_chars(&all[i].name()), all[i]));
            i += 1;
        }
        assert(table_models(table@) =~= mnemonic_table());
        self.inst_map = table;
    }

    /// Scans the lines of a source into the name of the start label, the
    /// tokens of the data section and those of the text section.
    pub fn tokenize(&self, lines: &Vec<String>) -> (result: Result<(String, Vec<Token>, Vec<Token>), AsmError>)
        ensures
            match scanned(fresh_scan(), texts(lines@), 0) {
                Ok(scan) => result is Ok && result.unwrap().0@ == scan.start && token_models(
                    result.unwrap().1@,
                ) == scan.data && token_models(result.unwrap().2@) == scan.text,
                Err(error) => result == Err::<(String, Vec<Token>, Vec<Token>), AsmError>(error),
            },
    {
        let mut scanner = Scanner::new();
        let mut i: usize = 0;
        while i < lines.len()
            invariant
                i <= lines.len(),
                scanned(fresh_scan(), texts(lines@), 0) == scanned(scanner@, texts(lines@), i as int),
            decreases lines.len() - i,
        {
            scanner.scan_line(&lines[i])?;
            i += 1;
        }
        Ok((scanner.start_label, scanner.data_tokens, scanner.text_tokens))
    }

    /// Gives every label its address.
    pub fn parse_labels(&self, data_tokens: &Vec<Token>, text_tokens: &Vec<Token>) -> (result:
        Result<AssemblerLabels, AsmError>)
        ensures
            match labels_of(token_models(data_tokens@), token_models(text_tokens@)) {
                Ok(labels) => result is Ok && result.unwrap()@ == labels,
                Err(error) => result == Err::<AssemblerLabels, AsmError>(error),
            },
    {
        if text_tokens.len() == 0 {
            return Err(AsmError::NoTextTokens);
        }
        let mut data_labels: Vec<Label> = Vec::new();
        let mut text_labels: Vec<Label> = Vec::new();
        let mut address_offset: u16 = 0;
        let ghost data = token_models(data_tokens@);
        let ghost text = token_models(text_tokens@);
        assert(label_models(data_labels@) =~= Seq::<LabelModel>::empty());
        assert(label_models(text_labels@) =~= Seq::<LabelModel>::empty());
        let mut d: usize = 0;
        while d < data_tokens.len()
            invariant
                d <= data_tokens.len(),
                data == token_models(data_tokens@),
                text == token_models(text_tokens@),
                text.len() > 0,
                data_labels_from(data, 0, 0, Seq::empty()) == data_labels_from(
                    data,
                    d as int,
                    address_offset as int,
                    label_models(data_labels@),
                ),
            decreases data_tokens.len() - d,
        {
            let data_t = &data_tokens[d];
            if !spells(&data_t.instruction, &vec!['D', 'A', 'T']) {
                return Err(AsmError::InvalidDataInstruction);
            }
            if data_t.args.len() != 1 {
                return Err(AsmError::InvalidDataArguments);
            }
            if find_in(&data_labels, &data_t.label).is_some() {
                return Err(AsmError::DuplicateDataLabel);
            }
            let length = data_t.args[0].as_str().unicode_len();
            if length > 0xFFFF || address_offset as usize + length + 1 > 0xFFFF - 2 {
                return Err(AsmError::ProgramTooLarge);
            }
            let label = Label::create_data(
                data_t.label.clone(),
                address_offset,
                data_t.args[0].clone(),
            );
            address_offset += length as u16 + 1;
            let ghost before = label_models(data_labels@);
            let ghost added = label@;
            data_labels.push(label);
            assert(label_models(data_labels@) =~= before.push(added));
            d += 1;
        }
        let mut text_label = text_tokens[0].label.clone();
        let mut first: usize = 0;
        let mut i: usize = 0;
        while i < text_tokens.len()
            invariant
                i <= text_tokens.len(),
                first <= i,
                data == token_models(data_tokens@),
                text == token_models(text_tokens@),
                text.len() > 0,
                data_labels_from(data, 0, 0, Seq::empty()) == Ok::<(Seq<LabelModel>, int), AsmError>(
                    (label_models(data_labels@), address_offset as int),
                ),
                text_labels_from(text, 0, address_offset as int, text[0].label, 0, Seq::empty())
                    == text_labels_from(
                    text,
                    i as int,
                    address_offset as int,
                    text_label@,
                    first as int,
                    label_models(text_labels@),
                ),
            decreases text_tokens.len() - i,
        {
            if address_offset as usize > 0xFFFF - 0xDAC1 || i >= 0x4000 || (i + 1) * 4 > 0xFFFF
                - 0xDAC1 - address_offset as usize {
                return Err(AsmError::ProgramTooLarge);
            }
            let text_t = &text_tokens[i];
            if text_t.label != text_label {
                let label = Label::create_text(text_label, address_offset, (first * 4) as u16);
                let ghost before = label_models(text_labels@);
                let ghost added = label@;
                text_labels.push(label);
                assert(label_models(text_labels@) =~= before.push(added));
                text_label = text_t.label.clone();
                first = i;
            }
            if i == text_tokens.len() - 1 {
                let label = Label::create_text(
                    text_label.clone(),
                    address_offset,
                    (first * 4) as u16,
                );
                let ghost before = label_models(text_labels@);
                let ghost added = label@;
                text_labels.push(label);
                assert(label_models(text_labels@) =~= before.push(added));
            }
            i += 1;
        }
        Ok(AssemblerLabels { data_labels, text_labels })
    }

    /// The instruction that a line of the text section stands for.
    pub fn build(labels: &AssemblerLabels, token: &Token, mnemonic: Mnemonic) -> (built: Result<
        Instruction,
        AsmError,
    >)
        ensures
            builds(built, instruction_of(labels@, token@, mnemonic)),
    {
        match mnemonic {
            Mnemonic::LD => Assembler::inst_ld(labels, token),
            Mnemonic::MOV => Assembler::inst_mov(labels, token),
            Mnemonic::PSH => Assembler::inst_psh(labels, token),
            Mnemonic::POP => Assembler::inst_pop(labels, token),
            Mnemonic::LDS => Assembler::inst_lds(labels, token),
            Mnemonic::ST => Assembler::inst_st(labels, token),
            Mnemonic::STL => Assembler::inst_stl(labels, token),
            Mnemonic::STH => Assembler::inst_sth(labels, token),
            Mnemonic::CMP => Assembler::inst_cmp(labels, token),
            Mnemonic::BEQ => Assembler::inst_beq(labels, token),
            Mnemonic::BGT => Assembler::inst_bgt(labels, token),
            Mnemonic::BLT => Assembler::inst_blt(labels, token),
            Mnemonic::JMP => Assembler::inst_jmp(labels, token),
            Mnemonic::BOF => Assembler::inst_bof(labels, token),
            Mnemonic::BNE => Assembler::inst_bne(labels, token),
            Mnemonic::ADD => Assembler::inst_add(labels, token),
            Mnemonic::SUB => Assembler::inst_sub(labels, token),
            Mnemonic::CALL => Assembler::inst_call(labels, token),
            Mnemonic::RET => Assembler::inst_ret(labels, token),
            Mnemonic::HLT => Assembler::inst_hlt(labels, token),
            Mnemonic::NOP => Assembler::inst_nop(labels, token),
        }
    }

    /// Writes the image: the address of the start label, the data, the
    /// instructions.
    pub fn labels_to_bytes(&self, labels: &AssemblerLabels, tokens: (&Vec<Token>, &Vec<Token>)) -> (bytes:
        Result<Vec<u8>, AsmError>)
        ensures
            match program_image(self.start_label@, labels@, token_models(tokens.1@)) {
                Ok(image) => bytes is Ok && bytes.unwrap()@ == image,
                Err(error) => bytes == Err::<Vec<u8>, AsmError>(error),
            },
    {
        let mut bytes: Vec<u8> = Vec::new();
        let start_label = Assembler::find_label(&self.start_label, labels);
        if start_label.l_type == LabelType::Unset {
            return Err(AsmError::NoStartLabel);
        }
        bytes.push((start_label.addr / 256) as u8);
        bytes.push((start_label.addr % 256) as u8);
        assert(bytes@ =~= seq![
            (start_label.addr as int / 256) as u8,
            (start_label.addr as int % 256) as u8,
        ]);
        let ghost header = bytes@;
        let mut l: usize = 0;
        while l < labels.data_labels.len()
            invariant
                l <= labels.data_labels.len(),
                data_image(labels@.data, 0, header) == data_image(labels@.data, l as int, bytes@),
            decreases labels.data_labels.len() - l,
        {
            let chars = to_chars(labels.data_labels[l].value.as_str());
            let ghost before = bytes@;
            let mut c: usize = 0;
            while c < chars.len()
                invariant
                    c <= chars.len(),
                    l < labels.data_labels.len(),
                    chars@ == labels.data_labels@[l as int].value@,
                    data_image(labels@.data, 0, header) == data_image(
                        labels@.data,
                        l as int,
                        before,
                    ),
                    value_bytes(chars@, 0, before) == value_bytes(chars@, c as int, bytes@),
                decreases chars.len() - c,
            {
                bytes.push((chars[c] as u32 % 256) as u8);
                c += 1;
            }
            bytes.push(0);
            l += 1;
        }
        let ghost data = bytes@;
        let text_tokens = tokens.1;
        let mut t: usize = 0;
        while t < text_tokens.len()
            invariant
                t <= text_tokens.len(),
                text_tokens == tokens.1,
                program_image(self.start_label@, labels@, token_models(text_tokens@)) == text_image(
                    labels@,
                    token_models(text_tokens@),
                    0,
                    data,
                ),
                text_image(labels@, token_models(text_tokens@), 0, data) == text_image(
                    labels@,
                    token_models(text_tokens@),
                    t as int,
                    bytes@,
                ),
            decreases text_tokens.len() - t,
        {
            let token = &text_tokens[t];
            match find_mnemonic(&token.instruction) {
                Some(mnemonic) => {
                    let inst_bytes = Assembler::build(labels, token, mnemonic)?;
                    let ghost before = bytes@;
                    bytes.push(inst_bytes.opcode);
                    bytes.push(inst_bytes.register);
                    bytes.push((inst_bytes.data / 256) as u8);
                    bytes.push((inst_bytes.data % 256) as u8);
                    assert(bytes@ =~= before + word_bytes(
                        word(inst_bytes.opcode, inst_bytes.register, inst_bytes.data),
                    ));
                },
                None => {},
            }
            t += 1;
        }
        Ok(bytes)
    }

    /// Assembles the lines of the source and returns the image with the
    /// assembler, which then knows the start label.
    pub fn assemble(self) -> (result: Result<(Vec<u8>, Assembler), AsmError>)
        ensures
            match assembled(texts(self.lines@)) {
                Ok(image) => result is Ok && result.unwrap().0@ == image.0
                    && result.unwrap().1.start_label@ == image.1,
                Err(error) => result matches Err(found) && found == error,
            },
    {
        let mut assembler = self;
        assembler.fill_hashmap();
        let tokens = assembler.tokenize(&assembler.lines)?;
        assembler.start_label = tokens.0;
        let labels = assembler.parse_labels(&tokens.1, &tokens.2)?;
        let bytes = assembler.labels_to_bytes(&labels, (&tokens.1, &tokens.2))?;
        Ok((bytes, assembler))
    }
}

} // verus!
