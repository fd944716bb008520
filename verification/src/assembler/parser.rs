//! The parser: from the tokens of a source text to labels with addresses,
//! instructions with checked operands, data, and directives.

use super::tokenizer::{token_views, Token, TokenInfoType};
use crate::common::instruction::opcode::{form, lookup_form, AddressingMode, Opcode};
use crate::common::text::{
    from_chars, literal_value, lowered, parse_literal, remove_char, to_chars, to_lower, without,
};
use std::collections::HashMap;
use vstd::prelude::*;

verus! {

/// The address at which the program memory begins.
pub const PROGRAM_BASE: usize = 0x4402;

/// The largest offset at which a label may begin and the largest size of the
/// data section: what a sixteen-bit address can reach.
pub const SECTION_LIMIT: usize = 0xFFFF;

/// Why a token stream is no program. Each error carries what it is about: the
/// text of the token at fault, its kind, the name of the label, or the
/// mnemonic with its operands.
#[derive(Debug, Clone, PartialEq, Eq)]
pub enum ParseError {
    /// An `Error` token: text that is no token of the language.
    UnknownSymbol(String),
    /// A token that cannot stand where it stands, outside any label.
    UnknownToken(String),
    /// A label before any `.text` or `.data`.
    NoSection(String),
    /// The tokens end where one more is needed.
    UnexpectedEnd,
    /// A token of another kind stands where a number must stand.
    ExpectedNumber(Token),
    /// A token of another kind stands where a name must stand.
    ExpectedIdentifier(Token),
    /// A directive whose value is neither a number nor a name.
    ExpectedNumberOrIdentifier(Token),
    /// A data label that does not go on with `db`.
    ExpectedDefineByte(Token),
    /// A token in a data definition that is neither text nor number.
    InvalidData(Token),
    /// A numeric literal that is too large for its place, or none at all.
    InvalidNumber(String),
    /// A label name that another label, of text or of data, has.
    LabelAlreadyDefined(String),
    /// A text label without instructions.
    EmptyLabel(String),
    /// A mnemonic that the instruction set does not have.
    UnknownInstruction(String),
    /// A register that the processor does not have.
    UnknownRegister(String),
    /// A token that is no operand where an operand must stand.
    ExpectedArgument(Token),
    /// The mnemonic does not take operands of this kind.
    InvalidInstruction(Opcode, Vec<InstructionArg>),
    /// More operands than the mnemonic takes.
    TooManyArguments(Opcode, Vec<InstructionArg>),
    /// Fewer operands than the mnemonic takes.
    TooFewArguments(Opcode, Vec<InstructionArg>),
    /// The first of two operands is no register.
    FirstArgumentNotRegister(Opcode, Vec<InstructionArg>),
    /// The text or the data goes past what sixteen-bit addresses reach.
    ProgramTooLarge,
}

/// Why a token stream is no program, as a value.
pub enum ParseFailure {
    UnknownSymbol(Seq<char>),
    UnknownToken(Seq<char>),
    NoSection(Seq<char>),
    UnexpectedEnd,
    ExpectedNumber(Token),
    ExpectedIdentifier(Token),
    ExpectedNumberOrIdentifier(Token),
    ExpectedDefineByte(Token),
    InvalidData(Token),
    InvalidNumber(Seq<char>),
    LabelAlreadyDefined(Seq<char>),
    EmptyLabel(Seq<char>),
    UnknownInstruction(Seq<char>),
    UnknownRegister(Seq<char>),
    ExpectedArgument(Token),
    InvalidInstruction(Opcode, Seq<ArgModel>),
    TooManyArguments(Opcode, Seq<ArgModel>),
    TooFewArguments(Opcode, Seq<ArgModel>),
    FirstArgumentNotRegister(Opcode, Seq<ArgModel>),
    ProgramTooLarge,
}

impl View for ParseError {
    type V = ParseFailure;

    open spec fn view(&self) -> ParseFailure {
        match self {
            ParseError::UnknownSymbol(text) => ParseFailure::UnknownSymbol(text@),
            ParseError::UnknownToken(text) => ParseFailure::UnknownToken(text@),
            ParseError::NoSection(text) => ParseFailure::NoSection(text@),
            ParseError::UnexpectedEnd => ParseFailure::UnexpectedEnd,
            ParseError::ExpectedNumber(kind) => ParseFailure::ExpectedNumber(*kind),
            ParseError::ExpectedIdentifier(kind) => ParseFailure::ExpectedIdentifier(*kind),
            ParseError::ExpectedNumberOrIdentifier(kind) => ParseFailure::ExpectedNumberOrIdentifier(
                *kind,
            ),
            ParseError::ExpectedDefineByte(kind) => ParseFailure::ExpectedDefineByte(*kind),
            ParseError::InvalidData(kind) => ParseFailure::InvalidData(*kind),
            ParseError::InvalidNumber(text) => ParseFailure::InvalidNumber(text@),
            ParseError::LabelAlreadyDefined(name) => ParseFailure::LabelAlreadyDefined(name@),
            ParseError::EmptyLabel(name) => ParseFailure::EmptyLabel(name@),
            ParseError::UnknownInstruction(text) => ParseFailure::UnknownInstruction(text@),
            ParseError::UnknownRegister(text) => ParseFailure::UnknownRegister(text@),
            ParseError::ExpectedArgument(kind) => ParseFailure::ExpectedArgument(*kind),
            ParseError::InvalidInstruction(opcode, args) => ParseFailure::InvalidInstruction(
                *opcode,
                arg_views(args@),
            ),
            ParseError::TooManyArguments(opcode, args) => ParseFailure::TooManyArguments(
                *opcode,
                arg_views(args@),
            ),
            ParseError::TooFewArguments(opcode, args) => ParseFailure::TooFewArguments(
                *opcode,
                arg_views(args@),
            ),
            ParseError::FirstArgumentNotRegister(opcode, args) => (
                ParseFailure::FirstArgumentNotRegister(*opcode, arg_views(args@))
            ),
            ParseError::ProgramTooLarge => ParseFailure::ProgramTooLarge,
        }
    }
}

/// An operand of an instruction.
#[derive(Debug, Clone, PartialEq, Eq)]
pub enum InstructionArg {
    /// The number of a register, 0 to 8.
    Register(u8),
    Number(u16),
    Address(u32),
    /// The name of a label, to be resolved when the image is written.
    Identifier(String),
}

/// An operand as a value.
pub enum ArgModel {
    Register(u8),
    Number(u16),
    Address(u32),
    Identifier(Seq<char>),
}

impl View for InstructionArg {
    type V = ArgModel;

    open spec fn view(&self) -> ArgModel {
        match self {
            InstructionArg::Register(reg) => ArgModel::Register(*reg),
            InstructionArg::Number(number) => ArgModel::Number(*number),
            InstructionArg::Address(address) => ArgModel::Address(*address),
            InstructionArg::Identifier(name) => ArgModel::Identifier(name@),
        }
    }
}

impl ArgModel {
    /// The addressing mode that an operand of this kind asks for.
    pub open spec fn mode(self) -> AddressingMode {
        match self {
            ArgModel::Register(_) => AddressingMode::Register,
            ArgModel::Number(_) => AddressingMode::Immediate,
            ArgModel::Address(_) => AddressingMode::Direct,
            ArgModel::Identifier(_) => AddressingMode::Direct,
        }
    }

    /// The number of bytes that the operand takes after the two bytes that
    /// every instruction has. A register takes none where it is the only
    /// operand and one where it is the second. A number or an address takes
    /// one byte up to 255, two up to 65535, three above. A name takes two.
    pub open spec fn width(self, second: bool) -> int {
        match self {
            ArgModel::Register(_) => if second {
                1
            } else {
                0
            },
            ArgModel::Number(number) => if number > 255 {
                2
            } else {
                1
            },
            ArgModel::Address(address) => if address <= 255 {
                1
            } else if address <= 65535 {
                2
            } else {
                3
            },
            ArgModel::Identifier(_) => 2,
        }
    }
}

/// The number of operands of an instruction.
#[derive(Debug, Clone, Copy, PartialEq, Eq, Structural)]
pub enum InstructionType {
    Zero,
    One,
    Two,
}

/// The section of the source in which the parser stands.
#[derive(Debug, Clone, Copy, PartialEq, Eq, Structural)]
pub enum Sections {
    Unset,
    Text,
    Data,
}

/// An instruction whose operands fit its mnemonic.
#[derive(Debug, Clone)]
pub struct ParserInstruction {
    pub opcode: Opcode,
    pub addressing_mode: AddressingMode,
    pub instruction_type: InstructionType,
    pub args: Vec<InstructionArg>,
}

/// An instruction as a value.
pub struct InstructionModel {
    pub opcode: Opcode,
    pub addressing_mode: AddressingMode,
    pub instruction_type: InstructionType,
    pub args: Seq<ArgModel>,
}

/// The operands as values.
pub open spec fn arg_views(args: Seq<InstructionArg>) -> Seq<ArgModel> {
    Seq::new(args.len(), |i: int| args[i]@)
}

impl View for ParserInstruction {
    type V = InstructionModel;

    open spec fn view(&self) -> InstructionModel {
        InstructionModel {
            opcode: self.opcode,
            addressing_mode: self.addressing_mode,
            instruction_type: self.instruction_type,
            args: arg_views(self.args@),
        }
    }
}

impl InstructionModel {
    /// The number of bytes of the encoded instruction: two, and what its last
    /// operand takes.
    pub open spec fn length(self) -> int {
        match self.instruction_type {
            InstructionType::Zero => 2,
            InstructionType::One => if self.args.len() >= 1 {
                2 + self.args[0].width(false)
            } else {
                2
            },
            InstructionType::Two => if self.args.len() >= 2 {
                2 + self.args[1].width(true)
            } else {
                2
            },
        }
    }

    /// Whether the instruction is one that `get_instruction` makes: its mode
    /// and its count follow from its operands, the first of two operands is a
    /// register, and the opcode table has the form with that count.
    #[verifier::opaque]
    pub open spec fn well_formed(self) -> bool {
        checked_instruction(self.opcode, self.args) == Ok::<InstructionModel, ParseFailure>(self)
    }
}

/// What being well formed means for the shape of an instruction: its count
/// is the number of its operands, its mode is the one that its last operand
/// asks for, the first of two operands is a register, and the opcode table
/// has the mnemonic in that mode.
pub proof fn lemma_well_formed_shape(instruction: InstructionModel)
    requires
        instruction.well_formed(),
    ensures
        form(instruction.opcode, instruction.addressing_mode) is Some,
        match instruction.instruction_type {
            InstructionType::Zero => instruction.args.len() == 0 && instruction.addressing_mode
                == AddressingMode::Discard,
            InstructionType::One => instruction.args.len() == 1 && instruction.addressing_mode
                == instruction.args[0].mode(),
            InstructionType::Two => instruction.args.len() == 2 && instruction.args[0] is Register
                && instruction.addressing_mode == instruction.args[1].mode(),
        },
{
    reveal(InstructionModel::well_formed);
}

/// What `get_instruction` makes is well formed.
pub proof fn lemma_checked_is_well_formed(opcode: Opcode, args: Seq<ArgModel>)
    requires
        checked_instruction(opcode, args) is Ok,
    ensures
        checked_instruction(opcode, args)->Ok_0.well_formed(),
{
    reveal(InstructionModel::well_formed);
}

/// The instruction that a mnemonic makes with its operands, or what is wrong
/// with them. Without operands the mode is `Discard`; else the last operand
/// decides the mode, and the first of two must be a register. The opcode
/// table must have the mnemonic in that mode, with as many operands.
pub open spec fn checked_instruction(opcode: Opcode, args: Seq<ArgModel>) -> Result<
    InstructionModel,
    ParseFailure,
> {
    if args.len() == 0 {
        match form(opcode, AddressingMode::Discard) {
            Some(_) => Ok(
                InstructionModel {
                    opcode,
                    addressing_mode: AddressingMode::Discard,
                    instruction_type: InstructionType::Zero,
                    args,
                },
            ),
            None => Err(ParseFailure::InvalidInstruction(opcode, args)),
        }
    } else if args.len() == 1 {
        match form(opcode, args[0].mode()) {
            None => Err(ParseFailure::InvalidInstruction(opcode, args)),
            Some((_, count)) => if count < 1 {
                Err(ParseFailure::TooManyArguments(opcode, args))
            } else if count > 1 {
                Err(ParseFailure::TooFewArguments(opcode, args))
            } else {
                Ok(
                    InstructionModel {
                        opcode,
                        addressing_mode: args[0].mode(),
                        instruction_type: InstructionType::One,
                        args,
                    },
                )
            },
        }
    } else if args.len() == 2 {
        if !(args[0] is Register) {
            Err(ParseFailure::FirstArgumentNotRegister(opcode, args))
        } else {
            match form(opcode, args[1].mode()) {
                None => Err(ParseFailure::InvalidInstruction(opcode, args)),
                Some((_, count)) => if count < 2 {
                    Err(ParseFailure::TooManyArguments(opcode, args))
                } else if count > 2 {
                    Err(ParseFailure::TooFewArguments(opcode, args))
                } else {
                    Ok(
                        InstructionModel {
                            opcode,
                            addressing_mode: args[1].mode(),
                            instruction_type: InstructionType::Two,
                            args,
                        },
                    )
                },
            }
        }
    } else {
        Err(ParseFailure::TooManyArguments(opcode, args))
    }
}

impl InstructionArg {
    /// The addressing mode that an operand of this kind asks for.
    pub fn mode(&self) -> (mode: AddressingMode)
        ensures
            mode == self@.mode(),
    {
        match self {
            InstructionArg::Register(_) => AddressingMode::Register,
            InstructionArg::Number(_) => AddressingMode::Immediate,
            InstructionArg::Address(_) => AddressingMode::Direct,
            InstructionArg::Identifier(_) => AddressingMode::Direct,
        }
    }

    /// The number of bytes that the operand takes after the two bytes that
    /// every instruction has.
    pub fn width(&self, second: bool) -> (width: usize)
        ensures
            width == self@.width(second),
            width <= 3,
    {
        match self {
            InstructionArg::Register(_) => if second {
                1
            } else {
                0
            },
            InstructionArg::Number(number) => if *number > 255 {
                2
            } else {
                1
            },
            InstructionArg::Address(address) => if *address <= 255 {
                1
            } else if *address <= 65535 {
                2
            } else {
                3
            },
            InstructionArg::Identifier(_) => 2,
        }
    }
}

impl ParserInstruction {
    /// Makes the instruction of a mnemonic and its operands, or says what is
    /// wrong with them.
    pub fn get_instruction(opcode: Opcode, args: Vec<InstructionArg>) -> (made: Result<
        ParserInstruction,
        ParseError,
    >)
        ensures
            match made {
                Ok(instruction) => checked_instruction(opcode, arg_views(args@)) == Ok::<
                    InstructionModel,
                    ParseFailure,
                >(instruction@),
                Err(error) => checked_instruction(opcode, arg_views(args@)) == Err::<
                    InstructionModel,
                    ParseFailure,
                >(error@),
            },
    {
        if args.len() == 0 {
            match lookup_form(opcode, AddressingMode::Discard) {
                Some(_) => Ok(
                    ParserInstruction {
                        opcode,
                        addressing_mode: AddressingMode::Discard,
                        instruction_type: InstructionType::Zero,
                        args,
                    },
                ),
                None => Err(ParseError::InvalidInstruction(opcode, args)),
            }
        } else if args.len() == 1 {
            let mode = args[0].mode();
            match lookup_form(opcode, mode) {
                None => Err(ParseError::InvalidInstruction(opcode, args)),
                Some((_, count)) => if count < 1 {
                    Err(ParseError::TooManyArguments(opcode, args))
                } else if count > 1 {
                    Err(ParseError::TooFewArguments(opcode, args))
                } else {
                    Ok(
                        ParserInstruction {
                            opcode,
                            addressing_mode: mode,
                            instruction_type: InstructionType::One,
                            args,
                        },
                    )
                },
            }
        } else if args.len() == 2 {
            match args[0] {
                InstructionArg::Register(_) => {},
                _ => {
                    return Err(ParseError::FirstArgumentNotRegister(opcode, args));
                },
            }
            let mode = args[1].mode();
            match lookup_form(opcode, mode) {
                None => Err(ParseError::InvalidInstruction(opcode, args)),
                Some((_, count)) => if count < 2 {
                    Err(ParseError::TooManyArguments(opcode, args))
                } else if count > 2 {
                    Err(ParseError::TooFewArguments(opcode, args))
                } else {
                    Ok(
                        ParserInstruction {
                            opcode,
                            addressing_mode: mode,
                            instruction_type: InstructionType::Two,
                            args,
                        },
                    )
                },
            }
        } else {
            Err(ParseError::TooManyArguments(opcode, args))
        }
    }

    /// The number of bytes of the encoded instruction.
    pub fn len(&self) -> (length: usize)
        ensures
            length == self@.length(),
            2 <= length <= 5,
    {
        match self.instruction_type {
            InstructionType::Zero => 2,
            InstructionType::One => if self.args.len() >= 1 {
                2 + self.args[0].width(false)
            } else {
                2
            },
            InstructionType::Two => if self.args.len() >= 2 {
                2 + self.args[1].width(true)
            } else {
                2
            },
        }
    }
}

/// The value of a directive.
#[derive(Debug, Clone)]
pub enum MetadataValue {
    String(String),
    Number(u16),
}

/// The value of a directive as a value.
pub enum MetadataModel {
    String(Seq<char>),
    Number(u16),
}

impl View for MetadataValue {
    type V = MetadataModel;

    open spec fn view(&self) -> MetadataModel {
        match self {
            MetadataValue::String(text) => MetadataModel::String(text@),
            MetadataValue::Number(number) => MetadataModel::Number(*number),
        }
    }
}

/// A text label: a name, the instructions under it, and the address of the
/// first of them.
#[derive(Debug, Clone)]
pub struct Label {
    pub name: String,
    pub instructions: Vec<ParserInstruction>,
    pub addr: usize,
}

/// A text label as a value.
pub struct LabelModel {
    pub name: Seq<char>,
    pub instructions: Seq<InstructionModel>,
    pub addr: int,
}

/// The instructions as values.
pub open spec fn instruction_views(instructions: Seq<ParserInstruction>) -> Seq<InstructionModel> {
    Seq::new(instructions.len(), |i: int| instructions[i]@)
}

/// The number of bytes that the instructions from position `from` on take.
pub open spec fn length_from(instructions: Seq<InstructionModel>, from: int) -> int
    decreases instructions.len() - from,
{
    if from < 0 || from >= instructions.len() {
        0
    } else {
        instructions[from].length() + length_from(instructions, from + 1)
    }
}

/// The number of bytes that the instructions take.
pub open spec fn total_length(instructions: Seq<InstructionModel>) -> int {
    length_from(instructions, 0)
}

/// No run of instructions has a negative length.
pub proof fn lemma_length_not_negative(instructions: Seq<InstructionModel>, from: int)
    ensures
        length_from(instructions, from) >= 0,
    decreases instructions.len() - from,
{
    if 0 <= from < instructions.len() {
        lemma_length_not_negative(instructions, from + 1);
    }
}

/// The length of a run of instructions with one more at its end.
pub proof fn lemma_length_push(instructions: Seq<InstructionModel>, last: InstructionModel, from: int)
    requires
        0 <= from <= instructions.len(),
    ensures
        length_from(instructions.push(last), from) == length_from(instructions, from)
            + last.length(),
    decreases instructions.len() - from,
{
    let longer = instructions.push(last);
    if from < instructions.len() {
        lemma_length_push(instructions, last, from + 1);
        assert(longer[from] == instructions[from]);
    } else {
        assert(longer[from] == last);
        assert(length_from(longer, from + 1) == 0);
    }
}

impl View for Label {
    type V = LabelModel;

    open spec fn view(&self) -> LabelModel {
        LabelModel {
            name: self.name@,
            instructions: instruction_views(self.instructions@),
            addr: self.addr as int,
        }
    }
}

impl Label {
    /// A label without instructions.
    pub fn new(name: String, addr: usize) -> (label: Label)
        ensures
            label@ == (LabelModel { name: name@, instructions: Seq::empty(), addr: addr as int }),
    {
        let label = Label { name, instructions: Vec::new(), addr };
        assert(instruction_views(label.instructions@) =~= Seq::<InstructionModel>::empty());
        label
    }

    /// Puts an instruction at the end of the label.
    pub fn add(&mut self, instruction: ParserInstruction)
        ensures
            final(self)@ == (LabelModel {
                instructions: old(self)@.instructions.push(instruction@),
                ..old(self)@
            }),
    {
        self.instructions.push(instruction);
        assert(instruction_views(self.instructions@) =~= instruction_views(
            old(self).instructions@,
        ).push(instruction@));
    }

    /// The number of bytes that the instructions of the label take; the
    /// largest number that `usize` holds where it is more than that.
    pub fn len(&self) -> (size: usize)
        ensures
            size == if total_length(self@.instructions) <= usize::MAX {
                total_length(self@.instructions)
            } else {
                usize::MAX as int
            },
    {
        let mut size: usize = 0;
        let mut i: usize = 0;
        let ghost instructions = self@.instructions;
        while i < self.instructions.len()
            invariant
                i <= self.instructions.len(),
                instructions == self@.instructions,
                total_length(instructions) == size + length_from(instructions, i as int),
            decreases self.instructions.len() - i,
        {
            let length = self.instructions[i].len();
            proof {
                lemma_length_not_negative(instructions, i + 1);
            }
            if size > usize::MAX - length {
                return usize::MAX;
            }
            size += length;
            i += 1;
        }
        size
    }
}

/// A piece of data and the offset in the data section at which it begins.
#[derive(Debug, Clone)]
pub enum DefineByteData {
    /// Text, one byte for each character.
    String(String, usize),
    Byte(u8, usize),
    /// A word, the high byte first.
    Short(u16, usize),
}

/// A piece of data as a value.
pub enum DataModel {
    String(Seq<char>, int),
    Byte(u8, int),
    Short(u16, int),
}

impl View for DefineByteData {
    type V = DataModel;

    open spec fn view(&self) -> DataModel {
        match self {
            DefineByteData::String(text, offset) => DataModel::String(text@, *offset as int),
            DefineByteData::Byte(byte, offset) => DataModel::Byte(*byte, *offset as int),
            DefineByteData::Short(short, offset) => DataModel::Short(*short, *offset as int),
        }
    }
}

impl DataModel {
    /// The number of bytes of the piece.
    pub open spec fn length(self) -> int {
        match self {
            DataModel::String(text, _) => text.len() as int,
            DataModel::Byte(_, _) => 1,
            DataModel::Short(_, _) => 2,
        }
    }

    /// The offset in the data section at which the piece begins.
    pub open spec fn offset(self) -> int {
        match self {
            DataModel::String(_, offset) => offset,
            DataModel::Byte(_, offset) => offset,
            DataModel::Short(_, offset) => offset,
        }
    }
}

impl DefineByteData {
    /// The number of bytes of the piece: one for each character of a text,
    /// one for a byte, two for a word.
    pub fn len(&self) -> (length: usize)
        ensures
            length == self@.length(),
    {
        match self {
            DefineByteData::String(text, _) => text.as_str().unicode_len(),
            DefineByteData::Byte(_, _) => 1,
            DefineByteData::Short(_, _) => 2,
        }
    }
}

/// What the parser hands on: the directives, the interrupt vectors, the text
/// labels and the data labels, each in the order of the source.
#[derive(Debug)]
pub struct ParserResult {
    /// The directives by name. Of two with one name the later one counts.
    pub metadata: Vec<(String, MetadataValue)>,
    /// The label of each interrupt by its number.
    pub interrupts: HashMap<u8, String>,
    pub text_labels: Vec<Label>,
    /// The data labels by name. No name occurs twice.
    pub data_labels: Vec<(String, Vec<DefineByteData>)>,
}

/// What the parser hands on, as a value.
pub struct ParserResultModel {
    pub metadata: Seq<(Seq<char>, MetadataModel)>,
    pub interrupts: Map<u8, Seq<char>>,
    pub text_labels: Seq<LabelModel>,
    pub data_labels: Seq<(Seq<char>, Seq<DataModel>)>,
}

/// The directives as values.
pub open spec fn metadata_views(metadata: Seq<(String, MetadataValue)>) -> Seq<
    (Seq<char>, MetadataModel),
> {
    Seq::new(metadata.len(), |i: int| (metadata[i].0@, metadata[i].1@))
}

/// The interrupt vectors as values.
pub open spec fn interrupt_views(interrupts: Map<u8, String>) -> Map<u8, Seq<char>> {
    Map::new(|number: u8| interrupts.contains_key(number), |number: u8| interrupts[number]@)
}

/// The text labels as values.
pub open spec fn label_views(labels: Seq<Label>) -> Seq<LabelModel> {
    Seq::new(labels.len(), |i: int| labels[i]@)
}

/// The pieces of data as values.
pub open spec fn data_views(data: Seq<DefineByteData>) -> Seq<DataModel> {
    Seq::new(data.len(), |i: int| data[i]@)
}

/// The data labels as values.
pub open spec fn data_label_views(labels: Seq<(String, Vec<DefineByteData>)>) -> Seq<
    (Seq<char>, Seq<DataModel>),
> {
    Seq::new(labels.len(), |i: int| (labels[i].0@, data_views(labels[i].1@)))
}

impl ParserResultModel {
    /// Whether every address and every offset of the program is a number
    /// that is not negative, as those of a `ParserResult` are.
    pub open spec fn placed(self) -> bool {
        &&& forall|i: int|
            0 <= i < self.text_labels.len() ==> (#[trigger] self.text_labels[i]).addr >= 0
        &&& forall|i: int, j: int|
            0 <= i < self.data_labels.len() && 0 <= j < self.data_labels[i].1.len() ==> (
            #[trigger] self.data_labels[i].1[j]).offset() >= 0
    }
}

/// What a `ParserResult` holds is placed.
pub proof fn lemma_result_is_placed(result: &ParserResult)
    ensures
        result@.placed(),
{
}

impl View for ParserResult {
    type V = ParserResultModel;

    open spec fn view(&self) -> ParserResultModel {
        ParserResultModel {
            metadata: metadata_views(self.metadata@),
            interrupts: interrupt_views(self.interrupts@),
            text_labels: label_views(self.text_labels@),
            data_labels: data_label_views(self.data_labels@),
        }
    }
}

impl ParserResult {
    pub fn new(
        metadata: Vec<(String, MetadataValue)>,
        text_labels: Vec<Label>,
        data_labels: Vec<(String, Vec<DefineByteData>)>,
        interrupts: HashMap<u8, String>,
    ) -> (result: ParserResult)
        ensures
            result.metadata == metadata,
            result.text_labels == text_labels,
            result.data_labels == data_labels,
            result.interrupts == interrupts,
    {
        ParserResult { metadata, text_labels, data_labels, interrupts }
    }
}

/// The position of the first text label, at or after position `from`, with
/// the name `name`.
pub open spec fn text_label_index(labels: Seq<LabelModel>, name: Seq<char>, from: int) -> Option<int>
    decreases labels.len() - from,
{
    if from < 0 || from >= labels.len() {
        None
    } else if labels[from].name == name {
        Some(from)
    } else {
        text_label_index(labels, name, from + 1)
    }
}

/// The position of the first data label, at or after position `from`, with
/// the name `name`.
pub open spec fn data_label_index(
    labels: Seq<(Seq<char>, Seq<DataModel>)>,
    name: Seq<char>,
    from: int,
) -> Option<int>
    decreases labels.len() - from,
{
    if from < 0 || from >= labels.len() {
        None
    } else if labels[from].0 == name {
        Some(from)
    } else {
        data_label_index(labels, name, from + 1)
    }
}

/// A label that is found stands in the list, at or behind the position from
/// which it was looked for, and has the name that was looked for.
pub proof fn lemma_label_index_in_range(
    text: Seq<LabelModel>,
    data: Seq<(Seq<char>, Seq<DataModel>)>,
    name: Seq<char>,
    from: int,
)
    requires
        0 <= from,
    ensures
        text_label_index(text, name, from) matches Some(at) ==> from <= at < text.len()
            && text[at].name == name,
        data_label_index(data, name, from) matches Some(at) ==> from <= at < data.len()
            && data[at].0 == name,
    decreases text.len() + data.len() - from,
{
    if from < text.len() || from < data.len() {
        lemma_label_index_in_range(text, data, name, from + 1);
    }
}

/// The number of the register that a register token names: the token without
/// its first character, in small letters, is `1` to `6` for the registers 0
/// to 5, `pc` for 6, `sp` for 7 and `bp` for 8.
pub open spec fn register_index(lexeme: Seq<char>) -> Option<u8> {
    let name = lowered(lexeme.skip(1));
    if lexeme.len() == 0 {
        None
    } else if name == seq!['1'] {
        Some(0u8)
    } else if name == seq!['2'] {
        Some(1u8)
    } else if name == seq!['3'] {
        Some(2u8)
    } else if name == seq!['4'] {
        Some(3u8)
    } else if name == seq!['5'] {
        Some(4u8)
    } else if name == seq!['6'] {
        Some(5u8)
    } else if name == seq!['p', 'c'] {
        Some(6u8)
    } else if name == seq!['s', 'p'] {
        Some(7u8)
    } else if name == seq!['b', 'p'] {
        Some(8u8)
    } else {
        None
    }
}

/// The operand that a token stands for.
pub open spec fn operand_of(token: (Token, Seq<char>)) -> Result<ArgModel, ParseFailure> {
    match token.0 {
        Token::Register => match register_index(token.1) {
            Some(reg) => Ok(ArgModel::Register(reg)),
            None => Err(ParseFailure::UnknownRegister(token.1)),
        },
        Token::Number => match literal_value(token.1, 0xFFFF) {
            Some(number) => Ok(ArgModel::Number(number as u16)),
            None => Err(ParseFailure::InvalidNumber(token.1)),
        },
        Token::Address => match literal_value(without(token.1, '$'), 0xFFFF_FFFF) {
            Some(address) => Ok(ArgModel::Address(address as u32)),
            None => Err(ParseFailure::InvalidNumber(token.1)),
        },
        Token::Identifier => Ok(ArgModel::Identifier(token.1)),
        _ => Err(ParseFailure::ExpectedArgument(token.0)),
    }
}

/// The token at position `at`, if the tokens go that far.
pub open spec fn token_at(tokens: Seq<(Token, Seq<char>)>, at: int) -> Option<(Token, Seq<char>)> {
    if 0 <= at < tokens.len() {
        Some(tokens[at])
    } else {
        None
    }
}

/// An instruction and the position of the token behind it.
pub struct ParsedInstruction {
    pub instruction: InstructionModel,
    pub next: int,
}

/// The instruction whose mnemonic stands at position `at`, and the position
/// behind it. The token after the mnemonic is the first operand, unless the
/// line or the source ends there. A comma after a first operand that is a
/// register announces a second operand.
pub open spec fn instruction_at(tokens: Seq<(Token, Seq<char>)>, at: int) -> Result<
    ParsedInstruction,
    ParseFailure,
> {
    match Opcode::named(lowered(tokens[at].1)) {
        None => Err(ParseFailure::UnknownInstruction(tokens[at].1)),
        Some(opcode) => {
            let first = token_at(tokens, at + 1);
            if first is None || first.unwrap().0 == Token::NewLine {
                match checked_instruction(opcode, Seq::empty()) {
                    Ok(instruction) => Ok(ParsedInstruction { instruction, next: at + 1 }),
                    Err(error) => Err(error),
                }
            } else {
                match operand_of(first.unwrap()) {
                    Err(error) => Err(error),
                    Ok(arg0) => {
                        let comma = token_at(tokens, at + 2);
                        if arg0 is Register && comma is Some && comma.unwrap().0 == Token::Comma {
                            match token_at(tokens, at + 3) {
                                None => Err(ParseFailure::UnexpectedEnd),
                                Some(second) => match operand_of(second) {
                                    Err(error) => Err(error),
                                    Ok(arg1) => match checked_instruction(opcode, seq![arg0, arg1]) {
                                        Ok(instruction) => Ok(
                                            ParsedInstruction { instruction, next: at + 4 },
                                        ),
                                        Err(error) => Err(error),
                                    },
                                },
                            }
                        } else {
                            match checked_instruction(opcode, seq![arg0]) {
                                Ok(instruction) => Ok(
                                    ParsedInstruction { instruction, next: at + 2 },
                                ),
                                Err(error) => Err(error),
                            }
                        }
                    },
                }
            }
        },
    }
}

/// The instructions of a label, and the position of the token behind them.
pub struct ParsedBody {
    pub instructions: Seq<InstructionModel>,
    pub next: int,
}

/// The instructions that follow `found` from position `at` on: ends of line
/// are passed over, every name begins an instruction, and anything else ends
/// the label.
pub open spec fn body_from(
    tokens: Seq<(Token, Seq<char>)>,
    at: int,
    found: Seq<InstructionModel>,
) -> Result<ParsedBody, ParseFailure>
    decreases tokens.len() - at,
{
    if at < 0 || at >= tokens.len() {
        Ok(ParsedBody { instructions: found, next: at })
    } else if tokens[at].0 == Token::NewLine {
        body_from(tokens, at + 1, found)
    } else if tokens[at].0 != Token::Identifier {
        Ok(ParsedBody { instructions: found, next: at })
    } else {
        match instruction_at(tokens, at) {
            Err(error) => Err(error),
            Ok(parsed) => if parsed.next <= at || parsed.next > tokens.len() {
                Err(ParseFailure::UnexpectedEnd)
            } else {
                body_from(tokens, parsed.next, found.push(parsed.instruction))
            },
        }
    }
}

/// The pieces of a data definition, the position of the token behind them,
/// and the offset behind the last piece.
pub struct ParsedData {
    pub data: Seq<DataModel>,
    pub next: int,
    pub offset: int,
}

/// The pieces of data that follow `found` from position `at` on, the first of
/// them at `offset`: texts without their quotes, numbers up to 255 as bytes
/// and above as words; commas are passed over, and the end of the line ends
/// the definition.
pub open spec fn data_from(
    tokens: Seq<(Token, Seq<char>)>,
    at: int,
    offset: int,
    found: Seq<DataModel>,
) -> Result<ParsedData, ParseFailure>
    decreases tokens.len() - at,
{
    if at < 0 || at >= tokens.len() || tokens[at].0 == Token::NewLine {
        Ok(ParsedData { data: found, next: at, offset })
    } else if tokens[at].0 == Token::Comma {
        data_from(tokens, at + 1, offset, found)
    } else if tokens[at].0 == Token::String {
        let text = without(tokens[at].1, '"');
        if offset + text.len() > 0xFFFF {
            Err(ParseFailure::ProgramTooLarge)
        } else {
            data_from(
                tokens,
                at + 1,
                offset + text.len(),
                found.push(DataModel::String(text, offset)),
            )
        }
    } else if tokens[at].0 == Token::Number {
        match literal_value(tokens[at].1, 0xFFFF) {
            None => Err(ParseFailure::InvalidNumber(tokens[at].1)),
            Some(number) => if number > 255 {
                if offset + 2 > 0xFFFF {
                    Err(ParseFailure::ProgramTooLarge)
                } else {
                    data_from(
                        tokens,
                        at + 1,
                        offset + 2,
                        found.push(DataModel::Short(number as u16, offset)),
                    )
                }
            } else {
                if offset + 1 > 0xFFFF {
                    Err(ParseFailure::ProgramTooLarge)
                } else {
                    data_from(
                        tokens,
                        at + 1,
                        offset + 1,
                        found.push(DataModel::Byte(number as u8, offset)),
                    )
                }
            },
        }
    } else {
        Err(ParseFailure::InvalidData(tokens[at].0))
    }
}

/// The parser between two steps, as a value.
pub struct ParserModel {
    pub tokens: Seq<(Token, Seq<char>)>,
    pub metadata: Seq<(Seq<char>, MetadataModel)>,
    pub interrupts: Map<u8, Seq<char>>,
    pub text_labels: Seq<LabelModel>,
    pub data_labels: Seq<(Seq<char>, Seq<DataModel>)>,
    pub index: int,
    pub label_offset: int,
    pub data_offset: int,
    pub section: Sections,
}

impl ParserModel {
    /// Whether a label of text or of data has the name `name`.
    pub open spec fn label_exists(self, name: Seq<char>) -> bool {
        text_label_index(self.text_labels, name, 0) is Some || data_label_index(
            self.data_labels,
            name,
            0,
        ) is Some
    }

    /// A directive: the name without its dot, and the name or number after
    /// it.
    pub open spec fn with_metadata(self) -> Result<ParserModel, ParseFailure> {
        let name = without(self.tokens[self.index].1, '.');
        match token_at(self.tokens, self.index + 1) {
            None => Err(ParseFailure::UnexpectedEnd),
            Some(value) => if value.0 == Token::Identifier {
                Ok(
                    ParserModel {
                        metadata: self.metadata.push((name, MetadataModel::String(value.1))),
                        index: self.index + 2,
                        ..self
                    },
                )
            } else if value.0 == Token::Number {
                match literal_value(value.1, 0xFFFF) {
                    None => Err(ParseFailure::InvalidNumber(value.1)),
                    Some(number) => Ok(
                        ParserModel {
                            metadata: self.metadata.push(
                                (name, MetadataModel::Number(number as u16)),
                            ),
                            index: self.index + 2,
                            ..self
                        },
                    ),
                }
            } else {
                Err(ParseFailure::ExpectedNumberOrIdentifier(value.0))
            },
        }
    }

    /// An interrupt vector: `.int`, the number of the interrupt, and the name
    /// of the label that serves it.
    pub open spec fn with_interrupt(self) -> Result<ParserModel, ParseFailure> {
        match token_at(self.tokens, self.index + 1) {
            None => Err(ParseFailure::UnexpectedEnd),
            Some(number) => if number.0 != Token::Number {
                Err(ParseFailure::ExpectedNumber(number.0))
            } else {
                match token_at(self.tokens, self.index + 2) {
                    None => Err(ParseFailure::UnexpectedEnd),
                    Some(label) => if label.0 != Token::Identifier {
                        Err(ParseFailure::ExpectedIdentifier(label.0))
                    } else {
                        match literal_value(number.1, 255) {
                            None => Err(ParseFailure::InvalidNumber(number.1)),
                            Some(interrupt) => Ok(
                                ParserModel {
                                    interrupts: self.interrupts.insert(interrupt as u8, label.1),
                                    index: self.index + 3,
                                    ..self
                                },
                            ),
                        }
                    },
                }
            },
        }
    }

    /// A text label: its name without the colon, which no label has yet, and
    /// one instruction or more. Its address is the base of the program
    /// memory and the bytes of all instructions before it.
    pub open spec fn with_text_label(self) -> Result<ParserModel, ParseFailure> {
        let name = without(self.tokens[self.index].1, ':');
        if self.label_exists(name) {
            Err(ParseFailure::LabelAlreadyDefined(name))
        } else if self.label_offset > 0xFFFF {
            Err(ParseFailure::ProgramTooLarge)
        } else {
            match body_from(self.tokens, self.index + 1, Seq::empty()) {
                Err(error) => Err(error),
                Ok(body) => if body.instructions.len() == 0 {
                    Err(ParseFailure::EmptyLabel(name))
                } else if self.label_offset + total_length(body.instructions) >= usize::MAX {
                    Err(ParseFailure::ProgramTooLarge)
                } else {
                    Ok(
                        ParserModel {
                            text_labels: self.text_labels.push(
                                LabelModel {
                                    name,
                                    instructions: body.instructions,
                                    addr: self.label_offset + 0x4402,
                                },
                            ),
                            label_offset: self.label_offset + total_length(body.instructions),
                            index: body.next,
                            ..self
                        },
                    )
                },
            }
        }
    }

    /// A data label: its name without the colon, which no label has yet,
    /// `db`, and the pieces of data. The first piece lies behind the last
    /// piece of the data label before it.
    pub open spec fn with_data_label(self) -> Result<ParserModel, ParseFailure> {
        let name = without(self.tokens[self.index].1, ':');
        if self.label_exists(name) {
            Err(ParseFailure::LabelAlreadyDefined(name))
        } else {
            match token_at(self.tokens, self.index + 1) {
                None => Err(ParseFailure::UnexpectedEnd),
                Some(define) => if define.0 != Token::DefineByte {
                    Err(ParseFailure::ExpectedDefineByte(define.0))
                } else {
                    match data_from(self.tokens, self.index + 2, self.data_offset, Seq::empty()) {
                        Err(error) => Err(error),
                        Ok(parsed) => Ok(
                            ParserModel {
                                data_labels: self.data_labels.push((name, parsed.data)),
                                data_offset: parsed.offset,
                                index: parsed.next,
                                ..self
                            },
                        ),
                    }
                },
            }
        }
    }

    /// What the token at the parser's position makes of the parser. The
    /// position lies in the tokens.
    pub open spec fn stepped(self) -> Result<ParserModel, ParseFailure> {
        let kind = self.tokens[self.index].0;
        if kind == Token::Metadata {
            self.with_metadata()
        } else if kind == Token::InterruptDefine {
            self.with_interrupt()
        } else if kind == Token::Label {
            match self.section {
                Sections::Text => self.with_text_label(),
                Sections::Data => self.with_data_label(),
                Sections::Unset => Err(ParseFailure::NoSection(self.tokens[self.index].1)),
            }
        } else if kind == Token::Error {
            Err(ParseFailure::UnknownSymbol(self.tokens[self.index].1))
        } else if kind == Token::NewLine {
            Ok(ParserModel { index: self.index + 1, ..self })
        } else if kind == Token::TextSection {
            Ok(ParserModel { section: Sections::Text, index: self.index + 1, ..self })
        } else if kind == Token::DataSection {
            Ok(ParserModel { section: Sections::Data, index: self.index + 1, ..self })
        } else {
            Err(ParseFailure::UnknownToken(self.tokens[self.index].1))
        }
    }

    /// The parser after all its tokens.
    pub open spec fn finished(self) -> Result<ParserModel, ParseFailure>
        decreases self.tokens.len() - self.index,
    {
        if self.index < 0 || self.index >= self.tokens.len() {
            Ok(self)
        } else {
            match self.stepped() {
                Err(error) => Err(error),
                Ok(next) => if next.index <= self.index || next.index > self.tokens.len()
                    || next.tokens != self.tokens {
                    Err(ParseFailure::UnexpectedEnd)
                } else {
                    next.finished()
                },
            }
        }
    }

    /// What the parser has found.
    pub open spec fn found(self) -> ParserResultModel {
        ParserResultModel {
            metadata: self.metadata,
            interrupts: self.interrupts,
            text_labels: self.text_labels,
            data_labels: self.data_labels,
        }
    }
}

/// A parser before its first token.
pub open spec fn fresh_parser(tokens: Seq<(Token, Seq<char>)>) -> ParserModel {
    ParserModel {
        tokens,
        metadata: Seq::empty(),
        interrupts: Map::empty(),
        text_labels: Seq::empty(),
        data_labels: Seq::empty(),
        index: 0,
        label_offset: 0,
        data_offset: 0,
        section: Sections::Unset,
    }
}

/// What the tokens of a source say: the labels, data and directives of the
/// program, or the first thing that is wrong with them.
pub open spec fn parsed(tokens: Seq<(Token, Seq<char>)>) -> Result<ParserResultModel, ParseFailure> {
    match fresh_parser(tokens).finished() {
        Ok(parser) => Ok(parser.found()),
        Err(error) => Err(error),
    }
}

/// Whether a step that began in the state `before` has ended as `expected`
/// says: in the state that it names, or with its error and in the state in
/// which it began.
pub open spec fn step_agrees(
    before: ParserModel,
    state: ParserModel,
    result: Result<(), ParseError>,
    expected: Result<ParserModel, ParseFailure>,
) -> bool {
    match expected {
        Ok(next) => result is Ok && state == next,
        Err(error) => result matches Err(found) && found@ == error && state == before,
    }
}

/// The parser: the tokens, how far it has read them, and what it has found.
pub struct Parser {
    pub tokens: Vec<TokenInfoType>,
    pub metadata: Vec<(String, MetadataValue)>,
    pub interrupts: HashMap<u8, String>,
    pub text_labels: Vec<Label>,
    pub data_labels: Vec<(String, Vec<DefineByteData>)>,
    pub current_token_index: usize,
    /// The number of bytes of the text labels found so far.
    pub label_offset: usize,
    /// The number of bytes of the data labels found so far.
    pub data_offset: usize,
    pub current_section: Sections,
}

impl View for Parser {
    type V = ParserModel;

    open spec fn view(&self) -> ParserModel {
        ParserModel {
            tokens: token_views(self.tokens@),
            metadata: metadata_views(self.metadata@),
            interrupts: interrupt_views(self.interrupts@),
            text_labels: label_views(self.text_labels@),
            data_labels: data_label_views(self.data_labels@),
            index: self.current_token_index as int,
            label_offset: self.label_offset as int,
            data_offset: self.data_offset as int,
            section: self.current_section,
        }
    }
}

/// The position of the first text label with the name `name`.
pub fn find_text_label(labels: &Vec<Label>, name: &String) -> (found: Option<usize>)
    ensures
        match found {
            Some(at) => text_label_index(label_views(labels@), name@, 0) == Some(at as int) && at
                < labels.len() && labels@[at as int].name@ == name@,
            None => text_label_index(label_views(labels@), name@, 0) is None,
        },
{
    let mut i: usize = 0;
    while i < labels.len()
        invariant
            i <= labels.len(),
            text_label_index(label_views(labels@), name@, 0) == text_label_index(
                label_views(labels@),
                name@,
                i as int,
            ),
        decreases labels.len() - i,
    {
        if labels[i].name == *name {
            return Some(i);
        }
        i += 1;
    }
    None
}

/// The position of the first data label with the name `name`.
pub fn find_data_label_index(labels: &Vec<(String, Vec<DefineByteData>)>, name: &String) -> (found:
    Option<usize>)
    ensures
        match found {
            Some(at) => data_label_index(data_label_views(labels@), name@, 0) == Some(at as int)
                && at < labels.len() && labels@[at as int].0@ == name@,
            None => data_label_index(data_label_views(labels@), name@, 0) is None,
        },
{
    let mut i: usize = 0;
    while i < labels.len()
        invariant
            i <= labels.len(),
            data_label_index(data_label_views(labels@), name@, 0) == data_label_index(
                data_label_views(labels@),
                name@,
                i as int,
            ),
        decreases labels.len() - i,
    {
        if labels[i].0 == *name {
            return Some(i);
        }
        i += 1;
    }
    None
}

/// The number of the register that a register token names.
pub fn register_number(lexeme: &str) -> (reg: Option<u8>)
    ensures
        reg == register_index(lexeme@),
{
    let chars = to_chars(lexeme);
    if chars.len() == 0 {
        return None;
    }
    let mut rest: Vec<char> = Vec::new();
    let mut i: usize = 1;
    while i < chars.len()
        invariant
            1 <= i <= chars.len(),
            rest@ =~= chars@.subrange(1, i as int),
        decreases chars.len() - i,
    {
        rest.push(chars[i]);
        i += 1;
    }
    assert(rest@ =~= chars@.skip(1));
    let name = to_lower(&rest);
    if name.len() == 1 {
        let c = name[0];
        assert(name@ =~= seq![c]);
        if c == '1' {
            Some(0)
        } else if c == '2' {
            Some(1)
        } else if c == '3' {
            Some(2)
        } else if c == '4' {
            Some(3)
        } else if c == '5' {
            Some(4)
        } else if c == '6' {
            Some(5)
        } else {
            assert(seq!['1'][0] == '1' && seq!['2'][0] == '2' && seq!['3'][0] == '3' && seq!['4'][0]
                == '4' && seq!['5'][0] == '5' && seq!['6'][0] == '6');
            None
        }
    } else if name.len() == 2 {
        let a = name[0];
        let b = name[1];
        assert(name@ =~= seq![a, b]);
        if a == 'p' && b == 'c' {
            Some(6)
        } else if a == 's' && b == 'p' {
            Some(7)
        } else if a == 'b' && b == 'p' {
            Some(8)
        } else {
            assert(seq!['p', 'c'][0] == 'p' && seq!['p', 'c'][1] == 'c');
            assert(seq!['s', 'p'][0] == 's' && seq!['s', 'p'][1] == 'p');
            assert(seq!['b', 'p'][0] == 'b' && seq!['b', 'p'][1] == 'p');
            None
        }
    } else {
        assert(seq!['1'].len() == 1 && seq!['p', 'c'].len() == 2);
        None
    }
}

/// The operand that a token stands for.
pub fn operand(token: &TokenInfoType) -> (arg: Result<InstructionArg, ParseError>)
    ensures
        match arg {
            Ok(arg) => operand_of((token.0, token.1@)) == Ok::<ArgModel, ParseFailure>(arg@),
            Err(error) => operand_of((token.0, token.1@)) == Err::<ArgModel, ParseFailure>(error@),
        },
{
    match token.0 {
        Token::Register => match register_number(token.1.as_str()) {
            Some(reg) => Ok(InstructionArg::Register(reg)),
            None => Err(ParseError::UnknownRegister(token.1.clone())),
        },
        Token::Number => match Parser::convert_short_to_base(token.1.as_str()) {
            Some(number) => Ok(InstructionArg::Number(number)),
            None => Err(ParseError::InvalidNumber(token.1.clone())),
        },
        Token::Address => {
            let cleaned = from_chars(&remove_char(&to_chars(token.1.as_str()), '$'));
            match Parser::convert_int_to_base(cleaned.as_str()) {
                Some(address) => Ok(InstructionArg::Address(address)),
                None => Err(ParseError::InvalidNumber(token.1.clone())),
            }
        },
        Token::Identifier => Ok(InstructionArg::Identifier(token.1.clone())),
        _ => Err(ParseError::ExpectedArgument(token.0)),
    }
}

/// The text of a token without the character `c`.
fn lexeme_without(token: &TokenInfoType, c: char) -> (name: String)
    ensures
        name@ == without(token.1@, c),
{
    from_chars(&remove_char(&to_chars(token.1.as_str()), c))
}

impl Parser {
    /// A parser before the first of `tokens`.
    pub fn new(tokens: Vec<TokenInfoType>) -> (parser: Parser)
        ensures
            parser@ == fresh_parser(token_views(tokens@)),
    {
        let parser = Parser {
            tokens,
            metadata: Vec::new(),
            interrupts: HashMap::new(),
            text_labels: Vec::new(),
            data_labels: Vec::new(),
            current_token_index: 0,
            label_offset: 0,
            data_offset: 0,
            current_section: Sections::Unset,
        };
        assert(parser@.metadata =~= Seq::empty());
        assert(parser@.interrupts =~= Map::empty());
        assert(parser@.text_labels =~= Seq::empty());
        assert(parser@.data_labels =~= Seq::empty());
        parser
    }

    /// The token at the parser's position.
    pub fn get_token(&self) -> (token: Option<&TokenInfoType>)
        ensures
            match token {
                Some(found) => token_at(self@.tokens, self@.index) == Some((found.0, found.1@))
                    && self.current_token_index < self.tokens.len() && *found
                    == self.tokens@[self.current_token_index as int],
                None => token_at(self@.tokens, self@.index) is None,
            },
    {
        self.token(0)
    }

    /// The token behind the one at the parser's position.
    pub fn peek_token(&self) -> (token: Option<&TokenInfoType>)
        ensures
            match token {
                Some(found) => token_at(self@.tokens, self@.index + 1) == Some(
                    (found.0, found.1@),
                ),
                None => token_at(self@.tokens, self@.index + 1) is None,
            },
    {
        self.token(1)
    }

    /// The token `ahead` positions behind the parser's position.
    pub fn token(&self, ahead: usize) -> (token: Option<&TokenInfoType>)
        ensures
            match token {
                Some(found) => token_at(self@.tokens, self@.index + ahead) == Some(
                    (found.0, found.1@),
                ) && self.current_token_index + ahead < self.tokens.len() && *found
                    == self.tokens@[self.current_token_index + ahead],
                None => token_at(self@.tokens, self@.index + ahead) is None,
            },
    {
        if self.current_token_index >= self.tokens.len() || ahead >= self.tokens.len()
            - self.current_token_index {
            return None;
        }
        Some(&self.tokens[self.current_token_index + ahead])
    }

    /// The number up to 255 that a numeric literal spells.
    pub fn convert_byte_to_base(byte: &str) -> (value: Option<u8>)
        ensures
            match value {
                Some(number) => literal_value(byte@, 255) == Some(number as int),
                None => literal_value(byte@, 255) is None,
            },
    {
        match parse_literal(byte, 255) {
            Some(number) => Some(number as u8),
            None => None,
        }
    }

    /// The number up to 65535 that a numeric literal spells.
    pub fn convert_short_to_base(short: &str) -> (value: Option<u16>)
        ensures
            match value {
                Some(number) => literal_value(short@, 0xFFFF) == Some(number as int),
                None => literal_value(short@, 0xFFFF) is None,
            },
    {
        match parse_literal(short, 0xFFFF) {
            Some(number) => Some(number as u16),
            None => None,
        }
    }

    /// The number up to 4294967295 that a numeric literal spells.
    pub fn convert_int_to_base(text: &str) -> (value: Option<u32>)
        ensures
            match value {
                Some(number) => literal_value(text@, 0xFFFF_FFFF) == Some(number as int),
                None => literal_value(text@, 0xFFFF_FFFF) is None,
            },
    {
        parse_literal(text, 0xFFFF_FFFF)
    }

    /// Whether a label of text or of data has the name `name`.
    pub fn label_exists(&self, name: &String) -> (exists: bool)
        ensures
            exists == self@.label_exists(name@),
    {
        find_text_label(&self.text_labels, name).is_some() || find_data_label_index(
            &self.data_labels,
            name,
        ).is_some()
    }

    /// Reads the instruction whose mnemonic stands at the parser's position
    /// and moves the parser behind it.
    pub fn make_instruction(&mut self) -> (made: Result<ParserInstruction, ParseError>)
        requires
            old(self).current_token_index < old(self).tokens.len(),
        ensures
            match instruction_at(old(self)@.tokens, old(self)@.index) {
                Ok(parsed) => made is Ok && made.unwrap()@ == parsed.instruction && final(self)@
                    == (ParserModel { index: parsed.next, ..old(self)@ }),
                Err(error) => made matches Err(found) && found@ == error && final(self)@
                    == old(self)@,
            },
    {
        let at = self.current_token_index;
        let name = to_lower(&to_chars(self.tokens[at].1.as_str()));
        let opcode = match Opcode::from_name(&name) {
            Some(opcode) => opcode,
            None => {
                return Err(ParseError::UnknownInstruction(self.tokens[at].1.clone()));
            },
        };
        let first = match self.token(1) {
            None => {
                let made = ParserInstruction::get_instruction(opcode, Vec::new());
                assert(arg_views(Seq::<InstructionArg>::empty()) =~= Seq::<ArgModel>::empty());
                if made.is_ok() {
                    self.current_token_index = at + 1;
                }
                return made;
            },
            Some(first) => first,
        };
        if first.0 == Token::NewLine {
            let made = ParserInstruction::get_instruction(opcode, Vec::new());
            assert(arg_views(Seq::<InstructionArg>::empty()) =~= Seq::<ArgModel>::empty());
            if made.is_ok() {
                self.current_token_index = at + 1;
            }
            return made;
        }
        let arg0 = operand(first)?;
        let is_register = match arg0 {
            InstructionArg::Register(_) => true,
            _ => false,
        };
        let comma = match self.token(2) {
            Some(token) => token.0 == Token::Comma,
            None => false,
        };
        if is_register && comma {
            let second = match self.token(3) {
                None => {
                    return Err(ParseError::UnexpectedEnd);
                },
                Some(second) => second,
            };
            let arg1 = operand(second)?;
            let ghost views = seq![arg0@, arg1@];
            let mut args: Vec<InstructionArg> = Vec::new();
            args.push(arg0);
            args.push(arg1);
            assert(arg_views(args@) =~= views);
            let made = ParserInstruction::get_instruction(opcode, args);
            if made.is_ok() {
                self.current_token_index = at + 4;
            }
            made
        } else {
            let ghost views = seq![arg0@];
            let mut args: Vec<InstructionArg> = Vec::new();
            args.push(arg0);
            assert(arg_views(args@) =~= views);
            let made = ParserInstruction::get_instruction(opcode, args);
            if made.is_ok() {
                self.current_token_index = at + 2;
            }
            made
        }
    }

    /// Reads a directive.
    pub fn parse_metadata(&mut self) -> (result: Result<(), ParseError>)
        requires
            old(self).current_token_index < old(self).tokens.len(),
        ensures
            step_agrees(old(self)@, final(self)@, result, old(self)@.with_metadata()),
    {
        let at = self.current_token_index;
        let name = lexeme_without(&self.tokens[at], '.');
        let value = match self.token(1) {
            None => {
                return Err(ParseError::UnexpectedEnd);
            },
            Some(token) => match token.0 {
                Token::Identifier => MetadataValue::String(token.1.clone()),
                Token::Number => match Parser::convert_short_to_base(token.1.as_str()) {
                    Some(number) => MetadataValue::Number(number),
                    None => {
                        return Err(ParseError::InvalidNumber(token.1.clone()));
                    },
                },
                _ => {
                    return Err(ParseError::ExpectedNumberOrIdentifier(token.0));
                },
            },
        };
        let ghost before = self@.metadata;
        let ghost added = (name@, value@);
        self.metadata.push((name, value));
        assert(metadata_views(self.metadata@) =~= before.push(added));
        self.current_token_index = at + 2;
        Ok(())
    }

    /// Reads an interrupt vector.
    pub fn set_interrupt(&mut self) -> (result: Result<(), ParseError>)
        requires
            old(self).current_token_index < old(self).tokens.len(),
        ensures
            step_agrees(old(self)@, final(self)@, result, old(self)@.with_interrupt()),
    {
        let at = self.current_token_index;
        let number = match self.token(1) {
            None => {
                return Err(ParseError::UnexpectedEnd);
            },
            Some(token) => token,
        };
        if number.0 != Token::Number {
            return Err(ParseError::ExpectedNumber(number.0));
        }
        let label = match self.token(2) {
            None => {
                return Err(ParseError::UnexpectedEnd);
            },
            Some(token) => token,
        };
        if label.0 != Token::Identifier {
            return Err(ParseError::ExpectedIdentifier(label.0));
        }
        let k = match Parser::convert_byte_to_base(number.1.as_str()) {
            Some(k) => k,
            None => {
                return Err(ParseError::InvalidNumber(number.1.clone()));
            },
        };
        let name = label.1.clone();
        let ghost before = self@.interrupts;
        let ghost added = name@;
        self.interrupts.insert(k, name);
        assert(interrupt_views(self.interrupts@) =~= before.insert(k, added));
        self.current_token_index = at + 3;
        Ok(())
    }

    /// Reads a text label and its instructions.
    pub fn parse_text_label(&mut self) -> (result: Result<(), ParseError>)
        requires
            old(self).current_token_index < old(self).tokens.len(),
        ensures
            step_agrees(old(self)@, final(self)@, result, old(self)@.with_text_label()),
    {
        let at = self.current_token_index;
        let label_name = lexeme_without(&self.tokens[at], ':');
        if self.label_exists(&label_name) {
            return Err(ParseError::LabelAlreadyDefined(label_name));
        }
        if self.label_offset > SECTION_LIMIT {
            return Err(ParseError::ProgramTooLarge);
        }
        self.current_token_index = at + 1;
        let mut label = Label::new(label_name, self.label_offset + PROGRAM_BASE);
        let ghost start = old(self)@;
        loop
            invariant
                self.current_token_index <= self.tokens.len(),
                self@ == (ParserModel { index: self.current_token_index as int, ..start }),
                start == old(self)@,
                at == start.index,
                0 <= start.index < start.tokens.len(),
                !start.label_exists(without(start.tokens[start.index].1, ':')),
                start.label_offset <= 0xFFFF,
                label@.name == without(start.tokens[start.index].1, ':'),
                label@.addr == start.label_offset + 0x4402,
                body_from(start.tokens, start.index + 1, Seq::empty()) == body_from(
                    start.tokens,
                    self.current_token_index as int,
                    label@.instructions,
                ),
            ensures
                body_from(start.tokens, start.index + 1, Seq::empty()) == Ok::<
                    ParsedBody,
                    ParseFailure,
                >(
                    ParsedBody {
                        instructions: label@.instructions,
                        next: self.current_token_index as int,
                    },
                ),
                at == start.index,
                self@ == (ParserModel { index: self.current_token_index as int, ..start }),
                label@.name == without(start.tokens[start.index].1, ':'),
                label@.addr == start.label_offset + 0x4402,
            decreases self.tokens.len() - self.current_token_index,
        {
            let kind = match self.get_token() {
                None => {
                    break ;
                },
                Some(token) => token.0,
            };
            if kind == Token::NewLine {
                self.current_token_index += 1;
                continue ;
            } else if kind != Token::Identifier {
                break ;
            }
            let instruction = match self.make_instruction() {
                Ok(instruction) => instruction,
                Err(error) => {
                    self.current_token_index = at;
                    return Err(error);
                },
            };
            label.add(instruction);
        }
        if label.instructions.len() == 0 {
            self.current_token_index = at;
            return Err(ParseError::EmptyLabel(label.name));
        }
        let size = label.len();
        if size >= usize::MAX - self.label_offset {
            self.current_token_index = at;
            return Err(ParseError::ProgramTooLarge);
        }
        self.label_offset += size;
        let ghost before = self@.text_labels;
        let ghost added = label@;
        self.text_labels.push(label);
        assert(label_views(self.text_labels@) =~= before.push(added));
        Ok(())
    }

    /// Reads a data label and its data.
    pub fn parse_data_label(&mut self) -> (result: Result<(), ParseError>)
        requires
            old(self).current_token_index < old(self).tokens.len(),
        ensures
            step_agrees(old(self)@, final(self)@, result, old(self)@.with_data_label()),
    {
        let at = self.current_token_index;
        let label_name = lexeme_without(&self.tokens[at], ':');
        if self.label_exists(&label_name) {
            return Err(ParseError::LabelAlreadyDefined(label_name));
        }
        match self.token(1) {
            None => {
                return Err(ParseError::UnexpectedEnd);
            },
            Some(token) => if token.0 != Token::DefineByte {
                return Err(ParseError::ExpectedDefineByte(token.0));
            },
        }
        self.current_token_index = at + 2;
        let mut data: Vec<DefineByteData> = Vec::new();
        let mut offset = self.data_offset;
        let ghost start = old(self)@;
        assert(data_views(data@) =~= Seq::<DataModel>::empty());
        loop
            invariant
                self.current_token_index <= self.tokens.len(),
                self@ == (ParserModel { index: self.current_token_index as int, ..start }),
                start == old(self)@,
                at == start.index,
                0 <= start.index < start.tokens.len(),
                !start.label_exists(without(start.tokens[start.index].1, ':')),
                token_at(start.tokens, start.index + 1) is Some,
                token_at(start.tokens, start.index + 1).unwrap().0 == Token::DefineByte,
                data_from(start.tokens, start.index + 2, start.data_offset, Seq::empty())
                    == data_from(
                    start.tokens,
                    self.current_token_index as int,
                    offset as int,
                    data_views(data@),
                ),
            ensures
                data_from(start.tokens, start.index + 2, start.data_offset, Seq::empty()) == Ok::<
                    ParsedData,
                    ParseFailure,
                >(
                    ParsedData {
                        data: data_views(data@),
                        next: self.current_token_index as int,
                        offset: offset as int,
                    },
                ),
                self@ == (ParserModel { index: self.current_token_index as int, ..start }),
            decreases self.tokens.len() - self.current_token_index,
        {
            let token = match self.get_token() {
                None => {
                    break ;
                },
                Some(token) => token,
            };
            let ghost before = data_views(data@);
            match token.0 {
                Token::String => {
                    let text = lexeme_without(token, '"');
                    let length = text.as_str().unicode_len();
                    if length > SECTION_LIMIT || offset > SECTION_LIMIT - length {
                        self.current_token_index = at;
                        return Err(ParseError::ProgramTooLarge);
                    }
                    let ghost added = DataModel::String(text@, offset as int);
                    data.push(DefineByteData::String(text, offset));
                    assert(data_views(data@) =~= before.push(added));
                    offset += length;
                },
                Token::Number => {
                    let number = match Parser::convert_short_to_base(token.1.as_str()) {
                        Some(number) => number,
                        None => {
                            let text = token.1.clone();
                            self.current_token_index = at;
                            return Err(ParseError::InvalidNumber(text));
                        },
                    };
                    if number > 255 {
                        if offset > SECTION_LIMIT - 2 {
                            self.current_token_index = at;
                            return Err(ParseError::ProgramTooLarge);
                        }
                        data.push(DefineByteData::Short(number, offset));
                        assert(data_views(data@) =~= before.push(
                            DataModel::Short(number, offset as int),
                        ));
                        offset += 2;
                    } else {
                        if offset > SECTION_LIMIT - 1 {
                            self.current_token_index = at;
                            return Err(ParseError::ProgramTooLarge);
                        }
                        data.push(DefineByteData::Byte(number as u8, offset));
                        assert(data_views(data@) =~= before.push(
                            DataModel::Byte(number as u8, offset as int),
                        ));
                        offset += 1;
                    }
                },
                Token::Comma => {},
                Token::NewLine => {
                    break ;
                },
                _ => {
                    let kind = token.0;
                    self.current_token_index = at;
                    return Err(ParseError::InvalidData(kind));
                },
            }
            self.current_token_index += 1;
        }
        let ghost before = self@.data_labels;
        let ghost added = (label_name@, data_views(data@));
        self.data_labels.push((label_name, data));
        assert(data_label_views(self.data_labels@) =~= before.push(added));
        self.data_offset = offset;
        Ok(())
    }

    /// Reads what begins with the token at the parser's position.
    pub fn step(&mut self) -> (result: Result<(), ParseError>)
        requires
            old(self).current_token_index < old(self).tokens.len(),
        ensures
            step_agrees(old(self)@, final(self)@, result, old(self)@.stepped()),
    {
        let kind = self.tokens[self.current_token_index].0;
        let text = &self.tokens[self.current_token_index].1;
        match kind {
            Token::Metadata => self.parse_metadata(),
            Token::InterruptDefine => self.set_interrupt(),
            Token::Label => match self.current_section {
                Sections::Text => self.parse_text_label(),
                Sections::Data => self.parse_data_label(),
                Sections::Unset => Err(ParseError::NoSection(text.clone())),
            },
            Token::Error => Err(ParseError::UnknownSymbol(text.clone())),
            Token::NewLine => {
                self.current_token_index += 1;
                Ok(())
            },
            Token::TextSection => {
                self.current_section = Sections::Text;
                self.current_token_index += 1;
                Ok(())
            },
            Token::DataSection => {
                self.current_section = Sections::Data;
                self.current_token_index += 1;
                Ok(())
            },
            _ => Err(ParseError::UnknownToken(text.clone())),
        }
    }

    /// Reads the tokens from the parser's position to their end and hands on
    /// what they say, or the first thing that is wrong with them.
    pub fn parse(self) -> (result: Result<ParserResult, ParseError>)
        ensures
            match self@.finished() {
                Ok(parser) => result is Ok && result.unwrap()@ == parser.found(),
                Err(error) => result matches Err(found) && found@ == error,
            },
    {
        let mut parser = self;
        while parser.current_token_index < parser.tokens.len()
            invariant
                parser@.finished() == self@.finished(),
                parser@.tokens == self@.tokens,
            decreases parser.tokens.len() - parser.current_token_index,
        {
            let before = parser.current_token_index;
            parser.step()?;
            if parser.current_token_index <= before || parser.current_token_index
                > parser.tokens.len() {
                return Err(ParseError::UnexpectedEnd);
            }
        }
        Ok(
            ParserResult::new(
                parser.metadata,
                parser.text_labels,
                parser.data_labels,
                parser.interrupts,
            ),
        )
    }
}

/// Scans and parses in one go what `tokens` say.
pub fn parse_tokens(tokens: Vec<TokenInfoType>) -> (result: Result<ParserResult, ParseError>)
    ensures
        match parsed(token_views(tokens@)) {
            Ok(found) => result is Ok && result.unwrap()@ == found,
            Err(error) => result matches Err(found) && found@ == error,
        },
{
    Parser::new(tokens).parse()
}

/// The number of bytes that the instructions of the first `upto` labels
/// take.
pub open spec fn offset_before(labels: Seq<LabelModel>, upto: int) -> int
    decreases upto,
{
    if upto <= 0 || upto > labels.len() {
        0
    } else {
        offset_before(labels, upto - 1) + total_length(labels[upto - 1].instructions)
    }
}

/// Whether the text labels follow each other in the program memory: each
/// stands at the base of the program memory and the bytes of all labels
/// before it.
pub open spec fn in_a_row(labels: Seq<LabelModel>) -> bool {
    forall|k: int|
        0 <= k < labels.len() ==> (#[trigger] labels[k]).addr == 0x4402 + offset_before(labels, k)
}

impl ParserModel {
    /// Whether the parser has given its labels addresses that follow each
    /// other, and has counted their bytes.
    pub open spec fn counted(self) -> bool {
        in_a_row(self.text_labels) && self.label_offset == offset_before(
            self.text_labels,
            self.text_labels.len() as int,
        )
    }
}

/// The bytes before a label do not depend on the labels behind it.
proof fn lemma_offset_before_push(labels: Seq<LabelModel>, last: LabelModel, upto: int)
    requires
        0 <= upto <= labels.len(),
    ensures
        offset_before(labels.push(last), upto) == offset_before(labels, upto),
    decreases upto,
{
    if upto > 0 {
        lemma_offset_before_push(labels, last, upto - 1);
        assert(labels.push(last)[upto - 1] == labels[upto - 1]);
    }
}

/// A step of the parser keeps the labels in a row.
proof fn lemma_step_keeps_count(parser: ParserModel)
    requires
        0 <= parser.index < parser.tokens.len(),
        parser.counted(),
        parser.stepped() is Ok,
    ensures
        parser.stepped()->Ok_0.counted(),
{
    let next = parser.stepped()->Ok_0;
    if next.text_labels != parser.text_labels {
        let labels = parser.text_labels;
        let added = next.text_labels.last();
        assert(next.text_labels == labels.push(added));
        assert forall|k: int| 0 <= k < next.text_labels.len() implies (
        #[trigger] next.text_labels[k]).addr == 0x4402 + offset_before(next.text_labels, k) by {
            lemma_offset_before_push(labels, added, k);
            if k < labels.len() {
                assert(next.text_labels[k] == labels[k]);
            }
        }
        lemma_offset_before_push(labels, added, labels.len() as int);
    }
}

/// Parsing to the end keeps the labels in a row.
proof fn lemma_finish_keeps_count(parser: ParserModel)
    requires
        parser.counted(),
        parser.finished() is Ok,
    ensures
        parser.finished()->Ok_0.counted(),
    decreases parser.tokens.len() - parser.index,
{
    if 0 <= parser.index < parser.tokens.len() {
        lemma_step_keeps_count(parser);
        lemma_finish_keeps_count(parser.stepped()->Ok_0);
    }
}

/// The text labels of a program follow each other in the program memory: the
/// first stands at its base, 0x4402, and each of the others behind the last
/// byte of the label before it.
pub proof fn lemma_labels_follow_each_other(tokens: Seq<(Token, Seq<char>)>)
    requires
        parsed(tokens) is Ok,
    ensures
        in_a_row(parsed(tokens)->Ok_0.text_labels),
{
    lemma_finish_keeps_count(fresh_parser(tokens));
}

} // verus!
