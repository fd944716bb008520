//! The assembler: from tokens to labels and instructions, and from those to
//! the bytes of an image.
//!
//! An image is, with every number that takes more than one byte written high
//! byte first:
//!
//! | bytes            | what                                         |
//! |------------------|----------------------------------------------|
//! | 2                | the length of the code                       |
//! | 2                | the length of the data                       |
//! | 2                | the address of the first instruction to run  |
//! | length of code   | the instructions                             |
//! | length of data   | the data                                     |
//! | 510              | the addresses of the interrupts 0 to 254     |
//!
//! In the memory of the processor the data stands at the base of the program
//! memory and the code behind it: a data label is at the base and its offset,
//! a text label at the base, the length of the data, and its offset.

pub mod parser;
pub mod tokenizer;

use self::parser::{
    data_label_index, data_label_views, data_views, find_data_label_index, find_text_label,
    label_views, length_from, offset_before, text_label_index, total_length, ArgModel, DataModel,
    DefineByteData, InstructionArg, InstructionModel, InstructionType, Label, MetadataModel,
    MetadataValue, ParserInstruction, ParserResult, ParserResultModel,
};
use crate::common::bytes::{
    joined, lemma_joined_at, lemma_joined_behind, lemma_joined_length,
    lemma_subrange_of_subrange, size_from,
};
use crate::common::instruction::opcode::{opcode_byte, Instruction};
use std::collections::HashMap;
use vstd::prelude::*;

verus! {

/// Why a program cannot be written out.
#[derive(Debug, Clone, PartialEq, Eq)]
pub enum EncodeError {
    /// An operand, an interrupt vector or the directive `main` names a label
    /// that does not exist; the name is inside.
    UnresolvedIdentifier(String),
    /// The program has no directive `main`.
    NoMainLabel,
    /// The directive `main` holds a number where the name of a label must
    /// stand.
    MainNotLabel,
    /// An address that does not fit its place: that of a label above sixteen
    /// bits, a literal above twenty.
    AddressTooLarge,
    /// A register above the ninth.
    InvalidRegister,
    /// A character of a text that does not fit a byte.
    InvalidCharacter,
    /// An operand names a data label that holds no data; the name is inside.
    EmptyDataLabel(String),
    /// An instruction whose operands are not those that its count announces,
    /// or the first of whose two operands is no register.
    MalformedInstruction,
    /// The code or the data is longer than 65535 bytes.
    ImageTooLarge,
}

/// Why a program cannot be written out, as a value.
pub enum EncodeFailure {
    UnresolvedIdentifier(Seq<char>),
    NoMainLabel,
    MainNotLabel,
    AddressTooLarge,
    InvalidRegister,
    InvalidCharacter,
    EmptyDataLabel(Seq<char>),
    MalformedInstruction,
    ImageTooLarge,
}

impl View for EncodeError {
    type V = EncodeFailure;

    open spec fn view(&self) -> EncodeFailure {
        match self {
            EncodeError::UnresolvedIdentifier(name) => EncodeFailure::UnresolvedIdentifier(name@),
            EncodeError::NoMainLabel => EncodeFailure::NoMainLabel,
            EncodeError::MainNotLabel => EncodeFailure::MainNotLabel,
            EncodeError::AddressTooLarge => EncodeFailure::AddressTooLarge,
            EncodeError::InvalidRegister => EncodeFailure::InvalidRegister,
            EncodeError::InvalidCharacter => EncodeFailure::InvalidCharacter,
            EncodeError::EmptyDataLabel(name) => EncodeFailure::EmptyDataLabel(name@),
            EncodeError::MalformedInstruction => EncodeFailure::MalformedInstruction,
            EncodeError::ImageTooLarge => EncodeFailure::ImageTooLarge,
        }
    }
}

/// The number of interrupts that have a vector.
pub const INTERRUPTS: u8 = 255;

/// The two bytes of an address that fits sixteen bits, the high byte first.
pub open spec fn address_bytes(address: int) -> Seq<u8> {
    seq![(address / 256) as u8, (address % 256) as u8]
}

/// The bytes of a text from position `from` on, behind `found`: one for each
/// character; a character above 255 has none.
pub open spec fn text_bytes(text: Seq<char>, from: int, found: Seq<u8>) -> Result<
    Seq<u8>,
    EncodeFailure,
>
    decreases text.len() - from,
{
    if from < 0 || from >= text.len() {
        Ok(found)
    } else if text[from] as u32 > 255 {
        Err(EncodeFailure::InvalidCharacter)
    } else {
        text_bytes(text, from + 1, found.push(text[from] as u8))
    }
}

/// The bytes of the pieces of data from position `from` on, behind `found`.
pub open spec fn pieces_bytes(pieces: Seq<DataModel>, from: int, found: Seq<u8>) -> Result<
    Seq<u8>,
    EncodeFailure,
>
    decreases pieces.len() - from,
{
    if from < 0 || from >= pieces.len() {
        Ok(found)
    } else {
        match pieces[from] {
            DataModel::String(text, _) => match text_bytes(text, 0, found) {
                Ok(bytes) => pieces_bytes(pieces, from + 1, bytes),
                Err(error) => Err(error),
            },
            DataModel::Byte(byte, _) => pieces_bytes(pieces, from + 1, found.push(byte)),
            DataModel::Short(short, _) => pieces_bytes(
                pieces,
                from + 1,
                found + address_bytes(short as int),
            ),
        }
    }
}

/// The bytes of the data labels from position `from` on, behind `found`.
pub open spec fn data_bytes(
    labels: Seq<(Seq<char>, Seq<DataModel>)>,
    from: int,
    found: Seq<u8>,
) -> Result<Seq<u8>, EncodeFailure>
    decreases labels.len() - from,
{
    if from < 0 || from >= labels.len() {
        Ok(found)
    } else {
        match pieces_bytes(labels[from].1, 0, found) {
            Ok(bytes) => data_bytes(labels, from + 1, bytes),
            Err(error) => Err(error),
        }
    }
}

/// The address that the name of a label stands for in a program whose data
/// takes `data_length` bytes. A text label comes before a data label of the
/// same name. A text label stands at its own address and the length of the
/// data; a data label stands at the base of the program memory and the offset
/// of its first piece.
pub open spec fn resolved(program: ParserResultModel, data_length: int, name: Seq<char>) -> Result<
    int,
    EncodeFailure,
> {
    match text_label_index(program.text_labels, name, 0) {
        Some(at) => {
            let address = program.text_labels[at].addr + data_length;
            if address > 0xFFFF {
                Err(EncodeFailure::AddressTooLarge)
            } else {
                Ok(address)
            }
        },
        None => match data_label_index(program.data_labels, name, 0) {
            None => Err(EncodeFailure::UnresolvedIdentifier(name)),
            Some(at) => if program.data_labels[at].1.len() == 0 {
                Err(EncodeFailure::EmptyDataLabel(name))
            } else {
                let address = program.data_labels[at].1[0].offset() + 0x4402;
                if address > 0xFFFF {
                    Err(EncodeFailure::AddressTooLarge)
                } else {
                    Ok(address)
                }
            },
        },
    }
}

/// The address of the text label with the name `name`.
pub open spec fn resolved_text(program: ParserResultModel, data_length: int, name: Seq<char>) -> Result<
    int,
    EncodeFailure,
> {
    match text_label_index(program.text_labels, name, 0) {
        Some(at) => {
            let address = program.text_labels[at].addr + data_length;
            if address > 0xFFFF {
                Err(EncodeFailure::AddressTooLarge)
            } else {
                Ok(address)
            }
        },
        None => Err(EncodeFailure::UnresolvedIdentifier(name)),
    }
}

/// An operand as it is written: the bits that it sets in the second byte of
/// the instruction, and the bytes behind that byte.
pub struct EncodedOperand {
    pub bits: u8,
    pub bytes: Seq<u8>,
}

/// How an operand is written. A register that is the only operand sets the
/// bits for "no operand" and takes no byte; as the second operand it takes
/// one byte. A number or an address up to 255 takes one byte; up to 65535 it
/// sets bit 2 and takes two; an address up to twenty bits sets bit 3 and
/// takes three, the top four bits first. A name is written as the address of
/// its label, in two bytes.
pub open spec fn encoded_operand(
    program: ParserResultModel,
    data_length: int,
    arg: ArgModel,
    second: bool,
) -> Result<EncodedOperand, EncodeFailure> {
    match arg {
        ArgModel::Register(reg) => if reg > 8 {
            Err(EncodeFailure::InvalidRegister)
        } else if second {
            Ok(EncodedOperand { bits: 0, bytes: seq![reg] })
        } else {
            Ok(EncodedOperand { bits: 0b1100, bytes: Seq::empty() })
        },
        ArgModel::Number(number) => if number > 255 {
            Ok(EncodedOperand { bits: 0b0100, bytes: address_bytes(number as int) })
        } else {
            Ok(EncodedOperand { bits: 0, bytes: seq![number as u8] })
        },
        ArgModel::Address(address) => if address <= 255 {
            Ok(EncodedOperand { bits: 0, bytes: seq![address as u8] })
        } else if address <= 65535 {
            Ok(EncodedOperand { bits: 0b0100, bytes: address_bytes(address as int) })
        } else if address <= 0xFFFFF {
            Ok(
                EncodedOperand {
                    bits: 0b1000,
                    bytes: seq![(address as int / 0x10000) as u8] + address_bytes(
                        address as int % 0x10000,
                    ),
                },
            )
        } else {
            Err(EncodeFailure::AddressTooLarge)
        },
        ArgModel::Identifier(name) => match resolved(program, data_length, name) {
            Ok(address) => Ok(EncodedOperand { bits: 0b0100, bytes: address_bytes(address) }),
            Err(error) => Err(error),
        },
    }
}

/// The bytes of an instruction: the opcode byte; the second byte, with the
/// number of the first register in its high half and the bits of the operand
/// in its low half; and the bytes of the operand.
#[verifier::opaque]
pub open spec fn encoded_instruction(
    program: ParserResultModel,
    data_length: int,
    instruction: InstructionModel,
) -> Result<Seq<u8>, EncodeFailure> {
    let opcode = opcode_byte(instruction.opcode, instruction.addressing_mode);
    match instruction.instruction_type {
        InstructionType::Zero => Ok(seq![opcode, 0b1100u8]),
        InstructionType::One => if instruction.args.len() < 1 {
            Err(EncodeFailure::MalformedInstruction)
        } else {
            match encoded_operand(program, data_length, instruction.args[0], false) {
                Err(error) => Err(error),
                Ok(operand) => {
                    let register: int = match instruction.args[0] {
                        ArgModel::Register(reg) => reg as int,
                        _ => 0,
                    };
                    Ok(seq![opcode, (register * 16 + operand.bits) as u8] + operand.bytes)
                },
            }
        },
        InstructionType::Two => if instruction.args.len() < 2 {
            Err(EncodeFailure::MalformedInstruction)
        } else {
            match instruction.args[0] {
                ArgModel::Register(register) => if register > 8 {
                    Err(EncodeFailure::InvalidRegister)
                } else {
                    match encoded_operand(program, data_length, instruction.args[1], true) {
                        Err(error) => Err(error),
                        Ok(operand) => Ok(
                            seq![opcode, (register * 16 + operand.bits) as u8] + operand.bytes,
                        ),
                    }
                },
                _ => Err(EncodeFailure::MalformedInstruction),
            }
        },
    }
}

/// The bytes of the instructions from position `from` on, behind `found`.
pub open spec fn instructions_bytes(
    program: ParserResultModel,
    data_length: int,
    instructions: Seq<InstructionModel>,
    from: int,
    found: Seq<u8>,
) -> Result<Seq<u8>, EncodeFailure>
    decreases instructions.len() - from,
{
    if from < 0 || from >= instructions.len() {
        Ok(found)
    } else {
        match encoded_instruction(program, data_length, instructions[from]) {
            Ok(bytes) => instructions_bytes(program, data_length, instructions, from + 1, found + bytes),
            Err(error) => Err(error),
        }
    }
}

/// The bytes of the text labels from position `from` on, behind `found`.
pub open spec fn code_bytes(
    program: ParserResultModel,
    data_length: int,
    from: int,
    found: Seq<u8>,
) -> Result<Seq<u8>, EncodeFailure>
    decreases program.text_labels.len() - from,
{
    if from < 0 || from >= program.text_labels.len() {
        Ok(found)
    } else {
        match instructions_bytes(
            program,
            data_length,
            program.text_labels[from].instructions,
            0,
            found,
        ) {
            Ok(bytes) => code_bytes(program, data_length, from + 1, bytes),
            Err(error) => Err(error),
        }
    }
}

/// The value of the directive `name`: that of the last directive of that
/// name among the first `upto`.
pub open spec fn directive(
    metadata: Seq<(Seq<char>, MetadataModel)>,
    name: Seq<char>,
    upto: int,
) -> Option<MetadataModel>
    decreases upto,
{
    if upto <= 0 || upto > metadata.len() {
        None
    } else if metadata[upto - 1].0 == name {
        Some(metadata[upto - 1].1)
    } else {
        directive(metadata, name, upto - 1)
    }
}

/// The label that serves the interrupt `number`, where one does.
pub open spec fn vector(interrupts: Map<u8, Seq<char>>, number: u8) -> Option<Seq<char>> {
    if interrupts.contains_key(number) {
        Some(interrupts[number])
    } else {
        None
    }
}

/// The address at which the program begins to run: that of the text label
/// that the directive `main` names.
pub open spec fn entry_address(program: ParserResultModel, data_length: int) -> Result<
    int,
    EncodeFailure,
> {
    match directive(program.metadata, seq!['m', 'a', 'i', 'n'], program.metadata.len() as int) {
        None => Err(EncodeFailure::NoMainLabel),
        Some(MetadataModel::Number(_)) => Err(EncodeFailure::MainNotLabel),
        Some(MetadataModel::String(name)) => resolved_text(program, data_length, name),
    }
}

/// The vectors of the interrupts from `number` on, behind `found`: for each
/// interrupt the address of its label, or zero where it has none.
pub open spec fn vector_bytes(
    program: ParserResultModel,
    data_length: int,
    number: int,
    found: Seq<u8>,
) -> Result<Seq<u8>, EncodeFailure>
    decreases 255 - number,
{
    if number < 0 || number >= 255 {
        Ok(found)
    } else {
        match vector(program.interrupts, number as u8) {
            None => vector_bytes(program, data_length, number + 1, found + seq![0u8, 0u8]),
            Some(name) => match resolved_text(program, data_length, name) {
                Ok(address) => vector_bytes(
                    program,
                    data_length,
                    number + 1,
                    found + address_bytes(address),
                ),
                Err(error) => Err(error),
            },
        }
    }
}

/// The image of a program.
pub open spec fn image(program: ParserResultModel) -> Result<Seq<u8>, EncodeFailure> {
    match data_bytes(program.data_labels, 0, Seq::empty()) {
        Err(error) => Err(error),
        Ok(data) => if data.len() > 0xFFFF {
            Err(EncodeFailure::ImageTooLarge)
        } else {
            match code_bytes(program, data.len() as int, 0, Seq::empty()) {
                Err(error) => Err(error),
                Ok(code) => if code.len() > 0xFFFF {
                    Err(EncodeFailure::ImageTooLarge)
                } else {
                    match entry_address(program, data.len() as int) {
                        Err(error) => Err(error),
                        Ok(entry) => match vector_bytes(
                            program,
                            data.len() as int,
                            0,
                            Seq::empty(),
                        ) {
                            Err(error) => Err(error),
                            Ok(vectors) => Ok(
                                address_bytes(code.len() as int) + address_bytes(data.len() as int)
                                    + address_bytes(entry) + code + data + vectors,
                            ),
                        },
                    }
                },
            }
        },
    }
}

/// Whether the bytes written are those that `expected` names and the routine
/// has returned what `expected` says it returns.
pub open spec fn written(
    out: Seq<u8>,
    result: Result<(), EncodeError>,
    expected: Result<Seq<u8>, EncodeFailure>,
) -> bool {
    match expected {
        Ok(bytes) => result is Ok && out == bytes,
        Err(error) => result matches Err(found) && found@ == error,
    }
}

/// Writes the two bytes of an address behind `out`.
pub fn push_address(out: &mut Vec<u8>, address: u16)
    ensures
        final(out)@ == old(out)@ + address_bytes(address as int),
{
    out.push((address / 256) as u8);
    out.push((address % 256) as u8);
    assert(out@ =~= old(out)@ + address_bytes(address as int));
}

/// Writes the bytes of a text behind `out`.
fn encode_text(text: &str, out: &mut Vec<u8>) -> (result: Result<(), EncodeError>)
    ensures
        written(final(out)@, result, text_bytes(text@, 0, old(out)@)),
{
    let chars = crate::common::text::to_chars(text);
    let mut i: usize = 0;
    while i < chars.len()
        invariant
            i <= chars.len(),
            chars@ == text@,
            text_bytes(text@, 0, old(out)@) == text_bytes(text@, i as int, out@),
        decreases chars.len() - i,
    {
        let c = chars[i];
        if c as u32 > 255 {
            return Err(EncodeError::InvalidCharacter);
        }
        out.push(c as u8);
        i += 1;
    }
    Ok(())
}

/// Writes the bytes of the pieces of a data label behind `out`.
fn encode_pieces(pieces: &Vec<DefineByteData>, out: &mut Vec<u8>) -> (result: Result<
    (),
    EncodeError,
>)
    ensures
        written(final(out)@, result, pieces_bytes(data_views(pieces@), 0, old(out)@)),
{
    let mut i: usize = 0;
    while i < pieces.len()
        invariant
            i <= pieces.len(),
            pieces_bytes(data_views(pieces@), 0, old(out)@) == pieces_bytes(
                data_views(pieces@),
                i as int,
                out@,
            ),
        decreases pieces.len() - i,
    {
        match &pieces[i] {
            DefineByteData::String(text, _) => {
                encode_text(text.as_str(), out)?;
            },
            DefineByteData::Byte(byte, _) => {
                out.push(*byte);
            },
            DefineByteData::Short(short, _) => {
                push_address(out, *short);
            },
        }
        i += 1;
    }
    Ok(())
}

/// Writes the bytes of the data labels behind `out`.
fn encode_data(labels: &Vec<(String, Vec<DefineByteData>)>, out: &mut Vec<u8>) -> (result:
    Result<(), EncodeError>)
    ensures
        written(final(out)@, result, data_bytes(data_label_views(labels@), 0, old(out)@)),
{
    let mut i: usize = 0;
    while i < labels.len()
        invariant
            i <= labels.len(),
            data_bytes(data_label_views(labels@), 0, old(out)@) == data_bytes(
                data_label_views(labels@),
                i as int,
                out@,
            ),
        decreases labels.len() - i,
    {
        encode_pieces(&labels[i].1, out)?;
        i += 1;
    }
    Ok(())
}

/// The value of the directive `name`.
pub fn find_directive<'a>(metadata: &'a Vec<(String, MetadataValue)>, name: &str) -> (found:
    Option<&'a MetadataValue>)
    ensures
        match found {
            Some(value) => directive(
                self::parser::metadata_views(metadata@),
                name@,
                metadata.len() as int,
            ) == Some(value@),
            None => directive(self::parser::metadata_views(metadata@), name@, metadata.len() as int)
                is None,
        },
{
    let wanted = String::from_str(name);
    let mut i: usize = metadata.len();
    while i > 0
        invariant
            i <= metadata.len(),
            wanted@ == name@,
            directive(self::parser::metadata_views(metadata@), name@, metadata.len() as int)
                == directive(self::parser::metadata_views(metadata@), name@, i as int),
        decreases i,
    {
        if metadata[i - 1].0 == wanted {
            return Some(&metadata[i - 1].1);
        }
        i -= 1;
    }
    None
}

/// The label that serves the interrupt `number`.
pub fn find_vector(interrupts: &HashMap<u8, String>, number: u8) -> (found: Option<&String>)
    ensures
        match found {
            Some(name) => vector(self::parser::interrupt_views(interrupts@), number) == Some(name@),
            None => vector(self::parser::interrupt_views(interrupts@), number) is None,
        },
{
    broadcast use vstd::std_specs::hash::group_hash_axioms;

    interrupts.get(&number)
}

/// The second pass of the assembler: it writes what the parser has found.
pub struct Assembler {
    pub parser_res: ParserResult,
}

impl Assembler {
    pub fn new(parser_res: ParserResult) -> (assembler: Assembler)
        ensures
            assembler.parser_res == parser_res,
    {
        Assembler { parser_res }
    }

    /// The first of `labels` with the name `name`.
    pub fn find_label<'a>(name: &String, labels: &'a Vec<Label>) -> (found: Option<&'a Label>)
        ensures
            match found {
                Some(label) => match text_label_index(label_views(labels@), name@, 0) {
                    Some(at) => label@ == label_views(labels@)[at],
                    None => false,
                },
                None => text_label_index(label_views(labels@), name@, 0) is None,
            },
    {
        match find_text_label(labels, name) {
            Some(at) => Some(&labels[at]),
            None => None,
        }
    }

    /// The first of the data labels with the name `name`.
    pub fn find_data_label<'a>(
        name: &String,
        labels: &'a Vec<(String, Vec<DefineByteData>)>,
    ) -> (found: Option<&'a (String, Vec<DefineByteData>)>)
        ensures
            match found {
                Some(label) => match data_label_index(data_label_views(labels@), name@, 0) {
                    Some(at) => (label.0@, data_views(label.1@)) == data_label_views(labels@)[at],
                    None => false,
                },
                None => data_label_index(data_label_views(labels@), name@, 0) is None,
            },
    {
        match find_data_label_index(labels, name) {
            Some(at) => Some(&labels[at]),
            None => None,
        }
    }

    /// The address of the text label with the name `name`.
    pub fn resolve_text(&self, data_length: usize, name: &String) -> (address: Result<
        u16,
        EncodeError,
    >)
        requires
            data_length <= 0xFFFF,
        ensures
            match address {
                Ok(address) => resolved_text(self.parser_res@, data_length as int, name@) == Ok::<
                    int,
                    EncodeFailure,
                >(address as int),
                Err(error) => resolved_text(self.parser_res@, data_length as int, name@) == Err::<
                    int,
                    EncodeFailure,
                >(error@),
            },
    {
        match Assembler::find_label(name, &self.parser_res.text_labels) {
            Some(label) => {
                if label.addr > 0xFFFF || label.addr + data_length > 0xFFFF {
                    Err(EncodeError::AddressTooLarge)
                } else {
                    Ok((label.addr + data_length) as u16)
                }
            },
            None => Err(EncodeError::UnresolvedIdentifier(name.clone())),
        }
    }

    /// The address that the name of a label stands for.
    pub fn resolve(&self, data_length: usize, name: &String) -> (address: Result<u16, EncodeError>)
        requires
            data_length <= 0xFFFF,
        ensures
            match address {
                Ok(address) => resolved(self.parser_res@, data_length as int, name@) == Ok::<
                    int,
                    EncodeFailure,
                >(address as int),
                Err(error) => resolved(self.parser_res@, data_length as int, name@) == Err::<
                    int,
                    EncodeFailure,
                >(error@),
            },
    {
        match Assembler::find_label(name, &self.parser_res.text_labels) {
            Some(label) => {
                if label.addr > 0xFFFF || label.addr + data_length > 0xFFFF {
                    Err(EncodeError::AddressTooLarge)
                } else {
                    Ok((label.addr + data_length) as u16)
                }
            },
            None => match Assembler::find_data_label(name, &self.parser_res.data_labels) {
                None => Err(EncodeError::UnresolvedIdentifier(name.clone())),
                Some(label) => {
                    if label.1.len() == 0 {
                        return Err(EncodeError::EmptyDataLabel(name.clone()));
                    }
                    let offset = match &label.1[0] {
                        DefineByteData::String(_, offset) => *offset,
                        DefineByteData::Byte(_, offset) => *offset,
                        DefineByteData::Short(_, offset) => *offset,
                    };
                    if offset > 0xFFFF - 0x4402 {
                        Err(EncodeError::AddressTooLarge)
                    } else {
                        Ok((offset + 0x4402) as u16)
                    }
                },
            },
        }
    }

    /// Writes the bytes of an operand behind `out` and returns the bits that
    /// it sets in the second byte of the instruction.
    pub fn encode_operand(
        &self,
        data_length: usize,
        arg: &InstructionArg,
        second: bool,
        out: &mut Vec<u8>,
    ) -> (bits: Result<u8, EncodeError>)
        requires
            data_length <= 0xFFFF,
        ensures
            match encoded_operand(self.parser_res@, data_length as int, arg@, second) {
                Ok(operand) => bits matches Ok(found) && found == operand.bits && final(out)@
                    == old(out)@ + operand.bytes,
                Err(error) => bits matches Err(found) && found@ == error && final(out)@ == old(
                    out,
                )@,
            },
    {
        match arg {
            InstructionArg::Register(reg) => {
                if *reg > 8 {
                    Err(EncodeError::InvalidRegister)
                } else if second {
                    out.push(*reg);
                    assert(out@ =~= old(out)@ + seq![*reg]);
                    Ok(0)
                } else {
                    assert(out@ =~= old(out)@ + Seq::<u8>::empty());
                    Ok(0b1100)
                }
            },
            InstructionArg::Number(num) => {
                if *num > 255 {
                    push_address(out, *num);
                    Ok(0b0100)
                } else {
                    out.push(*num as u8);
                    assert(out@ =~= old(out)@ + seq![*num as u8]);
                    Ok(0)
                }
            },
            InstructionArg::Address(addr) => {
                if *addr <= 255 {
                    out.push(*addr as u8);
                    assert(out@ =~= old(out)@ + seq![*addr as u8]);
                    Ok(0)
                } else if *addr <= 65535 {
                    push_address(out, *addr as u16);
                    Ok(0b0100)
                } else if *addr <= 0xFFFFF {
                    out.push((*addr / 0x10000) as u8);
                    push_address(out, (*addr % 0x10000) as u16);
                    assert(out@ =~= old(out)@ + (seq![(*addr as int / 0x10000) as u8]
                        + address_bytes(*addr as int % 0x10000)));
                    Ok(0b1000)
                } else {
                    Err(EncodeError::AddressTooLarge)
                }
            },
            InstructionArg::Identifier(ident) => {
                let address = self.resolve(data_length, ident)?;
                push_address(out, address);
                Ok(0b0100)
            },
        }
    }

    /// Writes the bytes of an instruction behind `out`.
    pub fn encode_instruction(
        &self,
        data_length: usize,
        instruction: &ParserInstruction,
        out: &mut Vec<u8>,
    ) -> (result: Result<(), EncodeError>)
        requires
            data_length <= 0xFFFF,
        ensures
            match encoded_instruction(self.parser_res@, data_length as int, instruction@) {
                Ok(bytes) => result is Ok && final(out)@ == old(out)@ + bytes,
                Err(error) => result matches Err(found) && found@ == error && final(out)@ == old(
                    out,
                )@,
            },
    {
        reveal(encoded_instruction);
        let opcode = Instruction::create_opcode(instruction.opcode, instruction.addressing_mode);
        let mut bytes: Vec<u8> = Vec::new();
        match instruction.instruction_type {
            InstructionType::Zero => {
                out.push(opcode);
                out.push(0b1100);
                assert(out@ =~= old(out)@ + seq![opcode, 0b1100u8]);
                Ok(())
            },
            InstructionType::One => {
                if instruction.args.len() < 1 {
                    return Err(EncodeError::MalformedInstruction);
                }
                let bits = self.encode_operand(data_length, &instruction.args[0], false, &mut bytes)?;
                let register: u8 = match &instruction.args[0] {
                    InstructionArg::Register(reg) => *reg,
                    _ => 0,
                };
                out.push(opcode);
                out.push(register * 16 + bits);
                let ghost head = out@;
                append(out, &bytes);
                assert(out@ =~= old(out)@ + (seq![opcode, (register * 16 + bits) as u8] + bytes@));
                Ok(())
            },
            InstructionType::Two => {
                if instruction.args.len() < 2 {
                    return Err(EncodeError::MalformedInstruction);
                }
                let register: u8 = match &instruction.args[0] {
                    InstructionArg::Register(reg) => *reg,
                    _ => {
                        return Err(EncodeError::MalformedInstruction);
                    },
                };
                if register > 8 {
                    return Err(EncodeError::InvalidRegister);
                }
                let bits = self.encode_operand(data_length, &instruction.args[1], true, &mut bytes)?;
                out.push(opcode);
                out.push(register * 16 + bits);
                append(out, &bytes);
                assert(out@ =~= old(out)@ + (seq![opcode, (register * 16 + bits) as u8] + bytes@));
                Ok(())
            },
        }
    }

    /// Writes the bytes of the instructions of a label behind `out`.
    fn encode_label(&self, data_length: usize, label: &Label, out: &mut Vec<u8>) -> (result:
        Result<(), EncodeError>)
        requires
            data_length <= 0xFFFF,
        ensures
            written(
                final(out)@,
                result,
                instructions_bytes(
                    self.parser_res@,
                    data_length as int,
                    label@.instructions,
                    0,
                    old(out)@,
                ),
            ),
    {
        let mut i: usize = 0;
        while i < label.instructions.len()
            invariant
                i <= label.instructions.len(),
                data_length <= 0xFFFF,
                instructions_bytes(
                    self.parser_res@,
                    data_length as int,
                    label@.instructions,
                    0,
                    old(out)@,
                ) == instructions_bytes(
                    self.parser_res@,
                    data_length as int,
                    label@.instructions,
                    i as int,
                    out@,
                ),
            decreases label.instructions.len() - i,
        {
            self.encode_instruction(data_length, &label.instructions[i], out)?;
            i += 1;
        }
        Ok(())
    }

    /// Writes the bytes of all text labels behind `out`.
    fn encode_code(&self, data_length: usize, out: &mut Vec<u8>) -> (result: Result<
        (),
        EncodeError,
    >)
        requires
            data_length <= 0xFFFF,
        ensures
            written(
                final(out)@,
                result,
                code_bytes(self.parser_res@, data_length as int, 0, old(out)@),
            ),
    {
        let mut i: usize = 0;
        while i < self.parser_res.text_labels.len()
            invariant
                i <= self.parser_res.text_labels.len(),
                data_length <= 0xFFFF,
                code_bytes(self.parser_res@, data_length as int, 0, old(out)@) == code_bytes(
                    self.parser_res@,
                    data_length as int,
                    i as int,
                    out@,
                ),
            decreases self.parser_res.text_labels.len() - i,
        {
            self.encode_label(data_length, &self.parser_res.text_labels[i], out)?;
            i += 1;
        }
        Ok(())
    }

    /// The address at which the program begins to run.
    pub fn entry(&self, data_length: usize) -> (address: Result<u16, EncodeError>)
        requires
            data_length <= 0xFFFF,
        ensures
            match address {
                Ok(address) => entry_address(self.parser_res@, data_length as int) == Ok::<
                    int,
                    EncodeFailure,
                >(address as int),
                Err(error) => entry_address(self.parser_res@, data_length as int) == Err::<
                    int,
                    EncodeFailure,
                >(error@),
            },
    {
        proof {
            reveal_strlit("main");
            assert("main"@ =~= seq!['m', 'a', 'i', 'n']);
        }
        match find_directive(&self.parser_res.metadata, "main") {
            None => Err(EncodeError::NoMainLabel),
            Some(MetadataValue::Number(_)) => Err(EncodeError::MainNotLabel),
            Some(MetadataValue::String(label_name)) => self.resolve_text(data_length, label_name),
        }
    }

    /// Writes the interrupt vectors behind `out`.
    fn encode_vectors(&self, data_length: usize, out: &mut Vec<u8>) -> (result: Result<
        (),
        EncodeError,
    >)
        requires
            data_length <= 0xFFFF,
        ensures
            written(
                final(out)@,
                result,
                vector_bytes(self.parser_res@, data_length as int, 0, old(out)@),
            ),
    {
        let mut interrupt: u8 = 0;
        while interrupt < INTERRUPTS
            invariant
                interrupt <= INTERRUPTS,
                data_length <= 0xFFFF,
                vector_bytes(self.parser_res@, data_length as int, 0, old(out)@) == vector_bytes(
                    self.parser_res@,
                    data_length as int,
                    interrupt as int,
                    out@,
                ),
            decreases INTERRUPTS - interrupt,
        {
            match find_vector(&self.parser_res.interrupts, interrupt) {
                Some(name) => {
                    let address = self.resolve_text(data_length, name)?;
                    push_address(out, address);
                },
                None => {
                    let ghost before = out@;
                    out.push(0);
                    out.push(0);
                    assert(out@ =~= before + seq![0u8, 0u8]);
                },
            }
            interrupt += 1;
        }
        Ok(())
    }

    /// Writes the program out as an image.
    pub fn assemble(&self) -> (bytes: Result<Vec<u8>, EncodeError>)
        ensures
            match image(self.parser_res@) {
                Ok(image) => bytes is Ok && bytes.unwrap()@ == image,
                Err(error) => bytes matches Err(found) && found@ == error,
            },
    {
        let mut data: Vec<u8> = Vec::new();
        encode_data(&self.parser_res.data_labels, &mut data)?;
        if data.len() > 0xFFFF {
            return Err(EncodeError::ImageTooLarge);
        }
        let data_length = data.len();
        let mut code: Vec<u8> = Vec::new();
        self.encode_code(data_length, &mut code)?;
        if code.len() > 0xFFFF {
            return Err(EncodeError::ImageTooLarge);
        }
        let start_index = self.entry(data_length)?;
        let mut vectors: Vec<u8> = Vec::new();
        self.encode_vectors(data_length, &mut vectors)?;
        let mut output: Vec<u8> = Vec::new();
        push_address(&mut output, code.len() as u16);
        push_address(&mut output, data.len() as u16);
        push_address(&mut output, start_index);
        append(&mut output, &code);
        append(&mut output, &data);
        append(&mut output, &vectors);
        assert(output@ =~= address_bytes(code.len() as int) + address_bytes(data.len() as int)
            + address_bytes(start_index as int) + code@ + data@ + vectors@);
        Ok(output)
    }
}

/// Writes `bytes` behind `out`.
pub fn append(out: &mut Vec<u8>, bytes: &Vec<u8>)
    ensures
        final(out)@ == old(out)@ + bytes@,
{
    let mut i: usize = 0;
    while i < bytes.len()
        invariant
            i <= bytes.len(),
            out@ =~= old(out)@ + bytes@.take(i as int),
        decreases bytes.len() - i,
    {
        out.push(bytes[i]);
        i += 1;
    }
    assert(bytes@.take(bytes.len() as int) =~= bytes@);
}

/// A reference to a text label is written as the address of the label,
/// wherever the reference stands: before the label or behind it. The address
/// is the one that the parser gave the label, moved up by the length of the
/// data.
pub proof fn lemma_reference_is_label_address(
    program: ParserResultModel,
    data_length: int,
    name: Seq<char>,
    second: bool,
)
    requires
        text_label_index(program.text_labels, name, 0) is Some,
        program.text_labels[text_label_index(program.text_labels, name, 0).unwrap()].addr
            + data_length <= 0xFFFF,
    ensures
        encoded_operand(program, data_length, ArgModel::Identifier(name), second) == Ok::<
            EncodedOperand,
            EncodeFailure,
        >(
            EncodedOperand {
                bits: 0b0100,
                bytes: address_bytes(
                    program.text_labels[text_label_index(
                        program.text_labels,
                        name,
                        0,
                    ).unwrap()].addr + data_length,
                ),
            },
        ),
{
}

/// A name that is the name of no label is what the error names, and only such
/// a name fails so: an operand that is a name is refused as unresolved, with
/// that name in the error, exactly where neither a text label nor a data label
/// has the name. An instruction with such an operand cannot be written, and a
/// program with such an instruction has no code.
pub proof fn lemma_unresolved_name_is_named(
    program: ParserResultModel,
    data_length: int,
    name: Seq<char>,
    second: bool,
)
    ensures
        (text_label_index(program.text_labels, name, 0) is None && data_label_index(
            program.data_labels,
            name,
            0,
        ) is None) <==> encoded_operand(program, data_length, ArgModel::Identifier(name), second)
            == Err::<EncodedOperand, EncodeFailure>(EncodeFailure::UnresolvedIdentifier(name)),
        (text_label_index(program.text_labels, name, 0) is None && data_label_index(
            program.data_labels,
            name,
            0,
        ) is None) <==> resolved(program, data_length, name) == Err::<int, EncodeFailure>(
            EncodeFailure::UnresolvedIdentifier(name),
        ),
        forall|other: Seq<char>|
            resolved(program, data_length, name) == Err::<int, EncodeFailure>(
                EncodeFailure::UnresolvedIdentifier(other),
            ) ==> other == name,
{
}

/// An instruction whose last operand is a name that no label has cannot be
/// written: it fails with the error that names the name.
pub proof fn lemma_unresolved_operand_fails(
    program: ParserResultModel,
    data_length: int,
    instruction: InstructionModel,
    name: Seq<char>,
)
    requires
        text_label_index(program.text_labels, name, 0) is None,
        data_label_index(program.data_labels, name, 0) is None,
        (instruction.instruction_type == InstructionType::One && instruction.args == seq![
            ArgModel::Identifier(name),
        ]) || (instruction.instruction_type == InstructionType::Two && instruction.args.len() == 2
            && instruction.args[0] is Register && instruction.args[0]->Register_0 <= 8
            && instruction.args[1] == ArgModel::Identifier(name)),
    ensures
        encoded_instruction(program, data_length, instruction) == Err::<Seq<u8>, EncodeFailure>(
            EncodeFailure::UnresolvedIdentifier(name),
        ),
{
    reveal(encoded_instruction);
}

/// Two instructions that name one text label as their only operand carry the
/// same two address bytes behind their first two bytes, whichever of them
/// stands before the label and whichever behind it.
pub proof fn lemma_references_agree(
    program: ParserResultModel,
    data_length: int,
    name: Seq<char>,
    first: InstructionModel,
    second: InstructionModel,
)
    requires
        text_label_index(program.text_labels, name, 0) is Some,
        program.text_labels[text_label_index(program.text_labels, name, 0).unwrap()].addr
            + data_length <= 0xFFFF,
        first.instruction_type == InstructionType::One,
        second.instruction_type == InstructionType::One,
        first.args == seq![ArgModel::Identifier(name)],
        second.args == seq![ArgModel::Identifier(name)],
    ensures
        encoded_instruction(program, data_length, first) is Ok,
        encoded_instruction(program, data_length, second) is Ok,
        encoded_instruction(program, data_length, first)->Ok_0.subrange(2, 4)
            == encoded_instruction(program, data_length, second)->Ok_0.subrange(2, 4),
        encoded_instruction(program, data_length, first)->Ok_0.subrange(2, 4) == address_bytes(
            program.text_labels[text_label_index(program.text_labels, name, 0).unwrap()].addr
                + data_length,
        ),
{
    reveal(encoded_instruction);
    lemma_reference_is_label_address(program, data_length, name, false);
    let address = program.text_labels[text_label_index(program.text_labels, name, 0).unwrap()].addr
        + data_length;
    let one = encoded_instruction(program, data_length, first)->Ok_0;
    let two = encoded_instruction(program, data_length, second)->Ok_0;
    assert(one.subrange(2, 4) =~= address_bytes(address));
    assert(two.subrange(2, 4) =~= address_bytes(address));
}

/// An instruction that can be written takes as many bytes as the parser
/// counted for it when it gave the labels their addresses.
pub proof fn lemma_encoded_length(
    program: ParserResultModel,
    data_length: int,
    instruction: InstructionModel,
)
    requires
        encoded_instruction(program, data_length, instruction) is Ok,
    ensures
        encoded_instruction(program, data_length, instruction)->Ok_0.len()
            == instruction.length(),
{
    reveal(encoded_instruction);
}

/// Whether `result` is what assembling `program` returns: its image, or the
/// error that keeps it from having one.
pub open spec fn assembles_to(program: ParserResultModel, result: Result<Vec<u8>, EncodeError>) -> bool {
    match image(program) {
        Ok(image) => result is Ok && result.unwrap()@ == image,
        Err(error) => result matches Err(found) && found@ == error,
    }
}

/// The image is a function of the program: what is assembled twice comes out
/// the same byte for byte, or fails twice with the same error.
pub proof fn lemma_image_is_determined(
    program: ParserResultModel,
    first: Result<Vec<u8>, EncodeError>,
    second: Result<Vec<u8>, EncodeError>,
)
    requires
        assembles_to(program, first),
        assembles_to(program, second),
    ensures
        first is Ok <==> second is Ok,
        first is Ok ==> first.unwrap()@ == second.unwrap()@,
        first matches Err(one) ==> second matches Err(other) && one@ == other@,
{
}

/// Where the instruction with the number `i` of a label begins, counted in
/// bytes from the first instruction of the label.
pub open spec fn place_in_label(instructions: Seq<InstructionModel>, i: int) -> int {
    total_length(instructions) - length_from(instructions, i)
}

/// The bytes of each of the instructions; none for one that cannot be
/// written.
pub open spec fn encodings(
    program: ParserResultModel,
    data_length: int,
    instructions: Seq<InstructionModel>,
) -> Seq<Seq<u8>> {
    Seq::new(
        instructions.len(),
        |i: int|
            match encoded_instruction(program, data_length, instructions[i]) {
                Ok(bytes) => bytes,
                Err(_) => Seq::empty(),
            },
    )
}

/// The bytes of each of the text labels.
pub open spec fn label_runs(program: ParserResultModel, data_length: int) -> Seq<Seq<u8>> {
    Seq::new(
        program.text_labels.len(),
        |k: int|
            joined(
                encodings(program, data_length, program.text_labels[k].instructions),
                0,
                Seq::empty(),
            ),
    )
}

/// Where instructions can be written out, each of them can.
proof fn lemma_instruction_is_encoded(
    program: ParserResultModel,
    data_length: int,
    instructions: Seq<InstructionModel>,
    from: int,
    found: Seq<u8>,
    i: int,
)
    requires
        0 <= from <= i < instructions.len(),
        instructions_bytes(program, data_length, instructions, from, found) is Ok,
    ensures
        encoded_instruction(program, data_length, instructions[i]) is Ok,
    decreases i - from,
{
    if from < i {
        let first = encoded_instruction(program, data_length, instructions[from])->Ok_0;
        lemma_instruction_is_encoded(program, data_length, instructions, from + 1, found + first, i);
    }
}

/// Instructions written out are their bytes joined.
proof fn lemma_instructions_are_joined(
    program: ParserResultModel,
    data_length: int,
    instructions: Seq<InstructionModel>,
    from: int,
    found: Seq<u8>,
)
    requires
        0 <= from <= instructions.len(),
        instructions_bytes(program, data_length, instructions, from, found) is Ok,
    ensures
        instructions_bytes(program, data_length, instructions, from, found)->Ok_0 == joined(
            encodings(program, data_length, instructions),
            from,
            found,
        ),
    decreases instructions.len() - from,
{
    if from < instructions.len() {
        let first = encoded_instruction(program, data_length, instructions[from])->Ok_0;
        assert(encodings(program, data_length, instructions)[from] == first);
        lemma_instructions_are_joined(program, data_length, instructions, from + 1, found + first);
    }
}

/// The bytes of instructions that can be written out are as many as the
/// parser counted.
proof fn lemma_sizes_are_lengths(
    program: ParserResultModel,
    data_length: int,
    instructions: Seq<InstructionModel>,
    found: Seq<u8>,
    from: int,
)
    requires
        0 <= from <= instructions.len(),
        instructions_bytes(program, data_length, instructions, 0, found) is Ok,
    ensures
        size_from(encodings(program, data_length, instructions), from) == length_from(
            instructions,
            from,
        ),
    decreases instructions.len() - from,
{
    if from < instructions.len() {
        lemma_instruction_is_encoded(program, data_length, instructions, 0, found, from);
        lemma_encoded_length(program, data_length, instructions[from]);
        lemma_sizes_are_lengths(program, data_length, instructions, found, from + 1);
        assert(encodings(program, data_length, instructions)[from] == encoded_instruction(
            program,
            data_length,
            instructions[from],
        )->Ok_0);
    }
}

/// Where the labels from position `from` on can be written out, so can each
/// of them.
proof fn lemma_label_is_encoded(
    program: ParserResultModel,
    data_length: int,
    from: int,
    found: Seq<u8>,
    k: int,
)
    requires
        0 <= from <= k < program.text_labels.len(),
        code_bytes(program, data_length, from, found) is Ok,
    ensures
        exists|before: Seq<u8>|
            instructions_bytes(
                program,
                data_length,
                program.text_labels[k].instructions,
                0,
                before,
            ) is Ok,
    decreases k - from,
{
    if from < k {
        let longer = instructions_bytes(
            program,
            data_length,
            program.text_labels[from].instructions,
            0,
            found,
        )->Ok_0;
        lemma_label_is_encoded(program, data_length, from + 1, longer, k);
    } else {
        assert(instructions_bytes(
            program,
            data_length,
            program.text_labels[k].instructions,
            0,
            found,
        ) is Ok);
    }
}

/// Labels written out are their bytes joined, and these are as many as the
/// parser counted.
proof fn lemma_code_is_joined(program: ParserResultModel, data_length: int, from: int, found: Seq<u8>)
    requires
        0 <= from <= program.text_labels.len(),
        code_bytes(program, data_length, from, found) is Ok,
    ensures
        code_bytes(program, data_length, from, found)->Ok_0 == joined(
            label_runs(program, data_length),
            from,
            found,
        ),
        size_from(label_runs(program, data_length), from) == offset_before(
            program.text_labels,
            program.text_labels.len() as int,
        ) - offset_before(program.text_labels, from),
    decreases program.text_labels.len() - from,
{
    let labels = program.text_labels;
    if from < labels.len() {
        let instructions = labels[from].instructions;
        let parts = encodings(program, data_length, instructions);
        let longer = instructions_bytes(program, data_length, instructions, 0, found)->Ok_0;
        lemma_instructions_are_joined(program, data_length, instructions, 0, found);
        lemma_joined_behind(parts, 0, found);
        assert(label_runs(program, data_length)[from] == joined(parts, 0, Seq::empty()));
        lemma_code_is_joined(program, data_length, from + 1, longer);
        lemma_sizes_are_lengths(program, data_length, instructions, found, 0);
        lemma_joined_length(parts, 0, Seq::empty());
        assert(offset_before(labels, from + 1) == offset_before(labels, from) + total_length(
            instructions,
        ));
    }
}

/// Every instruction stands in the code where the addresses of the labels
/// say: the instruction with the number `i` of the label with the number `k`
/// begins as many bytes into the code as the labels before `k` and the
/// instructions before `i` take. So a label whose address is the base of the
/// program memory and the bytes of the labels before it names the place of
/// its own first instruction.
pub proof fn lemma_instruction_place(program: ParserResultModel, data_length: int, k: int, i: int)
    requires
        code_bytes(program, data_length, 0, Seq::empty()) is Ok,
        0 <= k < program.text_labels.len(),
        0 <= i < program.text_labels[k].instructions.len(),
    ensures
        encoded_instruction(program, data_length, program.text_labels[k].instructions[i]) is Ok,
        code_bytes(program, data_length, 0, Seq::empty())->Ok_0.subrange(
            offset_before(program.text_labels, k) + place_in_label(
                program.text_labels[k].instructions,
                i,
            ),
            offset_before(program.text_labels, k) + place_in_label(
                program.text_labels[k].instructions,
                i + 1,
            ),
        ) == encoded_instruction(
            program,
            data_length,
            program.text_labels[k].instructions[i],
        )->Ok_0,
        place_in_label(program.text_labels[k].instructions, 0) == 0,
        code_bytes(program, data_length, 0, Seq::empty())->Ok_0.len() == offset_before(
            program.text_labels,
            program.text_labels.len() as int,
        ),
{
    let labels = program.text_labels;
    let instructions = labels[k].instructions;
    let code = code_bytes(program, data_length, 0, Seq::empty())->Ok_0;
    let runs = label_runs(program, data_length);
    let parts = encodings(program, data_length, instructions);
    lemma_code_is_joined(program, data_length, 0, Seq::empty());
    lemma_code_is_joined_at(program, data_length, k);
    lemma_label_is_encoded(program, data_length, 0, Seq::empty(), k);
    let before = choose|before: Seq<u8>|
        instructions_bytes(program, data_length, instructions, 0, before) is Ok;
    lemma_instruction_is_encoded(program, data_length, instructions, 0, before, i);
    lemma_sizes_are_lengths(program, data_length, instructions, before, 0);
    lemma_sizes_are_lengths(program, data_length, instructions, before, i);
    lemma_sizes_are_lengths(program, data_length, instructions, before, i + 1);
    lemma_joined_at(runs, 0, Seq::empty(), k);
    lemma_joined_at(parts, 0, Seq::empty(), i);
    assert(runs[k] == joined(parts, 0, Seq::empty()));
    assert(parts[i] == encoded_instruction(program, data_length, instructions[i])->Ok_0);
    let start = size_from(runs, 0) - size_from(runs, k);
    let end = size_from(runs, 0) - size_from(runs, k + 1);
    assert(start == offset_before(labels, k));
    lemma_subrange_of_subrange(
        code,
        start,
        end,
        place_in_label(instructions, i),
        place_in_label(instructions, i + 1),
    );
}

/// The bytes before a label among the joined labels are those that the
/// parser counted before it.
proof fn lemma_code_is_joined_at(program: ParserResultModel, data_length: int, k: int)
    requires
        0 <= k <= program.text_labels.len(),
        code_bytes(program, data_length, 0, Seq::empty()) is Ok,
    ensures
        size_from(label_runs(program, data_length), 0) - size_from(
            label_runs(program, data_length),
            k,
        ) == offset_before(program.text_labels, k),
        code_bytes(program, data_length, 0, Seq::empty())->Ok_0.len() == offset_before(
            program.text_labels,
            program.text_labels.len() as int,
        ),
{
    lemma_code_is_joined(program, data_length, 0, Seq::empty());
    lemma_joined_length(label_runs(program, data_length), 0, Seq::empty());
    lemma_sizes_of_labels(program, data_length, 0, Seq::empty(), k);
}

/// The bytes of the labels from a position on are those that the parser
/// counted for them.
proof fn lemma_sizes_of_labels(
    program: ParserResultModel,
    data_length: int,
    from: int,
    found: Seq<u8>,
    k: int,
)
    requires
        0 <= from <= k <= program.text_labels.len(),
        code_bytes(program, data_length, from, found) is Ok,
    ensures
        size_from(label_runs(program, data_length), k) == offset_before(
            program.text_labels,
            program.text_labels.len() as int,
        ) - offset_before(program.text_labels, k),
    decreases k - from,
{
    if from < k {
        let longer = instructions_bytes(
            program,
            data_length,
            program.text_labels[from].instructions,
            0,
            found,
        )->Ok_0;
        lemma_sizes_of_labels(program, data_length, from + 1, longer, k);
    } else {
        lemma_code_is_joined(program, data_length, from, found);
    }
}

} // verus!
