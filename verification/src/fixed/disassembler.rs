//! The disassembler of the fixed-width machine: from the bytes of an image to
//! one line for each instruction. How a line is coloured, and where it is
//! printed, is left to the caller.

use crate::common::hex::{decimal_text, hex_text, to_decimal, Hex};
use crate::common::instruction::{operand_of, Instruction};
use crate::common::text::from_chars;
use vstd::prelude::*;

verus! {

/// What the operand of an instruction is.
#[derive(Clone, Copy, Debug, PartialEq, Eq, Structural)]
pub enum InstructionValues {
    Null,
    Val,
    Reg,
    Addr,
}

/// How an instruction is written: its mnemonic, what its operand is, and
/// whether it names a register before the operand.
#[derive(Clone, Debug)]
pub struct InstructionInfo {
    pub name: String,
    pub value: InstructionValues,
    pub uses_reg1: bool,
}

/// How an instruction is written, as a value.
pub struct InfoModel {
    pub name: Seq<char>,
    pub value: InstructionValues,
    pub uses_reg1: bool,
}

impl View for InstructionInfo {
    type V = InfoModel;

    open spec fn view(&self) -> InfoModel {
        InfoModel { name: self.name@, value: self.value, uses_reg1: self.uses_reg1 }
    }
}

impl InstructionInfo {
    pub fn new(name: String, value: InstructionValues, uses_reg1: bool) -> (info: InstructionInfo)
        ensures
            info@ == (InfoModel { name: name@, value, uses_reg1 }),
    {
        InstructionInfo { name, value, uses_reg1 }
    }
}

/// How the instruction with the opcode `opcode` is written.
pub open spec fn info_of(opcode: u8) -> Option<InfoModel> {
    if opcode == 0x00 {
        Some(InfoModel { name: seq!['M', 'O', 'V'], value: InstructionValues::Val, uses_reg1: true })
    } else if opcode == 0x01 {
        Some(InfoModel { name: seq!['L', 'D'], value: InstructionValues::Reg, uses_reg1: true })
    } else if opcode == 0x02 {
        Some(InfoModel { name: seq!['L', 'D'], value: InstructionValues::Addr, uses_reg1: true })
    } else if opcode == 0x03 {
        Some(InfoModel { name: seq!['P', 'S', 'H'], value: InstructionValues::Val, uses_reg1: false })
    } else if opcode == 0x04 {
        Some(InfoModel { name: seq!['P', 'S', 'H'], value: InstructionValues::Null, uses_reg1: true })
    } else if opcode == 0x05 {
        Some(InfoModel { name: seq!['P', 'S', 'H'], value: InstructionValues::Addr, uses_reg1: false })
    } else if opcode == 0x06 {
        Some(InfoModel { name: seq!['P', 'O', 'P'], value: InstructionValues::Null, uses_reg1: true })
    } else if opcode == 0x07 {
        Some(InfoModel { name: seq!['P', 'O', 'P'], value: InstructionValues::Null, uses_reg1: false })
    } else if opcode == 0x08 {
        Some(InfoModel { name: seq!['L', 'D', 'S'], value: InstructionValues::Addr, uses_reg1: true })
    } else if opcode == 0x09 {
        Some(InfoModel { name: seq!['M', 'O', 'V'], value: InstructionValues::Reg, uses_reg1: true })
    } else if opcode == 0x0a {
        Some(InfoModel { name: seq!['M', 'O', 'V'], value: InstructionValues::Addr, uses_reg1: true })
    } else if opcode == 0x10 {
        Some(InfoModel { name: seq!['S', 'T'], value: InstructionValues::Addr, uses_reg1: true })
    } else if opcode == 0x11 {
        Some(InfoModel { name: seq!['S', 'T', 'L'], value: InstructionValues::Addr, uses_reg1: true })
    } else if opcode == 0x12 {
        Some(InfoModel { name: seq!['S', 'T', 'H'], value: InstructionValues::Addr, uses_reg1: true })
    } else if opcode == 0x20 {
        Some(InfoModel { name: seq!['C', 'M', 'P'], value: InstructionValues::Reg, uses_reg1: true })
    } else if opcode == 0x21 {
        Some(InfoModel { name: seq!['C', 'M', 'P'], value: InstructionValues::Val, uses_reg1: true })
    } else if opcode == 0x30 {
        Some(InfoModel { name: seq!['B', 'E', 'Q'], value: InstructionValues::Addr, uses_reg1: false })
    } else if opcode == 0x31 {
        Some(InfoModel { name: seq!['B', 'G', 'T'], value: InstructionValues::Addr, uses_reg1: false })
    } else if opcode == 0x32 {
        Some(InfoModel { name: seq!['B', 'L', 'T'], value: InstructionValues::Addr, uses_reg1: false })
    } else if opcode == 0x33 {
        Some(InfoModel { name: seq!['J', 'M', 'P'], value: InstructionValues::Addr, uses_reg1: false })
    } else if opcode == 0x34 {
        Some(InfoModel { name: seq!['B', 'O', 'F'], value: InstructionValues::Addr, uses_reg1: false })
    } else if opcode == 0x35 {
        Some(InfoModel { name: seq!['B', 'N', 'E'], value: InstructionValues::Addr, uses_reg1: false })
    } else if opcode == 0x40 {
        Some(InfoModel { name: seq!['A', 'D', 'D'], value: InstructionValues::Val, uses_reg1: true })
    } else if opcode == 0x41 {
        Some(InfoModel { name: seq!['S', 'U', 'B'], value: InstructionValues::Val, uses_reg1: true })
    } else if opcode == 0x42 {
        Some(InfoModel { name: seq!['A', 'D', 'D'], value: InstructionValues::Reg, uses_reg1: true })
    } else if opcode == 0x43 {
        Some(InfoModel { name: seq!['S', 'U', 'B'], value: InstructionValues::Reg, uses_reg1: true })
    } else if opcode == 0x50 {
        Some(InfoModel { name: seq!['C', 'A', 'L', 'L'], value: InstructionValues::Addr, uses_reg1: false })
    } else if opcode == 0x51 {
        Some(InfoModel { name: seq!['R', 'E', 'T'], value: InstructionValues::Null, uses_reg1: false })
    } else if opcode == 0xfe {
        Some(InfoModel { name: seq!['H', 'L', 'T'], value: InstructionValues::Null, uses_reg1: false })
    } else if opcode == 0xff {
        Some(InfoModel { name: seq!['N', 'O', 'P'], value: InstructionValues::Null, uses_reg1: false })
    } else {
        None
    }
}

/// Why bytes cannot be disassembled.
#[derive(Clone, Copy, Debug, PartialEq, Eq, Structural)]
pub enum DisassembleError {
    /// Fewer than the two bytes of the start address.
    NoHeader,
    /// An opcode that stands for no instruction.
    UnknownOpcode(u8),
    /// A register above the ninth.
    InvalidRegister,
    /// More instructions than sixteen-bit offsets can count.
    TooLong,
}

/// The name of the register with the number `reg`.
pub open spec fn register_name(reg: u8) -> Seq<char> {
    if reg <= 5 {
        seq!['R', ('1' as int + reg as int) as char]
    } else if reg == 6 {
        seq!['R', 'P', 'C']
    } else if reg == 7 {
        seq!['R', 'S', 'P']
    } else {
        seq!['R', 'B', 'P']
    }
}

/// The bytes in two hexadecimal digits each.
pub open spec fn hex_of(source: Seq<u8>) -> Seq<char>
    decreases source.len(),
{
    if source.len() == 0 {
        Seq::empty()
    } else {
        hex_of(source.drop_last()) + hex_text(source.last() as int, 2)
    }
}

/// An instruction of an image, as a value.
pub struct WordModel {
    pub opcode: u8,
    pub register: u8,
    pub data: u16,
    pub source: Seq<u8>,
}

/// The instructions of an image from position `at` on: four bytes each. Of
/// three bytes at the end an instruction is made with a zero as the fourth;
/// fewer are left out.
pub open spec fn words_from(bytes: Seq<u8>, at: int) -> Seq<WordModel>
    decreases bytes.len() - at,
{
    if at < 0 || bytes.len() - at < 3 {
        Seq::empty()
    } else {
        let last: u8 = if at + 3 < bytes.len() {
            bytes[at + 3]
        } else {
            0u8
        };
        let first = WordModel {
            opcode: bytes[at],
            register: bytes[at + 1],
            data: operand_of(bytes[at + 2], last),
            source: seq![bytes[at], bytes[at + 1], bytes[at + 2], last],
        };
        if at + 4 > bytes.len() {
            seq![first]
        } else {
            seq![first] + words_from(bytes, at + 4)
        }
    }
}

/// The instructions as values.
pub open spec fn word_models(instructions: Seq<Instruction>) -> Seq<WordModel> {
    Seq::new(
        instructions.len(),
        |i: int|
            WordModel {
                opcode: instructions[i].opcode,
                register: instructions[i].register,
                data: instructions[i].data,
                source: instructions[i].source@,
            },
    )
}

/// One line of a disassembly, in its parts.
#[derive(Clone, Debug)]
pub struct Line {
    /// The address of the instruction in hexadecimal, or its offset in
    /// decimal.
    pub address: String,
    /// The number of blanks between the address and the bytes.
    pub source_padding: usize,
    /// The bytes of the instruction in hexadecimal.
    pub source_hex: String,
    /// The mnemonic.
    pub name: String,
    /// The number of blanks behind the mnemonic.
    pub name_padding: usize,
    /// The register before the operand, where the instruction names one.
    pub register: Option<String>,
    /// What the operand is.
    pub value: InstructionValues,
    /// The operand: a number or an address in four hexadecimal digits, the
    /// name of a register, or nothing.
    pub operand: String,
}

/// One line of a disassembly as a value.
pub struct LineModel {
    pub address: Seq<char>,
    pub source_padding: int,
    pub source_hex: Seq<char>,
    pub name: Seq<char>,
    pub name_padding: int,
    pub register: Option<Seq<char>>,
    pub value: InstructionValues,
    pub operand: Seq<char>,
}

impl View for Line {
    type V = LineModel;

    open spec fn view(&self) -> LineModel {
        LineModel {
            address: self.address@,
            source_padding: self.source_padding as int,
            source_hex: self.source_hex@,
            name: self.name@,
            name_padding: self.name_padding as int,
            register: match self.register {
                Some(name) => Some(name@),
                None => None,
            },
            value: self.value,
            operand: self.operand@,
        }
    }
}

/// The line of the instruction `word` at the offset `counter`. With
/// addresses, the line begins with the address at which the instruction is
/// loaded, in hexadecimal; without, with the offset in decimal. The bytes
/// follow in a column that ends sixteen characters behind the beginning of
/// the line, counted as if the offset were one more. The mnemonic is filled
/// up to five characters unless nothing follows it.
pub open spec fn line_of(word: WordModel, counter: int, use_addr: bool) -> Result<
    LineModel,
    DisassembleError,
> {
    match info_of(word.opcode) {
        None => Err(DisassembleError::UnknownOpcode(word.opcode)),
        Some(info) => if counter + 0xDAC1 > 0xFFFF {
            Err(DisassembleError::TooLong)
        } else if (info.uses_reg1 && word.register > 8) || (info.value == InstructionValues::Reg
            && word.data as int % 256 > 8) {
            Err(DisassembleError::InvalidRegister)
        } else {
            Ok(
                LineModel {
                    address: if use_addr {
                        hex_text(0xDAC1 + counter, 4)
                    } else {
                        decimal_text(counter)
                    },
                    source_padding: 16 - hex_of(word.source).len() - if use_addr {
                        1
                    } else {
                        decimal_text(counter + 1).len() as int
                    },
                    source_hex: hex_of(word.source),
                    name: info.name,
                    name_padding: if !info.uses_reg1 && info.value == InstructionValues::Null {
                        0
                    } else {
                        5 - info.name.len()
                    },
                    register: if info.uses_reg1 {
                        Some(register_name(word.register))
                    } else {
                        None
                    },
                    value: info.value,
                    operand: match info.value {
                        InstructionValues::Null => Seq::empty(),
                        InstructionValues::Val => hex_text(word.data as int, 4),
                        InstructionValues::Addr => hex_text(word.data as int, 4),
                        InstructionValues::Reg => register_name((word.data as int % 256) as u8),
                    },
                },
            )
        },
    }
}

/// The lines of the instructions from position `from` on, behind `found`.
pub open spec fn lines_from(
    words: Seq<WordModel>,
    from: int,
    use_addr: bool,
    found: Seq<LineModel>,
) -> Result<Seq<LineModel>, DisassembleError>
    decreases words.len() - from,
{
    if from < 0 || from >= words.len() {
        Ok(found)
    } else {
        match line_of(words[from], from * 4, use_addr) {
            Err(error) => Err(error),
            Ok(line) => lines_from(words, from + 1, use_addr, found.push(line)),
        }
    }
}

/// The lines as values.
pub open spec fn line_models(lines: Seq<Line>) -> Seq<LineModel> {
    Seq::new(lines.len(), |i: int| lines[i]@)
}

/// The disassembler.
pub struct Disassembler {
    /// The path of the image.
    pub file_in: String,
    /// Whether lines begin with addresses or with offsets.
    pub use_addr: bool,
}

/// How the instruction with the opcode `opcode` is written.
pub fn instruction_info(opcode: u8) -> (info: Option<InstructionInfo>)
    ensures
        match info {
            Some(info) => info_of(opcode) == Some(info@),
            None => info_of(opcode) is None,
        },
{
    let info = match opcode {
            0x00 => Some(InstructionInfo::new(from_chars(&vec!['M', 'O', 'V']), InstructionValues::Val, true)),
            0x01 => Some(InstructionInfo::new(from_chars(&vec!['L', 'D']), InstructionValues::Reg, true)),
            0x02 => Some(InstructionInfo::new(from_chars(&vec!['L', 'D']), InstructionValues::Addr, true)),
            0x03 => Some(InstructionInfo::new(from_chars(&vec!['P', 'S', 'H']), InstructionValues::Val, false)),
            0x04 => Some(InstructionInfo::new(from_chars(&vec!['P', 'S', 'H']), InstructionValues::Null, true)),
            0x05 => Some(InstructionInfo::new(from_chars(&vec!['P', 'S', 'H']), InstructionValues::Addr, false)),
            0x06 => Some(InstructionInfo::new(from_chars(&vec!['P', 'O', 'P']), InstructionValues::Null, true)),
            0x07 => Some(InstructionInfo::new(from_chars(&vec!['P', 'O', 'P']), InstructionValues::Null, false)),
            0x08 => Some(InstructionInfo::new(from_chars(&vec!['L', 'D', 'S']), InstructionValues::Addr, true)),
            0x09 => Some(InstructionInfo::new(from_chars(&vec!['M', 'O', 'V']), InstructionValues::Reg, true)),
            0x0a => Some(InstructionInfo::new(from_chars(&vec!['M', 'O', 'V']), InstructionValues::Addr, true)),
            0x10 => Some(InstructionInfo::new(from_chars(&vec!['S', 'T']), InstructionValues::Addr, true)),
            0x11 => Some(InstructionInfo::new(from_chars(&vec!['S', 'T', 'L']), InstructionValues::Addr, true)),
            0x12 => Some(InstructionInfo::new(from_chars(&vec!['S', 'T', 'H']), InstructionValues::Addr, true)),
            0x20 => Some(InstructionInfo::new(from_chars(&vec!['C', 'M', 'P']), InstructionValues::Reg, true)),
            0x21 => Some(InstructionInfo::new(from_chars(&vec!['C', 'M', 'P']), InstructionValues::Val, true)),
            0x30 => Some(InstructionInfo::new(from_chars(&vec!['B', 'E', 'Q']), InstructionValues::Addr, false)),
            0x31 => Some(InstructionInfo::new(from_chars(&vec!['B', 'G', 'T']), InstructionValues::Addr, false)),
            0x32 => Some(InstructionInfo::new(from_chars(&vec!['B', 'L', 'T']), InstructionValues::Addr, false)),
            0x33 => Some(InstructionInfo::new(from_chars(&vec!['J', 'M', 'P']), InstructionValues::Addr, false)),
            0x34 => Some(InstructionInfo::new(from_chars(&vec!['B', 'O', 'F']), InstructionValues::Addr, false)),
            0x35 => Some(InstructionInfo::new(from_chars(&vec!['B', 'N', 'E']), InstructionValues::Addr, false)),
            0x40 => Some(InstructionInfo::new(from_chars(&vec!['A', 'D', 'D']), InstructionValues::Val, true)),
            0x41 => Some(InstructionInfo::new(from_chars(&vec!['S', 'U', 'B']), InstructionValues::Val, true)),
            0x42 => Some(InstructionInfo::new(from_chars(&vec!['A', 'D', 'D']), InstructionValues::Reg, true)),
            0x43 => Some(InstructionInfo::new(from_chars(&vec!['S', 'U', 'B']), InstructionValues::Reg, true)),
            0x50 => Some(InstructionInfo::new(from_chars(&vec!['C', 'A', 'L', 'L']), InstructionValues::Addr, false)),
            0x51 => Some(InstructionInfo::new(from_chars(&vec!['R', 'E', 'T']), InstructionValues::Null, false)),
            0xfe => Some(InstructionInfo::new(from_chars(&vec!['H', 'L', 'T']), InstructionValues::Null, false)),
            0xff => Some(InstructionInfo::new(from_chars(&vec!['N', 'O', 'P']), InstructionValues::Null, false)),
        _ => None,
    };
    info
}

impl Disassembler {
    /// A disassembler for the image at the path `file_in`.
    pub fn new(file_in: &String, use_addr: bool) -> (disassembler: Disassembler)
        ensures
            disassembler.file_in@ == file_in@,
            disassembler.use_addr == use_addr,
    {
        Disassembler { file_in: file_in.clone(), use_addr }
    }

    /// The instructions of an image: the two bytes of the start address are
    /// passed over, and every four bytes after them are one instruction.
    pub fn get_instructions(bytes: &Vec<u8>) -> (instructions: Result<
        Vec<Instruction>,
        DisassembleError,
    >)
        ensures
            match instructions {
                Ok(instructions) => bytes@.len() >= 2 && word_models(instructions@) == words_from(
                    bytes@,
                    2,
                ),
                Err(error) => bytes@.len() < 2 && error == DisassembleError::NoHeader,
            },
    {
        if bytes.len() < 2 {
            return Err(DisassembleError::NoHeader);
        }
        let mut res: Vec<Instruction> = Vec::new();
        let mut at: usize = 2;
        while bytes.len() - at >= 3
            invariant
                2 <= at <= bytes.len() + 1,
                at <= bytes.len(),
                words_from(bytes@, 2) =~= word_models(res@) + words_from(bytes@, at as int),
            decreases bytes.len() - at,
        {
            let last: u8 = if bytes.len() - at > 3 {
                bytes[at + 3]
            } else {
                0
            };
            let mut source: Vec<u8> = Vec::new();
            source.push(bytes[at]);
            source.push(bytes[at + 1]);
            source.push(bytes[at + 2]);
            source.push(last);
            assert(source@ =~= seq![bytes@[at as int], bytes@[at + 1], bytes@[at + 2], last]);
            let ghost before = word_models(res@);
            let instruction = Instruction::new_source(
                bytes[at],
                bytes[at + 1],
                bytes[at + 2],
                last,
                source,
            );
            let ghost added = WordModel {
                opcode: instruction.opcode,
                register: instruction.register,
                data: instruction.data,
                source: instruction.source@,
            };
            res.push(instruction);
            assert(word_models(res@) =~= before.push(added));
            if bytes.len() - at < 4 {
                return Ok(res);
            }
            at += 4;
        }
        Ok(res)
    }

    /// The bytes in two hexadecimal digits each.
    pub fn source_to_hex_str(source: &[u8]) -> (text: String)
        ensures
            text@ == hex_of(source@),
    {
        let mut res = String::new();
        let mut i: usize = 0;
        while i < source.len()
            invariant
                i <= source.len(),
                res@ == hex_of(source@.take(i as int)),
            decreases source.len() - i,
        {
            let digits = source[i].to_hex_string();
            proof {
                let next = source@.take(i + 1);
                assert(next.drop_last() == source@.take(i as int));
                assert(next.last() == source@[i as int]);
            }
            res.append(digits.as_str());
            i += 1;
        }
        assert(source@.take(source.len() as int) == source@);
        res
    }

    /// The name of the register with the number `reg`.
    pub fn reg_to_string(reg: u8) -> (name: Result<String, DisassembleError>)
        ensures
            match name {
                Ok(name) => reg <= 8 && name@ == register_name(reg),
                Err(error) => reg > 8 && error == DisassembleError::InvalidRegister,
            },
    {
        let mut name: Vec<char> = Vec::new();
        name.push('R');
        if reg <= 5 {
            name.push((reg + 49) as char);
            assert(name@ =~= register_name(reg));
        } else if reg == 6 {
            name.push('P');
            name.push('C');
            assert(name@ =~= register_name(reg));
        } else if reg == 7 {
            name.push('S');
            name.push('P');
            assert(name@ =~= register_name(reg));
        } else if reg == 8 {
            name.push('B');
            name.push('P');
            assert(name@ =~= register_name(reg));
        } else {
            return Err(DisassembleError::InvalidRegister);
        }
        Ok(from_chars(&name))
    }

    /// The line of one instruction.
    pub fn line(&self, instruction: &Instruction, counter: u16) -> (line: Result<
        Line,
        DisassembleError,
    >)
        requires
            instruction.source@.len() <= 4,
        ensures
            match line_of(
                WordModel {
                    opcode: instruction.opcode,
                    register: instruction.register,
                    data: instruction.data,
                    source: instruction.source@,
                },
                counter as int,
                self.use_addr,
            ) {
                Ok(expected) => line is Ok && line.unwrap()@ == expected,
                Err(error) => line matches Err(found) && found == error,
            },
    {
        let instruction_info = match instruction_info(instruction.opcode) {
            Some(info) => info,
            None => {
                return Err(DisassembleError::UnknownOpcode(instruction.opcode));
            },
        };
        if counter > 0xFFFF - 0xDAC1 {
            return Err(DisassembleError::TooLong);
        }
        let operand_register = (instruction.data % 256) as u8;
        if (instruction_info.uses_reg1 && instruction.register > 8) || (instruction_info.value
            == InstructionValues::Reg && operand_register > 8) {
            return Err(DisassembleError::InvalidRegister);
        }
        let disp_addr = if self.use_addr {
            (0xDAC1 + counter).to_hex_string()
        } else {
            to_decimal(counter)
        };
        let width: usize = if self.use_addr {
            1
        } else {
            let digits = to_decimal(counter + 1).as_str().unicode_len();
            proof {
                lemma_decimal_length((counter + 1) as int);
            }
            digits
        };
        let source_hex = Disassembler::source_to_hex_str(instruction.source.as_slice());
        proof {
            lemma_hex_length(instruction.source@);
        }
        let hex_length = source_hex.as_str().unicode_len();
        let name_length = instruction_info.name.as_str().unicode_len();
        let name_padding: usize = if !instruction_info.uses_reg1 && instruction_info.value
            == InstructionValues::Null {
            0
        } else {
            5 - name_length
        };
        let register = if instruction_info.uses_reg1 {
            Some(Disassembler::reg_to_string(instruction.register)?)
        } else {
            None
        };
        let operand = match instruction_info.value {
            InstructionValues::Null => String::new(),
            InstructionValues::Val => instruction.data.to_hex_string(),
            InstructionValues::Addr => instruction.data.to_hex_string(),
            InstructionValues::Reg => Disassembler::reg_to_string(operand_register)?,
        };
        Ok(
            Line {
                address: disp_addr,
                source_padding: 16 - hex_length - width,
                source_hex,
                name: instruction_info.name,
                name_padding,
                register,
                value: instruction_info.value,
                operand,
            },
        )
    }

    /// The lines of an image, one for each instruction.
    pub fn disassemble(&self, bytes: &Vec<u8>) -> (lines: Result<Vec<Line>, DisassembleError>)
        ensures
            match lines {
                Ok(lines) => bytes@.len() >= 2 && lines_from(
                    words_from(bytes@, 2),
                    0,
                    self.use_addr,
                    Seq::empty(),
                ) == Ok::<Seq<LineModel>, DisassembleError>(line_models(lines@)),
                Err(error) => if bytes@.len() < 2 {
                    error == DisassembleError::NoHeader
                } else {
                    lines_from(words_from(bytes@, 2), 0, self.use_addr, Seq::empty()) == Err::<
                        Seq<LineModel>,
                        DisassembleError,
                    >(error)
                },
            },
    {
        let instructions = Disassembler::get_instructions(bytes)?;
        let ghost words = word_models(instructions@);
        let mut lines: Vec<Line> = Vec::new();
        assert(line_models(lines@) =~= Seq::<LineModel>::empty());
        let mut i: usize = 0;
        while i < instructions.len()
            invariant
                i <= instructions.len(),
                bytes@.len() >= 2,
                words == word_models(instructions@),
                words == words_from(bytes@, 2),
                lines_from(words, 0, self.use_addr, Seq::empty()) == lines_from(
                    words,
                    i as int,
                    self.use_addr,
                    line_models(lines@),
                ),
            decreases instructions.len() - i,
        {
            if i > 0x3FFF {
                proof {
                    assert(line_of(words[i as int], i * 4, self.use_addr) is Err);
                    assert(info_of(words[i as int].opcode) is Some ==> line_of(
                        words[i as int],
                        i * 4,
                        self.use_addr,
                    ) == Err::<LineModel, DisassembleError>(DisassembleError::TooLong));
                }
                return match instruction_info(instructions[i].opcode) {
                    Some(_) => Err(DisassembleError::TooLong),
                    None => Err(DisassembleError::UnknownOpcode(instructions[i].opcode)),
                };
            }
            proof {
                lemma_sources_are_short(bytes@, 2, i as int);
            }
            let line = self.line(&instructions[i], (i * 4) as u16)?;
            let ghost before = line_models(lines@);
            let ghost added = line@;
            lines.push(line);
            assert(line_models(lines@) =~= before.push(added));
            i += 1;
        }
        Ok(lines)
    }
}

/// Every instruction of an image was read from four bytes.
pub proof fn lemma_sources_are_short(bytes: Seq<u8>, at: int, i: int)
    requires
        0 <= at,
        0 <= i < words_from(bytes, at).len(),
    ensures
        words_from(bytes, at)[i].source.len() == 4,
    decreases i,
{
    if i > 0 {
        assert(at + 4 <= bytes.len());
        lemma_sources_are_short(bytes, at + 4, i - 1);
    }
}

/// Bytes in hexadecimal take two characters each.
pub proof fn lemma_hex_length(source: Seq<u8>)
    ensures
        hex_of(source).len() == 2 * source.len(),
    decreases source.len(),
{
    if source.len() > 0 {
        lemma_hex_length(source.drop_last());
        reveal_with_fuel(hex_text, 3);
    }
}

/// A number up to 65535 has at most five decimal digits.
pub proof fn lemma_decimal_length(value: int)
    requires
        0 <= value <= 0xFFFF,
    ensures
        1 <= decimal_text(value).len() <= 5,
{
    reveal_with_fuel(decimal_text, 6);
}

} // verus!
