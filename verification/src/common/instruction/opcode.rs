//! The opcode table: which mnemonic takes which addressing modes, and the byte
//! that stands for each legal pair.

use std::collections::HashMap;
use vstd::prelude::*;

verus! {

/// A mnemonic of the instruction set. Its code fits in six bits.
#[allow(clippy::upper_case_acronyms)]
#[derive(Debug, Clone, Copy, PartialEq, Eq, Structural)]
pub enum Opcode {
    MOV,
    LD,
    LDB,
    PSH,
    POP,
    ST,
    STL,
    STH,
    CMP,
    BEQ,
    BGT,
    BLT,
    BOF,
    BNE,
    JMP,
    JSR,
    ADD,
    SUB,
    RET,
    INT,
    REI,
    AND,
    OR,
    XOR,
    LSH,
    RSH,
    MUL,
    MOD,
    BGE,
    BLE,
    HLT,
    NOP,
}

/// How the second operand of an instruction (or its only one) is to be read.
#[derive(Debug, Clone, Copy, PartialEq, Eq, Structural)]
pub enum AddressingMode {
    Immediate,
    Register,
    Direct,
    Discard,
}

impl Opcode {
    /// The six-bit code of the mnemonic.
    pub open spec fn code(self) -> u8 {
        match self {
            Opcode::MOV => 0b000000,
            Opcode::LD => 0b000001,
            Opcode::LDB => 0b000010,
            Opcode::PSH => 0b000011,
            Opcode::POP => 0b000100,
            Opcode::ST => 0b000101,
            Opcode::STL => 0b000110,
            Opcode::STH => 0b000111,
            Opcode::CMP => 0b001000,
            Opcode::BEQ => 0b001001,
            Opcode::BGT => 0b001010,
            Opcode::BLT => 0b001011,
            Opcode::BOF => 0b001100,
            Opcode::BNE => 0b001101,
            Opcode::JMP => 0b001110,
            Opcode::JSR => 0b001111,
            Opcode::ADD => 0b010000,
            Opcode::SUB => 0b010001,
            Opcode::RET => 0b010010,
            Opcode::INT => 0b010011,
            Opcode::REI => 0b010100,
            Opcode::AND => 0b010101,
            Opcode::OR => 0b010110,
            Opcode::XOR => 0b010111,
            Opcode::LSH => 0b011000,
            Opcode::RSH => 0b011001,
            Opcode::MUL => 0b011010,
            Opcode::MOD => 0b011011,
            Opcode::BGE => 0b011100,
            Opcode::BLE => 0b011101,
            Opcode::HLT => 0b111110,
            Opcode::NOP => 0b111111,
        }
    }

    /// The mnemonic whose code is `code`, if there is one.
    pub open spec fn with_code(code: u8) -> Option<Opcode> {
        if code == 0b000000 {
            Some(Opcode::MOV)
        } else if code == 0b000001 {
            Some(Opcode::LD)
        } else if code == 0b000010 {
            Some(Opcode::LDB)
        } else if code == 0b000011 {
            Some(Opcode::PSH)
        } else if code == 0b000100 {
            Some(Opcode::POP)
        } else if code == 0b000101 {
            Some(Opcode::ST)
        } else if code == 0b000110 {
            Some(Opcode::STL)
        } else if code == 0b000111 {
            Some(Opcode::STH)
        } else if code == 0b001000 {
            Some(Opcode::CMP)
        } else if code == 0b001001 {
            Some(Opcode::BEQ)
        } else if code == 0b001010 {
            Some(Opcode::BGT)
        } else if code == 0b001011 {
            Some(Opcode::BLT)
        } else if code == 0b001100 {
            Some(Opcode::BOF)
        } else if code == 0b001101 {
            Some(Opcode::BNE)
        } else if code == 0b001110 {
            Some(Opcode::JMP)
        } else if code == 0b001111 {
            Some(Opcode::JSR)
        } else if code == 0b010000 {
            Some(Opcode::ADD)
        } else if code == 0b010001 {
            Some(Opcode::SUB)
        } else if code == 0b010010 {
            Some(Opcode::RET)
        } else if code == 0b010011 {
            Some(Opcode::INT)
        } else if code == 0b010100 {
            Some(Opcode::REI)
        } else if code == 0b010101 {
            Some(Opcode::AND)
        } else if code == 0b010110 {
            Some(Opcode::OR)
        } else if code == 0b010111 {
            Some(Opcode::XOR)
        } else if code == 0b011000 {
            Some(Opcode::LSH)
        } else if code == 0b011001 {
            Some(Opcode::RSH)
        } else if code == 0b011010 {
            Some(Opcode::MUL)
        } else if code == 0b011011 {
            Some(Opcode::MOD)
        } else if code == 0b011100 {
            Some(Opcode::BGE)
        } else if code == 0b011101 {
            Some(Opcode::BLE)
        } else if code == 0b111110 {
            Some(Opcode::HLT)
        } else if code == 0b111111 {
            Some(Opcode::NOP)
        } else {
            None
        }
    }

    /// The six-bit code of the mnemonic.
    pub fn bits(self) -> (code: u8)
        ensures
            code == self.code(),
            code < 64,
    {
        match self {
            Opcode::MOV => 0b000000,
            Opcode::LD => 0b000001,
            Opcode::LDB => 0b000010,
            Opcode::PSH => 0b000011,
            Opcode::POP => 0b000100,
            Opcode::ST => 0b000101,
            Opcode::STL => 0b000110,
            Opcode::STH => 0b000111,
            Opcode::CMP => 0b001000,
            Opcode::BEQ => 0b001001,
            Opcode::BGT => 0b001010,
            Opcode::BLT => 0b001011,
            Opcode::BOF => 0b001100,
            Opcode::BNE => 0b001101,
            Opcode::JMP => 0b001110,
            Opcode::JSR => 0b001111,
            Opcode::ADD => 0b010000,
            Opcode::SUB => 0b010001,
            Opcode::RET => 0b010010,
            Opcode::INT => 0b010011,
            Opcode::REI => 0b010100,
            Opcode::AND => 0b010101,
            Opcode::OR => 0b010110,
            Opcode::XOR => 0b010111,
            Opcode::LSH => 0b011000,
            Opcode::RSH => 0b011001,
            Opcode::MUL => 0b011010,
            Opcode::MOD => 0b011011,
            Opcode::BGE => 0b011100,
            Opcode::BLE => 0b011101,
            Opcode::HLT => 0b111110,
            Opcode::NOP => 0b111111,
        }
    }

    /// The mnemonic whose code is `code`; `None` where no mnemonic has it.
    pub fn from_bits(code: u8) -> (found: Option<Opcode>)
        ensures
            found == Opcode::with_code(code),
            found matches Some(opcode) ==> opcode.code() == code,
    {
        match code {
            0b000000 => Some(Opcode::MOV),
            0b000001 => Some(Opcode::LD),
            0b000010 => Some(Opcode::LDB),
            0b000011 => Some(Opcode::PSH),
            0b000100 => Some(Opcode::POP),
            0b000101 => Some(Opcode::ST),
            0b000110 => Some(Opcode::STL),
            0b000111 => Some(Opcode::STH),
            0b001000 => Some(Opcode::CMP),
            0b001001 => Some(Opcode::BEQ),
            0b001010 => Some(Opcode::BGT),
            0b001011 => Some(Opcode::BLT),
            0b001100 => Some(Opcode::BOF),
            0b001101 => Some(Opcode::BNE),
            0b001110 => Some(Opcode::JMP),
            0b001111 => Some(Opcode::JSR),
            0b010000 => Some(Opcode::ADD),
            0b010001 => Some(Opcode::SUB),
            0b010010 => Some(Opcode::RET),
            0b010011 => Some(Opcode::INT),
            0b010100 => Some(Opcode::REI),
            0b010101 => Some(Opcode::AND),
            0b010110 => Some(Opcode::OR),
            0b010111 => Some(Opcode::XOR),
            0b011000 => Some(Opcode::LSH),
            0b011001 => Some(Opcode::RSH),
            0b011010 => Some(Opcode::MUL),
            0b011011 => Some(Opcode::MOD),
            0b011100 => Some(Opcode::BGE),
            0b011101 => Some(Opcode::BLE),
            0b111110 => Some(Opcode::HLT),
            0b111111 => Some(Opcode::NOP),
            _ => None,
        }
    }


    /// The mnemonic in small letters.
    pub open spec fn mnemonic(self) -> Seq<char> {
        match self {
            Opcode::MOV => seq!['m', 'o', 'v'],
            Opcode::LD => seq!['l', 'd'],
            Opcode::LDB => seq!['l', 'd', 'b'],
            Opcode::PSH => seq!['p', 's', 'h'],
            Opcode::POP => seq!['p', 'o', 'p'],
            Opcode::ST => seq!['s', 't'],
            Opcode::STL => seq!['s', 't', 'l'],
            Opcode::STH => seq!['s', 't', 'h'],
            Opcode::CMP => seq!['c', 'm', 'p'],
            Opcode::BEQ => seq!['b', 'e', 'q'],
            Opcode::BGT => seq!['b', 'g', 't'],
            Opcode::BLT => seq!['b', 'l', 't'],
            Opcode::BOF => seq!['b', 'o', 'f'],
            Opcode::BNE => seq!['b', 'n', 'e'],
            Opcode::JMP => seq!['j', 'm', 'p'],
            Opcode::JSR => seq!['j', 's', 'r'],
            Opcode::ADD => seq!['a', 'd', 'd'],
            Opcode::SUB => seq!['s', 'u', 'b'],
            Opcode::RET => seq!['r', 'e', 't'],
            Opcode::INT => seq!['i', 'n', 't'],
            Opcode::REI => seq!['r', 'e', 'i'],
            Opcode::AND => seq!['a', 'n', 'd'],
            Opcode::OR => seq!['o', 'r'],
            Opcode::XOR => seq!['x', 'o', 'r'],
            Opcode::LSH => seq!['l', 's', 'h'],
            Opcode::RSH => seq!['r', 's', 'h'],
            Opcode::MUL => seq!['m', 'u', 'l'],
            Opcode::MOD => seq!['m', 'o', 'd'],
            Opcode::BGE => seq!['b', 'g', 'e'],
            Opcode::BLE => seq!['b', 'l', 'e'],
            Opcode::HLT => seq!['h', 'l', 't'],
            Opcode::NOP => seq!['n', 'o', 'p'],
        }
    }

    /// The mnemonic with the smallest code, from `code` on, that is spelled
    /// `name`.
    pub open spec fn named_from(name: Seq<char>, code: int) -> Option<Opcode>
        decreases 64 - code,
    {
        if code < 0 || code >= 64 {
            None
        } else {
            match Opcode::with_code(code as u8) {
                Some(opcode) => if opcode.mnemonic() == name {
                    Some(opcode)
                } else {
                    Opcode::named_from(name, code + 1)
                },
                None => Opcode::named_from(name, code + 1),
            }
        }
    }

    /// The mnemonic that is spelled `name`, in small letters.
    pub open spec fn named(name: Seq<char>) -> Option<Opcode> {
        Opcode::named_from(name, 0)
    }

    /// The mnemonic in small letters.
    pub fn name(self) -> (name: Vec<char>)
        ensures
            name@ == self.mnemonic(),
    {
        let name = match self {
            Opcode::MOV => vec!['m', 'o', 'v'],
            Opcode::LD => vec!['l', 'd'],
            Opcode::LDB => vec!['l', 'd', 'b'],
            Opcode::PSH => vec!['p', 's', 'h'],
            Opcode::POP => vec!['p', 'o', 'p'],
            Opcode::ST => vec!['s', 't'],
            Opcode::STL => vec!['s', 't', 'l'],
            Opcode::STH => vec!['s', 't', 'h'],
            Opcode::CMP => vec!['c', 'm', 'p'],
            Opcode::BEQ => vec!['b', 'e', 'q'],
            Opcode::BGT => vec!['b', 'g', 't'],
            Opcode::BLT => vec!['b', 'l', 't'],
            Opcode::BOF => vec!['b', 'o', 'f'],
            Opcode::BNE => vec!['b', 'n', 'e'],
            Opcode::JMP => vec!['j', 'm', 'p'],
            Opcode::JSR => vec!['j', 's', 'r'],
            Opcode::ADD => vec!['a', 'd', 'd'],
            Opcode::SUB => vec!['s', 'u', 'b'],
            Opcode::RET => vec!['r', 'e', 't'],
            Opcode::INT => vec!['i', 'n', 't'],
            Opcode::REI => vec!['r', 'e', 'i'],
            Opcode::AND => vec!['a', 'n', 'd'],
            Opcode::OR => vec!['o', 'r'],
            Opcode::XOR => vec!['x', 'o', 'r'],
            Opcode::LSH => vec!['l', 's', 'h'],
            Opcode::RSH => vec!['r', 's', 'h'],
            Opcode::MUL => vec!['m', 'u', 'l'],
            Opcode::MOD => vec!['m', 'o', 'd'],
            Opcode::BGE => vec!['b', 'g', 'e'],
            Opcode::BLE => vec!['b', 'l', 'e'],
            Opcode::HLT => vec!['h', 'l', 't'],
            Opcode::NOP => vec!['n', 'o', 'p'],
        };
        assert(name@ =~= self.mnemonic());
        name
    }

    /// The mnemonic that is spelled `name`, in small letters; `None` where no
    /// mnemonic is spelled so.
    pub fn from_name(name: &Vec<char>) -> (found: Option<Opcode>)
        ensures
            found == Opcode::named(name@),
            found matches Some(opcode) ==> opcode.mnemonic() == name@,
    {
        let mut code: u8 = 0;
        while code < 64
            invariant
                code <= 64,
                Opcode::named(name@) == Opcode::named_from(name@, code as int),
            decreases 64 - code,
        {
            match Opcode::from_bits(code) {
                Some(opcode) => {
                    let spelled = opcode.name();
                    if same_chars(&spelled, name) {
                        return Some(opcode);
                    }
                },
                None => {},
            }
            code += 1;
        }
        None
    }
}

/// Whether two runs of characters are the same.
pub fn same_chars(a: &Vec<char>, b: &Vec<char>) -> (same: bool)
    ensures
        same == (a@ == b@),
{
    if a.len() != b.len() {
        return false;
    }
    let mut i: usize = 0;
    while i < a.len()
        invariant
            i <= a.len(),
            a.len() == b.len(),
            forall|j: int| 0 <= j < i ==> a@[j] == b@[j],
        decreases a.len() - i,
    {
        if a[i] != b[i] {
            return false;
        }
        i += 1;
    }
    assert(a@ =~= b@);
    true
}

impl AddressingMode {
    /// The two-bit code of the mode.
    pub open spec fn code(self) -> u8 {
        match self {
            AddressingMode::Immediate => 0b00,
            AddressingMode::Register => 0b01,
            AddressingMode::Direct => 0b10,
            AddressingMode::Discard => 0b11,
        }
    }

    /// The mode whose code is `code`, if there is one.
    pub open spec fn with_code(code: u8) -> Option<AddressingMode> {
        if code == 0b00 {
            Some(AddressingMode::Immediate)
        } else if code == 0b01 {
            Some(AddressingMode::Register)
        } else if code == 0b10 {
            Some(AddressingMode::Direct)
        } else if code == 0b11 {
            Some(AddressingMode::Discard)
        } else {
            None
        }
    }

    /// The two-bit code of the mode.
    pub fn bits(self) -> (code: u8)
        ensures
            code == self.code(),
            code < 4,
    {
        match self {
            AddressingMode::Immediate => 0b00,
            AddressingMode::Register => 0b01,
            AddressingMode::Direct => 0b10,
            AddressingMode::Discard => 0b11,
        }
    }

    /// The mode whose code is `code`; `None` where `code` is above three.
    pub fn from_bits(code: u8) -> (found: Option<AddressingMode>)
        ensures
            found == AddressingMode::with_code(code),
            found is Some <==> code < 4,
            found matches Some(mode) ==> mode.code() == code,
    {
        match code {
            0b00 => Some(AddressingMode::Immediate),
            0b01 => Some(AddressingMode::Register),
            0b10 => Some(AddressingMode::Direct),
            0b11 => Some(AddressingMode::Discard),
            _ => None,
        }
    }
}

/// The routine of the processor that carries out one form of an instruction.
#[derive(Debug, Clone, Copy, PartialEq, Eq, Structural)]
pub enum Executor {
    MovImmediate,
    MovRegister,
    LdRegister,
    LdAddress,
    LdbRegister,
    LdbAddress,
    PshImmediate,
    PshRegister,
    PshAddress,
    PopRegister,
    Pop,
    StRegister,
    StAddress,
    StlRegister,
    StlAddress,
    SthRegister,
    SthAddress,
    CmpImmediate,
    CmpRegister,
    Beq,
    Bgt,
    Blt,
    Bof,
    Bne,
    Jmp,
    Jsr,
    AddImmediate,
    AddRegister,
    SubImmediate,
    SubRegister,
    Ret,
    IntImmediate,
    Rei,
    AndImmediate,
    AndRegister,
    OrImmediate,
    OrRegister,
    XorImmediate,
    XorRegister,
    LshImmediate,
    LshRegister,
    RshImmediate,
    RshRegister,
    MulImmediate,
    MulRegister,
    ModImmediate,
    ModRegister,
    Bge,
    Ble,
    Hlt,
    Nop,
}

/// One row of the opcode table: the mnemonic, the addressing mode, the routine
/// that carries the form out, and the number of operands that its source line
/// takes.
pub type InstructionInfo = (Opcode, AddressingMode, Executor, u8);

/// The opcode table, keyed by the opcode byte.
pub type InstructionMap = HashMap<u8, InstructionInfo>;

/// A decoded opcode byte.
#[derive(Debug, Clone, Copy, PartialEq, Eq, Structural)]
pub struct Instruction {
    pub opcode: Opcode,
    pub mode: AddressingMode,
    pub executor: Executor,
}

/// Why an opcode byte could not be decoded.
#[derive(Debug, Clone, Copy, PartialEq, Eq, Structural)]
pub enum InstructionError {
    InvalidOpcode,
}

pub type InstructionResult = Result<Instruction, InstructionError>;

/// The byte that stands for `opcode` in `mode`: the mode in the two high bits,
/// the mnemonic's code in the six low ones.
pub open spec fn opcode_byte(opcode: Opcode, mode: AddressingMode) -> u8 {
    (mode.code() << 6) | opcode.code()
}

/// The routine and the operand count of `opcode` in `mode`; `None` where the
/// mnemonic does not take that mode. This is the whole of the opcode table.
pub open spec fn form(opcode: Opcode, mode: AddressingMode) -> Option<(Executor, u8)> {
    match (opcode, mode) {
            (Opcode::MOV, AddressingMode::Immediate) => Some((Executor::MovImmediate, 2u8)),
            (Opcode::MOV, AddressingMode::Register) => Some((Executor::MovRegister, 2u8)),
            (Opcode::LD, AddressingMode::Register) => Some((Executor::LdRegister, 2u8)),
            (Opcode::LD, AddressingMode::Direct) => Some((Executor::LdAddress, 2u8)),
            (Opcode::LDB, AddressingMode::Register) => Some((Executor::LdbRegister, 2u8)),
            (Opcode::LDB, AddressingMode::Direct) => Some((Executor::LdbAddress, 2u8)),
            (Opcode::PSH, AddressingMode::Immediate) => Some((Executor::PshImmediate, 1u8)),
            (Opcode::PSH, AddressingMode::Register) => Some((Executor::PshRegister, 1u8)),
            (Opcode::PSH, AddressingMode::Direct) => Some((Executor::PshAddress, 1u8)),
            (Opcode::POP, AddressingMode::Register) => Some((Executor::PopRegister, 1u8)),
            (Opcode::POP, AddressingMode::Discard) => Some((Executor::Pop, 0u8)),
            (Opcode::ST, AddressingMode::Register) => Some((Executor::StRegister, 2u8)),
            (Opcode::ST, AddressingMode::Direct) => Some((Executor::StAddress, 2u8)),
            (Opcode::STL, AddressingMode::Register) => Some((Executor::StlRegister, 2u8)),
            (Opcode::STL, AddressingMode::Direct) => Some((Executor::StlAddress, 2u8)),
            (Opcode::STH, AddressingMode::Register) => Some((Executor::SthRegister, 2u8)),
            (Opcode::STH, AddressingMode::Direct) => Some((Executor::SthAddress, 2u8)),
            (Opcode::CMP, AddressingMode::Immediate) => Some((Executor::CmpImmediate, 2u8)),
            (Opcode::CMP, AddressingMode::Register) => Some((Executor::CmpRegister, 2u8)),
            (Opcode::BEQ, AddressingMode::Direct) => Some((Executor::Beq, 1u8)),
            (Opcode::BGT, AddressingMode::Direct) => Some((Executor::Bgt, 1u8)),
            (Opcode::BLT, AddressingMode::Direct) => Some((Executor::Blt, 1u8)),
            (Opcode::BOF, AddressingMode::Direct) => Some((Executor::Bof, 1u8)),
            (Opcode::BNE, AddressingMode::Direct) => Some((Executor::Bne, 1u8)),
            (Opcode::JMP, AddressingMode::Direct) => Some((Executor::Jmp, 1u8)),
            (Opcode::JSR, AddressingMode::Direct) => Some((Executor::Jsr, 1u8)),
            (Opcode::ADD, AddressingMode::Immediate) => Some((Executor::AddImmediate, 2u8)),
            (Opcode::ADD, AddressingMode::Register) => Some((Executor::AddRegister, 2u8)),
            (Opcode::SUB, AddressingMode::Immediate) => Some((Executor::SubImmediate, 2u8)),
            (Opcode::SUB, AddressingMode::Register) => Some((Executor::SubRegister, 2u8)),
            (Opcode::RET, AddressingMode::Discard) => Some((Executor::Ret, 0u8)),
            (Opcode::INT, AddressingMode::Immediate) => Some((Executor::IntImmediate, 1u8)),
            (Opcode::REI, AddressingMode::Discard) => Some((Executor::Rei, 0u8)),
            (Opcode::AND, AddressingMode::Immediate) => Some((Executor::AndImmediate, 2u8)),
            (Opcode::AND, AddressingMode::Register) => Some((Executor::AndRegister, 2u8)),
            (Opcode::OR, AddressingMode::Immediate) => Some((Executor::OrImmediate, 2u8)),
            (Opcode::OR, AddressingMode::Register) => Some((Executor::OrRegister, 2u8)),
            (Opcode::XOR, AddressingMode::Immediate) => Some((Executor::XorImmediate, 2u8)),
            (Opcode::XOR, AddressingMode::Register) => Some((Executor::XorRegister, 2u8)),
            (Opcode::LSH, AddressingMode::Immediate) => Some((Executor::LshImmediate, 2u8)),
            (Opcode::LSH, AddressingMode::Register) => Some((Executor::LshRegister, 2u8)),
            (Opcode::RSH, AddressingMode::Immediate) => Some((Executor::RshImmediate, 2u8)),
            (Opcode::RSH, AddressingMode::Register) => Some((Executor::RshRegister, 2u8)),
            (Opcode::MUL, AddressingMode::Immediate) => Some((Executor::MulImmediate, 2u8)),
            (Opcode::MUL, AddressingMode::Register) => Some((Executor::MulRegister, 2u8)),
            (Opcode::MOD, AddressingMode::Immediate) => Some((Executor::ModImmediate, 2u8)),
            (Opcode::MOD, AddressingMode::Register) => Some((Executor::ModRegister, 2u8)),
            (Opcode::BGE, AddressingMode::Direct) => Some((Executor::Bge, 1u8)),
            (Opcode::BLE, AddressingMode::Direct) => Some((Executor::Ble, 1u8)),
            (Opcode::HLT, AddressingMode::Discard) => Some((Executor::Hlt, 0u8)),
            (Opcode::NOP, AddressingMode::Discard) => Some((Executor::Nop, 0u8)),
            _ => None,
    }
}

/// The row of the opcode table under `byte`, if the byte is a legal one.
pub open spec fn table_entry(byte: u8) -> Option<InstructionInfo> {
    match (Opcode::with_code(byte & 0x3F), AddressingMode::with_code(byte >> 6)) {
        (Some(opcode), Some(mode)) => match form(opcode, mode) {
            Some((executor, arg_count)) => Some((opcode, mode, executor, arg_count)),
            None => None,
        },
        _ => None,
    }
}

/// The four addressing modes, in the order of their codes.
pub open spec fn all_modes() -> Seq<AddressingMode> {
    seq![
        AddressingMode::Immediate,
        AddressingMode::Register,
        AddressingMode::Direct,
        AddressingMode::Discard,
    ]
}

/// The routine and the operand count of `opcode` in `mode`, as the table has
/// them.
pub fn lookup_form(opcode: Opcode, mode: AddressingMode) -> (found: Option<(Executor, u8)>)
    ensures
        found == form(opcode, mode),
{
    match (opcode, mode) {
            (Opcode::MOV, AddressingMode::Immediate) => Some((Executor::MovImmediate, 2u8)),
            (Opcode::MOV, AddressingMode::Register) => Some((Executor::MovRegister, 2u8)),
            (Opcode::LD, AddressingMode::Register) => Some((Executor::LdRegister, 2u8)),
            (Opcode::LD, AddressingMode::Direct) => Some((Executor::LdAddress, 2u8)),
            (Opcode::LDB, AddressingMode::Register) => Some((Executor::LdbRegister, 2u8)),
            (Opcode::LDB, AddressingMode::Direct) => Some((Executor::LdbAddress, 2u8)),
            (Opcode::PSH, AddressingMode::Immediate) => Some((Executor::PshImmediate, 1u8)),
            (Opcode::PSH, AddressingMode::Register) => Some((Executor::PshRegister, 1u8)),
            (Opcode::PSH, AddressingMode::Direct) => Some((Executor::PshAddress, 1u8)),
            (Opcode::POP, AddressingMode::Register) => Some((Executor::PopRegister, 1u8)),
            (Opcode::POP, AddressingMode::Discard) => Some((Executor::Pop, 0u8)),
            (Opcode::ST, AddressingMode::Register) => Some((Executor::StRegister, 2u8)),
            (Opcode::ST, AddressingMode::Direct) => Some((Executor::StAddress, 2u8)),
            (Opcode::STL, AddressingMode::Register) => Some((Executor::StlRegister, 2u8)),
            (Opcode::STL, AddressingMode::Direct) => Some((Executor::StlAddress, 2u8)),
            (Opcode::STH, AddressingMode::Register) => Some((Executor::SthRegister, 2u8)),
            (Opcode::STH, AddressingMode::Direct) => Some((Executor::SthAddress, 2u8)),
            (Opcode::CMP, AddressingMode::Immediate) => Some((Executor::CmpImmediate, 2u8)),
            (Opcode::CMP, AddressingMode::Register) => Some((Executor::CmpRegister, 2u8)),
            (Opcode::BEQ, AddressingMode::Direct) => Some((Executor::Beq, 1u8)),
            (Opcode::BGT, AddressingMode::Direct) => Some((Executor::Bgt, 1u8)),
            (Opcode::BLT, AddressingMode::Direct) => Some((Executor::Blt, 1u8)),
            (Opcode::BOF, AddressingMode::Direct) => Some((Executor::Bof, 1u8)),
            (Opcode::BNE, AddressingMode::Direct) => Some((Executor::Bne, 1u8)),
            (Opcode::JMP, AddressingMode::Direct) => Some((Executor::Jmp, 1u8)),
            (Opcode::JSR, AddressingMode::Direct) => Some((Executor::Jsr, 1u8)),
            (Opcode::ADD, AddressingMode::Immediate) => Some((Executor::AddImmediate, 2u8)),
            (Opcode::ADD, AddressingMode::Register) => Some((Executor::AddRegister, 2u8)),
            (Opcode::SUB, AddressingMode::Immediate) => Some((Executor::SubImmediate, 2u8)),
            (Opcode::SUB, AddressingMode::Register) => Some((Executor::SubRegister, 2u8)),
            (Opcode::RET, AddressingMode::Discard) => Some((Executor::Ret, 0u8)),
            (Opcode::INT, AddressingMode::Immediate) => Some((Executor::IntImmediate, 1u8)),
            (Opcode::REI, AddressingMode::Discard) => Some((Executor::Rei, 0u8)),
            (Opcode::AND, AddressingMode::Immediate) => Some((Executor::AndImmediate, 2u8)),
            (Opcode::AND, AddressingMode::Register) => Some((Executor::AndRegister, 2u8)),
            (Opcode::OR, AddressingMode::Immediate) => Some((Executor::OrImmediate, 2u8)),
            (Opcode::OR, AddressingMode::Register) => Some((Executor::OrRegister, 2u8)),
            (Opcode::XOR, AddressingMode::Immediate) => Some((Executor::XorImmediate, 2u8)),
            (Opcode::XOR, AddressingMode::Register) => Some((Executor::XorRegister, 2u8)),
            (Opcode::LSH, AddressingMode::Immediate) => Some((Executor::LshImmediate, 2u8)),
            (Opcode::LSH, AddressingMode::Register) => Some((Executor::LshRegister, 2u8)),
            (Opcode::RSH, AddressingMode::Immediate) => Some((Executor::RshImmediate, 2u8)),
            (Opcode::RSH, AddressingMode::Register) => Some((Executor::RshRegister, 2u8)),
            (Opcode::MUL, AddressingMode::Immediate) => Some((Executor::MulImmediate, 2u8)),
            (Opcode::MUL, AddressingMode::Register) => Some((Executor::MulRegister, 2u8)),
            (Opcode::MOD, AddressingMode::Immediate) => Some((Executor::ModImmediate, 2u8)),
            (Opcode::MOD, AddressingMode::Register) => Some((Executor::ModRegister, 2u8)),
            (Opcode::BGE, AddressingMode::Direct) => Some((Executor::Bge, 1u8)),
            (Opcode::BLE, AddressingMode::Direct) => Some((Executor::Ble, 1u8)),
            (Opcode::HLT, AddressingMode::Discard) => Some((Executor::Hlt, 0u8)),
            (Opcode::NOP, AddressingMode::Discard) => Some((Executor::Nop, 0u8)),
            _ => None,
    }
}

/// The row of the opcode table under `byte`.
pub fn lookup(byte: u8) -> (found: Option<InstructionInfo>)
    ensures
        found == table_entry(byte),
{
    let opcode = match Opcode::from_bits(byte & 0x3F) {
        Some(opcode) => opcode,
        None => return None,
    };
    let mode = match AddressingMode::from_bits(byte >> 6) {
        Some(mode) => mode,
        None => return None,
    };
    match lookup_form(opcode, mode) {
        Some((executor, arg_count)) => Some((opcode, mode, executor, arg_count)),
        None => None,
    }
}

impl Instruction {
    /// The opcode table as a map from opcode byte to row. It holds a row under
    /// a byte exactly where the byte is legal.
    pub fn hashmap() -> (map: InstructionMap)
        ensures
            forall|byte: u8| #[trigger] map@.contains_key(byte) <==> table_entry(byte) is Some,
            forall|byte: u8| #[trigger]
                map@.contains_key(byte) ==> Some(map@[byte]) == table_entry(byte),
    {
        broadcast use vstd::std_specs::hash::group_hash_axioms;

        let mut map: InstructionMap = HashMap::new();
        let mut next: u16 = 0;
        while next < 256
            invariant
                next <= 256,
                forall|b: u8|
                    #[trigger] map@.contains_key(b) <==> b < next && table_entry(b) is Some,
                forall|b: u8| #[trigger] map@.contains_key(b) ==> Some(map@[b]) == table_entry(b),
            decreases 256 - next,
        {
            let byte = next as u8;
            match lookup(byte) {
                Some(info) => {
                    map.insert(byte, info);
                },
                None => {},
            }
            next += 1;
        }
        map
    }

    /// The addressing modes that `opcode` takes, in the order of their codes.
    pub fn get_variants(opcode: Opcode) -> (modes: Vec<AddressingMode>)
        ensures
            modes@ == all_modes().filter(|mode: AddressingMode| form(opcode, mode) is Some),
    {
        let candidates = [
            AddressingMode::Immediate,
            AddressingMode::Register,
            AddressingMode::Direct,
            AddressingMode::Discard,
        ];
        let mut modes: Vec<AddressingMode> = Vec::new();
        let ghost legal = |mode: AddressingMode| form(opcode, mode) is Some;
        let mut i: usize = 0;
        while i < 4
            invariant
                i <= 4,
                candidates@ == all_modes(),
                legal == |mode: AddressingMode| form(opcode, mode) is Some,
                modes@ == all_modes().take(i as int).filter(legal),
            decreases 4 - i,
        {
            let mode = candidates[i];
            proof {
                let next = all_modes().take(i + 1);
                assert(next.drop_last() == all_modes().take(i as int));
                assert(next.last() == mode);
                reveal(Seq::filter);
            }
            if lookup_form(opcode, mode).is_some() {
                modes.push(mode);
            }
            i += 1;
        }
        proof {
            assert(all_modes().take(4) == all_modes());
        }
        modes
    }

    /// Decodes an opcode byte: the mnemonic, the mode and the routine of the
    /// row that the table holds under it, `InvalidOpcode` where it holds none.
    pub fn from_opcode(opcode: &u8) -> (decoded: InstructionResult)
        ensures
            decoded == match table_entry(*opcode) {
                Some(info) => Ok(Instruction { opcode: info.0, mode: info.1, executor: info.2 }),
                None => Err(InstructionError::InvalidOpcode),
            },
    {
        match lookup(*opcode) {
            Some(info) => Ok(Instruction { opcode: info.0, mode: info.1, executor: info.2 }),
            None => Err(InstructionError::InvalidOpcode),
        }
    }

    /// Packs a mnemonic and a mode into an opcode byte.
    pub fn create_opcode(opcode: Opcode, mode: AddressingMode) -> (byte: u8)
        ensures
            byte == opcode_byte(opcode, mode),
    {
        let num_code = opcode.bits();
        let mode_code = mode.bits();
        (mode_code << 6) | num_code
    }
}

/// Packing and decoding agree: the table holds, under the byte of every legal
/// pair of mnemonic and mode, the row of that pair.
pub proof fn lemma_opcode_round_trip(opcode: Opcode, mode: AddressingMode)
    requires
        form(opcode, mode) is Some,
    ensures
        table_entry(opcode_byte(opcode, mode)) == Some(
            (opcode, mode, form(opcode, mode).unwrap().0, form(opcode, mode).unwrap().1),
        ),
{
    lemma_opcode_byte_parts(opcode, mode);
}

/// The two fields of an opcode byte give back what was packed, whether or not
/// the pair is legal.
pub proof fn lemma_opcode_byte_parts(opcode: Opcode, mode: AddressingMode)
    ensures
        Opcode::with_code(opcode_byte(opcode, mode) & 0x3F) == Some(opcode),
        AddressingMode::with_code(opcode_byte(opcode, mode) >> 6) == Some(mode),
{
    let o = opcode.code();
    let m = mode.code();
    assert(o < 64 && m < 4 ==> (((m << 6) | o) & 0x3F == o && ((m << 6) | o) >> 6 == m))
        by (bit_vector);
}

/// Every byte that decodes was packed from the pair that it decodes to.
pub proof fn lemma_decoded_byte_is_packed(byte: u8)
    requires
        table_entry(byte) is Some,
    ensures
        opcode_byte(table_entry(byte).unwrap().0, table_entry(byte).unwrap().1) == byte,
        form(table_entry(byte).unwrap().0, table_entry(byte).unwrap().1) is Some,
{
    let o = byte & 0x3F;
    let m = byte >> 6;
    assert((m << 6) | o == byte) by (bit_vector)
        requires
            o == byte & 0x3F,
            m == byte >> 6,
    ;
}

} // verus!
