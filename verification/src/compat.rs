//! What assembler and processor agree on: the processor reads back from an
//! encoded instruction what the assembler wrote into it.

use crate::assembler::parser::{
    lemma_label_index_in_range, lemma_well_formed_shape, ArgModel, InstructionModel, InstructionType, ParserResultModel,
};
use crate::assembler::{
    address_bytes, code_bytes, data_bytes, directive, encoded_instruction, encoded_operand,
    entry_address, image, resolved, resolved_text, vector, vector_bytes, EncodeFailure,
};
use crate::vcpu::{code_length, data_length, is_image, word_in};
use crate::common::instruction::opcode::{
    form, lemma_opcode_round_trip, opcode_byte, table_entry, InstructionInfo,
};
use crate::vcpu::cpu::{byte_at, fetched, word_at, CpuState, Fault, Flags};
use crate::vcpu::device::map::{bus_read, bus_read_byte, DeviceMapResult};
use crate::vcpu::device::{word_of, DeviceModel};
use vstd::prelude::*;

verus! {

/// The address of the byte with the number `k` behind `at`.
pub open spec fn place(at: int, k: int) -> u32 {
    (at + k) as u32
}

/// The bus holds `bytes` from `at` on: every byte, and every word of two
/// neighbouring bytes, is read there as it stands in `bytes`.
pub open spec fn holds(bus: Seq<DeviceModel>, at: int, bytes: Seq<u8>) -> bool {
    &&& forall|k: int|
        0 <= k < bytes.len() ==> bus_read_byte(bus, #[trigger] place(at, k))
            == DeviceMapResult::Served(bytes[k])
    &&& forall|k: int|
        0 <= k < bytes.len() - 1 ==> bus_read(bus, #[trigger] place(at, k))
            == DeviceMapResult::Served(word_of(bytes[k], bytes[k + 1]))
}

/// A program memory holds what is in it: where the first device that owns
/// the addresses from `at` on is a ROM, the bus holds there the bytes that
/// the ROM has there.
pub proof fn lemma_rom_holds(bus: Seq<DeviceModel>, device: int, at: int, bytes: Seq<u8>)
    requires
        0 <= device < bus.len(),
        bus[device] is Rom,
        bus[device].start() <= at,
        at + bytes.len() <= bus[device].end() + 1,
        at + bytes.len() <= bus[device].start() + bus[device]->Rom_memory.len(),
        forall|i: int, k: int|
            0 <= i < device && 0 <= k < bytes.len() ==> !(#[trigger] bus[i]).owns(
                #[trigger] place(at, k),
            ),
        bus[device]->Rom_memory.subrange(
            at - bus[device].start(),
            at - bus[device].start() + bytes.len(),
        ) == bytes,
    ensures
        holds(bus, at, bytes),
{
    let memory = bus[device]->Rom_memory;
    let start = bus[device].start() as int;
    assert forall|k: int| 0 <= k < bytes.len() implies bus_read_byte(bus, #[trigger] place(at, k))
        == DeviceMapResult::Served(bytes[k]) by {
        assert(forall|i: int| 0 <= i < device ==> !(#[trigger] bus[i]).owns(place(at, k)));
        crate::vcpu::device::map::lemma_first_owner_reads(bus, place(at, k), device);
        assert(memory.subrange(at - start, at - start + bytes.len())[k] == memory[at - start + k]);
    }
    assert forall|k: int| 0 <= k < bytes.len() - 1 implies bus_read(bus, #[trigger] place(at, k))
        == DeviceMapResult::Served(word_of(bytes[k], bytes[k + 1])) by {
        assert(forall|i: int| 0 <= i < device ==> !(#[trigger] bus[i]).owns(place(at, k)));
        crate::vcpu::device::map::lemma_first_owner_reads(bus, place(at, k), device);
        assert(memory.subrange(at - start, at - start + bytes.len())[k] == memory[at - start + k]);
        assert(memory.subrange(at - start, at - start + bytes.len())[k + 1] == memory[at - start
            + k + 1]);
    }
}

/// The number that the bits 2 and 3 of a byte make.
pub open spec fn width_of(meta: u8) -> int {
    (meta as int / 4) % 4
}

/// The number of bytes of an instruction whose second byte is `meta`.
pub open spec fn length_of(meta: u8) -> int {
    if width_of(meta) == 0 {
        3
    } else if width_of(meta) == 1 {
        4
    } else if width_of(meta) == 2 {
        5
    } else {
        2
    }
}

/// What a fetch makes of what the bus gives at the program counter: of the
/// first two bytes `ir`, of the byte behind them `third`, and of the words
/// at the third and at the fourth byte `short` and `long`.
proof fn lemma_fetch_from_reads(cpu: CpuState, ir: u16, third: u8, short: u16, long: u16)
    requires
        word_at(cpu.bus, cpu.pc as u32) == Ok::<u16, Fault>(ir),
        (ir as int / 4) % 4 == 0 || (ir as int / 4) % 4 == 2 ==> byte_at(
            cpu.bus,
            (cpu.pc + 2) as u32,
        ) == Ok::<u8, Fault>(third),
        (ir as int / 4) % 4 == 1 ==> word_at(cpu.bus, (cpu.pc + 2) as u32) == Ok::<u16, Fault>(
            short,
        ),
        (ir as int / 4) % 4 == 2 ==> word_at(cpu.bus, (cpu.pc + 3) as u32) == Ok::<u16, Fault>(long),
    ensures
        fetched(cpu).fault is None,
        fetched(cpu).state == (CpuState {
            ir,
            size: if (ir as int / 4) % 4 == 0 {
                3u8
            } else if (ir as int / 4) % 4 == 1 {
                4u8
            } else if (ir as int / 4) % 4 == 2 {
                5u8
            } else {
                2u8
            },
            dr: if (ir as int / 4) % 4 == 0 {
                third as u16
            } else if (ir as int / 4) % 4 == 1 {
                short
            } else if (ir as int / 4) % 4 == 2 {
                long
            } else {
                cpu.dr
            },
            ad: if (ir as int / 4) % 4 == 2 {
                (third as int % 16) as u8
            } else {
                cpu.ad
            },
            flags: Flags { d: (ir as int / 4) % 4 == 2, ..cpu.flags },
            ..cpu
        }),
{
    reveal(fetched);
}

/// What a fetch finds where the bus holds `bytes` at the program counter, and
/// they are as many as their second byte announces: the first two bytes in
/// `ir`, their number in `size`, and the operand: one byte, or two, or a
/// nibble and two bytes with the flag D.
pub proof fn lemma_fetch_of_bytes(cpu: CpuState, bytes: Seq<u8>)
    requires
        bytes.len() >= 2,
        bytes.len() == length_of(bytes[1]),
        holds(cpu.bus, cpu.pc as int, bytes),
    ensures
        fetched(cpu).fault is None,
        fetched(cpu).state == (CpuState {
            ir: word_of(bytes[0], bytes[1]),
            size: bytes.len() as u8,
            dr: if width_of(bytes[1]) == 0 {
                bytes[2] as u16
            } else if width_of(bytes[1]) == 1 {
                word_of(bytes[2], bytes[3])
            } else if width_of(bytes[1]) == 2 {
                word_of(bytes[3], bytes[4])
            } else {
                cpu.dr
            },
            ad: if width_of(bytes[1]) == 2 {
                (bytes[2] as int % 16) as u8
            } else {
                cpu.ad
            },
            flags: Flags { d: width_of(bytes[1]) == 2, ..cpu.flags },
            ..cpu
        }),
{
    let ir = word_of(bytes[0], bytes[1]);
    lemma_word_fields(bytes[0], bytes[1]);
    lemma_reads_at(cpu.bus, cpu.pc, bytes);
    let third: u8 = if bytes.len() > 2 {
        bytes[2]
    } else {
        0u8
    };
    let short: u16 = if bytes.len() > 3 {
        word_of(bytes[2], bytes[3])
    } else {
        0u16
    };
    let long: u16 = if bytes.len() > 4 {
        word_of(bytes[3], bytes[4])
    } else {
        0u16
    };
    lemma_fetch_from_reads(cpu, ir, third, short, long);
}

/// The fields of the first word of an instruction: its high byte is the
/// opcode byte, and the bits of its low byte are those of the second byte.
pub proof fn lemma_word_fields(first: u8, second: u8)
    ensures
        word_of(first, second) as int / 256 == first,
        word_of(first, second) as int % 256 == second,
        (word_of(first, second) as int / 4) % 4 == width_of(second),
        (word_of(first, second) as int / 16) % 16 == second as int / 16,
{
}

/// What reading the bus gives where it holds `bytes` at `pc`.
proof fn lemma_reads_at(bus: Seq<DeviceModel>, pc: u16, bytes: Seq<u8>)
    requires
        bytes.len() >= 2,
        holds(bus, pc as int, bytes),
    ensures
        word_at(bus, pc as u32) == Ok::<u16, Fault>(word_of(bytes[0], bytes[1])),
        bytes.len() > 2 ==> byte_at(bus, (pc + 2) as u32) == Ok::<u8, Fault>(bytes[2]),
        bytes.len() > 3 ==> word_at(bus, (pc + 2) as u32) == Ok::<u16, Fault>(
            word_of(bytes[2], bytes[3]),
        ),
        bytes.len() > 4 ==> word_at(bus, (pc + 3) as u32) == Ok::<u16, Fault>(
            word_of(bytes[3], bytes[4]),
        ),
{
    let at = pc as int;
    assert(place(at, 0) == pc as u32);
    assert(place(at, 2) == (pc + 2) as u32);
    assert(place(at, 3) == (pc + 3) as u32);
    assert(bus_read(bus, place(at, 0)) == DeviceMapResult::Served(word_of(bytes[0], bytes[1])));
    if bytes.len() > 2 {
        assert(bus_read_byte(bus, place(at, 2)) == DeviceMapResult::Served(bytes[2]));
    }
    if bytes.len() > 3 {
        assert(bus_read(bus, place(at, 2)) == DeviceMapResult::Served(word_of(bytes[2], bytes[3])));
    }
    if bytes.len() > 4 {
        assert(bus_read(bus, place(at, 3)) == DeviceMapResult::Served(word_of(bytes[3], bytes[4])));
    }
}

/// How an operand that can be written is written: the bits that it sets say
/// how many bytes it takes.
pub proof fn lemma_operand_shape(
    program: ParserResultModel,
    data_length: int,
    arg: ArgModel,
    second: bool,
)
    requires
        encoded_operand(program, data_length, arg, second) is Ok,
    ensures
        ({
            let operand = encoded_operand(program, data_length, arg, second)->Ok_0;
            &&& operand.bits == 0 || operand.bits == 4 || operand.bits == 8 || operand.bits == 12
            &&& operand.bytes.len() == if operand.bits == 0 {
                1int
            } else if operand.bits == 4 {
                2int
            } else if operand.bits == 8 {
                3int
            } else {
                0int
            }
            &&& operand.bytes.len() == arg.width(second)
        }),
{
}

/// Whether the operand `arg` is what an instruction carries whose first two
/// bytes are `ir`, whose operand is `dr`, whose address nibble is `ad`, and
/// whose flag D is `d`: a register by its number, in the second byte where it
/// is the only operand and in the operand where it is the second; a number as
/// the operand; an address as the address that the instruction names, in
/// sixteen bits or in twenty; a name as the address of its label.
pub open spec fn carries(
    program: ParserResultModel,
    data_length: int,
    arg: ArgModel,
    second: bool,
    ir: u16,
    dr: u16,
    ad: u8,
    d: bool,
) -> bool {
    match arg {
        ArgModel::Register(reg) => if second {
            dr as int % 256 == reg
        } else {
            (ir as int / 16) % 16 == reg
        },
        ArgModel::Number(number) => dr == number && !d,
        ArgModel::Address(address) => address == if d {
            ad as int * 0x10000 + dr as int
        } else {
            dr as int
        },
        ArgModel::Identifier(name) => resolved(program, data_length, name) == Ok::<
            int,
            EncodeFailure,
        >(dr as int) && !d,
    }
}

/// Whether the processor, after a fetch, has the operand `arg` before it as
/// the assembler meant it.
pub open spec fn reads_operand(
    cpu: CpuState,
    program: ParserResultModel,
    data_length: int,
    arg: ArgModel,
    second: bool,
) -> bool {
    carries(program, data_length, arg, second, cpu.ir, cpu.dr, cpu.ad, cpu.flags.d)
}

/// The operand that the bytes of an instruction carry behind their second
/// byte.
pub open spec fn carried_operand(bytes: Seq<u8>) -> u16 {
    if width_of(bytes[1]) == 0 {
        bytes[2] as u16
    } else if width_of(bytes[1]) == 1 {
        word_of(bytes[2], bytes[3])
    } else if width_of(bytes[1]) == 2 {
        word_of(bytes[3], bytes[4])
    } else {
        0u16
    }
}

/// An operand that is a register or a number is carried by the bytes that
/// the assembler writes for it.
proof fn lemma_carries_plain(
    program: ParserResultModel,
    data_length: int,
    arg: ArgModel,
    second: bool,
    register: int,
    bytes: Seq<u8>,
)
    requires
        0 <= register <= 8,
        arg is Register || arg is Number,
        encoded_operand(program, data_length, arg, second) is Ok,
        bytes.len() >= 2,
        bytes[1] == register * 16 + encoded_operand(program, data_length, arg, second)->Ok_0.bits,
        bytes.skip(2) == encoded_operand(program, data_length, arg, second)->Ok_0.bytes,
        !second ==> (arg matches ArgModel::Register(reg) ==> reg == register),
    ensures
        bytes.len() == length_of(bytes[1]),
        width_of(bytes[1]) != 2,
        (word_of(bytes[0], bytes[1]) as int / 16) % 16 == register,
        width_of(bytes[1]) != 3 ==> carries(
            program,
            data_length,
            arg,
            second,
            word_of(bytes[0], bytes[1]),
            carried_operand(bytes),
            0,
            false,
        ),
        width_of(bytes[1]) == 3 ==> arg is Register && !second,
{
    let operand = encoded_operand(program, data_length, arg, second)->Ok_0;
    assert(bytes.skip(2).len() == bytes.len() - 2);
    lemma_word_fields(bytes[0], bytes[1]);
    if operand.bytes.len() > 0 {
        assert(bytes.skip(2)[0] == bytes[2]);
    }
    if operand.bytes.len() > 1 {
        assert(bytes.skip(2)[1] == bytes[3]);
    }
}

/// An operand that is an address or a name is carried by the bytes that the
/// assembler writes for it.
proof fn lemma_carries_address(
    program: ParserResultModel,
    data_length: int,
    arg: ArgModel,
    second: bool,
    register: int,
    bytes: Seq<u8>,
)
    requires
        0 <= register <= 8,
        arg is Address || arg is Identifier,
        program.placed(),
        data_length >= 0,
        encoded_operand(program, data_length, arg, second) is Ok,
        bytes.len() >= 2,
        bytes[1] == register * 16 + encoded_operand(program, data_length, arg, second)->Ok_0.bits,
        bytes.skip(2) == encoded_operand(program, data_length, arg, second)->Ok_0.bytes,
    ensures
        bytes.len() == length_of(bytes[1]),
        width_of(bytes[1]) != 3,
        (word_of(bytes[0], bytes[1]) as int / 16) % 16 == register,
        carries(
            program,
            data_length,
            arg,
            second,
            word_of(bytes[0], bytes[1]),
            carried_operand(bytes),
            if width_of(bytes[1]) == 2 {
                (bytes[2] as int % 16) as u8
            } else {
                0u8
            },
            width_of(bytes[1]) == 2,
        ),
{
    let operand = encoded_operand(program, data_length, arg, second)->Ok_0;
    assert(bytes.skip(2).len() == bytes.len() - 2);
    lemma_word_fields(bytes[0], bytes[1]);
    assert(bytes.skip(2)[0] == bytes[2]);
    if operand.bytes.len() > 1 {
        assert(bytes.skip(2)[1] == bytes[3]);
    }
    if operand.bytes.len() > 2 {
        assert(bytes.skip(2)[2] == bytes[4]);
    }
    match arg {
        ArgModel::Identifier(name) => {
            lemma_label_index_in_range(program.text_labels, program.data_labels, name, 0);
        },
        _ => {},
    }
}

/// The operand of an instruction, as the processor has it before it after
/// the fetch of the instruction's bytes.
proof fn lemma_operand_read(
    cpu: CpuState,
    program: ParserResultModel,
    data_length: int,
    arg: ArgModel,
    second: bool,
    register: int,
    bytes: Seq<u8>,
)
    requires
        0 <= register <= 8,
        program.placed(),
        data_length >= 0,
        encoded_operand(program, data_length, arg, second) is Ok,
        bytes.len() >= 2,
        bytes[1] == register * 16 + encoded_operand(program, data_length, arg, second)->Ok_0.bits,
        bytes.skip(2) == encoded_operand(program, data_length, arg, second)->Ok_0.bytes,
        holds(cpu.bus, cpu.pc as int, bytes),
        !second ==> (arg matches ArgModel::Register(reg) ==> reg == register),
    ensures
        bytes.len() == length_of(bytes[1]),
        fetched(cpu).fault is None,
        fetched(cpu).state.size == bytes.len(),
        fetched(cpu).state.ir == word_of(bytes[0], bytes[1]),
        fetched(cpu).state.dest() == register,
        reads_operand(fetched(cpu).state, program, data_length, arg, second),
{
    if arg is Register || arg is Number {
        lemma_carries_plain(program, data_length, arg, second, register, bytes);
    } else {
        lemma_carries_address(program, data_length, arg, second, register, bytes);
    }
    lemma_fetch_of_bytes(cpu, bytes);
}

/// The processor decodes what the assembler encodes. Where the bus holds the
/// bytes of an instruction at the program counter, the fetch goes through;
/// the length that it finds is the number of those bytes, which is the length
/// that the parser counted; and the operands are before the processor as the
/// assembler meant them.
pub proof fn lemma_fetch_reads_what_was_written(
    cpu: CpuState,
    program: ParserResultModel,
    data_length: int,
    instruction: InstructionModel,
)
    requires
        instruction.well_formed(),
        program.placed(),
        data_length >= 0,
        encoded_instruction(program, data_length, instruction) is Ok,
        holds(
            cpu.bus,
            cpu.pc as int,
            encoded_instruction(program, data_length, instruction)->Ok_0,
        ),
    ensures
        fetched(cpu).fault is None,
        fetched(cpu).state.size == encoded_instruction(
            program,
            data_length,
            instruction,
        )->Ok_0.len(),
        fetched(cpu).state.size == instruction.length(),
        fetched(cpu).state.ir as int / 256 == opcode_byte(
            instruction.opcode,
            instruction.addressing_mode,
        ),
        match instruction.instruction_type {
            InstructionType::Zero => true,
            InstructionType::One => reads_operand(
                fetched(cpu).state,
                program,
                data_length,
                instruction.args[0],
                false,
            ),
            InstructionType::Two => reads_operand(
                fetched(cpu).state,
                program,
                data_length,
                instruction.args[0],
                false,
            ) && reads_operand(
                fetched(cpu).state,
                program,
                data_length,
                instruction.args[1],
                true,
            ),
        },
{
    reveal(encoded_instruction);
    lemma_well_formed_shape(instruction);
    let bytes = encoded_instruction(program, data_length, instruction)->Ok_0;
    let ir = word_of(bytes[0], bytes[1]);
    assert(ir as int / 256 == bytes[0] as int);
    match instruction.instruction_type {
        InstructionType::Zero => {
            lemma_fetch_of_bytes(cpu, bytes);
        },
        InstructionType::One => {
            let arg = instruction.args[0];
            let operand = encoded_operand(program, data_length, arg, false)->Ok_0;
            let register: int = match arg {
                ArgModel::Register(reg) => reg as int,
                _ => 0,
            };
            assert(bytes.skip(2) =~= operand.bytes);
            lemma_operand_shape(program, data_length, arg, false);
            lemma_operand_read(cpu, program, data_length, arg, false, register, bytes);
        },
        InstructionType::Two => {
            let arg = instruction.args[1];
            let operand = encoded_operand(program, data_length, arg, true)->Ok_0;
            let register: int = match instruction.args[0] {
                ArgModel::Register(reg) => reg as int,
                _ => 0,
            };
            assert(bytes.skip(2) =~= operand.bytes);
            lemma_operand_shape(program, data_length, arg, true);
            lemma_operand_read(cpu, program, data_length, arg, true, register, bytes);
        },
    }
}

/// The opcode byte that the assembler writes for a well-formed instruction
/// leads the processor to the row of the instruction's mnemonic and mode.
pub proof fn lemma_written_opcode_is_found(instruction: InstructionModel)
    requires
        instruction.well_formed(),
    ensures
        table_entry(opcode_byte(instruction.opcode, instruction.addressing_mode)) == Some::<
            InstructionInfo,
        >(
            (
                instruction.opcode,
                instruction.addressing_mode,
                form(instruction.opcode, instruction.addressing_mode).unwrap().0,
                form(instruction.opcode, instruction.addressing_mode).unwrap().1,
            ),
        ),
{
    lemma_well_formed_shape(instruction);
    lemma_opcode_round_trip(instruction.opcode, instruction.addressing_mode);
}

/// The interrupt vectors take two bytes for each of the 255 interrupts.
proof fn lemma_vectors_length(
    program: ParserResultModel,
    data_length: int,
    number: int,
    found: Seq<u8>,
)
    requires
        0 <= number <= 255,
        vector_bytes(program, data_length, number, found) is Ok,
    ensures
        vector_bytes(program, data_length, number, found)->Ok_0.len() == found.len() + 2 * (255
            - number),
    decreases 255 - number,
{
    if number < 255 {
        match vector(program.interrupts, number as u8) {
            None => {
                lemma_vectors_length(program, data_length, number + 1, found + seq![0u8, 0u8]);
            },
            Some(name) => {
                let address = resolved_text(program, data_length, name)->Ok_0;
                lemma_vectors_length(
                    program,
                    data_length,
                    number + 1,
                    found + address_bytes(address),
                );
            },
        }
    }
}

/// What is assembled can be loaded. An image is an image as the loader
/// understands it: its header gives the length of its code, the length of
/// its data and the address at which the program begins to run; the code and
/// the data stand behind the header as the assembler wrote them; and 510
/// bytes of interrupt vectors end it.
pub proof fn lemma_image_is_loaded(program: ParserResultModel)
    requires
        program.placed(),
        image(program) is Ok,
    ensures
        ({
            let bytes = image(program)->Ok_0;
            let data = data_bytes(program.data_labels, 0, Seq::empty())->Ok_0;
            let code = code_bytes(program, data.len() as int, 0, Seq::empty())->Ok_0;
            &&& is_image(bytes)
            &&& bytes.len() == 6 + code.len() + data.len() + 510
            &&& code_length(bytes) == code.len()
            &&& data_length(bytes) == data.len()
            &&& word_in(bytes, 4) == entry_address(program, data.len() as int)->Ok_0
            &&& bytes.subrange(6, 6 + code.len() as int) == code
            &&& bytes.subrange(6 + code.len() as int, 6 + code.len() as int + data.len() as int)
                == data
        }),
{
    let bytes = image(program)->Ok_0;
    let data = data_bytes(program.data_labels, 0, Seq::empty())->Ok_0;
    let code = code_bytes(program, data.len() as int, 0, Seq::empty())->Ok_0;
    let entry = entry_address(program, data.len() as int)->Ok_0;
    let vectors = vector_bytes(program, data.len() as int, 0, Seq::empty())->Ok_0;
    lemma_vectors_length(program, data.len() as int, 0, Seq::empty());
    match directive(program.metadata, seq!['m', 'a', 'i', 'n'], program.metadata.len() as int) {
        Some(crate::assembler::parser::MetadataModel::String(name)) => {
            lemma_label_index_in_range(program.text_labels, program.data_labels, name, 0);
        },
        _ => {},
    }
    assert(0 <= entry <= 0xFFFF);
    let header = address_bytes(code.len() as int) + address_bytes(data.len() as int)
        + address_bytes(entry);
    assert(header.len() == 6);
    assert(bytes == header + code + data + vectors);
    assert(bytes[0] == header[0] && bytes[1] == header[1] && bytes[2] == header[2] && bytes[3]
        == header[3] && bytes[4] == header[4] && bytes[5] == header[5]);
    assert(bytes.subrange(6, 6 + code.len() as int) =~= code);
    assert(bytes.subrange(6 + code.len() as int, 6 + code.len() as int + data.len() as int)
        =~= data);
}

} // verus!
