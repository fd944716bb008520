use yucpu::common::hex::{to_decimal, Hex};
use yucpu::fixed::disassembler::{
    instruction_info, DisassembleError, Disassembler, InstructionInfo, InstructionValues,
};

#[test]
fn hex_strings() {
    assert_eq!(0u8.to_hex_string(), "00");
    assert_eq!(0x0Au8.to_hex_string(), "0A");
    assert_eq!(0xFFu8.to_hex_string(), "FF");
    assert_eq!(0u16.to_hex_string(), "0000");
    assert_eq!(0x0D07u16.to_hex_string(), "0D07");
    assert_eq!(0xDAC1u16.to_hex_string(), "DAC1");
    assert_eq!(0xFFFFu16.to_hex_string(), "FFFF");
}

#[test]
fn decimal_strings() {
    assert_eq!(to_decimal(0), "0");
    assert_eq!(to_decimal(9), "9");
    assert_eq!(to_decimal(10), "10");
    assert_eq!(to_decimal(4096), "4096");
    assert_eq!(to_decimal(65535), "65535");
}

#[test]
fn disassembler_reads_instructions() {
    assert!(matches!(Disassembler::get_instructions(&vec![0xDA]), Err(DisassembleError::NoHeader)));
    let read =
        Disassembler::get_instructions(&vec![0xDA, 0xC1, 0x00, 0x01, 0xDE, 0xAD, 0xFE, 0xFE, 0xFF, 9, 9])
            .unwrap();
    assert_eq!(read.len(), 2);
    assert_eq!((read[0].opcode, read[0].register, read[0].data), (0x00, 0x01, 0xDEAD));
    assert_eq!(read[0].source, vec![0x00, 0x01, 0xDE, 0xAD]);
    assert_eq!((read[1].opcode, read[1].register, read[1].data), (0xFE, 0xFE, 0xFF09));
    // three bytes at the end make an instruction, two do not
    let read = Disassembler::get_instructions(&vec![0xDA, 0xC1, 0x51, 0x00, 0x12]).unwrap();
    assert_eq!(read.len(), 1);
    assert_eq!(read[0].data, 0x1200);
    assert_eq!(read[0].source, vec![0x51, 0x00, 0x12, 0x00]);
    assert!(Disassembler::get_instructions(&vec![0xDA, 0xC1, 0x51, 0x00]).unwrap().is_empty());
}

#[test]
fn disassembler_names() {
    assert_eq!(Disassembler::source_to_hex_str(&[0x00, 0x01, 0xDE, 0xAD]), "0001DEAD");
    assert_eq!(Disassembler::source_to_hex_str(&[]), "");
    assert_eq!(Disassembler::reg_to_string(0).unwrap(), "R1");
    assert_eq!(Disassembler::reg_to_string(5).unwrap(), "R6");
    assert_eq!(Disassembler::reg_to_string(6).unwrap(), "RPC");
    assert_eq!(Disassembler::reg_to_string(7).unwrap(), "RSP");
    assert_eq!(Disassembler::reg_to_string(8).unwrap(), "RBP");
    assert_eq!(Disassembler::reg_to_string(9), Err(DisassembleError::InvalidRegister));
    let info = instruction_info(0x50).unwrap();
    assert_eq!((info.name.as_str(), info.value, info.uses_reg1), ("CALL", InstructionValues::Addr, false));
    assert!(instruction_info(0x0B).is_none());
    let made = InstructionInfo::new(String::from("MOV"), InstructionValues::Val, true);
    assert_eq!((made.name.as_str(), made.value, made.uses_reg1), ("MOV", InstructionValues::Val, true));
}

#[test]
fn disassembler_lines() {
    let bytes = vec![
        0xDA, 0xC1, 0x00, 0x01, 0xDE, 0xAD, 0x09, 0x00, 0x00, 0x07, 0x33, 0x00, 0xDA, 0xC1, 0x51, 0, 0,
        0,
    ];
    let with_addresses = Disassembler::new(&String::from("image.bin"), true);
    let lines = with_addresses.disassemble(&bytes).unwrap();
    assert_eq!(lines.len(), 4);
    assert_eq!(lines[0].address, "DAC1");
    assert_eq!(lines[0].source_padding, 7);
    assert_eq!(lines[0].source_hex, "0001DEAD");
    assert_eq!(lines[0].name, "MOV");
    assert_eq!(lines[0].name_padding, 2);
    assert_eq!(lines[0].register.as_deref(), Some("R2"));
    assert_eq!(lines[0].value, InstructionValues::Val);
    assert_eq!(lines[0].operand, "DEAD");
    assert_eq!(lines[1].address, "DAC5");
    assert_eq!(lines[1].register.as_deref(), Some("R1"));
    assert_eq!((lines[1].value, lines[1].operand.as_str()), (InstructionValues::Reg, "RSP"));
    assert_eq!(lines[2].register, None);
    assert_eq!((lines[2].value, lines[2].operand.as_str()), (InstructionValues::Addr, "DAC1"));
    assert_eq!(lines[2].name_padding, 2);
    assert_eq!((lines[3].name.as_str(), lines[3].name_padding), ("RET", 0));
    assert_eq!(lines[3].operand, "");

    let with_offsets = Disassembler::new(&String::from("image.bin"), false);
    let lines = with_offsets.disassemble(&bytes).unwrap();
    assert_eq!(lines[0].address, "0");
    assert_eq!(lines[0].source_padding, 7);
    assert_eq!(lines[3].address, "12");
    assert_eq!(lines[3].source_padding, 6);

    assert_eq!(
        with_offsets.disassemble(&vec![0xDA, 0xC1, 0x0B, 0, 0, 0]).unwrap_err(),
        DisassembleError::UnknownOpcode(0x0B)
    );
    assert_eq!(
        with_offsets.disassemble(&vec![0xDA, 0xC1, 0x00, 9, 0, 0]).unwrap_err(),
        DisassembleError::InvalidRegister
    );
    assert_eq!(with_offsets.disassemble(&vec![]).unwrap_err(), DisassembleError::NoHeader);
}
