use yucpu::assembler::parser::{
    parse_tokens, DefineByteData, InstructionArg, InstructionType, MetadataValue, ParseError,
    Parser, ParserInstruction,
};
use yucpu::assembler::tokenizer::{tokenize, Token};
use yucpu::assembler::{Assembler, EncodeError};
use yucpu::common::instruction::opcode::{AddressingMode, Opcode};

fn kinds(source: &str) -> Vec<Token> {
    tokenize(source).into_iter().map(|token| token.0).collect()
}

fn lexemes(source: &str) -> Vec<String> {
    tokenize(source).into_iter().map(|token| token.1).collect()
}

fn assemble(source: &str) -> Result<Vec<u8>, EncodeError> {
    let parsed = parse_tokens(tokenize(source)).unwrap();
    Assembler::new(parsed).assemble()
}

#[test]
fn tokenize_instruction_line() {
    let source = ".main start\n.text\nstart:\n\tmov r1, 0xDEAD ; load\n";
    assert_eq!(
        kinds(source),
        vec![
            Token::Metadata,
            Token::Identifier,
            Token::NewLine,
            Token::TextSection,
            Token::NewLine,
            Token::Label,
            Token::NewLine,
            Token::Identifier,
            Token::Register,
            Token::Comma,
            Token::Number,
            Token::NewLine,
        ]
    );
    assert_eq!(
        lexemes(source),
        vec![".main", "start", "\n", ".text", "\n", "start:", "\n", "mov", "r1", ",", "0xDEAD", "\n"]
    );
}

#[test]
fn tokenize_takes_the_longest_token() {
    assert_eq!(kinds("db"), vec![Token::DefineByte]);
    assert_eq!(kinds("dbx"), vec![Token::Identifier]);
    assert_eq!(kinds("db:"), vec![Token::Label]);
    assert_eq!(kinds("r1"), vec![Token::Register]);
    assert_eq!(kinds("r7"), vec![Token::Identifier]);
    assert_eq!(kinds("r12"), vec![Token::Identifier]);
    assert_eq!(kinds("RSP"), vec![Token::Register]);
    assert_eq!(kinds("rbp"), vec![Token::Register]);
    assert_eq!(kinds("rBp"), vec![Token::Identifier]);
    assert_eq!(kinds(".int"), vec![Token::InterruptDefine]);
    assert_eq!(kinds(".integer"), vec![Token::Metadata]);
    assert_eq!(kinds(".text"), vec![Token::TextSection]);
    assert_eq!(kinds(".data"), vec![Token::DataSection]);
    assert_eq!(kinds(".datax"), vec![Token::Metadata]);
}

#[test]
fn tokenize_numbers_and_addresses() {
    assert_eq!(lexemes("0x1F 42 $500 $0X10"), vec!["0x1F", "42", "$500", "$0X10"]);
    assert_eq!(
        kinds("0x1F 42 $500 $0X10"),
        vec![Token::Number, Token::Number, Token::Address, Token::Address]
    );
    // A number does not take a capital X, so the digit stands alone.
    assert_eq!(kinds("0X10"), vec![Token::Number, Token::Identifier]);
    assert_eq!(lexemes("0X10"), vec!["0", "X10"]);
    assert_eq!(kinds("0x"), vec![Token::Number, Token::Error]);
}

#[test]
fn tokenize_strings_comments_and_errors() {
    assert_eq!(kinds("\"Hello, world!\""), vec![Token::String]);
    assert_eq!(lexemes("\"a b\" ; rest \"x\"\n"), vec!["\"a b\"", "\n"]);
    assert_eq!(kinds("\"open"), vec![Token::Error, Token::Identifier]);
    assert_eq!(kinds("@"), vec![Token::Error]);
    assert_eq!(kinds("a"), vec![Token::Error]);
    assert_eq!(kinds("."), vec![Token::Error]);
    assert_eq!(kinds("$"), vec![Token::Error]);
    assert_eq!(kinds(";\n"), vec![Token::Error, Token::NewLine]);
    assert_eq!(kinds(" \t\x0C"), vec![]);
    assert_eq!(kinds(""), vec![]);
}

#[test]
fn get_instruction_checks_forms() {
    let made = ParserInstruction::get_instruction(
        Opcode::MOV,
        vec![InstructionArg::Register(0), InstructionArg::Number(5)],
    )
    .unwrap();
    assert_eq!(made.addressing_mode, AddressingMode::Immediate);
    assert_eq!(made.instruction_type, InstructionType::Two);
    assert_eq!(made.len(), 3);

    let made = ParserInstruction::get_instruction(Opcode::HLT, vec![]).unwrap();
    assert_eq!(made.addressing_mode, AddressingMode::Discard);
    assert_eq!(made.instruction_type, InstructionType::Zero);
    assert_eq!(made.len(), 2);

    assert_eq!(
        ParserInstruction::get_instruction(Opcode::MOV, vec![]).unwrap_err(),
        ParseError::InvalidInstruction(Opcode::MOV, vec![])
    );
    let error = |opcode: Opcode, args: Vec<InstructionArg>| {
        ParserInstruction::get_instruction(opcode, args).unwrap_err()
    };
    let number_only = vec![InstructionArg::Number(1)];
    assert_eq!(
        error(Opcode::MOV, number_only.clone()),
        ParseError::TooFewArguments(Opcode::MOV, number_only)
    );
    let register_and_number = vec![InstructionArg::Register(0), InstructionArg::Number(1)];
    assert_eq!(
        error(Opcode::PSH, register_and_number.clone()),
        ParseError::TooManyArguments(Opcode::PSH, register_and_number)
    );
    let two_numbers = vec![InstructionArg::Number(0), InstructionArg::Number(1)];
    assert_eq!(
        error(Opcode::MOV, two_numbers.clone()),
        ParseError::FirstArgumentNotRegister(Opcode::MOV, two_numbers)
    );
    let register_and_address = vec![InstructionArg::Register(0), InstructionArg::Address(1)];
    assert_eq!(
        error(Opcode::MOV, register_and_address.clone()),
        ParseError::InvalidInstruction(Opcode::MOV, register_and_address)
    );
    let three = vec![
        InstructionArg::Register(0),
        InstructionArg::Register(1),
        InstructionArg::Identifier(String::from("far")),
    ];
    assert_eq!(
        error(Opcode::MOV, three.clone()),
        ParseError::TooManyArguments(Opcode::MOV, three)
    );
}

#[test]
fn instruction_lengths() {
    let length = |opcode, args| ParserInstruction::get_instruction(opcode, args).unwrap().len();
    assert_eq!(length(Opcode::PSH, vec![InstructionArg::Register(3)]), 2);
    assert_eq!(length(Opcode::PSH, vec![InstructionArg::Number(255)]), 3);
    assert_eq!(length(Opcode::PSH, vec![InstructionArg::Number(256)]), 4);
    assert_eq!(length(Opcode::PSH, vec![InstructionArg::Address(255)]), 3);
    assert_eq!(length(Opcode::PSH, vec![InstructionArg::Address(65535)]), 4);
    assert_eq!(length(Opcode::PSH, vec![InstructionArg::Address(65536)]), 5);
    assert_eq!(length(Opcode::JMP, vec![InstructionArg::Identifier(String::from("x"))]), 4);
    assert_eq!(
        length(Opcode::MOV, vec![InstructionArg::Register(0), InstructionArg::Register(1)]),
        3
    );
}

#[test]
fn parse_labels_and_addresses() {
    let source = ".main start\n.text\nstart:\n  mov r1, 0xDEAD\n  psh r1\nnext:\n  hlt\n";
    let parsed = parse_tokens(tokenize(source)).unwrap();
    assert_eq!(parsed.text_labels.len(), 2);
    assert_eq!(parsed.text_labels[0].name, "start");
    assert_eq!(parsed.text_labels[0].addr, 0x4402);
    assert_eq!(parsed.text_labels[0].instructions.len(), 2);
    assert_eq!(parsed.text_labels[0].len(), 6);
    assert_eq!(parsed.text_labels[1].name, "next");
    assert_eq!(parsed.text_labels[1].addr, 0x4408);
    assert_eq!(parsed.metadata.len(), 1);
    assert_eq!(parsed.metadata[0].0, "main");
    assert!(matches!(&parsed.metadata[0].1, MetadataValue::String(name) if name == "start"));
}

#[test]
fn parse_data_labels_with_running_offsets() {
    let source = ".data\nmsg: db \"Hi\", 10, 0x1234\nmore: db 7\n";
    let parsed = parse_tokens(tokenize(source)).unwrap();
    assert_eq!(parsed.data_labels.len(), 2);
    assert_eq!(parsed.data_labels[0].0, "msg");
    let pieces = &parsed.data_labels[0].1;
    assert_eq!(pieces.len(), 3);
    assert!(matches!(&pieces[0], DefineByteData::String(text, 0) if text == "Hi"));
    assert!(matches!(&pieces[1], DefineByteData::Byte(10, 2)));
    assert!(matches!(&pieces[2], DefineByteData::Short(0x1234, 3)));
    assert_eq!(pieces[0].len(), 2);
    assert_eq!(pieces[1].len(), 1);
    assert_eq!(pieces[2].len(), 2);
    assert_eq!(parsed.data_labels[1].0, "more");
    assert!(matches!(&parsed.data_labels[1].1[0], DefineByteData::Byte(7, 5)));
}

#[test]
fn parse_registers_by_name() {
    let source = ".text\nstart:\n mov r6, Rpc\n mov RSP, rbp\n";
    let parsed = parse_tokens(tokenize(source)).unwrap();
    let instructions = &parsed.text_labels[0].instructions;
    assert!(matches!(instructions[0].args[0], InstructionArg::Register(5)));
    assert!(matches!(instructions[0].args[1], InstructionArg::Register(6)));
    assert!(matches!(instructions[1].args[0], InstructionArg::Register(7)));
    assert!(matches!(instructions[1].args[1], InstructionArg::Register(8)));
}

#[test]
fn parse_interrupts() {
    let source = ".int 3 handler\n.int 0x10 other\n";
    let parsed = parse_tokens(tokenize(source)).unwrap();
    assert_eq!(parsed.interrupts.len(), 2);
    assert_eq!(parsed.interrupts.get(&3), Some(&String::from("handler")));
    assert_eq!(parsed.interrupts.get(&16), Some(&String::from("other")));
    assert_eq!(parsed.interrupts.get(&4), None);
    // of two vectors for one interrupt the later one counts
    let parsed = parse_tokens(tokenize(".int 3 first\n.int 3 second\n")).unwrap();
    assert_eq!(parsed.interrupts.len(), 1);
    assert_eq!(parsed.interrupts.get(&3), Some(&String::from("second")));
}

fn parse_error(source: &str) -> ParseError {
    parse_tokens(tokenize(source)).unwrap_err()
}

#[test]
fn parse_errors() {
    assert_eq!(parse_error("start:\n hlt\n"), ParseError::NoSection(String::from("start:")));
    assert_eq!(parse_error(".text\n@"), ParseError::UnknownSymbol(String::from("@")));
    assert_eq!(
        parse_error(".text\nstart:\n hlt\nstart:\n hlt\n"),
        ParseError::LabelAlreadyDefined(String::from("start"))
    );
    assert_eq!(
        parse_error(".data\nstart: db 1\n.text\nstart:\n hlt\n"),
        ParseError::LabelAlreadyDefined(String::from("start"))
    );
    assert_eq!(parse_error(".text\nstart:\n"), ParseError::EmptyLabel(String::from("start")));
    assert_eq!(
        parse_error(".text\nstart:\n frob r1\n"),
        ParseError::UnknownInstruction(String::from("frob"))
    );
    assert_eq!(
        parse_error(".text\nstart:\n mov r1,\n"),
        ParseError::ExpectedArgument(Token::NewLine)
    );
    assert_eq!(parse_error(".text\nstart:\n mov r1,"), ParseError::UnexpectedEnd);
    assert_eq!(
        parse_error(".text\nstart:\n mov , r1\n"),
        ParseError::ExpectedArgument(Token::Comma)
    );
    assert_eq!(
        parse_error(".text\nstart:\n psh 70000\n"),
        ParseError::InvalidNumber(String::from("70000"))
    );
    assert_eq!(
        parse_error(".text\nstart:\n mov r1, r2, r3\n"),
        ParseError::UnknownToken(String::from(","))
    );
    assert_eq!(parse_error(".main"), ParseError::UnexpectedEnd);
    assert_eq!(parse_error(".main ,"), ParseError::ExpectedNumberOrIdentifier(Token::Comma));
    assert_eq!(parse_error(".int start"), ParseError::ExpectedNumber(Token::Identifier));
    assert_eq!(parse_error(".int 1 2"), ParseError::ExpectedIdentifier(Token::Number));
    assert_eq!(parse_error(".int 256 start"), ParseError::InvalidNumber(String::from("256")));
    assert_eq!(parse_error(".data\nmsg: 5\n"), ParseError::ExpectedDefineByte(Token::Number));
    assert_eq!(parse_error(".data\nmsg: db r1\n"), ParseError::InvalidData(Token::Register));
    assert_eq!(parse_error("db"), ParseError::UnknownToken(String::from("db")));
}

#[test]
fn parser_reads_step_by_step() {
    let mut parser = Parser::new(tokenize(".text\nstart:\n hlt\n"));
    assert_eq!(parser.current_token_index, 0);
    parser.step().unwrap();
    parser.step().unwrap();
    assert_eq!(parser.current_token_index, 2);
    parser.step().unwrap();
    assert_eq!(parser.text_labels.len(), 1);
    assert_eq!(parser.label_offset, 2);
}

#[test]
fn assemble_mov_immediate_word() {
    let image = assemble(".main start\n.text\nstart:\n\tmov r1, 0xDEAD\n").unwrap();
    assert_eq!(image.len(), 6 + 4 + 510);
    assert_eq!(&image[..10], &[0x00, 0x04, 0x00, 0x00, 0x44, 0x02, 0x00, 0x04, 0xDE, 0xAD]);
    assert!(image[10..].iter().all(|byte| *byte == 0));
}

#[test]
fn assemble_operand_widths() {
    let code = |line: &str| {
        let image = assemble(&format!(".main start\n.text\nstart:\n {}\n", line)).unwrap();
        let length = image[0] as usize * 256 + image[1] as usize;
        image[6..6 + length].to_vec()
    };
    assert_eq!(code("hlt"), vec![0xFE, 0x0C]);
    assert_eq!(code("nop"), vec![0xFF, 0x0C]);
    assert_eq!(code("ret"), vec![0xD2, 0x0C]);
    assert_eq!(code("pop"), vec![0xC4, 0x0C]);
    assert_eq!(code("pop r2"), vec![0x44, 0x1C]);
    assert_eq!(code("psh rbp"), vec![0x43, 0x8C]);
    assert_eq!(code("psh 5"), vec![0x03, 0x00, 0x05]);
    assert_eq!(code("psh 500"), vec![0x03, 0x04, 0x01, 0xF4]);
    assert_eq!(code("psh $0x50"), vec![0x83, 0x00, 0x50]);
    assert_eq!(code("psh $500"), vec![0x83, 0x04, 0x01, 0xF4]);
    assert_eq!(code("psh $0xABCDE"), vec![0x83, 0x08, 0x0A, 0xBC, 0xDE]);
    assert_eq!(code("mov r3, r2"), vec![0x40, 0x20, 0x01]);
    assert_eq!(code("add r6, 2"), vec![0x10, 0x50, 0x02]);
    assert_eq!(code("st r2, $0x1234"), vec![0x85, 0x14, 0x12, 0x34]);
    assert_eq!(code("jmp start"), vec![0x8E, 0x04, 0x44, 0x02]);
    assert_eq!(code("MOV R1, 0xDEAD"), vec![0x00, 0x04, 0xDE, 0xAD]);
}

#[test]
fn assemble_data_before_code_in_memory() {
    let source =
        ".data\nmsg: db \"Hi\", 10, 0x1234\n.text\nstart:\n ld r1, msg\n jmp start\n.main start\n";
    let image = assemble(source).unwrap();
    let mut expected = vec![0x00, 0x08, 0x00, 0x05, 0x44, 0x07];
    expected.extend([0x81, 0x04, 0x44, 0x02, 0x8E, 0x04, 0x44, 0x07]);
    expected.extend([0x48, 0x69, 0x0A, 0x12, 0x34]);
    expected.extend(vec![0u8; 510]);
    assert_eq!(image, expected);
}

#[test]
fn assemble_forward_and_backward_references_agree() {
    let source = ".main start\n.text\nstart:\n jmp end\n beq end\nmid:\n nop\nend:\n jmp end\n hlt\n";
    let image = assemble(source).unwrap();
    let code = &image[6..];
    // start: 0x4402, mid: 0x440A, end: 0x440C
    assert_eq!(&code[0..4], &[0x8E, 0x04, 0x44, 0x0C]);
    assert_eq!(&code[4..8], &[0x89, 0x04, 0x44, 0x0C]);
    assert_eq!(&code[8..10], &[0xFF, 0x0C]);
    assert_eq!(&code[10..14], &[0x8E, 0x04, 0x44, 0x0C]);
}

#[test]
fn assemble_interrupt_vectors() {
    let source = ".main start\n.int 2 handler\n.text\nstart:\n hlt\nhandler:\n rei\n";
    let image = assemble(source).unwrap();
    let vectors = &image[6 + 4..];
    assert_eq!(vectors.len(), 510);
    assert_eq!(&vectors[4..6], &[0x44, 0x04]);
    assert!(vectors[..4].iter().all(|byte| *byte == 0));
    assert!(vectors[6..].iter().all(|byte| *byte == 0));
}

#[test]
fn assemble_twice_gives_the_same_image() {
    let source = ".data\naa: db 1\nbb: db 2\ncc: db 3\n.text\nstart:\n ld r1, cc\n hlt\n.main start\n";
    assert_eq!(assemble(source).unwrap(), assemble(source).unwrap());
}

#[test]
fn assemble_errors() {
    let error = |source: &str| assemble(source).unwrap_err();
    assert_eq!(error(".text\nstart:\n hlt\n"), EncodeError::NoMainLabel);
    assert_eq!(error(".main 5\n.text\nstart:\n hlt\n"), EncodeError::MainNotLabel);
    assert_eq!(
        error(".main other\n.text\nstart:\n hlt\n"),
        EncodeError::UnresolvedIdentifier(String::from("other"))
    );
    assert_eq!(
        error(".main start\n.text\nstart:\n jmp nowhere\n"),
        EncodeError::UnresolvedIdentifier(String::from("nowhere"))
    );
    assert_eq!(error(".main start\n.text\nstart:\n psh $0x100000\n"), EncodeError::AddressTooLarge);
    assert_eq!(
        error(".main start\n.int 1 nowhere\n.text\nstart:\n hlt\n"),
        EncodeError::UnresolvedIdentifier(String::from("nowhere"))
    );
    assert_eq!(
        error(".main start\n.data\nmsg: db \"\u{263A}\"\n.text\nstart:\n hlt\n"),
        EncodeError::InvalidCharacter
    );
    assert_eq!(
        error(".main start\n.data\nmsg: db\n.text\nstart:\n ld r1, msg\n"),
        EncodeError::EmptyDataLabel(String::from("msg"))
    );
}

#[test]
fn convert_literals() {
    assert_eq!(Parser::convert_short_to_base("0xDEAD"), Some(0xDEAD));
    assert_eq!(Parser::convert_short_to_base("0XdEaD"), Some(0xDEAD));
    assert_eq!(Parser::convert_short_to_base("65535"), Some(65535));
    assert_eq!(Parser::convert_short_to_base("+12"), Some(12));
    assert_eq!(Parser::convert_short_to_base("65536"), None);
    assert_eq!(Parser::convert_short_to_base("0x10000"), None);
    assert_eq!(Parser::convert_short_to_base(""), None);
    assert_eq!(Parser::convert_short_to_base("+"), None);
    assert_eq!(Parser::convert_short_to_base("12a"), None);
    assert_eq!(Parser::convert_short_to_base("0x"), None);
    assert_eq!(Parser::convert_short_to_base("0xG"), None);
    assert_eq!(Parser::convert_short_to_base("007"), Some(7));
    assert_eq!(Parser::convert_byte_to_base("255"), Some(255));
    assert_eq!(Parser::convert_byte_to_base("256"), None);
    assert_eq!(Parser::convert_byte_to_base("0xff"), Some(255));
    assert_eq!(Parser::convert_int_to_base("4294967295"), Some(4294967295));
    assert_eq!(Parser::convert_int_to_base("4294967296"), None);
    assert_eq!(Parser::convert_int_to_base("0xFFFFF"), Some(0xFFFFF));
}

#[test]
fn opcode_names() {
    assert_eq!(Opcode::from_name(&"mov".chars().collect()), Some(Opcode::MOV));
    assert_eq!(Opcode::from_name(&"or".chars().collect()), Some(Opcode::OR));
    assert_eq!(Opcode::from_name(&"nop".chars().collect()), Some(Opcode::NOP));
    assert_eq!(Opcode::from_name(&"MOV".chars().collect()), None);
    assert_eq!(Opcode::from_name(&"".chars().collect()), None);
    assert_eq!(Opcode::BLE.name(), vec!['b', 'l', 'e']);
}

#[test]
fn a_failed_step_leaves_the_parser_where_it_was() {
    let mut parser = Parser::new(tokenize(".text\nstart:\n mov r1, 5\n frob\n"));
    parser.step().unwrap();
    parser.step().unwrap();
    assert_eq!(parser.current_token_index, 2);
    assert_eq!(parser.step(), Err(ParseError::UnknownInstruction(String::from("frob"))));
    assert_eq!(parser.current_token_index, 2);
    assert!(parser.text_labels.is_empty());
    assert_eq!(parser.label_offset, 0);
}

#[test]
fn unresolved_names_are_named_and_leave_no_image() {
    // a name that is a text label or a data label resolves
    let source = ".main start\n.data\nmsg: db 1\n.text\nstart:\n ld r1, msg\n jmp start\n";
    assert!(assemble(source).is_ok());
    // a name that is neither fails with that name, whichever operand carries it
    for line in ["jmp lost", "ld r1, lost", "beq lost", "psh lost"] {
        let source = format!(".main start\n.text\nstart:\n nop\n {}\n hlt\n", line);
        assert_eq!(
            assemble(&source),
            Err(EncodeError::UnresolvedIdentifier(String::from("lost")))
        );
    }
}
