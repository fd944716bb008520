use yucpu::fixed::assembler::{AsmError, Assembler, AssemblerLabels};
use yucpu::fixed::label::{Label, LabelType};
use yucpu::fixed::token::Token;

#[test]
fn test_instruction_mov_v_hex() {
    let expected_bytes: Vec<u8> = Vec::from([0xDA, 0xC1, 0x00, 0x00, 0xDE, 0xAD]);

    let assembler = Assembler::new_lines(Vec::from([
        String::from(".main start"),
        String::from(".text"),
        String::from("@start:"),
        String::from("\tMOV R1, 0xDEAD"),
    ]));

    let bytes = assembler.assemble().unwrap();
    assert_eq!(bytes.0, expected_bytes);
}

#[test]
fn test_instruction_mov_v() {
    let expected_bytes: Vec<u8> = Vec::from([0xDA, 0xC1, 0x00, 0x00, 0x01, 0xF4]);

    let assembler = Assembler::new_lines(Vec::from([
        String::from(".main start"),
        String::from(".text"),
        String::from("@start:"),
        String::from("\tMOV R1, 500"),
    ]));

    let bytes = assembler.assemble().unwrap();
    assert_eq!(bytes.0, expected_bytes);
}

#[test]
fn test_instruction_mov_r() {
    let expected_bytes: Vec<u8> = Vec::from([0xDA, 0xC1, 0x09, 0x00, 0x00, 0x01]);

    let assembler = Assembler::new_lines(Vec::from([
        String::from(".main start"),
        String::from(".text"),
        String::from("@start:"),
        String::from("\tMOV R1, R2"),
    ]));

    let bytes = assembler.assemble().unwrap();
    assert_eq!(bytes.0, expected_bytes);
}

#[test]
fn test_instruction_ld_r() {
    let expected_bytes: Vec<u8> = Vec::from([0xDA, 0xC1, 0x01, 0x00, 0x00, 0x00]);

    let assembler = Assembler::new_lines(Vec::from([
        String::from(".main start"),
        String::from(".text"),
        String::from("@start:"),
        String::from("\tLD R1, R1"),
    ]));

    let bytes = assembler.assemble().unwrap();

    assert_eq!(bytes.0, expected_bytes);
}

#[test]
fn test_instruction_ld_a_hex() {
    let expected_bytes: Vec<u8> = Vec::from([0xDA, 0xC1, 0x02, 0x01, 0x00, 0x50]);

    let assembler = Assembler::new_lines(Vec::from([
        String::from(".main start"),
        String::from(".text"),
        String::from("@start:"),
        String::from("\tLD R2, $0x50"),
    ]));

    let bytes = assembler.assemble().unwrap();
    assert_eq!(bytes.0, expected_bytes);
}

#[test]
fn test_instruction_psh_v() {
    let expected_bytes: Vec<u8> = Vec::from([0xDA, 0xC1, 0x03, 0x00, 0xDE, 0xAD]);

    let assembler = Assembler::new_lines(Vec::from([
        String::from(".main start"),
        String::from(".text"),
        String::from("@start:"),
        String::from("\tPSH 0xDEAD"),
    ]));

    let bytes = assembler.assemble().unwrap();
    assert_eq!(bytes.0, expected_bytes);
}

#[test]
fn test_instruction_psh_r() {
    let expected_bytes: Vec<u8> = Vec::from([0xDA, 0xC1, 0x04, 0x05, 0x00, 0x00]);

    let assembler = Assembler::new_lines(Vec::from([
        String::from(".main start"),
        String::from(".text"),
        String::from("@start:"),
        String::from("\tPSH R6"),
    ]));

    let bytes = assembler.assemble().unwrap();
    assert_eq!(bytes.0, expected_bytes);
}

#[test]
fn test_instruction_psh_a() {
    let expected_bytes: Vec<u8> = Vec::from([0xDA, 0xC1, 0x05, 0x00, 0x01, 0xF4]);

    let assembler = Assembler::new_lines(Vec::from([
        String::from(".main start"),
        String::from(".text"),
        String::from("@start:"),
        String::from("\tPSH $500"),
    ]));

    let bytes = assembler.assemble().unwrap();
    assert_eq!(bytes.0, expected_bytes);
}

#[test]
fn test_instruction_pop_r() {
    let expected_bytes: Vec<u8> = Vec::from([0xDA, 0xC1, 0x06, 0x01, 0x00, 0x00]);

    let assembler = Assembler::new_lines(Vec::from([
        String::from(".main start"),
        String::from(".text"),
        String::from("@start:"),
        String::from("\tPOP R2"),
    ]));

    let bytes = assembler.assemble().unwrap();
    assert_eq!(bytes.0, expected_bytes);
}

#[test]
fn test_instruction_pop() {
    let expected_bytes: Vec<u8> = Vec::from([0xDA, 0xC1, 0x07, 0x00, 0x00, 0x00]);

    let assembler = Assembler::new_lines(Vec::from([
        String::from(".main start"),
        String::from(".text"),
        String::from("@start:"),
        String::from("\tPOP"),
    ]));

    let bytes = assembler.assemble().unwrap();
    assert_eq!(bytes.0, expected_bytes);
}

#[test]
fn test_instruction_lds_a() {
    let expected_bytes: Vec<u8> = Vec::from([0xDA, 0xC1, 0x08, 0x00, 0xBE, 0xEF]);

    let assembler = Assembler::new_lines(Vec::from([
        String::from(".main start"),
        String::from(".text"),
        String::from("@start:"),
        String::from("\tLDS R1, $0xBEEF"),
    ]));

    let bytes = assembler.assemble().unwrap();
    assert_eq!(bytes.0, expected_bytes);
}

#[test]
fn test_instruction_st_a() {
    let expected_bytes: Vec<u8> = Vec::from([0xDA, 0xC1, 0x10, 0x00, 0xBE, 0xEF]);

    let assembler = Assembler::new_lines(Vec::from([
        String::from(".main start"),
        String::from(".text"),
        String::from("@start:"),
        String::from("\tST R1, $0xBEEF"),
    ]));

    let bytes = assembler.assemble().unwrap();
    assert_eq!(bytes.0, expected_bytes);
}

#[test]
fn test_instruction_stl_a() {
    let expected_bytes: Vec<u8> = Vec::from([0xDA, 0xC1, 0x11, 0x02, 0x06, 0x17]);

    let assembler = Assembler::new_lines(Vec::from([
        String::from(".main start"),
        String::from(".text"),
        String::from("@start:"),
        String::from("\tSTL R3, $0x617"),
    ]));

    let bytes = assembler.assemble().unwrap();
    assert_eq!(bytes.0, expected_bytes);
}

#[test]
fn test_instruction_sth_a() {
    let expected_bytes: Vec<u8> = Vec::from([0xDA, 0xC1, 0x12, 0x03, 0x0D, 0x06]);

    let assembler = Assembler::new_lines(Vec::from([
        String::from(".main start"),
        String::from(".text"),
        String::from("@start:"),
        String::from("\tSTH R4, $0xD06"), // ;)
    ]));

    let bytes = assembler.assemble().unwrap();
    assert_eq!(bytes.0, expected_bytes);
}

#[test]
fn test_instruction_cmp_r() {
    let expected_bytes: Vec<u8> = Vec::from([0xDA, 0xC1, 0x20, 0x00, 0x00, 0x00]);

    let assembler = Assembler::new_lines(Vec::from([
        String::from(".main start"),
        String::from(".text"),
        String::from("@start:"),
        String::from("\tCMP R1, R1"),
    ]));

    let bytes = assembler.assemble().unwrap();
    assert_eq!(bytes.0, expected_bytes);
}

#[test]
fn test_instruction_cmp_v() {
    let expected_bytes: Vec<u8> = Vec::from([0xDA, 0xC1, 0x21, 0x00, 0x0C, 0xA7]);

    let assembler = Assembler::new_lines(Vec::from([
        String::from(".main start"),
        String::from(".text"),
        String::from("@start:"),
        String::from("\tCMP R1, 0xCA7"), // >:(
    ]));

    let bytes = assembler.assemble().unwrap();
    assert_eq!(bytes.0, expected_bytes);
}

#[test]
fn test_instruction_beq_l() {
    let expected_bytes: Vec<u8> = Vec::from([0xDA, 0xC1, 0x30, 0x00, 0xDA, 0xC1]);

    let assembler = Assembler::new_lines(Vec::from([
        String::from(".main start"),
        String::from(".text"),
        String::from("@start:"),
        String::from("\tBEQ start"),
    ]));

    let bytes = assembler.assemble().unwrap();
    assert_eq!(bytes.0, expected_bytes);
}

#[test]
fn test_instruction_bgt_l() {
    let expected_bytes: Vec<u8> = Vec::from([0xDA, 0xC1, 0x31, 0x00, 0xDA, 0xC1]);

    let assembler = Assembler::new_lines(Vec::from([
        String::from(".main start"),
        String::from(".text"),
        String::from("@start:"),
        String::from("\tBGT start"),
    ]));

    let bytes = assembler.assemble().unwrap();
    assert_eq!(bytes.0, expected_bytes);
}

#[test]
fn test_instruction_blt_l() {
    let expected_bytes: Vec<u8> = Vec::from([0xDA, 0xC1, 0x32, 0x00, 0xDA, 0xC1]);

    let assembler = Assembler::new_lines(Vec::from([
        String::from(".main start"),
        String::from(".text"),
        String::from("@start:"),
        String::from("\tBLT start"),
    ]));

    let bytes = assembler.assemble().unwrap();
    assert_eq!(bytes.0, expected_bytes);
}

#[test]
fn test_instruction_jmp_l() {
    let expected_bytes: Vec<u8> = Vec::from([0xDA, 0xC1, 0x33, 0x00, 0xDA, 0xC1]);

    let assembler = Assembler::new_lines(Vec::from([
        String::from(".main start"),
        String::from(".text"),
        String::from("@start:"),
        String::from("\tJMP start"),
    ]));

    let bytes = assembler.assemble().unwrap();
    assert_eq!(bytes.0, expected_bytes);
}

#[test]
fn test_instruction_bof_l() {
    let expected_bytes: Vec<u8> = Vec::from([0xDA, 0xC1, 0x34, 0x00, 0xDA, 0xC1]);

    let assembler = Assembler::new_lines(Vec::from([
        String::from(".main start"),
        String::from(".text"),
        String::from("@start:"),
        String::from("\tBOF start"),
    ]));

    let bytes = assembler.assemble().unwrap();
    assert_eq!(bytes.0, expected_bytes);
}

#[test]
fn test_instruction_bne_l() {
    let expected_bytes: Vec<u8> = Vec::from([0xDA, 0xC1, 0x35, 0x00, 0xDA, 0xC1]);

    let assembler = Assembler::new_lines(Vec::from([
        String::from(".main start"),
        String::from(".text"),
        String::from("@start:"),
        String::from("\tBNE start"),
    ]));

    let bytes = assembler.assemble().unwrap();
    assert_eq!(bytes.0, expected_bytes);
}

#[test]
fn test_instruction_add_v() {
    let expected_bytes: Vec<u8> = Vec::from([0xDA, 0xC1, 0x40, 0x00, 0x00, 0x02]);

    let assembler = Assembler::new_lines(Vec::from([
        String::from(".main start"),
        String::from(".text"),
        String::from("@start:"),
        String::from("\tADD R1, 2"),
    ]));

    let bytes = assembler.assemble().unwrap();
    assert_eq!(bytes.0, expected_bytes);
}

#[test]
fn test_instruction_sub_v() {
    let expected_bytes: Vec<u8> = Vec::from([0xDA, 0xC1, 0x41, 0x00, 0x00, 0x02]);

    let assembler = Assembler::new_lines(Vec::from([
        String::from(".main start"),
        String::from(".text"),
        String::from("@start:"),
        String::from("\tSUB R1, 2"),
    ]));

    let bytes = assembler.assemble().unwrap();
    assert_eq!(bytes.0, expected_bytes);
}

#[test]
fn test_instruction_add_r() {
    let expected_bytes: Vec<u8> = Vec::from([0xDA, 0xC1, 0x42, 0x00, 0x00, 0x01]);

    let assembler = Assembler::new_lines(Vec::from([
        String::from(".main start"),
        String::from(".text"),
        String::from("@start:"),
        String::from("\tADD R1, R2"),
    ]));

    let bytes = assembler.assemble().unwrap();
    assert_eq!(bytes.0, expected_bytes);
}

#[test]
fn test_instruction_sub_r() {
    let expected_bytes: Vec<u8> = Vec::from([0xDA, 0xC1, 0x43, 0x00, 0x00, 0x01]);

    let assembler = Assembler::new_lines(Vec::from([
        String::from(".main start"),
        String::from(".text"),
        String::from("@start:"),
        String::from("\tSUB R1, R2"),
    ]));

    let bytes = assembler.assemble().unwrap();
    assert_eq!(bytes.0, expected_bytes);
}

#[test]
fn test_instruction_call_l() {
    let expected_bytes: Vec<u8> = Vec::from([0xDA, 0xC1, 0x50, 0x00, 0xDA, 0xC1]);

    let assembler = Assembler::new_lines(Vec::from([
        String::from(".main start"),
        String::from(".text"),
        String::from("@start:"),
        String::from("\tCALL start"),
    ]));

    let bytes = assembler.assemble().unwrap();
    assert_eq!(bytes.0, expected_bytes);
}

#[test]
fn test_instruction_ret() {
    let expected_bytes: Vec<u8> = Vec::from([0xDA, 0xC1, 0x51, 0x00, 0x00, 0x0]);

    let assembler = Assembler::new_lines(Vec::from([
        String::from(".main start"),
        String::from(".text"),
        String::from("@start:"),
        String::from("\tRET"),
    ]));

    let bytes = assembler.assemble().unwrap();
    assert_eq!(bytes.0, expected_bytes);
}

#[test]
fn test_instruction_hlt() {
    let expected_bytes: Vec<u8> = Vec::from([0xDA, 0xC1, 0xFE, 0xFE, 0xFF, 0xFF]);

    let assembler = Assembler::new_lines(Vec::from([
        String::from(".main start"),
        String::from(".text"),
        String::from("@start:"),
        String::from("\tHLT"),
    ]));

    let bytes = assembler.assemble().unwrap();
    assert_eq!(bytes.0, expected_bytes);
}

#[test]
fn test_instruction_nop() {
    let expected_bytes: Vec<u8> = Vec::from([0xDA, 0xC1, 0xFF, 0xFF, 0xFF, 0xFF]);

    let assembler = Assembler::new_lines(Vec::from([
        String::from(".main start"),
        String::from(".text"),
        String::from("@start:"),
        String::from("\tNOP"),
    ]));

    let bytes = assembler.assemble().unwrap();
    assert_eq!(bytes.0, expected_bytes);
}

#[test]
fn test_start_label() {
    let mut assembler = Assembler::new_lines(Vec::from([
        String::from(".main start"),
        String::from(".text"),
        String::from("@start:"),
        String::from("\tMOV R1, 16"),
    ]));

    assembler = assembler.assemble().unwrap().1;

    assert_eq!(assembler.start_label, String::from("start"))
}

#[test]
fn test_data_string() {
    let expected_bytes: Vec<u8> = Vec::from([
        0xDA, 0xCF, 0x48, 0x65, 0x6C, 0x6C, 0x6F, 0x2C, 0x20, 0x77, 0x6F, 0x72, 0x6C, 0x64, 0x21,
        0x00, 0xFE, 0xFE, 0xFF, 0xFF,
    ]);

    let assembler = Assembler::new_lines(Vec::from([
        String::from(".main start"),
        String::from(".data"),
        String::from("@str1:"),
        String::from("\tDAT \"Hello, world!\""),
        String::from(".text"),
        String::from("@start:"),
        String::from("\tHLT"),
    ]));

    let bytes = assembler.assemble().unwrap();

    assert_eq!(bytes.0, expected_bytes);
}

#[test]
fn test_string_to_value_decimal() {
    let value = Assembler::get_value_from_str(&String::from("65535")).unwrap();

    assert_eq!(value, 65535);
}

#[test]
fn test_string_to_value_hex() {
    let value = Assembler::get_value_from_str(&String::from("0xFFFF")).unwrap();

    assert_eq!(value, 65535);
}

fn lines(source: &[&str]) -> Vec<String> {
    source.iter().map(|line| String::from(*line)).collect()
}

fn image(source: &[&str]) -> Result<Vec<u8>, AsmError> {
    Assembler::new_lines(lines(source)).assemble().map(|done| done.0)
}

#[test]
fn fixed_forward_and_backward_labels() {
    let bytes = image(&[
        ".main start",
        ".text",
        "@start:",
        "\tJMP end",
        "\tNOP",
        "@end:",
        "\tBEQ start",
        "\tJMP end",
    ])
    .unwrap();
    assert_eq!(
        bytes,
        vec![
            0xDA, 0xC1, 0x33, 0x00, 0xDA, 0xC9, 0xFF, 0xFF, 0xFF, 0xFF, 0x30, 0x00, 0xDA, 0xC1,
            0x33, 0x00, 0xDA, 0xC9,
        ]
    );
}

#[test]
fn fixed_ld_takes_labels_of_data() {
    let bytes = image(&[
        ".main start",
        ".data",
        "@msg:",
        "\tDAT \"Hi\"",
        "@more:",
        "\tDAT \"x\"",
        ".text",
        "@start:",
        "\tLD R1, more",
        "\tLD R2, start",
    ])
    .unwrap();
    assert_eq!(
        bytes,
        vec![
            0xDA, 0xC6, b'H', b'i', 0, b'x', 0, 0x02, 0x00, 0x00, 0x05, 0x02, 0x01, 0xDA, 0xC6,
        ]
    );
}

#[test]
fn fixed_registers() {
    let register = |name: &str| Assembler::is_valid_register(&String::from(name));
    assert_eq!(register("R1"), Ok(0));
    assert_eq!(register("R6"), Ok(5));
    assert_eq!(register("RPC"), Ok(6));
    assert_eq!(register("RSP"), Ok(7));
    assert_eq!(register("RBP"), Ok(8));
    assert_eq!(register("R12"), Ok(0));
    assert_eq!(register("R0"), Err(AsmError::RegisterOutOfRange));
    assert_eq!(register("R7"), Err(AsmError::RegisterOutOfRange));
    assert_eq!(register("X1"), Err(AsmError::InvalidRegister));
    assert_eq!(register("R"), Err(AsmError::InvalidRegister));
    assert_eq!(register("RX"), Err(AsmError::InvalidRegister));
    assert_eq!(register(""), Err(AsmError::InvalidRegister));
}

#[test]
fn fixed_errors() {
    assert_eq!(image(&[".main", ".text", "@start:", "\tHLT"]), Err(AsmError::MissingStartLabel));
    assert_eq!(image(&[".main start"]), Err(AsmError::NoTextTokens));
    assert_eq!(image(&[".main nowhere", ".text", "@start:", "\tHLT"]), Err(AsmError::NoStartLabel));
    assert_eq!(image(&[".text", "@start:", "\tHLT"]), Err(AsmError::NoStartLabel));
    assert_eq!(image(&[".main start", ".text", "@start:", " HLT"]), Err(AsmError::MalformedLine));
    assert_eq!(image(&[".main start", ".text", "@start:", "\tMOV R1"]), Err(AsmError::MissingArgument));
    assert_eq!(image(&[".main start", ".text", "@start:", "\tMOV R9, 1"]), Err(AsmError::RegisterOutOfRange));
    assert_eq!(image(&[".main start", ".text", "@start:", "\tMOV R1, 70000"]), Err(AsmError::InvalidNumber));
    assert_eq!(image(&[".main start", ".text", "@start:", "\tJMP nowhere"]), Err(AsmError::UndefinedLabel));
    assert_eq!(image(&[".main start", ".text", "@start:", "\tST R1, 5"]), Err(AsmError::InvalidOperand));
    assert_eq!(image(&[".main start", ".text", "@start:", "\tLDS R1, R2"]), Err(AsmError::InvalidOperand));
    assert_eq!(image(&[".main start", ".text", "@start:", "\tLD R1, 0x10"]), Err(AsmError::InvalidOperand));
    assert_eq!(image(&[".main start", ".text", "@start:", "\tLD R1, 123"]), Err(AsmError::InvalidOperand));
    assert_eq!(image(&[".main start", ".text", "@start:", "\tPOP R1, R2"]), Err(AsmError::TooManyArguments));
    assert_eq!(
        image(&[".main start", ".data", "@msg:", "\tDB 1", ".text", "@start:", "\tHLT"]),
        Err(AsmError::InvalidDataInstruction)
    );
    assert_eq!(
        image(&[".main start", ".data", "@msg:", "\tDAT 1", ".text", "@start:", "\tHLT"]),
        Err(AsmError::InvalidDataArguments)
    );
    assert_eq!(
        image(&[".main start", ".data", "@msg:", "\tDAT \"a\"", "\tDAT \"b\"", ".text", "@start:", "\tHLT"]),
        Err(AsmError::DuplicateDataLabel)
    );
}

#[test]
fn fixed_unknown_mnemonics_leave_no_bytes() {
    assert_eq!(
        image(&[".main start", ".text", "@start:", "\tFROB R1", "\tNOP"]),
        Ok(vec![0xDA, 0xC1, 0xFF, 0xFF, 0xFF, 0xFF])
    );
}

#[test]
fn fixed_labels() {
    let none = Label::new();
    assert_eq!(none.l_type, LabelType::Unset);
    assert_eq!((none.name.as_str(), none.addr, none.value.as_str()), ("", 0, ""));
    let data = Label::create_data(String::from("msg"), 5, String::from("Hi"));
    assert_eq!((data.l_type, data.addr, data.value.as_str()), (LabelType::Data, 7, "Hi"));
    let text = Label::create_text(String::from("start"), 14, 8);
    assert_eq!((text.l_type, text.addr), (LabelType::Text, 0xDAD7));
    let labels = AssemblerLabels { data_labels: vec![data], text_labels: vec![text] };
    assert_eq!(Assembler::find_label(&String::from("msg"), &labels).addr, 7);
    assert_eq!(Assembler::find_label(&String::from("start"), &labels).addr, 0xDAD7);
    assert_eq!(Assembler::find_label(&String::from("other"), &labels).l_type, LabelType::Unset);
}

#[test]
fn fixed_tokens() {
    let token = Token::create_token(
        String::from("start"),
        String::from("MOV"),
        vec![String::from("R1"), String::from("5")],
        LabelType::Text,
    );
    assert_eq!(token.label, "start");
    assert_eq!(token.instruction, "MOV");
    assert_eq!(token.args, vec!["R1", "5"]);
    assert_eq!(token.section, LabelType::Text);
    let assembler = Assembler::new_lines(lines(&[".main go", ".text", "@go:", "\tPSH R2, 7"]));
    let (start, data, text) = assembler.tokenize(&assembler.lines).unwrap();
    assert_eq!(start, "go");
    assert!(data.is_empty());
    assert_eq!(text.len(), 1);
    assert_eq!(text[0].label, "go");
    assert_eq!(text[0].args, vec!["R2", "7"]);
}
