use yucpu::assembler::parser::parse_tokens;
use yucpu::assembler::tokenizer::tokenize;
use yucpu::assembler::Assembler;
use yucpu::common::instruction::opcode::{AddressingMode, Instruction, Opcode};
use yucpu::vcpu::cpu::{BusError, ExecutionFault, Fault, Flag, Flags, IrqPin, Pins, CPU};
use yucpu::vcpu::device::bios::{KeyboardFlag, BIOS};
use yucpu::vcpu::device::map::{AnyDevice, DeviceMap, DeviceMapResult};
use yucpu::vcpu::device::ram::Ram;
use yucpu::vcpu::device::rom::Rom;
use yucpu::vcpu::device::vga::{VGAColor, VGA};
use yucpu::vcpu::device::{Device, DeviceResponse};
use yucpu::vcpu::{
    build, decide_key, key_to_char, load_image, run, take_key, ImageError, Key, KeyAction,
    KeyEvent,
};

fn machine(source: &str) -> CPU {
    let parsed = parse_tokens(tokenize(source)).unwrap();
    let image = Assembler::new(parsed).assemble().unwrap();
    let loaded = load_image(&image).unwrap();
    build(loaded.program, loaded.vectors, loaded.entry, false)
}

fn cpu_with(program: Vec<u8>, sp: u16) -> CPU {
    let size = program.len() as u32;
    let mut cpu = CPU::new(0, sp, false);
    cpu.map.add(AnyDevice::Rom(Rom::new(program, 0, size)));
    cpu.map.add(AnyDevice::Ram(Ram::new(0x100, 0x200)));
    cpu
}

#[test]
fn opcode_round_trip_for_every_legal_pair() {
    let opcodes = [
        Opcode::MOV, Opcode::LD, Opcode::LDB, Opcode::PSH, Opcode::POP, Opcode::ST, Opcode::STL,
        Opcode::STH, Opcode::CMP, Opcode::BEQ, Opcode::BGT, Opcode::BLT, Opcode::BOF, Opcode::BNE,
        Opcode::JMP, Opcode::JSR, Opcode::ADD, Opcode::SUB, Opcode::RET, Opcode::INT, Opcode::REI,
        Opcode::AND, Opcode::OR, Opcode::XOR, Opcode::LSH, Opcode::RSH, Opcode::MUL, Opcode::MOD,
        Opcode::BGE, Opcode::BLE, Opcode::HLT, Opcode::NOP,
    ];
    let table = Instruction::hashmap();
    let mut legal = 0;
    for opcode in opcodes {
        for mode in Instruction::get_variants(opcode) {
            let byte = Instruction::create_opcode(opcode, mode);
            let decoded = Instruction::from_opcode(&byte).unwrap();
            assert_eq!(decoded.opcode, opcode);
            assert_eq!(decoded.mode, mode);
            let row = table[&byte];
            assert_eq!((row.0, row.1), (opcode, mode));
            legal += 1;
        }
    }
    assert_eq!(legal, 51);
    assert_eq!(table.len(), 51);
}

#[test]
fn opcode_bytes_pack_mode_and_mnemonic() {
    assert_eq!(Instruction::create_opcode(Opcode::MOV, AddressingMode::Immediate), 0x00);
    assert_eq!(Instruction::create_opcode(Opcode::MOV, AddressingMode::Register), 0x40);
    assert_eq!(Instruction::create_opcode(Opcode::JSR, AddressingMode::Direct), 0x8F);
    assert_eq!(Instruction::create_opcode(Opcode::HLT, AddressingMode::Discard), 0xFE);
    assert_eq!(Instruction::create_opcode(Opcode::NOP, AddressingMode::Discard), 0xFF);
    assert_eq!(
        Instruction::get_variants(Opcode::PSH),
        vec![AddressingMode::Immediate, AddressingMode::Register, AddressingMode::Direct]
    );
    assert_eq!(Instruction::get_variants(Opcode::HLT), vec![AddressingMode::Discard]);
    assert!(Instruction::from_opcode(&0xC0).is_err());
    assert!(Instruction::from_opcode(&0x20).is_err());
}

#[test]
fn push_address_then_pop_register() {
    let mut cpu = machine(".main start\n.int 250 start\n.text\nstart:\n psh $500\n pop r2\n hlt\n");
    let stored = match cpu.map.read(500) {
        DeviceMapResult::Served(word) => word,
        _ => panic!("nothing at 500"),
    };
    assert_eq!(stored, 0x4402);
    run(&mut cpu, Pins::new(), 100).unwrap();
    assert_eq!(cpu.r2, stored);
    assert_eq!(cpu.sp, 0x4803);
    assert!(!cpu.running);
}

#[test]
fn program_reads_its_data() {
    let mut cpu = machine(
        ".data\nmsg: db \"Hi\", 10, 0x1234\n.text\nstart:\n ld r1, msg\n ldb r2, msg\n hlt\n.main start\n",
    );
    assert_eq!(cpu.pc, 0x4407);
    run(&mut cpu, Pins::new(), 100).unwrap();
    assert_eq!(cpu.r1, 0x4869);
    assert_eq!(cpu.r2, 0x48);
}

#[test]
fn loop_counts_down() {
    let source = ".main start\n.text\nstart:\n mov r1, 3\n mov r2, 0\nagain:\n add r2, 10\n sub r1, 1\n cmp r1, 0\n bne again\n hlt\n";
    let mut first = machine(source);
    let mut second = machine(source);
    run(&mut first, Pins::new(), 1000).unwrap();
    run(&mut second, Pins::new(), 1000).unwrap();
    assert_eq!(first.r2, 30);
    assert_eq!(first.r1, 0);
    assert!(first.flags.contains(Flag::Z));
    assert_eq!(
        (first.r1, first.r2, first.pc, first.sp, first.flags),
        (second.r1, second.r2, second.pc, second.sp, second.flags)
    );
}

#[test]
fn call_and_return() {
    let source = ".main start\n.text\nstart:\n jsr work\n hlt\nwork:\n mov r3, 7\n ret\n";
    let mut cpu = machine(source);
    run(&mut cpu, Pins::new(), 100).unwrap();
    assert_eq!(cpu.r3, 7);
    assert_eq!(cpu.sp, 0x4803);
    assert_eq!(cpu.pc, 0x4406);
}

#[test]
fn halt_stays_halted() {
    let mut cpu = machine(".main start\n.text\nstart:\n mov r1, 9\n hlt\n");
    let pins = run(&mut cpu, Pins::new(), 100).unwrap();
    assert!(!cpu.running);
    let before = (cpu.r1, cpu.r2, cpu.r3, cpu.r4, cpu.r5, cpu.r6, cpu.pc, cpu.sp, cpu.bp, cpu.flags);
    let pins = cpu.tick(pins).unwrap();
    cpu.tick(pins).unwrap();
    let after = (cpu.r1, cpu.r2, cpu.r3, cpu.r4, cpu.r5, cpu.r6, cpu.pc, cpu.sp, cpu.bp, cpu.flags);
    assert_eq!(before, after);
    assert!(!cpu.running);
    // A halted processor is not ticked by `run`.
    run(&mut cpu, pins, 10).unwrap();
    assert_eq!(cpu.pc, before.6);
}

#[test]
fn pushes_and_pops_are_last_in_first_out() {
    let mut cpu = cpu_with(vec![0xFE, 0x0C], 0x100);
    let values = [0x1111u16, 0x2222, 0x3333, 0xFFFF, 0];
    for value in values {
        cpu.push(value).unwrap();
    }
    assert_eq!(cpu.sp, 0x10A);
    for value in values.iter().rev() {
        assert_eq!(cpu.pop().unwrap(), *value);
    }
    assert_eq!(cpu.sp, 0x100);
    assert_eq!(cpu.pop(), Err(Fault::Bus(0xFE, BusError::NoDevices)));
}

#[test]
fn stack_faults() {
    let mut cpu = cpu_with(vec![0xFE, 0x0C], 1);
    assert_eq!(cpu.pop(), Err(Fault::Execution(ExecutionFault::StackUnderflow)));
    cpu.sp = 0;
    assert_eq!(cpu.push(1), Err(Fault::Bus(0, BusError::ReadOnly)));
    cpu.sp = 0x300;
    assert_eq!(cpu.push(1), Err(Fault::Bus(0x300, BusError::NoDevices)));
}

#[test]
fn interrupt_pushes_registers_and_rei_restores_them() {
    // interrupt 1 jumps to 0x0010, where a REI stands
    let mut program = vec![0u8; 0x20];
    program[0] = 0xFF; // nop
    program[1] = 0x0C;
    program[2] = 0x00; // vector of interrupt 1: 0x0010
    program[3] = 0x10;
    program[0x10] = 0xD4; // rei
    program[0x11] = 0x0C;
    let mut cpu = cpu_with(program, 0x100);
    cpu.r1 = 1;
    cpu.r6 = 6;
    cpu.flags.set(Flag::G, true);
    let mut pins = Pins::new();
    pins.irq = IrqPin::On(1);
    let pins = cpu.tick(pins).unwrap();
    assert_eq!(pins.irq, IrqPin::Off);
    assert_eq!(cpu.pc, 0x10);
    assert_eq!(cpu.sp, 0x110);
    cpu.r1 = 0xAAAA;
    cpu.flags = Flags::empty();
    cpu.tick(pins).unwrap();
    assert_eq!(cpu.pc, 0);
    assert_eq!(cpu.sp, 0x100);
    assert_eq!(cpu.r1, 1);
    assert_eq!(cpu.r6, 6);
    assert!(cpu.flags.contains(Flag::G));
}

#[test]
fn interrupt_without_vector_runs_the_instruction() {
    let mut cpu = cpu_with(vec![0xFF, 0x0C, 0x00, 0x00, 0x00, 0x00], 0x100);
    let mut pins = Pins::new();
    pins.irq = IrqPin::On(1);
    let pins = cpu.tick(pins).unwrap();
    assert_eq!(pins.irq, IrqPin::Off);
    assert_eq!(cpu.pc, 2);
    assert_eq!(cpu.sp, 0x100);
}

#[test]
fn long_address_sets_the_dword_flag() {
    // ld r1, $0x00104 in the twenty-bit form: nibble 0, low word 0x0104
    let mut cpu = cpu_with(vec![0x81, 0x08, 0x00, 0x01, 0x04], 0x100);
    cpu.map.write(0x104, 0xBEEF);
    cpu.tick(Pins::new()).unwrap();
    assert_eq!(cpu.r1, 0xBEEF);
    assert!(cpu.flags.contains(Flag::D));
    assert_eq!(cpu.pc, 5);
}

#[test]
fn decode_and_execution_faults() {
    let mut cpu = cpu_with(vec![0xC0, 0x0C], 0x100);
    assert_eq!(cpu.tick(Pins::new()), Err(Fault::InvalidOpcode(0xC0)));
    // mov r10, 1: no such register
    let mut cpu = cpu_with(vec![0x00, 0x90, 0x01], 0x100);
    assert_eq!(cpu.tick(Pins::new()), Err(Fault::Execution(ExecutionFault::InvalidRegister)));
    // mod r1, 0
    let mut cpu = cpu_with(vec![0x1B, 0x00, 0x00], 0x100);
    assert_eq!(cpu.tick(Pins::new()), Err(Fault::Execution(ExecutionFault::DivisionByZero)));
    // fetch outside every device
    let mut cpu = cpu_with(vec![0xFF, 0x0C], 0x100);
    cpu.pc = 0x80;
    assert_eq!(cpu.tick(Pins::new()), Err(Fault::Bus(0x80, BusError::NoDevices)));
    // st r1, $0: the program memory cannot be written
    let mut cpu = cpu_with(vec![0x85, 0x00, 0x00], 0x100);
    assert_eq!(cpu.tick(Pins::new()), Err(Fault::Bus(0, BusError::ReadOnly)));
}

#[test]
fn extension_instructions() {
    let run_one = |program: Vec<u8>, r1: u16, r2: u16| {
        let mut cpu = cpu_with(program, 0x100);
        cpu.r1 = r1;
        cpu.r2 = r2;
        cpu.tick(Pins::new()).unwrap();
        cpu
    };
    assert_eq!(run_one(vec![0x15, 0x04, 0x0F, 0xF0], 0x1234, 0).r1, 0x0230); // and
    assert_eq!(run_one(vec![0x16, 0x00, 0x0F], 0x1230, 0).r1, 0x123F); // or
    assert_eq!(run_one(vec![0x57, 0x00, 0x01], 0xFF00, 0x0FF0).r1, 0xF0F0); // xor r1, r2
    assert_eq!(run_one(vec![0x18, 0x00, 0x04], 0x1234, 0).r1, 0x2340); // lsh
    assert_eq!(run_one(vec![0x18, 0x00, 0x10], 0x1234, 0).r1, 0); // lsh by 16
    assert_eq!(run_one(vec![0x19, 0x00, 0x04], 0x1234, 0).r1, 0x0123); // rsh
    let product = run_one(vec![0x1A, 0x04, 0x01, 0x00], 0x0123, 0); // mul by 256
    assert_eq!(product.r1, 0x2300);
    assert!(product.flags.contains(Flag::O));
    let product = run_one(vec![0x5A, 0x00, 0x01], 6, 7); // mul r1, r2
    assert_eq!(product.r1, 42);
    assert!(!product.flags.contains(Flag::O));
    assert_eq!(run_one(vec![0x1B, 0x00, 0x07], 30, 0).r1, 2); // mod
}

#[test]
fn branches_on_two_flags() {
    let branch = |opcode: u8, flag: Option<Flag>| {
        let mut cpu = cpu_with(vec![opcode, 0x00, 0x09], 0x100);
        if let Some(flag) = flag {
            cpu.flags.set(flag, true);
        }
        cpu.tick(Pins::new()).unwrap();
        cpu.pc
    };
    assert_eq!(branch(0x9C, Some(Flag::G)), 9); // bge
    assert_eq!(branch(0x9C, Some(Flag::Z)), 9);
    assert_eq!(branch(0x9C, Some(Flag::L)), 3);
    assert_eq!(branch(0x9D, Some(Flag::L)), 9); // ble
    assert_eq!(branch(0x9D, Some(Flag::Z)), 9);
    assert_eq!(branch(0x9D, None), 3);
}

#[test]
fn compare_sets_exactly_one_flag() {
    for (a, b) in [(0u16, 0u16), (1, 2), (2, 1), (0xFFFF, 0), (0, 0xFFFF), (0xFFFF, 0xFFFF)] {
        // cmp r1, r2
        let mut cpu = cpu_with(vec![0x48, 0x00, 0x01], 0x100);
        cpu.r1 = a;
        cpu.r2 = b;
        cpu.flags = Flags::all();
        cpu.tick(Pins::new()).unwrap();
        assert_eq!(cpu.flags.contains(Flag::Z), a == b);
        assert_eq!(cpu.flags.contains(Flag::L), a < b);
        assert_eq!(cpu.flags.contains(Flag::G), a > b);
        assert!(cpu.flags.contains(Flag::O));
    }
}

#[test]
fn flags_as_a_word() {
    let mut flags = Flags::empty();
    assert_eq!(flags.bits(), 0);
    flags.set(Flag::Z, true);
    flags.set(Flag::L, true);
    assert_eq!(flags.bits(), 0b0100_0001);
    assert_eq!(Flags::from_bits(0b0100_0001), Some(flags));
    assert_eq!(Flags::all().bits(), 0b1110_0011);
    assert_eq!(Flags::from_bits(0b0000_0100), None);
    assert_eq!(Flags::from_bits(0x100), None);
    assert_eq!(Flags::from_bits(0b1110_0011), Some(Flags::all()));
}

#[test]
fn bus_asks_devices_in_order() {
    let mut first = Ram::new(0x10, 0x20);
    first.memory[0] = 0xAA;
    let mut second = Ram::new(0x40, 0x50);
    second.memory[0] = 0x12;
    second.memory[1] = 0x34;
    let mut map = DeviceMap::new();
    map.add(AnyDevice::Ram(first));
    map.add(AnyDevice::Ram(second));
    assert!(matches!(map.read(0x40), DeviceMapResult::Served(0x1234)));
    assert!(matches!(map.read_byte(0x41), DeviceMapResult::Served(0x34)));
    assert!(matches!(map.write(0x42, 0xBEEF), DeviceMapResult::Served(())));
    assert!(matches!(map.write_byte(0x44, 0x7F), DeviceMapResult::Served(())));
    assert!(matches!(map.read(0x42), DeviceMapResult::Served(0xBEEF)));
    assert!(matches!(map.read_byte(0x44), DeviceMapResult::Served(0x7F)));
    match &map.devices[0] {
        AnyDevice::Ram(ram) => {
            assert_eq!(ram.memory[0], 0xAA);
            assert!(ram.memory[1..].iter().all(|byte| *byte == 0));
        }
        _ => panic!("the first device is the first memory"),
    }
    assert!(matches!(map.read(0x30), DeviceMapResult::NoDevices));
    assert!(matches!(map.read_byte(0x30), DeviceMapResult::NoDevices));
    assert!(matches!(map.write(0x30, 1), DeviceMapResult::NoDevices));
    assert!(matches!(map.write_byte(0x30, 1), DeviceMapResult::NoDevices));
}

#[test]
fn bus_first_owner_wins() {
    let mut map = DeviceMap::new();
    map.add(AnyDevice::Rom(Rom::new(vec![1, 2, 3, 4], 0x10, 4)));
    map.add(AnyDevice::Ram(Ram::new(0x10, 0x20)));
    assert!(matches!(map.read(0x10), DeviceMapResult::Served(0x0102)));
    assert!(matches!(map.write(0x10, 5), DeviceMapResult::Error(DeviceResponse::ReadOnly)));
    assert!(matches!(map.write(0x14, 5), DeviceMapResult::Served(())));
    // the last byte of a device has no byte behind it for a word
    assert!(matches!(map.read(0x13), DeviceMapResult::Error(DeviceResponse::InvalidAddress)));
}

#[test]
fn rom_is_padded_and_cut_to_its_size() {
    let rom = Rom::new(vec![1, 2], 0x100, 4);
    assert_eq!(rom.memory, vec![1, 2, 0, 0]);
    assert_eq!((rom.start, rom.end), (0x100, 0x103));
    let rom = Rom::new(vec![1, 2, 3, 4, 5], 0, 3);
    assert_eq!(rom.memory, vec![1, 2, 3]);
    assert_eq!(rom.read_byte(2), DeviceResponse::Served(3));
    assert_eq!(rom.read_byte(3), DeviceResponse::NotMyAddress);
    assert_eq!(rom.get_name(), "ROM");
    assert_eq!(rom.get_memory(), vec![1, 2, 3]);
}

#[test]
fn ram_reads_what_was_written() {
    let mut ram = Ram::new(0x10, 0x14);
    assert_eq!(ram.memory, vec![0; 5]);
    assert_eq!(ram.write(0x11, 0xABCD), DeviceResponse::Served(()));
    assert_eq!(ram.memory, vec![0, 0xAB, 0xCD, 0, 0]);
    assert_eq!(ram.read(0x11), DeviceResponse::Served(0xABCD));
    assert_eq!(ram.read_byte(0x12), DeviceResponse::Served(0xCD));
    assert_eq!(ram.write_byte(0x13, 9), DeviceResponse::Served(()));
    assert_eq!(ram.read(0x12), DeviceResponse::Served(0xCD09));
    assert_eq!(ram.read(0x13), DeviceResponse::Served(0x0900));
    // the last address is served as a byte; a word there has no second byte
    assert_eq!(ram.write_byte(0x14, 7), DeviceResponse::Served(()));
    assert_eq!(ram.read_byte(0x14), DeviceResponse::Served(7));
    assert_eq!(ram.read(0x14), DeviceResponse::InvalidAddress);
    assert_eq!(ram.write(0x14, 1), DeviceResponse::InvalidAddress);
    assert_eq!(ram.read(0x15), DeviceResponse::NotMyAddress);
    assert_eq!(ram.read_byte(0x15), DeviceResponse::NotMyAddress);
    assert_eq!(ram.write_byte(0x15, 1), DeviceResponse::NotMyAddress);
    assert_eq!(ram.read(0x0F), DeviceResponse::NotMyAddress);
    assert_eq!(ram.memory, vec![0, 0xAB, 0xCD, 9, 7]);
    assert_eq!(ram.get_name(), "RAM");
    ram.set_name(String::from("Stack"));
    assert_eq!(ram.get_name(), "Stack");
}

#[test]
fn fresh_ram_reads_zero_in_its_whole_range() {
    let ram = Ram::new(0x20, 0x28);
    for addr in 0x20..=0x28 {
        assert_eq!(ram.read_byte(addr), DeviceResponse::Served(0));
    }
    let single = Ram::new(5, 5);
    assert_eq!(single.memory, vec![0]);
    assert_eq!(single.read_byte(5), DeviceResponse::Served(0));
}

#[test]
fn second_device_takes_a_word_up_to_its_last_address() {
    let mut first = Ram::new(0x10, 0x20);
    first.memory[3] = 0x77;
    let mut map = DeviceMap::new();
    map.add(AnyDevice::Ram(first));
    map.add(AnyDevice::Ram(Ram::new(0x40, 0x50)));
    assert!(matches!(map.write(0x4F, 0xBEEF), DeviceMapResult::Served(())));
    assert!(matches!(map.read(0x4F), DeviceMapResult::Served(0xBEEF)));
    assert!(matches!(map.read_byte(0x50), DeviceMapResult::Served(0xEF)));
    match (&map.devices[0], &map.devices[1]) {
        (AnyDevice::Ram(a), AnyDevice::Ram(b)) => {
            let mut untouched = vec![0u8; 0x11];
            untouched[3] = 0x77;
            assert_eq!(a.memory, untouched);
            assert_eq!(b.memory[0x0F], 0xBE);
            assert_eq!(b.memory[0x10], 0xEF);
        }
        _ => panic!("both devices are memories"),
    }
}

#[test]
fn machine_holds_the_vectors_in_a_whole_memory() {
    let cpu = build(vec![0xFE, 0x0C], vec![1, 2, 3], 0x4402, false);
    match &cpu.map.devices[1] {
        AnyDevice::Ram(vectors) => {
            assert_eq!(vectors.memory.len(), 0x401);
            assert_eq!(&vectors.memory[..4], &[1, 2, 3, 0]);
        }
        _ => panic!("the second device holds the vectors"),
    }
    assert!(matches!(cpu.map.read_byte(0x0400), DeviceMapResult::Served(0)));
    assert!(matches!(cpu.map.read_byte(0x4401), DeviceMapResult::Served(0)));
    assert!(matches!(cpu.map.read_byte(0x4C03), DeviceMapResult::Served(0)));
    assert!(matches!(cpu.map.read(0x4402), DeviceMapResult::Served(0xFE0C)));
}

#[test]
fn bios_shows_the_keyboard() {
    let mut bios = BIOS::new(0x4C04);
    assert_eq!((bios.start, bios.end), (0x4C04, 0x4D03));
    assert_eq!(bios.read(0x4C04 + 60), DeviceResponse::Served(0));
    bios.set_keyboard_buffer(65).unwrap();
    assert_eq!(bios.read(0x4C04 + 60), DeviceResponse::Served(65));
    assert_eq!(bios.read(0x4C04 + 67), DeviceResponse::Served(65));
    assert_eq!(bios.read(0x4C04 + 68), DeviceResponse::NotMyAddress);
    assert_eq!(bios.read_byte(0x4C04 + 61), DeviceResponse::Served(65));
    assert_eq!(bios.read_byte(0x4C04 + 60), DeviceResponse::Served(4));
    bios.set_keyboard_flag(KeyboardFlag::CONTROL, true).unwrap();
    bios.set_keyboard_flag(KeyboardFlag::LSHIFT, true).unwrap();
    assert_eq!(bios.read(0x4C04 + 22), DeviceResponse::Served(0b110));
    bios.set_keyboard_flag(KeyboardFlag::CONTROL, false).unwrap();
    assert_eq!(bios.read(0x4C04 + 29), DeviceResponse::Served(0b010));
    assert_eq!(bios.write(0x4C04, 1), DeviceResponse::ReadOnly);
    assert_eq!(bios.write_byte(0x4D03, 1), DeviceResponse::ReadOnly);
    assert_eq!(bios.write(0x4D04, 1), DeviceResponse::NotMyAddress);
    assert_eq!(bios.get_name(), "BIOS");
}

#[test]
fn screen_cells() {
    let mut vga = VGA::new(0xA000);
    assert_eq!(vga.memory.len(), 2000);
    assert_eq!((vga.start, vga.end), (0xA000, 0xAF9F));
    assert_eq!(vga.read(0xA000), DeviceResponse::Served(0x0700));
    assert_eq!(vga.write(0xA002, 0x1F41), DeviceResponse::Served(()));
    assert_eq!(vga.memory[1].character, 0x41);
    assert_eq!(vga.memory[1].color, VGAColor::White);
    assert_eq!(vga.memory[1].background, VGAColor::Blue);
    assert_eq!(vga.read(0xA002), DeviceResponse::Served(0x1F41));
    assert_eq!(vga.read_byte(0xA002), DeviceResponse::Served(0x1F));
    assert_eq!(vga.read_byte(0xA003), DeviceResponse::Served(0x41));
    // a word begins where a cell begins
    assert_eq!(vga.write(0xA001, 0), DeviceResponse::InvalidAddress);
    assert_eq!(vga.read(0xA001), DeviceResponse::InvalidAddress);
    assert_eq!(vga.write_byte(0xA001, 0x42), DeviceResponse::Served(()));
    assert_eq!(vga.memory[0].character, 0x42);
    assert_eq!(vga.write_byte(0xA000, 0x4E), DeviceResponse::Served(()));
    assert_eq!(vga.memory[0].color, VGAColor::Yellow);
    assert_eq!(vga.memory[0].background, VGAColor::Red);
    assert_eq!(vga.read_byte(0xA000), DeviceResponse::Served(0x4E));
    assert_eq!(vga.read_byte(0xA001), DeviceResponse::Served(0x42));
    assert_eq!(vga.read(0xA000), DeviceResponse::Served(0x4E42));
    // every address of the range is served, the last one too
    assert_eq!(vga.write_byte(0xAF9F, 0x21), DeviceResponse::Served(()));
    assert_eq!(vga.read_byte(0xAF9F), DeviceResponse::Served(0x21));
    assert_eq!(vga.read(0xAF9E), DeviceResponse::Served(0x0721));
    assert_eq!(vga.memory[1999].character, 0x21);
    assert_eq!(vga.read(0xAFA0), DeviceResponse::NotMyAddress);
    assert_eq!(vga.read_byte(0xAFA0), DeviceResponse::NotMyAddress);
    assert_eq!(vga.write_byte(0x9FFF, 1), DeviceResponse::NotMyAddress);
    assert_eq!(vga.get_memory().len(), 4000);
    assert_eq!(&vga.get_memory()[..4], &[0x4E, 0x42, 0x1F, 0x41]);
    assert_eq!(vga.get_name(), "VGA");
}

#[test]
fn images_are_taken_apart() {
    assert!(matches!(load_image(&vec![0, 1, 0, 0, 0]), Err(ImageError::NoHeader)));
    assert!(matches!(load_image(&vec![0, 1, 0, 0, 0, 0]), Err(ImageError::Truncated)));
    let mut bytes = vec![0, 2, 0, 1, 0x44, 0x03, 0xFE, 0x0C, 0x99];
    bytes.extend(vec![7u8; 510]);
    let image = load_image(&bytes).unwrap();
    assert_eq!(image.entry, 0x4403);
    assert_eq!(image.program, vec![0x99, 0xFE, 0x0C]);
    assert_eq!(image.vectors, vec![7u8; 510]);
    bytes.pop();
    assert!(matches!(load_image(&bytes), Err(ImageError::Truncated)));
}

#[test]
fn keys() {
    assert_eq!(key_to_char(Key::Space), Some(32));
    assert_eq!(key_to_char(Key::Enter), Some(10));
    assert_eq!(key_to_char(Key::Digit(9)), Some(57));
    assert_eq!(key_to_char(Key::Letter(0)), Some(65));
    assert_eq!(key_to_char(Key::Letter(25)), Some(90));
    assert_eq!(key_to_char(Key::Letter(26)), None);
    assert_eq!(key_to_char(Key::Ctrl), None);
    assert_eq!(decide_key(KeyEvent::Down(Key::Ctrl)), KeyAction::Flag(KeyboardFlag::CONTROL, true));
    assert_eq!(decide_key(KeyEvent::Up(Key::Shift)), KeyAction::Flag(KeyboardFlag::LSHIFT, false));
    assert_eq!(decide_key(KeyEvent::Down(Key::Letter(1))), KeyAction::Buffer(66, true));
    assert_eq!(decide_key(KeyEvent::Up(Key::Letter(1))), KeyAction::Buffer(0, false));
}

#[test]
fn add_and_sub_wrap_around() {
    // add r1, 2 with r1 = 0xFFFE
    let mut cpu = cpu_with(vec![0x10, 0x00, 0x02], 0x100);
    cpu.r1 = 0xFFFE;
    cpu.tick(Pins::new()).unwrap();
    assert_eq!(cpu.r1, 0x0000);
    assert!(cpu.flags.contains(Flag::O));
    // sub r1, 1 with r1 = 0
    let mut cpu = cpu_with(vec![0x11, 0x00, 0x01], 0x100);
    cpu.r1 = 0x0000;
    cpu.tick(Pins::new()).unwrap();
    assert_eq!(cpu.r1, 0xFFFF);
    assert!(cpu.flags.contains(Flag::O));
    // an addition that fits clears the flag again
    let mut cpu = cpu_with(vec![0x10, 0x00, 0x02], 0x100);
    cpu.r1 = 0xFFFD;
    cpu.flags.set(Flag::O, true);
    cpu.tick(Pins::new()).unwrap();
    assert_eq!(cpu.r1, 0xFFFF);
    assert!(!cpu.flags.contains(Flag::O));
}

#[test]
fn a_failed_instruction_stops_where_it_failed() {
    // psh r1 with the stack in the program memory: nothing is written, nothing moves
    let mut cpu = cpu_with(vec![0x43, 0x0C], 0);
    cpu.r1 = 7;
    assert_eq!(cpu.tick(Pins::new()), Err(Fault::Bus(0, BusError::ReadOnly)));
    assert_eq!((cpu.sp, cpu.pc, cpu.r1), (0, 0, 7));
    assert_eq!(cpu.ir, 0x430C);
}

#[test]
fn keys_reach_the_bios_of_the_machine() {
    let mut cpu = build(vec![0xFE, 0x0C], vec![], 0x4402, false);
    let pins = take_key(&mut cpu, Pins::new(), KeyEvent::Down(Key::Letter(2))).unwrap();
    assert_eq!(pins.irq, IrqPin::On(1));
    assert!(matches!(cpu.map.read(0x4C04 + 60), DeviceMapResult::Served(67)));
    let pins = take_key(&mut cpu, Pins::new(), KeyEvent::Up(Key::Letter(2))).unwrap();
    assert_eq!(pins.irq, IrqPin::Off);
    assert!(matches!(cpu.map.read(0x4C04 + 60), DeviceMapResult::Served(0)));
    let pins = take_key(&mut cpu, Pins::new(), KeyEvent::Down(Key::Shift)).unwrap();
    assert_eq!(pins.irq, IrqPin::Off);
    assert!(matches!(cpu.map.read(0x4C04 + 22), DeviceMapResult::Served(0b10)));
    take_key(&mut cpu, Pins::new(), KeyEvent::Down(Key::Ctrl)).unwrap();
    take_key(&mut cpu, Pins::new(), KeyEvent::Up(Key::Shift)).unwrap();
    assert!(matches!(cpu.map.read(0x4C04 + 22), DeviceMapResult::Served(0b100)));
    // a processor without a BIOS at its place takes no key
    let mut bare = cpu_with(vec![0xFE, 0x0C], 0x100);
    assert!(take_key(&mut bare, Pins::new(), KeyEvent::Down(Key::Space)).is_err());
    assert_eq!(bare.map.devices.len(), 2);
}
