use yucpu::common::instruction::Instruction;
use yucpu::fixed::bus::{DataBus, DataBusError};
use yucpu::fixed::registers::Registers;
use yucpu::fixed::vcpu::{DumpAction, Operation, VcpuFault, VCPU};

#[test]
fn test_bus_read() {
    let mut bus = DataBus::new();

    bus.memory[0x1234] = 0xAB;

    assert_eq!(bus.read_panic(0x1234), 0xAB);
}

#[test]
fn test_bus_write() {
    let mut bus = DataBus::new();

    bus.write_panic(0xABCD, &0xD0);

    assert_eq!(bus.memory[0xABCD], 0xD0);
}

#[test]
fn test_bus_reset() {
    let mut bus = DataBus::new();

    bus.memory[0xABCD] = 100;
    bus.memory[0x00] = 0xAA;

    bus.reset();

    assert_eq!(bus.memory, vec![0; 0xFFDD]);
}

#[test]
fn test_bus_mem_copy() {
    let mut bus = DataBus::new();
    let copy = vec![0x0A_u8, 0x0B_u8, 0x0C_u8, 0x0D_u8];

    bus.mem_copy(0xABCD, &copy);

    assert_eq!(bus.memory[0xABCD..0xABCD + 4], copy);
}

#[test]
fn cpu_mov_value() {
    let mut cpu = VCPU::new();

    cpu.load_program(vec![0xDA, 0xC1, 0x00, 0x00, 0x00, 0x05]).unwrap();
    cpu.run(1000).unwrap();

    let dump = cpu.dump_cpu(DumpAction::Struct).unwrap();

    assert_eq!(dump.registers.r1, 0x05);
}

#[test]
fn cpu_mov_register() {
    let mut cpu = VCPU::new();

    cpu.load_program(vec![0xDA, 0xC1, 0x09, 0x00, 0x00, 0x01]).unwrap();

    cpu.registers.r2 = 0x10;

    cpu.run(1000).unwrap();

    let dump = cpu.dump_cpu(DumpAction::Struct).unwrap();

    assert_eq!(dump.registers.r1, 0x10);
}

#[test]
fn cpu_ld_register() {
    let mut cpu = VCPU::new();

    cpu.load_program(vec![0xDA, 0xC1, 0x01, 0x00, 0x00, 0x01]).unwrap();

    cpu.data_bus.memory[0x10] = 0x00;
    cpu.data_bus.memory[0x11] = 0x50;
    cpu.registers.r2 = 0x10;

    cpu.run(1000).unwrap();

    let dump = cpu.dump_cpu(DumpAction::Struct).unwrap();

    assert_eq!(dump.registers.r1, 0x50);
}

#[test]
fn cpu_ld_address() {
    let mut cpu = VCPU::new();

    cpu.load_program(vec![0xDA, 0xC1, 0x02, 0x00, 0x0D, 0x07]).unwrap();

    cpu.data_bus.memory[0x0D07] = 0xBA;

    cpu.run(1000).unwrap();

    let dump = cpu.dump_cpu(DumpAction::Struct).unwrap();

    assert_eq!(dump.registers.r1, 0xBA);
}

#[test]
fn cpu_psh_value() {
    let mut cpu = VCPU::new();

    cpu.load_program(vec![0xDA, 0xC1, 0x03, 0x00, 0xAB, 0xCD]).unwrap();
    cpu.run(1000).unwrap();

    let dump = cpu.dump_cpu(DumpAction::Struct).unwrap();

    assert_eq!(dump.stack[0], 0xAB);
    assert_eq!(dump.stack[1], 0xCD);
}

#[test]
fn cpu_psh_register() {
    let mut cpu = VCPU::new();

    cpu.load_program(vec![0xDA, 0xC1, 0x04, 0x00, 0x00, 0x00]).unwrap();

    cpu.registers.r1 = 0x0D07;

    cpu.run(1000).unwrap();

    let dump = cpu.dump_cpu(DumpAction::Struct).unwrap();

    assert_eq!(dump.stack[0], 0x0D);
    assert_eq!(dump.stack[1], 0x07);
}

#[test]
fn cpu_psh_address() {
    let mut cpu = VCPU::new();

    cpu.load_program(vec![0xDA, 0xC1, 0x05, 0x00, 0xAB, 0xCD]).unwrap();

    cpu.data_bus.memory[0xABCD] = 0x0D;

    cpu.run(1000).unwrap();

    let dump = cpu.dump_cpu(DumpAction::Struct).unwrap();

    assert_eq!(dump.stack[0], 0x00);
    assert_eq!(dump.stack[1], 0x0D);
}

#[test]
fn cpu_pop_register() {
    let mut cpu = VCPU::new();

    cpu.load_program(vec![0xDA, 0xC1, 0x06, 0x00, 0x00, 0x00]).unwrap();

    cpu.data_bus.memory[0x0000] = 0x0D;
    cpu.data_bus.memory[0x0001] = 0x07;
    cpu.registers.sp = 0x02;

    cpu.run(1000).unwrap();

    let dump = cpu.dump_cpu(DumpAction::Struct).unwrap();

    assert_eq!(dump.registers.r1, 0x0D07);
}

#[test]
fn cpu_pop() {
    let mut cpu = VCPU::new();

    cpu.load_program(vec![0xDA, 0xC1, 0x07, 0x00, 0x00, 0x00]).unwrap();

    cpu.data_bus.memory[0x0000] = 0x0D;
    cpu.data_bus.memory[0x0001] = 0x07;
    cpu.registers.sp = 0x02;

    cpu.run(1000).unwrap();

    let dump = cpu.dump_cpu(DumpAction::Struct).unwrap();

    assert_eq!(dump.registers.r1, 0x00);
    assert_eq!(dump.stack.len(), 0x00);
    assert_eq!(dump.registers.sp, 0x00);
    assert_eq!(dump.memory.memory[0x0000], 0x00);
    assert_eq!(dump.memory.memory[0x0001], 0x00);
}

#[test]
fn cpu_lds() {
    let mut cpu = VCPU::new();

    cpu.load_program(vec![0xDA, 0xC1, 0x08, 0x01, 0xBE, 0xEF]).unwrap();

    cpu.data_bus.memory[0xBEEF] = 0x0D;
    cpu.data_bus.memory[0xBEF0] = 0x07;

    cpu.run(1000).unwrap();

    let dump = cpu.dump_cpu(DumpAction::Struct).unwrap();

    assert_eq!(dump.registers.r2, 0x0D07);
}

#[test]
fn cpu_st_address() {
    let mut cpu = VCPU::new();

    cpu.load_program(vec![0xDA, 0xC1, 0x10, 0x00, 0xAB, 0xCD]).unwrap();

    cpu.registers.r1 = 0x0D07;

    cpu.run(1000).unwrap();

    let dump = cpu.dump_cpu(DumpAction::Struct).unwrap();

    assert_eq!(dump.memory.memory[0xABCD], 0x0D);
    assert_eq!(dump.memory.memory[0xABCE], 0x07);
}

#[test]
fn cpu_stl_address() {
    let mut cpu = VCPU::new();

    cpu.load_program(vec![0xDA, 0xC1, 0x11, 0x00, 0xAB, 0xCD]).unwrap();

    cpu.registers.r1 = 0x0D07;

    cpu.run(1000).unwrap();

    let dump = cpu.dump_cpu(DumpAction::Struct).unwrap();

    assert_eq!(dump.memory.memory[0xABCD], 0x07);
    assert_eq!(dump.memory.memory[0xABCE], 0x00);
}

#[test]
fn cpu_sth_address() {
    let mut cpu = VCPU::new();

    cpu.load_program(vec![0xDA, 0xC1, 0x12, 0x00, 0xAB, 0xCD]).unwrap();

    cpu.registers.r1 = 0x0D07;

    cpu.run(1000).unwrap();

    let dump = cpu.dump_cpu(DumpAction::Struct).unwrap();

    assert_eq!(dump.memory.memory[0xABCD], 0x0D);
    assert_eq!(dump.memory.memory[0xABCE], 0x00);
}

#[test]
fn cpu_cmp_register_is_eq() {
    let mut cpu = VCPU::new();

    cpu.load_program(vec![0xDA, 0xC1, 0x20, 0x00, 0x00, 0x01]).unwrap();

    cpu.registers.r1 = 0x05;
    cpu.registers.r2 = 0x05;

    cpu.run(1000).unwrap();

    let dump = cpu.dump_cpu(DumpAction::Struct).unwrap();

    assert!(dump.registers.flags & (1 << 0) > 0); // EQ flag
    assert_eq!(dump.registers.flags & (1 << 5), 0); // GT flag
    assert_eq!(dump.registers.flags & (1 << 6), 0); // LT flag
}

#[test]
fn cpu_cmp_register_is_gt() {
    let mut cpu = VCPU::new();

    cpu.load_program(vec![0xDA, 0xC1, 0x20, 0x00, 0x00, 0x01]).unwrap();

    cpu.registers.r1 = 0x0A;
    cpu.registers.r2 = 0x05;

    cpu.run(1000).unwrap();

    let dump = cpu.dump_cpu(DumpAction::Struct).unwrap();

    assert_eq!(dump.registers.flags & (1 << 0), 0); // EQ flag
    assert!(dump.registers.flags & (1 << 5) > 0); // GT flag
    assert_eq!(dump.registers.flags & (1 << 6), 0); // LT flag
}

#[test]
fn cpu_cmp_register_is_lt() {
    let mut cpu = VCPU::new();

    cpu.load_program(vec![0xDA, 0xC1, 0x20, 0x00, 0x00, 0x01]).unwrap();

    cpu.registers.r1 = 0x05;
    cpu.registers.r2 = 0x0A;

    cpu.run(1000).unwrap();

    let dump = cpu.dump_cpu(DumpAction::Struct).unwrap();

    assert_eq!(dump.registers.flags & (1 << 0), 0); // EQ flag
    assert_eq!(dump.registers.flags & (1 << 5), 0); // GT flag
    assert!(dump.registers.flags & (1 << 6) > 0); // LT flag
}

#[test]
fn cpu_cmp_value_is_eq() {
    let mut cpu = VCPU::new();

    cpu.load_program(vec![0xDA, 0xC1, 0x21, 0x00, 0x00, 0x05]).unwrap();

    cpu.registers.r1 = 0x05;

    cpu.run(1000).unwrap();

    let dump = cpu.dump_cpu(DumpAction::Struct).unwrap();

    assert!(dump.registers.flags & (1 << 0) > 0); // EQ flag
    assert_eq!(dump.registers.flags & (1 << 5), 0); // GT flag
    assert_eq!(dump.registers.flags & (1 << 6), 0); // LT flag
}

#[test]
fn cpu_cmp_value_is_gt() {
    let mut cpu = VCPU::new();

    cpu.load_program(vec![0xDA, 0xC1, 0x21, 0x00, 0x00, 0x05]).unwrap();

    cpu.registers.r1 = 0x0A;

    cpu.run(1000).unwrap();

    let dump = cpu.dump_cpu(DumpAction::Struct).unwrap();

    assert_eq!(dump.registers.flags & (1 << 0), 0); // EQ flag
    assert!(dump.registers.flags & (1 << 5) > 0); // GT flag
    assert_eq!(dump.registers.flags & (1 << 6), 0); // LT flag
}

#[test]
fn cpu_cmp_value_is_lt() {
    let mut cpu = VCPU::new();

    cpu.load_program(vec![0xDA, 0xC1, 0x21, 0x00, 0x00, 0x0A]).unwrap();

    cpu.registers.r1 = 0x05;

    cpu.run(1000).unwrap();

    let dump = cpu.dump_cpu(DumpAction::Struct).unwrap();

    assert_eq!(dump.registers.flags & (1 << 0), 0); // EQ flag
    assert_eq!(dump.registers.flags & (1 << 5), 0); // GT flag
    assert!(dump.registers.flags & (1 << 6) > 0); // LT flag
}

#[test]
fn cpu_beq_branches() {
    let mut cpu = VCPU::new();

    cpu.load_program(vec![
        0xDA, 0xC1, 0x30, 0x00, 0xDA, 0xC5, 0xFF, 0xFF, 0xFF, 0xFF, 0xFE, 0xFE, 0xFF, 0xFF,
    ]).unwrap();

    cpu.registers.flags = 0b0000_0001;

    cpu.run(1000).unwrap();

    let dump = cpu.dump_cpu(DumpAction::Struct).unwrap();

    assert_eq!(dump.registers.pc, 0xDACE);
}

#[test]
fn cpu_beq_no_branch() {
    let mut cpu = VCPU::new();

    cpu.load_program(vec![
        0xDA, 0xC1, 0x30, 0x00, 0xDA, 0xC5, 0xFE, 0xFE, 0xFF, 0xFF,
    ]).unwrap();

    cpu.registers.flags = 0b0010_0000;

    cpu.run(1000).unwrap();

    let dump = cpu.dump_cpu(DumpAction::Struct).unwrap();

    assert_eq!(dump.registers.pc, 0xDACA);
}

#[test]
fn cpu_bgt_branches() {
    let mut cpu = VCPU::new();

    cpu.load_program(vec![
        0xDA, 0xC1, 0x31, 0x00, 0xDA, 0xC5, 0xFF, 0xFF, 0xFF, 0xFF, 0xFE, 0xFE, 0xFF, 0xFF,
    ]).unwrap();

    cpu.registers.flags = 0b0010_0000;

    cpu.run(1000).unwrap();

    let dump = cpu.dump_cpu(DumpAction::Struct).unwrap();

    assert_eq!(dump.registers.pc, 0xDACE);
}

#[test]
fn cpu_bgt_no_branch() {
    let mut cpu = VCPU::new();

    cpu.load_program(vec![
        0xDA, 0xC1, 0x31, 0x00, 0xDA, 0xC5, 0xFE, 0xFE, 0xFF, 0xFF,
    ]).unwrap();

    cpu.registers.flags = 0b1000_0000;

    cpu.run(1000).unwrap();

    let dump = cpu.dump_cpu(DumpAction::Struct).unwrap();

    assert_eq!(dump.registers.pc, 0xDACA);
}

#[test]
fn cpu_blt_branches() {
    let mut cpu = VCPU::new();

    cpu.load_program(vec![
        0xDA, 0xC1, 0x31, 0x00, 0xDA, 0xC5, 0xFF, 0xFF, 0xFF, 0xFF, 0xFE, 0xFE, 0xFF, 0xFF,
    ]).unwrap();

    cpu.registers.flags = 0b0100_0000;

    cpu.run(1000).unwrap();

    let dump = cpu.dump_cpu(DumpAction::Struct).unwrap();

    assert_eq!(dump.registers.pc, 0xDACE);
}

#[test]
fn cpu_blt_no_branch() {
    let mut cpu = VCPU::new();

    cpu.load_program(vec![
        0xDA, 0xC1, 0x31, 0x00, 0xDA, 0xC5, 0xFE, 0xFE, 0xFF, 0xFF,
    ]).unwrap();

    cpu.registers.flags = 0b0000_1000;

    cpu.run(1000).unwrap();

    let dump = cpu.dump_cpu(DumpAction::Struct).unwrap();

    assert_eq!(dump.registers.pc, 0xDACA);
}

#[test]
fn cpu_bne_branches() {
    let mut cpu = VCPU::new();

    cpu.load_program(vec![
        0xDA, 0xC1, 0x35, 0x00, 0xDA, 0xC5, 0xFF, 0xFF, 0xFF, 0xFF, 0xFE, 0xFE, 0xFF, 0xFF,
    ]).unwrap();

    cpu.registers.flags = 0b0000_0000;

    cpu.run(1000).unwrap();

    let dump = cpu.dump_cpu(DumpAction::Struct).unwrap();

    assert_eq!(dump.registers.pc, 0xDACE);
}

#[test]
fn cpu_bne_no_branch() {
    let mut cpu = VCPU::new();

    cpu.load_program(vec![
        0xDA, 0xC1, 0x35, 0x00, 0xDA, 0xC9, 0xFE, 0xFE, 0xFF, 0xFF, 0xFF, 0xFF, 0xFF, 0xFF,
    ]).unwrap();

    cpu.registers.flags = 0b0000_0001;

    cpu.run(1000).unwrap();

    let dump = cpu.dump_cpu(DumpAction::Struct).unwrap();

    assert_eq!(dump.registers.pc, 0xDACE);
}

#[test]
fn cpu_jmp() {
    let mut cpu = VCPU::new();

    cpu.load_program(vec![
        0xDA, 0xC1, 0x31, 0x00, 0xDA, 0xC5, 0xFE, 0xFE, 0xFF, 0xFF,
    ]).unwrap();

    cpu.run(1000).unwrap();

    let dump = cpu.dump_cpu(DumpAction::Struct).unwrap();

    assert_eq!(dump.registers.pc, 0xDACA);
}

#[test]
fn cpu_add_value() {
    let mut cpu = VCPU::new();

    cpu.load_program(vec![0xDA, 0xC1, 0x40, 0x00, 0x00, 0x05]).unwrap();

    cpu.registers.r1 = 0x06;

    cpu.run(1000).unwrap();

    let dump = cpu.dump_cpu(DumpAction::Struct).unwrap();

    assert_eq!(dump.registers.r1, 0x0B);
}

#[test]
fn cpu_sub_value() {
    let mut cpu = VCPU::new();

    cpu.load_program(vec![0xDA, 0xC1, 0x41, 0x00, 0x00, 0x05]).unwrap();

    cpu.registers.r1 = 0x06;

    cpu.run(1000).unwrap();

    let dump = cpu.dump_cpu(DumpAction::Struct).unwrap();

    assert_eq!(dump.registers.r1, 0x01);
}

#[test]
fn cpu_add_register() {
    let mut cpu = VCPU::new();

    cpu.load_program(vec![0xDA, 0xC1, 0x42, 0x00, 0x00, 0x01]).unwrap();

    cpu.registers.r1 = 0x06;
    cpu.registers.r2 = 0x05;

    cpu.run(1000).unwrap();

    let dump = cpu.dump_cpu(DumpAction::Struct).unwrap();

    assert_eq!(dump.registers.r1, 0x0B);
}

#[test]
fn cpu_sub_register() {
    let mut cpu = VCPU::new();

    cpu.load_program(vec![0xDA, 0xC1, 0x43, 0x00, 0x00, 0x01]).unwrap();

    cpu.registers.r1 = 0x06;
    cpu.registers.r2 = 0x05;

    cpu.run(1000).unwrap();

    let dump = cpu.dump_cpu(DumpAction::Struct).unwrap();

    assert_eq!(dump.registers.r1, 0x01);
}

#[test]
fn fixed_bus_results() {
    let mut bus = DataBus::new();
    assert_eq!(bus.memory.len(), 0xFFDD);
    assert_eq!(bus.write(0x10, &7), Ok(None));
    assert_eq!(bus.read(0x10), Ok(Some(7)));
    assert_eq!(bus.write(0x11, &9), Ok(None));
    assert_eq!(bus.read_short(0x10), Ok(Some(0x0709)));
    assert_eq!(bus.read_short_panic(0x10), 0x0709);
    assert_eq!(bus.read(0xFFDC), Ok(Some(0)));
    assert_eq!(bus.read(0xFFDD), Err(DataBusError::OutOfRange));
    assert_eq!(bus.read_short(0xFFDC), Err(DataBusError::OutOfRange));
    assert_eq!(bus.write(0xFFFF, &1), Err(DataBusError::OutOfRange));
}

#[test]
fn fixed_instruction_words() {
    let plain = Instruction::new(0x40, 2, 0x1234);
    assert_eq!((plain.opcode, plain.register, plain.data), (0x40, 2, 0x1234));
    assert!(plain.source.is_empty());
    let packed = Instruction::new_u8(0x40, 2, 0x12, 0x34);
    assert_eq!(packed.data, 0x1234);
    let read = Instruction::new_source(1, 2, 0xFF, 0xFE, vec![1, 2, 0xFF, 0xFE]);
    assert_eq!(read.data, 0xFFFE);
    assert_eq!(read.source, vec![1, 2, 0xFF, 0xFE]);
}

#[test]
fn fixed_cpu_call_and_ret() {
    let mut cpu = VCPU::new();
    // call 0xDAC9; hlt; ret
    cpu.load_program(vec![
        0xDA, 0xC1, 0x50, 0x00, 0xDA, 0xC9, 0xFE, 0xFE, 0xFF, 0xFF, 0x51, 0x00, 0x00, 0x00,
    ])
    .unwrap();
    cpu.run(1000).unwrap();
    assert_eq!(cpu.registers.sp, 0);
    assert_eq!(cpu.registers.pc, 0xDACE);
}

#[test]
fn fixed_cpu_faults() {
    let mut cpu = VCPU::new();
    assert_eq!(cpu.load_program(vec![0xDA]), Err(VcpuFault::EmptyProgram));
    assert_eq!(cpu.load_program(vec![0; 0x3000]), Err(VcpuFault::ProgramTooLarge));
    cpu.load_program(vec![0xDA, 0xC1, 0x99, 0x00, 0x00, 0x00]).unwrap();
    assert_eq!(cpu.run(10), Err(VcpuFault::UnknownOpcode(0x99)));
    cpu.load_program(vec![0xDA, 0xC1, 0x00, 0x09, 0x00, 0x00]).unwrap();
    assert_eq!(cpu.run(10), Err(VcpuFault::InvalidRegister));
    cpu.load_program(vec![0xDA, 0xC1, 0x40, 0x00, 0xFF, 0xFF]).unwrap();
    cpu.registers.r1 = 1;
    assert_eq!(cpu.run(10), Err(VcpuFault::Overflow));
    cpu.load_program(vec![0xDA, 0xC1, 0x41, 0x00, 0x00, 0x02]).unwrap();
    cpu.registers.r1 = 1;
    assert_eq!(cpu.run(10), Err(VcpuFault::Overflow));
    cpu.load_program(vec![0xDA, 0xC1, 0x02, 0x00, 0xFF, 0xFF]).unwrap();
    assert_eq!(cpu.run(10), Err(VcpuFault::OutOfRange));
    cpu.load_program(vec![0xDA, 0xC1, 0x07, 0x00, 0x00, 0x00]).unwrap();
    cpu.registers.sp = 0;
    assert_eq!(cpu.run(10), Err(VcpuFault::Overflow));
}

#[test]
fn fixed_cpu_runs_at_most_the_limit() {
    let mut cpu = VCPU::new();
    // jmp 0xDAC1
    cpu.load_program(vec![0xDA, 0xC1, 0x33, 0x00, 0xDA, 0xC1]).unwrap();
    assert_eq!(cpu.run(50), Ok(()));
    assert_eq!(cpu.registers.pc, 0xDAC1);
}

#[test]
fn fixed_cpu_reset_and_operations() {
    let mut cpu = VCPU::new();
    cpu.registers.r3 = 9;
    cpu.data_bus.memory[5] = 1;
    cpu.reset();
    assert_eq!(cpu.registers, Registers { pc: 0xDAC1, ..Registers::new() });
    assert_eq!(cpu.data_bus.memory[5], 0);
    let map = VCPU::fill_hashmap();
    assert_eq!(map.len(), 33);
    assert_eq!(map[&0x0A], Operation::MovValue);
    assert_eq!(map[&0xFE], Operation::Hlt);
    assert!(cpu.dump_cpu(DumpAction::File).is_none());
    *cpu.decode_register(7) = 0x55;
    assert_eq!(cpu.registers.sp, 0x55);
}

#[test]
fn fixed_cpu_stops_where_it_failed() {
    let mut cpu = VCPU::new();
    // mov r1, 5; mov r10, 6
    cpu.load_program(vec![0xDA, 0xC1, 0x00, 0x00, 0x00, 0x05, 0x00, 0x09, 0x00, 0x06]).unwrap();
    assert_eq!(cpu.run(10), Err(VcpuFault::InvalidRegister));
    assert_eq!(cpu.registers.r1, 5);
    assert_eq!(cpu.registers.pc, 0xDAC5);
}
