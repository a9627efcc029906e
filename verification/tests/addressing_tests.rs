use nes_core::addressing::{absolute_indexed, zero_page_indexed};
use nes_core::cpu::{create_cpu, Cpu};
use nes_core::opcode::AddressMode;

fn cpu_with(bytes: &[(u16, u8)]) -> Cpu {
    let mut cpu = create_cpu();
    for (address, data) in bytes {
        cpu.write_memory(*address, *data);
    }
    cpu
}

#[test]
fn modes_without_an_address_resolve_to_the_program_counter() {
    let mut cpu = create_cpu();
    cpu.program_pointer = 0x1234;
    assert_eq!(cpu.read_memory_mode(&AddressMode::Immediate), 0x1234);
    assert_eq!(cpu.read_memory_mode(&AddressMode::Implied), 0x1234);
    assert_eq!(cpu.read_memory_mode(&AddressMode::Accumulator), 0x1234);
    assert_eq!(cpu.read_memory_mode(&AddressMode::Relative), 0x1234);
}

#[test]
fn zero_page_is_the_operand_byte_zero_extended() {
    let mut cpu = cpu_with(&[(0x0200, 0x80)]);
    cpu.program_pointer = 0x0200;
    assert_eq!(cpu.read_memory_mode(&AddressMode::ZeroPage), 0x0080);
}

#[test]
fn zero_page_indexing_wraps_within_page_zero() {
    let mut cpu = cpu_with(&[(0x0200, 0xF0)]);
    cpu.program_pointer = 0x0200;
    cpu.register_x = 0x20;
    cpu.register_y = 0x0F;
    assert_eq!(cpu.read_memory_mode(&AddressMode::ZeroPageX), 0x0010);
    assert_eq!(cpu.read_memory_mode(&AddressMode::ZeroPageY), 0x00FF);
    assert_eq!(zero_page_indexed(0xFF, 0x01), 0x0000);
    assert_eq!(zero_page_indexed(0x80, 0x7F), 0x00FF);
}

#[test]
fn absolute_is_little_endian() {
    let mut cpu = cpu_with(&[(0x0200, 0x34), (0x0201, 0x12)]);
    cpu.program_pointer = 0x0200;
    assert_eq!(cpu.read_memory_mode(&AddressMode::Absolute), 0x1234);
}

#[test]
fn absolute_indexing_wraps_at_the_end_of_memory() {
    let mut cpu = cpu_with(&[(0x0200, 0xF0), (0x0201, 0xFF)]);
    cpu.program_pointer = 0x0200;
    cpu.register_x = 0x20;
    cpu.register_y = 0x05;
    assert_eq!(cpu.read_memory_mode(&AddressMode::AbsoluteX), 0x0010);
    assert_eq!(cpu.read_memory_mode(&AddressMode::AbsoluteY), 0xFFF5);
    assert_eq!(absolute_indexed(0xFFFF, 0x01), 0x0000);
    assert_eq!(absolute_indexed(0x12FF, 0xFF), 0x13FE);
}

#[test]
fn indirect_x_reads_its_pointer_from_page_zero() {
    let mut cpu = cpu_with(&[(0x0200, 0x20), (0x0024, 0x74), (0x0025, 0x20)]);
    cpu.program_pointer = 0x0200;
    cpu.register_x = 0x04;
    assert_eq!(cpu.read_memory_mode(&AddressMode::IndirectX), 0x2074);
}

#[test]
fn indirect_x_pointer_wraps_within_page_zero() {
    let mut cpu = cpu_with(&[(0x0200, 0xFE), (0x00FF, 0x34), (0x0000, 0x12), (0x0100, 0x99)]);
    cpu.program_pointer = 0x0200;
    cpu.register_x = 0x01;
    assert_eq!(cpu.read_memory_mode(&AddressMode::IndirectX), 0x1234);
    cpu.register_x = 0x03;
    cpu.write_memory(0x0001, 0x78);
    cpu.write_memory(0x0002, 0x56);
    assert_eq!(cpu.read_memory_mode(&AddressMode::IndirectX), 0x5678);
}

#[test]
fn indirect_y_adds_the_index_after_the_pointer() {
    let mut cpu = cpu_with(&[(0x0200, 0x86), (0x0086, 0x28), (0x0087, 0x40)]);
    cpu.program_pointer = 0x0200;
    cpu.register_y = 0x10;
    assert_eq!(cpu.base_address(&AddressMode::IndirectY), 0x4028);
    assert_eq!(cpu.read_memory_mode(&AddressMode::IndirectY), 0x4038);
}

#[test]
fn indirect_y_pointer_wraps_within_page_zero_and_sum_wraps_in_memory() {
    let mut cpu = cpu_with(&[(0x0200, 0xFF), (0x00FF, 0xFF), (0x0000, 0xFF), (0x0100, 0x12)]);
    cpu.program_pointer = 0x0200;
    cpu.register_y = 0x02;
    assert_eq!(cpu.base_address(&AddressMode::IndirectY), 0xFFFF);
    assert_eq!(cpu.read_memory_mode(&AddressMode::IndirectY), 0x0001);
}

#[test]
fn indirect_takes_the_high_byte_from_the_same_page() {
    let mut cpu = cpu_with(&[
        (0x0200, 0xFF),
        (0x0201, 0x30),
        (0x30FF, 0x80),
        (0x3000, 0x40),
        (0x3100, 0x50),
    ]);
    cpu.program_pointer = 0x0200;
    assert_eq!(cpu.read_memory_mode(&AddressMode::Indirect), 0x4080);
}

#[test]
fn indirect_inside_a_page_is_a_plain_pointer() {
    let mut cpu = cpu_with(&[(0x0200, 0x20), (0x0201, 0x01), (0x0120, 0xFC), (0x0121, 0xBA)]);
    cpu.program_pointer = 0x0200;
    assert_eq!(cpu.read_memory_mode(&AddressMode::Indirect), 0xBAFC);
}

#[test]
fn resolve_takes_the_operand_pointer_it_is_given() {
    let mut cpu = cpu_with(&[(0x0300, 0x34), (0x0301, 0x12)]);
    cpu.program_pointer = 0x0200;
    cpu.register_x = 1;
    assert_eq!(cpu.resolve(0x0300, &AddressMode::Absolute), 0x1234);
    assert_eq!(cpu.resolve(0x0300, &AddressMode::AbsoluteX), 0x1235);
    assert_eq!(cpu.resolve(0x0300, &AddressMode::ZeroPage), 0x0034);
    assert_eq!(cpu.resolve(0x0300, &AddressMode::Immediate), 0x0300);
    assert_eq!(cpu.program_pointer, 0x0200);
}

#[test]
fn page_is_crossed_when_the_high_byte_changes() {
    let mut cpu = cpu_with(&[(0x0200, 0xFF), (0x0201, 0x12)]);
    cpu.program_pointer = 0x0200;
    cpu.register_x = 0x01;
    cpu.register_y = 0x00;
    assert!(cpu.page_crossed(&AddressMode::AbsoluteX));
    assert!(!cpu.page_crossed(&AddressMode::AbsoluteY));
    cpu.register_x = 0x00;
    cpu.register_y = 0xFF;
    assert!(!cpu.page_crossed(&AddressMode::AbsoluteX));
    assert!(cpu.page_crossed(&AddressMode::AbsoluteY));
}

#[test]
fn indirect_y_crosses_from_the_dereferenced_base() {
    let mut cpu = cpu_with(&[(0x0200, 0x10), (0x0010, 0xF0), (0x0011, 0x20)]);
    cpu.program_pointer = 0x0200;
    cpu.register_y = 0x0F;
    assert!(!cpu.page_crossed(&AddressMode::IndirectY));
    cpu.register_y = 0x10;
    assert!(cpu.page_crossed(&AddressMode::IndirectY));
}

#[test]
fn other_modes_never_cross() {
    let mut cpu = cpu_with(&[(0x0200, 0xFF), (0x0201, 0xFF)]);
    cpu.program_pointer = 0x0200;
    cpu.register_x = 0xFF;
    cpu.register_y = 0xFF;
    for mode in [
        AddressMode::Immediate,
        AddressMode::Implied,
        AddressMode::Accumulator,
        AddressMode::Relative,
        AddressMode::ZeroPage,
        AddressMode::ZeroPageX,
        AddressMode::ZeroPageY,
        AddressMode::Absolute,
        AddressMode::Indirect,
        AddressMode::IndirectX,
    ] {
        assert!(!cpu.page_crossed(&mode));
    }
}

#[test]
fn wrapping_past_the_end_of_memory_counts_as_a_crossing() {
    let mut cpu = cpu_with(&[(0x0200, 0xFF), (0x0201, 0xFF)]);
    cpu.program_pointer = 0x0200;
    cpu.register_x = 0x01;
    assert_eq!(cpu.read_memory_mode(&AddressMode::AbsoluteX), 0x0000);
    assert!(cpu.page_crossed(&AddressMode::AbsoluteX));
}

#[test]
fn operand_is_the_accumulator_in_accumulator_mode() {
    let mut cpu = cpu_with(&[(0x0200, 0x42)]);
    cpu.program_pointer = 0x0200;
    cpu.register_a = 0x17;
    assert_eq!(cpu.read_operand(&AddressMode::Accumulator), 0x17);
    assert_eq!(cpu.read_operand(&AddressMode::Immediate), 0x42);
    cpu.write_operand(&AddressMode::Accumulator, 0x99);
    assert_eq!(cpu.register_a, 0x99);
    assert_eq!(cpu.read_memory(0x0200), 0x42);
    cpu.write_operand(&AddressMode::ZeroPage, 0x77);
    assert_eq!(cpu.read_memory(0x0042), 0x77);
}

#[test]
fn the_resolver_changes_nothing() {
    let mut cpu = cpu_with(&[(0x0200, 0x10), (0x0201, 0x20), (0x0010, 0x30), (0x0011, 0x40)]);
    cpu.program_pointer = 0x0200;
    cpu.register_x = 3;
    cpu.register_y = 4;
    let memory = cpu.memory;
    for mode in [
        AddressMode::ZeroPageX,
        AddressMode::AbsoluteY,
        AddressMode::Indirect,
        AddressMode::IndirectX,
        AddressMode::IndirectY,
    ] {
        cpu.read_memory_mode(&mode);
        cpu.page_crossed(&mode);
    }
    assert_eq!(cpu.program_pointer, 0x0200);
    assert_eq!(cpu.register_x, 3);
    assert_eq!(cpu.register_y, 4);
    assert!(cpu.memory == memory);
}
