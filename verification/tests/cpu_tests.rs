use nes_core::cpu::{create_cpu, load_rom, LoadError};
use nes_core::machine::{
    EngineState, MEMORY_SIZE, PROGRAM_BASE, RESET_VECTOR, STACK_BASE, STACK_RESET,
};
use nes_core::rom::Rom;

#[test]
fn a_new_cpu_is_cleared_and_running() {
    let cpu = create_cpu();
    assert_eq!(cpu.program_pointer, 0);
    assert_eq!(cpu.stack_pointer, 0);
    assert_eq!(cpu.status, 0x20);
    assert_eq!(cpu.register_a, 0);
    assert_eq!(cpu.register_x, 0);
    assert_eq!(cpu.register_y, 0);
    assert_eq!(cpu.cycles, 0);
    assert_eq!(cpu.state, EngineState::Running);
    assert!(cpu.memory.iter().all(|byte| *byte == 0));
    assert_eq!(cpu.memory.len(), 65536);
}

#[test]
fn constants_have_their_documented_values() {
    assert_eq!(MEMORY_SIZE, 0x10000);
    assert_eq!(STACK_BASE, 0x0100);
    assert_eq!(STACK_RESET, 0xFF);
    assert_eq!(RESET_VECTOR, 0xFFFC);
    assert_eq!(PROGRAM_BASE, 0xC000);
}

#[test]
fn memory_reads_what_was_written() {
    let mut cpu = create_cpu();
    cpu.write_memory(0x0000, 0x11);
    cpu.write_memory(0x1234, 0x22);
    cpu.write_memory(0xFFFF, 0x33);
    assert_eq!(cpu.read_memory(0x0000), 0x11);
    assert_eq!(cpu.read_memory(0x1234), 0x22);
    assert_eq!(cpu.read_memory(0xFFFF), 0x33);
    assert_eq!(cpu.read_memory(0x1235), 0x00);
}

#[test]
fn words_are_little_endian() {
    let mut cpu = create_cpu();
    cpu.write_memory(0x0010, 0xCD);
    cpu.write_memory(0x0011, 0xAB);
    assert_eq!(cpu.read_16_bits(0x0010), 0xABCD);
}

#[test]
fn a_word_at_the_last_address_takes_its_high_byte_from_address_zero() {
    let mut cpu = create_cpu();
    cpu.write_memory(0xFFFF, 0x34);
    cpu.write_memory(0x0000, 0x12);
    assert_eq!(cpu.read_16_bits(0xFFFF), 0x1234);
}

#[test]
fn a_word_in_page_takes_its_high_byte_from_the_start_of_the_page() {
    let mut cpu = create_cpu();
    cpu.write_memory(0x02FF, 0x34);
    cpu.write_memory(0x0200, 0x12);
    cpu.write_memory(0x0300, 0x56);
    assert_eq!(cpu.read_16_bits_in_page(0x02FF), 0x1234);
    assert_eq!(cpu.read_16_bits(0x02FF), 0x5634);
    cpu.write_memory(0x0210, 0x78);
    cpu.write_memory(0x0211, 0x9A);
    assert_eq!(cpu.read_16_bits_in_page(0x0210), 0x9A78);
}

#[test]
fn reset_clears_registers_and_reads_the_vector() {
    let mut cpu = create_cpu();
    cpu.register_a = 1;
    cpu.register_x = 2;
    cpu.register_y = 3;
    cpu.stack_pointer = 0x42;
    cpu.status = 0xE5;
    cpu.cycles = 77;
    cpu.state = EngineState::Halted;
    cpu.write_memory(0xFFFC, 0x04);
    cpu.write_memory(0xFFFD, 0xC0);
    cpu.reset();
    assert_eq!(cpu.register_a, 0);
    assert_eq!(cpu.register_x, 0);
    assert_eq!(cpu.register_y, 0);
    assert_eq!(cpu.stack_pointer, 0xFF);
    assert_eq!(cpu.program_pointer, 0xC004);
    assert_eq!(cpu.state, EngineState::Running);
    assert_eq!(cpu.status, 0xE5);
    assert_eq!(cpu.cycles, 77);
    assert_eq!(cpu.read_memory(0xFFFC), 0x04);
}

#[test]
fn reset_with_an_empty_vector_starts_at_zero() {
    let mut cpu = create_cpu();
    cpu.program_pointer = 0x1234;
    cpu.reset();
    assert_eq!(cpu.program_pointer, 0x0000);
}

#[test]
fn reset_at_starts_at_the_given_address() {
    let mut cpu = create_cpu();
    cpu.register_a = 1;
    cpu.status = 0x65;
    cpu.state = EngineState::Halted;
    cpu.write_memory(0xFFFC, 0x04);
    cpu.write_memory(0xFFFD, 0xC0);
    cpu.reset_at(0xC000);
    assert_eq!(cpu.program_pointer, 0xC000);
    assert_eq!(cpu.register_a, 0);
    assert_eq!(cpu.stack_pointer, 0xFF);
    assert_eq!(cpu.status, 0x65);
    assert_eq!(cpu.state, EngineState::Running);
}

#[test]
fn push_writes_then_decrements() {
    let mut cpu = create_cpu();
    cpu.stack_pointer = 0xFF;
    cpu.stack_push(0xAB);
    assert_eq!(cpu.read_memory(0x01FF), 0xAB);
    assert_eq!(cpu.stack_pointer, 0xFE);
}

#[test]
fn pop_increments_then_reads() {
    let mut cpu = create_cpu();
    cpu.stack_pointer = 0xFD;
    cpu.write_memory(0x01FE, 0x5A);
    assert_eq!(cpu.stack_pop(), 0x5A);
    assert_eq!(cpu.stack_pointer, 0xFE);
}

#[test]
fn pushing_at_zero_wraps_to_0xff() {
    let mut cpu = create_cpu();
    cpu.stack_pointer = 0x00;
    cpu.stack_push(0x77);
    assert_eq!(cpu.read_memory(0x0100), 0x77);
    assert_eq!(cpu.stack_pointer, 0xFF);
    assert_eq!(cpu.stack_pop(), 0x77);
    assert_eq!(cpu.stack_pointer, 0x00);
}

#[test]
fn a_pushed_word_comes_back_from_two_pops() {
    let mut cpu = create_cpu();
    cpu.stack_pointer = 0xFF;
    cpu.stack_push_u16(0xBEEF);
    assert_eq!(cpu.read_memory(0x01FF), 0xBE);
    assert_eq!(cpu.read_memory(0x01FE), 0xEF);
    assert_eq!(cpu.stack_pointer, 0xFD);
    let low = cpu.stack_pop();
    let high = cpu.stack_pop();
    assert_eq!(u16::from_le_bytes([low, high]), 0xBEEF);
    assert_eq!(cpu.stack_pointer, 0xFF);
}

#[test]
fn a_pushed_word_comes_back_across_the_wraparound() {
    for start in [0x00u8, 0x01, 0x02, 0x80, 0xFE, 0xFF] {
        let mut cpu = create_cpu();
        cpu.stack_pointer = start;
        cpu.stack_push_u16(0x1234);
        assert_eq!(cpu.stack_pointer, start.wrapping_sub(2));
        let low = cpu.stack_pop();
        let high = cpu.stack_pop();
        assert_eq!((low, high), (0x34, 0x12));
        assert_eq!(cpu.stack_pointer, start);
        cpu.stack_push_u16(0xABCD);
        assert_eq!(cpu.stack_pop_u16(), 0xABCD);
        assert_eq!(cpu.stack_pointer, start);
    }
}

#[test]
fn a_word_pushed_at_zero_stays_in_the_stack_page() {
    let mut cpu = create_cpu();
    cpu.stack_pointer = 0x00;
    cpu.stack_push_u16(0xC0DE);
    assert_eq!(cpu.read_memory(0x0100), 0xC0);
    assert_eq!(cpu.read_memory(0x01FF), 0xDE);
    assert_eq!(cpu.read_memory(0x00FF), 0x00);
    assert_eq!(cpu.stack_pointer, 0xFE);
}

#[test]
fn a_program_is_copied_to_the_program_base() {
    let mut cpu = create_cpu();
    cpu.write_memory(0xBFFF, 0x11);
    cpu.write_memory(0xC003, 0x22);
    let rom = Rom { prog_rom: vec![0xA9, 0x05, 0x00], char_rom: vec![0xFF] };
    assert_eq!(load_rom(&mut cpu, rom), Ok(()));
    assert_eq!(cpu.read_memory(0xC000), 0xA9);
    assert_eq!(cpu.read_memory(0xC001), 0x05);
    assert_eq!(cpu.read_memory(0xC002), 0x00);
    assert_eq!(cpu.read_memory(0xC003), 0x22);
    assert_eq!(cpu.read_memory(0xBFFF), 0x11);
}

#[test]
fn a_program_that_fills_the_window_reaches_the_reset_vector() {
    let mut cpu = create_cpu();
    let mut program = vec![0xEA; 0x4000];
    program[0x3FFC] = 0x00;
    program[0x3FFD] = 0xC0;
    program[0x3FFF] = 0x99;
    assert!(load_rom(&mut cpu, Rom { prog_rom: program, char_rom: vec![] }).is_ok());
    assert_eq!(cpu.read_memory(0xFFFF), 0x99);
    cpu.reset();
    assert_eq!(cpu.program_pointer, 0xC000);
}

#[test]
fn a_program_that_is_too_large_is_refused() {
    let mut cpu = create_cpu();
    cpu.write_memory(0xC000, 0x42);
    let rom = Rom { prog_rom: vec![0xEA; 0x4001], char_rom: vec![] };
    assert_eq!(load_rom(&mut cpu, rom), Err(LoadError::ProgramTooLarge));
    assert_eq!(cpu.read_memory(0xC000), 0x42);
    assert_eq!(cpu.read_memory(0xC001), 0x00);
}

#[test]
fn an_empty_program_changes_nothing() {
    let mut cpu = create_cpu();
    cpu.write_memory(0xC000, 0x42);
    assert!(load_rom(&mut cpu, Rom { prog_rom: vec![], char_rom: vec![] }).is_ok());
    assert_eq!(cpu.read_memory(0xC000), 0x42);
}
