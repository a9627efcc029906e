use nes_core::cpu::{create_cpu, load_rom, Cpu};
use nes_core::engine::{count_cycles, skip_operand, CpuError};
use nes_core::machine::EngineState;
use nes_core::opcode::lookup;
use nes_core::rom::Rom;
use nes_core::status::Flag;

fn cpu_running(start: u16, program: &[u8]) -> Cpu {
    let mut cpu = create_cpu();
    let mut address = start;
    for byte in program {
        cpu.write_memory(address, *byte);
        address = address.wrapping_add(1);
    }
    cpu.program_pointer = start;
    cpu.stack_pointer = 0xFF;
    cpu
}

#[test]
fn load_immediate_then_break_halts_after_two_instructions() {
    let mut cpu = create_cpu();
    let rom = Rom { prog_rom: vec![0xA9, 0x05, 0x00], char_rom: vec![] };
    assert!(load_rom(&mut cpu, rom).is_ok());
    cpu.write_memory(0xFFFC, 0x00);
    cpu.write_memory(0xFFFD, 0xC0);
    cpu.reset();
    let report = cpu.run(100);
    assert_eq!(report.executed, 2);
    assert_eq!(report.outcome, Ok(EngineState::Halted));
    assert_eq!(cpu.register_a, 0x05);
    assert!(!nes_core::status::test(cpu.status, Flag::Zero));
    assert!(!nes_core::status::test(cpu.status, Flag::Negative));
    assert_eq!(cpu.state, EngineState::Halted);
    assert_eq!(cpu.program_pointer, 0xC003);
    assert_eq!(cpu.cycles, 9);
}

#[test]
fn a_step_advances_past_the_operand() {
    let mut cpu = cpu_running(0x0200, &[0xA9, 0x05, 0xAD, 0x00, 0x03, 0xAA]);
    assert_eq!(cpu.step(), Ok(EngineState::Running));
    assert_eq!(cpu.program_pointer, 0x0202);
    assert_eq!(cpu.cycles, 2);
    assert_eq!(cpu.step(), Ok(EngineState::Running));
    assert_eq!(cpu.program_pointer, 0x0205);
    assert_eq!(cpu.cycles, 6);
    assert_eq!(cpu.step(), Ok(EngineState::Running));
    assert_eq!(cpu.program_pointer, 0x0206);
    assert_eq!(cpu.cycles, 8);
}

#[test]
fn a_jump_is_not_advanced_further() {
    let mut cpu = cpu_running(0x0200, &[0x4C, 0x00, 0x90]);
    assert_eq!(cpu.step(), Ok(EngineState::Running));
    assert_eq!(cpu.program_pointer, 0x9000);
    assert_eq!(cpu.cycles, 3);
}

#[test]
fn a_jump_to_its_own_operand_counts_as_no_jump() {
    let mut cpu = cpu_running(0x0200, &[0x4C, 0x01, 0x02]);
    assert_eq!(cpu.step(), Ok(EngineState::Running));
    assert_eq!(cpu.program_pointer, 0x0203);
}

#[test]
fn the_program_counter_wraps_at_the_end_of_memory() {
    let mut cpu = cpu_running(0xFFFF, &[0xA9, 0x42]);
    assert_eq!(cpu.read_memory(0x0000), 0x42);
    assert_eq!(cpu.step(), Ok(EngineState::Running));
    assert_eq!(cpu.register_a, 0x42);
    assert_eq!(cpu.program_pointer, 0x0001);
}

#[test]
fn unimplemented_opcode_is_reported_with_its_address() {
    let mut cpu = cpu_running(0x0200, &[0x02]);
    cpu.register_a = 9;
    assert_eq!(cpu.step(), Err(CpuError::UnimplementedOpcode { code: 0x02, address: 0x0200 }));
    assert_eq!(cpu.state, EngineState::Halted);
    assert_eq!(cpu.program_pointer, 0x0201);
    assert_eq!(cpu.cycles, 0);
    assert_eq!(cpu.register_a, 9);
}

#[test]
fn a_halted_engine_does_not_step() {
    let mut cpu = cpu_running(0x0200, &[0xA9, 0x05]);
    cpu.state = EngineState::Halted;
    assert_eq!(cpu.step(), Ok(EngineState::Halted));
    assert_eq!(cpu.program_pointer, 0x0200);
    assert_eq!(cpu.register_a, 0);
    assert_eq!(cpu.cycles, 0);
    let report = cpu.run(10);
    assert_eq!(report.executed, 0);
    assert_eq!(report.outcome, Ok(EngineState::Halted));
}

#[test]
fn break_is_executed_and_halts() {
    let mut cpu = cpu_running(0x0200, &[0x00]);
    assert_eq!(cpu.step(), Ok(EngineState::Halted));
    assert_eq!(cpu.state, EngineState::Halted);
    assert_eq!(cpu.program_pointer, 0x0201);
    assert_eq!(cpu.cycles, 7);
    assert_eq!(cpu.stack_pointer, 0xFF);
}

#[test]
fn a_run_stops_at_its_limit() {
    let mut cpu = cpu_running(0x0200, &[0xE8, 0x4C, 0x00, 0x02]);
    let report = cpu.run(10);
    assert_eq!(report.executed, 10);
    assert_eq!(report.outcome, Ok(EngineState::Running));
    assert_eq!(cpu.register_x, 5);
    assert_eq!(cpu.program_pointer, 0x0200);
    assert_eq!(cpu.cycles, 25);
    let report = cpu.run(0);
    assert_eq!(report.executed, 0);
    assert_eq!(report.outcome, Ok(EngineState::Running));
    assert_eq!(cpu.register_x, 5);
}

#[test]
fn a_run_reports_the_unimplemented_opcode() {
    let mut cpu = cpu_running(0x0200, &[0xA9, 0x01, 0xE8, 0xFF]);
    let report = cpu.run(100);
    assert_eq!(report.executed, 2);
    assert_eq!(
        report.outcome,
        Err(CpuError::UnimplementedOpcode { code: 0xFF, address: 0x0203 })
    );
    assert_eq!(cpu.state, EngineState::Halted);
    assert_eq!(cpu.register_a, 1);
    assert_eq!(cpu.register_x, 1);
}

#[test]
fn a_run_with_limit_zero_does_not_look_at_the_next_byte() {
    let mut cpu = cpu_running(0x0200, &[0xFF]);
    let report = cpu.run(0);
    assert_eq!(report.executed, 0);
    assert_eq!(report.outcome, Ok(EngineState::Running));
    assert_eq!(cpu.state, EngineState::Running);
    assert_eq!(cpu.program_pointer, 0x0200);
}

#[test]
fn running_in_two_parts_is_running_at_once() {
    let program = [0xA2, 0x03, 0xCA, 0xD0, 0xFD, 0xA9, 0x7F, 0x69, 0x01, 0x00];
    let mut whole = cpu_running(0x0200, &program);
    let mut parts = cpu_running(0x0200, &program);
    let report = whole.run(100);
    let first = parts.run(4);
    let second = parts.run(96);
    assert_eq!(first.executed + second.executed, report.executed);
    assert_eq!(report.executed, 10);
    assert_eq!(second.outcome, report.outcome);
    assert_eq!(parts.register_a, whole.register_a);
    assert_eq!(parts.register_x, whole.register_x);
    assert_eq!(parts.status, whole.status);
    assert_eq!(parts.program_pointer, whole.program_pointer);
    assert_eq!(parts.cycles, whole.cycles);
    assert_eq!(whole.register_a, 0x80);
    assert_eq!(whole.register_x, 0x00);
    assert_eq!(whole.status, 0xE0);
}

#[test]
fn absolute_x_costs_one_cycle_more_across_a_page() {
    let mut cpu = cpu_running(0x0200, &[0xBD, 0xFF, 0x12]);
    cpu.register_x = 0x00;
    assert_eq!(cpu.extra_cycles(&lookup(0xBD)), 0);
    cpu.step().unwrap();
    assert_eq!(cpu.cycles, 4);
    let mut cpu = cpu_running(0x0200, &[0xBD, 0xFF, 0x12]);
    cpu.register_x = 0x01;
    cpu.step().unwrap();
    assert_eq!(cpu.cycles, 5);
}

#[test]
fn absolute_y_costs_one_cycle_more_across_a_page() {
    let mut cpu = cpu_running(0x0200, &[0xB9, 0x80, 0x12]);
    cpu.register_y = 0x7F;
    cpu.step().unwrap();
    assert_eq!(cpu.cycles, 4);
    let mut cpu = cpu_running(0x0200, &[0xB9, 0x80, 0x12]);
    cpu.register_y = 0x80;
    cpu.step().unwrap();
    assert_eq!(cpu.cycles, 5);
}

#[test]
fn indirect_y_costs_one_cycle_more_across_a_page() {
    let mut cpu = cpu_running(0x0200, &[0xB1, 0x10]);
    cpu.write_memory(0x0010, 0xF0);
    cpu.write_memory(0x0011, 0x20);
    cpu.register_y = 0x0F;
    cpu.step().unwrap();
    assert_eq!(cpu.cycles, 5);
    let mut cpu = cpu_running(0x0200, &[0xB1, 0x10]);
    cpu.write_memory(0x0010, 0xF0);
    cpu.write_memory(0x0011, 0x20);
    cpu.register_y = 0x10;
    cpu.step().unwrap();
    assert_eq!(cpu.cycles, 6);
}

#[test]
fn stores_and_shifts_pay_no_page_crossing() {
    let mut cpu = cpu_running(0x0200, &[0x9D, 0xFF, 0x12, 0x1E, 0xFF, 0x12]);
    cpu.register_x = 0x01;
    cpu.step().unwrap();
    assert_eq!(cpu.cycles, 5);
    cpu.step().unwrap();
    assert_eq!(cpu.cycles, 12);
}

#[test]
fn a_branch_costs_one_cycle_when_taken_and_two_across_a_page() {
    let mut not_taken = cpu_running(0x02F0, &[0x90, 0x04]);
    not_taken.status = 0x21;
    not_taken.step().unwrap();
    assert_eq!(not_taken.cycles, 2);
    assert_eq!(not_taken.program_pointer, 0x02F2);

    let mut taken = cpu_running(0x02F0, &[0x90, 0x04]);
    taken.step().unwrap();
    assert_eq!(taken.cycles, 3);
    assert_eq!(taken.program_pointer, 0x02F6);

    let mut crossing = cpu_running(0x02F0, &[0x90, 0x10]);
    crossing.step().unwrap();
    assert_eq!(crossing.cycles, 4);
    assert_eq!(crossing.program_pointer, 0x0302);

    let mut backward = cpu_running(0x0300, &[0x90, 0xFC]);
    backward.step().unwrap();
    assert_eq!(backward.cycles, 4);
    assert_eq!(backward.program_pointer, 0x02FE);
}

#[test]
fn a_crossing_branch_costs_one_cycle_more_than_the_same_branch_within_a_page() {
    for code in [0x10u8, 0x30, 0x50, 0x70, 0x90, 0xB0, 0xD0, 0xF0] {
        let status = match code {
            0x30 => 0x80,
            0x70 => 0x40,
            0xB0 => 0x01,
            0xF0 => 0x02,
            _ => 0x00,
        };
        let mut near = cpu_running(0x02F0, &[code, 0x04]);
        near.status = status;
        near.step().unwrap();
        let mut far = cpu_running(0x02F0, &[code, 0x20]);
        far.status = status;
        far.step().unwrap();
        assert_eq!(near.cycles, lookup(code).cycles as u64 + 1);
        assert_eq!(far.cycles, lookup(code).cycles as u64 + 2);
    }
}

#[test]
fn a_branch_to_its_own_operand_is_moved_on_like_a_branch_not_taken() {
    let mut cpu = cpu_running(0x0200, &[0x90, 0xFF]);
    cpu.step().unwrap();
    assert_eq!(cpu.program_pointer, 0x0202);
    assert_eq!(cpu.cycles, 3);
}

#[test]
fn a_subroutine_returns_to_the_instruction_after_the_call() {
    for (call, target) in [
        (0x0200u16, 0x9000u16),
        (0x02FD, 0x90FF),
        (0x02FE, 0x0400),
        (0x02FF, 0xC5F5),
        (0x8000, 0x02FF),
    ] {
        let mut cpu = create_cpu();
        cpu.stack_pointer = 0xFF;
        cpu.program_pointer = call;
        cpu.write_memory(call, 0x20);
        cpu.write_memory(call.wrapping_add(1), (target & 0xFF) as u8);
        cpu.write_memory(call.wrapping_add(2), (target >> 8) as u8);
        cpu.write_memory(target, 0x60);
        assert_eq!(cpu.step(), Ok(EngineState::Running));
        assert_eq!(cpu.program_pointer, target);
        assert_eq!(cpu.stack_pointer, 0xFD);
        assert_eq!(cpu.step(), Ok(EngineState::Running));
        assert_eq!(cpu.program_pointer, call.wrapping_add(3));
        assert_eq!(cpu.stack_pointer, 0xFF);
        assert_eq!(cpu.cycles, 12);
    }
}

#[test]
fn a_call_to_its_own_operand_counts_as_no_jump() {
    let mut cpu = cpu_running(0x0200, &[0x20, 0x01, 0x02, 0xEA]);
    assert_eq!(cpu.step(), Ok(EngineState::Running));
    assert_eq!(cpu.program_pointer, 0x0203);
    assert_eq!(cpu.stack_pointer, 0xFD);
    assert_eq!(cpu.read_memory(0x01FF), 0x02);
    assert_eq!(cpu.read_memory(0x01FE), 0x02);
}

#[test]
fn nested_subroutines_return_in_order() {
    let mut cpu = cpu_running(0x0200, &[0x20, 0x00, 0x03, 0x00]);
    cpu.write_memory(0x0300, 0x20);
    cpu.write_memory(0x0301, 0x00);
    cpu.write_memory(0x0302, 0x04);
    cpu.write_memory(0x0303, 0xE8);
    cpu.write_memory(0x0304, 0x60);
    cpu.write_memory(0x0400, 0xC8);
    cpu.write_memory(0x0401, 0x60);
    let report = cpu.run(100);
    assert_eq!(report.executed, 7);
    assert_eq!(report.outcome, Ok(EngineState::Halted));
    assert_eq!(cpu.register_x, 1);
    assert_eq!(cpu.register_y, 1);
    assert_eq!(cpu.program_pointer, 0x0204);
    assert_eq!(cpu.stack_pointer, 0xFF);
}

#[test]
fn a_countdown_loop_runs_to_its_end() {
    let mut cpu = cpu_running(0x0200, &[0xA2, 0x03, 0xCA, 0xD0, 0xFD, 0x00]);
    let report = cpu.run(100);
    assert_eq!(report.executed, 8);
    assert_eq!(report.outcome, Ok(EngineState::Halted));
    assert_eq!(cpu.register_x, 0);
    assert_eq!(cpu.cycles, 2 + 3 * 2 + 2 * 3 + 2 + 7);
}

#[test]
fn memory_is_stored_and_loaded_back() {
    let mut cpu = cpu_running(
        0x0200,
        &[0xA9, 0x37, 0x8D, 0x00, 0x03, 0xA9, 0x00, 0xAE, 0x00, 0x03, 0x00],
    );
    let report = cpu.run(100);
    assert_eq!(report.executed, 5);
    assert_eq!(cpu.read_memory(0x0300), 0x37);
    assert_eq!(cpu.register_x, 0x37);
    assert_eq!(cpu.register_a, 0x00);
}

#[test]
fn the_cycle_counter_wraps() {
    assert_eq!(count_cycles(u64::MAX, 2, 0), 1);
    assert_eq!(count_cycles(u64::MAX - 8, 7, 2), 0);
    assert_eq!(count_cycles(10, 4, 1), 15);
    let mut cpu = cpu_running(0x0200, &[0xEA]);
    cpu.cycles = u64::MAX;
    cpu.step().unwrap();
    assert_eq!(cpu.cycles, 1);
}

#[test]
fn skip_operand_moves_by_length_minus_one() {
    assert_eq!(skip_operand(0x0201, 1), 0x0201);
    assert_eq!(skip_operand(0x0201, 2), 0x0202);
    assert_eq!(skip_operand(0x0201, 3), 0x0203);
    assert_eq!(skip_operand(0xFFFF, 3), 0x0001);
    assert_eq!(skip_operand(0x0201, 0), 0x0200);
    assert_eq!(skip_operand(0x0000, 0), 0xFFFF);
}

#[test]
fn perform_executes_advances_and_counts() {
    let mut cpu = cpu_running(0x0200, &[0x42]);
    cpu.perform(&lookup(0xA9));
    assert_eq!(cpu.register_a, 0x42);
    assert_eq!(cpu.program_pointer, 0x0201);
    assert_eq!(cpu.cycles, 2);
}

#[test]
fn every_implemented_opcode_steps_without_error() {
    for code in 0..=255u8 {
        let mut cpu = cpu_running(0x0200, &[code, 0x10, 0x03]);
        let result = cpu.step();
        if lookup(code).is_implemented() {
            assert!(result.is_ok());
            assert!(cpu.cycles >= lookup(code).cycles as u64);
            assert!(cpu.cycles <= lookup(code).cycles as u64 + 2);
        } else {
            assert_eq!(result, Err(CpuError::UnimplementedOpcode { code, address: 0x0200 }));
        }
    }
}
