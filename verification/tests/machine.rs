use chippers_core::devices::{Timer, TimerState};
use chippers_core::instructions::{Instruction, QuirkMode};
use chippers_core::interpreter::{Interpreter, MachineError, TimerSelector};

fn fresh(mode: QuirkMode) -> Interpreter {
    Interpreter::new(&[], mode).unwrap()
}

#[test]
fn new_machine_loads_font_and_program() {
    let machine = Interpreter::new(&[0xAB, 0xCD], QuirkMode::Legacy).unwrap();
    assert_eq!(machine.ram.read(0x000), 0xF0);
    assert_eq!(machine.ram.read(0x005), 0x20);
    assert_eq!(machine.ram.read(0x04F), 0x80);
    assert_eq!(machine.ram.read(0x050), 0x00);
    assert_eq!(machine.ram.read(0x200), 0xAB);
    assert_eq!(machine.ram.read(0x201), 0xCD);
    assert_eq!(machine.ram.read(0x202), 0x00);
    assert_eq!(machine.program_counter, 0x200);
    assert_eq!(machine.index_register, 0);
    for register in 0..16 {
        assert_eq!(machine.variable_registers.get(register), 0);
    }
}

#[test]
fn new_machine_rejects_oversized_program() {
    let program = vec![0u8; 4096 - 0x200 + 1];
    let result = Interpreter::new(&program, QuirkMode::Legacy);
    assert!(matches!(result, Err(MachineError::ProgramTooLarge)));
    let largest = vec![0u8; 4096 - 0x200];
    assert!(Interpreter::new(&largest, QuirkMode::Legacy).is_ok());
}

#[test]
fn add_with_variable_sets_overflow_flag() {
    let mut machine = fresh(QuirkMode::Modern);
    machine.variable_registers.set(0, 0xFF);
    machine.variable_registers.set(1, 0x01);
    machine
        .execute(
            Instruction::AddWithVariable {
                register_x: 0,
                register_y: 1,
            },
            0,
        )
        .unwrap();
    assert_eq!(machine.variable_registers.get(0), 0x00);
    assert_eq!(machine.variable_registers.get(15), 1);
}

#[test]
fn add_with_variable_clears_flag_without_overflow() {
    let mut machine = fresh(QuirkMode::Modern);
    machine.variable_registers.set(0, 0x10);
    machine.variable_registers.set(1, 0x20);
    machine.variable_registers.set(15, 0xEE);
    machine
        .execute(
            Instruction::AddWithVariable {
                register_x: 0,
                register_y: 1,
            },
            0,
        )
        .unwrap();
    assert_eq!(machine.variable_registers.get(0), 0x30);
    assert_eq!(machine.variable_registers.get(15), 0);
}

#[test]
fn sub_with_variable_reports_borrow() {
    let mut machine = fresh(QuirkMode::Modern);
    machine.variable_registers.set(0, 0x05);
    machine.variable_registers.set(1, 0x09);
    machine
        .execute(
            Instruction::SubWithVariable {
                register_x: 0,
                register_y: 1,
            },
            0,
        )
        .unwrap();
    assert_eq!(machine.variable_registers.get(0), 0xFC);
    assert_eq!(machine.variable_registers.get(15), 0);
}

#[test]
fn sub_with_variable_not_borrow_flag() {
    let mut machine = fresh(QuirkMode::Modern);
    machine.variable_registers.set(0, 0x09);
    machine.variable_registers.set(1, 0x05);
    machine
        .execute(
            Instruction::SubWithVariable {
                register_x: 0,
                register_y: 1,
            },
            0,
        )
        .unwrap();
    assert_eq!(machine.variable_registers.get(0), 0x04);
    assert_eq!(machine.variable_registers.get(15), 1);
}

#[test]
fn sub_with_variable_not_reverses_operands() {
    let mut machine = fresh(QuirkMode::Modern);
    machine.variable_registers.set(0, 0x09);
    machine.variable_registers.set(1, 0x05);
    machine
        .execute(
            Instruction::SubWithVariableNot {
                register_x: 0,
                register_y: 1,
            },
            0,
        )
        .unwrap();
    assert_eq!(machine.variable_registers.get(0), 0xFC);
    assert_eq!(machine.variable_registers.get(15), 0);
}

#[test]
fn shift_left_legacy_copies_source_then_shifts() {
    let mut machine = fresh(QuirkMode::Legacy);
    machine.variable_registers.set(1, 0x81);
    machine
        .execute(
            Instruction::ShiftLeft {
                register_x: 0,
                register_y: Some(1),
            },
            0,
        )
        .unwrap();
    assert_eq!(machine.variable_registers.get(0), 0x02);
    assert_eq!(machine.variable_registers.get(15), 1);
}

#[test]
fn shift_right_modern_shifts_in_place() {
    let mut machine = fresh(QuirkMode::Modern);
    machine.variable_registers.set(0, 0x05);
    machine.variable_registers.set(1, 0xFF);
    machine
        .execute(
            Instruction::ShiftRight {
                register_x: 0,
                register_y: None,
            },
            0,
        )
        .unwrap();
    assert_eq!(machine.variable_registers.get(0), 0x02);
    assert_eq!(machine.variable_registers.get(15), 1);
}

#[test]
fn draw_clips_at_right_edge() {
    let mut machine = fresh(QuirkMode::Legacy);
    machine.index_register = 0x300;
    machine.ram.write(0x300, 0b11111111);
    machine.variable_registers.set(0, 62);
    machine.variable_registers.set(1, 0);
    machine
        .execute(
            Instruction::Draw {
                register_x: 0,
                register_y: 1,
                n: 1,
            },
            0,
        )
        .unwrap();
    let mut on_pixels = 0;
    for y in 0..32u8 {
        for x in 0..64u8 {
            if machine.screen.pixel(x, y) {
                on_pixels += 1;
            }
        }
    }
    assert_eq!(on_pixels, 2);
    assert!(machine.screen.pixel(62, 0));
    assert!(machine.screen.pixel(63, 0));
    assert_eq!(machine.variable_registers.get(15), 0);
}

#[test]
fn draw_wraps_start_coordinates_and_detects_collision() {
    let mut machine = fresh(QuirkMode::Legacy);
    machine.index_register = 0x300;
    machine.ram.write(0x300, 0b10000000);
    machine.variable_registers.set(0, 64);
    machine.variable_registers.set(1, 32);
    let draw = Instruction::Draw {
        register_x: 0,
        register_y: 1,
        n: 1,
    };
    machine.execute(draw, 0).unwrap();
    assert!(machine.screen.pixel(0, 0));
    assert_eq!(machine.variable_registers.get(15), 0);
    machine.execute(draw, 0).unwrap();
    assert!(!machine.screen.pixel(0, 0));
    assert_eq!(machine.variable_registers.get(15), 1);
}

#[test]
fn draw_clips_at_bottom_edge() {
    let mut machine = fresh(QuirkMode::Legacy);
    machine.index_register = 0x300;
    machine.ram.write(0x300, 0b10000000);
    machine.ram.write(0x301, 0b10000000);
    machine.ram.write(0x302, 0b10000000);
    machine.variable_registers.set(0, 0);
    machine.variable_registers.set(1, 31);
    machine
        .execute(
            Instruction::Draw {
                register_x: 0,
                register_y: 1,
                n: 3,
            },
            0,
        )
        .unwrap();
    let mut on_pixels = 0;
    for y in 0..32u8 {
        for x in 0..64u8 {
            if machine.screen.pixel(x, y) {
                on_pixels += 1;
            }
        }
    }
    assert_eq!(on_pixels, 1);
    assert!(machine.screen.pixel(0, 31));
}

#[test]
fn clear_screen_turns_every_pixel_off() {
    let mut machine = fresh(QuirkMode::Legacy);
    machine.index_register = 0x000;
    machine.variable_registers.set(0, 0);
    machine
        .execute(
            Instruction::Draw {
                register_x: 0,
                register_y: 0,
                n: 5,
            },
            0,
        )
        .unwrap();
    assert!(machine.screen.pixel(0, 0));
    machine.execute(Instruction::ClearScreen, 0).unwrap();
    for y in 0..32u8 {
        for x in 0..64u8 {
            assert!(!machine.screen.pixel(x, y));
        }
    }
}

#[test]
fn wait_for_key_ignores_keys_held_before_the_wait() {
    // WaitForKey into V3, then ClearScreen.
    let mut machine = Interpreter::new(&[0xF3, 0x0A, 0x00, 0xE0], QuirkMode::Legacy).unwrap();
    machine.set_key_state(3, true);
    machine.step().unwrap();
    assert_eq!(machine.input_handler.waiting, Some(3));
    assert_eq!(machine.program_counter, 0x202);

    // A later simple hold of key 3 does not satisfy the wait.
    machine.set_key_state(3, false);
    machine.set_key_state(3, true);
    machine.step().unwrap();
    assert_eq!(machine.input_handler.waiting, Some(3));
    assert_eq!(machine.program_counter, 0x202);
    assert_eq!(machine.variable_registers.get(3), 0);

    // A press-then-release satisfies it and writes the key's value.
    machine.set_key_state(3, false);
    machine.step().unwrap();
    assert_eq!(machine.variable_registers.get(3), 3);
    assert_eq!(machine.input_handler.waiting, None);
    assert_eq!(machine.program_counter, 0x202);

    // Normal stepping resumes on the next call.
    machine.step().unwrap();
    assert_eq!(machine.program_counter, 0x204);
}

#[test]
fn wait_for_key_accepts_any_released_key() {
    let mut machine = Interpreter::new(&[0xF0, 0x0A], QuirkMode::Legacy).unwrap();
    machine.step().unwrap();
    assert_eq!(machine.input_handler.waiting, Some(0));
    machine.set_key_state(0xB, true);
    machine.step().unwrap();
    assert_eq!(machine.input_handler.waiting, Some(0));
    machine.set_key_state(0xB, false);
    machine.step().unwrap();
    assert_eq!(machine.variable_registers.get(0), 0xB);
    assert_eq!(machine.input_handler.waiting, None);
}

#[test]
fn skip_key_counts_only_currently_pressed() {
    let mut machine = fresh(QuirkMode::Legacy);
    machine.variable_registers.set(0, 5);
    machine.program_counter = 0x200;
    machine.set_key_state(5, true);
    machine
        .execute(Instruction::SkipKey { register: 0 }, 0)
        .unwrap();
    assert_eq!(machine.program_counter, 0x202);

    machine.set_key_state(5, false);
    machine
        .execute(Instruction::SkipKey { register: 0 }, 0)
        .unwrap();
    assert_eq!(machine.program_counter, 0x202);

    machine
        .execute(Instruction::SkipNotKey { register: 0 }, 0)
        .unwrap();
    assert_eq!(machine.program_counter, 0x204);
}

#[test]
fn already_pressed_counts_as_not_held_for_skips() {
    let mut machine = fresh(QuirkMode::Legacy);
    machine.variable_registers.set(0, 3);
    machine.set_key_state(3, true);
    machine
        .execute(Instruction::WaitForKey { register: 1 }, 0)
        .unwrap();
    // Key 3 is now AlreadyPressed: SkipKey does not take the skip.
    machine
        .execute(Instruction::SkipKey { register: 0 }, 0)
        .unwrap();
    assert_eq!(machine.program_counter, 0x200);
}

#[test]
fn timer_counts_sixty_ticks_to_zero() {
    let mut timer = Timer::new();
    timer.reset();
    assert_eq!(timer.value, 60);
    for _ in 0..59 {
        timer.decrement();
    }
    assert_eq!(timer.value, 1);
    assert!(matches!(timer.state, TimerState::AboveZero));
    timer.decrement();
    assert_eq!(timer.value, 0);
    assert!(matches!(timer.state, TimerState::Zero));
    timer.decrement();
    assert_eq!(timer.value, 0);
    assert!(matches!(timer.state, TimerState::Zero));
}

#[test]
fn tick_timer_drives_the_chosen_timer() {
    let mut machine = fresh(QuirkMode::Legacy);
    machine.variable_registers.set(0, 2);
    machine
        .execute(Instruction::SetDelayTimer { register: 0 }, 0)
        .unwrap();
    machine
        .execute(Instruction::SetSoundTimer { register: 0 }, 0)
        .unwrap();
    machine.tick_timer(TimerSelector::Delay);
    assert_eq!(machine.delay_timer.value, 1);
    assert_eq!(machine.sound_timer.value, 2);
    machine.tick_timer(TimerSelector::Sound);
    machine.tick_timer(TimerSelector::Sound);
    assert_eq!(machine.sound_timer.value, 0);
    assert!(matches!(machine.sound_timer.state, TimerState::Zero));
    machine
        .execute(Instruction::SetVariableWithDelayTimer { register: 4 }, 0)
        .unwrap();
    assert_eq!(machine.variable_registers.get(4), 1);
}

#[test]
fn store_load_round_trip_modern_keeps_index() {
    let mut machine = fresh(QuirkMode::Modern);
    machine.index_register = 0x300;
    for register in 0..5 {
        machine
            .variable_registers
            .set(register, 0x10 + register as u8);
    }
    machine
        .execute(Instruction::StoreRegisters { up_to_register: 4 }, 0)
        .unwrap();
    assert_eq!(machine.index_register, 0x300);
    for register in 0..5 {
        machine.variable_registers.set(register, 0);
    }
    machine
        .execute(Instruction::LoadIntoRegisters { up_to_register: 4 }, 0)
        .unwrap();
    assert_eq!(machine.index_register, 0x300);
    for register in 0..5 {
        assert_eq!(
            machine.variable_registers.get(register),
            0x10 + register as u8
        );
    }
}

#[test]
fn store_load_round_trip_legacy_advances_index() {
    let mut machine = fresh(QuirkMode::Legacy);
    machine.index_register = 0x300;
    for register in 0..5 {
        machine
            .variable_registers
            .set(register, 0x20 + register as u8);
    }
    machine
        .execute(Instruction::StoreRegisters { up_to_register: 4 }, 0)
        .unwrap();
    assert_eq!(machine.index_register, 0x305);
    machine.index_register = 0x300;
    for register in 0..5 {
        machine.variable_registers.set(register, 0);
    }
    machine
        .execute(Instruction::LoadIntoRegisters { up_to_register: 4 }, 0)
        .unwrap();
    assert_eq!(machine.index_register, 0x305);
    for register in 0..5 {
        assert_eq!(
            machine.variable_registers.get(register),
            0x20 + register as u8
        );
    }
    assert_eq!(machine.variable_registers.get(5), 0);
}

#[test]
fn store_decimal_conversion_writes_three_digits() {
    let mut machine = fresh(QuirkMode::Legacy);
    machine.index_register = 0x400;
    machine.variable_registers.set(2, 234);
    machine
        .execute(Instruction::StoreDecimalConversion { register: 2 }, 0)
        .unwrap();
    assert_eq!(machine.ram.read(0x400), 2);
    assert_eq!(machine.ram.read(0x401), 3);
    assert_eq!(machine.ram.read(0x402), 4);
}

#[test]
fn sprite_address_points_into_font() {
    let mut machine = fresh(QuirkMode::Legacy);
    machine.variable_registers.set(0, 0xA);
    machine
        .execute(Instruction::SetIndexWithSpriteAddress { register: 0 }, 0)
        .unwrap();
    assert_eq!(machine.index_register, 50);
    assert_eq!(machine.ram.read(50), 0xF0);
}

#[test]
fn call_and_return_use_the_stack() {
    let mut machine = Interpreter::new(&[0x23, 0x00], QuirkMode::Legacy).unwrap();
    machine.ram.write(0x300, 0x00);
    machine.ram.write(0x301, 0xEE);
    machine.step().unwrap();
    assert_eq!(machine.program_counter, 0x300);
    machine.step().unwrap();
    assert_eq!(machine.program_counter, 0x202);
}

#[test]
fn return_on_empty_stack_underflows() {
    let mut machine = fresh(QuirkMode::Legacy);
    let before_pc = machine.program_counter;
    assert_eq!(
        machine.execute(Instruction::Return, 0).unwrap_err(),
        MachineError::StackUnderflow
    );
    assert_eq!(machine.program_counter, before_pc);
}

#[test]
fn jump_offset_legacy_uses_v0() {
    let mut machine = fresh(QuirkMode::Legacy);
    machine.variable_registers.set(0, 4);
    machine.variable_registers.set(3, 9);
    machine
        .execute(
            Instruction::JumpOffset {
                base_address: 0x300,
                register: None,
            },
            0,
        )
        .unwrap();
    assert_eq!(machine.program_counter, 0x304);
}

#[test]
fn jump_offset_modern_uses_named_register() {
    let mut machine = fresh(QuirkMode::Modern);
    machine.variable_registers.set(3, 9);
    machine
        .execute(
            Instruction::JumpOffset {
                base_address: 0x345,
                register: Some(3),
            },
            0,
        )
        .unwrap();
    assert_eq!(machine.program_counter, 0x34E);
}

#[test]
fn skip_instructions_advance_by_two() {
    let mut machine = fresh(QuirkMode::Legacy);
    machine.variable_registers.set(0, 7);
    machine
        .execute(
            Instruction::SkipEqualByte {
                register: 0,
                byte: 7,
            },
            0,
        )
        .unwrap();
    assert_eq!(machine.program_counter, 0x202);
    machine
        .execute(
            Instruction::SkipEqualByte {
                register: 0,
                byte: 8,
            },
            0,
        )
        .unwrap();
    assert_eq!(machine.program_counter, 0x202);
    machine
        .execute(
            Instruction::SkipNotEqualByte {
                register: 0,
                byte: 8,
            },
            0,
        )
        .unwrap();
    assert_eq!(machine.program_counter, 0x204);
    machine.variable_registers.set(1, 7);
    machine
        .execute(
            Instruction::SkipEqualVariable {
                register_x: 0,
                register_y: 1,
            },
            0,
        )
        .unwrap();
    assert_eq!(machine.program_counter, 0x206);
    machine
        .execute(
            Instruction::SkipNotEqualVariable {
                register_x: 0,
                register_y: 1,
            },
            0,
        )
        .unwrap();
    assert_eq!(machine.program_counter, 0x206);
}

#[test]
fn logical_operations_combine_registers() {
    let mut machine = fresh(QuirkMode::Legacy);
    machine.variable_registers.set(0, 0b1100);
    machine.variable_registers.set(1, 0b1010);
    machine
        .execute(
            Instruction::Or {
                register_x: 0,
                register_y: 1,
            },
            0,
        )
        .unwrap();
    assert_eq!(machine.variable_registers.get(0), 0b1110);
    machine.variable_registers.set(0, 0b1100);
    machine
        .execute(
            Instruction::And {
                register_x: 0,
                register_y: 1,
            },
            0,
        )
        .unwrap();
    assert_eq!(machine.variable_registers.get(0), 0b1000);
    machine.variable_registers.set(0, 0b1100);
    machine
        .execute(
            Instruction::Xor {
                register_x: 0,
                register_y: 1,
            },
            0,
        )
        .unwrap();
    assert_eq!(machine.variable_registers.get(0), 0b0110);
}

#[test]
fn add_with_byte_wraps_without_flag() {
    let mut machine = fresh(QuirkMode::Legacy);
    machine.variable_registers.set(0, 0xFF);
    machine.variable_registers.set(15, 0x55);
    machine
        .execute(
            Instruction::AddWithByte {
                register: 0,
                byte: 0x02,
            },
            0,
        )
        .unwrap();
    assert_eq!(machine.variable_registers.get(0), 0x01);
    assert_eq!(machine.variable_registers.get(15), 0x55);
}

#[test]
fn random_and_masks_the_supplied_byte() {
    let mut machine = Interpreter::new(&[0xC0, 0x0F], QuirkMode::Legacy).unwrap();
    machine.step_with_random(0xAB).unwrap();
    assert_eq!(machine.variable_registers.get(0), 0x0B);
    assert_eq!(machine.program_counter, 0x202);
}

#[test]
fn machine_routine_is_a_no_op() {
    let mut machine = Interpreter::new(&[0x03, 0x45], QuirkMode::Legacy).unwrap();
    machine.step().unwrap();
    assert_eq!(machine.program_counter, 0x202);
    assert_eq!(machine.index_register, 0);
    assert_eq!(machine.variable_registers.get(0), 0);
}

#[test]
fn decode_failure_commits_nothing() {
    let mut machine = Interpreter::new(&[0x5A, 0xBF], QuirkMode::Legacy).unwrap();
    assert_eq!(machine.step().unwrap_err(), MachineError::DecodeFailed);
    assert_eq!(machine.program_counter, 0x200);
}

#[test]
fn fetch_past_memory_is_out_of_range() {
    let mut machine = fresh(QuirkMode::Legacy);
    machine.program_counter = 4095;
    assert_eq!(machine.step().unwrap_err(), MachineError::MemoryOutOfRange);
    assert_eq!(machine.program_counter, 4095);
}

#[test]
fn add_index_past_memory_is_out_of_range() {
    let mut machine = fresh(QuirkMode::Legacy);
    machine.index_register = 4095;
    machine.variable_registers.set(0, 10);
    assert_eq!(
        machine
            .execute(Instruction::AddIndexWithVariable { register: 0 }, 0)
            .unwrap_err(),
        MachineError::MemoryOutOfRange
    );
    assert_eq!(machine.index_register, 4095);
    machine.variable_registers.set(0, 0);
    machine
        .execute(Instruction::AddIndexWithVariable { register: 0 }, 0)
        .unwrap();
    assert_eq!(machine.index_register, 4095);
}

#[test]
fn draw_past_memory_commits_nothing() {
    let mut machine = fresh(QuirkMode::Legacy);
    machine.index_register = 4090;
    machine.variable_registers.set(15, 0x77);
    assert_eq!(
        machine
            .execute(
                Instruction::Draw {
                    register_x: 0,
                    register_y: 1,
                    n: 15,
                },
                0,
            )
            .unwrap_err(),
        MachineError::MemoryOutOfRange
    );
    assert_eq!(machine.variable_registers.get(15), 0x77);
    for y in 0..32u8 {
        for x in 0..64u8 {
            assert!(!machine.screen.pixel(x, y));
        }
    }
}

#[test]
fn store_registers_past_memory_is_out_of_range() {
    let mut machine = fresh(QuirkMode::Legacy);
    machine.index_register = 4090;
    assert_eq!(
        machine
            .execute(Instruction::StoreRegisters { up_to_register: 6 }, 0)
            .unwrap_err(),
        MachineError::MemoryOutOfRange
    );
    assert_eq!(machine.index_register, 4090);
    machine
        .execute(Instruction::StoreRegisters { up_to_register: 5 }, 0)
        .unwrap();
    assert_eq!(machine.index_register, 4096);
}

#[test]
fn store_decimal_past_memory_is_out_of_range() {
    let mut machine = fresh(QuirkMode::Legacy);
    machine.index_register = 4094;
    assert_eq!(
        machine
            .execute(Instruction::StoreDecimalConversion { register: 0 }, 0)
            .unwrap_err(),
        MachineError::MemoryOutOfRange
    );
}

#[test]
fn skip_key_with_out_of_range_register_value_fails() {
    let mut machine = fresh(QuirkMode::Legacy);
    machine.variable_registers.set(0, 0x20);
    assert_eq!(
        machine
            .execute(Instruction::SkipKey { register: 0 }, 0)
            .unwrap_err(),
        MachineError::MemoryOutOfRange
    );
    assert_eq!(machine.program_counter, 0x200);
}

#[test]
fn set_registers_and_index() {
    let mut machine = fresh(QuirkMode::Legacy);
    machine
        .execute(
            Instruction::SetWithByte {
                register: 2,
                byte: 0x99,
            },
            0,
        )
        .unwrap();
    assert_eq!(machine.variable_registers.get(2), 0x99);
    machine
        .execute(
            Instruction::SetWithVariable {
                register_x: 7,
                register_y: 2,
            },
            0,
        )
        .unwrap();
    assert_eq!(machine.variable_registers.get(7), 0x99);
    machine
        .execute(Instruction::SetIndexWithAddress { address: 0xABC }, 0)
        .unwrap();
    assert_eq!(machine.index_register, 0xABC);
}

#[test]
fn stepping_a_small_program_runs_it() {
    // V0 = 5; V1 = 3; V0 += V1; jump back over nothing.
    let program = [0x60, 0x05, 0x61, 0x03, 0x80, 0x14];
    let mut machine = Interpreter::new(&program, QuirkMode::Legacy).unwrap();
    machine.step().unwrap();
    machine.step().unwrap();
    machine.step().unwrap();
    assert_eq!(machine.variable_registers.get(0), 8);
    assert_eq!(machine.variable_registers.get(15), 0);
    assert_eq!(machine.program_counter, 0x206);
}
