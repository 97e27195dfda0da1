use chip_8::emulator::Emulator;
use chip_8::io::{WebIO, IO};
use chip_8::machine::{Input, Query};
use chip_8::{EmulatorError, Platform};

fn machine_on(platform: Platform, program: &[u8]) -> Emulator {
    Emulator::new(program.to_vec(), "test".to_string(), platform).unwrap()
}

fn machine(program: &[u8]) -> Emulator {
    machine_on(Platform::Chip8, program)
}

fn run_steps(emulator: &mut Emulator, steps: usize) {
    for _ in 0..steps {
        emulator.step(Input::idle()).unwrap();
    }
}

fn register(emulator: &Emulator, index: usize) -> u8 {
    emulator.memory().read_register(index)
}

fn lit(emulator: &Emulator) -> Vec<(usize, usize)> {
    let width = emulator.platform().width();
    let mut found = Vec::new();
    for (place, pixel) in emulator.display().pixels().iter().enumerate() {
        if *pixel {
            found.push((place % width, place / width));
        }
    }
    found
}

struct Keys {
    held: Vec<u8>,
    fresh: Vec<u8>,
}

impl IO for Keys {
    fn is_code_pressed(&self, code: u8) -> bool {
        self.held.contains(&code)
    }

    fn get_just_pressed(&self) -> Vec<u8> {
        self.fresh.clone()
    }
}

#[test]
fn new_machine_holds_the_program_at_its_start() {
    let emulator = machine(&[0x12, 0x34, 0x56]);
    assert_eq!(emulator.memory().size(), 4096);
    assert_eq!(emulator.memory().read_pc(), 0x200);
    assert_eq!(emulator.memory().read_u8(0x1FF), Ok(0));
    assert_eq!(emulator.memory().read_u8(0x200), Ok(0x12));
    assert_eq!(emulator.memory().read_u8(0x201), Ok(0x34));
    assert_eq!(emulator.memory().read_u8(0x202), Ok(0x56));
    assert_eq!(emulator.memory().read_u8(0x203), Ok(0));
    assert_eq!(emulator.memory().registers(), &[0u8; 16]);
    assert_eq!(emulator.memory().read_index_register(), 0);
    assert_eq!(emulator.clock().delay_timer(), 0);
    assert_eq!(emulator.clock().sound_timer(), 0);
    assert_eq!(emulator.waiting(), None);
    assert_eq!(emulator.platform(), Platform::Chip8);
    assert!(lit(&emulator).is_empty());
}

#[test]
fn program_that_fills_memory_fits() {
    let program = vec![0xAAu8; 4096 - 0x200];
    let emulator = Emulator::new(program, "full".to_string(), Platform::Chip8).unwrap();
    assert_eq!(emulator.memory().read_u8(4095), Ok(0xAA));
}

#[test]
fn program_too_large_is_out_of_bounds() {
    let program = vec![0u8; 4096 - 0x200 + 1];
    let result = Emulator::new(program, "large".to_string(), Platform::Chip8);
    assert_eq!(result.err(), Some(EmulatorError::OutOfBounds));
}

#[test]
fn render_context_shows_title_registers_and_pixels() {
    let mut emulator = Emulator::new(
        vec![0x63, 0x2A, 0xA2, 0x06, 0xD0, 0x01, 0x80],
        "IBM".to_string(),
        Platform::SuperChip,
    )
    .unwrap();
    run_steps(&mut emulator, 3);
    let context = emulator.get_render_context();
    assert_eq!(context.title, "IBM");
    assert_eq!(context.platform, Platform::SuperChip);
    assert_eq!(context.registries[3], 0x2A);
    assert_eq!(context.registries[0], 0);
    assert_eq!(context.pixels.len(), 128 * 64);
    assert!(context.pixels[0]);
    assert!(!context.pixels[1]);
    assert_eq!(context.pixel(0, 0), Some(true));
    assert_eq!(context.pixel(1, 0), Some(false));
    assert_eq!(context.pixel(127, 63), Some(false));
    assert_eq!(context.pixel(128, 0), None);
    assert_eq!(context.pixel(0, 64), None);
}

#[test]
fn add_immediate_wraps_without_flag() {
    let mut emulator = machine(&[0x6A, 0xFF, 0x7A, 0x02]);
    run_steps(&mut emulator, 2);
    assert_eq!(register(&emulator, 0xA), 0x01);
    assert_eq!(register(&emulator, 0xF), 0);
    assert_eq!(emulator.memory().read_pc(), 0x204);
}

#[test]
fn add_immediate_leaves_a_raised_flag() {
    let mut emulator = machine(&[0x6F, 0x01, 0x6A, 0xFF, 0x7A, 0x02]);
    run_steps(&mut emulator, 3);
    assert_eq!(register(&emulator, 0xA), 0x01);
    assert_eq!(register(&emulator, 0xF), 1);
}

#[test]
fn add_registers_sets_carry() {
    let mut emulator = machine(&[0x60, 0xFF, 0x61, 0x01, 0x80, 0x14]);
    run_steps(&mut emulator, 3);
    assert_eq!(register(&emulator, 0), 0x00);
    assert_eq!(register(&emulator, 1), 0x01);
    assert_eq!(register(&emulator, 0xF), 1);
}

#[test]
fn add_registers_without_carry_clears_flag() {
    let mut emulator = machine(&[0x6F, 0x01, 0x60, 0xFE, 0x61, 0x01, 0x80, 0x14]);
    run_steps(&mut emulator, 4);
    assert_eq!(register(&emulator, 0), 0xFF);
    assert_eq!(register(&emulator, 0xF), 0);
}

#[test]
fn add_into_flag_register_keeps_the_flag() {
    let mut emulator = machine(&[0x6F, 0xF0, 0x61, 0x20, 0x8F, 0x14]);
    run_steps(&mut emulator, 3);
    assert_eq!(register(&emulator, 0xF), 1);
}

#[test]
fn subtract_with_borrow_wraps_and_clears_flag() {
    let mut emulator = machine(&[0x60, 0x01, 0x61, 0x02, 0x80, 0x15]);
    run_steps(&mut emulator, 3);
    assert_eq!(register(&emulator, 0), 0xFF);
    assert_eq!(register(&emulator, 0xF), 0);
}

#[test]
fn subtract_without_borrow_sets_flag() {
    let mut emulator = machine(&[0x60, 0x05, 0x61, 0x05, 0x80, 0x15, 0x62, 0x09, 0x82, 0x15]);
    run_steps(&mut emulator, 3);
    assert_eq!(register(&emulator, 0), 0);
    assert_eq!(register(&emulator, 0xF), 1);
    run_steps(&mut emulator, 2);
    assert_eq!(register(&emulator, 2), 4);
    assert_eq!(register(&emulator, 0xF), 1);
}

#[test]
fn reverse_subtract_swaps_the_operands() {
    let mut emulator = machine(&[0x60, 0x03, 0x61, 0x0A, 0x80, 0x17, 0x62, 0x0B, 0x82, 0x17]);
    run_steps(&mut emulator, 3);
    assert_eq!(register(&emulator, 0), 7);
    assert_eq!(register(&emulator, 0xF), 1);
    run_steps(&mut emulator, 2);
    assert_eq!(register(&emulator, 2), 0xFF);
    assert_eq!(register(&emulator, 0xF), 0);
}

#[test]
fn load_and_copy() {
    let mut emulator = machine(&[0x63, 0x7B, 0x84, 0x30]);
    run_steps(&mut emulator, 2);
    assert_eq!(register(&emulator, 3), 0x7B);
    assert_eq!(register(&emulator, 4), 0x7B);
}

#[test]
fn bitwise_operations_leave_the_flag() {
    let mut emulator = machine(&[
        0x6F, 0x01, 0x60, 0xCC, 0x61, 0xAA, 0x62, 0xCC, 0x63, 0xCC, 0x80, 0x11, 0x82, 0x12, 0x83,
        0x13,
    ]);
    run_steps(&mut emulator, 8);
    assert_eq!(register(&emulator, 0), 0xEE);
    assert_eq!(register(&emulator, 2), 0x88);
    assert_eq!(register(&emulator, 3), 0x66);
    assert_eq!(register(&emulator, 0xF), 1);
}

#[test]
fn shift_right_reads_the_second_operand_on_chip8() {
    let mut emulator = machine(&[0x60, 0xFF, 0x61, 0x05, 0x80, 0x16]);
    run_steps(&mut emulator, 3);
    assert_eq!(register(&emulator, 0), 0x02);
    assert_eq!(register(&emulator, 1), 0x05);
    assert_eq!(register(&emulator, 0xF), 1);
}

#[test]
fn shift_right_of_even_value_clears_flag() {
    let mut emulator = machine(&[0x6F, 0x01, 0x61, 0x04, 0x80, 0x16]);
    run_steps(&mut emulator, 3);
    assert_eq!(register(&emulator, 0), 0x02);
    assert_eq!(register(&emulator, 0xF), 0);
}

#[test]
fn shift_left_reads_the_second_operand_on_chip8() {
    let mut emulator = machine(&[0x60, 0x01, 0x61, 0x81, 0x80, 0x1E]);
    run_steps(&mut emulator, 3);
    assert_eq!(register(&emulator, 0), 0x02);
    assert_eq!(register(&emulator, 0xF), 1);
}

#[test]
fn shift_left_without_high_bit_clears_flag() {
    let mut emulator = machine(&[0x6F, 0x01, 0x61, 0x41, 0x80, 0x1E]);
    run_steps(&mut emulator, 3);
    assert_eq!(register(&emulator, 0), 0x82);
    assert_eq!(register(&emulator, 0xF), 0);
}

#[test]
fn shifts_read_the_destination_on_superchip() {
    let mut emulator =
        machine_on(Platform::SuperChip, &[0x60, 0x06, 0x61, 0xFF, 0x80, 0x16, 0x80, 0x1E]);
    run_steps(&mut emulator, 3);
    assert_eq!(register(&emulator, 0), 0x03);
    assert_eq!(register(&emulator, 0xF), 0);
    run_steps(&mut emulator, 1);
    assert_eq!(register(&emulator, 0), 0x06);
    assert_eq!(register(&emulator, 0xF), 0);
    assert_eq!(register(&emulator, 1), 0xFF);
}

#[test]
fn jump_sets_the_program_counter() {
    let mut emulator = machine(&[0x1A, 0xBC]);
    run_steps(&mut emulator, 1);
    assert_eq!(emulator.memory().read_pc(), 0xABC);
}

#[test]
fn call_and_return() {
    let mut emulator = machine(&[0x22, 0x06, 0x61, 0x11, 0x00, 0x00, 0x62, 0x22, 0x00, 0xEE]);
    run_steps(&mut emulator, 1);
    assert_eq!(emulator.memory().read_pc(), 0x206);
    run_steps(&mut emulator, 2);
    assert_eq!(emulator.memory().read_pc(), 0x202);
    assert_eq!(register(&emulator, 2), 0x22);
    run_steps(&mut emulator, 1);
    assert_eq!(register(&emulator, 1), 0x11);
}

#[test]
fn return_with_empty_stack_underflows() {
    let mut emulator = machine(&[0x00, 0xEE]);
    assert_eq!(emulator.step(Input::idle()), Err(EmulatorError::StackUnderflow));
    assert_eq!(emulator.memory().read_pc(), 0x200);
    assert_eq!(emulator.step(Input::idle()), Err(EmulatorError::StackUnderflow));
}

#[test]
fn return_after_the_last_caller_underflows() {
    let mut emulator = machine(&[0x22, 0x02, 0x00, 0xEE]);
    run_steps(&mut emulator, 2);
    assert_eq!(emulator.memory().read_pc(), 0x202);
    assert_eq!(emulator.step(Input::idle()), Err(EmulatorError::StackUnderflow));
    assert_eq!(emulator.memory().read_pc(), 0x202);
}

#[test]
fn skip_if_equal_to_immediate() {
    let mut emulator = machine(&[0x60, 0x42, 0x30, 0x42, 0x00, 0x00, 0x30, 0x43]);
    run_steps(&mut emulator, 2);
    assert_eq!(emulator.memory().read_pc(), 0x206);
    run_steps(&mut emulator, 1);
    assert_eq!(emulator.memory().read_pc(), 0x208);
}

#[test]
fn skip_if_not_equal_to_immediate() {
    let mut emulator = machine(&[0x60, 0x42, 0x40, 0x43, 0x00, 0x00, 0x40, 0x42]);
    run_steps(&mut emulator, 2);
    assert_eq!(emulator.memory().read_pc(), 0x206);
    run_steps(&mut emulator, 1);
    assert_eq!(emulator.memory().read_pc(), 0x208);
}

#[test]
fn skip_if_registers_equal() {
    let mut emulator = machine(&[0x60, 0x07, 0x61, 0x07, 0x50, 0x10, 0x00, 0x00, 0x50, 0x20]);
    run_steps(&mut emulator, 3);
    assert_eq!(emulator.memory().read_pc(), 0x208);
    run_steps(&mut emulator, 1);
    assert_eq!(emulator.memory().read_pc(), 0x20A);
}

#[test]
fn skip_if_registers_not_equal() {
    let mut emulator = machine(&[0x60, 0x07, 0x61, 0x07, 0x90, 0x20, 0x00, 0x00, 0x90, 0x10]);
    run_steps(&mut emulator, 3);
    assert_eq!(emulator.memory().read_pc(), 0x208);
    run_steps(&mut emulator, 1);
    assert_eq!(emulator.memory().read_pc(), 0x20A);
}

#[test]
fn load_index() {
    let mut emulator = machine(&[0xAF, 0xED]);
    run_steps(&mut emulator, 1);
    assert_eq!(emulator.memory().read_index_register(), 0xFED);
    assert_eq!(emulator.memory().read_pc(), 0x202);
}

#[test]
fn jump_with_offset_uses_register_zero_on_chip8() {
    let mut emulator = machine(&[0x60, 0x10, 0x63, 0x20, 0xB3, 0x00]);
    run_steps(&mut emulator, 3);
    assert_eq!(emulator.memory().read_pc(), 0x310);
}

#[test]
fn jump_with_offset_uses_the_named_register_on_superchip() {
    let mut emulator = machine_on(Platform::SuperChip, &[0x60, 0x10, 0x63, 0x20, 0xB3, 0x00]);
    run_steps(&mut emulator, 3);
    assert_eq!(emulator.memory().read_pc(), 0x320);
}

#[test]
fn jump_with_offset_may_leave_memory() {
    let mut emulator = machine(&[0x60, 0xFF, 0xBF, 0xFF]);
    run_steps(&mut emulator, 2);
    assert_eq!(emulator.memory().read_pc(), 0x10FE);
    assert_eq!(emulator.step(Input::idle()), Err(EmulatorError::OutOfBounds));
    assert_eq!(emulator.memory().read_pc(), 0x10FE);
}

#[test]
fn random_byte_is_masked() {
    let mut emulator = machine(&[0xC0, 0x0F, 0xC1, 0x00, 0xC2, 0xFF]);
    let input = Input { key_pressed: false, just_pressed: None, random: 0xAB };
    assert_eq!(emulator.query(), Query::Random);
    emulator.step(input).unwrap();
    emulator.step(input).unwrap();
    emulator.step(input).unwrap();
    assert_eq!(register(&emulator, 0), 0x0B);
    assert_eq!(register(&emulator, 1), 0x00);
    assert_eq!(register(&emulator, 2), 0xAB);
}

#[test]
fn random_from_the_generator_respects_the_mask() {
    let io = WebIO::new();
    for _ in 0..64 {
        let mut emulator = machine(&[0x60, 0xFF, 0xC0, 0x11, 0x61, 0xFF, 0xC1, 0x00]);
        for _ in 0..4 {
            emulator.run_instruction(&io).unwrap();
        }
        assert_eq!(register(&emulator, 0) & !0x11, 0);
        assert_eq!(register(&emulator, 1), 0);
    }
}

#[test]
fn clear_display_unsets_every_pixel() {
    let mut emulator = machine(&[0xA2, 0x08, 0xD0, 0x03, 0x00, 0xE0, 0x00, 0x00, 0xFF, 0x81, 0xFF]);
    run_steps(&mut emulator, 2);
    assert_eq!(lit(&emulator).len(), 8 + 2 + 8);
    run_steps(&mut emulator, 1);
    assert!(lit(&emulator).is_empty());
    assert_eq!(emulator.memory().read_pc(), 0x206);
}

#[test]
fn clear_display_of_blank_screen() {
    let mut emulator = machine(&[0x00, 0xE0, 0x00, 0xFF]);
    run_steps(&mut emulator, 2);
    assert!(lit(&emulator).is_empty());
    assert_eq!(emulator.memory().read_pc(), 0x204);
}

#[test]
fn draw_places_bits_most_significant_first() {
    let mut emulator = machine(&[0x60, 0x05, 0x61, 0x03, 0xA2, 0x08, 0xD0, 0x12, 0xA5, 0x80]);
    run_steps(&mut emulator, 4);
    assert_eq!(lit(&emulator), vec![(5, 3), (7, 3), (10, 3), (12, 3), (5, 4)]);
    assert_eq!(register(&emulator, 0xF), 0);
    assert_eq!(emulator.memory().read_pc(), 0x208);
}

#[test]
fn draw_twice_restores_and_collides() {
    let mut emulator =
        machine(&[0xA2, 0x08, 0x60, 0x05, 0xD0, 0x01, 0xD0, 0x01, 0xF0]);
    run_steps(&mut emulator, 3);
    assert_eq!(lit(&emulator), vec![(5, 5), (6, 5), (7, 5), (8, 5)]);
    assert_eq!(register(&emulator, 0xF), 0);
    run_steps(&mut emulator, 1);
    assert!(lit(&emulator).is_empty());
    assert_eq!(register(&emulator, 0xF), 1);
}

#[test]
fn draw_over_a_drawn_sprite_then_again_does_not_collide() {
    let mut emulator = machine(&[
        0xA2, 0x0A, 0x60, 0x05, 0xD0, 0x01, 0xD0, 0x01, 0xD0, 0x01, 0xF0,
    ]);
    run_steps(&mut emulator, 4);
    assert_eq!(register(&emulator, 0xF), 1);
    run_steps(&mut emulator, 1);
    assert_eq!(lit(&emulator), vec![(5, 5), (6, 5), (7, 5), (8, 5)]);
    assert_eq!(register(&emulator, 0xF), 0);
}

#[test]
fn draw_reports_partial_collision() {
    let mut emulator = machine(&[
        0xA2, 0x0A, 0xD0, 0x01, 0xA2, 0x0B, 0xD0, 0x01, 0x00, 0x00, 0xC0, 0x60,
    ]);
    run_steps(&mut emulator, 4);
    assert_eq!(lit(&emulator), vec![(0, 0), (2, 0)]);
    assert_eq!(register(&emulator, 0xF), 1);
}

#[test]
fn draw_wraps_columns_around_the_right_edge() {
    let mut emulator = machine(&[0x60, 0x3E, 0x61, 0x02, 0xA2, 0x08, 0xD0, 0x11, 0xF0]);
    run_steps(&mut emulator, 4);
    assert_eq!(lit(&emulator), vec![(0, 2), (1, 2), (62, 2), (63, 2)]);
    assert_eq!(register(&emulator, 0xF), 0);
}

#[test]
fn draw_drops_rows_below_the_bottom_edge() {
    let mut emulator = machine(&[0x60, 0x00, 0x61, 0x1F, 0xA2, 0x08, 0xD0, 0x12, 0x80, 0x80]);
    run_steps(&mut emulator, 4);
    assert_eq!(lit(&emulator), vec![(0, 31)]);
}

#[test]
fn draw_wraps_the_start_position_onto_the_screen() {
    let mut emulator = machine(&[0x60, 0x46, 0x61, 0x21, 0xA2, 0x08, 0xD0, 0x11, 0x80]);
    run_steps(&mut emulator, 4);
    assert_eq!(lit(&emulator), vec![(6, 1)]);
}

#[test]
fn draw_on_the_large_screen() {
    let mut emulator =
        machine_on(Platform::SuperChip, &[0x60, 0x7E, 0x61, 0x3F, 0xA2, 0x08, 0xD0, 0x12, 0xC0, 0xFF]);
    run_steps(&mut emulator, 4);
    assert_eq!(lit(&emulator), vec![(126, 63), (127, 63)]);
}

#[test]
fn draw_of_no_rows_changes_only_the_flag() {
    let mut emulator = machine(&[0x6F, 0x01, 0xAF, 0xFF, 0xD0, 0x00]);
    run_steps(&mut emulator, 3);
    assert!(lit(&emulator).is_empty());
    assert_eq!(register(&emulator, 0xF), 0);
    assert_eq!(emulator.memory().read_pc(), 0x206);
}

#[test]
fn draw_reading_past_memory_is_out_of_bounds() {
    let mut emulator = machine(&[0xAF, 0xFE, 0xD0, 0x02, 0xD0, 0x03]);
    run_steps(&mut emulator, 2);
    assert_eq!(emulator.memory().read_pc(), 0x204);
    assert_eq!(emulator.step(Input::idle()), Err(EmulatorError::OutOfBounds));
    assert_eq!(emulator.memory().read_pc(), 0x204);
    assert!(lit(&emulator).is_empty());
}

#[test]
fn skip_if_key_pressed() {
    let mut emulator = machine(&[0x60, 0x07, 0xE0, 0x9E, 0x00, 0x00, 0xE0, 0x9E]);
    run_steps(&mut emulator, 1);
    assert_eq!(emulator.query(), Query::KeyPressed(7));
    let held = Input { key_pressed: true, just_pressed: None, random: 0 };
    emulator.step(held).unwrap();
    assert_eq!(emulator.memory().read_pc(), 0x206);
    emulator.step(Input::idle()).unwrap();
    assert_eq!(emulator.memory().read_pc(), 0x208);
}

#[test]
fn skip_if_key_not_pressed() {
    let mut emulator = machine(&[0xE0, 0xA1, 0x00, 0x00, 0xE0, 0xA1]);
    assert_eq!(emulator.query(), Query::KeyPressed(0));
    emulator.step(Input::idle()).unwrap();
    assert_eq!(emulator.memory().read_pc(), 0x204);
    let held = Input { key_pressed: true, just_pressed: None, random: 0 };
    emulator.step(held).unwrap();
    assert_eq!(emulator.memory().read_pc(), 0x206);
}

#[test]
fn key_skips_ask_the_keypad() {
    let keys = Keys { held: vec![0xA], fresh: vec![] };
    let mut emulator = machine(&[0x60, 0x0A, 0xE0, 0x9E, 0x00, 0x00, 0xE0, 0xA1, 0x61, 0x0B, 0xE1, 0x9E]);
    for _ in 0..2 {
        emulator.run_instruction(&keys).unwrap();
    }
    assert_eq!(emulator.memory().read_pc(), 0x206);
    emulator.run_instruction(&keys).unwrap();
    assert_eq!(emulator.memory().read_pc(), 0x208);
    emulator.run_instruction(&keys).unwrap();
    emulator.run_instruction(&keys).unwrap();
    assert_eq!(emulator.memory().read_pc(), 0x20C);
}

#[test]
fn wait_for_key_holds_the_program_counter_until_a_key_goes_down() {
    let mut emulator = machine(&[0xF3, 0x0A, 0x64, 0x01]);
    assert_eq!(emulator.query(), Query::JustPressed);
    for _ in 0..5 {
        emulator.step(Input::idle()).unwrap();
        assert_eq!(emulator.memory().read_pc(), 0x200);
        assert_eq!(emulator.waiting(), Some(3));
        assert_eq!(emulator.query(), Query::JustPressed);
        assert_eq!(emulator.memory().registers(), &[0u8; 16]);
    }
    let pressed = Input { key_pressed: false, just_pressed: Some(0xB), random: 0 };
    emulator.step(pressed).unwrap();
    assert_eq!(register(&emulator, 3), 0xB);
    assert_eq!(emulator.memory().read_pc(), 0x202);
    assert_eq!(emulator.waiting(), None);
    emulator.step(pressed).unwrap();
    assert_eq!(register(&emulator, 4), 1);
    assert_eq!(emulator.memory().read_pc(), 0x204);
}

#[test]
fn wait_for_key_takes_a_key_that_is_there_at_once() {
    let mut emulator = machine(&[0xF9, 0x0A]);
    let pressed = Input { key_pressed: false, just_pressed: Some(0x2), random: 0 };
    emulator.step(pressed).unwrap();
    assert_eq!(register(&emulator, 9), 0x2);
    assert_eq!(emulator.memory().read_pc(), 0x202);
    assert_eq!(emulator.waiting(), None);
}

#[test]
fn wait_for_key_polls_the_keypad() {
    let mut io = WebIO::new();
    let mut emulator = machine(&[0xF5, 0x0A]);
    for _ in 0..3 {
        emulator.run_instruction(&io).unwrap();
        io.clear_just_pressed();
        assert_eq!(emulator.memory().read_pc(), 0x200);
    }
    io.key_down('z');
    emulator.run_instruction(&io).unwrap();
    io.clear_just_pressed();
    assert_eq!(emulator.memory().read_pc(), 0x200);
    io.key_down('r');
    io.key_down('f');
    emulator.run_instruction(&io).unwrap();
    io.clear_just_pressed();
    assert_eq!(register(&emulator, 5), 0xD);
    assert_eq!(emulator.memory().read_pc(), 0x202);
}

#[test]
fn wait_for_key_takes_the_first_of_several_keys() {
    let keys = Keys { held: vec![], fresh: vec![0x9, 0x1, 0x4] };
    let mut emulator = machine(&[0xF0, 0x0A]);
    emulator.run_instruction(&keys).unwrap();
    assert_eq!(register(&emulator, 0), 0x9);
    assert_eq!(emulator.memory().read_pc(), 0x202);
}

#[test]
fn delay_timer_is_set_and_read() {
    let mut emulator = machine(&[0x60, 0x2A, 0xF0, 0x15, 0xF1, 0x07]);
    run_steps(&mut emulator, 3);
    assert_eq!(emulator.clock().delay_timer(), 0x2A);
    assert_eq!(emulator.clock().sound_timer(), 0);
    assert_eq!(register(&emulator, 1), 0x2A);
}

#[test]
fn sound_timer_is_set() {
    let mut emulator = machine(&[0x60, 0x11, 0xF0, 0x18]);
    run_steps(&mut emulator, 2);
    assert_eq!(emulator.clock().sound_timer(), 0x11);
    assert_eq!(emulator.clock().delay_timer(), 0);
}

#[test]
fn add_to_index() {
    let mut emulator = machine(&[0xA1, 0x00, 0x60, 0xFF, 0x6F, 0x01, 0xF0, 0x1E]);
    run_steps(&mut emulator, 4);
    assert_eq!(emulator.memory().read_index_register(), 0x1FF);
    assert_eq!(register(&emulator, 0xF), 1);
}

#[test]
fn add_to_index_wraps_at_sixteen_bits() {
    let mut emulator = machine(&[0xAF, 0xFF, 0x60, 0xFF, 0xF0, 0x1E, 0x12, 0x04]);
    run_steps(&mut emulator, 2);
    for _ in 0..240 {
        run_steps(&mut emulator, 2);
    }
    assert_eq!(emulator.memory().read_index_register(), 0xFFF + 240 * 255);
    run_steps(&mut emulator, 1);
    assert_eq!(emulator.memory().read_index_register(), 14);
}

#[test]
fn store_decimal_digits() {
    let mut emulator = machine(&[0x60, 0xFE, 0xA3, 0x00, 0xF0, 0x33, 0x61, 0x07, 0xA3, 0x10, 0xF1, 0x33]);
    run_steps(&mut emulator, 3);
    assert_eq!(emulator.memory().read_u8(0x300), Ok(2));
    assert_eq!(emulator.memory().read_u8(0x301), Ok(5));
    assert_eq!(emulator.memory().read_u8(0x302), Ok(4));
    assert_eq!(emulator.memory().read_u8(0x303), Ok(0));
    assert_eq!(emulator.memory().read_index_register(), 0x300);
    run_steps(&mut emulator, 3);
    assert_eq!(emulator.memory().read_u8(0x310), Ok(0));
    assert_eq!(emulator.memory().read_u8(0x311), Ok(0));
    assert_eq!(emulator.memory().read_u8(0x312), Ok(7));
}

#[test]
fn store_decimal_past_memory_is_out_of_bounds() {
    let mut emulator = machine(&[0x60, 0x7B, 0xAF, 0xFE, 0xF0, 0x33, 0xAF, 0xFD, 0xF0, 0x33]);
    run_steps(&mut emulator, 2);
    assert_eq!(emulator.step(Input::idle()), Err(EmulatorError::OutOfBounds));
    assert_eq!(emulator.memory().read_u8(0xFFE), Ok(0));
    assert_eq!(emulator.memory().read_u8(0xFFF), Ok(0));
    assert_eq!(emulator.memory().read_pc(), 0x204);
}

#[test]
fn store_decimal_at_the_end_of_memory() {
    let mut emulator = machine(&[0x60, 0x7B, 0xAF, 0xFD, 0xF0, 0x33]);
    run_steps(&mut emulator, 3);
    assert_eq!(emulator.memory().read_u8(0xFFD), Ok(1));
    assert_eq!(emulator.memory().read_u8(0xFFE), Ok(2));
    assert_eq!(emulator.memory().read_u8(0xFFF), Ok(3));
}

#[test]
fn store_registers_up_to_x() {
    let mut emulator = machine(&[0x60, 0x0A, 0x61, 0x0B, 0x62, 0x0C, 0x63, 0x0D, 0xA4, 0x00, 0xF2, 0x55]);
    run_steps(&mut emulator, 6);
    assert_eq!(emulator.memory().read_u8(0x3FF), Ok(0));
    assert_eq!(emulator.memory().read_u8(0x400), Ok(0x0A));
    assert_eq!(emulator.memory().read_u8(0x401), Ok(0x0B));
    assert_eq!(emulator.memory().read_u8(0x402), Ok(0x0C));
    assert_eq!(emulator.memory().read_u8(0x403), Ok(0));
    assert_eq!(emulator.memory().read_index_register(), 0x400);
    assert_eq!(emulator.memory().read_pc(), 0x20C);
}

#[test]
fn store_registers_past_memory_changes_nothing() {
    let mut emulator = machine(&[0x60, 0x0A, 0x61, 0x0B, 0xAF, 0xFF, 0xF1, 0x55, 0xF0, 0x55]);
    run_steps(&mut emulator, 3);
    assert_eq!(emulator.step(Input::idle()), Err(EmulatorError::OutOfBounds));
    assert_eq!(emulator.memory().read_u8(0xFFF), Ok(0));
    assert_eq!(emulator.memory().read_pc(), 0x206);
}

#[test]
fn load_registers_up_to_x() {
    let mut emulator = machine(&[0x63, 0x77, 0xA2, 0x06, 0xF2, 0x65, 0x11, 0x22, 0x33, 0x44]);
    run_steps(&mut emulator, 3);
    assert_eq!(register(&emulator, 0), 0x11);
    assert_eq!(register(&emulator, 1), 0x22);
    assert_eq!(register(&emulator, 2), 0x33);
    assert_eq!(register(&emulator, 3), 0x77);
    assert_eq!(emulator.memory().read_index_register(), 0x206);
}

#[test]
fn load_registers_past_memory_changes_nothing() {
    let mut emulator = machine(&[0x60, 0x55, 0xAF, 0xFF, 0xF1, 0x65]);
    run_steps(&mut emulator, 2);
    assert_eq!(emulator.step(Input::idle()), Err(EmulatorError::OutOfBounds));
    assert_eq!(register(&emulator, 0), 0x55);
    assert_eq!(emulator.memory().read_pc(), 0x204);
}

#[test]
fn all_sixteen_registers_store_and_load() {
    let mut program = Vec::new();
    for r in 0..16u8 {
        program.push(0x60 | r);
        program.push(0xA0 | r);
    }
    program.extend_from_slice(&[0xA8, 0x00, 0xFF, 0x55, 0x00, 0x00]);
    let mut emulator = machine(&program);
    run_steps(&mut emulator, 18);
    for r in 0..16usize {
        assert_eq!(emulator.memory().read_u8(0x800 + r), Ok(0xA0 | r as u8));
    }
    assert_eq!(emulator.memory().read_u8(0x810), Ok(0));
}

#[test]
fn unknown_instruction_stops_the_machine() {
    let mut emulator = machine(&[0x60, 0x01, 0x81, 0x28]);
    run_steps(&mut emulator, 1);
    assert_eq!(emulator.step(Input::idle()), Err(EmulatorError::UnknownInstruction(0x8128)));
    assert_eq!(emulator.memory().read_pc(), 0x202);
    assert_eq!(register(&emulator, 0), 1);
    assert_eq!(emulator.step(Input::idle()), Err(EmulatorError::UnknownInstruction(0x8128)));
}

#[test]
fn running_off_the_program_is_an_unknown_instruction() {
    let mut emulator = machine(&[0x60, 0x01]);
    run_steps(&mut emulator, 1);
    assert_eq!(emulator.step(Input::idle()), Err(EmulatorError::UnknownInstruction(0x0000)));
}

#[test]
fn fetch_at_the_last_byte_is_out_of_bounds() {
    let mut emulator = machine(&[0x1F, 0xFF]);
    run_steps(&mut emulator, 1);
    assert_eq!(emulator.memory().read_pc(), 0xFFF);
    assert_eq!(emulator.query(), Query::Nothing);
    assert_eq!(emulator.step(Input::idle()), Err(EmulatorError::OutOfBounds));
    assert_eq!(emulator.memory().read_pc(), 0xFFF);
}

#[test]
fn query_is_nothing_for_plain_instructions_and_errors() {
    let emulator = machine(&[0x60, 0x01]);
    assert_eq!(emulator.query(), Query::Nothing);
    let unknown = machine(&[0xFF, 0xFF]);
    assert_eq!(unknown.query(), Query::Nothing);
}

#[test]
fn tick_runs_one_instruction_and_the_timers() {
    let io = WebIO::new();
    let mut emulator = machine(&[0x60, 0x05, 0xF0, 0x15, 0x12, 0x04]);
    emulator.tick(&io).unwrap();
    assert_eq!(register(&emulator, 0), 5);
    emulator.tick(&io).unwrap();
    assert!(emulator.clock().delay_timer() == 5 || emulator.clock().delay_timer() == 4);
    for _ in 0..10 {
        emulator.tick(&io).unwrap();
    }
    assert_eq!(emulator.memory().read_pc(), 0x204);
    assert!(emulator.clock().delay_timer() <= 5);
}

#[test]
fn tick_that_fails_reports_the_error() {
    let io = WebIO::new();
    let mut emulator = machine(&[0x00, 0xEE]);
    assert_eq!(emulator.tick(&io), Err(EmulatorError::StackUnderflow));
    assert_eq!(emulator.memory().read_pc(), 0x200);
}
