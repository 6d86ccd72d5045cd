use chip8::{decode, Emulator, Fault, Instruction, SCREEN_COLS, SCREEN_ROWS};

fn machine_with(program: &[u8]) -> Emulator {
    let mut emu = Emulator::new();
    emu.load_to_memory(program).unwrap();
    emu
}

fn run(emu: &mut Emulator, steps: usize) {
    for _ in 0..steps {
        emu.step(0).unwrap();
    }
}

#[test]
fn fresh_machine_holds_font_and_starts_at_origin() {
    let emu = Emulator::new();
    assert_eq!(emu.program_counter(), 0x200);
    assert_eq!(emu.memory_byte(0), 0xF0);
    assert_eq!(emu.memory_byte(5), 0x20);
    assert_eq!(emu.memory_byte(79), 0x80);
    assert_eq!(emu.memory_byte(80), 0);
    assert_eq!(emu.stack_pointer(), 0);
    assert_eq!(emu.get_display().len(), SCREEN_COLS * SCREEN_ROWS);
    assert!(emu.get_display().iter().all(|p| !*p));
}

#[test]
fn clear_screen_blanks_the_whole_framebuffer() {
    // draw glyph 0 at (0, 0), then clear
    let mut emu = machine_with(&[0xA0, 0x00, 0xD0, 0x05, 0x00, 0xE0]);
    run(&mut emu, 2);
    assert!(emu.get_display().iter().any(|p| *p));
    run(&mut emu, 1);
    let display = emu.get_display();
    assert_eq!(display.len(), 64 * 32);
    assert!(display.iter().all(|p| !*p));
}

#[test]
fn drawing_twice_restores_screen_and_sets_flag() {
    let mut emu = machine_with(&[0x60, 0x05, 0x61, 0x03, 0xA0, 0x00, 0xD0, 0x15, 0xD0, 0x15]);
    run(&mut emu, 4);
    assert_eq!(emu.register(15), 0);
    // glyph 0's first row 0xF0 lights columns 5..9 of row 3
    for c in 5..9 {
        assert!(emu.get_display()[3 * 64 + c]);
    }
    assert!(!emu.get_display()[3 * 64 + 9]);
    assert_eq!(emu.get_display().iter().filter(|p| **p).count(), 14);
    run(&mut emu, 1);
    assert_eq!(emu.register(15), 1);
    assert!(emu.get_display().iter().all(|p| !*p));
}

#[test]
fn sprite_wraps_around_both_edges() {
    // V0 = 63, V1 = 31, I = 0x20A (a 0xFF byte), draw one row
    let mut emu = machine_with(&[0x60, 0x3F, 0x61, 0x1F, 0xA2, 0x0A, 0xD0, 0x11, 0x00, 0x00, 0xFF]);
    run(&mut emu, 4);
    let display = emu.get_display();
    let lit: Vec<usize> = (0..display.len()).filter(|&i| display[i]).collect();
    let row = 31 * 64;
    assert_eq!(lit, vec![row, row + 1, row + 2, row + 3, row + 4, row + 5, row + 6, row + 63]);
    assert_eq!(emu.register(15), 0);
}

#[test]
fn sprite_bits_are_read_most_significant_first() {
    // a single row 0x80 lights only the leftmost cell
    let mut emu = machine_with(&[0xA2, 0x06, 0xD0, 0x01, 0x00, 0x00, 0x80]);
    run(&mut emu, 2);
    let display = emu.get_display();
    assert!(display[0]);
    assert_eq!(display.iter().filter(|p| **p).count(), 1);
}

#[test]
fn bcd_of_255_and_of_0() {
    let mut emu = machine_with(&[0x60, 0xFF, 0xA3, 0x00, 0xF0, 0x33]);
    run(&mut emu, 3);
    assert_eq!(
        [emu.memory_byte(0x300), emu.memory_byte(0x301), emu.memory_byte(0x302)],
        [2, 5, 5]
    );
    let mut emu = machine_with(&[0x60, 0x00, 0xA3, 0x00, 0xF0, 0x33]);
    run(&mut emu, 3);
    assert_eq!(
        [emu.memory_byte(0x300), emu.memory_byte(0x301), emu.memory_byte(0x302)],
        [0, 0, 0]
    );
}

#[test]
fn bcd_of_137() {
    let mut emu = machine_with(&[0x63, 0x89, 0xA3, 0x10, 0xF3, 0x33]);
    run(&mut emu, 3);
    assert_eq!(
        [emu.memory_byte(0x310), emu.memory_byte(0x311), emu.memory_byte(0x312)],
        [1, 3, 7]
    );
}

#[test]
fn add_with_carry_sets_flag() {
    let mut emu = machine_with(&[0x60, 0xFA, 0x61, 0x0A, 0x80, 0x14]);
    run(&mut emu, 3);
    assert_eq!(emu.register(0), 4);
    assert_eq!(emu.register(15), 1);
    let mut emu = machine_with(&[0x60, 0x0A, 0x61, 0x05, 0x80, 0x14]);
    run(&mut emu, 3);
    assert_eq!(emu.register(0), 15);
    assert_eq!(emu.register(15), 0);
}

#[test]
fn subtractions_and_shifts_set_flag() {
    // V0 = 5, V1 = 10, V0 -= V1
    let mut emu = machine_with(&[0x60, 0x05, 0x61, 0x0A, 0x80, 0x15]);
    run(&mut emu, 3);
    assert_eq!(emu.register(0), 251);
    assert_eq!(emu.register(15), 0);
    // V0 = 5, V1 = 10, V0 = V1 - V0
    let mut emu = machine_with(&[0x60, 0x05, 0x61, 0x0A, 0x80, 0x17]);
    run(&mut emu, 3);
    assert_eq!(emu.register(0), 5);
    assert_eq!(emu.register(15), 1);
    // V0 = 0x81 shifted right, then left
    let mut emu = machine_with(&[0x60, 0x81, 0x80, 0x06]);
    run(&mut emu, 2);
    assert_eq!(emu.register(0), 0x40);
    assert_eq!(emu.register(15), 1);
    let mut emu = machine_with(&[0x60, 0x81, 0x80, 0x0E]);
    run(&mut emu, 2);
    assert_eq!(emu.register(0), 0x02);
    assert_eq!(emu.register(15), 1);
}

#[test]
fn bitwise_and_immediate_forms() {
    let mut emu = machine_with(&[
        0x60, 0x0C, 0x61, 0x0A, 0x82, 0x00, 0x82, 0x11, 0x83, 0x00, 0x83, 0x12, 0x84, 0x00, 0x84, 0x13, 0x70, 0xFF,
    ]);
    run(&mut emu, 9);
    assert_eq!(emu.register(2), 0x0E);
    assert_eq!(emu.register(3), 0x08);
    assert_eq!(emu.register(4), 0x06);
    assert_eq!(emu.register(0), 0x0B);
    assert_eq!(emu.register(15), 0);
}

#[test]
fn key_wait_repeats_until_a_key_is_pressed() {
    let mut emu = machine_with(&[0xF3, 0x0A]);
    emu.step(0).unwrap();
    assert_eq!(emu.program_counter(), 0x200);
    emu.step(0).unwrap();
    assert_eq!(emu.program_counter(), 0x200);
    emu.keypress(9, true);
    emu.keypress(7, true);
    emu.step(0).unwrap();
    assert_eq!(emu.program_counter(), 0x202);
    assert_eq!(emu.register(3), 7);
}

#[test]
fn key_skips_follow_keypad() {
    let mut emu = machine_with(&[0x60, 0x04, 0xE0, 0x9E, 0x00, 0x00, 0xE0, 0xA1]);
    emu.keypress(4, true);
    assert!(emu.key(4));
    run(&mut emu, 2);
    assert_eq!(emu.program_counter(), 0x206);
    emu.keypress(4, false);
    run(&mut emu, 1);
    assert_eq!(emu.program_counter(), 0x20A);
}

#[test]
fn key_query_on_a_value_above_fifteen_faults() {
    let mut emu = machine_with(&[0x60, 0x20, 0xE0, 0x9E]);
    run(&mut emu, 1);
    assert_eq!(emu.step(0), Err(Fault::InvalidKey { key: 0x20 }));
    assert_eq!(emu.program_counter(), 0x202);
}

#[test]
fn delay_timer_counts_down_and_stops_at_zero() {
    let mut emu = machine_with(&[0x60, 0x01, 0xF0, 0x15, 0xF1, 0x07]);
    run(&mut emu, 2);
    assert_eq!(emu.delay_timer(), 1);
    assert!(!emu.timer_tick());
    assert_eq!(emu.delay_timer(), 0);
    emu.timer_tick();
    assert_eq!(emu.delay_timer(), 0);
    run(&mut emu, 1);
    assert_eq!(emu.register(1), 0);
}

#[test]
fn sound_timer_beeps_once_when_running_out() {
    let mut emu = machine_with(&[0x60, 0x02, 0xF0, 0x18]);
    run(&mut emu, 2);
    assert_eq!(emu.sound_timer(), 2);
    assert!(!emu.timer_tick());
    assert!(emu.timer_tick());
    assert_eq!(emu.sound_timer(), 0);
    assert!(!emu.timer_tick());
    assert_eq!(emu.sound_timer(), 0);
}

#[test]
fn loading_a_program_too_large_changes_nothing() {
    let mut emu = Emulator::new();
    let big = vec![0xAAu8; 4096 - 512 + 1];
    assert_eq!(emu.load_to_memory(&big), Err(Fault::ProgramTooLarge));
    assert_eq!(emu.memory_byte(0x200), 0);
    assert_eq!(emu.memory_byte(4095), 0);
    let fits = vec![0xAAu8; 4096 - 512];
    assert_eq!(emu.load_to_memory(&fits), Ok(()));
    assert_eq!(emu.memory_byte(0x200), 0xAA);
    assert_eq!(emu.memory_byte(4095), 0xAA);
    assert_eq!(emu.memory_byte(0x1FF), 0);
}

#[test]
fn reset_restores_a_fresh_machine() {
    let mut emu = machine_with(&[0x60, 0x07, 0xA0, 0x00, 0xD0, 0x05, 0xF0, 0x15, 0x22, 0x00, 0xF0, 0x55]);
    emu.keypress(3, true);
    run(&mut emu, 6);
    emu.timer_tick();
    emu.reset();
    let fresh = Emulator::new();
    assert_eq!(emu.program_counter(), fresh.program_counter());
    assert_eq!(emu.index_register(), fresh.index_register());
    assert_eq!(emu.stack_pointer(), fresh.stack_pointer());
    assert_eq!(emu.delay_timer(), fresh.delay_timer());
    assert_eq!(emu.sound_timer(), fresh.sound_timer());
    for r in 0..16 {
        assert_eq!(emu.register(r), fresh.register(r));
        assert_eq!(emu.key(r), fresh.key(r));
    }
    for a in 0..4096 {
        assert_eq!(emu.memory_byte(a), fresh.memory_byte(a));
    }
    assert_eq!(emu.get_display(), fresh.get_display());
}

#[test]
fn call_and_return() {
    // 0x200: call 0x204; 0x202: V0 = 1; 0x204: return
    let mut emu = machine_with(&[0x22, 0x04, 0x60, 0x01, 0x00, 0xEE]);
    run(&mut emu, 1);
    assert_eq!(emu.program_counter(), 0x204);
    assert_eq!(emu.stack_pointer(), 1);
    run(&mut emu, 1);
    assert_eq!(emu.program_counter(), 0x202);
    assert_eq!(emu.stack_pointer(), 0);
    run(&mut emu, 1);
    assert_eq!(emu.register(0), 1);
}

#[test]
fn stack_overflow_and_underflow_fault() {
    // calls itself forever
    let mut emu = machine_with(&[0x22, 0x00]);
    run(&mut emu, 16);
    assert_eq!(emu.stack_pointer(), 16);
    assert_eq!(emu.step(0), Err(Fault::StackOverflow));
    assert_eq!(emu.stack_pointer(), 16);
    assert_eq!(emu.program_counter(), 0x200);
    let mut emu = machine_with(&[0x00, 0xEE]);
    assert_eq!(emu.step(0), Err(Fault::StackUnderflow));
    assert_eq!(emu.stack_pointer(), 0);
    assert_eq!(emu.program_counter(), 0x200);
}

#[test]
fn unknown_instruction_faults_without_moving() {
    let mut emu = machine_with(&[0x50, 0x01]);
    assert_eq!(emu.step(0), Err(Fault::UnknownInstruction { word: 0x5001 }));
    assert_eq!(emu.program_counter(), 0x200);
    let mut emu = machine_with(&[0xB1, 0x23]);
    assert_eq!(emu.tick(), Err(Fault::UnknownInstruction { word: 0xB123 }));
}

#[test]
fn fetch_past_end_of_memory_faults() {
    let mut emu = machine_with(&[0x1F, 0xFF]);
    run(&mut emu, 1);
    assert_eq!(emu.program_counter(), 0xFFF);
    assert_eq!(emu.step(0), Err(Fault::MemoryOutOfBounds));
    assert_eq!(emu.program_counter(), 0xFFF);
}

#[test]
fn bcd_past_end_of_memory_faults() {
    let mut emu = machine_with(&[0xAF, 0xFE, 0xF0, 0x33]);
    run(&mut emu, 1);
    assert_eq!(emu.step(0), Err(Fault::MemoryOutOfBounds));
    assert_eq!(emu.program_counter(), 0x202);
}

#[test]
fn skips_compare_registers_and_immediates() {
    let mut emu = machine_with(&[
        0x60, 0x05, 0x30, 0x05, 0x00, 0x00, 0x40, 0x05, 0x61, 0x05, 0x50, 0x10, 0x00, 0x00, 0x90, 0x10,
    ]);
    run(&mut emu, 2);
    assert_eq!(emu.program_counter(), 0x206);
    run(&mut emu, 1);
    assert_eq!(emu.program_counter(), 0x208);
    run(&mut emu, 2);
    assert_eq!(emu.program_counter(), 0x20E);
    run(&mut emu, 1);
    assert_eq!(emu.program_counter(), 0x210);
}

#[test]
fn random_uses_the_given_byte_under_the_mask() {
    let mut emu = machine_with(&[0xC0, 0x0F]);
    emu.step(0xAB).unwrap();
    assert_eq!(emu.register(0), 0x0B);
    let mut emu = machine_with(&[0xC0, 0x00]);
    emu.tick().unwrap();
    assert_eq!(emu.register(0), 0);
}

#[test]
fn index_register_forms() {
    // I = 0xFFF, V0 = 2, I += V0; V1 = 0x1A, I = glyph of low nibble (A)
    let mut emu = machine_with(&[0xAF, 0xFF, 0x60, 0x02, 0xF0, 0x1E]);
    run(&mut emu, 3);
    assert_eq!(emu.index_register(), 0x1001);
    let mut emu = machine_with(&[0x61, 0x1A, 0xF1, 0x29]);
    run(&mut emu, 2);
    assert_eq!(emu.index_register(), 50);
}

#[test]
fn store_and_load_registers_are_inclusive() {
    let mut emu = machine_with(&[
        0x60, 0x01, 0x61, 0x02, 0x62, 0x03, 0x63, 0x04, 0xA3, 0x00, 0xF2, 0x55, 0x60, 0x00, 0x61, 0x00, 0x62,
        0x00, 0x63, 0x00, 0xF2, 0x65,
    ]);
    run(&mut emu, 6);
    assert_eq!(
        [emu.memory_byte(0x300), emu.memory_byte(0x301), emu.memory_byte(0x302), emu.memory_byte(0x303)],
        [1, 2, 3, 0]
    );
    run(&mut emu, 5);
    assert_eq!([emu.register(0), emu.register(1), emu.register(2), emu.register(3)], [1, 2, 3, 0]);
}

#[test]
fn decoding_covers_the_table() {
    assert_eq!(decode(0x0000), Some(Instruction::Nop));
    assert_eq!(decode(0x00E0), Some(Instruction::ClearScreen));
    assert_eq!(decode(0x00EE), Some(Instruction::Return));
    assert_eq!(decode(0x1ABC), Some(Instruction::Jump { addr: 0xABC }));
    assert_eq!(decode(0xD12F), Some(Instruction::Draw { x: 1, y: 2, rows: 15 }));
    assert_eq!(decode(0x8A3E), Some(Instruction::ShiftLeft { x: 0xA }));
    assert_eq!(decode(0xF765), Some(Instruction::LoadRegs { x: 7 }));
    assert_eq!(decode(0x0123), None);
    assert_eq!(decode(0x8008), None);
    assert_eq!(decode(0xB000), None);
    assert_eq!(decode(0xE000), None);
    assert_eq!(decode(0xF0FF), None);
}
