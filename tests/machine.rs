use chip8::{decode, Chip8, Fault, Halt, ProgramCounterInstruction};

fn machine_with(program: &[u8]) -> Chip8 {
    let mut chip8 = Chip8::default();
    chip8.load_program(program);
    chip8
}

#[test]
fn default_state_is_zeroed_and_starts_at_program_address() {
    let chip8 = Chip8::default();
    assert_eq!(chip8.pc, 0x200);
    assert_eq!(chip8.i, 0);
    assert!(chip8.stack.is_empty());
    assert!(chip8.v.iter().all(|&r| r == 0));
    assert!(chip8.memory.iter().all(|&b| b == 0));
    assert!(chip8.gfx.iter().all(|&p| !p));
    assert_eq!(chip8.delay_timer, 0);
    assert_eq!(chip8.sound_timer, 0);
    assert!(!chip8.draw_flag);
}

#[test]
fn load_program_copies_from_program_address() {
    let chip8 = machine_with(&[0xAB, 0xCD, 0xEF]);
    assert_eq!(chip8.memory[0x1FF], 0);
    assert_eq!(chip8.memory[0x200], 0xAB);
    assert_eq!(chip8.memory[0x201], 0xCD);
    assert_eq!(chip8.memory[0x202], 0xEF);
    assert_eq!(chip8.memory[0x203], 0);
}

#[test]
fn load_program_fills_memory_to_the_end() {
    let image = vec![0x5Au8; 4096 - 0x200];
    let chip8 = machine_with(&image);
    assert_eq!(chip8.memory[0x200], 0x5A);
    assert_eq!(chip8.memory[0xFFF], 0x5A);
    assert_eq!(chip8.memory[0x1FF], 0);
}

#[test]
fn decode_splits_fields() {
    let ins = decode(0xD12F);
    assert_eq!(ins.opcode, 0xD12F);
    assert_eq!(ins.family, 0xD);
    assert_eq!(ins.x, 0x1);
    assert_eq!(ins.y, 0x2);
    assert_eq!(ins.n, 0xF);
    assert_eq!(ins.nn, 0x2F);
    assert_eq!(ins.nnn, 0x12F);
}

#[test]
fn fetch_reads_big_endian_word() {
    let chip8 = machine_with(&[0x12, 0x34]);
    assert_eq!(chip8.fetch(), 0x1234);
}

#[test]
fn fetch_wraps_at_end_of_memory() {
    let mut chip8 = Chip8::default();
    chip8.memory[0xFFF] = 0xA1;
    chip8.memory[0x000] = 0x23;
    chip8.pc = 0xFFF;
    assert_eq!(chip8.fetch(), 0xA123);
}

#[test]
fn load_immediate_changes_one_register_and_advances_by_two() {
    let mut chip8 = machine_with(&[0x63, 0x7E]);
    for r in 0..16 {
        chip8.v[r] = r as u8 + 1;
    }
    assert_eq!(chip8.emulate_cycle_using(0), Ok(false));
    assert_eq!(chip8.pc, 0x202);
    for r in 0..16 {
        if r == 3 {
            assert_eq!(chip8.v[r], 0x7E);
        } else {
            assert_eq!(chip8.v[r], r as u8 + 1);
        }
    }
}

#[test]
fn add_immediate_wraps_and_leaves_vf_alone() {
    let mut chip8 = Chip8::default();
    chip8.v[1] = 0xFF;
    chip8.v[0xF] = 0x42;
    let result = chip8.op_0x7xnn(1, 0x01);
    assert_eq!(result, ProgramCounterInstruction::NEXT);
    assert_eq!(chip8.v[1], 0x00);
    assert_eq!(chip8.v[0xF], 0x42);
}

#[test]
fn add_registers_wraps_and_sets_carry() {
    let mut chip8 = Chip8::default();
    chip8.v[1] = 0xFF;
    chip8.v[2] = 0x01;
    chip8.op_0x8xy4(1, 2);
    assert_eq!(chip8.v[1], 0x00);
    assert_eq!(chip8.v[0xF], 1);
}

#[test]
fn add_into_vf_keeps_the_carry() {
    let mut chip8 = Chip8::default();
    chip8.v[0xF] = 0x80;
    chip8.v[2] = 0x90;
    chip8.op_0x8xy4(0xF, 2);
    assert_eq!(chip8.v[0xF], 1);
}

#[test]
fn subtract_with_borrow_clears_vf() {
    let mut chip8 = Chip8::default();
    chip8.v[1] = 0x00;
    chip8.v[2] = 0x01;
    chip8.op_0x8xy5(1, 2);
    assert_eq!(chip8.v[1], 0xFF);
    assert_eq!(chip8.v[0xF], 0);
}

#[test]
fn subtract_without_borrow_sets_vf() {
    let mut chip8 = Chip8::default();
    chip8.v[1] = 0xFF;
    chip8.v[2] = 0x01;
    chip8.op_0x8xy5(1, 2);
    assert_eq!(chip8.v[1], 0xFE);
    assert_eq!(chip8.v[0xF], 1);
}

#[test]
fn subtract_equal_values_clears_vf() {
    let mut chip8 = Chip8::default();
    chip8.v[1] = 0x33;
    chip8.v[2] = 0x33;
    chip8.op_0x8xy5(1, 2);
    assert_eq!(chip8.v[1], 0x00);
    assert_eq!(chip8.v[0xF], 0);
}

#[test]
fn shift_right_into_vf_keeps_shifted_value() {
    let mut chip8 = Chip8::default();
    chip8.v[0xF] = 0x03;
    chip8.op_0x8xy6(0xF);
    assert_eq!(chip8.v[0xF], 0x01);
}

#[test]
fn shift_left_drops_high_bit() {
    let mut chip8 = Chip8::default();
    chip8.v[4] = 0x81;
    chip8.op_0x8xye(4);
    assert_eq!(chip8.v[4], 0x02);
    assert_eq!(chip8.v[0xF], 1);
}

#[test]
fn call_then_return_resumes_after_call() {
    // 0x200: call 0x300; 0x300: return
    let mut chip8 = machine_with(&[0x23, 0x00]);
    chip8.memory[0x300] = 0x00;
    chip8.memory[0x301] = 0xEE;
    assert_eq!(chip8.emulate_cycle_using(0), Ok(false));
    assert_eq!(chip8.pc, 0x300);
    assert_eq!(chip8.stack.len(), 1);
    assert_eq!(chip8.emulate_cycle_using(0), Ok(false));
    assert_eq!(chip8.pc, 0x202);
    assert!(chip8.stack.is_empty());
}

#[test]
fn return_from_subroutine_jumps_after_recorded_call() {
    let mut chip8 = Chip8::default();
    chip8.stack.push(0x234);
    let result = chip8.op_0x00ee();
    assert_eq!(result, Ok(ProgramCounterInstruction::GOTO(0x236)));
    assert!(chip8.stack.is_empty());
}

#[test]
fn return_with_empty_stack_is_underflow_and_changes_nothing() {
    let mut chip8 = machine_with(&[0x00, 0xEE]);
    chip8.delay_timer = 5;
    chip8.v[3] = 9;
    let result = chip8.emulate_cycle_using(0);
    assert_eq!(
        result,
        Err(Halt { fault: Fault::StackUnderflow, opcode: 0x00EE, pc: 0x200 })
    );
    assert_eq!(chip8.pc, 0x200);
    assert_eq!(chip8.delay_timer, 5);
    assert_eq!(chip8.v[3], 9);
    assert!(chip8.stack.is_empty());
    assert!(chip8.emulate_cycle_using(0).is_err());
    assert_eq!(chip8.pc, 0x200);
    assert_eq!(chip8.delay_timer, 5);
}

#[test]
fn call_with_full_stack_is_overflow() {
    // 0x200: call 0x200, forever
    let mut chip8 = machine_with(&[0x22, 0x00]);
    for _ in 0..16 {
        assert_eq!(chip8.emulate_cycle_using(0), Ok(false));
    }
    assert_eq!(chip8.stack.len(), 16);
    let result = chip8.emulate_cycle_using(0);
    assert_eq!(
        result,
        Err(Halt { fault: Fault::StackOverflow, opcode: 0x2200, pc: 0x200 })
    );
    assert_eq!(chip8.stack.len(), 16);
}

#[test]
fn unknown_opcodes_are_decode_errors() {
    for word in [0xF007u16, 0x0123, 0x8008, 0xE0FF, 0x5121, 0x9AB3] {
        let mut chip8 = machine_with(&[(word >> 8) as u8, (word & 0xFF) as u8]);
        let result = chip8.emulate_cycle_using(0);
        assert_eq!(
            result,
            Err(Halt { fault: Fault::DecodeError, opcode: word, pc: 0x200 })
        );
        assert_eq!(chip8.pc, 0x200);
    }
}

#[test]
fn skip_instructions_move_by_four_or_two() {
    // 3xnn equal, 3xnn unequal, 4xnn unequal, 4xnn equal,
    // 5xy0 equal, 5xy0 unequal, 9xy0 unequal, 9xy0 equal
    let cases: [([u8; 2], u8, u8, u16); 8] = [
        ([0x31, 0x07], 0x07, 0x00, 0x204),
        ([0x31, 0x07], 0x08, 0x00, 0x202),
        ([0x41, 0x07], 0x08, 0x00, 0x204),
        ([0x41, 0x07], 0x07, 0x00, 0x202),
        ([0x51, 0x20], 0x05, 0x05, 0x204),
        ([0x51, 0x20], 0x05, 0x06, 0x202),
        ([0x91, 0x20], 0x05, 0x06, 0x204),
        ([0x91, 0x20], 0x05, 0x05, 0x202),
    ];
    for (word, v1, v2, expected) in cases {
        let mut chip8 = machine_with(&word);
        chip8.v[1] = v1;
        chip8.v[2] = v2;
        assert_eq!(chip8.emulate_cycle_using(0), Ok(false));
        assert_eq!(chip8.pc, expected);
    }
}

#[test]
fn jump_with_offset_is_kept_in_address_space() {
    let mut chip8 = machine_with(&[0xBF, 0xFF]);
    chip8.v[0] = 0x02;
    assert_eq!(chip8.emulate_cycle_using(0), Ok(false));
    assert_eq!(chip8.pc, 0x001);
}

#[test]
fn apply_pc_moves_by_each_kind() {
    let mut chip8 = Chip8::default();
    chip8.apply_pc(ProgramCounterInstruction::NEXT);
    assert_eq!(chip8.pc, 0x202);
    chip8.apply_pc(ProgramCounterInstruction::SKIP);
    assert_eq!(chip8.pc, 0x206);
    chip8.apply_pc(ProgramCounterInstruction::GOTO(0x345));
    assert_eq!(chip8.pc, 0x345);
    chip8.pc = 0xFFE;
    chip8.apply_pc(ProgramCounterInstruction::NEXT);
    assert_eq!(chip8.pc, 0x000);
}

#[test]
fn draw_twice_restores_screen_and_reports_collision() {
    // I <- 0x300; draw 2 rows at (V1, V2); draw again
    let mut chip8 = machine_with(&[0xA3, 0x00, 0xD1, 0x22, 0xD1, 0x22]);
    chip8.memory[0x300] = 0b1010_0000;
    chip8.memory[0x301] = 0b0000_0001;
    chip8.v[1] = 10;
    chip8.v[2] = 5;
    let before = chip8.gfx;
    assert_eq!(chip8.emulate_cycle_using(0), Ok(false));
    assert_eq!(chip8.emulate_cycle_using(0), Ok(false));
    assert_eq!(chip8.v[0xF], 0);
    assert!(chip8.draw_flag);
    assert!(chip8.gfx[5 * 64 + 10]);
    assert!(!chip8.gfx[5 * 64 + 11]);
    assert!(chip8.gfx[5 * 64 + 12]);
    assert!(chip8.gfx[6 * 64 + 17]);
    assert_eq!(chip8.gfx.iter().filter(|&&p| p).count(), 3);
    chip8.draw_flag = false;
    assert_eq!(chip8.emulate_cycle_using(0), Ok(false));
    assert_eq!(chip8.v[0xF], 1);
    assert!(chip8.draw_flag);
    assert_eq!(chip8.gfx, before);
    assert_eq!(chip8.i, 0x300);
}

#[test]
fn draw_wraps_around_screen_edges() {
    let mut chip8 = Chip8::default();
    chip8.i = 0x300;
    chip8.memory[0x300] = 0xFF;
    chip8.memory[0x301] = 0x80;
    let collision = chip8.draw(60, 31, 2);
    assert!(!collision);
    for col in [60usize, 61, 62, 63, 0, 1, 2, 3] {
        assert!(chip8.gfx[31 * 64 + col]);
    }
    assert!(chip8.gfx[60]);
    assert_eq!(chip8.gfx.iter().filter(|&&p| p).count(), 9);
}

#[test]
fn draw_partial_overlap_reports_collision_on_set_pixel_only() {
    let mut chip8 = Chip8::default();
    chip8.i = 0x300;
    chip8.memory[0x300] = 0b1100_0000;
    chip8.gfx[1] = true;
    chip8.gfx[5] = true;
    let collision = chip8.draw(0, 0, 1);
    assert!(collision);
    assert!(chip8.gfx[0]);
    assert!(!chip8.gfx[1]);
    assert!(chip8.gfx[5]);
}

#[test]
fn draw_without_overlap_clears_vf() {
    let mut chip8 = Chip8::default();
    chip8.i = 0x300;
    chip8.memory[0x300] = 0xF0;
    chip8.v[0xF] = 7;
    chip8.gfx[100] = true;
    let result = chip8.op_0xdxyn(0, 1, 1);
    assert_eq!(result, ProgramCounterInstruction::NEXT);
    assert_eq!(chip8.v[0xF], 0);
    assert!(chip8.gfx[100]);
}

#[test]
fn clear_screen_blanks_and_raises_flag() {
    let mut chip8 = machine_with(&[0x00, 0xE0]);
    chip8.gfx[7] = true;
    chip8.gfx[2047] = true;
    assert_eq!(chip8.emulate_cycle_using(0), Ok(false));
    assert!(chip8.gfx.iter().all(|&p| !p));
    assert!(chip8.draw_flag);
    assert_eq!(chip8.pc, 0x202);
}

#[test]
fn key_skips_follow_keypad() {
    let mut chip8 = Chip8::default();
    let mut keys = [false; 16];
    keys[0xA] = true;
    chip8.set_keys(keys);
    chip8.v[3] = 0xA;
    assert!(chip8.key_pressed(0xA));
    assert!(!chip8.key_pressed(0xB));
    assert!(!chip8.key_pressed(0x1A));
    assert_eq!(chip8.op_0xex9e(3), ProgramCounterInstruction::SKIP);
    assert_eq!(chip8.op_0xexa1(3), ProgramCounterInstruction::NEXT);
    chip8.v[3] = 0xB;
    assert_eq!(chip8.op_0xex9e(3), ProgramCounterInstruction::NEXT);
    assert_eq!(chip8.op_0xexa1(3), ProgramCounterInstruction::SKIP);
}

#[test]
fn timers_count_down_to_zero_and_stay() {
    // 0x200: jump 0x200, forever
    let mut chip8 = machine_with(&[0x12, 0x00]);
    chip8.delay_timer = 3;
    chip8.sound_timer = 2;
    let mut tone_ends = 0;
    let mut delays = Vec::new();
    let mut sounds = Vec::new();
    for _ in 0..5 {
        if chip8.emulate_cycle_using(0) == Ok(true) {
            tone_ends += 1;
        }
        delays.push(chip8.delay_timer);
        sounds.push(chip8.sound_timer);
    }
    assert_eq!(delays, vec![2, 1, 0, 0, 0]);
    assert_eq!(sounds, vec![1, 0, 0, 0, 0]);
    assert_eq!(tone_ends, 1);
}

#[test]
fn tick_timers_reports_tone_end_once() {
    let mut chip8 = Chip8::default();
    chip8.sound_timer = 1;
    assert!(chip8.tick_timers());
    assert_eq!(chip8.sound_timer, 0);
    assert!(!chip8.tick_timers());
}

#[test]
fn random_byte_is_masked() {
    let mut chip8 = Chip8::default();
    chip8.op_0xcxnn_using(2, 0x0F, 0xAB);
    assert_eq!(chip8.v[2], 0x0B);
    for _ in 0..32 {
        chip8.op_0xcxnn(2, 0x0F);
        assert_eq!(chip8.v[2] & 0xF0, 0);
        chip8.op_0xcxnn(2, 0x00);
        assert_eq!(chip8.v[2], 0);
    }
}

#[test]
fn emulate_cycle_draws_random_for_cxnn() {
    let mut chip8 = machine_with(&[0xC4, 0x00]);
    chip8.v[4] = 0x55;
    assert_eq!(chip8.emulate_cycle(), Ok(false));
    assert_eq!(chip8.v[4], 0);
    assert_eq!(chip8.pc, 0x202);
}
