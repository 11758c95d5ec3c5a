use chip8::instruction::decode;
use chip8::{Chip8, Chip8Config, ExecError, Instruction, Key, KeyError, MemoryError, FONT_ADDR, FONT_DATA};

#[test]
fn new_machine_holds_the_font_and_starts_at_0x200() {
    let chip8 = Chip8::new().unwrap();
    assert_eq!(chip8.memory.data[FONT_ADDR..FONT_ADDR + 80], FONT_DATA);
    assert_eq!(chip8.memory.data[FONT_ADDR - 1], 0);
    assert_eq!(chip8.memory.data[FONT_ADDR + 80], 0);
    assert_eq!(chip8.pc, 0x200);
    assert_eq!(chip8.sp, 0);
    assert_eq!(chip8.config, Chip8Config::new());
    assert_eq!(chip8.config.ops_per_cycle, 11);
    assert!(!chip8.is_fb_dirty());
    assert!(!chip8.is_sound_playing());
}

#[test]
fn builders_set_the_quirks() {
    let chip8 = Chip8::new()
        .unwrap()
        .legacy_shift(true)
        .jump_add_offset(true)
        .memory_increment_i(true)
        .print_operations(true)
        .ops_per_cycle(3);
    assert!(chip8.config.legacy_shift);
    assert!(chip8.config.jump_add_offset);
    assert!(chip8.config.memory_increment_i);
    assert!(chip8.config.print_operations);
    assert_eq!(chip8.config.ops_per_cycle, 3);
}

#[test]
fn rom_too_large_is_refused() {
    let mut chip8 = Chip8::new().unwrap();
    chip8.pc = 0x300;
    let rom = vec![0xAAu8; 4096 - 0x200 + 1];
    assert_eq!(chip8.load_rom(&rom), Err(MemoryError::Overflow));
    assert_eq!(chip8.pc, 0x300);
    assert_eq!(chip8.memory.data[0x200], 0);
    let rom = vec![0xAAu8; 4096 - 0x200];
    assert_eq!(chip8.load_rom(&rom), Ok(()));
    assert_eq!(chip8.pc, 0x200);
    assert_eq!(chip8.memory.data[0xFFF], 0xAA);
}

#[test]
fn decode_splits_the_word() {
    assert_eq!(decode(0x8AB4), Some(Instruction::RegAdd { x: 0xA, y: 0xB }));
    assert_eq!(decode(0xD12F), Some(Instruction::Draw { x: 1, y: 2, n: 0xF }));
    assert_eq!(decode(0xB123), Some(Instruction::JumpWithOffset { nnn: 0x123, x: 1 }));
    assert_eq!(decode(0xF265), Some(Instruction::MemoryLoad { x: 2 }));
    assert_eq!(decode(0x00E0), Some(Instruction::ClearScreen));
    assert_eq!(decode(0x0123), None);
    assert_eq!(decode(0x8AB8), None);
    assert_eq!(decode(0xE1FF), None);
    assert_eq!(decode(0xF1FF), None);
}

#[test]
fn invalid_opcode_is_fatal_and_changes_nothing() {
    let mut chip8 = Chip8::new().unwrap();
    chip8.load_rom(&[0x01, 0x23]).unwrap();
    assert_eq!(chip8.step(), Err(ExecError::InvalidOpcode { opcode: 0x0123, addr: 0x200 }));
    assert_eq!(chip8.pc, 0x200);
}

#[test]
fn pc_at_the_end_of_memory_is_fatal() {
    let mut chip8 = Chip8::new().unwrap();
    chip8.pc = 0xFFF;
    assert_eq!(chip8.step(), Err(ExecError::PcOutOfBounds { pc: 0xFFF }));
    assert_eq!(chip8.pc, 0xFFF);
}

#[test]
fn return_with_empty_stack_is_fatal() {
    let mut chip8 = Chip8::new().unwrap();
    chip8.load_rom(&[0x00, 0xEE]).unwrap();
    assert_eq!(chip8.step(), Err(ExecError::StackUnderflow));
    assert_eq!(chip8.pc, 0x200);
}

#[test]
fn call_with_full_stack_is_fatal() {
    let mut chip8 = Chip8::new().unwrap();
    chip8.load_rom(&[0x22, 0x00]).unwrap();
    for _ in 0..16 {
        chip8.step().unwrap();
    }
    assert_eq!(chip8.sp, 16);
    assert_eq!(chip8.stack[15], 0x202);
    assert_eq!(chip8.step(), Err(ExecError::StackOverflow));
    assert_eq!(chip8.sp, 16);
    assert_eq!(chip8.pc, 0x200);
}

#[test]
fn call_then_return_resumes_after_the_call() {
    let mut chip8 = Chip8::new().unwrap();
    chip8
        .load_rom(&[0x00, 0xE0, 0x22, 0x08, 0x00, 0xE0, 0x00, 0xE0, 0x00, 0xEE])
        .unwrap();
    chip8.pc = 0x202;
    chip8.step().unwrap();
    assert_eq!(chip8.pc, 0x208);
    assert_eq!(chip8.stack[0], 0x204);
    assert_eq!(chip8.sp, 1);
    chip8.step().unwrap();
    assert_eq!(chip8.pc, 0x204);
    assert_eq!(chip8.sp, 0);
}

#[test]
fn decimal_store_past_memory_is_fatal() {
    let mut chip8 = Chip8::new().unwrap();
    chip8.load_rom(&[0xF0, 0x33]).unwrap();
    chip8.v[0] = 255;
    chip8.i = 0xFFE;
    assert_eq!(chip8.step(), Err(ExecError::MemoryOutOfBounds { index: 0xFFE }));
    assert_eq!(chip8.memory.data[0xFFE..], [0, 0]);
    chip8.i = 0xFFD;
    chip8.step().unwrap();
    assert_eq!(chip8.memory.data[0xFFD..], [2, 5, 5]);
}

#[test]
fn block_store_past_memory_is_fatal() {
    let mut chip8 = Chip8::new().unwrap().memory_increment_i(true);
    chip8.load_rom(&[0xF3, 0x55]).unwrap();
    chip8.v[0] = 9;
    chip8.i = 0xFFD;
    assert_eq!(chip8.step(), Err(ExecError::MemoryOutOfBounds { index: 0xFFD }));
    assert_eq!(chip8.i, 0xFFD);
    assert_eq!(chip8.memory.data[0xFFD], 0);
}

#[test]
fn block_load_with_increment_advances_index() {
    let mut chip8 = Chip8::new().unwrap().memory_increment_i(true);
    chip8.load_rom(&[0xF1, 0x65]).unwrap();
    chip8.memory.data[0x400] = 4;
    chip8.memory.data[0x401] = 5;
    chip8.i = 0x400;
    chip8.step().unwrap();
    assert_eq!(chip8.v[0..3], [4, 5, 0]);
    assert_eq!(chip8.i, 0x402);
}

#[test]
fn key_register_above_f_is_fatal() {
    let mut chip8 = Chip8::new().unwrap();
    chip8.load_rom(&[0xE1, 0x9E]).unwrap();
    chip8.v[1] = 0x10;
    assert_eq!(chip8.step(), Err(ExecError::InvalidKey { key: 0x10 }));
    assert_eq!(chip8.pc, 0x200);
}

#[test]
fn draw_twice_erases_and_reports_collision() {
    let mut chip8 = Chip8::new().unwrap();
    chip8.load_rom(&[0xD0, 0x11, 0xD0, 0x11, 0b1100_0000]).unwrap();
    chip8.i = 0x204;
    chip8.v[0] = 10;
    chip8.v[1] = 5;
    chip8.step().unwrap();
    assert_eq!(chip8.v[0xF], 0);
    assert!(chip8.display.is_set(10, 5));
    assert!(chip8.display.is_set(11, 5));
    assert!(!chip8.display.is_set(12, 5));
    let _ = chip8.fb();
    chip8.step().unwrap();
    assert_eq!(chip8.v[0xF], 1);
    assert!(!chip8.display.is_set(10, 5));
    assert!(!chip8.display.is_set(11, 5));
    assert!(chip8.is_fb_dirty());
}

#[test]
fn draw_collision_flag_stays_set_for_the_whole_sprite() {
    let mut chip8 = Chip8::new().unwrap();
    chip8.load_rom(&[0xD0, 0x12, 0b1000_0000, 0b0100_0000]).unwrap();
    chip8.i = 0x202;
    chip8.display.toggle(0, 0);
    chip8.step().unwrap();
    assert_eq!(chip8.v[0xF], 1);
    assert!(!chip8.display.is_set(0, 0));
    assert!(chip8.display.is_set(1, 1));
}

#[test]
fn draw_wraps_the_origin_and_clips_the_sprite() {
    let mut chip8 = Chip8::new().unwrap();
    chip8.load_rom(&[0xD0, 0x13, 0xFF, 0xFF, 0xFF]).unwrap();
    chip8.i = 0x202;
    chip8.v[0] = 64 + 60;
    chip8.v[1] = 32 + 30;
    chip8.step().unwrap();
    assert!(chip8.display.is_set(60, 30));
    assert!(chip8.display.is_set(63, 31));
    assert!(!chip8.display.is_set(0, 30));
    assert!(!chip8.display.is_set(60, 0));
    let lit: usize = chip8.display.fb.iter().map(|row| row.iter().filter(|p| **p == 1).count()).sum();
    assert_eq!(lit, 8);
}

#[test]
fn draw_with_zero_rows_only_resets_the_flag() {
    let mut chip8 = Chip8::new().unwrap();
    chip8.load_rom(&[0xD0, 0x10]).unwrap();
    chip8.v[0xF] = 1;
    chip8.i = 0xFFFF;
    chip8.step().unwrap();
    assert_eq!(chip8.v[0xF], 0);
    assert!(!chip8.is_fb_dirty());
}

#[test]
fn wait_for_key_through_key_events() {
    let mut chip8 = Chip8::new().unwrap();
    chip8.load_rom(&[0xF3, 0x0A]).unwrap();
    for _ in 0..3 {
        chip8.step().unwrap();
        assert_eq!(chip8.pc, 0x200);
    }
    chip8.keydown(Key(Some(0xF))).unwrap();
    chip8.step().unwrap();
    chip8.step().unwrap();
    assert_eq!(chip8.pc, 0x200);
    assert_eq!(chip8.v[3], 0);
    chip8.keyup(Key(Some(0xF))).unwrap();
    chip8.step().unwrap();
    assert_eq!(chip8.v[3], 0xF);
    assert_eq!(chip8.pc, 0x202);
    assert_eq!(chip8.keypad.awaiting_release, None);
}

#[test]
fn wait_for_key_latches_the_lowest_key_down() {
    let mut chip8 = Chip8::new().unwrap();
    chip8.load_rom(&[0xF0, 0x0A]).unwrap();
    chip8.keydown(Key(Some(0x9))).unwrap();
    chip8.keydown(Key(Some(0x4))).unwrap();
    chip8.step().unwrap();
    assert_eq!(chip8.keypad.awaiting_release, Some(0x4));
    chip8.keyup(Key(Some(0x9))).unwrap();
    chip8.step().unwrap();
    assert_eq!(chip8.pc, 0x200);
    chip8.keyup(Key(Some(0x4))).unwrap();
    chip8.step().unwrap();
    assert_eq!(chip8.v[0], 0x4);
    assert_eq!(chip8.pc, 0x202);
}

#[test]
fn machine_refuses_key_above_f() {
    let mut chip8 = Chip8::new().unwrap();
    assert_eq!(chip8.keydown(Key(Some(0x10))), Err(KeyError::InvalidKey));
    assert_eq!(chip8.keyup(Key(Some(0x10))), Err(KeyError::InvalidKey));
    assert_eq!(chip8.keypad.keys, [0u8; 16]);
}

#[test]
fn random_uses_the_given_byte() {
    let mut chip8 = Chip8::new().unwrap();
    chip8.load_rom(&[0xC2, 0x3C]).unwrap();
    chip8.step_with(0x0F).unwrap();
    assert_eq!(chip8.v[2], 0x0C);
    chip8.pc = 0x200;
    chip8.step_with(0xFF).unwrap();
    assert_eq!(chip8.v[2], 0x3C);
    chip8.pc = 0x200;
    chip8.step().unwrap();
    assert_eq!(chip8.v[2] & !0x3C, 0);
}

#[test]
fn font_character_address() {
    let mut chip8 = Chip8::new().unwrap();
    chip8.load_rom(&[0xF0, 0x29]).unwrap();
    chip8.v[0] = 0xA;
    chip8.step().unwrap();
    assert_eq!(chip8.i, 0x50 + 50);
}

#[test]
fn add_to_index_wraps_at_sixteen_bits() {
    let mut chip8 = Chip8::new().unwrap();
    chip8.load_rom(&[0xF0, 0x1E]).unwrap();
    chip8.i = 0xFFFF;
    chip8.v[0] = 2;
    chip8.step().unwrap();
    assert_eq!(chip8.i, 1);
}

#[test]
fn flag_register_as_target_keeps_the_flag() {
    let mut chip8 = Chip8::new().unwrap();
    chip8.load_rom(&[0x8F, 0x04]).unwrap();
    chip8.v[0xF] = 200;
    chip8.v[0] = 100;
    chip8.step().unwrap();
    assert_eq!(chip8.v[0xF], 1);
}

#[test]
fn cycle_ticks_timers_then_runs_the_configured_count() {
    let mut chip8 = Chip8::new().unwrap();
    let rom: Vec<u8> = [0x70u8, 0x01].repeat(30);
    chip8.load_rom(&rom).unwrap();
    chip8.dt = 5;
    chip8.st = 1;
    assert!(chip8.is_sound_playing());
    chip8.cycle().unwrap();
    assert_eq!(chip8.v[0], 11);
    assert_eq!(chip8.pc, 0x200 + 22);
    assert_eq!(chip8.dt, 4);
    assert_eq!(chip8.st, 0);
    assert!(!chip8.is_sound_playing());
    chip8.cycle().unwrap();
    assert_eq!(chip8.st, 0);
    assert_eq!(chip8.dt, 3);
}

#[test]
fn cycle_stops_at_a_fatal_error() {
    let mut chip8 = Chip8::new().unwrap().ops_per_cycle(5);
    chip8.load_rom(&[0x70, 0x01, 0x70, 0x01, 0x00, 0x00]).unwrap();
    assert_eq!(chip8.cycle(), Err(ExecError::InvalidOpcode { opcode: 0, addr: 0x204 }));
    assert_eq!(chip8.v[0], 2);
    assert_eq!(chip8.pc, 0x204);
}
