use chip8::{Chip8, FONT_CHAR_LENGTH, FONT_DATA, SCREEN_HEIGHT, SCREEN_WIDTH};

#[test]
fn test_op_cls() {
    let mut chip8 = Chip8::new().unwrap();
    chip8.load_rom(&[0x00, 0xE0]).unwrap();
    assert_eq!(chip8.display.toggle(0, 0), false);
    chip8.step().unwrap();
    assert_eq!(chip8.display.is_set(0, 0), false);
}

#[test]
fn test_op_sub_return() {
    let mut chip8 = Chip8::new().unwrap();
    chip8.load_rom(&[0x00, 0x00, 0x00, 0xEE]).unwrap();
    chip8.pc += 2;
    chip8.stack[0] = 0x200;
    chip8.sp += 1;
    chip8.step().unwrap();
    assert_eq!(chip8.pc, 0x200);
}

#[test]
fn test_op_jump() {
    let mut chip8 = Chip8::new().unwrap();
    chip8.load_rom(&[0x11, 0x2C]).unwrap();
    chip8.step().unwrap();
    assert_eq!(chip8.pc, 300);
}

#[test]
fn test_op_sub_call() {
    let mut chip8 = Chip8::new().unwrap();
    chip8.load_rom(&[0x00, 0x00, 0x22, 0x00]).unwrap();
    chip8.pc += 2;
    chip8.step().unwrap();
    assert_eq!(chip8.pc, 0x200);
    assert_eq!(chip8.stack[0], 0x204);
    assert_eq!(chip8.sp, 1);
}

#[test]
fn test_op_skip_eq() {
    let mut chip8 = Chip8::new().unwrap();
    chip8.load_rom(&[0x30, 0x10]).unwrap();

    chip8.step().unwrap();
    assert_eq!(chip8.pc, 0x202);

    chip8.pc = 0x200;
    chip8.v[0] = 0x10;
    chip8.step().unwrap();
    assert_eq!(chip8.pc, 0x204);
}

#[test]
fn test_op_skip_ne() {
    let mut chip8 = Chip8::new().unwrap();
    chip8.load_rom(&[0x40, 0x10]).unwrap();

    chip8.step().unwrap();
    assert_eq!(chip8.pc, 0x204);

    chip8.pc = 0x200;
    chip8.v[0] = 0x10;
    chip8.step().unwrap();
    assert_eq!(chip8.pc, 0x202);
}

#[test]
fn test_op_skip_reg_eq() {
    let mut chip8 = Chip8::new().unwrap();
    chip8.load_rom(&[0x50, 0x10]).unwrap();

    chip8.step().unwrap();
    assert_eq!(chip8.pc, 0x204);

    chip8.pc = 0x200;
    chip8.v[1] = 0x10;
    chip8.step().unwrap();
    assert_eq!(chip8.pc, 0x202);
}

#[test]
fn test_op_set() {
    let mut chip8 = Chip8::new().unwrap();
    chip8.load_rom(&[0x60, 0xAA]).unwrap();
    chip8.step().unwrap();
    assert_eq!(chip8.v[0], 0xAA);
}

#[test]
fn test_op_add() {
    let mut chip8 = Chip8::new().unwrap();
    chip8.load_rom(&[0x70, 0x20]).unwrap();

    chip8.v[0] = 16;
    chip8.step().unwrap();
    assert_eq!(chip8.v[0], 48);

    chip8.pc = 0x200;
    chip8.v[0] = 0xFE;
    chip8.step().unwrap();
    assert_eq!(chip8.v[0], 30);
}

#[test]
fn test_op_reg_set() {
    let mut chip8 = Chip8::new().unwrap();
    chip8.load_rom(&[0x80, 0x10]).unwrap();
    chip8.v[0] = 10;
    chip8.v[1] = 20;
    chip8.step().unwrap();
    assert_eq!(chip8.v[0], 20);
}

#[test]
fn test_op_reg_or() {
    let mut chip8 = Chip8::new().unwrap();
    chip8.load_rom(&[0x80, 0x11]).unwrap();
    chip8.v[0] = 0b10010000;
    chip8.v[1] = 0b11000001;
    chip8.step().unwrap();
    assert_eq!(chip8.v[0], 0b11010001);
}

#[test]
fn test_op_reg_and() {
    let mut chip8 = Chip8::new().unwrap();
    chip8.load_rom(&[0x80, 0x12]).unwrap();
    chip8.v[0] = 0b10010001;
    chip8.v[1] = 0b11000001;
    chip8.step().unwrap();
    assert_eq!(chip8.v[0], 0b10000001);
}

#[test]
fn test_op_reg_xor() {
    let mut chip8 = Chip8::new().unwrap();
    chip8.load_rom(&[0x80, 0x13]).unwrap();
    chip8.v[0] = 0b10010001;
    chip8.v[1] = 0b11000001;
    chip8.step().unwrap();
    assert_eq!(chip8.v[0], 0b01010000);
}

#[test]
fn test_op_reg_add() {
    let mut chip8 = Chip8::new().unwrap();
    chip8.load_rom(&[0x80, 0x14]).unwrap();

    chip8.v[0] = 200;
    chip8.v[1] = 100;
    chip8.step().unwrap();
    assert_eq!(chip8.v[0], 44);
    assert_eq!(chip8.v[0xF], 1);

    chip8.pc = 0x200;
    chip8.v[0] = 10;
    chip8.v[1] = 20;
    chip8.step().unwrap();
    assert_eq!(chip8.v[0], 30);
    assert_eq!(chip8.v[0xF], 0);
}

#[test]
fn test_op_reg_sub_right() {
    let mut chip8 = Chip8::new().unwrap();
    chip8.load_rom(&[0x80, 0x15]).unwrap();

    chip8.v[0] = 100;
    chip8.v[1] = 25;
    chip8.step().unwrap();
    assert_eq!(chip8.v[0], 75);
    assert_eq!(chip8.v[0xF], 1);

    chip8.pc = 0x200;
    chip8.v[0] = 25;
    chip8.v[1] = 100;
    chip8.step().unwrap();
    assert_eq!(chip8.v[0], 181);
    assert_eq!(chip8.v[0xF], 0);
}

#[test]
fn test_op_reg_shift_right() {
    let mut chip8 = Chip8::new().unwrap();
    chip8.load_rom(&[0x80, 0x16]).unwrap();

    chip8.v[0] = 0b00000100;
    chip8.step().unwrap();
    assert_eq!(chip8.v[0], 0b00000010);
    assert_eq!(chip8.v[0xF], 0);

    chip8 = chip8.legacy_shift(true);
    chip8.pc = 0x200;
    chip8.v[0] = 0b0;
    chip8.v[1] = 0b00000101;
    chip8.step().unwrap();
    assert_eq!(chip8.v[0], 0b00000010);
    assert_eq!(chip8.v[0xF], 1);
}

#[test]
fn test_op_reg_sub_left() {
    let mut chip8 = Chip8::new().unwrap();
    chip8.load_rom(&[0x80, 0x17]).unwrap();

    chip8.v[0] = 25;
    chip8.v[1] = 100;
    chip8.step().unwrap();
    assert_eq!(chip8.v[0], 75);
    assert_eq!(chip8.v[0xF], 1);

    chip8.pc = 0x200;
    chip8.v[0] = 100;
    chip8.v[1] = 25;
    chip8.step().unwrap();
    assert_eq!(chip8.v[0], 181);
    assert_eq!(chip8.v[0xF], 0);
}

#[test]
fn test_op_reg_shift_left() {
    let mut chip8 = Chip8::new().unwrap();
    chip8.load_rom(&[0x80, 0x1E]).unwrap();

    chip8.v[0] = 0b00100000;
    chip8.step().unwrap();
    assert_eq!(chip8.v[0], 0b01000000);
    assert_eq!(chip8.v[0xF], 0);

    chip8 = chip8.legacy_shift(true);
    chip8.pc = 0x200;
    chip8.v[0] = 0b0;
    chip8.v[1] = 0b10100000;
    chip8.step().unwrap();
    assert_eq!(chip8.v[0], 0b01000000);
    assert_eq!(chip8.v[0xF], 1);
}

#[test]
fn test_op_skip_reg_ne() {
    let mut chip8 = Chip8::new().unwrap();
    chip8.load_rom(&[0x90, 0x10]).unwrap();

    chip8.step().unwrap();
    assert_eq!(chip8.pc, 0x202);

    chip8.pc = 0x200;
    chip8.v[1] = 0x10;
    chip8.step().unwrap();
    assert_eq!(chip8.pc, 0x204);
}

#[test]
fn test_op_set_index() {
    let mut chip8 = Chip8::new().unwrap();
    chip8.load_rom(&[0xA2, 0x22]).unwrap();
    chip8.step().unwrap();
    assert_eq!(chip8.i, 0x222);
}

#[test]
fn test_op_jump_with_offset() {
    let mut chip8 = Chip8::new().unwrap();
    chip8.load_rom(&[0xB3, 0x00]).unwrap();

    chip8.step().unwrap();
    assert_eq!(chip8.pc, 0x300);

    chip8 = chip8.jump_add_offset(true);
    chip8.pc = 0x200;
    chip8.v[3] = 0x10;
    chip8.step().unwrap();
    assert_eq!(chip8.pc, 0x300 + 0x10);
}

#[test]
fn test_op_random() {
    let mut chip8 = Chip8::new().unwrap();
    chip8.load_rom(&[0xC0, 0x10]).unwrap();
    chip8.step().unwrap();
    // can't easily test random operation, so we just make sure the operation doesn't panic
}

#[test]
fn test_op_display() {
    let mut chip8 = Chip8::new().unwrap();
    chip8.load_rom(&[
        0xD0, 0x12, // display
        0b00000010, // sprite
        0b00000001,
    ]).unwrap();

    let sx = SCREEN_WIDTH - 8;
    let sy = SCREEN_HEIGHT - 2;

    chip8.v[0] = sx as u8;
    chip8.v[1] = sy as u8;
    chip8.i = 0x202;
    chip8.step().unwrap();

    assert_eq!(chip8.display.is_set(sx + 6, sy), true);
    assert_eq!(chip8.display.is_set(sx + 7, sy), false);
    assert_eq!(chip8.display.is_set(sx + 6, sy + 1), false);
    assert_eq!(chip8.display.is_set(sx + 7, sy + 1), true);
}

#[test]
fn test_op_skip_if_key_down() {
    let mut chip8 = Chip8::new().unwrap();
    chip8.load_rom(&[0xE1, 0x9E]).unwrap();
    chip8.v[1] = 1;

    chip8.step().unwrap();
    assert_eq!(chip8.pc, 0x202);

    chip8.pc = 0x200;
    chip8.keypad.keys[1] = 1;
    chip8.step().unwrap();
    assert_eq!(chip8.pc, 0x204);
}

#[test]
fn test_op_skip_if_key_up() {
    let mut chip8 = Chip8::new().unwrap();
    chip8.load_rom(&[0xE1, 0xA1]).unwrap();
    chip8.v[1] = 1;

    chip8.step().unwrap();
    assert_eq!(chip8.pc, 0x204);

    chip8.pc = 0x200;
    chip8.keypad.keys[1] = 1;
    chip8.step().unwrap();
    assert_eq!(chip8.pc, 0x202);
}

#[test]
fn test_op_dt_get() {
    let mut chip8 = Chip8::new().unwrap();
    chip8.load_rom(&[0xF0, 0x07]).unwrap();
    chip8.dt = 0x10;
    chip8.step().unwrap();
    assert_eq!(chip8.v[0], 0x10);
}

#[test]
fn test_op_get_key() {
    let mut chip8 = Chip8::new().unwrap();
    chip8.load_rom(&[0xF0, 0x0A]).unwrap();

    chip8.step().unwrap();
    assert_eq!(chip8.v[0], 0);
    assert_eq!(chip8.pc, 0x200);

    chip8.keypad.keys[0xF] = 1;
    chip8.step().unwrap();
    chip8.step().unwrap(); // shouldn't register key press until it's released
    assert_eq!(chip8.v[0], 0);
    assert_eq!(chip8.pc, 0x200);

    chip8.keypad.keys[0xF] = 0;
    chip8.step().unwrap();
    assert_eq!(chip8.v[0], 0xF);
    assert_eq!(chip8.pc, 0x202);
}

#[test]
fn test_op_dt_set() {
    let mut chip8 = Chip8::new().unwrap();
    chip8.load_rom(&[0xF0, 0x15]).unwrap();
    chip8.v[0] = 0x10;
    chip8.step().unwrap();
    assert_eq!(chip8.dt, 0x10);
}

#[test]
fn test_op_st_set() {
    let mut chip8 = Chip8::new().unwrap();
    chip8.load_rom(&[0xF0, 0x18]).unwrap();
    chip8.v[0] = 0x10;
    chip8.step().unwrap();
    assert_eq!(chip8.st, 0x10);
}

#[test]
fn test_op_add_to_index() {
    let mut chip8 = Chip8::new().unwrap();
    chip8.load_rom(&[0xF0, 0x1E]).unwrap();
    chip8.i = 0x10;
    chip8.v[0] = 0x10;
    chip8.step().unwrap();
    assert_eq!(chip8.i, 0x20);
}

#[test]
fn test_op_font_character() {
    let mut chip8 = Chip8::new().unwrap();
    chip8.load_rom(&[0xF0, 0x29]).unwrap();

    chip8.v[0] = 0;
    chip8.step().unwrap();
    assert_eq!(
        chip8.memory.data[chip8.i as usize..chip8.i as usize + FONT_CHAR_LENGTH],
        FONT_DATA[0..0 + FONT_CHAR_LENGTH]
    );

    chip8.pc = 0x200;
    chip8.v[0] = 0xF;
    chip8.step().unwrap();
    assert_eq!(
        chip8.memory.data[chip8.i as usize..chip8.i as usize + FONT_CHAR_LENGTH],
        FONT_DATA[0xF * FONT_CHAR_LENGTH..0xF * FONT_CHAR_LENGTH + FONT_CHAR_LENGTH]
    );
}

#[test]
fn test_op_convert_to_decimal() {
    let mut chip8 = Chip8::new().unwrap();
    chip8.load_rom(&[0xF0, 0x33]).unwrap();
    chip8.v[0] = 156;
    chip8.i = 0x300;
    chip8.step().unwrap();
    assert_eq!(
        chip8.memory.data[chip8.i as usize..chip8.i as usize + 3],
        [1, 5, 6]
    );
}

#[test]
fn test_op_memory_store() {
    let mut chip8 = Chip8::new().unwrap();
    chip8.load_rom(&[0xF3, 0x55]).unwrap();

    chip8.v[0..3].copy_from_slice(&[0x20, 0x10, 0x30]);
    chip8.i = 0x300;
    chip8.step().unwrap();
    assert_eq!(chip8.i, 0x300);
    assert_eq!(chip8.memory.data[0x300..0x300 + 3], [0x20, 0x10, 0x30]);

    chip8 = chip8.memory_increment_i(true);
    chip8.pc = 0x200;
    chip8.step().unwrap();
    assert_eq!(chip8.i, 0x300 + 4);
    assert_eq!(chip8.memory.data[0x300..0x300 + 3], [0x20, 0x10, 0x30]);
}

#[test]
fn test_op_memory_load() {
    let mut chip8 = Chip8::new().unwrap();
    chip8.load_rom(&[0xF3, 0x65]).unwrap();

    chip8.memory.data[0x300..0x300 + 3].copy_from_slice(&[0x20, 0x10, 0x30]);
    chip8.i = 0x300;
    chip8.step().unwrap();
    assert_eq!(chip8.i, 0x300);
    assert_eq!(chip8.v[0..3], [0x20, 0x10, 0x30]);

    chip8 = chip8.memory_increment_i(true);
    chip8.pc = 0x200;
    chip8.step().unwrap();
    assert_eq!(chip8.i, 0x300 + 4);
    assert_eq!(chip8.v[0..3], [0x20, 0x10, 0x30]);
}
