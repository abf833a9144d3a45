use chip8::emulator::{Chip8, Fault};

#[test]
fn skip_if_key_down() {
    let mut m = Chip8::new();
    m.execute_instruction(0x6307);
    m.execute_instruction(0xE39E);
    assert_eq!(m.pc(), 0x204);
    m.keyboard.keymap[7] = true;
    m.execute_instruction(0xE39E);
    assert_eq!(m.pc(), 0x208);
}

#[test]
fn skip_if_key_up() {
    let mut m = Chip8::new();
    m.execute_instruction(0x6307);
    m.execute_instruction(0xE3A1);
    assert_eq!(m.pc(), 0x206);
    m.keyboard.keymap[7] = true;
    m.execute_instruction(0xE3A1);
    assert_eq!(m.pc(), 0x208);
}

#[test]
fn skip_on_a_key_that_does_not_exist_is_a_fault() {
    let mut m = Chip8::new();
    m.execute_instruction(0x630F);
    assert_eq!(m.fault(0xE39E), None);
    assert_eq!(m.fault(0xE3A1), None);
    m.execute_instruction(0x6310);
    assert_eq!(m.fault(0xE39E), Some(Fault::NoSuchKey));
    assert_eq!(m.fault(0xE3A1), Some(Fault::NoSuchKey));
}

#[test]
fn wait_key_blocks_while_no_key_is_down() {
    let mut m = Chip8::new();
    m.execute_instruction(0x6455);
    for _ in 0..100 {
        m.execute_instruction(0xF40A);
        assert_eq!(m.pc(), 0x202);
        assert_eq!(m.registers()[4], 0x55);
    }
}

#[test]
fn wait_key_advances_once_a_key_is_down() {
    let mut m = Chip8::new();
    m.execute_instruction(0xF40A);
    m.execute_instruction(0xF40A);
    assert_eq!(m.pc(), 0x200);
    m.keyboard.keymap[9] = true;
    m.execute_instruction(0xF40A);
    assert_eq!(m.pc(), 0x202);
    assert_eq!(m.registers()[4], 9);
}

#[test]
fn wait_key_takes_the_lowest_key() {
    let mut m = Chip8::new();
    m.keyboard.keymap[12] = true;
    m.keyboard.keymap[3] = true;
    m.keyboard.keymap[15] = true;
    m.execute_instruction(0xF10A);
    assert_eq!(m.registers()[1], 3);
    assert_eq!(m.pc(), 0x202);
}

#[test]
fn wait_key_sees_key_zero_and_key_fifteen() {
    let mut m = Chip8::new();
    m.execute_instruction(0x6199);
    m.keyboard.keymap[0] = true;
    m.execute_instruction(0xF10A);
    assert_eq!(m.registers()[1], 0);
    assert_eq!(m.pc(), 0x204);

    let mut m = Chip8::new();
    m.keyboard.keymap[15] = true;
    m.execute_instruction(0xF10A);
    assert_eq!(m.registers()[1], 15);
}

#[test]
fn wait_key_through_frames_blocks_then_resumes() {
    let mut m = Chip8::new();
    m.load(&[0xF2, 0x0A, 0x12, 0x02]);
    let mut keys = [false; 16];
    for _ in 0..5 {
        assert_eq!(m.frame_fault(), None);
        m.run(keys);
        assert_eq!(m.pc(), 0x200);
    }
    keys[6] = true;
    keys[11] = true;
    m.run(keys);
    assert_eq!(m.pc(), 0x202);
    assert_eq!(m.registers()[2], 6);
    m.run(keys);
    assert_eq!(m.pc(), 0x202);
}
