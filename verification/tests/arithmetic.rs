use chip8::emulator::Chip8;

fn with_registers(values: &[(u16, u16)]) -> Chip8 {
    let mut m = Chip8::new();
    for &(x, value) in values {
        m.execute_instruction(0x6000 | (x << 8) | value);
    }
    m
}

#[test]
fn load_then_add_byte() {
    let mut m = Chip8::new();
    m.execute_instruction(0x6A05);
    assert_eq!(m.registers()[10], 5);
    assert_eq!(m.pc(), 0x202);
    m.execute_instruction(0x7A10);
    assert_eq!(m.registers()[10], 0x15);
    assert_eq!(m.pc(), 0x204);
    assert_eq!(m.registers()[15], 0);
}

#[test]
fn add_byte_wraps_and_leaves_flag_alone() {
    let mut m = with_registers(&[(1, 0xFF), (2, 0x01)]);
    m.execute_instruction(0x8124);
    assert_eq!(m.registers()[15], 1);
    m.execute_instruction(0x7303);
    assert_eq!(m.registers()[3], 3);
    assert_eq!(m.registers()[15], 1);
    m.execute_instruction(0x73FE);
    assert_eq!(m.registers()[3], 1);
    assert_eq!(m.registers()[15], 1);
}

#[test]
fn move_copies_register() {
    let mut m = with_registers(&[(1, 0x11), (2, 0x22)]);
    m.execute_instruction(0x8120);
    assert_eq!(m.registers()[1], 0x22);
    assert_eq!(m.registers()[2], 0x22);
    assert_eq!(m.pc(), 0x206);
}

#[test]
fn logic_operations_clear_the_flag() {
    let mut m = with_registers(&[(1, 0b1100), (2, 0b1010), (15, 1)]);
    m.execute_instruction(0x8121);
    assert_eq!(m.registers()[1], 0b1110);
    assert_eq!(m.registers()[15], 0);

    let mut m = with_registers(&[(1, 0b1100), (2, 0b1010), (15, 1)]);
    m.execute_instruction(0x8122);
    assert_eq!(m.registers()[1], 0b1000);
    assert_eq!(m.registers()[15], 0);

    let mut m = with_registers(&[(1, 0b1100), (2, 0b1010), (15, 1)]);
    m.execute_instruction(0x8123);
    assert_eq!(m.registers()[1], 0b0110);
    assert_eq!(m.registers()[15], 0);
    assert_eq!(m.pc(), 0x208);
}

#[test]
fn add_with_carry() {
    let mut m = with_registers(&[(1, 200), (2, 100)]);
    m.execute_instruction(0x8124);
    assert_eq!(m.registers()[1], 44);
    assert_eq!(m.registers()[15], 1);
    assert_eq!(m.pc(), 0x206);
}

#[test]
fn add_without_carry() {
    let mut m = with_registers(&[(1, 200), (2, 55), (15, 1)]);
    m.execute_instruction(0x8124);
    assert_eq!(m.registers()[1], 255);
    assert_eq!(m.registers()[15], 0);
}

#[test]
fn add_carry_for_every_pair() {
    for a in 0..=255u16 {
        for b in [0u16, 1, 2, 127, 128, 254, 255] {
            let mut m = with_registers(&[(3, a), (4, b)]);
            m.execute_instruction(0x8344);
            assert_eq!(m.registers()[3] as u16, (a + b) % 256);
            assert_eq!(m.registers()[15], if a + b > 255 { 1 } else { 0 });
        }
    }
}

#[test]
fn add_into_flag_register_keeps_the_flag() {
    let mut m = with_registers(&[(15, 200), (2, 100)]);
    m.execute_instruction(0x8F24);
    assert_eq!(m.registers()[15], 1);
    let mut m = with_registers(&[(15, 20), (2, 10)]);
    m.execute_instruction(0x8F24);
    assert_eq!(m.registers()[15], 0);
}

#[test]
fn subtract_without_borrow() {
    let mut m = with_registers(&[(1, 10), (2, 3)]);
    m.execute_instruction(0x8125);
    assert_eq!(m.registers()[1], 7);
    assert_eq!(m.registers()[15], 1);
}

#[test]
fn subtract_equal_values_sets_flag() {
    let mut m = with_registers(&[(1, 10), (2, 10)]);
    m.execute_instruction(0x8125);
    assert_eq!(m.registers()[1], 0);
    assert_eq!(m.registers()[15], 1);
}

#[test]
fn subtract_with_borrow_wraps() {
    let mut m = with_registers(&[(1, 3), (2, 10), (15, 1)]);
    m.execute_instruction(0x8125);
    assert_eq!(m.registers()[1], 249);
    assert_eq!(m.registers()[15], 0);
}

#[test]
fn subtract_from_without_borrow() {
    let mut m = with_registers(&[(1, 3), (2, 10)]);
    m.execute_instruction(0x8127);
    assert_eq!(m.registers()[1], 7);
    assert_eq!(m.registers()[2], 10);
    assert_eq!(m.registers()[15], 1);
}

#[test]
fn subtract_from_with_borrow_wraps() {
    let mut m = with_registers(&[(1, 10), (2, 3), (15, 1)]);
    m.execute_instruction(0x8127);
    assert_eq!(m.registers()[1], 249);
    assert_eq!(m.registers()[15], 0);
}

#[test]
fn subtract_flag_for_every_pair() {
    for a in 0..=255u16 {
        for b in [0u16, 1, 100, 128, 255] {
            let mut m = with_registers(&[(5, a), (6, b)]);
            m.execute_instruction(0x8565);
            assert_eq!(m.registers()[5] as u16, (256 + a - b) % 256);
            assert_eq!(m.registers()[15], if a >= b { 1 } else { 0 });

            let mut m = with_registers(&[(5, a), (6, b)]);
            m.execute_instruction(0x8567);
            assert_eq!(m.registers()[5] as u16, (256 + b - a) % 256);
            assert_eq!(m.registers()[15], if b >= a { 1 } else { 0 });
        }
    }
}

#[test]
fn shift_right_moves_low_bit_to_flag() {
    let mut m = with_registers(&[(1, 0b1000_0101)]);
    m.execute_instruction(0x8126);
    assert_eq!(m.registers()[1], 0b0100_0010);
    assert_eq!(m.registers()[15], 1);
    m.execute_instruction(0x8126);
    assert_eq!(m.registers()[1], 0b0010_0001);
    assert_eq!(m.registers()[15], 0);
}

#[test]
fn shift_left_moves_high_bit_to_flag() {
    let mut m = with_registers(&[(1, 0b1000_0101)]);
    m.execute_instruction(0x812E);
    assert_eq!(m.registers()[1], 0b0000_1010);
    assert_eq!(m.registers()[15], 1);
    m.execute_instruction(0x812E);
    assert_eq!(m.registers()[1], 0b0001_0100);
    assert_eq!(m.registers()[15], 0);
}

#[test]
fn shifts_for_every_byte() {
    for a in 0..=255u16 {
        let mut m = with_registers(&[(7, a)]);
        m.execute_instruction(0x8706);
        assert_eq!(m.registers()[7] as u16, a / 2);
        assert_eq!(m.registers()[15] as u16, a & 1);

        let mut m = with_registers(&[(7, a)]);
        m.execute_instruction(0x870E);
        assert_eq!(m.registers()[7] as u16, (a * 2) % 256);
        assert_eq!(m.registers()[15] as u16, a >> 7);
    }
}

#[test]
fn shift_of_flag_register_leaves_the_lost_bit() {
    let mut m = with_registers(&[(15, 0b0000_0110)]);
    m.execute_instruction(0x8F06);
    assert_eq!(m.registers()[15], 0);
    let mut m = with_registers(&[(15, 0b1000_0000)]);
    m.execute_instruction(0x8F0E);
    assert_eq!(m.registers()[15], 1);
}
