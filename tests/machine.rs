use chip8::error::Chip8Error;
use chip8::machine::Chip8;

fn machine_with(rom: &[u8]) -> Chip8 {
    let mut c = Chip8::new();
    c.insert_rom(rom.to_vec());
    c.load().unwrap();
    c
}

fn run(c: &mut Chip8, steps: usize) {
    for _ in 0..steps {
        c.step().unwrap();
    }
}

#[test]
fn add_sets_carry_flag() {
    let mut c = machine_with(&[0x60, 0xFF, 0x61, 0x01, 0x80, 0x14]);
    run(&mut c, 3);
    assert_eq!(c.cpu.v_registers[0], 0x00);
    assert_eq!(c.cpu.v_registers[0xF], 1);
    assert_eq!(c.cpu.read_pc(), 0x206);
}

#[test]
fn add_without_carry_clears_flag() {
    let mut c = machine_with(&[0x6F, 0x01, 0x60, 0x10, 0x61, 0x20, 0x80, 0x14]);
    run(&mut c, 4);
    assert_eq!(c.cpu.v_registers[0], 0x30);
    assert_eq!(c.cpu.v_registers[0xF], 0);
}

#[test]
fn subtract_with_borrow_wraps_and_clears_flag() {
    let mut c = machine_with(&[0x60, 0x01, 0x61, 0x02, 0x80, 0x15]);
    run(&mut c, 3);
    assert_eq!(c.cpu.v_registers[0], 0xFF);
    assert_eq!(c.cpu.v_registers[0xF], 0);
}

#[test]
fn subtract_without_borrow_sets_flag() {
    let mut c = machine_with(&[0x60, 0x05, 0x61, 0x02, 0x80, 0x15]);
    run(&mut c, 3);
    assert_eq!(c.cpu.v_registers[0], 0x03);
    assert_eq!(c.cpu.v_registers[0xF], 1);
}

#[test]
fn reversed_subtract() {
    let mut c = machine_with(&[0x60, 0x02, 0x61, 0x07, 0x80, 0x17, 0x62, 0x09, 0x82, 0x17]);
    run(&mut c, 3);
    assert_eq!(c.cpu.v_registers[0], 0x05);
    assert_eq!(c.cpu.v_registers[0xF], 1);
    run(&mut c, 2);
    assert_eq!(c.cpu.v_registers[2], 0xFE);
    assert_eq!(c.cpu.v_registers[0xF], 0);
}

#[test]
fn shifts_put_the_lost_bit_in_the_flag() {
    let mut c = machine_with(&[0x60, 0x81, 0x80, 0x06, 0x61, 0x81, 0x81, 0x0E]);
    run(&mut c, 2);
    assert_eq!(c.cpu.v_registers[0], 0x40);
    assert_eq!(c.cpu.v_registers[0xF], 1);
    run(&mut c, 2);
    assert_eq!(c.cpu.v_registers[1], 0x02);
    assert_eq!(c.cpu.v_registers[0xF], 1);
}

#[test]
fn result_wins_over_flag_in_vf() {
    let mut c = machine_with(&[0x6F, 0xFF, 0x61, 0x01, 0x8F, 0x14]);
    run(&mut c, 3);
    assert_eq!(c.cpu.v_registers[0xF], 0x00);
}

#[test]
fn logic_and_immediate_add() {
    let mut c = machine_with(&[
        0x60, 0xF0, 0x61, 0x3C, 0x62, 0xF0, 0x63, 0xF0, 0x80, 0x11, 0x82, 0x12, 0x83, 0x13,
        0x64, 0xFF, 0x74, 0x02, 0x85, 0x40,
    ]);
    c.cpu.v_registers[0xF] = 7;
    run(&mut c, 10);
    assert_eq!(c.cpu.v_registers[0], 0xFC);
    assert_eq!(c.cpu.v_registers[2], 0x30);
    assert_eq!(c.cpu.v_registers[3], 0xCC);
    assert_eq!(c.cpu.v_registers[4], 0x01);
    assert_eq!(c.cpu.v_registers[5], 0x01);
    assert_eq!(c.cpu.v_registers[0xF], 7);
}

#[test]
fn skips() {
    let mut c = machine_with(&[0x60, 0x05, 0x30, 0x05, 0x00, 0x00, 0x40, 0x05, 0x61, 0x05, 0x50, 0x10, 0x00, 0x00, 0x90, 0x10, 0x62, 0x01]);
    run(&mut c, 2);
    assert_eq!(c.cpu.read_pc(), 0x206);
    run(&mut c, 1);
    assert_eq!(c.cpu.read_pc(), 0x208);
    run(&mut c, 2);
    assert_eq!(c.cpu.read_pc(), 0x20E);
    run(&mut c, 2);
    assert_eq!(c.cpu.read_pc(), 0x212);
    assert_eq!(c.cpu.v_registers[2], 0x01);
}

#[test]
fn jumps() {
    let mut c = machine_with(&[0x13, 0x00]);
    run(&mut c, 1);
    assert_eq!(c.cpu.read_pc(), 0x300);

    let mut c = machine_with(&[0x60, 0x10, 0xB3, 0x00]);
    run(&mut c, 2);
    assert_eq!(c.cpu.read_pc(), 0x310);

    let mut c = machine_with(&[0x60, 0xFF, 0xBF, 0xFF]);
    run(&mut c, 2);
    assert_eq!(c.cpu.read_pc(), 0x0FE);
}

#[test]
fn call_and_return() {
    let mut rom = vec![0u8; 0x102];
    rom[0] = 0x23;
    rom[1] = 0x00;
    rom[0x100] = 0x00;
    rom[0x101] = 0xEE;
    let mut c = machine_with(&rom);
    run(&mut c, 1);
    assert_eq!(c.cpu.read_pc(), 0x300);
    assert_eq!(c.cpu.get_sp(), 0x50);
    assert_eq!(c.memory.read_u16(0x50), Ok(0x202));
    run(&mut c, 1);
    assert_eq!(c.cpu.read_pc(), 0x202);
    assert_eq!(c.cpu.get_sp(), 0x4E);
}

#[test]
fn stack_round_trip() {
    let mut c = Chip8::new();
    assert_eq!(c.cpu.get_sp(), 0x4E);
    c.stack_push(0x0ABC).unwrap();
    assert_eq!(c.cpu.get_sp(), 0x50);
    assert_eq!(c.stack_pop(), Ok(0x0ABC));
    assert_eq!(c.cpu.get_sp(), 0x4E);
    assert_eq!(c.stack_pop(), Err(Chip8Error::StackUnderflow));
    assert_eq!(c.cpu.get_sp(), 0x4E);
}

#[test]
fn stack_holds_fifteen_levels() {
    let mut c = Chip8::new();
    for k in 0..15u16 {
        c.stack_push(0x200 + k).unwrap();
    }
    assert_eq!(c.cpu.get_sp(), 0x6C);
    assert_eq!(c.stack_push(0x999), Err(Chip8Error::StackOverflow));
    assert_eq!(c.cpu.get_sp(), 0x6C);
    for k in (0..15u16).rev() {
        assert_eq!(c.stack_pop(), Ok(0x200 + k));
    }
    assert_eq!(c.stack_pop(), Err(Chip8Error::StackUnderflow));
}

#[test]
fn return_on_empty_stack_fails_and_changes_nothing() {
    let mut c = machine_with(&[0x00, 0xEE]);
    assert_eq!(c.step(), Err(Chip8Error::StackUnderflow));
    assert_eq!(c.cpu.read_pc(), 0x200);
    assert_eq!(c.cpu.get_sp(), 0x4E);
}

#[test]
fn unrecognized_opcodes_are_reported() {
    for op in [0x5001u16, 0x8008, 0x800F, 0x9001, 0xE000, 0xF000, 0xF0FF] {
        let mut c = machine_with(&[(op >> 8) as u8, op as u8]);
        assert_eq!(c.step(), Err(Chip8Error::UnrecognizedOpcode(op)));
        assert_eq!(c.cpu.read_pc(), 0x200);
        assert_eq!(c.opcode, op);
    }
}

#[test]
fn system_call_is_ignored() {
    let mut c = machine_with(&[0x01, 0x23]);
    run(&mut c, 1);
    assert_eq!(c.cpu.read_pc(), 0x202);
}

#[test]
fn key_wait_blocks_until_a_key_arrives() {
    let mut c = machine_with(&[0xF3, 0x0A, 0x60, 0x01]);
    run(&mut c, 1);
    assert!(c.waiting_for_key);
    assert_eq!(c.cpu.read_pc(), 0x200);
    run(&mut c, 3);
    assert!(c.waiting_for_key);
    assert_eq!(c.cpu.read_pc(), 0x200);
    assert_eq!(c.cpu.v_registers[3], 0);
    c.press_key(0x7);
    assert!(!c.waiting_for_key);
    assert_eq!(c.cpu.v_registers[3], 0x7);
    assert_eq!(c.cpu.read_pc(), 0x202);
    assert!(c.keypad.is_down(0x7));
    c.press_key(0x9);
    assert_eq!(c.cpu.v_registers[3], 0x7);
    assert_eq!(c.cpu.read_pc(), 0x202);
    run(&mut c, 1);
    assert_eq!(c.cpu.v_registers[0], 0x01);
}

#[test]
fn resume_ld_vx_k_without_a_wait_is_ignored() {
    let mut c = Chip8::new();
    c.resume_ld_vx_k(0x5);
    assert_eq!(c.cpu.v_registers[0], 0);
    assert_eq!(c.cpu.read_pc(), 0x200);
}

#[test]
fn key_skips_read_the_keypad() {
    let mut c = machine_with(&[0x60, 0x04, 0xE0, 0x9E, 0x00, 0x00, 0xE0, 0xA1]);
    c.press_key(0x4);
    run(&mut c, 2);
    assert_eq!(c.cpu.read_pc(), 0x206);
    run(&mut c, 1);
    assert_eq!(c.cpu.read_pc(), 0x208);
    c.release_key(0x4);
    assert!(c.keypad.is_up(0x4));
}

#[test]
fn bcd_store() {
    let mut c = machine_with(&[0x60, 0xFE, 0xA3, 0x00, 0xF0, 0x33]);
    run(&mut c, 3);
    assert_eq!(c.memory.read_u8(0x300), Ok(2));
    assert_eq!(c.memory.read_u8(0x301), Ok(5));
    assert_eq!(c.memory.read_u8(0x302), Ok(4));
}

#[test]
fn bcd_store_out_of_range() {
    let mut c = machine_with(&[0xAF, 0xFE, 0xF0, 0x33]);
    run(&mut c, 1);
    assert_eq!(c.step(), Err(Chip8Error::AddressOutOfRange(0x1000)));
    assert_eq!(c.memory.read_u8(0xFFE), Ok(0));
    assert_eq!(c.cpu.read_pc(), 0x202);
}

#[test]
fn register_block_store_and_load_are_inclusive() {
    let mut c = machine_with(&[
        0x60, 0x11, 0x61, 0x22, 0x62, 0x33, 0x63, 0x44, 0xA4, 0x00, 0xF2, 0x55,
        0x60, 0x00, 0x61, 0x00, 0x62, 0x00, 0x63, 0x00, 0xF3, 0x65,
    ]);
    run(&mut c, 6);
    assert_eq!(c.memory.read_u8(0x400), Ok(0x11));
    assert_eq!(c.memory.read_u8(0x401), Ok(0x22));
    assert_eq!(c.memory.read_u8(0x402), Ok(0x33));
    assert_eq!(c.memory.read_u8(0x403), Ok(0x00));
    assert_eq!(c.cpu.i_register, 0x400);
    run(&mut c, 5);
    assert_eq!(c.cpu.v_registers[0], 0x11);
    assert_eq!(c.cpu.v_registers[1], 0x22);
    assert_eq!(c.cpu.v_registers[2], 0x33);
    assert_eq!(c.cpu.v_registers[3], 0x00);
}

#[test]
fn index_register_operations() {
    let mut c = machine_with(&[0x60, 0x07, 0xF0, 0x29, 0x61, 0x03, 0xF1, 0x1E, 0xAF, 0xFF, 0xF1, 0x1E]);
    run(&mut c, 2);
    assert_eq!(c.cpu.i_register, 35);
    run(&mut c, 2);
    assert_eq!(c.cpu.i_register, 38);
    run(&mut c, 2);
    assert_eq!(c.cpu.i_register, 0x1002);
}

#[test]
fn draw_twice_reports_collision_the_second_time() {
    let mut c = machine_with(&[0x60, 0x00, 0xA0, 0x00, 0xD0, 0x05, 0xD0, 0x05]);
    run(&mut c, 3);
    assert_eq!(c.cpu.v_registers[0xF], 0);
    assert_eq!(c.display.screen[0][0], 1);
    assert_eq!(c.display.screen[1][1], 0);
    assert_eq!(c.display.screen[1][3], 1);
    assert!(c.new_draw);
    run(&mut c, 1);
    assert_eq!(c.cpu.v_registers[0xF], 1);
    for r in 0..32 {
        for col in 0..64 {
            assert_eq!(c.display.screen[r][col], 0);
        }
    }
}

#[test]
fn draw_skips_rows_past_the_bottom() {
    let mut c = machine_with(&[0x60, 0x1F, 0xA0, 0x00, 0xD0, 0x05]);
    run(&mut c, 3);
    assert_eq!(c.display.screen[31][31], 1);
    assert_eq!(c.display.screen[0][31], 0);
}

#[test]
fn draw_reading_past_memory_fails() {
    let mut c = machine_with(&[0xAF, 0xFF, 0xD0, 0x02]);
    run(&mut c, 1);
    assert_eq!(c.step(), Err(Chip8Error::AddressOutOfRange(0x1000)));
    assert_eq!(c.display.screen[0][0], 0);
}

#[test]
fn clear_screen() {
    let mut c = machine_with(&[0xD0, 0x05, 0x00, 0xE0]);
    run(&mut c, 1);
    assert_eq!(c.display.screen[0][0], 1);
    run(&mut c, 1);
    assert_eq!(c.display.screen[0][0], 0);
}

#[test]
fn timers_count_down_to_zero() {
    let mut c = machine_with(&[0x60, 0x02, 0xF0, 0x15, 0xF0, 0x18, 0xF1, 0x07]);
    run(&mut c, 4);
    assert_eq!(c.cpu.delay, 2);
    assert_eq!(c.cpu.sound, 2);
    assert_eq!(c.cpu.v_registers[1], 2);
    for _ in 0..3 {
        c.update_dt();
        c.update_st();
    }
    assert_eq!(c.cpu.delay, 0);
    assert_eq!(c.cpu.sound, 0);
}

#[test]
fn random_is_reproducible_and_masked() {
    let rom = [0xC0, 0xFF, 0xC1, 0x0F, 0xC2, 0x00];
    let mut a = machine_with(&rom);
    let mut b = machine_with(&rom);
    a.seed_random(42);
    b.seed_random(42);
    run(&mut a, 3);
    run(&mut b, 3);
    assert_eq!(a.cpu.v_registers[0], b.cpu.v_registers[0]);
    assert_eq!(a.cpu.v_registers[1], b.cpu.v_registers[1]);
    assert!(a.cpu.v_registers[1] <= 0x0F);
    assert_eq!(a.cpu.v_registers[2], 0);
    let next = (42u64 * 1103515245 + 12345) % 0x1_0000_0000;
    assert_eq!(a.cpu.v_registers[0] as u64, (next >> 16) & 0xFF);
}

#[test]
fn fresh_machine_state() {
    let c = Chip8::new();
    assert_eq!(c.cpu.read_pc(), 0x200);
    assert_eq!(c.cpu.get_sp(), 0x4E);
    assert_eq!(c.cpu.i_register, 0);
    assert!(c.cpu.v_registers.iter().all(|v| *v == 0));
    assert!(!c.waiting_for_key);
}

#[test]
fn font_glyphs_are_contiguous() {
    let c = Chip8::new();
    let zero = [0xF0, 0x90, 0x90, 0x90, 0xF0];
    let f = [0xF0, 0x80, 0xF0, 0x80, 0x80];
    let seven = [0xF0, 0x10, 0x20, 0x40, 0x40];
    for j in 0..5u16 {
        assert_eq!(c.memory.read_u8(j), Ok(zero[j as usize]));
        assert_eq!(c.memory.read_u8(5 * 7 + j), Ok(seven[j as usize]));
        assert_eq!(c.memory.read_u8(5 * 15 + j), Ok(f[j as usize]));
    }
    assert_eq!(c.memory.read_u8(80), Ok(0));
}

#[test]
fn reset_restores_the_initial_state() {
    let rom = [0x60, 0x12, 0xA3, 0x00, 0xF0, 0x55, 0xD0, 0x05, 0x23, 0x00];
    let mut c = machine_with(&rom);
    let fresh = machine_with(&rom);
    run(&mut c, 5);
    c.press_key(0x2);
    assert_ne!(c.cpu.read_pc(), 0x200);
    c.reset().unwrap();
    assert_eq!(c.cpu.v_registers, fresh.cpu.v_registers);
    assert_eq!(c.cpu.read_pc(), 0x200);
    assert_eq!(c.cpu.get_sp(), 0x4E);
    assert_eq!(c.cpu.i_register, 0);
    assert_eq!(c.display.screen, fresh.display.screen);
    assert_eq!(c.keypad.keys, fresh.keypad.keys);
    for a in 0..0x1000u16 {
        assert_eq!(c.memory.read_u8(a), fresh.memory.read_u8(a));
    }
    c.reset().unwrap();
    c.load().unwrap();
    for a in 0..0x1000u16 {
        assert_eq!(c.memory.read_u8(a), fresh.memory.read_u8(a));
    }
}

#[test]
fn program_too_long_is_refused() {
    let mut c = Chip8::new();
    c.insert_rom(vec![0xAA; 0xE01]);
    assert_eq!(c.load(), Err(Chip8Error::AddressOutOfRange(0x1000)));
    assert_eq!(c.memory.read_u8(0x200), Ok(0));
    assert_eq!(c.reset(), Err(Chip8Error::AddressOutOfRange(0x1000)));
    c.insert_rom(vec![0xAA; 0xE00]);
    c.load().unwrap();
    assert_eq!(c.memory.read_u8(0xFFF), Ok(0xAA));
}

#[test]
fn fetch_at_the_last_byte_fails() {
    let mut c = machine_with(&[0x1F, 0xFF]);
    run(&mut c, 1);
    assert_eq!(c.cpu.read_pc(), 0xFFF);
    assert_eq!(c.fetch(), Err(Chip8Error::AddressOutOfRange(0x1000)));
}

#[test]
fn cpu_program_counter_wraps_in_twelve_bits() {
    let mut c = Chip8::new();
    c.cpu.set_pc(0x1FFE);
    assert_eq!(c.cpu.read_pc(), 0xFFE);
    c.cpu.increment_pc();
    assert_eq!(c.cpu.read_pc(), 0x000);
    c.cpu.set_sp(0x52);
    assert_eq!(c.cpu.get_sp(), 0x52);
}
