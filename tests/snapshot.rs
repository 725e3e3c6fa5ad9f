use chip8::machine::Chip8;
use chip8::snapshot::TimerDivider;

#[test]
fn timers_tick_every_ninth_cycle() {
    let mut d = TimerDivider::new();
    for _ in 0..8 {
        assert!(!d.count_cycle());
    }
    assert!(d.count_cycle());
    assert_eq!(d.count, 0);
    assert!(!d.count_cycle());
    assert_eq!(d.count, 1);
}

#[test]
fn snapshot_shows_the_machine() {
    let mut c = Chip8::new();
    c.insert_rom(vec![0x23, 0x00, 0x00, 0x00]);
    c.load().unwrap();
    c.step().unwrap();
    c.fetch().unwrap();
    c.press_key(0xA);
    let s = c.snapshot(0x200, 0x203);
    assert_eq!(s.pc, 0x300);
    assert_eq!(s.sp, 0x50);
    assert_eq!(s.stack.len(), 15);
    assert_eq!(s.stack[0], 0x202);
    assert_eq!(s.stack[1], 0);
    assert_eq!(s.opcode, 0x0000);
    assert_eq!(s.mnemonic.as_deref(), Some("SYS 0x0000"));
    assert_eq!(s.memory_start, 0x200);
    assert_eq!(s.memory, vec![0x23, 0x00, 0x00, 0x00]);
    assert_eq!(s.keys[0xA] & 0xF0, 0x10);
    assert!(!s.waiting_for_key);
}

#[test]
fn snapshot_window_is_cut_to_memory() {
    let c = Chip8::new();
    let s = c.snapshot(0xFFE, 0xFFFF);
    assert_eq!(s.memory_start, 0xFFE);
    assert_eq!(s.memory.len(), 2);
    let s = c.snapshot(0x300, 0x2FF);
    assert!(s.memory.is_empty());
    let s = c.snapshot(0x000, 0x004);
    assert_eq!(s.memory, vec![0xF0, 0x90, 0x90, 0x90, 0xF0]);
}

#[test]
fn snapshot_of_unknown_opcode_has_no_mnemonic() {
    let mut c = Chip8::new();
    c.insert_rom(vec![0xFF, 0xFF]);
    c.load().unwrap();
    c.fetch().unwrap();
    let s = c.snapshot(0, 0);
    assert_eq!(s.opcode, 0xFFFF);
    assert!(s.mnemonic.is_none());
}
