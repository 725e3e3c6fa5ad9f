use chip8::error::Chip8Error;
use chip8::memory::Memory;

#[test]
fn write_read_u8_test() {
    let mut memory = Memory::new();

    memory.write_u8(0x0213, 0xFE).unwrap();
    assert_eq!(memory.read_u8(0x0213), Ok(0xFE));
}

#[test]
fn write_read_u16_test() {
    let mut memory = Memory::new();

    memory.write_u16(0x0213, 0x12FE).unwrap();
    assert_eq!(memory.read_u16(0x0213), Ok(0x12FE));

    assert_eq!(memory.read_u8(0x0213), Ok(0x12));
    assert_eq!(memory.read_u8(0x0214), Ok(0xFE));

    memory.write_u8(0x0300, 0x12).unwrap();
    memory.write_u8(0x0301, 0x13).unwrap();
    assert_eq!(memory.read_u16(0x0300), Ok(0x1213));
}

#[test]
fn access_out_of_bounds_is_reported() {
    let memory = Memory::new();
    assert_eq!(memory.read_u8(0x1000), Err(Chip8Error::AddressOutOfRange(0x1000)));
    assert_eq!(memory.read_u8(0xFFFF), Err(Chip8Error::AddressOutOfRange(0xFFFF)));
}

#[test]
fn word_write_is_big_endian() {
    let mut memory = Memory::new();
    memory.write_u16(0x0300, 0x1213).unwrap();
    assert_eq!(memory.read_u8(0x0300), Ok(0x12));
    assert_eq!(memory.read_u8(0x0301), Ok(0x13));
    assert_eq!(memory.read_u8(0x02FF), Ok(0x00));
    assert_eq!(memory.read_u8(0x0302), Ok(0x00));
}

#[test]
fn byte_round_trip_at_the_edges() {
    let mut memory = Memory::new();
    memory.write_u8(0x0000, 0xAB).unwrap();
    memory.write_u8(0x0FFF, 0xCD).unwrap();
    assert_eq!(memory.read_u8(0x0000), Ok(0xAB));
    assert_eq!(memory.read_u8(0x0FFF), Ok(0xCD));
    assert_eq!(memory.write_u8(0x1000, 1), Err(Chip8Error::AddressOutOfRange(0x1000)));
}

#[test]
fn word_straddling_the_end_is_refused() {
    let mut memory = Memory::new();
    memory.write_u8(0x0FFF, 0x77).unwrap();
    assert_eq!(memory.read_u16(0x0FFF), Err(Chip8Error::AddressOutOfRange(0x1000)));
    assert_eq!(memory.write_u16(0x0FFF, 0x1234), Err(Chip8Error::AddressOutOfRange(0x1000)));
    assert_eq!(memory.read_u8(0x0FFF), Ok(0x77));
    assert_eq!(memory.read_u16(0x2000), Err(Chip8Error::AddressOutOfRange(0x2000)));
    memory.write_u16(0x0FFE, 0xBEEF).unwrap();
    assert_eq!(memory.read_u16(0x0FFE), Ok(0xBEEF));
}

#[test]
fn fresh_memory_is_zero() {
    let memory = Memory::new();
    for a in 0..0x1000u16 {
        assert_eq!(memory.read_u8(a), Ok(0));
    }
}
