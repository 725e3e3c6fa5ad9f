use chip8::error::Chip8Error;
use chip8::instruction::{decode, Instruction};
use chip8::machine::Chip8;

fn text(op: u16) -> String {
    Chip8::get_mnemonic(op).unwrap()
}

#[test]
fn mnemonics_of_each_group() {
    assert_eq!(text(0x00E0), "CLS");
    assert_eq!(text(0x00EE), "RET");
    assert_eq!(text(0x0123), "SYS 0x0123");
    assert_eq!(text(0x1ABC), "JP 0x0abc");
    assert_eq!(text(0x2300), "CALL 0x0300");
    assert_eq!(text(0x3A0F), "SE Va, 0x0f");
    assert_eq!(text(0x4B10), "SNE Vb, 0x10");
    assert_eq!(text(0x5120), "SE V1, V2");
    assert_eq!(text(0x6C7F), "LD Vc, 0x7f");
    assert_eq!(text(0x7D01), "ADD Vd, 0x01");
    assert_eq!(text(0x8120), "LD V1, V2");
    assert_eq!(text(0x8121), "OR V1, V2");
    assert_eq!(text(0x8122), "AND V1, V2");
    assert_eq!(text(0x8123), "XOR V1, V2");
    assert_eq!(text(0x8124), "ADD V1, V2");
    assert_eq!(text(0x8125), "SUB V1, V2");
    assert_eq!(text(0x8126), "SHR V1");
    assert_eq!(text(0x8127), "SUBN V1, V2");
    assert_eq!(text(0x812E), "SHL V1");
    assert_eq!(text(0x9EF0), "SNE Ve, Vf");
    assert_eq!(text(0xA2F0), "LD I, 0x02f0");
    assert_eq!(text(0xB123), "JP V0, 0x0123");
    assert_eq!(text(0xC3AA), "RND V3, 0xaa");
    assert_eq!(text(0xD12F), "DRW V1, V2, 0xf");
    assert_eq!(text(0xE59E), "SKP V5");
    assert_eq!(text(0xE5A1), "SKNP V5");
    assert_eq!(text(0xF607), "LD V6, DT");
    assert_eq!(text(0xF60A), "LD V6, K");
    assert_eq!(text(0xF615), "LD DT, V6");
    assert_eq!(text(0xF618), "LD ST, V6");
    assert_eq!(text(0xF61E), "ADD I, V6");
    assert_eq!(text(0xF629), "LD F, V6");
    assert_eq!(text(0xF633), "LD B, V6");
    assert_eq!(text(0xF655), "LD I, V6");
    assert_eq!(text(0xF665), "LD V6, I");
}

#[test]
fn mnemonic_of_unknown_word_is_refused() {
    assert_eq!(Chip8::get_mnemonic(0x5121), Err(Chip8Error::UnrecognizedOpcode(0x5121)));
    assert_eq!(Chip8::get_mnemonic(0xE0FF), Err(Chip8Error::UnrecognizedOpcode(0xE0FF)));
}

#[test]
fn decode_splits_the_fields() {
    assert_eq!(decode(0xD12F), Ok(Instruction::Drw { x: 1, y: 2, n: 15 }));
    assert_eq!(decode(0x3A0F), Ok(Instruction::SeVxByte { x: 10, byte: 0x0F }));
    assert_eq!(decode(0xBFFF), Ok(Instruction::JpV0Addr { addr: 0xFFF }));
    assert_eq!(decode(0x800F), Err(Chip8Error::UnrecognizedOpcode(0x800F)));
    assert_eq!(Instruction::Cls.mnemonic(), "CLS");
}
