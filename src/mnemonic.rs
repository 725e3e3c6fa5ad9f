use vstd::prelude::*;
use vstd::string::StringExecFns;

use crate::instruction::Instruction;

verus! {

/// The lower-case hexadecimal digit for `d` (0 to 15).
pub open spec fn hex_digit(d: int) -> char {
    "0123456789abcdef"@[d]
}

/// The last `width` hexadecimal digits of `value`, most significant first, zero-padded.
pub open spec fn hex_digits(value: int, width: nat) -> Seq<char>
    decreases width,
{
    if width == 0 {
        Seq::empty()
    } else {
        hex_digits(value / 16, (width - 1) as nat).push(hex_digit(value % 16))
    }
}

/// `value` written as `0x` followed by `width` hexadecimal digits.
pub open spec fn hex_literal(value: int, width: nat) -> Seq<char> {
    "0x"@ + hex_digits(value, width)
}

/// The name of general register `x`: `V` and one hexadecimal digit.
pub open spec fn register_name(x: int) -> Seq<char> {
    "V"@ + hex_digits(x, 1)
}

/// The assembly text of an instruction: addresses with four digits, bytes with two, the
/// sprite height with one.
pub open spec fn mnemonic_text(ins: Instruction) -> Seq<char> {
    match ins {
        Instruction::Sys { addr } => "SYS "@ + hex_literal(addr as int, 4),
        Instruction::Cls => "CLS"@,
        Instruction::Ret => "RET"@,
        Instruction::Jp { addr } => "JP "@ + hex_literal(addr as int, 4),
        Instruction::Call { addr } => "CALL "@ + hex_literal(addr as int, 4),
        Instruction::SeVxByte { x, byte } => "SE "@ + register_name(x as int) + ", "@ + hex_literal(byte as int, 2),
        Instruction::SneVxByte { x, byte } => "SNE "@ + register_name(x as int) + ", "@ + hex_literal(byte as int, 2),
        Instruction::SeVxVy { x, y } => "SE "@ + register_name(x as int) + ", "@ + register_name(y as int),
        Instruction::LdVxByte { x, byte } => "LD "@ + register_name(x as int) + ", "@ + hex_literal(byte as int, 2),
        Instruction::AddVxByte { x, byte } => "ADD "@ + register_name(x as int) + ", "@ + hex_literal(byte as int, 2),
        Instruction::LdVxVy { x, y } => "LD "@ + register_name(x as int) + ", "@ + register_name(y as int),
        Instruction::OrVxVy { x, y } => "OR "@ + register_name(x as int) + ", "@ + register_name(y as int),
        Instruction::AndVxVy { x, y } => "AND "@ + register_name(x as int) + ", "@ + register_name(y as int),
        Instruction::XorVxVy { x, y } => "XOR "@ + register_name(x as int) + ", "@ + register_name(y as int),
        Instruction::AddVxVy { x, y } => "ADD "@ + register_name(x as int) + ", "@ + register_name(y as int),
        Instruction::SubVxVy { x, y } => "SUB "@ + register_name(x as int) + ", "@ + register_name(y as int),
        Instruction::ShrVx { x } => "SHR "@ + register_name(x as int),
        Instruction::SubnVxVy { x, y } => "SUBN "@ + register_name(x as int) + ", "@ + register_name(y as int),
        Instruction::ShlVx { x } => "SHL "@ + register_name(x as int),
        Instruction::SneVxVy { x, y } => "SNE "@ + register_name(x as int) + ", "@ + register_name(y as int),
        Instruction::LdIAddr { addr } => "LD I, "@ + hex_literal(addr as int, 4),
        Instruction::JpV0Addr { addr } => "JP V0, "@ + hex_literal(addr as int, 4),
        Instruction::RndVxByte { x, byte } => "RND "@ + register_name(x as int) + ", "@ + hex_literal(byte as int, 2),
        Instruction::Drw { x, y, n } => "DRW "@ + register_name(x as int) + ", "@ + register_name(y as int) + ", "@ + hex_literal(n as int, 1),
        Instruction::SkpVx { x } => "SKP "@ + register_name(x as int),
        Instruction::SknpVx { x } => "SKNP "@ + register_name(x as int),
        Instruction::LdVxDt { x } => "LD "@ + register_name(x as int) + ", DT"@,
        Instruction::LdVxK { x } => "LD "@ + register_name(x as int) + ", K"@,
        Instruction::LdDtVx { x } => "LD DT, "@ + register_name(x as int),
        Instruction::LdStVx { x } => "LD ST, "@ + register_name(x as int),
        Instruction::AddIVx { x } => "ADD I, "@ + register_name(x as int),
        Instruction::LdFVx { x } => "LD F, "@ + register_name(x as int),
        Instruction::LdBVx { x } => "LD B, "@ + register_name(x as int),
        Instruction::LdIVx { x } => "LD I, "@ + register_name(x as int),
        Instruction::LdVxI { x } => "LD "@ + register_name(x as int) + ", I"@,
    }
}

/// The one-character string for hexadecimal digit `d`.
fn hex_digit_str(d: u16) -> (r: &'static str)
    requires
        d < 16,
    ensures
        r@ == seq![hex_digit(d as int)],
{
    proof {
        reveal_strlit("0123456789abcdef");
        reveal_strlit("0");
        reveal_strlit("1");
        reveal_strlit("2");
        reveal_strlit("3");
        reveal_strlit("4");
        reveal_strlit("5");
        reveal_strlit("6");
        reveal_strlit("7");
        reveal_strlit("8");
        reveal_strlit("9");
        reveal_strlit("a");
        reveal_strlit("b");
        reveal_strlit("c");
        reveal_strlit("d");
        reveal_strlit("e");
        reveal_strlit("f");
    }
    match d {
        0 => "0",
        1 => "1",
        2 => "2",
        3 => "3",
        4 => "4",
        5 => "5",
        6 => "6",
        7 => "7",
        8 => "8",
        9 => "9",
        10 => "a",
        11 => "b",
        12 => "c",
        13 => "d",
        14 => "e",
        _ => "f",
    }
}

/// Appends the last `width` hexadecimal digits of `value`.
fn push_hex_digits(s: &mut String, value: u16, width: usize)
    ensures
        final(s)@ == old(s)@ + hex_digits(value as int, width as nat),
    decreases width,
{
    if width == 0 {
        assert(old(s)@ + hex_digits(value as int, 0) =~= old(s)@);
        return;
    }
    push_hex_digits(s, value / 16, width - 1);
    s.append(hex_digit_str(value % 16));
    assert(final(s)@ =~= old(s)@ + hex_digits(value as int, width as nat));
}

/// Appends `0x` and the last `width` hexadecimal digits of `value`.
fn push_hex_literal(s: &mut String, value: u16, width: usize)
    ensures
        final(s)@ == old(s)@ + hex_literal(value as int, width as nat),
{
    let ghost start = s@;
    s.append("0x");
    push_hex_digits(s, value, width);
    assert(final(s)@ =~= start + hex_literal(value as int, width as nat));
}

/// Appends the name of register `x`.
fn push_register(s: &mut String, x: u8)
    ensures
        final(s)@ == old(s)@ + register_name(x as int),
{
    let ghost start = s@;
    s.append("V");
    push_hex_digits(s, x as u16, 1);
    assert(final(s)@ =~= start + register_name(x as int));
}

impl Instruction {
    /// The assembly text of the instruction.
    pub fn mnemonic(&self) -> (r: String)
        ensures
            r@ == mnemonic_text(*self),
    {
        let mut s = String::new();
        match *self {
            Instruction::Sys { addr } => {
                s.append("SYS ");
                push_hex_literal(&mut s, addr as u16, 4);
            },
            Instruction::Cls => {
                s.append("CLS");
            },
            Instruction::Ret => {
                s.append("RET");
            },
            Instruction::Jp { addr } => {
                s.append("JP ");
                push_hex_literal(&mut s, addr as u16, 4);
            },
            Instruction::Call { addr } => {
                s.append("CALL ");
                push_hex_literal(&mut s, addr as u16, 4);
            },
            Instruction::SeVxByte { x, byte } => {
                s.append("SE ");
                push_register(&mut s, x);
                s.append(", ");
                push_hex_literal(&mut s, byte as u16, 2);
            },
            Instruction::SneVxByte { x, byte } => {
                s.append("SNE ");
                push_register(&mut s, x);
                s.append(", ");
                push_hex_literal(&mut s, byte as u16, 2);
            },
            Instruction::SeVxVy { x, y } => {
                s.append("SE ");
                push_register(&mut s, x);
                s.append(", ");
                push_register(&mut s, y);
            },
            Instruction::LdVxByte { x, byte } => {
                s.append("LD ");
                push_register(&mut s, x);
                s.append(", ");
                push_hex_literal(&mut s, byte as u16, 2);
            },
            Instruction::AddVxByte { x, byte } => {
                s.append("ADD ");
                push_register(&mut s, x);
                s.append(", ");
                push_hex_literal(&mut s, byte as u16, 2);
            },
            Instruction::LdVxVy { x, y } => {
                s.append("LD ");
                push_register(&mut s, x);
                s.append(", ");
                push_register(&mut s, y);
            },
            Instruction::OrVxVy { x, y } => {
                s.append("OR ");
                push_register(&mut s, x);
                s.append(", ");
                push_register(&mut s, y);
            },
            Instruction::AndVxVy { x, y } => {
                s.append("AND ");
                push_register(&mut s, x);
                s.append(", ");
                push_register(&mut s, y);
            },
            Instruction::XorVxVy { x, y } => {
                s.append("XOR ");
                push_register(&mut s, x);
                s.append(", ");
                push_register(&mut s, y);
            },
            Instruction::AddVxVy { x, y } => {
                s.append("ADD ");
                push_register(&mut s, x);
                s.append(", ");
                push_register(&mut s, y);
            },
            Instruction::SubVxVy { x, y } => {
                s.append("SUB ");
                push_register(&mut s, x);
                s.append(", ");
                push_register(&mut s, y);
            },
            Instruction::ShrVx { x } => {
                s.append("SHR ");
                push_register(&mut s, x);
            },
            Instruction::SubnVxVy { x, y } => {
                s.append("SUBN ");
                push_register(&mut s, x);
                s.append(", ");
                push_register(&mut s, y);
            },
            Instruction::ShlVx { x } => {
                s.append("SHL ");
                push_register(&mut s, x);
            },
            Instruction::SneVxVy { x, y } => {
                s.append("SNE ");
                push_register(&mut s, x);
                s.append(", ");
                push_register(&mut s, y);
            },
            Instruction::LdIAddr { addr } => {
                s.append("LD I, ");
                push_hex_literal(&mut s, addr as u16, 4);
            },
            Instruction::JpV0Addr { addr } => {
                s.append("JP V0, ");
                push_hex_literal(&mut s, addr as u16, 4);
            },
            Instruction::RndVxByte { x, byte } => {
                s.append("RND ");
                push_register(&mut s, x);
                s.append(", ");
                push_hex_literal(&mut s, byte as u16, 2);
            },
            Instruction::Drw { x, y, n } => {
                s.append("DRW ");
                push_register(&mut s, x);
                s.append(", ");
                push_register(&mut s, y);
                s.append(", ");
                push_hex_literal(&mut s, n as u16, 1);
            },
            Instruction::SkpVx { x } => {
                s.append("SKP ");
                push_register(&mut s, x);
            },
            Instruction::SknpVx { x } => {
                s.append("SKNP ");
                push_register(&mut s, x);
            },
            Instruction::LdVxDt { x } => {
                s.append("LD ");
                push_register(&mut s, x);
                s.append(", DT");
            },
            Instruction::LdVxK { x } => {
                s.append("LD ");
                push_register(&mut s, x);
                s.append(", K");
            },
            Instruction::LdDtVx { x } => {
                s.append("LD DT, ");
                push_register(&mut s, x);
            },
            Instruction::LdStVx { x } => {
                s.append("LD ST, ");
                push_register(&mut s, x);
            },
            Instruction::AddIVx { x } => {
                s.append("ADD I, ");
                push_register(&mut s, x);
            },
            Instruction::LdFVx { x } => {
                s.append("LD F, ");
                push_register(&mut s, x);
            },
            Instruction::LdBVx { x } => {
                s.append("LD B, ");
                push_register(&mut s, x);
            },
            Instruction::LdIVx { x } => {
                s.append("LD I, ");
                push_register(&mut s, x);
            },
            Instruction::LdVxI { x } => {
                s.append("LD ");
                push_register(&mut s, x);
                s.append(", I");
            },
        }
        assert(s@ =~= mnemonic_text(*self));
        s
    }
}

} // verus!
