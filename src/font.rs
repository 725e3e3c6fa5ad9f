use vstd::prelude::*;

verus! {

/// Number of glyphs in the built-in font: one per hexadecimal digit.
pub const GLYPH_COUNT: usize = 16;

/// Number of rows (bytes) of each glyph.
pub const GLYPH_HEIGHT: usize = 5;

/// The five rows of the glyph for hexadecimal digit `d` (0 to 15).
pub open spec fn glyph(d: int) -> Seq<u8> {
    if d == 0 {
        seq![0xF0u8, 0x90, 0x90, 0x90, 0xF0]
    } else if d == 1 {
        seq![0x20u8, 0x60, 0x20, 0x20, 0x70]
    } else if d == 2 {
        seq![0xF0u8, 0x10, 0xF0, 0x80, 0xF0]
    } else if d == 3 {
        seq![0xF0u8, 0x10, 0xF0, 0x10, 0xF0]
    } else if d == 4 {
        seq![0x90u8, 0x90, 0xF0, 0x10, 0x10]
    } else if d == 5 {
        seq![0xF0u8, 0x80, 0xF0, 0x10, 0xF0]
    } else if d == 6 {
        seq![0xF0u8, 0x80, 0xF0, 0x90, 0xF0]
    } else if d == 7 {
        seq![0xF0u8, 0x10, 0x20, 0x40, 0x40]
    } else if d == 8 {
        seq![0xF0u8, 0x90, 0xF0, 0x90, 0xF0]
    } else if d == 9 {
        seq![0xF0u8, 0x90, 0xF0, 0x10, 0xF0]
    } else if d == 10 {
        seq![0xF0u8, 0x90, 0xF0, 0x90, 0x90]
    } else if d == 11 {
        seq![0xE0u8, 0x90, 0xE0, 0x90, 0xE0]
    } else if d == 12 {
        seq![0xF0u8, 0x80, 0x80, 0x80, 0xF0]
    } else if d == 13 {
        seq![0xE0u8, 0x90, 0x90, 0x90, 0xE0]
    } else if d == 14 {
        seq![0xF0u8, 0x80, 0xF0, 0x80, 0xF0]
    } else {
        seq![0xF0u8, 0x80, 0xF0, 0x80, 0x80]
    }
}

/// The whole font as it lies in memory from address 0 on: glyph after glyph, in digit order.
pub open spec fn font_image() -> Seq<u8> {
    Seq::new((GLYPH_COUNT * GLYPH_HEIGHT) as nat, |a: int| glyph(a / 5)[a % 5])
}

/// Glyph `k` occupies exactly the bytes from `5k` to `5k + 4` of the font image, and no byte
/// belongs to two glyph rows.
pub proof fn lemma_glyph_placement(k: int, j: int, k2: int, j2: int)
    requires
        0 <= k < GLYPH_COUNT,
        0 <= j < GLYPH_HEIGHT,
        0 <= k2 < GLYPH_COUNT,
        0 <= j2 < GLYPH_HEIGHT,
    ensures
        0 <= 5 * k + j < font_image().len(),
        font_image()[5 * k + j] == glyph(k)[j],
        (k, j) != (k2, j2) ==> 5 * k + j != 5 * k2 + j2,
{
    assert((5 * k + j) / 5 == k && (5 * k + j) % 5 == j) by (nonlinear_arith)
        requires
            0 <= j < 5,
            0 <= k,
    ;
    if 5 * k + j == 5 * k2 + j2 {
        assert((5 * k2 + j2) / 5 == k2 && (5 * k2 + j2) % 5 == j2) by (nonlinear_arith)
            requires
                0 <= j2 < 5,
                0 <= k2,
        ;
    }
}

/// Row `row` of the glyph for hexadecimal digit `digit`.
pub fn glyph_row(digit: usize, row: usize) -> (r: u8)
    requires
        digit < GLYPH_COUNT,
        row < GLYPH_HEIGHT,
    ensures
        r == glyph(digit as int)[row as int],
{
    let rows: [u8; 5] = match digit {
            0 => [0xF0, 0x90, 0x90, 0x90, 0xF0],
            1 => [0x20, 0x60, 0x20, 0x20, 0x70],
            2 => [0xF0, 0x10, 0xF0, 0x80, 0xF0],
            3 => [0xF0, 0x10, 0xF0, 0x10, 0xF0],
            4 => [0x90, 0x90, 0xF0, 0x10, 0x10],
            5 => [0xF0, 0x80, 0xF0, 0x10, 0xF0],
            6 => [0xF0, 0x80, 0xF0, 0x90, 0xF0],
            7 => [0xF0, 0x10, 0x20, 0x40, 0x40],
            8 => [0xF0, 0x90, 0xF0, 0x90, 0xF0],
            9 => [0xF0, 0x90, 0xF0, 0x10, 0xF0],
            10 => [0xF0, 0x90, 0xF0, 0x90, 0x90],
            11 => [0xE0, 0x90, 0xE0, 0x90, 0xE0],
            12 => [0xF0, 0x80, 0x80, 0x80, 0xF0],
            13 => [0xE0, 0x90, 0x90, 0x90, 0xE0],
            14 => [0xF0, 0x80, 0xF0, 0x80, 0xF0],
            _ => [0xF0, 0x80, 0xF0, 0x80, 0x80],
    };
    proof {
        assert(rows@ =~= glyph(digit as int));
    }
    rows[row]
}

} // verus!
