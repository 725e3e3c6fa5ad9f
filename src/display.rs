use vstd::prelude::*;

verus! {

/// Number of rows of the framebuffer.
pub const SCREEN_ROWS: usize = 32;

/// Number of columns of the framebuffer.
pub const SCREEN_COLUMNS: usize = 64;

/// Bit `i` of a sprite row, counted from the most significant bit (the leftmost pixel).
pub open spec fn sprite_bit(byte: u8, i: int) -> u8 {
    (byte >> ((7 - i) as u8)) & 1u8
}

/// `row` after XOR-ing the eight pixels of `byte` onto it from column `col0` on.
/// Pixels that would fall past the last column are dropped.
pub open spec fn blit_row(row: Seq<u8>, col0: int, byte: u8) -> Seq<u8> {
    blit_prefix(row, col0, byte, 8)
}

/// Whether blitting `byte` at `col0` turns some set pixel of `row` off.
pub open spec fn row_collides(row: Seq<u8>, col0: int, byte: u8) -> bool {
    collides_prefix(row, col0, byte, 8)
}

/// `row` after XOR-ing the first `width` pixels of `byte` onto it from column `col0` on.
pub open spec fn blit_prefix(row: Seq<u8>, col0: int, byte: u8, width: int) -> Seq<u8> {
    Seq::new(
        row.len(),
        |c: int|
            if col0 <= c < col0 + width {
                row[c] ^ sprite_bit(byte, c - col0)
            } else {
                row[c]
            },
    )
}

/// Whether one of the first `width` pixels of `byte`, placed from `col0` on, falls on a set
/// pixel of `row`.
pub open spec fn collides_prefix(row: Seq<u8>, col0: int, byte: u8, width: int) -> bool {
    exists|c: int|
        col0 <= c < col0 + width && 0 <= c < row.len() && row[c] == 1 && sprite_bit(byte, c - col0)
            == 1
}

/// Whether some pixel of `byte`, drawn from column `col0` on, lands on the screen set.
pub open spec fn shows_pixel(col0: int, byte: u8) -> bool {
    exists|i: int| 0 <= i < 8 && col0 + i < SCREEN_COLUMNS && sprite_bit(byte, i) == 1
}

/// Drawing the same sprite row twice at the same place gives the row back as it was. On a blank
/// row the first draw reports no collision, and the second reports one exactly when some pixel
/// of the sprite lands on the screen.
pub proof fn lemma_draw_twice(row: Seq<u8>, col0: int, byte: u8)
    requires
        row.len() == SCREEN_COLUMNS,
        0 <= col0 < SCREEN_COLUMNS,
    ensures
        blit_row(blit_row(row, col0, byte), col0, byte) == row,
        (forall|c: int| 0 <= c < SCREEN_COLUMNS ==> row[c] == 0) ==> {
            &&& !row_collides(row, col0, byte)
            &&& row_collides(blit_row(row, col0, byte), col0, byte) == shows_pixel(col0, byte)
        },
{
    let once = blit_row(row, col0, byte);
    let twice = blit_row(once, col0, byte);
    assert forall|c: int| 0 <= c < row.len() implies twice[c] == row[c] by {
        if col0 <= c < col0 + 8 {
            let x = row[c];
            let b = sprite_bit(byte, c - col0);
            assert((x ^ b) ^ b == x) by (bit_vector);
        }
    }
    assert(twice =~= row);
    if forall|c: int| 0 <= c < SCREEN_COLUMNS ==> row[c] == 0 {
        if shows_pixel(col0, byte) {
            let i = choose|i: int| 0 <= i < 8 && col0 + i < SCREEN_COLUMNS && sprite_bit(byte, i) == 1;
            let b = sprite_bit(byte, i);
            assert((0u8 ^ b) == b) by (bit_vector);
            assert(once[col0 + i] == 1);
            assert(row_collides(once, col0, byte));
        }
        if row_collides(once, col0, byte) {
            let c = choose|c: int|
                col0 <= c < col0 + 8 && 0 <= c < once.len() && once[c] == 1 && sprite_bit(byte, c - col0) == 1;
            assert(0 <= c - col0 < 8 && col0 + (c - col0) < SCREEN_COLUMNS);
            assert(shows_pixel(col0, byte));
        }
    }
}

/// The monochrome framebuffer: 32 rows of 64 cells, each 0 or 1.
pub struct Display {
    pub screen: [[u8; 64]; 32],
}

impl Display {
    /// A blank framebuffer.
    pub fn new() -> (d: Self)
        ensures
            d.is_blank(),
    {
        Display { screen: [[0u8; 64]; 32] }
    }

    /// Whether every cell is unset.
    pub open spec fn is_blank(&self) -> bool {
        forall|r: int, c: int|
            0 <= r < SCREEN_ROWS && 0 <= c < SCREEN_COLUMNS ==> #[trigger] self.screen@[r]@[c] == 0
    }

    /// Clears every cell.
    pub fn reset(&mut self)
        ensures
            final(self).is_blank(),
    {
        self.screen = [[0u8; 64]; 32];
    }

    /// XORs the eight pixels of `byte` onto row `row % 32` from column `starting_column as int % 64` on,
    /// dropping those past the last column. Returns whether a set cell was turned off.
    pub fn draw_sprite(&mut self, row: usize, starting_column: usize, byte: u8) -> (collided: bool)
        ensures
            final(self).screen@[row as int % 32]@ == blit_row(
                old(self).screen@[row as int % 32]@,
                starting_column as int % 64,
                byte,
            ),
            forall|r: int|
                0 <= r < SCREEN_ROWS && r != row as int % 32 ==> #[trigger] final(self).screen@[r]
                    == old(self).screen@[r],
            collided == row_collides(old(self).screen@[row as int % 32]@, starting_column as int % 64, byte),
    {
        assert(row & 31 == row % 32) by (bit_vector);
        assert(starting_column & 63 == starting_column as int % 64) by (bit_vector);
        let effective_row = row & 31;
        let col0 = starting_column & 63;
        let old_line = self.screen[effective_row];
        let mut line = old_line;
        let mut flipped = false;
        let mut i: usize = 0;
        while i < 8
            invariant
                i <= 8,
                col0 < 64,
                col0 + i <= 64,
                old_line@.len() == 64,
                line@ == blit_prefix(old_line@, col0 as int, byte, i as int),
                flipped == collides_prefix(old_line@, col0 as int, byte, i as int),
            ensures
                i <= 8,
                i == 8 || col0 + i == 64,
                line@ == blit_prefix(old_line@, col0 as int, byte, i as int),
                flipped == collides_prefix(old_line@, col0 as int, byte, i as int),
            decreases 8 - i,
        {
            let col = col0 + i;
            if col == 64 {
                break;
            }
            let bit = (byte >> (7 - i as u8)) & 1;
            let old_bit = line[col];
            line[col] = old_bit ^ bit;
            if old_bit == 1 && bit == 1 {
                flipped = true;
            }
            proof {
                let next = blit_prefix(old_line@, col0 as int, byte, i + 1);
                assert(line@ =~= next);
                if !flipped {
                    assert(!collides_prefix(old_line@, col0 as int, byte, i + 1));
                } else if !(old_bit == 1 && bit == 1) {
                    let c = choose|c: int|
                        col0 <= c < col0 + i && 0 <= c < old_line@.len() && old_line@[c] == 1
                            && sprite_bit(byte, c - col0) == 1;
                    assert(collides_prefix(old_line@, col0 as int, byte, i + 1));
                } else {
                    assert(old_line@[col as int] == 1 && sprite_bit(byte, col - col0) == 1);
                    assert(collides_prefix(old_line@, col0 as int, byte, i + 1));
                }
            }
            i += 1;
        }
        assert(line@ =~= blit_row(old_line@, col0 as int, byte));
        assert(flipped == row_collides(old_line@, col0 as int, byte)) by {
            if row_collides(old_line@, col0 as int, byte) {
                let c = choose|c: int|
                    col0 <= c < col0 + 8 && 0 <= c < old_line@.len() && old_line@[c] == 1
                        && sprite_bit(byte, c - col0) == 1;
                assert(collides_prefix(old_line@, col0 as int, byte, i as int));
            }
        }
        self.screen[effective_row] = line;
        flipped
    }
}

} // verus!

verus! {

/// Number of bytes of an RGB24 image of the framebuffer.
pub const RGB_IMAGE_LEN: usize = 32 * 64 * 3;

/// Byte `p` of the RGB24 image of `screen`: three bytes per cell, cells row by row, all three
/// 255 for a set cell and 0 otherwise.
pub open spec fn rgb_byte(screen: Seq<[u8; 64]>, p: int) -> u8 {
    let cell = p / 3;
    if screen[cell / 64]@[cell % 64] == 0 {
        0
    } else {
        255
    }
}

/// The framebuffer as an RGB24 image, row by row: white for a set cell, black otherwise.
pub fn map_chip_display(display: &Display) -> (r: Vec<u8>)
    ensures
        r@ == Seq::new(RGB_IMAGE_LEN as nat, |p: int| rgb_byte(display.screen@, p)),
{
    let mut out: Vec<u8> = Vec::new();
    let mut p: usize = 0;
    while p < RGB_IMAGE_LEN
        invariant
            p <= RGB_IMAGE_LEN,
            out@ == Seq::new(p as nat, |q: int| rgb_byte(display.screen@, q)),
        decreases RGB_IMAGE_LEN - p,
    {
        let cell = p / 3;
        let v: u8 = if display.screen[cell / 64][cell % 64] == 0 { 0 } else { 255 };
        out.push(v);
        p += 1;
        assert(out@ =~= Seq::new(p as nat, |q: int| rgb_byte(display.screen@, q)));
    }
    out
}

} // verus!
