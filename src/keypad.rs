use vstd::prelude::*;

verus! {

/// The logical key code that each slot starts out with, in the usual 4x4 arrangement.
pub open spec fn default_layout() -> Seq<u8> {
    seq![
        0x01u8, 0x02, 0x03, 0x0C,
        0x04, 0x05, 0x06, 0x0D,
        0x07, 0x08, 0x09, 0x0E,
        0x0A, 0x00, 0x0B, 0x0F,
    ]
}

/// Whether a slot records its key as held down (a nonzero high nibble).
pub open spec fn held(slot: u8) -> bool {
    slot & 0xF0 != 0
}

/// The slot that key code `key` addresses: its low four bits.
pub open spec fn slot_of(key: u8) -> int {
    (key % 16) as int
}

/// The sixteen-key input latch. Each slot's high nibble is nonzero while the key is held down;
/// its low nibble holds a logical key code.
pub struct Keypad {
    pub keys: [u8; 16],
}

impl Keypad {
    /// A keypad with every key up and the default key codes.
    pub fn new() -> (k: Self)
        ensures
            k.keys@ == default_layout(),
            forall|i: int| 0 <= i < 16 ==> !held(#[trigger] k.keys@[i]),
    {
        let k = Keypad {
            keys: [0x01, 0x02, 0x03, 0x0C, 0x04, 0x05, 0x06, 0x0D, 0x07, 0x08, 0x09, 0x0E, 0x0A, 0x00, 0x0B, 0x0F],
        };
        assert(k.keys@ =~= default_layout());
        assert forall|i: int| 0 <= i < 16 implies !held(#[trigger] k.keys@[i]) by {
            let b = k.keys@[i];
            assert(b < 16);
            assert(b < 16 ==> b & 0xF0 == 0) by (bit_vector);
        }
        k
    }

    /// Whether key `key` (reduced to four bits) is held down.
    pub fn is_down(&self, key: u8) -> (r: bool)
        ensures
            r == held(self.keys@[slot_of(key)]),
    {
        assert(key & 0xF == key % 16) by (bit_vector);
        self.keys[(key & 0xF) as usize] & 0xF0 != 0
    }

    /// Whether key `key` (reduced to four bits) is up.
    pub fn is_up(&self, key: u8) -> (r: bool)
        ensures
            r == !held(self.keys@[slot_of(key)]),
    {
        assert(key & 0xF == key % 16) by (bit_vector);
        self.keys[(key & 0xF) as usize] & 0xF0 == 0
    }

    /// Records key `key` (reduced to four bits) as down or up; its key code is kept.
    pub fn set_key(&mut self, key: u8, down: bool)
        ensures
            final(self).keys@ == old(self).keys@.update(
                slot_of(key),
                if down {
                    old(self).keys@[slot_of(key)] | 0x10
                } else {
                    old(self).keys@[slot_of(key)] & 0x0F
                },
            ),
            held(final(self).keys@[slot_of(key)]) == down,
            final(self).keys@[slot_of(key)] % 16 == old(self).keys@[slot_of(key)] % 16,
    {
        assert(key & 0xF == key % 16) by (bit_vector);
        let i = (key & 0xF) as usize;
        let b = self.keys[i];
        if down {
            assert((b | 0x10) & 0xF0 != 0 && (b | 0x10) % 16 == b % 16) by (bit_vector);
            self.keys[i] = b | 0x10;
        } else {
            assert((b & 0x0F) & 0xF0 == 0 && (b & 0x0F) % 16 == b % 16) by (bit_vector);
            self.keys[i] = b & 0x0F;
        }
    }
}

} // verus!
