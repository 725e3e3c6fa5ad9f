use vstd::prelude::*;

use crate::error::Chip8Error;

verus! {

/// Number of addressable bytes.
pub const MEMORY_SIZE: usize = 0x1000;

/// The big-endian word stored at `addr` and `addr + 1`.
pub open spec fn word_at(mem: Seq<u8>, addr: int) -> u16 {
    (mem[addr] as int * 256 + mem[addr + 1] as int) as u16
}

/// `mem` after storing `w` big-endian at `addr`.
pub open spec fn with_word(mem: Seq<u8>, addr: int, w: u16) -> Seq<u8> {
    mem.update(addr, (w / 256) as u8).update(addr + 1, (w % 256) as u8)
}

/// A byte written to memory is read back unchanged, and no other byte moves.
pub proof fn lemma_byte_round_trip(mem: Seq<u8>, addr: int, other: int, v: u8)
    requires
        mem.len() == MEMORY_SIZE,
        0 <= addr < MEMORY_SIZE,
        0 <= other < MEMORY_SIZE,
        other != addr,
    ensures
        mem.update(addr, v)[addr] == v,
        mem.update(addr, v)[other] == mem[other],
{
}

/// A word written to memory is read back unchanged, its high byte first (big-endian),
/// and no byte outside the two it occupies moves.
pub proof fn lemma_word_round_trip(mem: Seq<u8>, addr: int, other: int, w: u16)
    requires
        mem.len() == MEMORY_SIZE,
        0 <= addr,
        addr + 1 < MEMORY_SIZE,
        0 <= other < MEMORY_SIZE,
        other != addr,
        other != addr + 1,
    ensures
        word_at(with_word(mem, addr, w), addr) == w,
        with_word(mem, addr, w)[addr] == w / 256,
        with_word(mem, addr, w)[addr + 1] == w % 256,
        with_word(mem, addr, w)[other] == mem[other],
{
}

/// Whether the `len` bytes from `addr` on all lie in memory.
pub open spec fn in_range(addr: int, len: int) -> bool {
    addr + len <= MEMORY_SIZE
}

/// The first address outside memory met by an access that starts at `addr` and does not fit.
pub open spec fn first_bad_address(addr: int) -> u32 {
    if addr >= MEMORY_SIZE {
        addr as u32
    } else {
        MEMORY_SIZE as u32
    }
}

/// The flat 4 KiB address space.
pub struct Memory {
    address_space: [u8; 0x1000],
}

impl View for Memory {
    type V = Seq<u8>;

    closed spec fn view(&self) -> Seq<u8> {
        self.address_space@
    }
}

impl Memory {
    /// Every memory holds exactly `MEMORY_SIZE` bytes.
    pub proof fn lemma_size(&self)
        ensures
            self@.len() == MEMORY_SIZE,
    {
    }

    pub fn new() -> (m: Self)
        ensures
            m@.len() == MEMORY_SIZE,
            forall|a: int| 0 <= a < MEMORY_SIZE ==> m@[a] == 0,
    {
        Memory { address_space: [0u8; 0x1000] }
    }

    pub fn write_u8(&mut self, addr: u16, data: u8) -> (r: Result<(), Chip8Error>)
        ensures
            addr < MEMORY_SIZE ==> r == Ok::<(), Chip8Error>(()) && final(self)@ == old(self)@.update(addr as int, data),
            addr >= MEMORY_SIZE ==> r == Err::<(), Chip8Error>(Chip8Error::AddressOutOfRange(addr as u32)) && final(self)@ == old(self)@,
    {
        if addr < 0x1000 {
            self.address_space[addr as usize] = data;
            Ok(())
        } else {
            Err(Chip8Error::AddressOutOfRange(addr as u32))
        }
    }

    pub fn read_u8(&self, addr: u16) -> (r: Result<u8, Chip8Error>)
        ensures
            in_range(addr as int, 1) ==> r == Ok::<u8, Chip8Error>(self@[addr as int]),
            !in_range(addr as int, 1) ==> r == Err::<u8, Chip8Error>(
                Chip8Error::AddressOutOfRange(addr as u32),
            ),
    {
        if addr < 0x1000 {
            Ok(self.address_space[addr as usize])
        } else {
            Err(Chip8Error::AddressOutOfRange(addr as u32))
        }
    }

    /// Stores `data` big-endian: the high byte at `addr`, the low byte at `addr + 1`.
    /// Nothing is written unless both bytes lie in memory.
    pub fn write_u16(&mut self, addr: u16, data: u16) -> (r: Result<(), Chip8Error>)
        ensures
            in_range(addr as int, 2) ==> r == Ok::<(), Chip8Error>(()) && final(self)@ == with_word(
                old(self)@,
                addr as int,
                data,
            ),
            !in_range(addr as int, 2) ==> r == Err::<(), Chip8Error>(
                Chip8Error::AddressOutOfRange(first_bad_address(addr as int)),
            ) && final(self)@ == old(self)@,
    {
        if addr >= 0x0FFF {
            return Err(Chip8Error::AddressOutOfRange(if addr >= 0x1000 { addr as u32 } else { 0x1000 }));
        }
        let hi = (data / 256) as u8;
        let lo = (data % 256) as u8;
        self.address_space[addr as usize] = hi;
        self.address_space[addr as usize + 1] = lo;
        Ok(())
    }

    /// Reads the big-endian word at `addr` and `addr + 1`.
    pub fn read_u16(&self, addr: u16) -> (r: Result<u16, Chip8Error>)
        ensures
            in_range(addr as int, 2) ==> r == Ok::<u16, Chip8Error>(word_at(self@, addr as int)),
            !in_range(addr as int, 2) ==> r == Err::<u16, Chip8Error>(
                Chip8Error::AddressOutOfRange(first_bad_address(addr as int)),
            ),
    {
        if addr >= 0x0FFF {
            return Err(Chip8Error::AddressOutOfRange(if addr >= 0x1000 { addr as u32 } else { 0x1000 }));
        }
        let hi = self.address_space[addr as usize] as u16;
        let lo = self.address_space[addr as usize + 1] as u16;
        Ok(hi * 256 + lo)
    }
}

} // verus!
