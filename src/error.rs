use vstd::prelude::*;

verus! {

/// The conditions under which the engine refuses to go on with a cycle.
#[derive(Clone, Copy, Debug, PartialEq, Eq, Structural)]
pub enum Chip8Error {
    /// An access touched a byte above the last address of memory.
    AddressOutOfRange(u32),
    /// A call was made with every stack slot already in use (or with a corrupt stack pointer).
    StackOverflow,
    /// A return was made with no call on the stack (or with a corrupt stack pointer).
    StackUnderflow,
    /// The word does not encode any instruction of the machine.
    UnrecognizedOpcode(u16),
}

} // verus!
