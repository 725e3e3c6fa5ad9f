use vstd::prelude::*;

verus! {

/// Number of instructions executed per tick of the two timers.
pub const CYCLES_PER_TIMER_TICK: u8 = 9;

/// Counts executed instructions and says when the timers are due a tick.
pub struct TimerDivider {
    pub count: u8,
}

impl TimerDivider {
    pub fn new() -> (d: Self)
        ensures
            d.count == 0,
    {
        TimerDivider { count: 0 }
    }

    /// Counts one executed instruction. Returns whether the timers are due a tick, which is
    /// the case on every ninth instruction; the count then starts over.
    pub fn count_cycle(&mut self) -> (due: bool)
        ensures
            due == (old(self).count + 1 >= CYCLES_PER_TIMER_TICK),
            final(self).count == if due { 0 } else { old(self).count + 1 },
    {
        if self.count >= CYCLES_PER_TIMER_TICK - 1 {
            self.count = 0;
            true
        } else {
            self.count = self.count + 1;
            false
        }
    }
}

/// A consistent, read-only picture of the machine for a user interface or a debugger.
pub struct Snapshot {
    /// The program counter, reduced to twelve bits.
    pub pc: u16,
    pub sp: u8,
    pub i: u16,
    pub delay: u8,
    pub sound: u8,
    pub v: [u8; 16],
    /// The fifteen stack slots, bottom first.
    pub stack: Vec<u16>,
    pub opcode: u16,
    /// The assembly text of `opcode`, when it encodes an instruction.
    pub mnemonic: Option<String>,
    pub keys: [u8; 16],
    pub waiting_for_key: bool,
    /// The first address of `memory`.
    pub memory_start: u16,
    /// The memory window that was asked for, cut to what lies in memory.
    pub memory: Vec<u8>,
}

} // verus!
