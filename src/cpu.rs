use vstd::prelude::*;

verus! {

/// Program counter and index register keep only their low twelve bits.
pub const ADDRESS_MASK: u16 = 0x0FFF;

/// The register file of the machine.
pub struct CPU {
    /// General registers V0 to VF; VF doubles as the flag register.
    pub v_registers: [u8; 16],
    /// The index register (twelve bits are meaningful).
    pub i_register: u16,
    /// The delay timer.
    pub delay: u8,
    /// The sound timer.
    pub sound: u8,
    /// The program counter, always below 0x1000 once written through `set_pc`.
    pub program_counter: u16,
    /// The stack pointer: a byte offset into memory.
    pub stack_pointer: u8,
}

impl CPU {
    /// A register file with every register zero.
    pub fn new() -> (c: Self)
        ensures
            forall|i: int| 0 <= i < 16 ==> c.v_registers@[i] == 0,
            c.i_register == 0,
            c.delay == 0,
            c.sound == 0,
            c.program_counter == 0,
            c.stack_pointer == 0,
    {
        CPU {
            v_registers: [0u8; 16],
            i_register: 0,
            delay: 0,
            sound: 0,
            program_counter: 0,
            stack_pointer: 0,
        }
    }

    /// The program counter, reduced to twelve bits.
    pub fn read_pc(&self) -> (r: u16)
        ensures
            r == self.program_counter % 0x1000,
    {
        let pc = self.program_counter;
        assert(pc & 0x0FFF == pc % 0x1000) by (bit_vector);
        pc & ADDRESS_MASK
    }

    /// Moves the program counter on by one instruction (two bytes), wrapping within twelve bits.
    pub fn increment_pc(&mut self)
        ensures
            final(self).program_counter == (old(self).program_counter + 2) % 0x1000,
            final(self).v_registers == old(self).v_registers,
            final(self).i_register == old(self).i_register,
            final(self).delay == old(self).delay,
            final(self).sound == old(self).sound,
            final(self).stack_pointer == old(self).stack_pointer,
    {
        let pc = self.program_counter;
        assert((pc as int + 2) % 0x1000 == pc.wrapping_add(2) % 0x1000) by {
            assert(pc.wrapping_add(2) == (pc as int + 2) % 0x10000);
        }
        self.set_pc(pc.wrapping_add(2));
    }

    /// Sets the program counter to `pc` reduced to twelve bits.
    pub fn set_pc(&mut self, pc: u16)
        ensures
            final(self).program_counter == pc % 0x1000,
            final(self).v_registers == old(self).v_registers,
            final(self).i_register == old(self).i_register,
            final(self).delay == old(self).delay,
            final(self).sound == old(self).sound,
            final(self).stack_pointer == old(self).stack_pointer,
    {
        assert(pc & 0x0FFF == pc % 0x1000) by (bit_vector);
        self.program_counter = pc & ADDRESS_MASK;
    }

    pub fn get_sp(&self) -> (r: u8)
        ensures
            r == self.stack_pointer,
    {
        self.stack_pointer
    }

    pub fn set_sp(&mut self, sp: u8)
        ensures
            final(self).stack_pointer == sp,
            final(self).v_registers == old(self).v_registers,
            final(self).i_register == old(self).i_register,
            final(self).delay == old(self).delay,
            final(self).sound == old(self).sound,
            final(self).program_counter == old(self).program_counter,
    {
        self.stack_pointer = sp;
    }
}

} // verus!
