use vstd::prelude::*;

use crate::cpu::CPU;
use crate::display::Display;
use crate::error::Chip8Error;
use crate::display::{blit_row, row_collides};
use crate::font::{font_image, glyph, glyph_row, lemma_glyph_placement, GLYPH_COUNT, GLYPH_HEIGHT};
use crate::instruction::{decode, decode_spec, x_of, Instruction};
use crate::keypad::{default_layout, held, slot_of, Keypad};
use crate::mnemonic::mnemonic_text;
use crate::snapshot::Snapshot;
use crate::memory::{first_bad_address, in_range, with_word, word_at, Memory, MEMORY_SIZE};

verus! {

/// Address at which programs are loaded and execution starts.
pub const PROGRAM_START: u16 = 0x0200;

/// The stack pointer of an empty call stack.
pub const STACK_EMPTY: u8 = 0x4E;

/// The stack pointer when every one of the fifteen stack slots is in use.
pub const STACK_FULL: u8 = 0x6C;

/// The address of the bottom stack slot.
pub const STACK_BASE: u16 = 0x50;

/// Number of stack slots.
pub const STACK_SLOTS: usize = 15;

/// The state the pseudo-random generator starts from.
pub const DEFAULT_SEED: u32 = 0x2545_F491;

/// The whole machine as plain mathematical values.
#[verifier::ext_equal]
pub struct MachineState {
    pub v: Seq<u8>,
    pub i: u16,
    pub delay: u8,
    pub sound: u8,
    pub pc: u16,
    pub sp: u8,
    pub mem: Seq<u8>,
    pub screen: Seq<Seq<u8>>,
    pub keys: Seq<u8>,
    pub opcode: u16,
    pub resume_from: u16,
    pub waiting: bool,
    pub new_draw: bool,
    pub rng: u32,
    pub rom: Seq<u8>,
}

/// `mem` with `data` laid over it from address `base` on.
pub open spec fn overlay(mem: Seq<u8>, base: int, data: Seq<u8>) -> Seq<u8> {
    Seq::new(
        mem.len(),
        |a: int|
            if base <= a < base + data.len() {
                data[a - base]
            } else {
                mem[a]
            },
    )
}

/// Whether a program fits in memory from `PROGRAM_START` on.
pub open spec fn rom_fits(rom: Seq<u8>) -> bool {
    PROGRAM_START + rom.len() <= MEMORY_SIZE
}

/// Memory right after a reset: the font at the bottom, the program (when it fits) from
/// `PROGRAM_START` on, zero everywhere else.
pub open spec fn fresh_memory(rom: Seq<u8>) -> Seq<u8> {
    let base = overlay(Seq::new(MEMORY_SIZE as nat, |a: int| 0u8), 0, font_image());
    if rom_fits(rom) {
        overlay(base, PROGRAM_START as int, rom)
    } else {
        base
    }
}

/// A framebuffer with every cell unset.
pub open spec fn blank_screen() -> Seq<Seq<u8>> {
    Seq::new(32, |r: int| Seq::new(64, |c: int| 0u8))
}

/// The state of a machine just reset with program `rom` and generator state `rng`.
pub open spec fn power_on_state(rom: Seq<u8>, rng: u32) -> MachineState {
    MachineState {
        v: Seq::new(16, |r: int| 0u8),
        i: 0,
        delay: 0,
        sound: 0,
        pc: PROGRAM_START,
        sp: STACK_EMPTY,
        mem: fresh_memory(rom),
        screen: blank_screen(),
        keys: default_layout(),
        opcode: 0,
        resume_from: 0,
        waiting: false,
        new_draw: false,
        rng,
        rom,
    }
}

/// An address reduced to twelve bits.
pub open spec fn mask12(a: int) -> u16 {
    (a % 0x1000) as u16
}

/// The address of the instruction after the one at `pc`.
pub open spec fn next_pc(pc: u16) -> u16 {
    mask12(pc + 2)
}

/// The state once the program counter has moved past the current instruction, which is
/// also where a key wait would resume.
pub open spec fn advance(m: MachineState) -> MachineState {
    MachineState { pc: next_pc(m.pc), resume_from: next_pc(m.pc), ..m }
}

/// The state with the next instruction skipped when `cond` holds.
pub open spec fn skip_if(m: MachineState, cond: bool) -> MachineState {
    if cond {
        MachineState { pc: next_pc(m.pc), ..m }
    } else {
        m
    }
}

/// The state with register `x` set to `val`.
pub open spec fn set_v(m: MachineState, x: u8, val: u8) -> MachineState {
    MachineState { v: m.v.update(x as int, val), ..m }
}

/// The state with VF set to `flag` and then register `x` to `val` (so that `val` wins when
/// `x` is VF itself).
pub open spec fn set_v_flag(m: MachineState, x: u8, val: u8, flag: u8) -> MachineState {
    MachineState { v: m.v.update(15, flag).update(x as int, val), ..m }
}

/// The state with the program counter set to `target` reduced to twelve bits.
pub open spec fn jump_to(m: MachineState, target: int) -> MachineState {
    MachineState { pc: mask12(target), ..m }
}

/// Whether a return address can be pushed with the stack pointer at `sp`.
pub open spec fn can_push(sp: u8) -> bool {
    STACK_EMPTY <= sp < STACK_FULL && sp % 2 == 0
}

/// Whether a return address can be popped with the stack pointer at `sp`.
pub open spec fn can_pop(sp: u8) -> bool {
    STACK_EMPTY < sp <= STACK_FULL && sp % 2 == 0
}

/// Pushing `value`: the stack pointer moves up one slot, then the value is stored there.
pub open spec fn push_spec(m: MachineState, value: u16) -> Result<MachineState, Chip8Error> {
    if can_push(m.sp) {
        Ok(MachineState { sp: (m.sp + 2) as u8, mem: with_word(m.mem, m.sp + 2, value), ..m })
    } else {
        Err(Chip8Error::StackOverflow)
    }
}

/// Popping: the value in the slot at the stack pointer, which then moves down one slot.
pub open spec fn pop_spec(m: MachineState) -> Result<(MachineState, u16), Chip8Error> {
    if can_pop(m.sp) {
        Ok((MachineState { sp: (m.sp - 2) as u8, ..m }, word_at(m.mem, m.sp as int)))
    } else {
        Err(Chip8Error::StackUnderflow)
    }
}

/// The generator state that follows `s` (a linear congruential step modulo 2^32).
pub open spec fn lcg_next(s: u32) -> u32 {
    ((s as int * 1103515245 + 12345) % 0x1_0000_0000) as u32
}

/// The random byte that generator state `s` yields: bits 16 to 23.
pub open spec fn random_byte(s: u32) -> u8 {
    ((s as int / 0x10000) % 0x100) as u8
}

/// Number of sprite rows drawn from screen row `vy` on: rows past the bottom are dropped.
pub open spec fn sprite_rows(vy: int, n: int) -> int {
    if vy + n <= 32 {
        n
    } else {
        32 - vy
    }
}

/// The screen after XOR-ing sprite rows `mem[i]`, `mem[i + 1]`, ... onto screen rows `vy` to
/// `vy + rows - 1`, from column `vx` on.
pub open spec fn drawn_screen(
    screen: Seq<Seq<u8>>,
    mem: Seq<u8>,
    i: int,
    vx: int,
    vy: int,
    rows: int,
) -> Seq<Seq<u8>> {
    Seq::new(
        screen.len(),
        |r: int|
            if vy <= r < vy + rows {
                blit_row(screen[r], vx, mem[i + r - vy])
            } else {
                screen[r]
            },
    )
}

/// Whether drawing as in `drawn_screen` turns some set cell off.
pub open spec fn draw_collides(
    screen: Seq<Seq<u8>>,
    mem: Seq<u8>,
    i: int,
    vx: int,
    vy: int,
    rows: int,
) -> bool {
    exists|r: int| vy <= r < vy + rows && #[trigger] row_collides(screen[r], vx, mem[i + r - vy])
}

/// Dxyn on state `m`.
pub open spec fn draw_spec(m: MachineState, x: u8, y: u8, n: u8) -> Result<MachineState, Chip8Error> {
    let vx = m.v[x as int] % 64;
    let vy = m.v[y as int] % 32;
    let rows = sprite_rows(vy as int, n as int);
    if rows > 0 && !in_range(m.i as int, rows) {
        Err(Chip8Error::AddressOutOfRange(first_bad_address(m.i as int)))
    } else {
        let hit = draw_collides(m.screen, m.mem, m.i as int, vx as int, vy as int, rows);
        Ok(
            MachineState {
                screen: drawn_screen(m.screen, m.mem, m.i as int, vx as int, vy as int, rows),
                v: m.v.update(15, if hit { 1u8 } else { 0u8 }),
                new_draw: true,
                ..m
            },
        )
    }
}

/// Fails with the first address outside memory when the `len` bytes from I on do not all fit;
/// otherwise gives `ok`.
pub open spec fn within_i(m: MachineState, len: int, ok: MachineState) -> Result<MachineState, Chip8Error> {
    if in_range(m.i as int, len) {
        Ok(ok)
    } else {
        Err(Chip8Error::AddressOutOfRange(first_bad_address(m.i as int)))
    }
}

/// What instruction `ins` does to state `m`, whose program counter has already moved past it.
pub open spec fn apply(m: MachineState, ins: Instruction) -> Result<MachineState, Chip8Error> {
    match ins {
        Instruction::Sys { .. } => Ok(m),
        Instruction::Cls => Ok(MachineState { screen: blank_screen(), ..m }),
        Instruction::Ret => match pop_spec(m) {
            Ok((s, a)) => Ok(jump_to(s, a as int)),
            Err(e) => Err(e),
        },
        Instruction::Jp { addr } => Ok(jump_to(m, addr as int)),
        Instruction::Call { addr } => match push_spec(m, m.pc) {
            Ok(s) => Ok(jump_to(s, addr as int)),
            Err(e) => Err(e),
        },
        Instruction::SeVxByte { x, byte } => Ok(skip_if(m, m.v[x as int] == byte)),
        Instruction::SneVxByte { x, byte } => Ok(skip_if(m, m.v[x as int] != byte)),
        Instruction::SeVxVy { x, y } => Ok(skip_if(m, m.v[x as int] == m.v[y as int])),
        Instruction::SneVxVy { x, y } => Ok(skip_if(m, m.v[x as int] != m.v[y as int])),
        Instruction::LdVxByte { x, byte } => Ok(set_v(m, x, byte)),
        Instruction::AddVxByte { x, byte } => Ok(
            set_v(m, x, ((m.v[x as int] + byte) % 256) as u8),
        ),
        Instruction::LdVxVy { x, y } => Ok(set_v(m, x, m.v[y as int])),
        Instruction::OrVxVy { x, y } => Ok(set_v(m, x, m.v[x as int] | m.v[y as int])),
        Instruction::AndVxVy { x, y } => Ok(set_v(m, x, m.v[x as int] & m.v[y as int])),
        Instruction::XorVxVy { x, y } => Ok(set_v(m, x, m.v[x as int] ^ m.v[y as int])),
        Instruction::AddVxVy { x, y } => {
            let sum = m.v[x as int] + m.v[y as int];
            Ok(set_v_flag(m, x, (sum % 256) as u8, if sum > 255 { 1 } else { 0 }))
        },
        Instruction::SubVxVy { x, y } => {
            let (vx, vy) = (m.v[x as int], m.v[y as int]);
            Ok(set_v_flag(m, x, ((vx - vy + 256) % 256) as u8, if vx > vy { 1 } else { 0 }))
        },
        Instruction::SubnVxVy { x, y } => {
            let (vx, vy) = (m.v[x as int], m.v[y as int]);
            Ok(set_v_flag(m, x, ((vy - vx + 256) % 256) as u8, if vy > vx { 1 } else { 0 }))
        },
        Instruction::ShrVx { x } => {
            let vx = m.v[x as int];
            Ok(set_v_flag(m, x, vx / 2, vx % 2))
        },
        Instruction::ShlVx { x } => {
            let vx = m.v[x as int];
            Ok(set_v_flag(m, x, ((vx * 2) % 256) as u8, vx / 128))
        },
        Instruction::LdIAddr { addr } => Ok(MachineState { i: addr, ..m }),
        Instruction::JpV0Addr { addr } => Ok(jump_to(m, addr + m.v[0])),
        Instruction::RndVxByte { x, byte } => {
            let next = lcg_next(m.rng);
            Ok(MachineState { rng: next, ..set_v(m, x, byte & random_byte(next)) })
        },
        Instruction::Drw { x, y, n } => draw_spec(m, x, y, n),
        Instruction::SkpVx { x } => Ok(skip_if(m, held(m.keys[slot_of(m.v[x as int])]))),
        Instruction::SknpVx { x } => Ok(skip_if(m, !held(m.keys[slot_of(m.v[x as int])]))),
        Instruction::LdVxDt { x } => Ok(set_v(m, x, m.delay)),
        Instruction::LdVxK { .. } => Ok(MachineState { waiting: true, ..m }),
        Instruction::LdDtVx { x } => Ok(MachineState { delay: m.v[x as int], ..m }),
        Instruction::LdStVx { x } => Ok(MachineState { sound: m.v[x as int], ..m }),
        Instruction::AddIVx { x } => Ok(
            MachineState { i: ((m.i + m.v[x as int]) % 0x10000) as u16, ..m },
        ),
        Instruction::LdFVx { x } => Ok(MachineState { i: (m.v[x as int] * 5) as u16, ..m }),
        Instruction::LdBVx { x } => {
            let vx = m.v[x as int];
            let i = m.i as int;
            within_i(
                m,
                3,
                MachineState {
                    mem: m.mem.update(i, vx / 100).update(i + 1, (vx / 10) % 10).update(i + 2, vx % 10),
                    ..m
                },
            )
        },
        Instruction::LdIVx { x } => within_i(
            m,
            x + 1,
            MachineState { mem: overlay(m.mem, m.i as int, m.v.take(x + 1)), ..m },
        ),
        Instruction::LdVxI { x } => within_i(
            m,
            x + 1,
            MachineState { v: overlay(m.v, 0, m.mem.subrange(m.i as int, m.i + x + 1)), ..m },
        ),
    }
}

/// One execution of instruction `ins`, fetched into state `m`. The key wait does not complete:
/// the program counter stays on it, and execution resumes after it once a key arrives.
pub open spec fn execute(m: MachineState, ins: Instruction) -> Result<MachineState, Chip8Error> {
    match ins {
        Instruction::LdVxK { .. } => Ok(MachineState { waiting: true, resume_from: next_pc(m.pc), ..m }),
        _ => apply(advance(m), ins),
    }
}

/// What `decode_execute` does: nothing while a key wait is pending, otherwise decode the fetched
/// word and execute it.
pub open spec fn step_spec(m: MachineState) -> Result<MachineState, Chip8Error> {
    if m.waiting {
        Ok(m)
    } else {
        match decode_spec(m.opcode) {
            Ok(ins) => execute(m, ins),
            Err(e) => Err(e),
        }
    }
}

/// What `fetch` does: nothing while a key wait is pending, otherwise read the word at the
/// program counter into the opcode.
pub open spec fn fetch_spec(m: MachineState) -> Result<MachineState, Chip8Error> {
    let pc = m.pc % 0x1000;
    if m.waiting {
        Ok(m)
    } else if in_range(pc as int, 2) {
        Ok(MachineState { opcode: word_at(m.mem, pc as int), ..m })
    } else {
        Err(Chip8Error::AddressOutOfRange(first_bad_address(pc as int)))
    }
}

/// A key-press event `key` while a key wait is pending: the code goes into the register that
/// the wait names and execution resumes. Ignored otherwise.
pub open spec fn deliver_key(m: MachineState, key: u8) -> MachineState {
    if m.waiting {
        MachineState {
            v: m.v.update(x_of(m.opcode) as int, key),
            waiting: false,
            pc: mask12(m.resume_from as int),
            ..m
        }
    } else {
        m
    }
}

/// The first address of the memory window from `start` to `end`, both included, cut to memory.
pub open spec fn window_start(start: u16) -> int {
    if start < MEMORY_SIZE {
        start as int
    } else {
        MEMORY_SIZE as int
    }
}

/// The address after the last of the memory window from `start` to `end`, both included, cut
/// to memory; the window is empty when `end` comes before `start`.
pub open spec fn window_end(start: u16, end: u16) -> int {
    let e = if end < MEMORY_SIZE {
        end + 1
    } else {
        MEMORY_SIZE as int
    };
    if e < window_start(start) {
        window_start(start)
    } else {
        e
    }
}

/// The words in the stack slots of memory `mem`, bottom first.
pub open spec fn stack_slots(mem: Seq<u8>) -> Seq<u16> {
    Seq::new(STACK_SLOTS as nat, |k: int| word_at(mem, STACK_BASE + 2 * k))
}

/// `post` and `r` are what an operation owed on `pre` when it was to give `expected`: the new
/// state on success, and the state left untouched on failure.
pub open spec fn outcome(
    pre: MachineState,
    post: MachineState,
    r: Result<(), Chip8Error>,
    expected: Result<MachineState, Chip8Error>,
) -> bool {
    match expected {
        Ok(s) => r == Ok::<(), Chip8Error>(()) && post == s,
        Err(e) => r == Err::<(), Chip8Error>(e) && post == pre,
    }
}

/// The CHIP-8 virtual machine: register file, memory, framebuffer, keypad and the state of
/// the fetch-decode-execute engine.
pub struct Chip8 {
    pub cpu: CPU,
    pub memory: Memory,
    pub display: Display,
    pub keypad: Keypad,
    /// The instruction word fetched last.
    pub opcode: u16,
    /// Where execution goes on once a key wait ends.
    resume_from: u16,
    /// Whether the engine is blocked on a key-wait instruction.
    pub waiting_for_key: bool,
    /// State of the pseudo-random generator.
    rng: u32,
    /// The program that `load` and `reset` place in memory.
    rom: Vec<u8>,
    /// Set whenever the framebuffer was drawn on.
    pub new_draw: bool,
}

impl View for Chip8 {
    type V = MachineState;

    closed spec fn view(&self) -> MachineState {
        MachineState {
            v: self.cpu.v_registers@,
            i: self.cpu.i_register,
            delay: self.cpu.delay,
            sound: self.cpu.sound,
            pc: self.cpu.program_counter,
            sp: self.cpu.stack_pointer,
            mem: self.memory@,
            screen: self.display.screen@.map_values(|row: [u8; 64]| row@),
            keys: self.keypad.keys@,
            opcode: self.opcode,
            resume_from: self.resume_from,
            waiting: self.waiting_for_key,
            new_draw: self.new_draw,
            rng: self.rng,
            rom: self.rom@,
        }
    }
}

/// Writes the font into the bottom of memory.
fn install_font(mem: &mut Memory)
    ensures
        final(mem)@ == overlay(old(mem)@, 0, font_image()),
{
    proof {
        old(mem).lemma_size();
    }
    let ghost start = mem@;
    let mut a: usize = 0;
    while a < GLYPH_COUNT * GLYPH_HEIGHT
        invariant
            a <= GLYPH_COUNT * GLYPH_HEIGHT,
            start.len() == MEMORY_SIZE,
            mem@ == overlay(start, 0, font_image().take(a as int)),
        decreases GLYPH_COUNT * GLYPH_HEIGHT - a,
    {
        let byte = glyph_row(a / GLYPH_HEIGHT, a % GLYPH_HEIGHT);
        let _ = mem.write_u8(a as u16, byte);
        assert(mem@ =~= overlay(start, 0, font_image().take(a + 1)));
        a += 1;
    }
    assert(font_image().take(a as int) =~= font_image());
}

impl Chip8 {
    /// A machine just switched on: font installed, no program, PC at `PROGRAM_START`,
    /// empty stack, blank screen, every key up.
    pub fn new() -> (c: Self)
        ensures
            c@ == power_on_state(Seq::empty(), DEFAULT_SEED),
    {
        let mut mem = Memory::new();
        install_font(&mut mem);
        let mut cpu = CPU::new();
        cpu.set_sp(STACK_EMPTY);
        cpu.set_pc(PROGRAM_START);
        let c = Chip8 {
            cpu,
            memory: mem,
            display: Display::new(),
            keypad: Keypad::new(),
            opcode: 0,
            resume_from: 0,
            waiting_for_key: false,
            rng: DEFAULT_SEED,
            rom: Vec::new(),
            new_draw: false,
        };
        proof {
            let s = c@;
            let p = power_on_state(Seq::empty(), DEFAULT_SEED);
            assert(s.v =~= p.v);
            assert(s.mem =~= p.mem);
            assert forall|r: int| 0 <= r < 32 implies s.screen[r] =~= p.screen[r] by {}
            assert(s.screen =~= p.screen);
            assert(s.rom =~= p.rom);
            assert(s =~= p);
        }
        c
    }

    /// Back to the power-on state, keeping the program and the generator state, then loads the
    /// program. Fails, with the program left out of memory, when it does not fit.
    pub fn reset(&mut self) -> (r: Result<(), Chip8Error>)
        ensures
            final(self)@ == power_on_state(old(self)@.rom, old(self)@.rng),
            rom_fits(old(self)@.rom) ==> r == Ok::<(), Chip8Error>(()),
            !rom_fits(old(self)@.rom) ==> r == Err::<(), Chip8Error>(
                Chip8Error::AddressOutOfRange(MEMORY_SIZE as u32),
            ),
    {
        self.display.reset();
        self.keypad = Keypad::new();
        self.opcode = 0;
        self.resume_from = 0;
        self.waiting_for_key = false;
        self.new_draw = false;
        let mut mem = Memory::new();
        install_font(&mut mem);
        let mut cpu = CPU::new();
        cpu.set_sp(STACK_EMPTY);
        cpu.set_pc(PROGRAM_START);
        self.cpu = cpu;
        self.memory = mem;
        proof {
            let s = self@;
            let p = power_on_state(Seq::empty(), self.rng);
            assert(s.v =~= p.v);
            assert(s.mem =~= p.mem);
            assert forall|r: int| 0 <= r < 32 implies s.screen[r] =~= p.screen[r] by {}
            assert(s.screen =~= p.screen);
        }
        let r = self.load();
        proof {
            let s = self@;
            let p = power_on_state(s.rom, s.rng);
            assert(s.v =~= p.v);
            assert(s.mem =~= p.mem);
            assert forall|r: int| 0 <= r < 32 implies s.screen[r] =~= p.screen[r] by {}
            assert(s.screen =~= p.screen);
            assert(s =~= p);
        }
        r
    }

    /// Keeps `program` as the program that `load` and `reset` place in memory.
    pub fn insert_rom(&mut self, program: Vec<u8>)
        ensures
            final(self)@ == (MachineState { rom: program@, ..old(self)@ }),
    {
        self.rom = program;
    }

    /// Copies the program verbatim into memory from `PROGRAM_START` on. Fails, writing
    /// nothing, when it does not fit.
    pub fn load(&mut self) -> (r: Result<(), Chip8Error>)
        ensures
            rom_fits(old(self)@.rom) ==> r == Ok::<(), Chip8Error>(()) && final(self)@ == (
            MachineState { mem: overlay(old(self)@.mem, PROGRAM_START as int, old(self)@.rom), ..old(self)@ }),
            !rom_fits(old(self)@.rom) ==> r == Err::<(), Chip8Error>(
                Chip8Error::AddressOutOfRange(MEMORY_SIZE as u32),
            ) && final(self)@ == old(self)@,
    {
        proof {
            self.memory.lemma_size();
        }
        if self.rom.len() > MEMORY_SIZE - PROGRAM_START as usize {
            return Err(Chip8Error::AddressOutOfRange(MEMORY_SIZE as u32));
        }
        let ghost start = self@;
        let mut k: usize = 0;
        while k < self.rom.len()
            invariant
                k <= self.rom.len(),
                rom_fits(start.rom),
                start.mem.len() == MEMORY_SIZE,
                self@ == (MachineState {
                    mem: overlay(start.mem, PROGRAM_START as int, start.rom.take(k as int)),
                    ..start
                }),
            decreases self.rom.len() - k,
        {
            let byte = self.rom[k];
            let _ = self.memory.write_u8(PROGRAM_START + k as u16, byte);
            proof {
                let s = self@;
                assert(s.mem =~= overlay(start.mem, PROGRAM_START as int, start.rom.take(k + 1)));
                assert(s =~= (MachineState {
                    mem: overlay(start.mem, PROGRAM_START as int, start.rom.take(k + 1)),
                    ..start
                }));
            }
            k += 1;
        }
        assert(start.rom.take(k as int) =~= start.rom);
        Ok(())
    }

    /// Sets register `x` to `val`.
    fn write_v(&mut self, x: u8, val: u8)
        requires
            x < 16,
        ensures
            final(self)@ == set_v(old(self)@, x, val),
    {
        let ghost pre = self@;
        self.cpu.v_registers[x as usize] = val;
        assert(self@ =~= set_v(pre, x, val));
    }

    /// Sets VF to `flag` and then register `x` to `val`.
    fn write_v_flag(&mut self, x: u8, val: u8, flag: u8)
        requires
            x < 16,
        ensures
            final(self)@ == set_v_flag(old(self)@, x, val, flag),
    {
        let ghost pre = self@;
        self.cpu.v_registers[15] = flag;
        self.cpu.v_registers[x as usize] = val;
        assert(self@ =~= set_v_flag(pre, x, val, flag));
    }

    /// Skips the next instruction when `cond` holds.
    fn skip_next_if(&mut self, cond: bool)
        ensures
            final(self)@ == skip_if(old(self)@, cond),
    {
        let ghost pre = self@;
        if cond {
            self.cpu.increment_pc();
            assert(self@ =~= skip_if(pre, cond));
        }
    }

    /// Jumps to `target` reduced to twelve bits.
    fn jump(&mut self, target: u16)
        ensures
            final(self)@ == jump_to(old(self)@, target as int),
    {
        let ghost pre = self@;
        self.cpu.set_pc(target);
        assert(self@ =~= jump_to(pre, target as int));
    }

    /// 0nnn: machine-code routines do not exist here; the instruction is ignored.
    fn sys_addr(&mut self, addr: u16)
        ensures
            apply(old(self)@, Instruction::Sys { addr }) == Ok::<MachineState, Chip8Error>(final(self)@),
    {
    }

    fn cls(&mut self)
        ensures
            apply(old(self)@, Instruction::Cls) == Ok::<MachineState, Chip8Error>(final(self)@),
    {
        let ghost pre = self@;
        self.display.reset();
        proof {
            let s = self@;
            let p = MachineState { screen: blank_screen(), ..pre };
            assert forall|r: int| 0 <= r < 32 implies s.screen[r] =~= p.screen[r] by {}
            assert(s.screen =~= p.screen);
            assert(s =~= p);
        }
    }

    fn jp_addr(&mut self, addr: u16)
        ensures
            apply(old(self)@, Instruction::Jp { addr }) == Ok::<MachineState, Chip8Error>(final(self)@),
    {
        self.jump(addr);
    }

    fn se_vx_byte(&mut self, x: u8, byte: u8)
        requires
            x < 16,
        ensures
            apply(old(self)@, Instruction::SeVxByte { x, byte }) == Ok::<MachineState, Chip8Error>(
                final(self)@,
            ),
    {
        let c = self.cpu.v_registers[x as usize] == byte;
        self.skip_next_if(c);
    }

    fn sne_vx_byte(&mut self, x: u8, byte: u8)
        requires
            x < 16,
        ensures
            apply(old(self)@, Instruction::SneVxByte { x, byte }) == Ok::<MachineState, Chip8Error>(
                final(self)@,
            ),
    {
        let c = self.cpu.v_registers[x as usize] != byte;
        self.skip_next_if(c);
    }

    fn se_vx_vy(&mut self, x: u8, y: u8)
        requires
            x < 16,
            y < 16,
        ensures
            apply(old(self)@, Instruction::SeVxVy { x, y }) == Ok::<MachineState, Chip8Error>(
                final(self)@,
            ),
    {
        let c = self.cpu.v_registers[x as usize] == self.cpu.v_registers[y as usize];
        self.skip_next_if(c);
    }

    fn sne_vx_vy(&mut self, x: u8, y: u8)
        requires
            x < 16,
            y < 16,
        ensures
            apply(old(self)@, Instruction::SneVxVy { x, y }) == Ok::<MachineState, Chip8Error>(
                final(self)@,
            ),
    {
        let c = self.cpu.v_registers[x as usize] != self.cpu.v_registers[y as usize];
        self.skip_next_if(c);
    }

    fn ld_vx_byte(&mut self, x: u8, byte: u8)
        requires
            x < 16,
        ensures
            apply(old(self)@, Instruction::LdVxByte { x, byte }) == Ok::<MachineState, Chip8Error>(
                final(self)@,
            ),
    {
        self.write_v(x, byte);
    }

    fn add_vx_byte(&mut self, x: u8, byte: u8)
        requires
            x < 16,
        ensures
            apply(old(self)@, Instruction::AddVxByte { x, byte }) == Ok::<MachineState, Chip8Error>(
                final(self)@,
            ),
    {
        let vx = self.cpu.v_registers[x as usize];
        self.write_v(x, vx.wrapping_add(byte));
    }

    fn ld_vx_vy(&mut self, x: u8, y: u8)
        requires
            x < 16,
            y < 16,
        ensures
            apply(old(self)@, Instruction::LdVxVy { x, y }) == Ok::<MachineState, Chip8Error>(
                final(self)@,
            ),
    {
        let vy = self.cpu.v_registers[y as usize];
        self.write_v(x, vy);
    }

    fn or_vx_vy(&mut self, x: u8, y: u8)
        requires
            x < 16,
            y < 16,
        ensures
            apply(old(self)@, Instruction::OrVxVy { x, y }) == Ok::<MachineState, Chip8Error>(
                final(self)@,
            ),
    {
        let val = self.cpu.v_registers[x as usize] | self.cpu.v_registers[y as usize];
        self.write_v(x, val);
    }

    fn and_vx_vy(&mut self, x: u8, y: u8)
        requires
            x < 16,
            y < 16,
        ensures
            apply(old(self)@, Instruction::AndVxVy { x, y }) == Ok::<MachineState, Chip8Error>(
                final(self)@,
            ),
    {
        let val = self.cpu.v_registers[x as usize] & self.cpu.v_registers[y as usize];
        self.write_v(x, val);
    }

    fn xor_vx_vy(&mut self, x: u8, y: u8)
        requires
            x < 16,
            y < 16,
        ensures
            apply(old(self)@, Instruction::XorVxVy { x, y }) == Ok::<MachineState, Chip8Error>(
                final(self)@,
            ),
    {
        let val = self.cpu.v_registers[x as usize] ^ self.cpu.v_registers[y as usize];
        self.write_v(x, val);
    }

    /// 8xy4: the carry is taken from the full nine-bit sum before it is cut to eight bits.
    fn add_vx_vy(&mut self, x: u8, y: u8)
        requires
            x < 16,
            y < 16,
        ensures
            apply(old(self)@, Instruction::AddVxVy { x, y }) == Ok::<MachineState, Chip8Error>(
                final(self)@,
            ),
    {
        let vx = self.cpu.v_registers[x as usize] as u16;
        let vy = self.cpu.v_registers[y as usize] as u16;
        let sum = vx + vy;
        let flag: u8 = if sum > 0x00FF { 1 } else { 0 };
        self.write_v_flag(x, (sum % 256) as u8, flag);
    }

    fn sub_vx_vy(&mut self, x: u8, y: u8)
        requires
            x < 16,
            y < 16,
        ensures
            apply(old(self)@, Instruction::SubVxVy { x, y }) == Ok::<MachineState, Chip8Error>(
                final(self)@,
            ),
    {
        let vx = self.cpu.v_registers[x as usize];
        let vy = self.cpu.v_registers[y as usize];
        let flag: u8 = if vx > vy { 1 } else { 0 };
        self.write_v_flag(x, vx.wrapping_sub(vy), flag);
    }

    fn subn_vx_vy(&mut self, x: u8, y: u8)
        requires
            x < 16,
            y < 16,
        ensures
            apply(old(self)@, Instruction::SubnVxVy { x, y }) == Ok::<MachineState, Chip8Error>(
                final(self)@,
            ),
    {
        let vx = self.cpu.v_registers[x as usize];
        let vy = self.cpu.v_registers[y as usize];
        let flag: u8 = if vy > vx { 1 } else { 0 };
        self.write_v_flag(x, vy.wrapping_sub(vx), flag);
    }

    fn shr_vx(&mut self, x: u8)
        requires
            x < 16,
        ensures
            apply(old(self)@, Instruction::ShrVx { x }) == Ok::<MachineState, Chip8Error>(final(self)@),
    {
        let vx = self.cpu.v_registers[x as usize];
        assert(vx & 1 == vx % 2 && vx >> 1 == vx / 2) by (bit_vector);
        self.write_v_flag(x, vx >> 1, vx & 1);
    }

    fn shl_vx(&mut self, x: u8)
        requires
            x < 16,
        ensures
            apply(old(self)@, Instruction::ShlVx { x }) == Ok::<MachineState, Chip8Error>(final(self)@),
    {
        let vx = self.cpu.v_registers[x as usize];
        assert(vx >> 7 == vx / 128 && (vx << 1) as int == (vx * 2) % 256) by (bit_vector);
        self.write_v_flag(x, vx << 1, vx >> 7);
    }

    fn ld_i_addr(&mut self, addr: u16)
        ensures
            apply(old(self)@, Instruction::LdIAddr { addr }) == Ok::<MachineState, Chip8Error>(
                final(self)@,
            ),
    {
        self.cpu.i_register = addr;
    }

    /// Bnnn: the target wraps within twelve bits.
    fn jp_v0_addr(&mut self, addr: u16)
        requires
            addr < 0x1000,
        ensures
            apply(old(self)@, Instruction::JpV0Addr { addr }) == Ok::<MachineState, Chip8Error>(
                final(self)@,
            ),
    {
        let target = addr.wrapping_add(self.cpu.v_registers[0] as u16);
        self.jump(target);
    }

    /// Steps the pseudo-random generator and returns the byte it yields.
    fn random(&mut self) -> (r: u8)
        ensures
            final(self)@ == (MachineState { rng: lcg_next(old(self)@.rng), ..old(self)@ }),
            r == random_byte(lcg_next(old(self)@.rng)),
    {
        let s = self.rng as u64;
        assert(s * 1103515245 <= 0xFFFF_FFFFu64 * 1103515245) by (nonlinear_arith)
            requires
                s <= 0xFFFF_FFFFu64,
        ;
        let next = ((s * 1103515245 + 12345) % 0x1_0000_0000) as u32;
        self.rng = next;
        ((next / 0x10000) % 0x100) as u8
    }

    /// Cxkk: a random byte masked with the immediate.
    fn rnd_vx_byte(&mut self, x: u8, byte: u8)
        requires
            x < 16,
        ensures
            apply(old(self)@, Instruction::RndVxByte { x, byte }) == Ok::<MachineState, Chip8Error>(
                final(self)@,
            ),
    {
        let ghost pre = self@;
        let rand = self.random();
        self.write_v(x, byte & rand);
        assert(self@ =~= (MachineState { rng: lcg_next(pre.rng), ..set_v(pre, x, byte & rand) }));
    }

    /// Ex9E: compares against the keypad as it is now.
    fn skp_vx(&mut self, x: u8)
        requires
            x < 16,
        ensures
            apply(old(self)@, Instruction::SkpVx { x }) == Ok::<MachineState, Chip8Error>(final(self)@),
    {
        let vx = self.cpu.v_registers[x as usize];
        let c = self.keypad.is_down(vx);
        self.skip_next_if(c);
    }

    /// ExA1: compares against the keypad as it is now.
    fn sknp_vx(&mut self, x: u8)
        requires
            x < 16,
        ensures
            apply(old(self)@, Instruction::SknpVx { x }) == Ok::<MachineState, Chip8Error>(final(self)@),
    {
        let vx = self.cpu.v_registers[x as usize];
        let c = self.keypad.is_up(vx);
        self.skip_next_if(c);
    }

    fn ld_vx_dt(&mut self, x: u8)
        requires
            x < 16,
        ensures
            apply(old(self)@, Instruction::LdVxDt { x }) == Ok::<MachineState, Chip8Error>(final(self)@),
    {
        let d = self.cpu.delay;
        self.write_v(x, d);
    }

    /// Fx0A: blocks the engine until a key arrives (see `resume_ld_vx_k`).
    fn ld_vx_k(&mut self)
        ensures
            final(self)@ == (MachineState { waiting: true, ..old(self)@ }),
    {
        self.waiting_for_key = true;
    }

    fn ld_dt_vx(&mut self, x: u8)
        requires
            x < 16,
        ensures
            apply(old(self)@, Instruction::LdDtVx { x }) == Ok::<MachineState, Chip8Error>(final(self)@),
    {
        self.cpu.delay = self.cpu.v_registers[x as usize];
    }

    fn ld_st_vx(&mut self, x: u8)
        requires
            x < 16,
        ensures
            apply(old(self)@, Instruction::LdStVx { x }) == Ok::<MachineState, Chip8Error>(final(self)@),
    {
        self.cpu.sound = self.cpu.v_registers[x as usize];
    }

    fn add_i_vx(&mut self, x: u8)
        requires
            x < 16,
        ensures
            apply(old(self)@, Instruction::AddIVx { x }) == Ok::<MachineState, Chip8Error>(final(self)@),
    {
        let vx = self.cpu.v_registers[x as usize] as u16;
        self.cpu.i_register = self.cpu.i_register.wrapping_add(vx);
    }

    /// Fx29: I points at the font glyph for the digit in Vx.
    fn ld_f_vx(&mut self, x: u8)
        requires
            x < 16,
        ensures
            apply(old(self)@, Instruction::LdFVx { x }) == Ok::<MachineState, Chip8Error>(final(self)@),
    {
        self.cpu.i_register = self.cpu.v_registers[x as usize] as u16 * 5;
    }

    /// Fx33: hundreds, tens and units of Vx at I, I+1 and I+2. Nothing is written unless all
    /// three bytes lie in memory.
    fn ld_b_vx(&mut self, x: u8) -> (r: Result<(), Chip8Error>)
        requires
            x < 16,
        ensures
            outcome(old(self)@, final(self)@, r, apply(old(self)@, Instruction::LdBVx { x })),
    {
        proof {
            self.memory.lemma_size();
        }
        let ghost pre = self@;
        let i = self.cpu.i_register;
        if i >= 0x0FFE {
            return Err(Chip8Error::AddressOutOfRange(if i >= 0x1000 { i as u32 } else { 0x1000 }));
        }
        let vx = self.cpu.v_registers[x as usize];
        let units = vx % 10;
        let tens = (vx % 100) - units;
        let hundreds = vx - tens - units;
        let _ = self.memory.write_u8(i, hundreds / 100);
        let _ = self.memory.write_u8(i + 1, tens / 10);
        let _ = self.memory.write_u8(i + 2, units);
        proof {
            let ii = i as int;
            let expected = MachineState {
                mem: pre.mem.update(ii, vx / 100).update(ii + 1, (vx / 10) % 10).update(ii + 2, vx % 10),
                ..pre
            };
            assert(self@ =~= expected);
        }
        Ok(())
    }

    /// Fx55: V0 to Vx, Vx included, into memory from I on; I is left as it was. Nothing is
    /// written unless every byte lies in memory.
    fn ld_i_vx(&mut self, x: u8) -> (r: Result<(), Chip8Error>)
        requires
            x < 16,
        ensures
            outcome(old(self)@, final(self)@, r, apply(old(self)@, Instruction::LdIVx { x })),
    {
        proof {
            self.memory.lemma_size();
        }
        let ghost pre = self@;
        let i = self.cpu.i_register;
        if i as usize + x as usize + 1 > MEMORY_SIZE {
            return Err(Chip8Error::AddressOutOfRange(if i >= 0x1000 { i as u32 } else { 0x1000 }));
        }
        let mut j: u16 = 0;
        while j <= x as u16
            invariant
                j <= x + 1,
                x < 16,
                i + x + 1 <= MEMORY_SIZE,
                i == pre.i,
                pre.mem.len() == MEMORY_SIZE,
                self@ == (MachineState { mem: overlay(pre.mem, i as int, pre.v.take(j as int)), ..pre }),
            decreases x + 1 - j,
        {
            let vj = self.cpu.v_registers[j as usize];
            let _ = self.memory.write_u8(i + j, vj);
            proof {
                let s = self@;
                assert(s.mem =~= overlay(pre.mem, i as int, pre.v.take(j + 1)));
                assert(s =~= (MachineState { mem: overlay(pre.mem, i as int, pre.v.take(j + 1)), ..pre }));
            }
            j += 1;
        }
        Ok(())
    }

    /// Fx65: V0 to Vx, Vx included, from memory from I on; I is left as it was. Nothing is
    /// read unless every byte lies in memory.
    fn ld_vx_i(&mut self, x: u8) -> (r: Result<(), Chip8Error>)
        requires
            x < 16,
        ensures
            outcome(old(self)@, final(self)@, r, apply(old(self)@, Instruction::LdVxI { x })),
    {
        proof {
            self.memory.lemma_size();
        }
        let ghost pre = self@;
        let i = self.cpu.i_register;
        if i as usize + x as usize + 1 > MEMORY_SIZE {
            return Err(Chip8Error::AddressOutOfRange(if i >= 0x1000 { i as u32 } else { 0x1000 }));
        }
        let mut j: u16 = 0;
        while j <= x as u16
            invariant
                j <= x + 1,
                x < 16,
                i + x + 1 <= MEMORY_SIZE,
                i == pre.i,
                pre.mem.len() == MEMORY_SIZE,
                pre.v.len() == 16,
                self@ == (MachineState {
                    v: overlay(pre.v, 0, pre.mem.subrange(i as int, i + j)),
                    ..pre
                }),
            decreases x + 1 - j,
        {
            let b = match self.memory.read_u8(i + j) {
                Ok(b) => b,
                Err(e) => {
                    return Err(e);
                },
            };
            self.cpu.v_registers[j as usize] = b;
            proof {
                let s = self@;
                assert(s.v =~= overlay(pre.v, 0, pre.mem.subrange(i as int, i + j + 1)));
                assert(s =~= (MachineState {
                    v: overlay(pre.v, 0, pre.mem.subrange(i as int, i + j + 1)),
                    ..pre
                }));
            }
            j += 1;
        }
        Ok(())
    }

    /// Pushes a return address: the stack pointer moves up one slot, then `value` is stored
    /// there. Fails with `StackOverflow`, changing nothing, when every slot is in use.
    pub fn stack_push(&mut self, value: u16) -> (r: Result<(), Chip8Error>)
        ensures
            outcome(old(self)@, final(self)@, r, push_spec(old(self)@, value)),
    {
        let sp = self.cpu.get_sp();
        if sp < STACK_EMPTY || sp >= STACK_FULL || sp % 2 != 0 {
            return Err(Chip8Error::StackOverflow);
        }
        let ghost pre = self@;
        self.cpu.set_sp(sp + 2);
        let _ = self.memory.write_u16(sp as u16 + 2, value);
        assert(self@ =~= push_spec(pre, value)->Ok_0);
        Ok(())
    }

    /// Pops a return address: the value in the slot at the stack pointer, which then moves
    /// down one slot. Fails with `StackUnderflow`, changing nothing, when the stack is empty.
    pub fn stack_pop(&mut self) -> (r: Result<u16, Chip8Error>)
        ensures
            match pop_spec(old(self)@) {
                Ok((s, v)) => r == Ok::<u16, Chip8Error>(v) && final(self)@ == s,
                Err(e) => r == Err::<u16, Chip8Error>(e) && final(self)@ == old(self)@,
            },
    {
        let sp = self.cpu.get_sp();
        if sp <= STACK_EMPTY || sp > STACK_FULL || sp % 2 != 0 {
            return Err(Chip8Error::StackUnderflow);
        }
        let ghost pre = self@;
        let value = match self.memory.read_u16(sp as u16) {
            Ok(v) => v,
            Err(_) => {
                return Err(Chip8Error::StackUnderflow);
            },
        };
        self.cpu.set_sp(sp - 2);
        assert(self@ =~= pop_spec(pre)->Ok_0.0);
        Ok(value)
    }

    /// 00EE: back to the address on top of the stack.
    fn ret(&mut self) -> (r: Result<(), Chip8Error>)
        ensures
            outcome(old(self)@, final(self)@, r, apply(old(self)@, Instruction::Ret)),
    {
        match self.stack_pop() {
            Ok(addr) => {
                self.jump(addr);
                Ok(())
            },
            Err(e) => Err(e),
        }
    }

    /// 2nnn: pushes the address of the next instruction, then jumps.
    fn call_addr(&mut self, addr: u16) -> (r: Result<(), Chip8Error>)
        ensures
            outcome(old(self)@, final(self)@, r, apply(old(self)@, Instruction::Call { addr })),
    {
        let back = self.cpu.program_counter;
        match self.stack_push(back) {
            Ok(()) => {
                self.jump(addr);
                Ok(())
            },
            Err(e) => Err(e),
        }
    }

    /// Dxyn: XORs the `n` sprite rows at I onto the screen from (Vx mod 64, Vy mod 32) on.
    /// Rows past the bottom and columns past the right edge are dropped. VF ends up 1 exactly
    /// when some set cell was turned off. Nothing changes unless every row drawn can be read.
    fn drw_vx_vy_nibble(&mut self, x: u8, y: u8, n: u8) -> (r: Result<(), Chip8Error>)
        requires
            x < 16,
            y < 16,
            n < 16,
        ensures
            outcome(old(self)@, final(self)@, r, apply(old(self)@, Instruction::Drw { x, y, n })),
    {
        proof {
            self.memory.lemma_size();
        }
        let ghost pre = self@;
        let vx = (self.cpu.v_registers[x as usize] % 64) as usize;
        let vy = (self.cpu.v_registers[y as usize] % 32) as usize;
        let rows: usize = if vy + n as usize <= 32 { n as usize } else { 32 - vy };
        let i = self.cpu.i_register;
        if rows > 0 && i as usize + rows > MEMORY_SIZE {
            return Err(Chip8Error::AddressOutOfRange(if i >= 0x1000 { i as u32 } else { 0x1000 }));
        }
        let mut changed = false;
        let mut row: usize = 0;
        while row < rows
            invariant
                row <= rows,
                vx < 64,
                vy + rows <= 32,
                rows == sprite_rows(vy as int, n as int),
                vx == pre.v[x as int] % 64,
                vy == pre.v[y as int] % 32,
                rows > 0 ==> i + rows <= MEMORY_SIZE,
                i == pre.i,
                pre.mem.len() == MEMORY_SIZE,
                pre.v.len() == 16,
                pre.screen.len() == 32,
                forall|r: int| 0 <= r < 32 ==> #[trigger] pre.screen[r].len() == 64,
                self@ == (MachineState {
                    screen: drawn_screen(pre.screen, pre.mem, i as int, vx as int, vy as int, row as int),
                    ..pre
                }),
                changed == draw_collides(pre.screen, pre.mem, i as int, vx as int, vy as int, row as int),
            decreases rows - row,
        {
            let byte = match self.memory.read_u8(i + row as u16) {
                Ok(b) => b,
                Err(e) => {
                    return Err(e);
                },
            };
            let ghost before = self@;
            let ghost old_screen = self.display.screen@;
            let hit = self.display.draw_sprite(vy + row, vx, byte);
            if hit {
                changed = true;
            }
            proof {
                let s = self@;
                let next = drawn_screen(pre.screen, pre.mem, i as int, vx as int, vy as int, row + 1);
                assert(before.mem == pre.mem);
                assert(byte == pre.mem[i + row]);
                assert((vy + row) as int % 32 == vy + row);
                assert(vx as int % 64 == vx);
                assert forall|r: int| 0 <= r < 32 implies s.screen[r] =~= next[r] by {
                    assert(s.screen[r] == self.display.screen@[r]@);
                    assert(before.screen[r] == old_screen[r]@);
                    if r == vy + row {
                        assert(s.screen[r] == blit_row(before.screen[r], vx as int, byte));
                        assert(i + r - vy == i + row);
                    } else {
                        assert(s.screen[r] == before.screen[r]);
                    }
                }
                assert(s.screen =~= next);
                assert(s =~= (MachineState { screen: next, ..pre }));
                let prev_c = draw_collides(pre.screen, pre.mem, i as int, vx as int, vy as int, row as int);
                let next_c = draw_collides(pre.screen, pre.mem, i as int, vx as int, vy as int, row + 1);
                let rr = (vy + row) as int;
                assert(before.screen[rr] == pre.screen[rr]);
                if hit {
                    assert(row_collides(pre.screen[rr], vx as int, pre.mem[i + rr - vy]));
                    assert(next_c);
                }
                if prev_c {
                    let w = choose|w: int|
                        vy <= w < vy + row && #[trigger] row_collides(pre.screen[w], vx as int, pre.mem[i + w - vy]);
                    assert(next_c);
                }
                if next_c {
                    let w = choose|w: int|
                        vy <= w < vy + row + 1 && #[trigger] row_collides(pre.screen[w], vx as int, pre.mem[i + w - vy]);
                    if w < vy + row {
                        assert(prev_c);
                    }
                }
            }
            row += 1;
        }
        let flag: u8 = if changed { 1 } else { 0 };
        self.write_v(15, flag);
        self.new_draw = true;
        proof {
            let expected = draw_spec(pre, x, y, n)->Ok_0;
            assert(self@ =~= expected);
        }
        Ok(())
    }

    /// Runs one decoded instruction other than the key wait, the program counter having
    /// already moved past it.
    fn run(&mut self, ins: Instruction) -> (r: Result<(), Chip8Error>)
        requires
            ins.well_formed(),
            !(ins is LdVxK),
        ensures
            outcome(old(self)@, final(self)@, r, apply(old(self)@, ins)),
    {
        match ins {
            Instruction::Sys { addr } => {
                self.sys_addr(addr);
                Ok(())
            },
            Instruction::Cls => {
                self.cls();
                Ok(())
            },
            Instruction::Ret => self.ret(),
            Instruction::Jp { addr } => {
                self.jp_addr(addr);
                Ok(())
            },
            Instruction::Call { addr } => self.call_addr(addr),
            Instruction::SeVxByte { x, byte } => {
                self.se_vx_byte(x, byte);
                Ok(())
            },
            Instruction::SneVxByte { x, byte } => {
                self.sne_vx_byte(x, byte);
                Ok(())
            },
            Instruction::SeVxVy { x, y } => {
                self.se_vx_vy(x, y);
                Ok(())
            },
            Instruction::SneVxVy { x, y } => {
                self.sne_vx_vy(x, y);
                Ok(())
            },
            Instruction::LdVxByte { x, byte } => {
                self.ld_vx_byte(x, byte);
                Ok(())
            },
            Instruction::AddVxByte { x, byte } => {
                self.add_vx_byte(x, byte);
                Ok(())
            },
            Instruction::LdVxVy { x, y } => {
                self.ld_vx_vy(x, y);
                Ok(())
            },
            Instruction::OrVxVy { x, y } => {
                self.or_vx_vy(x, y);
                Ok(())
            },
            Instruction::AndVxVy { x, y } => {
                self.and_vx_vy(x, y);
                Ok(())
            },
            Instruction::XorVxVy { x, y } => {
                self.xor_vx_vy(x, y);
                Ok(())
            },
            Instruction::AddVxVy { x, y } => {
                self.add_vx_vy(x, y);
                Ok(())
            },
            Instruction::SubVxVy { x, y } => {
                self.sub_vx_vy(x, y);
                Ok(())
            },
            Instruction::SubnVxVy { x, y } => {
                self.subn_vx_vy(x, y);
                Ok(())
            },
            Instruction::ShrVx { x } => {
                self.shr_vx(x);
                Ok(())
            },
            Instruction::ShlVx { x } => {
                self.shl_vx(x);
                Ok(())
            },
            Instruction::LdIAddr { addr } => {
                self.ld_i_addr(addr);
                Ok(())
            },
            Instruction::JpV0Addr { addr } => {
                self.jp_v0_addr(addr);
                Ok(())
            },
            Instruction::RndVxByte { x, byte } => {
                self.rnd_vx_byte(x, byte);
                Ok(())
            },
            Instruction::Drw { x, y, n } => self.drw_vx_vy_nibble(x, y, n),
            Instruction::SkpVx { x } => {
                self.skp_vx(x);
                Ok(())
            },
            Instruction::SknpVx { x } => {
                self.sknp_vx(x);
                Ok(())
            },
            Instruction::LdVxDt { x } => {
                self.ld_vx_dt(x);
                Ok(())
            },
            Instruction::LdVxK { .. } => Ok(()),
            Instruction::LdDtVx { x } => {
                self.ld_dt_vx(x);
                Ok(())
            },
            Instruction::LdStVx { x } => {
                self.ld_st_vx(x);
                Ok(())
            },
            Instruction::AddIVx { x } => {
                self.add_i_vx(x);
                Ok(())
            },
            Instruction::LdFVx { x } => {
                self.ld_f_vx(x);
                Ok(())
            },
            Instruction::LdBVx { x } => self.ld_b_vx(x),
            Instruction::LdIVx { x } => self.ld_i_vx(x),
            Instruction::LdVxI { x } => self.ld_vx_i(x),
        }
    }

    /// Decodes the fetched word and executes it. The program counter moves past the
    /// instruction before it runs, so relative targets start from the next instruction. Does
    /// nothing while a key wait is pending. A word outside the instruction table, or an
    /// instruction that fails, leaves the machine exactly as it was.
    pub fn decode_execute(&mut self) -> (r: Result<(), Chip8Error>)
        ensures
            outcome(old(self)@, final(self)@, r, step_spec(old(self)@)),
    {
        if self.waiting_for_key {
            return Ok(());
        }
        let ins = match decode(self.opcode) {
            Ok(ins) => ins,
            Err(e) => {
                return Err(e);
            },
        };
        let ghost pre = self@;
        let saved_pc = self.cpu.program_counter;
        let saved_resume = self.resume_from;
        self.cpu.increment_pc();
        self.resume_from = self.cpu.program_counter;
        if let Instruction::LdVxK { .. } = ins {
            self.cpu.program_counter = saved_pc;
            self.ld_vx_k();
            assert(self@ =~= execute(pre, ins)->Ok_0);
            return Ok(());
        }
        assert(self@ =~= advance(pre));
        let r = self.run(ins);
        match r {
            Ok(()) => Ok(()),
            Err(e) => {
                self.cpu.program_counter = saved_pc;
                self.resume_from = saved_resume;
                assert(self@ =~= pre);
                Err(e)
            },
        }
    }

    /// Reads the instruction word at the program counter into `opcode`. Does nothing while a
    /// key wait is pending.
    pub fn fetch(&mut self) -> (r: Result<(), Chip8Error>)
        ensures
            outcome(old(self)@, final(self)@, r, fetch_spec(old(self)@)),
    {
        if self.waiting_for_key {
            return Ok(());
        }
        let pc = self.cpu.read_pc();
        match self.memory.read_u16(pc) {
            Ok(op) => {
                self.opcode = op;
                Ok(())
            },
            Err(e) => Err(e),
        }
    }

    /// One full cycle: fetch, then decode and execute.
    pub fn step(&mut self) -> (r: Result<(), Chip8Error>)
        ensures
            match fetch_spec(old(self)@) {
                Ok(s) => outcome(s, final(self)@, r, step_spec(s)),
                Err(e) => r == Err::<(), Chip8Error>(e) && final(self)@ == old(self)@,
            },
    {
        match self.fetch() {
            Ok(()) => self.decode_execute(),
            Err(e) => Err(e),
        }
    }

    /// Ends a key wait: execution goes on at the address after the wait instruction.
    pub fn resume(&mut self)
        ensures
            final(self)@ == (MachineState {
                waiting: false,
                pc: mask12(old(self)@.resume_from as int),
                ..old(self)@
            }),
    {
        let ghost pre = self@;
        self.waiting_for_key = false;
        let target = self.resume_from;
        self.cpu.set_pc(target);
        assert(self@ =~= (MachineState { waiting: false, pc: mask12(pre.resume_from as int), ..pre }));
    }

    /// Delivers key code `key` to a pending key wait: it goes into the register that the wait
    /// instruction names, and execution resumes. Ignored when no wait is pending.
    pub fn resume_ld_vx_k(&mut self, key: u8)
        ensures
            final(self)@ == deliver_key(old(self)@, key),
    {
        if !self.waiting_for_key {
            return;
        }
        let ghost pre = self@;
        let x = ((self.opcode / 0x100) % 0x10) as u8;
        self.write_v(x, key);
        self.resume();
        assert(self@ =~= deliver_key(pre, key));
    }

    /// A key-down event: records the key as held and, when a key wait is pending, delivers it.
    pub fn press_key(&mut self, key: u8)
        ensures
            final(self)@ == deliver_key(
                MachineState {
                    keys: old(self)@.keys.update(slot_of(key), old(self)@.keys[slot_of(key)] | 0x10),
                    ..old(self)@
                },
                key,
            ),
    {
        let ghost pre = self@;
        self.keypad.set_key(key, true);
        assert(self@ =~= (MachineState {
            keys: pre.keys.update(slot_of(key), pre.keys[slot_of(key)] | 0x10),
            ..pre
        }));
        self.resume_ld_vx_k(key);
    }

    /// A key-up event: records the key as up.
    pub fn release_key(&mut self, key: u8)
        ensures
            final(self)@ == (MachineState {
                keys: old(self)@.keys.update(slot_of(key), old(self)@.keys[slot_of(key)] & 0x0F),
                ..old(self)@
            }),
    {
        let ghost pre = self@;
        self.keypad.set_key(key, false);
        assert(self@ =~= (MachineState {
            keys: pre.keys.update(slot_of(key), pre.keys[slot_of(key)] & 0x0F),
            ..pre
        }));
    }

    /// Counts the delay timer down by one, stopping at zero.
    pub fn update_dt(&mut self)
        ensures
            final(self)@ == (MachineState {
                delay: if old(self)@.delay > 0 { (old(self)@.delay - 1) as u8 } else { 0 },
                ..old(self)@
            }),
    {
        if self.cpu.delay > 0 {
            self.cpu.delay = self.cpu.delay - 1;
        }
    }

    /// Counts the sound timer down by one, stopping at zero.
    pub fn update_st(&mut self)
        ensures
            final(self)@ == (MachineState {
                sound: if old(self)@.sound > 0 { (old(self)@.sound - 1) as u8 } else { 0 },
                ..old(self)@
            }),
    {
        if self.cpu.sound > 0 {
            self.cpu.sound = self.cpu.sound - 1;
        }
    }

    /// The assembly text of the instruction that `opcode` encodes; words outside the
    /// instruction table are refused.
    pub fn get_mnemonic(opcode: u16) -> (r: Result<String, Chip8Error>)
        ensures
            match decode_spec(opcode) {
                Ok(ins) => r is Ok && r->Ok_0@ == mnemonic_text(ins),
                Err(e) => r == Err::<String, Chip8Error>(e),
            },
    {
        match decode(opcode) {
            Ok(ins) => Ok(ins.mnemonic()),
            Err(e) => Err(e),
        }
    }

    /// A picture of the whole machine, with the memory from `start` to `end` (both included,
    /// cut to memory).
    pub fn snapshot(&self, start: u16, end: u16) -> (s: Snapshot)
        ensures
            s.pc == self@.pc % 0x1000,
            s.sp == self@.sp,
            s.i == self@.i,
            s.delay == self@.delay,
            s.sound == self@.sound,
            s.v@ == self@.v,
            s.stack@ == stack_slots(self@.mem),
            s.opcode == self@.opcode,
            match decode_spec(self@.opcode) {
                Ok(ins) => s.mnemonic is Some && s.mnemonic->Some_0@ == mnemonic_text(ins),
                Err(_) => s.mnemonic is None,
            },
            s.keys@ == self@.keys,
            s.waiting_for_key == self@.waiting,
            s.memory_start == window_start(start),
            s.memory@ == self@.mem.subrange(window_start(start), window_end(start, end)),
    {
        proof {
            self.memory.lemma_size();
        }
        let mut stack: Vec<u16> = Vec::new();
        let mut k: u16 = 0;
        while k < STACK_SLOTS as u16
            invariant
                k <= STACK_SLOTS,
                self.memory@.len() == MEMORY_SIZE,
                stack@ == stack_slots(self@.mem).take(k as int),
            decreases STACK_SLOTS - k,
        {
            let w = match self.memory.read_u16(STACK_BASE + 2 * k) {
                Ok(w) => w,
                Err(_) => 0,
            };
            stack.push(w);
            k += 1;
            assert(stack@ =~= stack_slots(self@.mem).take(k as int));
        }
        assert(stack@ =~= stack_slots(self@.mem));
        let lo: u16 = if start < 0x1000 { start } else { 0x1000 };
        let e: u16 = if end < 0x1000 { end + 1 } else { 0x1000 };
        let hi: u16 = if e < lo { lo } else { e };
        let mut window: Vec<u8> = Vec::new();
        let mut a: u16 = lo;
        while a < hi
            invariant
                lo <= a <= hi,
                hi <= MEMORY_SIZE,
                lo == window_start(start),
                hi == window_end(start, end),
                self.memory@.len() == MEMORY_SIZE,
                window@ == self@.mem.subrange(lo as int, a as int),
            decreases hi - a,
        {
            let b = match self.memory.read_u8(a) {
                Ok(b) => b,
                Err(_) => 0,
            };
            window.push(b);
            a += 1;
            assert(window@ =~= self@.mem.subrange(lo as int, a as int));
        }
        let mnemonic = match Chip8::get_mnemonic(self.opcode) {
            Ok(text) => Some(text),
            Err(_) => None,
        };
        Snapshot {
            pc: self.cpu.read_pc(),
            sp: self.cpu.stack_pointer,
            i: self.cpu.i_register,
            delay: self.cpu.delay,
            sound: self.cpu.sound,
            v: self.cpu.v_registers,
            stack,
            opcode: self.opcode,
            mnemonic,
            keys: self.keypad.keys,
            waiting_for_key: self.waiting_for_key,
            memory_start: lo,
            memory: window,
        }
    }

    /// Restarts the pseudo-random generator from `seed`, so that runs can be reproduced.
    pub fn seed_random(&mut self, seed: u32)
        ensures
            final(self)@ == (MachineState { rng: seed, ..old(self)@ }),
    {
        self.rng = seed;
    }
}

} // verus!

verus! {

/// Pushing a value and popping it again gives the value back and leaves the stack pointer
/// where it was. A push fails exactly when every slot is in use, a pop exactly when the stack is
/// empty, which in particular holds at the empty-stack sentinel.
pub proof fn lemma_stack_round_trip(m: MachineState, value: u16)
    requires
        m.mem.len() == MEMORY_SIZE,
    ensures
        push_spec(m, value) is Ok ==> {
            let s = push_spec(m, value)->Ok_0;
            &&& pop_spec(s) is Ok
            &&& pop_spec(s)->Ok_0.1 == value
            &&& pop_spec(s)->Ok_0.0.sp == m.sp
        },
        m.sp == STACK_EMPTY ==> pop_spec(m) == Err::<(MachineState, u16), Chip8Error>(
            Chip8Error::StackUnderflow,
        ),
        m.sp == STACK_FULL ==> push_spec(m, value) == Err::<MachineState, Chip8Error>(
            Chip8Error::StackOverflow,
        ),
{
    if push_spec(m, value) is Ok {
        let a = m.sp + 2;
        crate::memory::lemma_word_round_trip(m.mem, a, 0, value);
    }
}

/// The key wait: executing it leaves the program counter on it and blocks the engine; while
/// blocked, fetch and execute change nothing; a key event then writes its code into the
/// register that the instruction names and resumes at the address after it; a second key event
/// is ignored.
pub proof fn lemma_key_wait(m: MachineState, key: u8, later: u8)
    requires
        !m.waiting,
        decode_spec(m.opcode) is Ok,
        decode_spec(m.opcode)->Ok_0 is LdVxK,
        m.v.len() == 16,
    ensures
        step_spec(m) is Ok,
        step_spec(m)->Ok_0.pc == m.pc,
        step_spec(m)->Ok_0.waiting,
        fetch_spec(step_spec(m)->Ok_0) == Ok::<MachineState, Chip8Error>(step_spec(m)->Ok_0),
        step_spec(step_spec(m)->Ok_0) == Ok::<MachineState, Chip8Error>(step_spec(m)->Ok_0),
        ({
            let r = deliver_key(step_spec(m)->Ok_0, key);
            &&& r.v[x_of(m.opcode) as int] == key
            &&& !r.waiting
            &&& r.pc == next_pc(m.pc)
            &&& deliver_key(r, later) == r
        }),
{
    let op = m.opcode;
    assert(decode_spec(op)->Ok_0 == Instruction::LdVxK { x: x_of(op) });
    assert(x_of(op) < 16);
}

/// Glyph `k` of the font lies at bytes `5k` to `5k + 4` of a freshly reset machine's memory.
pub proof fn lemma_font_installed(rom: Seq<u8>, rng: u32, k: int, j: int)
    requires
        0 <= k < GLYPH_COUNT,
        0 <= j < GLYPH_HEIGHT,
    ensures
        power_on_state(rom, rng).mem[5 * k + j] == glyph(k)[j],
{
    lemma_glyph_placement(k, j, k, j);
}

/// Resetting gives registers all zero but the stack pointer (the empty-stack sentinel) and the
/// program counter (the program start), the font, a cleared display and the program at its
/// start address. Resetting that state again, or loading the same program into it again,
/// gives the very same state.
pub proof fn lemma_reset_reload(m: MachineState)
    requires
        rom_fits(m.rom),
    ensures
        ({
            let s = power_on_state(m.rom, m.rng);
            &&& forall|r: int| 0 <= r < 16 ==> s.v[r] == 0
            &&& s.i == 0 && s.delay == 0 && s.sound == 0
            &&& s.sp == STACK_EMPTY
            &&& s.pc == PROGRAM_START
            &&& forall|a: int| 0 <= a < font_image().len() ==> s.mem[a] == font_image()[a]
            &&& forall|k: int| 0 <= k < m.rom.len() ==> s.mem[PROGRAM_START + k] == m.rom[k]
            &&& s.screen == blank_screen()
            &&& !s.waiting
            &&& power_on_state(s.rom, s.rng) == s
            &&& (MachineState { mem: overlay(s.mem, PROGRAM_START as int, s.rom), ..s }) == s
        }),
{
    let s = power_on_state(m.rom, m.rng);
    assert(overlay(s.mem, PROGRAM_START as int, s.rom) =~= s.mem);
    assert((MachineState { mem: overlay(s.mem, PROGRAM_START as int, s.rom), ..s }) =~= s);
}

} // verus!
