use vstd::prelude::*;
use crate::message::ProgramFault;

verus! {

/// Number of addressable bytes.
pub const MEMORY_SIZE: usize = 4096;

/// Number of return addresses that the call stack holds.
pub const STACK_SIZE: usize = 16;

/// Address at which the first loaded program begins.
pub const PROGRAM_START: usize = 0x200;

/// Number of bytes of built-in glyph data, five for each of sixteen digits.
pub const FONT_SIZE: usize = 0x50;

/// The built-in glyphs, one row per byte, the upper four bits significant.
pub const FONT: [u8; 0x50] = [
    0xF0, 0x90, 0x90, 0x90, 0xF0,
    0x20, 0x60, 0x20, 0x20, 0x70,
    0xF0, 0x10, 0xF0, 0x80, 0xF0,
    0xF0, 0x10, 0xF0, 0x10, 0xF0,
    0x90, 0x90, 0xF0, 0x10, 0x10,
    0xF0, 0x80, 0xF0, 0x10, 0xF0,
    0xF0, 0x80, 0xF0, 0x90, 0xF0,
    0xF0, 0x10, 0x20, 0x40, 0x40,
    0xF0, 0x90, 0xF0, 0x90, 0xF0,
    0xF0, 0x90, 0xF0, 0x10, 0xF0,
    0xF0, 0x90, 0xF0, 0x90, 0x90,
    0xE0, 0x90, 0xE0, 0x90, 0xE0,
    0xF0, 0x80, 0x80, 0x80, 0xF0,
    0xE0, 0x90, 0x90, 0x90, 0xE0,
    0xF0, 0x80, 0xF0, 0x80, 0xF0,
    0xF0, 0x80, 0xF0, 0x80, 0x80,
];

/// The address space and the call stack. Plain storage: the interpreter
/// reads and writes both arrays directly.
#[derive(Clone)]
pub struct RAM {
    pub memory: [u8; 4096],
    pub stack: [u16; 16],
    /// First address after everything loaded so far.
    pub last_program_end: usize,
    /// First address after the glyph data.
    pub last_sprite_end: usize,
}

impl RAM {
    /// The loader's cursor lies between the start of the program area and
    /// the end of memory.
    pub open spec fn wf(&self) -> bool {
        PROGRAM_START <= self.last_program_end <= MEMORY_SIZE
    }

    /// What a fresh address space holds at `addr`: the glyphs, then zeros.
    pub open spec fn initial_byte(addr: int) -> u8 {
        if 0 <= addr < FONT_SIZE { FONT@[addr] } else { 0u8 }
    }

    /// Memory holds the glyphs at address 0 and zeros elsewhere, the stack
    /// holds zeros, and the loader's cursor is at the start of the program
    /// area.
    pub open spec fn is_initial(&self) -> bool {
        &&& self.last_program_end == PROGRAM_START
        &&& self.last_sprite_end == FONT_SIZE
        &&& forall|a: int| 0 <= a < MEMORY_SIZE ==> #[trigger] self.memory@[a] == Self::initial_byte(a)
        &&& forall|s: int| 0 <= s < STACK_SIZE ==> #[trigger] self.stack@[s] == 0
    }

    /// Tells whether the loader's cursor is where it may be.
    pub fn is_valid(&self) -> (ok: bool)
        ensures
            ok == self.wf(),
    {
        PROGRAM_START <= self.last_program_end && self.last_program_end <= MEMORY_SIZE
    }

    /// An address space in its initial state.
    pub fn new() -> (ram: Self)
        ensures
            ram.wf(),
            ram.is_initial(),
    {
        let mut memory = Self {
            memory: [0u8; 4096],
            stack: [0u16; 16],
            last_program_end: 0x200,
            last_sprite_end: 0,
        };
        memory.load_font();
        memory
    }

    /// Appends `program` at the loader's cursor and moves the cursor past
    /// it. A second load therefore follows the first instead of replacing
    /// it. A program that would not fit is refused and nothing is written.
    pub fn load_program(&mut self, program: Vec<u8>) -> (r: Result<(), ProgramFault>)
        requires
            old(self).wf(),
        ensures
            final(self).wf(),
            final(self).stack == old(self).stack,
            final(self).last_sprite_end == old(self).last_sprite_end,
            r is Ok <==> old(self).last_program_end + program@.len() <= MEMORY_SIZE,
            r is Err ==> r == Err::<(), ProgramFault>(ProgramFault::MemoryIndexOutOfBounds)
                && *final(self) == *old(self),
            r is Ok ==> final(self).last_program_end == old(self).last_program_end + program@.len(),
            r is Ok ==> forall|a: int| 0 <= a < MEMORY_SIZE ==> #[trigger] final(self).memory@[a] == (
                if old(self).last_program_end <= a < old(self).last_program_end + program@.len() {
                    program@[a - old(self).last_program_end]
                } else {
                    old(self).memory@[a]
                }),
    {
        let len: usize = program.len();
        let start: usize = self.last_program_end;
        if len > MEMORY_SIZE - start {
            return Err(ProgramFault::MemoryIndexOutOfBounds);
        }
        let mut i: usize = 0;
        while i < len
            invariant
                i <= len,
                len == program@.len(),
                start == old(self).last_program_end,
                start + len <= MEMORY_SIZE,
                self.stack == old(self).stack,
                self.last_sprite_end == old(self).last_sprite_end,
                self.last_program_end == old(self).last_program_end,
                forall|a: int| 0 <= a < MEMORY_SIZE ==> #[trigger] self.memory@[a] == (
                    if start <= a < start + i {
                        program@[a - start]
                    } else {
                        old(self).memory@[a]
                    }),
            decreases len - i,
        {
            self.memory[i + start] = program[i];
            i += 1;
        }
        self.last_program_end = start + len;
        Ok(())
    }

    /// Copies the glyph data to the start of memory.
    fn load_font(&mut self)
        ensures
            final(self).stack == old(self).stack,
            final(self).last_program_end == old(self).last_program_end,
            final(self).last_sprite_end == FONT_SIZE,
            forall|a: int| 0 <= a < MEMORY_SIZE ==> #[trigger] final(self).memory@[a] == (
                if a < FONT_SIZE { FONT@[a] } else { old(self).memory@[a] }),
    {
        let len: usize = FONT_SIZE;
        let mut i: usize = 0;
        while i < len
            invariant
                i <= len,
                len == FONT_SIZE,
                self.stack == old(self).stack,
                self.last_program_end == old(self).last_program_end,
                forall|a: int| 0 <= a < MEMORY_SIZE ==> #[trigger] self.memory@[a] == (
                    if a < i { FONT@[a] } else { old(self).memory@[a] }),
            decreases len - i,
        {
            self.memory[i] = FONT[i];
            i += 1;
        }
        self.last_sprite_end = len;
    }
}

} // verus!
