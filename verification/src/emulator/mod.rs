use vstd::prelude::*;
use crate::emulator::cpu::{cycles, machine, Machine, CPU};
use crate::emulator::display::Framebuffer;
use crate::emulator::instruction::{step_events, step_outcome, Step};
use crate::emulator::memory::{MEMORY_SIZE, RAM};
use crate::message::ProgramFault;

pub mod cpu;
pub mod display;
pub mod instruction;
pub mod memory;

verus! {

/// The whole machine: processor, memory with the call stack, and the
/// interpreter's own copy of the framebuffer.
#[derive(Clone)]
pub struct Emulator {
    pub cpu: CPU,
    pub memory: RAM,
    pub display: Framebuffer,
}

impl View for Emulator {
    type V = Machine;

    /// The machine without the loader's bookkeeping.
    open spec fn view(&self) -> Machine {
        machine(self.cpu, self.memory.memory, self.memory.stack, self.display)
    }
}

impl Emulator {
    /// Each part is well formed.
    pub open spec fn wf(&self) -> bool {
        self.cpu.wf() && self.memory.wf() && self.display.wf()
    }

    /// Tells whether each part is well formed, which is what a step needs.
    pub fn is_valid(&self) -> (ok: bool)
        ensures
            ok == self.wf(),
    {
        self.cpu.is_valid() && self.memory.is_valid() && self.display.is_valid()
    }

    /// A machine in its initial state, with a blank framebuffer and no
    /// program.
    pub fn new() -> (emulator: Self)
        ensures
            emulator.wf(),
            emulator.cpu.is_initial(),
            emulator.memory.is_initial(),
            emulator.display.is_blank(),
    {
        Self { cpu: CPU::new(), memory: RAM::new(), display: Framebuffer::new() }
    }

    /// Appends `program` to what was loaded before; the first program
    /// starts where the program counter starts. A program that would not
    /// fit is refused and nothing is written.
    pub fn load_program(&mut self, program: Vec<u8>) -> (r: Result<(), ProgramFault>)
        requires
            old(self).wf(),
        ensures
            final(self).wf(),
            final(self).cpu == old(self).cpu,
            final(self).display == old(self).display,
            final(self).memory.stack == old(self).memory.stack,
            final(self).memory.last_sprite_end == old(self).memory.last_sprite_end,
            r is Ok <==> old(self).memory.last_program_end + program@.len() <= MEMORY_SIZE,
            r is Err ==> r == Err::<(), ProgramFault>(ProgramFault::MemoryIndexOutOfBounds)
                && final(self).memory == old(self).memory,
            r is Ok ==> final(self).memory.last_program_end == old(self).memory.last_program_end
                + program@.len(),
            r is Ok ==> forall|a: int| 0 <= a < MEMORY_SIZE ==> #[trigger] final(self).memory.memory@[a] == (
                if old(self).memory.last_program_end <= a < old(self).memory.last_program_end
                    + program@.len() {
                    program@[a - old(self).memory.last_program_end]
                } else {
                    old(self).memory.memory@[a]
                }),
    {
        self.memory.load_program(program)
    }

    /// One cycle of the machine: fetch, decode, execute. See `CPU::step`.
    pub fn step(&mut self, keypad: u16, random: u8) -> (r: Result<Step, ProgramFault>)
        requires
            old(self).wf(),
        ensures
            final(self).wf(),
            final(self).memory.last_program_end == old(self).memory.last_program_end,
            final(self).memory.last_sprite_end == old(self).memory.last_sprite_end,
            cycles(keypad, random, old(self)@, final(self)@, step_outcome(r), step_events(r)),
    {
        self.cpu.step(&mut self.memory.memory, &mut self.memory.stack, &mut self.display, keypad, random)
    }
}

} // verus!
