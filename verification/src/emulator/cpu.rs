use vstd::prelude::*;
use crate::emulator::display::{lemma_same_pixels, Framebuffer};
use crate::emulator::instruction::{decode, decode_spec, step_events, step_outcome, Instruction, Outcome, Step};
use crate::emulator::memory::{MEMORY_SIZE, STACK_SIZE};
use crate::message::{Message, ProgramFault};

verus! {


/// The processor: sixteen 8-bit registers, the program counter, the index
/// register, the stack pointer and the two timers.
#[derive(Clone, Copy, Debug)]
pub struct CPU {
    pub registers: [u8; 16],
    pub program_counter: usize,
    pub i: u16,
    pub stack_pointer: usize,
    pub delay_timer: u8,
    pub sound_timer: u8,
}

/// Whether `key` is one of the sixteen keys and its bit is set in `keypad`.
pub open spec fn key_down(keypad: u16, key: u8) -> bool {
    key < 16 && crate::keyboard::held(keypad, key as u16)
}

/// Memory after the three decimal digits of `value` were written at `at`.
pub open spec fn with_digits(memory: Seq<u8>, at: int, value: u8) -> Seq<u8> {
    memory.update(at, value / 100).update(at + 1, (value / 10) % 10).update(at + 2, value % 10)
}

/// Memory after the first `count` registers were written at `at`.
pub open spec fn with_registers_stored(memory: Seq<u8>, at: int, registers: Seq<u8>, count: int) -> Seq<u8> {
    Seq::new(memory.len(), |a: int| if at <= a < at + count { registers[a - at] } else { memory[a] })
}

/// The register file after its first `count` registers were read from
/// memory at `at`.
pub open spec fn with_registers_loaded(registers: Seq<u8>, memory: Seq<u8>, at: int, count: int) -> Seq<u8> {
    Seq::new(registers.len(), |r: int| if r < count { memory[at + r] } else { registers[r] })
}

/// The whole machine as the contracts see it: the processor, the contents
/// of memory and of the call stack, and the framebuffer.
pub struct Machine {
    pub cpu: CPU,
    pub memory: Seq<u8>,
    pub stack: Seq<u16>,
    pub display: Framebuffer,
}

/// The machine that the four parts make up.
pub open spec fn machine(cpu: CPU, memory: [u8; 4096], stack: [u16; 16], display: Framebuffer) -> Machine {
    Machine { cpu, memory: memory@, stack: stack@, display }
}

/// The opcode that memory holds at `pc`: two bytes, the high one first.
pub open spec fn opcode_at(memory: Seq<u8>, pc: int) -> u16 {
    (memory[pc] * 256 + memory[pc + 1]) as u16
}

/// Whether one instruction takes the machine from `before` to `after`, with
/// the given outcome or fault and the given events. An instruction that
/// faults changes nothing.
pub open spec fn executes(
    instr: Instruction,
    keypad: u16,
    random: u8,
    before: Machine,
    after: Machine,
    r: Result<Outcome, ProgramFault>,
    events: Seq<Message>,
) -> bool {
    let c0: CPU = before.cpu;
    let m0: Seq<u8> = before.memory;
    let s0: Seq<u16> = before.stack;
    let d0: Framebuffer = before.display;
    let c1: CPU = after.cpu;
    let m1: Seq<u8> = after.memory;
    let s1: Seq<u16> = after.stack;
    let d1: Framebuffer = after.display;
    let unchanged: bool = after == before;
    let quiet: bool = events.len() == 0;
    match instr {
        Instruction::Halt => unchanged && r == Ok::<Outcome, ProgramFault>(Outcome::Halted) && events.len() == 1
            && events[0] == Message::ShutDown,
        Instruction::Clr => c1 == c0 && m1 == m0 && s1 == s0 && d1.is_blank() && r == Ok::<
            Outcome,
            ProgramFault,
        >(Outcome::Continue) && events.len() == 1 && events[0] == Message::Clr,
        Instruction::Ret => m1 == m0 && s1 == s0 && d1 == d0 && quiet && if c0.stack_pointer == 0 {
            c1 == c0 && r == Err::<Outcome, ProgramFault>(ProgramFault::StackUnderflow)
        } else {
            c1 == c0.after_ret(s0) && r == Ok::<Outcome, ProgramFault>(Outcome::Continue)
        },
        Instruction::Call(nnn) => m1 == m0 && d1 == d0 && quiet && if c0.stack_pointer >= STACK_SIZE {
            c1 == c0 && s1 == s0 && r == Err::<Outcome, ProgramFault>(ProgramFault::StackOverflow)
        } else {
            c1 == c0.after_call(nnn) && s1 == s0.update(c0.stack_pointer as int, c0.program_counter as u16)
                && r == Ok::<Outcome, ProgramFault>(Outcome::Continue)
        },
        Instruction::Drw(n, x, y) => m1 == m0 && s1 == s0 && if c0.i + n > MEMORY_SIZE {
            c1 == c0 && d1 == d0 && quiet && r == Err::<Outcome, ProgramFault>(
                ProgramFault::MemoryIndexOutOfBounds,
            )
        } else {
            c0.draws(n, x, y, m0, d0, c1, d1, events) && r == Ok::<Outcome, ProgramFault>(Outcome::Continue)
        },
        Instruction::LdXK(x) => unchanged && quiet && r == Ok::<Outcome, ProgramFault>(Outcome::WaitForKey(x)),
        Instruction::LdBX(x) => c1 == c0 && s1 == s0 && d1 == d0 && quiet && if c0.i + 2 < MEMORY_SIZE {
            m1 == with_digits(m0, c0.i as int, c0.registers@[x as int]) && r == Ok::<Outcome, ProgramFault>(
                Outcome::Continue,
            )
        } else {
            m1 == m0 && r == Err::<Outcome, ProgramFault>(ProgramFault::MemoryIndexOutOfBounds)
        },
        Instruction::Ld0XI(x) => c1 == c0 && s1 == s0 && d1 == d0 && quiet && if c0.i + x < MEMORY_SIZE {
            m1 == with_registers_stored(m0, c0.i as int, c0.registers@, x + 1) && r == Ok::<
                Outcome,
                ProgramFault,
            >(Outcome::Continue)
        } else {
            m1 == m0 && r == Err::<Outcome, ProgramFault>(ProgramFault::MemoryIndexOutOfBounds)
        },
        Instruction::LdI0X(x) => m1 == m0 && s1 == s0 && d1 == d0 && quiet && if c0.i + x < MEMORY_SIZE {
            c0.same_but_registers(c1) && c1.registers@ == with_registers_loaded(
                c0.registers@,
                m0,
                c0.i as int,
                x + 1,
            ) && r == Ok::<Outcome, ProgramFault>(Outcome::Continue)
        } else {
            c1 == c0 && r == Err::<Outcome, ProgramFault>(ProgramFault::MemoryIndexOutOfBounds)
        },
        Instruction::Invalid(opcode) => unchanged && quiet && r == Ok::<Outcome, ProgramFault>(
            Outcome::Unrecognized(opcode),
        ),
        _ => m1 == m0 && s1 == s0 && d1 == d0 && quiet && c1 == c0.after(instr, keypad, random) && r == Ok::<
            Outcome,
            ProgramFault,
        >(Outcome::Continue),
    }
}

/// Whether one cycle (fetch, decode, execute) takes the machine from
/// `before` to `after`. With the program counter outside memory the cycle
/// faults and changes nothing; otherwise the program counter moves past the
/// opcode before the instruction runs.
pub open spec fn cycles(
    keypad: u16,
    random: u8,
    before: Machine,
    after: Machine,
    r: Result<Outcome, ProgramFault>,
    events: Seq<Message>,
) -> bool {
    let pc: int = before.cpu.program_counter as int;
    if pc + 2 > MEMORY_SIZE {
        after == before && events.len() == 0 && r == Err::<Outcome, ProgramFault>(
            ProgramFault::ProgramCounterOutOfBounds,
        )
    } else {
        executes(
            decode_spec(opcode_at(before.memory, pc)),
            keypad,
            random,
            Machine { cpu: before.cpu.with_pc(pc + 2), ..before },
            after,
            r,
            events,
        )
    }
}

impl CPU {
    /// The stack pointer never exceeds the capacity of the stack.
    pub open spec fn wf(&self) -> bool {
        self.stack_pointer <= STACK_SIZE
    }

    /// This processor with register `x` set to `v`.
    pub open spec fn with_register(self, x: int, v: u8) -> CPU {
        CPU { registers: vstd::array::spec_array_update(self.registers, x, v), ..self }
    }

    /// This processor with the program counter set to `pc`.
    pub open spec fn with_pc(self, pc: int) -> CPU {
        CPU { program_counter: pc as usize, ..self }
    }

    /// This processor with the program counter moved past one instruction
    /// if `skip` holds.
    pub open spec fn skipping(self, skip: bool) -> CPU {
        if skip { self.with_pc(self.program_counter + 2) } else { self }
    }

    /// Whether `other` differs from this processor in its registers at most.
    pub open spec fn same_but_registers(self, other: CPU) -> bool {
        other == (CPU { registers: other.registers, ..self })
    }

    /// The state after `Vx = Vx + Vy`: the sum modulo 256, then the flag
    /// register set to 1 if the sum did not fit in eight bits, else to 0.
    pub open spec fn after_add_xy(self, x: u8, y: u8) -> CPU {
        let sum: int = self.registers@[x as int] + self.registers@[y as int];
        self.with_register(x as int, (sum % 256) as u8).with_register(
            0xF, if sum >= 256 { 1u8 } else { 0u8 })
    }

    /// The state after `Vx = Vx - Vy`: the difference modulo 256, then the
    /// flag register set to 1 if nothing was borrowed, else to 0.
    pub open spec fn after_sub_xy(self, x: u8, y: u8) -> CPU {
        let a: int = self.registers@[x as int] as int;
        let b: int = self.registers@[y as int] as int;
        self.with_register(x as int, ((a - b) % 256) as u8).with_register(
            0xF, if a >= b { 1u8 } else { 0u8 })
    }

    /// The state after `Vx = Vy - Vx`: the flag register set to 1 if
    /// nothing was borrowed, else to 0, then the difference modulo 256.
    pub open spec fn after_subb(self, x: u8, y: u8) -> CPU {
        let a: int = self.registers@[x as int] as int;
        let b: int = self.registers@[y as int] as int;
        self.with_register(0xF, if b >= a { 1u8 } else { 0u8 }).with_register(
            x as int, ((b - a) % 256) as u8)
    }

    /// The state after a right shift of `Vx`: the flag register set to the
    /// lowest bit, then `Vx` halved.
    pub open spec fn after_shr(self, x: u8) -> CPU {
        let v: u8 = self.registers@[x as int];
        self.with_register(0xF, v & 1).with_register(x as int, v >> 1)
    }

    /// The state after a left shift of `Vx`: the flag register set to the
    /// highest bit, then `Vx` doubled modulo 256.
    pub open spec fn after_shl(self, x: u8) -> CPU {
        let v: u8 = self.registers@[x as int];
        self.with_register(0xF, (v & 0x80) >> 7).with_register(x as int, v << 1)
    }

    /// The state after a call to `nnn` with a free stack slot.
    pub open spec fn after_call(self, nnn: u16) -> CPU {
        CPU { program_counter: nnn as usize, stack_pointer: (self.stack_pointer + 1) as usize, ..self }
    }

    /// The state after a return to the address on top of `stack`.
    pub open spec fn after_ret(self, stack: Seq<u16>) -> CPU {
        CPU {
            program_counter: stack[self.stack_pointer - 1] as usize,
            stack_pointer: (self.stack_pointer - 1) as usize,
            ..self
        }
    }

    /// The state after an instruction that works on the processor alone;
    /// for every other instruction, this processor unchanged.
    pub open spec fn after(self, instr: Instruction, keypad: u16, random: u8) -> CPU {
        let v: Seq<u8> = self.registers@;
        match instr {
            Instruction::Jmp(nnn) => self.with_pc(nnn as int),
            Instruction::Se(x, kk) => self.skipping(v[x as int] == kk),
            Instruction::Sne(x, kk) => self.skipping(v[x as int] != kk),
            Instruction::SeXY(x, y) => self.skipping(v[x as int] == v[y as int]),
            Instruction::SneXY(x, y) => self.skipping(v[x as int] != v[y as int]),
            Instruction::Ld(x, kk) => self.with_register(x as int, kk),
            Instruction::Add(x, kk) => self.with_register(x as int, ((v[x as int] + kk) % 256) as u8),
            Instruction::LdXY(x, y) => self.with_register(x as int, v[y as int]),
            Instruction::OrXY(x, y) => self.with_register(x as int, v[x as int] | v[y as int]),
            Instruction::AndXY(x, y) => self.with_register(x as int, v[x as int] & v[y as int]),
            Instruction::XorXY(x, y) => self.with_register(x as int, v[x as int] ^ v[y as int]),
            Instruction::AddXY(x, y) => self.after_add_xy(x, y),
            Instruction::SubXY(x, y) => self.after_sub_xy(x, y),
            Instruction::Shr(x) => self.after_shr(x),
            Instruction::Subb(x, y) => self.after_subb(x, y),
            Instruction::Shl(x) => self.after_shl(x),
            Instruction::LdI(nnn) => CPU { i: nnn, ..self },
            Instruction::Jmp0(nnn) => self.with_pc(nnn + v[0]),
            Instruction::Rnd(x, kk) => self.with_register(x as int, random & kk),
            Instruction::Skp(x) => self.skipping(key_down(keypad, v[x as int])),
            Instruction::Sknp(x) => self.skipping(!key_down(keypad, v[x as int])),
            Instruction::LdXDt(x) => self.with_register(x as int, self.delay_timer),
            Instruction::LdDtX(x) => CPU { delay_timer: v[x as int], ..self },
            Instruction::LdStX(x) => CPU { sound_timer: v[x as int], ..self },
            Instruction::AddI(x) => CPU { i: ((self.i + v[x as int]) % 0x10000) as u16, ..self },
            Instruction::LdFX(x) => CPU { i: (v[x as int] * 5) as u16, ..self },
            _ => self,
        }
    }

    /// Whether drawing the `n` sprite rows at `I` from `(Vx, Vy)` takes
    /// this processor and `display` to `cpu` and `drawn` with `events`: the
    /// framebuffer holds the sprite combined by exclusive or, the flag
    /// register is 1 if a set sprite bit landed on a set pixel and else 0,
    /// and there is one event per sprite pixel.
    pub open spec fn draws(
        self,
        n: u8,
        x: u8,
        y: u8,
        memory: Seq<u8>,
        display: Framebuffer,
        cpu: CPU,
        drawn: Framebuffer,
        events: Seq<Message>,
    ) -> bool {
        let sprite: Seq<u8> = memory.subrange(self.i as int, self.i + n);
        let vx: int = self.registers@[x as int] as int;
        let vy: int = self.registers@[y as int] as int;
        &&& display.drawn_is(sprite, vx, vy, drawn)
        &&& display.draw_events_are(sprite, vx, vy, events)
        &&& cpu == self.with_register(0xF, if display.collides(sprite, vx, vy, 8 * n) { 1u8 } else { 0u8 })
    }

    /// Every register and timer is zero, the stack is empty, and the
    /// program counter is at the start of the program area.
    pub open spec fn is_initial(&self) -> bool {
        &&& forall|r: int| 0 <= r < 16 ==> #[trigger] self.registers@[r] == 0
        &&& self.program_counter == 0x200
        &&& self.i == 0
        &&& self.stack_pointer == 0
        &&& self.delay_timer == 0
        &&& self.sound_timer == 0
    }

    /// Tells whether the stack pointer is within the stack's capacity.
    pub fn is_valid(&self) -> (ok: bool)
        ensures
            ok == self.wf(),
    {
        self.stack_pointer <= STACK_SIZE
    }

    /// A processor in its initial state.
    pub fn new() -> (cpu: Self)
        ensures
            cpu.wf(),
            cpu.is_initial(),
    {
        Self {
            registers: [0u8; 16],
            program_counter: 0x200,
            i: 0,
            stack_pointer: 0,
            delay_timer: 0,
            sound_timer: 0,
        }
    }

    /// Return: pops the newest return address into the program counter.
    /// With an empty stack it faults and changes nothing.
    pub fn ret(&mut self, stack: &[u16; 16]) -> (r: Result<(), ProgramFault>)
        requires
            old(self).wf(),
        ensures
            final(self).wf(),
            old(self).stack_pointer == 0 ==> r == Err::<(), ProgramFault>(ProgramFault::StackUnderflow)
                && *final(self) == *old(self),
            old(self).stack_pointer > 0 ==> r is Ok && *final(self) == old(self).after_ret(stack@),
    {
        if self.stack_pointer == 0 {
            return Err(ProgramFault::StackUnderflow);
        }
        self.stack_pointer -= 1;
        let call_nnn: u16 = stack[self.stack_pointer];
        self.program_counter = call_nnn as usize;
        Ok(())
    }

    /// Jump: sets the program counter to `nnn`.
    pub fn jmp(&mut self, nnn: u16)
        ensures
            *final(self) == old(self).with_pc(nnn as int),
    {
        self.program_counter = nnn as usize;
    }

    /// Call: pushes the program counter and jumps to `nnn`. With all
    /// sixteen slots in use it faults and changes nothing.
    pub fn call(&mut self, nnn: u16, stack: &mut [u16; 16]) -> (r: Result<(), ProgramFault>)
        requires
            old(self).wf(),
            old(self).program_counter <= u16::MAX,
        ensures
            final(self).wf(),
            old(self).stack_pointer == STACK_SIZE ==> r == Err::<(), ProgramFault>(
                ProgramFault::StackOverflow) && *final(self) == *old(self) && *final(stack) == *old(stack),
            old(self).stack_pointer < STACK_SIZE ==> r is Ok && *final(self) == old(self).after_call(nnn)
                && final(stack)@ == old(stack)@.update(
                old(self).stack_pointer as int, old(self).program_counter as u16),
    {
        let sp: usize = self.stack_pointer;
        if sp >= STACK_SIZE {
            return Err(ProgramFault::StackOverflow);
        }
        stack[sp] = self.program_counter as u16;
        self.stack_pointer += 1;
        self.program_counter = nnn as usize;
        Ok(())
    }

    /// Skips the next instruction if `Vx == kk`.
    pub fn se(&mut self, x: u8, kk: u8)
        requires
            x < 16,
            old(self).program_counter <= usize::MAX - 2,
        ensures
            *final(self) == old(self).skipping(old(self).registers@[x as int] == kk),
    {
        if self.registers[x as usize] == kk {
            self.program_counter += 2;
        }
    }

    /// Skips the next instruction if `Vx != kk`.
    pub fn sne(&mut self, x: u8, kk: u8)
        requires
            x < 16,
            old(self).program_counter <= usize::MAX - 2,
        ensures
            *final(self) == old(self).skipping(old(self).registers@[x as int] != kk),
    {
        if self.registers[x as usize] != kk {
            self.program_counter += 2;
        }
    }

    /// Skips the next instruction if the key whose value is `Vx` is held.
    pub fn skp(&mut self, x: u8, keypad: u16)
        requires
            x < 16,
            old(self).program_counter <= usize::MAX - 2,
        ensures
            *final(self) == old(self).skipping(key_down(keypad, old(self).registers@[x as int])),
    {
        let key: u8 = self.registers[x as usize];
        if key < 16 && (keypad >> (key as u16)) & 1 == 1 {
            self.program_counter += 2;
        }
    }

    /// Skips the next instruction if the key whose value is `Vx` is not
    /// held.
    pub fn sknp(&mut self, x: u8, keypad: u16)
        requires
            x < 16,
            old(self).program_counter <= usize::MAX - 2,
        ensures
            *final(self) == old(self).skipping(!key_down(keypad, old(self).registers@[x as int])),
    {
        let key: u8 = self.registers[x as usize];
        if !(key < 16 && (keypad >> (key as u16)) & 1 == 1) {
            self.program_counter += 2;
        }
    }

    /// `Vx = kk`.
    pub fn ld(&mut self, x: u8, kk: u8)
        requires
            x < 16,
        ensures
            *final(self) == old(self).with_register(x as int, kk),
    {
        self.registers[x as usize] = kk;
    }

    /// `Vx = Vx + kk` modulo 256. The flag register is left alone.
    pub fn add(&mut self, x: u8, kk: u8)
        requires
            x < 16,
        ensures
            *final(self) == old(self).with_register(
                x as int, ((old(self).registers@[x as int] + kk) % 256) as u8),
    {
        let sum: u16 = self.registers[x as usize] as u16 + kk as u16;
        self.registers[x as usize] = (sum % 256) as u8;
    }

    /// `Vx = Vx OR Vy`.
    pub fn or_xy(&mut self, x: u8, y: u8)
        requires
            x < 16,
            y < 16,
        ensures
            *final(self) == old(self).with_register(
                x as int, old(self).registers@[x as int] | old(self).registers@[y as int]),
    {
        let x_: u8 = self.registers[x as usize];
        let y_: u8 = self.registers[y as usize];
        self.registers[x as usize] = x_ | y_;
    }

    /// `Vx = Vx AND Vy`.
    pub fn and_xy(&mut self, x: u8, y: u8)
        requires
            x < 16,
            y < 16,
        ensures
            *final(self) == old(self).with_register(
                x as int, old(self).registers@[x as int] & old(self).registers@[y as int]),
    {
        let x_: u8 = self.registers[x as usize];
        let y_: u8 = self.registers[y as usize];
        self.registers[x as usize] = x_ & y_;
    }

    /// `Vx = Vx XOR Vy`.
    pub fn xor_xy(&mut self, x: u8, y: u8)
        requires
            x < 16,
            y < 16,
        ensures
            *final(self) == old(self).with_register(
                x as int, old(self).registers@[x as int] ^ old(self).registers@[y as int]),
    {
        let x_: u8 = self.registers[x as usize];
        let y_: u8 = self.registers[y as usize];
        self.registers[x as usize] = x_ ^ y_;
    }

    /// `Vx = Vx + Vy` modulo 256; the flag register becomes 1 exactly when
    /// the sum reached 256, else 0. The flag is written last.
    pub fn add_xy(&mut self, x: u8, y: u8)
        requires
            x < 16,
            y < 16,
        ensures
            *final(self) == old(self).after_add_xy(x, y),
            final(self).registers@[0xF] == 1 <==> old(self).registers@[x as int] + old(
                self).registers@[y as int] >= 256,
            final(self).registers@[0xF] == 0 <==> old(self).registers@[x as int] + old(
                self).registers@[y as int] < 256,
            x != 0xF ==> final(self).registers@[x as int] == (old(self).registers@[x as int] + old(
                self).registers@[y as int]) % 256,
    {
        let arg1: u16 = self.registers[x as usize] as u16;
        let arg2: u16 = self.registers[y as usize] as u16;
        let sum: u16 = arg1 + arg2;
        self.registers[x as usize] = (sum % 256) as u8;
        if sum >= 256 {
            self.registers[0xF] = 1;
        } else {
            self.registers[0xF] = 0;
        }
    }

    /// `Vx = Vx - Vy` modulo 256; the flag register becomes 1 exactly when
    /// `Vx >= Vy` held before, else 0. The flag is written last.
    pub fn sub_xy(&mut self, x: u8, y: u8)
        requires
            x < 16,
            y < 16,
        ensures
            *final(self) == old(self).after_sub_xy(x, y),
            final(self).registers@[0xF] == 1 <==> old(self).registers@[x as int] >= old(
                self).registers@[y as int],
            final(self).registers@[0xF] == 0 <==> old(self).registers@[x as int] < old(
                self).registers@[y as int],
            x != 0xF ==> final(self).registers@[x as int] == (old(self).registers@[x as int] - old(
                self).registers@[y as int]) % 256,
    {
        let arg1: u8 = self.registers[x as usize];
        let arg2: u8 = self.registers[y as usize];
        if arg1 >= arg2 {
            self.registers[x as usize] = arg1 - arg2;
            self.registers[0xF] = 1;
        } else {
            self.registers[x as usize] = (256u16 - (arg2 - arg1) as u16) as u8;
            self.registers[0xF] = 0;
        }
    }

    /// Shifts `Vx` right by one; the flag register receives the bit that
    /// fell out. The flag is written first.
    pub fn shr(&mut self, x: u8)
        requires
            x < 16,
        ensures
            *final(self) == old(self).after_shr(x),
            x != 0xF ==> final(self).registers@[0xF] == old(self).registers@[x as int] % 2,
            final(self).registers@[x as int] == old(self).registers@[x as int] / 2,
    {
        let arg: u8 = self.registers[x as usize];
        let lsb: u8 = arg & 0x1;
        self.registers[0xF] = lsb;
        self.registers[x as usize] = arg >> 1;
        proof {
            assert(arg & 1 == arg % 2) by (bit_vector);
            assert(arg >> 1 == arg / 2) by (bit_vector);
        }
    }

    /// `Vx = Vy - Vx` modulo 256; the flag register becomes 1 exactly when
    /// `Vy >= Vx` held before, else 0. The flag is written first.
    pub fn subb(&mut self, x: u8, y: u8)
        requires
            x < 16,
            y < 16,
        ensures
            *final(self) == old(self).after_subb(x, y),
            x != 0xF ==> (final(self).registers@[0xF] == 1 <==> old(self).registers@[y as int] >= old(
                self).registers@[x as int]),
            x != 0xF ==> (final(self).registers@[0xF] == 0 <==> old(self).registers@[y as int] < old(
                self).registers@[x as int]),
            final(self).registers@[x as int] == (old(self).registers@[y as int] - old(
                self).registers@[x as int]) % 256,
    {
        let arg1: u8 = self.registers[x as usize];
        let arg2: u8 = self.registers[y as usize];
        if arg2 >= arg1 {
            self.registers[0xF] = 1;
            self.registers[x as usize] = arg2 - arg1;
        } else {
            self.registers[0xF] = 0;
            self.registers[x as usize] = (256u16 - (arg1 - arg2) as u16) as u8;
        }
    }

    /// Shifts `Vx` left by one, modulo 256; the flag register receives the
    /// bit that fell out. The flag is written first.
    pub fn shl(&mut self, x: u8)
        requires
            x < 16,
        ensures
            *final(self) == old(self).after_shl(x),
            x != 0xF ==> final(self).registers@[0xF] == old(self).registers@[x as int] / 128,
            final(self).registers@[x as int] == (old(self).registers@[x as int] * 2) % 256,
    {
        let arg: u8 = self.registers[x as usize];
        let msb: u8 = (arg & 0x80) >> 7;
        self.registers[0xF] = msb;
        self.registers[x as usize] = arg << 1;
        proof {
            assert((arg & 0x80) >> 7 == arg / 128) by (bit_vector);
            assert(arg << 1 == (arg * 2) % 256) by (bit_vector);
        }
    }

    /// `I = nnn`.
    pub fn ld_i(&mut self, nnn: u16)
        ensures
            *final(self) == (CPU { i: nnn, ..*old(self) }),
    {
        self.i = nnn;
    }

    /// Jump with offset: sets the program counter to `nnn + V0`.
    pub fn jmp_0(&mut self, nnn: u16)
        ensures
            *final(self) == old(self).with_pc(nnn + old(self).registers@[0]),
    {
        let v0: usize = self.registers[0] as usize;
        self.program_counter = (nnn as usize) + v0;
    }

    /// `Vx = random AND kk`, where `random` is a byte that the caller drew.
    pub fn rnd(&mut self, x: u8, kk: u8, random: u8)
        requires
            x < 16,
        ensures
            *final(self) == old(self).with_register(x as int, random & kk),
    {
        self.registers[x as usize] = random & kk;
    }

    /// Clear: blanks the framebuffer and returns the event that says so.
    pub fn clr(display: &mut Framebuffer) -> (event: Message)
        ensures
            final(display).wf(),
            final(display).is_blank(),
            event == Message::Clr,
    {
        display.clear();
        Message::Clr
    }

    /// Draw: combines the `n` sprite rows that memory holds from `I` on
    /// with the framebuffer, top left corner at `(Vx, Vy)`, and sets the
    /// flag register to 1 if a set sprite bit landed on a set pixel, else to
    /// 0. Returns one event per sprite pixel, in drawing order. If the
    /// sprite would leave memory it faults and changes nothing.
    pub fn drw(&mut self, n: u8, x: u8, y: u8, memory: &[u8; 4096], display: &mut Framebuffer) -> (r: Result<
        Vec<Message>,
        ProgramFault,
    >)
        requires
            n < 16,
            x < 16,
            y < 16,
            old(display).wf(),
        ensures
            final(display).wf(),
            r is Ok <==> old(self).i + n <= MEMORY_SIZE,
            r matches Err(e) ==> e == ProgramFault::MemoryIndexOutOfBounds && *final(self) == *old(self)
                && *final(display) == *old(display),
            r matches Ok(events) ==> old(self).draws(
                n, x, y, memory@, *old(display), *final(self), *final(display), events@),
    {
        let at: usize = self.i as usize;
        if at + n as usize > MEMORY_SIZE {
            return Err(ProgramFault::MemoryIndexOutOfBounds);
        }
        let arg1: u8 = self.registers[x as usize];
        let arg2: u8 = self.registers[y as usize];
        let (collision, events) = display.blit(memory, at, n as usize, arg1, arg2);
        if collision {
            self.registers[0xF] = 1;
        } else {
            self.registers[0xF] = 0;
        }
        Ok(events)
    }

    /// `Vx = delay timer`.
    pub fn ld_x_dt(&mut self, x: u8)
        requires
            x < 16,
        ensures
            *final(self) == old(self).with_register(x as int, old(self).delay_timer),
    {
        self.registers[x as usize] = self.delay_timer;
    }

    /// `delay timer = Vx`.
    pub fn ld_dt_x(&mut self, x: u8)
        requires
            x < 16,
        ensures
            *final(self) == (CPU { delay_timer: old(self).registers@[x as int], ..*old(self) }),
    {
        self.delay_timer = self.registers[x as usize];
    }

    /// `sound timer = Vx`.
    pub fn ld_st_x(&mut self, x: u8)
        requires
            x < 16,
        ensures
            *final(self) == (CPU { sound_timer: old(self).registers@[x as int], ..*old(self) }),
    {
        self.sound_timer = self.registers[x as usize];
    }

    /// Stores the value of the key that was pressed: `Vx = key`.
    pub fn ld_x_k(&mut self, x: u8, key: u8)
        requires
            x < 16,
        ensures
            *final(self) == old(self).with_register(x as int, key),
    {
        self.registers[x as usize] = key;
    }

    /// `I = I + Vx`, modulo the sixteen bits of the index register.
    pub fn add_i(&mut self, x: u8)
        requires
            x < 16,
        ensures
            *final(self) == (CPU {
                i: ((old(self).i + old(self).registers@[x as int]) % 0x10000) as u16,
                ..*old(self)
            }),
    {
        let sum: u32 = self.i as u32 + self.registers[x as usize] as u32;
        self.i = (sum % 0x10000) as u16;
    }

    /// `I` = address of the glyph for the digit in `Vx`, five bytes apart.
    pub fn ld_f_x(&mut self, x: u8)
        requires
            x < 16,
        ensures
            *final(self) == (CPU { i: (old(self).registers@[x as int] * 5) as u16, ..*old(self) }),
    {
        self.i = self.registers[x as usize] as u16 * 5;
    }

    /// Writes the hundreds, tens and ones of `Vx` to memory at `I`, `I+1`
    /// and `I+2`. If any of the three lies outside memory it faults and
    /// writes nothing.
    pub fn ld_b_x(&mut self, x: u8, memory: &mut [u8; 4096]) -> (r: Result<(), ProgramFault>)
        requires
            x < 16,
        ensures
            *final(self) == *old(self),
            r is Ok <==> old(self).i + 2 < MEMORY_SIZE,
            r is Err ==> r == Err::<(), ProgramFault>(ProgramFault::MemoryIndexOutOfBounds)
                && *final(memory) == *old(memory),
            r is Ok ==> final(memory)@ == with_digits(
                old(memory)@, old(self).i as int, old(self).registers@[x as int]),
    {
        let at: usize = self.i as usize;
        if at + 2 >= MEMORY_SIZE {
            return Err(ProgramFault::MemoryIndexOutOfBounds);
        }
        let arg: u8 = self.registers[x as usize];
        memory[at] = arg / 100;
        memory[at + 1] = (arg / 10) % 10;
        memory[at + 2] = arg % 10;
        Ok(())
    }

    /// Stores `V0..=Vx` to memory from `I` on. If the last of them would lie
    /// outside memory it faults and writes nothing.
    pub fn ld_0_x_i(&mut self, x: u8, memory: &mut [u8; 4096]) -> (r: Result<(), ProgramFault>)
        requires
            x < 16,
        ensures
            *final(self) == *old(self),
            r is Ok <==> old(self).i + x < MEMORY_SIZE,
            r is Err ==> r == Err::<(), ProgramFault>(ProgramFault::MemoryIndexOutOfBounds)
                && *final(memory) == *old(memory),
            r is Ok ==> final(memory)@ == with_registers_stored(
                old(memory)@, old(self).i as int, old(self).registers@, x + 1),
    {
        let at: usize = self.i as usize;
        if at + x as usize >= MEMORY_SIZE {
            return Err(ProgramFault::MemoryIndexOutOfBounds);
        }
        let mut reg: usize = 0;
        while reg <= x as usize
            invariant
                reg <= x + 1,
                x < 16,
                at == self.i,
                at + x < MEMORY_SIZE,
                *self == *old(self),
                memory@ =~= with_registers_stored(old(memory)@, at as int, self.registers@, reg as int),
            decreases x + 1 - reg,
        {
            memory[at + reg] = self.registers[reg];
            reg += 1;
        }
        Ok(())
    }

    /// Loads `V0..=Vx` from memory from `I` on. If the last of them would
    /// lie outside memory it faults and changes nothing.
    pub fn ld_i_0_x(&mut self, x: u8, memory: &[u8; 4096]) -> (r: Result<(), ProgramFault>)
        requires
            x < 16,
        ensures
            old(self).same_but_registers(*final(self)),
            r is Ok <==> old(self).i + x < MEMORY_SIZE,
            r is Err ==> r == Err::<(), ProgramFault>(ProgramFault::MemoryIndexOutOfBounds)
                && *final(self) == *old(self),
            r is Ok ==> final(self).registers@ == with_registers_loaded(
                old(self).registers@, memory@, old(self).i as int, x + 1),
    {
        let at: usize = self.i as usize;
        if at + x as usize >= MEMORY_SIZE {
            return Err(ProgramFault::MemoryIndexOutOfBounds);
        }
        let mut reg: usize = 0;
        while reg <= x as usize
            invariant
                reg <= x + 1,
                x < 16,
                at == old(self).i,
                at + x < MEMORY_SIZE,
                old(self).same_but_registers(*self),
                self.registers@ =~= with_registers_loaded(old(self).registers@, memory@, at as int, reg as int),
            decreases x + 1 - reg,
        {
            self.registers[reg] = memory[at + reg];
            reg += 1;
        }
        Ok(())
    }

    /// Executes one decoded instruction.
    pub fn execute(
        &mut self,
        instr: Instruction,
        memory: &mut [u8; 4096],
        stack: &mut [u16; 16],
        display: &mut Framebuffer,
        keypad: u16,
        random: u8,
    ) -> (r: Result<Step, ProgramFault>)
        requires
            old(self).wf(),
            old(display).wf(),
            instr.wf(),
            old(self).program_counter <= u16::MAX,
        ensures
            final(self).wf(),
            final(display).wf(),
            executes(
                instr,
                keypad,
                random,
                machine(*old(self), *old(memory), *old(stack), *old(display)),
                machine(*final(self), *final(memory), *final(stack), *final(display)),
                step_outcome(r),
                step_events(r),
            ),
    {
        let mut events: Vec<Message> = Vec::new();
        let mut outcome: Outcome = Outcome::Continue;
        match instr {
            Instruction::Halt => {
                events.push(Message::ShutDown);
                outcome = Outcome::Halted;
            },
            Instruction::Clr => {
                let event: Message = Self::clr(display);
                events.push(event);
            },
            Instruction::Ret => {
                self.ret(stack)?;
            },
            Instruction::Jmp(nnn) => {
                self.jmp(nnn);
            },
            Instruction::Call(nnn) => {
                self.call(nnn, stack)?;
            },
            Instruction::Se(x, kk) => {
                self.se(x, kk);
            },
            Instruction::Sne(x, kk) => {
                self.sne(x, kk);
            },
            Instruction::SeXY(x, y) => {
                let vy: u8 = self.registers[y as usize];
                self.se(x, vy);
            },
            Instruction::Ld(x, kk) => {
                self.ld(x, kk);
            },
            Instruction::Add(x, kk) => {
                self.add(x, kk);
            },
            Instruction::LdXY(x, y) => {
                let vy: u8 = self.registers[y as usize];
                self.ld(x, vy);
            },
            Instruction::OrXY(x, y) => {
                self.or_xy(x, y);
            },
            Instruction::AndXY(x, y) => {
                self.and_xy(x, y);
            },
            Instruction::XorXY(x, y) => {
                self.xor_xy(x, y);
            },
            Instruction::AddXY(x, y) => {
                self.add_xy(x, y);
            },
            Instruction::SubXY(x, y) => {
                self.sub_xy(x, y);
            },
            Instruction::Shr(x) => {
                self.shr(x);
            },
            Instruction::Subb(x, y) => {
                self.subb(x, y);
            },
            Instruction::Shl(x) => {
                self.shl(x);
            },
            Instruction::SneXY(x, y) => {
                let vy: u8 = self.registers[y as usize];
                self.sne(x, vy);
            },
            Instruction::LdI(nnn) => {
                self.ld_i(nnn);
            },
            Instruction::Jmp0(nnn) => {
                self.jmp_0(nnn);
            },
            Instruction::Rnd(x, kk) => {
                self.rnd(x, kk, random);
            },
            Instruction::Drw(n, x, y) => {
                events = self.drw(n, x, y, memory, display)?;
            },
            Instruction::Skp(x) => {
                self.skp(x, keypad);
            },
            Instruction::Sknp(x) => {
                self.sknp(x, keypad);
            },
            Instruction::LdXDt(x) => {
                self.ld_x_dt(x);
            },
            Instruction::LdXK(x) => {
                outcome = Outcome::WaitForKey(x);
            },
            Instruction::LdDtX(x) => {
                self.ld_dt_x(x);
            },
            Instruction::LdStX(x) => {
                self.ld_st_x(x);
            },
            Instruction::AddI(x) => {
                self.add_i(x);
            },
            Instruction::LdFX(x) => {
                self.ld_f_x(x);
            },
            Instruction::LdBX(x) => {
                self.ld_b_x(x, memory)?;
            },
            Instruction::Ld0XI(x) => {
                self.ld_0_x_i(x, memory)?;
            },
            Instruction::LdI0X(x) => {
                self.ld_i_0_x(x, memory)?;
            },
            Instruction::Invalid(opcode) => {
                outcome = Outcome::Unrecognized(opcode);
            },
        }
        Ok(Step { outcome, events })
    }

    /// One cycle: fetches the two bytes at the program counter, moves the
    /// program counter past them, decodes the opcode and executes it. With
    /// the program counter outside memory it faults and changes nothing.
    ///
    /// `keypad` is the current keypad mask and `random` a byte that the
    /// caller drew for this cycle.
    pub fn step(
        &mut self,
        memory: &mut [u8; 4096],
        stack: &mut [u16; 16],
        display: &mut Framebuffer,
        keypad: u16,
        random: u8,
    ) -> (r: Result<Step, ProgramFault>)
        requires
            old(self).wf(),
            old(display).wf(),
        ensures
            final(self).wf(),
            final(display).wf(),
            cycles(
                keypad,
                random,
                machine(*old(self), *old(memory), *old(stack), *old(display)),
                machine(*final(self), *final(memory), *final(stack), *final(display)),
                step_outcome(r),
                step_events(r),
            ),
    {
        let pc: usize = self.program_counter;
        if pc > MEMORY_SIZE - 2 {
            return Err(ProgramFault::ProgramCounterOutOfBounds);
        }
        let op_byte1: u16 = memory[pc] as u16;
        let op_byte2: u16 = memory[pc + 1] as u16;
        let opcode: u16 = op_byte1 * 256 + op_byte2;
        self.program_counter = pc + 2;
        let instr: Instruction = decode(opcode);
        self.execute(instr, memory, stack, display, keypad, random)
    }
}

/// A call followed by the matching return leaves the program counter at
/// the address just after the call instruction, and the stack pointer,
/// memory and framebuffer as they were: the first cycle runs a call to
/// `nnn`, the second the return that stands at `nnn`.
pub proof fn lemma_call_then_return(
    nnn: u16,
    keypad: u16,
    random: u8,
    start: Machine,
    called: Machine,
    returned: Machine,
    r1: Result<Outcome, ProgramFault>,
    e1: Seq<Message>,
    r2: Result<Outcome, ProgramFault>,
    e2: Seq<Message>,
)
    requires
        start.cpu.stack_pointer < STACK_SIZE,
        start.stack.len() == STACK_SIZE,
        start.cpu.program_counter + 2 <= MEMORY_SIZE,
        nnn + 2 <= MEMORY_SIZE,
        decode_spec(opcode_at(start.memory, start.cpu.program_counter as int)) == Instruction::Call(nnn),
        decode_spec(opcode_at(start.memory, nnn as int)) == Instruction::Ret,
        cycles(keypad, random, start, called, r1, e1),
        cycles(keypad, random, called, returned, r2, e2),
    ensures
        r1 == Ok::<Outcome, ProgramFault>(Outcome::Continue),
        r2 == Ok::<Outcome, ProgramFault>(Outcome::Continue),
        returned.cpu.program_counter == start.cpu.program_counter + 2,
        returned.cpu == start.cpu.with_pc(start.cpu.program_counter + 2),
        returned.memory == start.memory,
        returned.display == start.display,
{
}

/// The stack holds sixteen return addresses and no more: a call with
/// sixteen outstanding faults, a return with none outstanding faults, and
/// neither changes anything; every other call or return succeeds and moves
/// the stack pointer by one. No instruction takes the stack pointer out of
/// its range.
pub proof fn lemma_stack_discipline(
    instr: Instruction,
    keypad: u16,
    random: u8,
    before: Machine,
    after: Machine,
    r: Result<Outcome, ProgramFault>,
    events: Seq<Message>,
)
    requires
        before.cpu.wf(),
        executes(instr, keypad, random, before, after, r, events),
    ensures
        after.cpu.wf(),
        instr is Call ==> (r is Err <==> before.cpu.stack_pointer == STACK_SIZE),
        instr is Call && r is Err ==> r == Err::<Outcome, ProgramFault>(ProgramFault::StackOverflow) && after
            == before,
        instr is Call && r is Ok ==> after.cpu.stack_pointer == before.cpu.stack_pointer + 1,
        instr is Ret ==> (r is Err <==> before.cpu.stack_pointer == 0),
        instr is Ret && r is Err ==> r == Err::<Outcome, ProgramFault>(ProgramFault::StackUnderflow) && after
            == before,
        instr is Ret && r is Ok ==> after.cpu.stack_pointer == before.cpu.stack_pointer - 1,
{
    if instr is Drw {
        assert(after.cpu.stack_pointer == before.cpu.stack_pointer);
    }
    if instr is LdI0X {
        assert(after.cpu.stack_pointer == before.cpu.stack_pointer);
    }
    if (instr is Call || instr is Ret) && r is Err {
        assert(after.memory == before.memory);
        assert(after.stack == before.stack);
    }
}

/// A cycle is deterministic: from one machine, with one keypad mask and one
/// random byte, it reaches one machine, with one result and one sequence of
/// events.
pub proof fn lemma_cycle_is_deterministic(
    keypad: u16,
    random: u8,
    before: Machine,
    one: Machine,
    r1: Result<Outcome, ProgramFault>,
    e1: Seq<Message>,
    other: Machine,
    r2: Result<Outcome, ProgramFault>,
    e2: Seq<Message>,
)
    requires
        cycles(keypad, random, before, one, r1, e1),
        cycles(keypad, random, before, other, r2, e2),
    ensures
        one == other,
        r1 == r2,
        e1 == e2,
{
    let pc: int = before.cpu.program_counter as int;
    if pc + 2 <= MEMORY_SIZE {
        let instr: Instruction = decode_spec(opcode_at(before.memory, pc));
        match instr {
            Instruction::Clr => {
                lemma_same_pixels(one.display, other.display);
            },
            Instruction::Drw(n, x, y) => {
                if before.cpu.i + n <= MEMORY_SIZE {
                    lemma_same_pixels(one.display, other.display);
                }
            },
            Instruction::LdI0X(x) => {
                if before.cpu.i + x < MEMORY_SIZE {
                    assert(one.cpu.registers =~= other.cpu.registers);
                }
            },
            _ => {},
        }
    }
    assert(e1 =~= e2);
}

} // verus!
