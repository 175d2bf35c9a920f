use vstd::prelude::*;

verus! {

/// A notification for whoever presents the framebuffer. Events are produced
/// in the order in which the interpreter made the changes.
#[derive(Clone, Copy, Debug, PartialEq, Eq, Structural)]
pub enum Message {
    /// One pixel was written: row, column and the bit that it now holds.
    Drw(u8, u8, u8),
    /// The whole framebuffer was reset to zero.
    Clr,
    /// The run has ended.
    ShutDown,
}

/// A fatal condition. The run ends where one is raised. The instruction
/// that raises it changes nothing; the program counter already points past
/// it, except where the fetch itself failed.
#[derive(Clone, Copy, Debug, PartialEq, Eq, Structural)]
pub enum ProgramFault {
    /// A call with all sixteen stack slots in use.
    StackOverflow,
    /// A return with no call outstanding.
    StackUnderflow,
    /// A fetch with the program counter outside memory.
    ProgramCounterOutOfBounds,
    /// A read or write through the index register, or a program load, that
    /// would leave memory.
    MemoryIndexOutOfBounds,
}

} // verus!
