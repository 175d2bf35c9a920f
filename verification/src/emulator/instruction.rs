use vstd::prelude::*;
use crate::message::Message;

verus! {

/// One decoded instruction. `x` and `y` name registers, `kk` is a byte,
/// `nnn` an address and `n` a number of sprite rows.
#[derive(Clone, Copy, Debug, PartialEq, Eq, Structural)]
pub enum Instruction {
    /// `0000`: stop the run.
    Halt,
    /// `00E0`: blank the framebuffer.
    Clr,
    /// `00EE`: return from a call.
    Ret,
    /// `1nnn`: jump to `nnn`.
    Jmp(u16),
    /// `2nnn`: call `nnn`.
    Call(u16),
    /// `3xkk`: skip if `Vx == kk`.
    Se(u8, u8),
    /// `4xkk`: skip if `Vx != kk`.
    Sne(u8, u8),
    /// `5xy0`: skip if `Vx == Vy`.
    SeXY(u8, u8),
    /// `6xkk`: `Vx = kk`.
    Ld(u8, u8),
    /// `7xkk`: `Vx = Vx + kk`, flag untouched.
    Add(u8, u8),
    /// `8xy0`: `Vx = Vy`.
    LdXY(u8, u8),
    /// `8xy1`: `Vx = Vx OR Vy`.
    OrXY(u8, u8),
    /// `8xy2`: `Vx = Vx AND Vy`.
    AndXY(u8, u8),
    /// `8xy3`: `Vx = Vx XOR Vy`.
    XorXY(u8, u8),
    /// `8xy4`: `Vx = Vx + Vy` with carry flag.
    AddXY(u8, u8),
    /// `8xy5`: `Vx = Vx - Vy` with no-borrow flag.
    SubXY(u8, u8),
    /// `8xy6`: shift `Vx` right.
    Shr(u8),
    /// `8xy7`: `Vx = Vy - Vx` with no-borrow flag.
    Subb(u8, u8),
    /// `8xyE`: shift `Vx` left.
    Shl(u8),
    /// `9xy0`: skip if `Vx != Vy`.
    SneXY(u8, u8),
    /// `Annn`: `I = nnn`.
    LdI(u16),
    /// `Bnnn`: jump to `nnn + V0`.
    Jmp0(u16),
    /// `Cxkk`: `Vx = random AND kk`.
    Rnd(u8, u8),
    /// `Dxyn`: draw `n` sprite rows at `(Vx, Vy)`; the fields are `n`, `x`, `y`.
    Drw(u8, u8, u8),
    /// `Ex9E`: skip if key `Vx` is held.
    Skp(u8),
    /// `ExA1`: skip if key `Vx` is not held.
    Sknp(u8),
    /// `Fx07`: `Vx = delay timer`.
    LdXDt(u8),
    /// `Fx0A`: wait for a key press and store the key in `Vx`.
    LdXK(u8),
    /// `Fx15`: `delay timer = Vx`.
    LdDtX(u8),
    /// `Fx18`: `sound timer = Vx`.
    LdStX(u8),
    /// `Fx1E`: `I = I + Vx`.
    AddI(u8),
    /// `Fx29`: `I` = address of the glyph for digit `Vx`.
    LdFX(u8),
    /// `Fx33`: store the decimal digits of `Vx` at `I`.
    LdBX(u8),
    /// `Fx55`: store `V0..=Vx` at `I`.
    Ld0XI(u8),
    /// `Fx65`: load `V0..=Vx` from `I`.
    LdI0X(u8),
    /// Any other bit pattern, kept for the host to report.
    Invalid(u16),
}

/// What the host does after a step.
#[derive(Clone, Copy, Debug, PartialEq, Eq, Structural)]
pub enum Outcome {
    /// Run the next step.
    Continue,
    /// The program halted: stop.
    Halted,
    /// Wait for a key press, store the key in the named register with
    /// `ld_x_k`, then run the next step.
    WaitForKey(u8),
    /// The opcode is not an instruction. Nothing was changed; report it and
    /// run the next step.
    Unrecognized(u16),
}

/// The result of a step that did not fault.
#[derive(Debug)]
pub struct Step {
    pub outcome: Outcome,
    /// The events that the instruction produced, in order.
    pub events: Vec<Message>,
}

/// The outcome of a step, or its fault.
pub open spec fn step_outcome(r: Result<Step, crate::message::ProgramFault>) -> Result<
    Outcome,
    crate::message::ProgramFault,
> {
    match r {
        Ok(s) => Ok(s.outcome),
        Err(e) => Err(e),
    }
}

/// The events of a step; none if it faulted.
pub open spec fn step_events(r: Result<Step, crate::message::ProgramFault>) -> Seq<Message> {
    match r {
        Ok(s) => s.events@,
        Err(_) => Seq::empty(),
    }
}

impl Instruction {
    /// Every register index and row count that the instruction carries is
    /// below 16, and every address below 4096.
    pub open spec fn wf(self) -> bool {
        match self {
            Instruction::Halt | Instruction::Clr | Instruction::Ret | Instruction::Invalid(_) => true,
            Instruction::Jmp(nnn) | Instruction::Call(nnn) | Instruction::LdI(nnn) | Instruction::Jmp0(
                nnn,
            ) => nnn < 4096,
            Instruction::Se(x, _) | Instruction::Sne(x, _) | Instruction::Ld(x, _) | Instruction::Add(
                x,
                _,
            ) | Instruction::Rnd(x, _) => x < 16,
            Instruction::SeXY(x, y) | Instruction::LdXY(x, y) | Instruction::OrXY(x, y)
            | Instruction::AndXY(x, y) | Instruction::XorXY(x, y) | Instruction::AddXY(x, y)
            | Instruction::SubXY(x, y) | Instruction::Subb(x, y) | Instruction::SneXY(x, y) => x < 16 && y
                < 16,
            Instruction::Drw(n, x, y) => n < 16 && x < 16 && y < 16,
            Instruction::Shr(x) | Instruction::Shl(x) | Instruction::Skp(x) | Instruction::Sknp(x)
            | Instruction::LdXDt(x) | Instruction::LdXK(x) | Instruction::LdDtX(x) | Instruction::LdStX(x)
            | Instruction::AddI(x) | Instruction::LdFX(x) | Instruction::LdBX(x) | Instruction::Ld0XI(x)
            | Instruction::LdI0X(x) => x < 16,
        }
    }
}

/// The instruction that an opcode stands for. The opcode is read as four
/// hexadecimal digits: the first selects the family, the second is `x`, the
/// third `y`, the fourth `n`; `kk` is the low byte and `nnn` the low three
/// digits.
pub open spec fn decode_spec(opcode: u16) -> Instruction {
    let family: u16 = opcode / 0x1000;
    let x: u8 = ((opcode / 0x100) % 0x10) as u8;
    let y: u8 = ((opcode / 0x10) % 0x10) as u8;
    let n: u8 = (opcode % 0x10) as u8;
    let kk: u8 = (opcode % 0x100) as u8;
    let nnn: u16 = opcode % 0x1000;
    if opcode == 0x0000 {
        Instruction::Halt
    } else if opcode == 0x00E0 {
        Instruction::Clr
    } else if opcode == 0x00EE {
        Instruction::Ret
    } else if family == 0x1 {
        Instruction::Jmp(nnn)
    } else if family == 0x2 {
        Instruction::Call(nnn)
    } else if family == 0x3 {
        Instruction::Se(x, kk)
    } else if family == 0x4 {
        Instruction::Sne(x, kk)
    } else if family == 0x5 && n == 0 {
        Instruction::SeXY(x, y)
    } else if family == 0x6 {
        Instruction::Ld(x, kk)
    } else if family == 0x7 {
        Instruction::Add(x, kk)
    } else if family == 0x8 && n == 0x0 {
        Instruction::LdXY(x, y)
    } else if family == 0x8 && n == 0x1 {
        Instruction::OrXY(x, y)
    } else if family == 0x8 && n == 0x2 {
        Instruction::AndXY(x, y)
    } else if family == 0x8 && n == 0x3 {
        Instruction::XorXY(x, y)
    } else if family == 0x8 && n == 0x4 {
        Instruction::AddXY(x, y)
    } else if family == 0x8 && n == 0x5 {
        Instruction::SubXY(x, y)
    } else if family == 0x8 && n == 0x6 {
        Instruction::Shr(x)
    } else if family == 0x8 && n == 0x7 {
        Instruction::Subb(x, y)
    } else if family == 0x8 && n == 0xE {
        Instruction::Shl(x)
    } else if family == 0x9 && n == 0 {
        Instruction::SneXY(x, y)
    } else if family == 0xA {
        Instruction::LdI(nnn)
    } else if family == 0xB {
        Instruction::Jmp0(nnn)
    } else if family == 0xC {
        Instruction::Rnd(x, kk)
    } else if family == 0xD {
        Instruction::Drw(n, x, y)
    } else if family == 0xE && kk == 0x9E {
        Instruction::Skp(x)
    } else if family == 0xE && kk == 0xA1 {
        Instruction::Sknp(x)
    } else if family == 0xF && kk == 0x07 {
        Instruction::LdXDt(x)
    } else if family == 0xF && kk == 0x0A {
        Instruction::LdXK(x)
    } else if family == 0xF && kk == 0x15 {
        Instruction::LdDtX(x)
    } else if family == 0xF && kk == 0x18 {
        Instruction::LdStX(x)
    } else if family == 0xF && kk == 0x1E {
        Instruction::AddI(x)
    } else if family == 0xF && kk == 0x29 {
        Instruction::LdFX(x)
    } else if family == 0xF && kk == 0x33 {
        Instruction::LdBX(x)
    } else if family == 0xF && kk == 0x55 {
        Instruction::Ld0XI(x)
    } else if family == 0xF && kk == 0x65 {
        Instruction::LdI0X(x)
    } else {
        Instruction::Invalid(opcode)
    }
}

/// The fields of an opcode are its hexadecimal digits, which is what the
/// masks and shifts of the instruction set's description select.
pub proof fn lemma_fields_are_bit_fields(opcode: u16)
    ensures
        opcode / 0x1000 == opcode >> 12,
        (opcode / 0x100) % 0x10 == (opcode & 0x0F00) >> 8,
        (opcode / 0x10) % 0x10 == (opcode & 0x00F0) >> 4,
        opcode % 0x10 == opcode & 0x000F,
        opcode % 0x100 == opcode & 0x00FF,
        opcode % 0x1000 == opcode & 0x0FFF,
{
    assert(opcode / 0x1000 == opcode >> 12) by (bit_vector);
    assert((opcode / 0x100) % 0x10 == (opcode & 0x0F00) >> 8) by (bit_vector);
    assert((opcode / 0x10) % 0x10 == (opcode & 0x00F0) >> 4) by (bit_vector);
    assert(opcode % 0x10 == opcode & 0x000F) by (bit_vector);
    assert(opcode % 0x100 == opcode & 0x00FF) by (bit_vector);
    assert(opcode % 0x1000 == opcode & 0x0FFF) by (bit_vector);
}

/// Decodes an opcode.
pub fn decode(opcode: u16) -> (instr: Instruction)
    ensures
        instr == decode_spec(opcode),
        instr.wf(),
{
    let family: u16 = opcode / 0x1000;
    let x: u8 = ((opcode / 0x100) % 0x10) as u8;
    let y: u8 = ((opcode / 0x10) % 0x10) as u8;
    let n: u8 = (opcode % 0x10) as u8;
    let kk: u8 = (opcode % 0x100) as u8;
    let nnn: u16 = opcode % 0x1000;
    if opcode == 0x0000 {
        return Instruction::Halt;
    }
    if opcode == 0x00E0 {
        return Instruction::Clr;
    }
    if opcode == 0x00EE {
        return Instruction::Ret;
    }
    match family {
        0x1 => Instruction::Jmp(nnn),
        0x2 => Instruction::Call(nnn),
        0x3 => Instruction::Se(x, kk),
        0x4 => Instruction::Sne(x, kk),
        0x5 => if n == 0 {
            Instruction::SeXY(x, y)
        } else {
            Instruction::Invalid(opcode)
        },
        0x6 => Instruction::Ld(x, kk),
        0x7 => Instruction::Add(x, kk),
        0x8 => match n {
            0x0 => Instruction::LdXY(x, y),
            0x1 => Instruction::OrXY(x, y),
            0x2 => Instruction::AndXY(x, y),
            0x3 => Instruction::XorXY(x, y),
            0x4 => Instruction::AddXY(x, y),
            0x5 => Instruction::SubXY(x, y),
            0x6 => Instruction::Shr(x),
            0x7 => Instruction::Subb(x, y),
            0xE => Instruction::Shl(x),
            _ => Instruction::Invalid(opcode),
        },
        0x9 => if n == 0 {
            Instruction::SneXY(x, y)
        } else {
            Instruction::Invalid(opcode)
        },
        0xA => Instruction::LdI(nnn),
        0xB => Instruction::Jmp0(nnn),
        0xC => Instruction::Rnd(x, kk),
        0xD => Instruction::Drw(n, x, y),
        0xE => match kk {
            0x9E => Instruction::Skp(x),
            0xA1 => Instruction::Sknp(x),
            _ => Instruction::Invalid(opcode),
        },
        0xF => match kk {
            0x07 => Instruction::LdXDt(x),
            0x0A => Instruction::LdXK(x),
            0x15 => Instruction::LdDtX(x),
            0x18 => Instruction::LdStX(x),
            0x1E => Instruction::AddI(x),
            0x29 => Instruction::LdFX(x),
            0x33 => Instruction::LdBX(x),
            0x55 => Instruction::Ld0XI(x),
            0x65 => Instruction::LdI0X(x),
            _ => Instruction::Invalid(opcode),
        },
        _ => Instruction::Invalid(opcode),
    }
}

} // verus!
