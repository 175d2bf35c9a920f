use chip8::emulator::cpu::CPU;
use chip8::emulator::display::Framebuffer;
use chip8::emulator::instruction::{decode, Instruction, Outcome};
use chip8::emulator::Emulator;
use chip8::message::{Message, ProgramFault};

fn run_to_end(emulator: &mut Emulator, limit: usize) -> (Result<Outcome, ProgramFault>, Vec<Message>) {
    let mut all = Vec::new();
    for _ in 0..limit {
        match emulator.step(0, 0) {
            Ok(step) => {
                all.extend(step.events);
                if step.outcome != Outcome::Continue {
                    return (Ok(step.outcome), all);
                }
            }
            Err(fault) => return (Err(fault), all),
        }
    }
    (Ok(Outcome::Continue), all)
}

#[test]
fn draws_the_glyph_for_zero_then_halts() {
    let mut emulator = Emulator::new();
    emulator.load_program(vec![0xA0, 0x00, 0xD0, 0x05, 0x00, 0x00]).unwrap();
    let (outcome, events) = run_to_end(&mut emulator, 10);
    assert_eq!(outcome, Ok(Outcome::Halted));
    let glyph: [u8; 5] = [0xF0, 0x90, 0x90, 0x90, 0xF0];
    for row in 0..64usize {
        for col in 0..128usize {
            let expected = if row < 5 && col < 8 { (glyph[row] >> (7 - col)) & 1 } else { 0 };
            assert_eq!(emulator.display.get(row, col), expected);
        }
    }
    assert_eq!(events.len(), 41);
    assert_eq!(events.last(), Some(&Message::ShutDown));
    assert_eq!(events[0], Message::Drw(0, 0, 1));
    assert_eq!(events[4], Message::Drw(0, 4, 0));
    assert_eq!(events[9], Message::Drw(1, 1, 0));
    assert_eq!(emulator.cpu.registers[0xF], 0);
    assert_eq!(emulator.cpu.program_counter, 0x206);
}

#[test]
fn call_and_return_through_the_loop() {
    let mut emulator = Emulator::new();
    // 0x200: call 0x206; 0x202: halt; 0x206: return
    emulator.load_program(vec![0x22, 0x06, 0x00, 0x00, 0x00, 0x00, 0x00, 0xEE]).unwrap();
    let step = emulator.step(0, 0).unwrap();
    assert_eq!(step.outcome, Outcome::Continue);
    assert!(step.events.is_empty());
    assert_eq!(emulator.cpu.program_counter, 0x206);
    assert_eq!(emulator.cpu.stack_pointer, 1);
    assert_eq!(emulator.memory.stack[0], 0x202);
    emulator.step(0, 0).unwrap();
    assert_eq!(emulator.cpu.program_counter, 0x202);
    assert_eq!(emulator.cpu.stack_pointer, 0);
    let step = emulator.step(0, 0).unwrap();
    assert_eq!(step.outcome, Outcome::Halted);
    assert_eq!(step.events, vec![Message::ShutDown]);
}

#[test]
fn endless_recursion_overflows_the_stack() {
    let mut emulator = Emulator::new();
    emulator.load_program(vec![0x22, 0x00]).unwrap();
    for depth in 1..=16usize {
        assert!(emulator.step(0, 0).is_ok());
        assert_eq!(emulator.cpu.stack_pointer, depth);
    }
    let fault = emulator.step(0, 0).unwrap_err();
    assert_eq!(fault, ProgramFault::StackOverflow);
    assert_eq!(emulator.cpu.stack_pointer, 16);
    assert_eq!(emulator.memory.stack, [0x202u16; 16]);
    assert_eq!(&emulator.memory.memory[0x200..0x202], &[0x22, 0x00]);
}

#[test]
fn return_without_call_underflows() {
    let mut emulator = Emulator::new();
    emulator.load_program(vec![0x00, 0xEE]).unwrap();
    assert_eq!(emulator.step(0, 0).unwrap_err(), ProgramFault::StackUnderflow);
}

#[test]
fn fetch_outside_memory_faults() {
    let mut emulator = Emulator::new();
    emulator.cpu.program_counter = 4095;
    let before = emulator.cpu;
    assert_eq!(emulator.step(0, 0).unwrap_err(), ProgramFault::ProgramCounterOutOfBounds);
    assert_eq!(emulator.cpu.program_counter, before.program_counter);
    emulator.cpu.program_counter = 4094;
    // the last two bytes are zero: a halt
    assert_eq!(emulator.step(0, 0).unwrap().outcome, Outcome::Halted);
    assert_eq!(emulator.cpu.program_counter, 4096);
    assert_eq!(emulator.step(0, 0).unwrap_err(), ProgramFault::ProgramCounterOutOfBounds);
}

#[test]
fn clear_blanks_the_framebuffer_and_says_so() {
    let mut emulator = Emulator::new();
    emulator.load_program(vec![0xD0, 0x05, 0x00, 0xE0]).unwrap();
    emulator.step(0, 0).unwrap();
    assert_eq!(emulator.display.get(0, 0), 1);
    let step = emulator.step(0, 0).unwrap();
    assert_eq!(step.events, vec![Message::Clr]);
    assert_eq!(step.outcome, Outcome::Continue);
    assert_eq!(emulator.display.pixels, [[0u8; 128]; 64]);
}

#[test]
fn wait_for_key_hands_control_to_the_host() {
    let mut emulator = Emulator::new();
    emulator.load_program(vec![0xF3, 0x0A]).unwrap();
    let step = emulator.step(0, 0).unwrap();
    assert_eq!(step.outcome, Outcome::WaitForKey(3));
    emulator.cpu.ld_x_k(3, 0xB);
    assert_eq!(emulator.cpu.registers[3], 0xB);
    assert_eq!(emulator.cpu.program_counter, 0x202);
}

#[test]
fn unrecognized_opcode_changes_nothing_but_the_program_counter() {
    let mut emulator = Emulator::new();
    emulator.load_program(vec![0x80, 0x1F, 0x51, 0x21]).unwrap();
    let before = emulator.clone();
    let step = emulator.step(0, 0).unwrap();
    assert_eq!(step.outcome, Outcome::Unrecognized(0x801F));
    let step = emulator.step(0, 0).unwrap();
    assert_eq!(step.outcome, Outcome::Unrecognized(0x5121));
    assert_eq!(emulator.cpu.program_counter, 0x204);
    assert_eq!(emulator.cpu.registers, before.cpu.registers);
    assert_eq!(emulator.memory.memory, before.memory.memory);
}

#[test]
fn random_and_keypad_reach_the_instructions() {
    let mut emulator = Emulator::new();
    // V1 = random & 0x3C; V2 = 4; skip if key V2 held; (skipped) halt; V3 = 1
    emulator
        .load_program(vec![0xC1, 0x3C, 0x62, 0x04, 0xE2, 0x9E, 0x00, 0x00, 0x63, 0x01, 0xE2, 0xA1, 0x64, 0x01])
        .unwrap();
    emulator.step(0, 0xFF).unwrap();
    assert_eq!(emulator.cpu.registers[1], 0x3C);
    emulator.step(0, 0).unwrap();
    emulator.step(1 << 4, 0).unwrap();
    assert_eq!(emulator.cpu.program_counter, 0x208);
    emulator.step(0, 0).unwrap();
    assert_eq!(emulator.cpu.registers[3], 1);
    emulator.step(1 << 4, 0).unwrap();
    assert_eq!(emulator.cpu.program_counter, 0x20C);
}

#[test]
fn arithmetic_program() {
    let mut emulator = Emulator::new();
    // V0 = 200; V1 = 100; V0 += V1; V2 = V0; V2 <<= 1; I = 0x300; store BCD of V0; V3 = 5; V3 += 0xFF
    emulator
        .load_program(vec![
            0x60, 200, 0x61, 100, 0x80, 0x14, 0x82, 0x00, 0x82, 0x0E, 0xA3, 0x00, 0xF0, 0x33, 0x63, 5, 0x73,
            0xFF, 0x00, 0x00,
        ])
        .unwrap();
    let (outcome, events) = run_to_end(&mut emulator, 100);
    assert_eq!(outcome, Ok(Outcome::Halted));
    assert_eq!(events, vec![Message::ShutDown]);
    assert_eq!(emulator.cpu.registers[0], 44);
    assert_eq!(emulator.cpu.registers[2], 88);
    assert_eq!(emulator.cpu.registers[0xF], 0);
    assert_eq!(emulator.cpu.registers[3], 4);
    assert_eq!(&emulator.memory.memory[0x300..0x303], &[0, 4, 4]);
}

#[test]
fn register_comparisons_and_jumps_in_the_loop() {
    let mut cpu = CPU::new();
    let mut memory = [0u8; 4096];
    let mut stack = [0u16; 16];
    let mut display = Framebuffer::new();
    let program: [u8; 12] = [0x60, 0x07, 0x61, 0x07, 0x50, 0x10, 0x00, 0x00, 0x90, 0x10, 0xB3, 0x00];
    memory[0x200..0x20C].copy_from_slice(&program);
    for _ in 0..3 {
        cpu.step(&mut memory, &mut stack, &mut display, 0, 0).unwrap();
    }
    assert_eq!(cpu.program_counter, 0x208);
    cpu.step(&mut memory, &mut stack, &mut display, 0, 0).unwrap();
    assert_eq!(cpu.program_counter, 0x20A);
    cpu.step(&mut memory, &mut stack, &mut display, 0, 0).unwrap();
    assert_eq!(cpu.program_counter, 0x307);
    assert_eq!(cpu.i, 0);
}

#[test]
fn decode_reads_the_fields() {
    assert_eq!(decode(0x0000), Instruction::Halt);
    assert_eq!(decode(0x00E0), Instruction::Clr);
    assert_eq!(decode(0x00EE), Instruction::Ret);
    assert_eq!(decode(0x0123), Instruction::Invalid(0x0123));
    assert_eq!(decode(0x1ABC), Instruction::Jmp(0xABC));
    assert_eq!(decode(0x2ABC), Instruction::Call(0xABC));
    assert_eq!(decode(0x3A12), Instruction::Se(0xA, 0x12));
    assert_eq!(decode(0x4A12), Instruction::Sne(0xA, 0x12));
    assert_eq!(decode(0x5AB0), Instruction::SeXY(0xA, 0xB));
    assert_eq!(decode(0x5AB1), Instruction::Invalid(0x5AB1));
    assert_eq!(decode(0x6A12), Instruction::Ld(0xA, 0x12));
    assert_eq!(decode(0x7A12), Instruction::Add(0xA, 0x12));
    assert_eq!(decode(0x8AB0), Instruction::LdXY(0xA, 0xB));
    assert_eq!(decode(0x8AB1), Instruction::OrXY(0xA, 0xB));
    assert_eq!(decode(0x8AB2), Instruction::AndXY(0xA, 0xB));
    assert_eq!(decode(0x8AB3), Instruction::XorXY(0xA, 0xB));
    assert_eq!(decode(0x8AB4), Instruction::AddXY(0xA, 0xB));
    assert_eq!(decode(0x8AB5), Instruction::SubXY(0xA, 0xB));
    assert_eq!(decode(0x8AB6), Instruction::Shr(0xA));
    assert_eq!(decode(0x8AB7), Instruction::Subb(0xA, 0xB));
    assert_eq!(decode(0x8ABE), Instruction::Shl(0xA));
    assert_eq!(decode(0x8AB8), Instruction::Invalid(0x8AB8));
    assert_eq!(decode(0x9AB0), Instruction::SneXY(0xA, 0xB));
    assert_eq!(decode(0x9AB3), Instruction::Invalid(0x9AB3));
    assert_eq!(decode(0xAABC), Instruction::LdI(0xABC));
    assert_eq!(decode(0xBABC), Instruction::Jmp0(0xABC));
    assert_eq!(decode(0xCA12), Instruction::Rnd(0xA, 0x12));
    assert_eq!(decode(0xDAB5), Instruction::Drw(5, 0xA, 0xB));
    assert_eq!(decode(0xEA9E), Instruction::Skp(0xA));
    assert_eq!(decode(0xEAA1), Instruction::Sknp(0xA));
    assert_eq!(decode(0xEA00), Instruction::Invalid(0xEA00));
    assert_eq!(decode(0xFA07), Instruction::LdXDt(0xA));
    assert_eq!(decode(0xFA0A), Instruction::LdXK(0xA));
    assert_eq!(decode(0xFA15), Instruction::LdDtX(0xA));
    assert_eq!(decode(0xFA18), Instruction::LdStX(0xA));
    assert_eq!(decode(0xFA1E), Instruction::AddI(0xA));
    assert_eq!(decode(0xFA29), Instruction::LdFX(0xA));
    assert_eq!(decode(0xFA33), Instruction::LdBX(0xA));
    assert_eq!(decode(0xFA55), Instruction::Ld0XI(0xA));
    assert_eq!(decode(0xFA65), Instruction::LdI0X(0xA));
    assert_eq!(decode(0xFAFF), Instruction::Invalid(0xFAFF));
}

#[test]
fn validity_follows_the_parts() {
    let mut emulator = Emulator::new();
    assert!(emulator.is_valid());
    emulator.cpu.stack_pointer = 16;
    assert!(emulator.is_valid());
    emulator.cpu.stack_pointer = 17;
    assert!(!emulator.cpu.is_valid());
    assert!(!emulator.is_valid());
    emulator.cpu.stack_pointer = 0;
    emulator.display.pixels[63][127] = 2;
    assert!(!emulator.display.is_valid());
    assert!(!emulator.is_valid());
    emulator.display.pixels[63][127] = 1;
    assert!(emulator.is_valid());
    emulator.memory.last_program_end = 0x1FF;
    assert!(!emulator.memory.is_valid());
    emulator.memory.last_program_end = 4097;
    assert!(!emulator.is_valid());
    emulator.memory.last_program_end = 4096;
    assert!(emulator.is_valid());
}
