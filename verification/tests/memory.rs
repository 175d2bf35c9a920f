use chip8::emulator::memory::{FONT, RAM};
use chip8::emulator::Emulator;
use chip8::message::ProgramFault;

#[test]
fn new_memory_holds_the_font_and_zeros() {
    let ram = RAM::new();
    assert_eq!(&ram.memory[0..5], &[0xF0, 0x90, 0x90, 0x90, 0xF0]);
    assert_eq!(&ram.memory[75..80], &[0xF0, 0x80, 0xF0, 0x80, 0x80]);
    assert_eq!(&ram.memory[0..0x50], &FONT[..]);
    assert!(ram.memory[0x50..].iter().all(|&b| b == 0));
    assert_eq!(ram.stack, [0u16; 16]);
    assert_eq!(ram.last_program_end, 0x200);
    assert_eq!(ram.last_sprite_end, 0x50);
}

#[test]
fn load_program_starts_at_0x200() {
    let mut ram = RAM::new();
    assert_eq!(ram.load_program(vec![0xA0, 0x00, 0xD0, 0x05]), Ok(()));
    assert_eq!(&ram.memory[0x1FF..0x205], &[0, 0xA0, 0x00, 0xD0, 0x05, 0]);
    assert_eq!(ram.last_program_end, 0x204);
    assert_eq!(&ram.memory[0..5], &[0xF0, 0x90, 0x90, 0x90, 0xF0]);
}

#[test]
fn repeated_loads_concatenate() {
    let mut ram = RAM::new();
    assert_eq!(ram.load_program(vec![1, 2, 3]), Ok(()));
    assert_eq!(ram.load_program(vec![4, 5]), Ok(()));
    assert_eq!(&ram.memory[0x200..0x206], &[1, 2, 3, 4, 5, 0]);
    assert_eq!(ram.last_program_end, 0x205);
}

#[test]
fn load_program_refuses_what_does_not_fit() {
    let mut ram = RAM::new();
    assert_eq!(ram.load_program(vec![7; 4096 - 0x200 + 1]), Err(ProgramFault::MemoryIndexOutOfBounds));
    assert_eq!(ram.last_program_end, 0x200);
    assert!(ram.memory[0x50..].iter().all(|&b| b == 0));
    assert_eq!(ram.load_program(vec![7; 4096 - 0x200]), Ok(()));
    assert_eq!(ram.last_program_end, 4096);
    assert_eq!(ram.memory[4095], 7);
    assert_eq!(ram.load_program(vec![1]), Err(ProgramFault::MemoryIndexOutOfBounds));
    assert_eq!(ram.load_program(vec![]), Ok(()));
}

#[test]
fn emulator_loads_into_its_memory() {
    let mut emulator = Emulator::new();
    assert_eq!(emulator.cpu.program_counter, 0x200);
    assert_eq!(emulator.display.pixels, [[0u8; 128]; 64]);
    assert_eq!(emulator.load_program(vec![0x12, 0x34]), Ok(()));
    assert_eq!(&emulator.memory.memory[0x200..0x202], &[0x12, 0x34]);
    assert_eq!(emulator.load_program(vec![0; 4096]), Err(ProgramFault::MemoryIndexOutOfBounds));
    assert_eq!(&emulator.memory.memory[0x200..0x203], &[0x12, 0x34, 0]);
}
