use chip8::emulator::display::Framebuffer;
use chip8::message::Message;

fn memory_with(at: usize, bytes: &[u8]) -> [u8; 4096] {
    let mut memory = [0u8; 4096];
    memory[at..at + bytes.len()].copy_from_slice(bytes);
    memory
}

#[test]
fn new_framebuffer_is_blank() {
    let fb = Framebuffer::new();
    assert_eq!(fb.pixels, [[0u8; 128]; 64]);
}

#[test]
fn blit_draws_most_significant_bit_first() {
    let memory = memory_with(0x200, &[0b1010_0001]);
    let mut fb = Framebuffer::new();
    let (collision, events) = fb.blit(&memory, 0x200, 1, 3, 2);
    assert!(!collision);
    let row: Vec<u8> = (3..11).map(|c| fb.get(2, c)).collect();
    assert_eq!(row, vec![1, 0, 1, 0, 0, 0, 0, 1]);
    assert_eq!(
        events,
        vec![
            Message::Drw(2, 3, 1),
            Message::Drw(2, 4, 0),
            Message::Drw(2, 5, 1),
            Message::Drw(2, 6, 0),
            Message::Drw(2, 7, 0),
            Message::Drw(2, 8, 0),
            Message::Drw(2, 9, 0),
            Message::Drw(2, 10, 1),
        ]
    );
}

#[test]
fn blit_wraps_round_both_edges() {
    let memory = memory_with(0x200, &[0xFF, 0xFF]);
    let mut fb = Framebuffer::new();
    let (collision, events) = fb.blit(&memory, 0x200, 2, 124, 63);
    assert!(!collision);
    assert_eq!(events.len(), 16);
    for col in [124usize, 125, 126, 127, 0, 1, 2, 3] {
        assert_eq!(fb.get(63, col), 1);
        assert_eq!(fb.get(0, col), 1);
    }
    assert_eq!(fb.get(63, 4), 0);
    assert_eq!(fb.get(1, 0), 0);
    assert_eq!(events[4], Message::Drw(63, 0, 1));
    assert_eq!(events[8], Message::Drw(0, 124, 1));
    let lit: usize = fb.pixels.iter().map(|r| r.iter().filter(|&&p| p == 1).count()).sum();
    assert_eq!(lit, 16);
}

#[test]
fn blit_wraps_coordinates_beyond_the_grid() {
    let memory = memory_with(0x200, &[0x80]);
    let mut fb = Framebuffer::new();
    fb.blit(&memory, 0x200, 1, 130, 70);
    assert_eq!(fb.get(6, 2), 1);
    let lit: usize = fb.pixels.iter().map(|r| r.iter().filter(|&&p| p == 1).count()).sum();
    assert_eq!(lit, 1);
}

#[test]
fn drawing_twice_restores_the_framebuffer() {
    let memory = memory_with(0x300, &[0xF0, 0x90, 0x90, 0x90, 0xF0, 0x3C]);
    let mut fb = Framebuffer::new();
    fb.blit(&memory, 0x305, 1, 60, 30);
    let before = fb;
    let (first, _) = fb.blit(&memory, 0x300, 5, 60, 28);
    assert!(first);
    assert_ne!(fb.pixels, before.pixels);
    let (second, events) = fb.blit(&memory, 0x300, 5, 60, 28);
    assert!(second);
    assert_eq!(fb.pixels, before.pixels);
    assert_eq!(events.len(), 40);
}

#[test]
fn overlapping_sprites_collide_and_blank_regions_do_not() {
    let memory = memory_with(0x200, &[0b1111_1111, 0b0000_0001]);
    let mut fb = Framebuffer::new();
    let (on_blank, _) = fb.blit(&memory, 0x200, 1, 0, 0);
    assert!(!on_blank);
    let (overlap, events) = fb.blit(&memory, 0x201, 1, 0, 0);
    assert!(overlap);
    assert_eq!(fb.get(0, 7), 0);
    assert_eq!(events[7], Message::Drw(0, 7, 0));
    assert_eq!(events[0], Message::Drw(0, 0, 1));
    let (elsewhere, _) = fb.blit(&memory, 0x200, 1, 0, 1);
    assert!(!elsewhere);
}

#[test]
fn empty_sprite_draws_nothing() {
    let memory = memory_with(0x200, &[0xFF]);
    let mut fb = Framebuffer::new();
    let (collision, events) = fb.blit(&memory, 4096, 0, 0, 0);
    assert!(!collision);
    assert!(events.is_empty());
    assert_eq!(fb.pixels, [[0u8; 128]; 64]);
}

#[test]
fn events_replayed_on_a_copy_give_the_same_picture() {
    let memory = memory_with(0x200, &[0xA5, 0x5A, 0xFF]);
    let mut fb = Framebuffer::new();
    let mut shown = Framebuffer::new();
    for (vx, vy) in [(0u8, 0u8), (4, 1), (125, 62), (4, 1)] {
        let (_, events) = fb.blit(&memory, 0x200, 3, vx, vy);
        for event in events {
            shown.apply(event);
        }
        assert_eq!(shown.pixels, fb.pixels);
    }
    shown.apply(Message::ShutDown);
    assert_eq!(shown.pixels, fb.pixels);
    shown.apply(Message::Clr);
    assert_eq!(shown.pixels, [[0u8; 128]; 64]);
    fb.clear();
    assert_eq!(fb.pixels, [[0u8; 128]; 64]);
    fb.set(5, 6, 1);
    assert_eq!(fb.get(5, 6), 1);
    assert_eq!(fb.get(6, 5), 0);
}
