use chip8::application::{Application, ViewUpdate, PIXEL_SIZE};
use chip8::message::Message;

#[test]
fn update_follows_the_events() {
    let mut app = Application::new();
    assert_eq!(app.display.pixels, [[0u8; 128]; 64]);
    assert_eq!(app.update(Message::Drw(3, 100, 1)), ViewUpdate::Paint(1000, 30, true));
    assert_eq!(app.display.get(3, 100), 1);
    assert_eq!(app.update(Message::Drw(63, 127, 1)), ViewUpdate::Paint(127 * PIXEL_SIZE, 63 * PIXEL_SIZE, true));
    assert_eq!(app.update(Message::Drw(3, 100, 0)), ViewUpdate::Paint(1000, 30, false));
    assert_eq!(app.display.get(3, 100), 0);
    assert_eq!(app.display.get(63, 127), 1);
    assert_eq!(app.update(Message::ShutDown), ViewUpdate::Nothing);
    assert_eq!(app.display.get(63, 127), 1);
    assert_eq!(app.update(Message::Clr), ViewUpdate::BlankAll);
    assert_eq!(app.display.pixels, [[0u8; 128]; 64]);
}
