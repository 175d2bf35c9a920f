use vstd::prelude::*;
use crate::emulator::display::{applied_pixel, Framebuffer};
use crate::message::Message;

verus! {

/// Edge of the square that shows one pixel, in units of the screen grid.
pub const PIXEL_SIZE: i32 = 10;

/// What the screen has to do for one event.
#[derive(Clone, Copy, Debug, PartialEq, Eq, Structural)]
pub enum ViewUpdate {
    /// Nothing changes on the screen.
    Nothing,
    /// Every square turns dark.
    BlankAll,
    /// The square whose corner is at the given column and row of the screen
    /// grid turns light (`true`) or dark.
    Paint(i32, i32, bool),
}

/// The presenting side's model: its own copy of the framebuffer, kept in
/// step with the interpreter's by the events it receives.
#[derive(Clone, Copy, Debug)]
pub struct Application {
    pub display: Framebuffer,
}

impl Application {
    /// A model with a blank framebuffer.
    pub fn new() -> (app: Self)
        ensures
            app.display.wf(),
            app.display.is_blank(),
    {
        Self { display: Framebuffer::new() }
    }

    /// Takes one event into the model and says what the screen has to do.
    /// A clear blanks model and screen. A draw stores the bit and paints
    /// the pixel's square, light exactly when the bit is 1. The end of the
    /// run changes nothing.
    pub fn update(&mut self, message: Message) -> (view: ViewUpdate)
        requires
            message matches Message::Drw(row, col, _) ==> row < 64 && col < 128,
        ensures
            forall|r: int, c: int| 0 <= r < 64 && 0 <= c < 128 ==> #[trigger] final(self).display.pixel(r, c)
                == applied_pixel(old(self).display.pixel(r, c), message, r, c),
            message == Message::Clr ==> view == ViewUpdate::BlankAll,
            message == Message::ShutDown ==> *final(self) == *old(self) && view == ViewUpdate::Nothing,
            message matches Message::Drw(row, col, bit) ==> view == ViewUpdate::Paint(
                (col * PIXEL_SIZE) as i32, (row * PIXEL_SIZE) as i32, bit == 1),
    {
        self.display.apply(message);
        match message {
            Message::Clr => ViewUpdate::BlankAll,
            Message::Drw(row, col, bit) => ViewUpdate::Paint(
                col as i32 * PIXEL_SIZE,
                row as i32 * PIXEL_SIZE,
                bit == 1,
            ),
            Message::ShutDown => ViewUpdate::Nothing,
        }
    }
}

} // verus!
