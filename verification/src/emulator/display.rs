use vstd::prelude::*;
use crate::message::Message;

verus! {

/// Number of pixel rows.
pub const DISPLAY_ROWS: usize = 64;

/// Number of pixel columns.
pub const DISPLAY_COLS: usize = 128;

/// The exclusive or of two bits held as bytes.
pub open spec fn xor_bit(a: u8, b: u8) -> u8 {
    if a == b { 0u8 } else { 1u8 }
}

/// Bit `p` of a sprite row, counted from the most significant bit.
pub open spec fn sprite_bit(byte: u8, p: int) -> u8 {
    (byte >> ((7 - p) as u8)) & 1
}

/// Row on which the `k`-th pixel of a sprite drawn from row `vy` lands.
/// Pixels are counted row by row, eight to a row; rows wrap around.
pub open spec fn target_row(vy: int, k: int) -> int {
    (vy + k / 8) % 64
}

/// Column on which the `k`-th pixel of a sprite drawn from column `vx`
/// lands; columns wrap around.
pub open spec fn target_col(vx: int, k: int) -> int {
    (vx + k % 8) % 128
}

/// The sprite bit that falls on `(row, col)` once the first `count` pixels
/// of the sprite were drawn from `(vx, vy)`, or 0 if none of them does.
pub open spec fn sprite_at(sprite: Seq<u8>, vx: int, vy: int, count: int, row: int, col: int) -> u8 {
    let dr: int = (row - vy) % 64;
    let dc: int = (col - vx) % 128;
    if dc < 8 && dr * 8 + dc < count { sprite_bit(sprite[dr], dc) } else { 0u8 }
}

/// What `(row, col)` shows once a framebuffer that showed `shown` there took
/// in `message`.
pub open spec fn applied_pixel(shown: u8, message: Message, row: int, col: int) -> u8 {
    match message {
        Message::Clr => 0u8,
        Message::Drw(r, c, bit) => if r == row && c == col { bit } else { shown },
        Message::ShutDown => shown,
    }
}

/// What `(row, col)` shows once a framebuffer that showed `shown` there took
/// in `events`, one after the other.
pub open spec fn replayed_pixel(shown: u8, events: Seq<Message>, row: int, col: int) -> u8
    decreases events.len(),
{
    if events.len() == 0 {
        shown
    } else {
        applied_pixel(replayed_pixel(shown, events.drop_last(), row, col), events.last(), row, col)
    }
}

/// Drawing one more sprite pixel changes what falls on its own target, which
/// no earlier pixel reached, and on no other place.
pub proof fn lemma_sprite_at_step(sprite: Seq<u8>, vx: int, vy: int, k: int, row: int, col: int)
    requires
        0 <= vx < 256,
        0 <= vy < 256,
        0 <= k < 128,
        0 <= row < 64,
        0 <= col < 128,
    ensures
        0 <= target_row(vy, k) < 64,
        0 <= target_col(vx, k) < 128,
        row == target_row(vy, k) && col == target_col(vx, k) ==> sprite_at(sprite, vx, vy, k, row, col)
            == 0 && sprite_at(sprite, vx, vy, k + 1, row, col) == sprite_bit(sprite[k / 8], k % 8),
        !(row == target_row(vy, k) && col == target_col(vx, k)) ==> sprite_at(
            sprite, vx, vy, k + 1, row, col) == sprite_at(sprite, vx, vy, k, row, col),
{
    let dr: int = (row - vy) % 64;
    let dc: int = (col - vx) % 128;
    let kr: int = k / 8;
    let kc: int = k % 8;
    assert(0 <= kr < 16 && 0 <= kc < 8 && k == kr * 8 + kc);
    if row == target_row(vy, k) && col == target_col(vx, k) {
        assert(dr == kr);
        assert(dc == kc);
    } else {
        if dc < 8 && dr * 8 + dc == k {
            assert(dr == kr && dc == kc);
            assert(row == (vy + kr) % 64);
            assert(col == (vx + kc) % 128);
        }
    }
}

/// A sprite bit is 0 or 1, and exclusive or on bytes that hold a bit is the
/// exclusive or of the bits.
pub proof fn lemma_bits(byte: u8, shift: u8, curr: u8)
    requires
        shift < 8,
        curr <= 1,
    ensures
        (byte >> shift) & 1 <= 1,
        curr ^ ((byte >> shift) & 1) == xor_bit(curr, (byte >> shift) & 1),
{
    let bit: u8 = (byte >> shift) & 1;
    assert(bit <= 1) by (bit_vector)
        requires
            bit == (byte >> shift) & 1,
    ;
    assert(curr ^ bit == (if curr == bit { 0u8 } else { 1u8 })) by (bit_vector)
        requires
            curr <= 1,
            bit <= 1,
    ;
}

/// A grid of one-bit pixels, 64 rows by 128 columns, each held as 0 or 1.
#[derive(Clone, Copy, Debug)]
pub struct Framebuffer {
    pub pixels: [[u8; 128]; 64],
}

impl Framebuffer {
    /// The pixel at `(row, col)`.
    pub open spec fn pixel(&self, row: int, col: int) -> u8 {
        self.pixels@[row]@[col]
    }

    /// Every pixel is 0 or 1.
    pub open spec fn wf(&self) -> bool {
        forall|row: int, col: int| 0 <= row < 64 && 0 <= col < 128 ==> #[trigger] self.pixel(row, col) <= 1
    }

    /// Every pixel is 0.
    pub open spec fn is_blank(&self) -> bool {
        forall|row: int, col: int| 0 <= row < 64 && 0 <= col < 128 ==> #[trigger] self.pixel(row, col) == 0
    }

    /// Whether the `k`-th pixel of the sprite is set and lands on a pixel
    /// that is set.
    pub open spec fn collides_at(&self, sprite: Seq<u8>, vx: int, vy: int, k: int) -> bool {
        sprite_bit(sprite[k / 8], k % 8) == 1 && self.pixel(target_row(vy, k), target_col(vx, k)) == 1
    }

    /// Whether one of the first `count` pixels of the sprite collides.
    pub open spec fn collides(&self, sprite: Seq<u8>, vx: int, vy: int, count: int) -> bool {
        exists|k: int| 0 <= k < count && #[trigger] self.collides_at(sprite, vx, vy, k)
    }

    /// What `(row, col)` holds once the first `count` pixels of the sprite
    /// were drawn onto this framebuffer.
    pub open spec fn drawn_pixel(&self, sprite: Seq<u8>, vx: int, vy: int, count: int, row: int, col: int) -> u8 {
        xor_bit(self.pixel(row, col), sprite_at(sprite, vx, vy, count, row, col))
    }

    /// The event for the `k`-th pixel of a sprite drawn onto this
    /// framebuffer: where it landed and what that pixel holds afterwards.
    pub open spec fn draw_event(&self, sprite: Seq<u8>, vx: int, vy: int, k: int) -> Message {
        Message::Drw(
            target_row(vy, k) as u8,
            target_col(vx, k) as u8,
            xor_bit(self.pixel(target_row(vy, k), target_col(vx, k)), sprite_bit(sprite[k / 8], k % 8)),
        )
    }

    /// Whether `after` is this framebuffer with the whole sprite drawn onto
    /// it from `(vx, vy)`.
    pub open spec fn drawn_is(&self, sprite: Seq<u8>, vx: int, vy: int, after: Framebuffer) -> bool {
        forall|row: int, col: int| 0 <= row < 64 && 0 <= col < 128 ==> #[trigger] after.pixel(row, col)
            == self.drawn_pixel(sprite, vx, vy, 8 * (sprite.len() as int), row, col)
    }

    /// Whether `events` are the events of drawing the whole sprite onto this
    /// framebuffer: one for each sprite pixel, in drawing order.
    pub open spec fn draw_events_are(&self, sprite: Seq<u8>, vx: int, vy: int, events: Seq<Message>) -> bool {
        &&& events.len() == 8 * sprite.len()
        &&& forall|k: int| 0 <= k < 8 * sprite.len() ==> #[trigger] events[k] == self.draw_event(sprite, vx, vy, k)
    }

    /// A blank framebuffer.
    pub fn new() -> (fb: Self)
        ensures
            fb.wf(),
            fb.is_blank(),
    {
        Framebuffer { pixels: [[0u8; 128]; 64] }
    }

    /// Resets every pixel to 0.
    pub fn clear(&mut self)
        ensures
            final(self).wf(),
            final(self).is_blank(),
    {
        self.pixels = [[0u8; 128]; 64];
    }

    /// Tells whether every pixel is 0 or 1.
    pub fn is_valid(&self) -> (ok: bool)
        ensures
            ok == self.wf(),
    {
        let mut row: usize = 0;
        while row < 64
            invariant
                row <= 64,
                forall|r: int, c: int| 0 <= r < row && 0 <= c < 128 ==> #[trigger] self.pixel(r, c) <= 1,
            decreases 64 - row,
        {
            let mut col: usize = 0;
            while col < 128
                invariant
                    row < 64,
                    col <= 128,
                    forall|r: int, c: int| 0 <= r < row && 0 <= c < 128 ==> #[trigger] self.pixel(r, c) <= 1,
                    forall|c: int| 0 <= c < col ==> #[trigger] self.pixel(row as int, c) <= 1,
                decreases 128 - col,
            {
                if self.pixels[row][col] > 1 {
                    assert(self.pixel(row as int, col as int) > 1);
                    return false;
                }
                col += 1;
            }
            row += 1;
        }
        true
    }

    /// Reads the pixel at `(row, col)`.
    pub fn get(&self, row: usize, col: usize) -> (bit: u8)
        requires
            row < 64,
            col < 128,
        ensures
            bit == self.pixel(row as int, col as int),
    {
        self.pixels[row][col]
    }

    /// Writes `bit` to the pixel at `(row, col)`.
    pub fn set(&mut self, row: usize, col: usize, bit: u8)
        requires
            row < 64,
            col < 128,
        ensures
            final(self).pixel(row as int, col as int) == bit,
            forall|r: int, c: int| 0 <= r < 64 && 0 <= c < 128 && !(r == row && c == col)
                ==> #[trigger] final(self).pixel(r, c) == old(self).pixel(r, c),
    {
        self.pixels[row][col] = bit;
    }

    /// Applies one event to a copy of the framebuffer that follows the
    /// interpreter's: a clear blanks it, a draw stores the bit, and the end
    /// of the run leaves it as it is.
    pub fn apply(&mut self, message: Message)
        requires
            message matches Message::Drw(row, col, _) ==> row < 64 && col < 128,
        ensures
            forall|r: int, c: int| 0 <= r < 64 && 0 <= c < 128 ==> #[trigger] final(self).pixel(r, c)
                == applied_pixel(old(self).pixel(r, c), message, r, c),
            message == Message::ShutDown ==> *final(self) == *old(self),
    {
        match message {
            Message::Clr => {
                self.clear();
            },
            Message::Drw(row, col, bit) => {
                self.set(row as usize, col as usize, bit);
            },
            Message::ShutDown => {},
        }
    }

    /// Draws the `n` sprite rows that `memory` holds from `at` on, with the
    /// top left corner at `(vx, vy)`: each sprite bit is combined by
    /// exclusive or with the pixel it lands on, coordinates wrapping round
    /// both edges. Returns whether a set sprite bit landed on a set pixel,
    /// and one event per sprite pixel in drawing order.
    pub fn blit(&mut self, memory: &[u8; 4096], at: usize, n: usize, vx: u8, vy: u8) -> (r: (bool, Vec<Message>))
        requires
            old(self).wf(),
            n < 16,
            at + n <= 4096,
        ensures
            final(self).wf(),
            old(self).drawn_is(memory@.subrange(at as int, at + n), vx as int, vy as int, *final(self)),
            r.0 == old(self).collides(memory@.subrange(at as int, at + n), vx as int, vy as int, 8 * n),
            old(self).draw_events_are(memory@.subrange(at as int, at + n), vx as int, vy as int, r.1@),
    {
        let ghost sprite = memory@.subrange(at as int, at + n);
        let mut collision: bool = false;
        let mut events: Vec<Message> = Vec::new();
        let mut k: usize = 0;
        while k < 8 * n
            invariant
                k <= 8 * n,
                n < 16,
                at + n <= 4096,
                old(self).wf(),
                self.wf(),
                sprite == memory@.subrange(at as int, at + n),
                forall|row: int, col: int| 0 <= row < 64 && 0 <= col < 128 ==> #[trigger] self.pixel(row, col)
                    == old(self).drawn_pixel(sprite, vx as int, vy as int, k as int, row, col),
                collision == old(self).collides(sprite, vx as int, vy as int, k as int),
                events@.len() == k,
                forall|j: int| 0 <= j < k ==> #[trigger] events@[j] == old(self).draw_event(
                    sprite, vx as int, vy as int, j),
            decreases 8 * n - k,
        {
            let r_off: usize = k / 8;
            let p: usize = k % 8;
            let row: usize = (vy as usize + r_off) % 64;
            let col: usize = (vx as usize + p) % 128;
            let byte: u8 = memory[at + r_off];
            let shift: u8 = (7 - p) as u8;
            let bit: u8 = (byte >> shift) & 1;
            let curr: u8 = self.get(row, col);
            let next: u8 = curr ^ bit;
            let ghost before = *self;
            let ghost was = collision;
            proof {
                assert(sprite[r_off as int] == byte);
                assert(bit == sprite_bit(sprite[k as int / 8], k as int % 8));
                lemma_bits(byte, shift, curr);
                lemma_sprite_at_step(sprite, vx as int, vy as int, k as int, row as int, col as int);
                assert(curr == old(self).pixel(row as int, col as int));
            }
            if curr == 1 && bit == 1 {
                collision = true;
            }
            self.set(row, col, next);
            events.push(Message::Drw(row as u8, col as u8, next));
            proof {
                assert forall|r2: int, c2: int| 0 <= r2 < 64 && 0 <= c2 < 128 implies #[trigger] self.pixel(r2, c2)
                    == old(self).drawn_pixel(sprite, vx as int, vy as int, k + 1, r2, c2) by {
                    lemma_sprite_at_step(sprite, vx as int, vy as int, k as int, r2, c2);
                    if r2 == row && c2 == col {
                    } else {
                        assert(self.pixel(r2, c2) == before.pixel(r2, c2));
                    }
                }
                assert(self.wf());
                if was {
                    let w = choose|w: int| 0 <= w < k && #[trigger] old(self).collides_at(
                        sprite, vx as int, vy as int, w);
                    assert(old(self).collides_at(sprite, vx as int, vy as int, w));
                } else if collision {
                    assert(old(self).collides_at(sprite, vx as int, vy as int, k as int));
                } else {
                    assert(!old(self).collides_at(sprite, vx as int, vy as int, k as int));
                }
                assert(events@[k as int] == old(self).draw_event(sprite, vx as int, vy as int, k as int));
            }
            k += 1;
        }
        (collision, events)
    }
}

/// Drawing the same sprite at the same place twice restores every pixel,
/// because each pixel is combined with the same sprite bit both times.
pub proof fn lemma_draw_twice_restores(
    before: Framebuffer,
    once: Framebuffer,
    twice: Framebuffer,
    sprite: Seq<u8>,
    vx: int,
    vy: int,
)
    requires
        before.wf(),
        before.drawn_is(sprite, vx, vy, once),
        once.drawn_is(sprite, vx, vy, twice),
    ensures
        forall|row: int, col: int| 0 <= row < 64 && 0 <= col < 128 ==> #[trigger] twice.pixel(row, col)
            == before.pixel(row, col),
        twice == before,
{
    assert forall|row: int, col: int| 0 <= row < 64 && 0 <= col < 128 implies #[trigger] twice.pixel(row, col)
        == before.pixel(row, col) by {
        let byte: u8 = sprite[(row - vy) % 64];
        let shift: u8 = (7 - (col - vx) % 128) as u8;
        assert((byte >> shift) & 1 <= 1) by (bit_vector);
        assert(before.pixel(row, col) <= 1);
        assert(once.pixel(row, col) == before.drawn_pixel(sprite, vx, vy, 8 * (sprite.len() as int), row, col));
        assert(twice.pixel(row, col) == once.drawn_pixel(sprite, vx, vy, 8 * (sprite.len() as int), row, col));
    }
    lemma_same_pixels(twice, before);
}

/// Two framebuffers that agree on every pixel are equal.
pub proof fn lemma_same_pixels(a: Framebuffer, b: Framebuffer)
    requires
        forall|row: int, col: int| 0 <= row < 64 && 0 <= col < 128 ==> #[trigger] a.pixel(row, col) == b.pixel(
            row,
            col,
        ),
    ensures
        a == b,
{
    assert forall|row: int| 0 <= row < 64 implies a.pixels[row] == b.pixels[row] by {
        assert forall|col: int| 0 <= col < 128 implies a.pixels[row][col] == b.pixels[row][col] by {
            assert(a.pixel(row, col) == b.pixel(row, col));
        }
        assert(a.pixels[row] =~= b.pixels[row]);
    }
    assert(a.pixels =~= b.pixels);
}

/// The events of the first `count` sprite pixels, taken in by a copy of the
/// framebuffer as it was before the draw, leave the copy showing what the
/// draw has reached by then.
pub proof fn lemma_replay_prefix(
    before: Framebuffer,
    sprite: Seq<u8>,
    vx: int,
    vy: int,
    events: Seq<Message>,
    count: int,
    row: int,
    col: int,
)
    requires
        before.wf(),
        sprite.len() < 16,
        0 <= vx < 256,
        0 <= vy < 256,
        before.draw_events_are(sprite, vx, vy, events),
        0 <= count <= events.len(),
        0 <= row < 64,
        0 <= col < 128,
    ensures
        replayed_pixel(before.pixel(row, col), events.take(count), row, col) == before.drawn_pixel(
            sprite, vx, vy, count, row, col),
    decreases count,
{
    let shown: u8 = before.pixel(row, col);
    if count == 0 {
        assert(events.take(0).len() == 0);
    } else {
        let k: int = count - 1;
        lemma_replay_prefix(before, sprite, vx, vy, events, k, row, col);
        lemma_sprite_at_step(sprite, vx, vy, k, row, col);
        assert(events.take(count).drop_last() =~= events.take(k));
        assert(events.take(count).last() == events[k]);
        assert(events[k] == before.draw_event(sprite, vx, vy, k));
        assert(before.pixel(target_row(vy, k), target_col(vx, k)) <= 1);
    }
}

/// The events of a draw carry the whole change: a copy of the framebuffer
/// as it was before the draw, taking in the events in order, ends up equal
/// to the framebuffer after the draw.
pub proof fn lemma_events_carry_the_draw(
    before: Framebuffer,
    after: Framebuffer,
    sprite: Seq<u8>,
    vx: int,
    vy: int,
    events: Seq<Message>,
)
    requires
        before.wf(),
        sprite.len() < 16,
        0 <= vx < 256,
        0 <= vy < 256,
        before.drawn_is(sprite, vx, vy, after),
        before.draw_events_are(sprite, vx, vy, events),
    ensures
        forall|row: int, col: int| 0 <= row < 64 && 0 <= col < 128 ==> replayed_pixel(
            before.pixel(row, col), events, row, col) == #[trigger] after.pixel(row, col),
{
    assert forall|row: int, col: int| 0 <= row < 64 && 0 <= col < 128 implies replayed_pixel(
        before.pixel(row, col), events, row, col) == #[trigger] after.pixel(row, col) by {
        lemma_replay_prefix(before, sprite, vx, vy, events, events.len() as int, row, col);
        assert(events.take(events.len() as int) =~= events);
    }
}

/// A sprite drawn onto a blank framebuffer never collides, and a sprite
/// with a set pixel that lands on a set pixel always does.
pub proof fn lemma_collision(fb: Framebuffer, sprite: Seq<u8>, vx: int, vy: int, count: int)
    ensures
        fb.is_blank() ==> !fb.collides(sprite, vx, vy, count),
        forall|k: int| 0 <= k < count && sprite_bit(sprite[k / 8], k % 8) == 1 && fb.pixel(
            target_row(vy, k), target_col(vx, k)) == 1 ==> fb.collides(sprite, vx, vy, count),
{
    if fb.is_blank() && fb.collides(sprite, vx, vy, count) {
        let k = choose|k: int| 0 <= k < count && #[trigger] fb.collides_at(sprite, vx, vy, k);
        assert(fb.pixel(target_row(vy, k), target_col(vx, k)) == 0);
    }
    assert forall|k: int| 0 <= k < count && sprite_bit(sprite[k / 8], k % 8) == 1 && fb.pixel(
        target_row(vy, k), target_col(vx, k)) == 1 implies fb.collides(sprite, vx, vy, count) by {
        assert(fb.collides_at(sprite, vx, vy, k));
    }
}

} // verus!
