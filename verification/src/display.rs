//! The monochrome 64 x 32 pixel display.
//!
//! Sprites are blitted with exclusive or into a working buffer, one row of
//! eight pixels at a time; coordinates wrap around both edges. A frame
//! becomes visible when the working buffer is committed.

use vstd::prelude::*;

verus! {

/// Pixels in a row.
pub const DISPLAY_WIDTH: usize = 64;

/// Rows on the display.
pub const DISPLAY_HEIGHT: usize = 32;

/// Whether the sprite row `byte` has a set pixel in column `col`, counted
/// from the left, so that column 0 is the most significant bit.
pub open spec fn sprite_bit(byte: u8, col: int) -> bool {
    0 <= col < 8 && byte & (0x80u8 >> (col as u8)) != 0
}

/// The sprite column that covers the pixel stored at index `i` when a sprite
/// row is drawn with its left edge at `x`.
pub open spec fn column_of(x: int, i: int) -> int {
    (i - x) % 64
}

/// Whether drawing the sprite row `byte` at `(x, y)` flips the pixel stored
/// at index `i` of the row-major pixel buffer.
pub open spec fn flips(x: int, y: int, byte: u8, i: int) -> bool {
    i / 64 == y % 32 && sprite_bit(byte, column_of(x, i))
}

/// What a display holds: the working buffer and the committed frame, both
/// row-major sequences of 64 * 32 pixels.
pub struct DisplayView {
    pub pixels: Seq<bool>,
    pub frame: Seq<bool>,
}

impl DisplayView {
    /// The display with a blank working buffer.
    pub open spec fn clear(self) -> DisplayView {
        DisplayView { pixels: Seq::new(2048, |i: int| false), frame: self.frame }
    }

    /// The display after the sprite row `byte` was blitted at `(x, y)`.
    pub open spec fn draw_byte(self, x: int, y: int, byte: u8) -> DisplayView {
        DisplayView {
            pixels: Seq::new(2048, |i: int| self.pixels[i] != flips(x, y, byte, i)),
            frame: self.frame,
        }
    }

    /// Whether blitting the sprite row `byte` at `(x, y)` turns a lit pixel
    /// off.
    pub open spec fn collides(self, x: int, y: int, byte: u8) -> bool {
        exists|i: int| 0 <= i < 2048 && self.pixels[i] && #[trigger] flips(x, y, byte, i)
    }

    /// The display after the working buffer was committed.
    pub open spec fn update(self) -> DisplayView {
        DisplayView { pixels: self.pixels, frame: self.pixels }
    }
}

/// The display: a working buffer that sprites are drawn into and the
/// frame that was last committed, both row by row.
#[derive(Debug)]
pub struct Display {
    pub pixels: [bool; 2048],
    pub frame: [bool; 2048],
}

impl View for Display {
    type V = DisplayView;

    open spec fn view(&self) -> DisplayView {
        DisplayView { pixels: self.pixels@, frame: self.frame@ }
    }
}

impl Display {
    /// A display whose working buffer and committed frame are blank.
    pub fn new() -> (display: Display)
        ensures
            display@.pixels =~= Seq::new(2048, |i: int| false),
            display@.frame =~= Seq::new(2048, |i: int| false),
    {
        Display { pixels: [false; 2048], frame: [false; 2048] }
    }

    /// Blanks the working buffer.
    pub fn clear(&mut self)
        ensures
            final(self)@ == old(self)@.clear(),
    {
        self.pixels = [false; 2048];
        assert(self@.pixels =~= old(self)@.clear().pixels);
    }

    /// Blits one sprite row at `(x, y)` and reports whether a lit pixel was
    /// turned off.
    pub fn draw_byte(&mut self, x: usize, y: usize, byte: u8) -> (collision: bool)
        ensures
            final(self)@ == old(self)@.draw_byte(x as int, y as int, byte),
            collision == old(self)@.collides(x as int, y as int, byte),
    {
        let row: usize = y % 32;
        let left: usize = x % 64;
        let mut collision: bool = false;
        let mut col: u8 = 0;
        while col < 8
            invariant
                col <= 8,
                row == y % 32,
                left == x % 64,
                self.frame == old(self).frame,
                forall|i: int|
                    0 <= i < 2048 ==> #[trigger] self.pixels@[i] == (old(self).pixels@[i] != (flips(
                        x as int,
                        y as int,
                        byte,
                        i,
                    ) && column_of(x as int, i) < col)),
                collision == (exists|i: int|
                    0 <= i < 2048 && old(self).pixels@[i] && #[trigger] flips(
                        x as int,
                        y as int,
                        byte,
                        i,
                    ) && column_of(x as int, i) < col),
            decreases 8 - col,
        {
            let ghost before = self.pixels@;
            let at: usize = row * 64 + (left + col as usize) % 64;
            assert(at / 64 == y % 32 && column_of(x as int, at as int) == col);
            assert(forall|i: int|
                0 <= i < 2048 && i / 64 == y % 32 && #[trigger] column_of(x as int, i) == col
                    ==> i == at);
            if byte & (0x80u8 >> col) != 0 {
                assert(flips(x as int, y as int, byte, at as int));
                if self.pixels[at] {
                    collision = true;
                }
                let lit: bool = self.pixels[at];
                self.pixels[at] = !lit;
            }
            assert forall|i: int| 0 <= i < 2048 implies self.pixels@[i] == (old(self).pixels@[i]
                != (flips(x as int, y as int, byte, i) && column_of(x as int, i) < col + 1)) by {
                if i != at {
                    assert(self.pixels@[i] == before[i]);
                }
            }
            col += 1;
        }
        assert(self@.pixels =~= old(self)@.draw_byte(x as int, y as int, byte).pixels);
        collision
    }

    /// Commits the working buffer as the visible frame.
    pub fn update(&mut self)
        ensures
            final(self)@ == old(self)@.update(),
    {
        self.frame = self.pixels;
    }

    /// Whether the pixel at `(x, y)` of the committed frame is lit;
    /// coordinates wrap around both edges.
    pub fn is_lit(&self, x: usize, y: usize) -> (lit: bool)
        ensures
            lit == self@.frame[(y % 32) * 64 + x % 64],
    {
        self.frame[(y % 32) * 64 + x % 64]
    }
}

} // verus!
