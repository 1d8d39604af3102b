//! The pixel buffer a render fills.
use crate::color::Color;
use crate::number::Number;
use vstd::prelude::*;

verus! {

/// A rectangular grid of colors, addressed by column `x` and row `y`.
#[derive(Debug)]
pub struct Canvas {
    pub width: usize,
    pub height: usize,
    pub pixels: Vec<Vec<Color>>,
}

/// The color stored at column `x`, row `y`.
pub open spec fn canvas_at(c: Canvas, x: int, y: int) -> Color {
    c.pixels@[y]@[x]
}

/// Well-formedness: one row vector per row, each of the full width.
pub open spec fn canvas_wf(c: Canvas) -> bool {
    &&& c.pixels@.len() == c.height
    &&& forall|y: int| 0 <= y < c.height ==> c.pixels@[y]@.len() == c.width
}

impl Canvas {
    /// A canvas filled with black.
    pub fn new(width: usize, height: usize) -> (r: Canvas)
        ensures
            canvas_wf(r),
            r.width == width,
            r.height == height,
            forall|x: int, y: int|
                0 <= x < width && 0 <= y < height ==> canvas_at(r, x, y) == crate::color::c_new(
                    0,
                    0,
                    0,
                ),
    {
        let black = Color::new(Number::zero(), Number::zero(), Number::zero());
        Self::with_background(width, height, black)
    }

    /// A canvas filled with a background color.
    pub fn with_background(width: usize, height: usize, bg_color: Color) -> (r: Canvas)
        ensures
            canvas_wf(r),
            r.width == width,
            r.height == height,
            forall|x: int, y: int|
                0 <= x < width && 0 <= y < height ==> canvas_at(r, x, y) == bg_color,
    {
        let mut pixels: Vec<Vec<Color>> = Vec::new();
        let mut y: usize = 0;
        while y < height
            invariant
                0 <= y <= height,
                pixels@.len() == y,
                forall|b: int| 0 <= b < y ==> pixels@[b]@.len() == width,
                forall|a: int, b: int|
                    0 <= a < width && 0 <= b < y ==> pixels@[b]@[a] == bg_color,
            decreases height - y,
        {
            let mut row: Vec<Color> = Vec::new();
            let mut x: usize = 0;
            while x < width
                invariant
                    0 <= x <= width,
                    row@.len() == x,
                    forall|a: int| 0 <= a < x ==> row@[a] == bg_color,
                decreases width - x,
            {
                row.push(bg_color);
                x = x + 1;
            }
            pixels.push(row);
            y = y + 1;
        }
        Canvas { width, height, pixels }
    }

    /// A canvas filled with a background color (taken by reference).
    pub fn new_with_color(width: usize, height: usize, color: &Color) -> (r: Canvas)
        ensures
            canvas_wf(r),
            r.width == width,
            r.height == height,
            forall|x: int, y: int|
                0 <= x < width && 0 <= y < height ==> canvas_at(r, x, y) == *color,
    {
        Self::with_background(width, height, *color)
    }

    /// The pair (width, height).
    pub fn get_dimension(&self) -> (r: (usize, usize))
        ensures
            r.0 == self.width,
            r.1 == self.height,
    {
        (self.width, self.height)
    }

    /// The width in pixels.
    pub fn width(&self) -> (r: usize)
        ensures
            r == self.width,
    {
        self.width
    }

    /// The height in pixels.
    pub fn height(&self) -> (r: usize)
        ensures
            r == self.height,
    {
        self.height
    }

    /// The color at column `x`, row `y`.
    pub fn get_pixel(&self, x: usize, y: usize) -> (r: Color)
        requires
            canvas_wf(*self),
            x < self.width,
            y < self.height,
        ensures
            r == canvas_at(*self, x as int, y as int),
    {
        self.pixels[y][x]
    }

    /// Replaces the color at column `x`, row `y`.
    pub fn set_pixel(&mut self, x: usize, y: usize, c: Color)
        requires
            canvas_wf(*old(self)),
            x < old(self).width,
            y < old(self).height,
        ensures
            canvas_wf(*final(self)),
            final(self).width == old(self).width,
            final(self).height == old(self).height,
            canvas_at(*final(self), x as int, y as int) == c,
            forall|a: int, b: int|
                0 <= a < old(self).width && 0 <= b < old(self).height && !(a == x && b == y)
                    ==> canvas_at(*final(self), a, b) == canvas_at(*old(self), a, b),
    {
        let mut row = self.pixels.remove(y);
        row[x] = c;
        self.pixels.insert(y, row);
        proof {
            assert(forall|b: int|
                0 <= b < old(self).height ==> final(self).pixels@[b]@.len() == old(self).width);
        }
    }
}

} // verus!
