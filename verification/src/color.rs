//! RGB colors with unbounded components.
//!
//! Components may leave the `[0, 1]` range during composition; clamping
//! happens only when pixels are encoded for output.
use crate::number::{is_number_equal, num_add, num_mul, num_sub, Number};
use vstd::prelude::*;

verus! {

/// A color as red, green and blue intensities.
#[derive(Clone, Copy, Debug, PartialEq, Eq, Structural)]
pub struct Color {
    pub red: Number,
    pub green: Number,
    pub blue: Number,
}


/// A number from its raw value (meaningful when `x` is in range).
pub open spec fn c_new(r: int, g: int, b: int) -> Color {
    Color {
        red: Number { raw: r as i64 },
        green: Number { raw: g as i64 },
        blue: Number { raw: b as i64 },
    }
}

pub open spec fn c_add(a: Color, b: Color) -> Color {
    c_new(num_add(a.red@, b.red@), num_add(a.green@, b.green@), num_add(a.blue@, b.blue@))
}

pub open spec fn c_sub(a: Color, b: Color) -> Color {
    c_new(num_sub(a.red@, b.red@), num_sub(a.green@, b.green@), num_sub(a.blue@, b.blue@))
}

pub open spec fn c_mul(a: Color, b: Color) -> Color {
    c_new(num_mul(a.red@, b.red@), num_mul(a.green@, b.green@), num_mul(a.blue@, b.blue@))
}

pub open spec fn c_scale(a: Color, s: int) -> Color {
    c_new(num_mul(a.red@, s), num_mul(a.green@, s), num_mul(a.blue@, s))
}

impl Color {
    pub fn new(red: Number, green: Number, blue: Number) -> (r: Color)
        ensures
            r == (Color { red, green, blue }),
    {
        Color { red, green, blue }
    }

    pub fn red(&self) -> (r: Number)
        ensures
            r == self.red,
    {
        self.red
    }

    pub fn green(&self) -> (r: Number)
        ensures
            r == self.green,
    {
        self.green
    }

    pub fn blue(&self) -> (r: Number)
        ensures
            r == self.blue,
    {
        self.blue
    }

    /// Componentwise sum.
    pub fn add(self, rhs: Color) -> (r: Color)
        ensures
            r == c_add(self, rhs),
            r.red@ == num_add(self.red@, rhs.red@),
            r.green@ == num_add(self.green@, rhs.green@),
            r.blue@ == num_add(self.blue@, rhs.blue@),
    {
        Color {
            red: self.red.add(rhs.red),
            green: self.green.add(rhs.green),
            blue: self.blue.add(rhs.blue),
        }
    }

    /// Componentwise difference.
    pub fn sub(self, rhs: Color) -> (r: Color)
        ensures
            r == c_sub(self, rhs),
            r.red@ == num_sub(self.red@, rhs.red@),
            r.green@ == num_sub(self.green@, rhs.green@),
            r.blue@ == num_sub(self.blue@, rhs.blue@),
    {
        Color {
            red: self.red.sub(rhs.red),
            green: self.green.sub(rhs.green),
            blue: self.blue.sub(rhs.blue),
        }
    }

    /// Componentwise (Hadamard) product of two colors.
    pub fn mul(self, rhs: Color) -> (r: Color)
        ensures
            r == c_mul(self, rhs),
            r.red@ == num_mul(self.red@, rhs.red@),
            r.green@ == num_mul(self.green@, rhs.green@),
            r.blue@ == num_mul(self.blue@, rhs.blue@),
    {
        Color {
            red: self.red.mul(rhs.red),
            green: self.green.mul(rhs.green),
            blue: self.blue.mul(rhs.blue),
        }
    }

    /// Each component scaled by the same factor.
    pub fn scale(self, rhs: Number) -> (r: Color)
        ensures
            r == c_scale(self, rhs@),
            r.red@ == num_mul(self.red@, rhs@),
            r.green@ == num_mul(self.green@, rhs@),
            r.blue@ == num_mul(self.blue@, rhs@),
    {
        Color { red: self.red.mul(rhs), green: self.green.mul(rhs), blue: self.blue.mul(rhs) }
    }

    /// Componentwise equality within one quantum.
    pub fn is_equal(self, rhs: Color) -> (r: bool)
        ensures
            r == (self.red@ == rhs.red@ && self.green@ == rhs.green@ && self.blue@ == rhs.blue@),
    {
        is_number_equal(self.red, rhs.red) && is_number_equal(self.green, rhs.green)
            && is_number_equal(self.blue, rhs.blue)
    }

    /// Pure black, the color of a missed ray.
    pub fn black() -> (r: Color)
        ensures
            r.red@ == 0,
            r.green@ == 0,
            r.blue@ == 0,
    {
        Color { red: Number::zero(), green: Number::zero(), blue: Number::zero() }
    }
}

} // verus!
