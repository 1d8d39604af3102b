//! Points, vectors and their homogeneous four-component form.
//!
//! A `Point` is a location and a `Vector` a displacement; the type system
//! keeps the two apart, and `Vec4` carries either through a matrix multiply,
//! with a fourth coordinate of one for points and zero for vectors.
use crate::number::{
    is_number_equal, num_add, num_div, num_mul, num_neg, num_sqrt, num_sub, Number, SCALE,
};
use crate::Error;
use vstd::prelude::*;

verus! {

/// The fixed-point dot product of two vectors, summed left to right.
pub open spec fn vec_dot(a: Vector, b: Vector) -> int {
    num_add(num_add(num_mul(a.x@, b.x@), num_mul(a.y@, b.y@)), num_mul(a.z@, b.z@))
}

/// The fixed-point magnitude of a vector: the rounded-down square root of
/// its dot product with itself.
pub open spec fn vec_magnitude(v: Vector) -> int {
    num_sqrt(vec_dot(v, v) * SCALE as int)
}


/// A number from its raw value (meaningful when `x` is in range).
pub open spec fn num(x: int) -> Number {
    Number { raw: x as i64 }
}

pub open spec fn pt_new(x: int, y: int, z: int) -> Point {
    Point { x: num(x), y: num(y), z: num(z) }
}

pub open spec fn v_new(x: int, y: int, z: int) -> Vector {
    Vector { x: num(x), y: num(y), z: num(z) }
}

/// The point moved by a displacement.
pub open spec fn pt_add(p: Point, v: Vector) -> Point {
    pt_new(num_add(p.x@, v.x@), num_add(p.y@, v.y@), num_add(p.z@, v.z@))
}

/// The displacement between two points.
pub open spec fn pt_sub(p: Point, q: Point) -> Vector {
    v_new(num_sub(p.x@, q.x@), num_sub(p.y@, q.y@), num_sub(p.z@, q.z@))
}

/// The point moved back by a displacement.
pub open spec fn pt_sub_vec(p: Point, v: Vector) -> Point {
    pt_new(num_sub(p.x@, v.x@), num_sub(p.y@, v.y@), num_sub(p.z@, v.z@))
}

pub open spec fn pt_mul(p: Point, s: int) -> Point {
    pt_new(num_mul(p.x@, s), num_mul(p.y@, s), num_mul(p.z@, s))
}

pub open spec fn pt_div(p: Point, s: int) -> Point {
    pt_new(num_div(p.x@, s), num_div(p.y@, s), num_div(p.z@, s))
}

pub open spec fn v_add(a: Vector, b: Vector) -> Vector {
    v_new(num_add(a.x@, b.x@), num_add(a.y@, b.y@), num_add(a.z@, b.z@))
}

pub open spec fn v_sub(a: Vector, b: Vector) -> Vector {
    v_new(num_sub(a.x@, b.x@), num_sub(a.y@, b.y@), num_sub(a.z@, b.z@))
}

pub open spec fn v_mul(a: Vector, s: int) -> Vector {
    v_new(num_mul(a.x@, s), num_mul(a.y@, s), num_mul(a.z@, s))
}

pub open spec fn v_div(a: Vector, s: int) -> Vector {
    v_new(num_div(a.x@, s), num_div(a.y@, s), num_div(a.z@, s))
}

pub open spec fn v_neg(a: Vector) -> Vector {
    v_new(num_neg(a.x@), num_neg(a.y@), num_neg(a.z@))
}

pub open spec fn v_cross(a: Vector, b: Vector) -> Vector {
    v_new(
        num_sub(num_mul(a.y@, b.z@), num_mul(a.z@, b.y@)),
        num_sub(num_mul(a.z@, b.x@), num_mul(a.x@, b.z@)),
        num_sub(num_mul(a.x@, b.y@), num_mul(a.y@, b.x@)),
    )
}

/// The vector divided by its own magnitude.
pub open spec fn v_normalize(a: Vector) -> Vector {
    v_div(a, vec_magnitude(a))
}

/// A location in space.
#[derive(Clone, Copy, Debug, PartialEq, Eq, Structural)]
pub struct Point {
    pub x: Number,
    pub y: Number,
    pub z: Number,
}

impl Point {
    pub fn new(x: Number, y: Number, z: Number) -> (r: Point)
        ensures
            r == (Point { x, y, z }),
    {
        Point { x, y, z }
    }

    pub fn x(&self) -> (r: Number)
        ensures
            r == self.x,
    {
        self.x
    }

    pub fn y(&self) -> (r: Number)
        ensures
            r == self.y,
    {
        self.y
    }

    pub fn z(&self) -> (r: Number)
        ensures
            r == self.z,
    {
        self.z
    }

    /// Moves the point by a displacement.
    pub fn add(self, rhs: Vector) -> (r: Point)
        ensures
            r == pt_add(self, rhs),
            r.x@ == num_add(self.x@, rhs.x@),
            r.y@ == num_add(self.y@, rhs.y@),
            r.z@ == num_add(self.z@, rhs.z@),
    {
        Point { x: self.x.add(rhs.x), y: self.y.add(rhs.y), z: self.z.add(rhs.z) }
    }

    /// The displacement from `rhs` to `self`.
    pub fn sub(self, rhs: Point) -> (r: Vector)
        ensures
            r == pt_sub(self, rhs),
            r.x@ == num_sub(self.x@, rhs.x@),
            r.y@ == num_sub(self.y@, rhs.y@),
            r.z@ == num_sub(self.z@, rhs.z@),
    {
        Vector { x: self.x.sub(rhs.x), y: self.y.sub(rhs.y), z: self.z.sub(rhs.z) }
    }

    /// Moves the point back by a displacement.
    pub fn sub_vec(self, rhs: Vector) -> (r: Point)
        ensures
            r == pt_sub_vec(self, rhs),
            r.x@ == num_sub(self.x@, rhs.x@),
            r.y@ == num_sub(self.y@, rhs.y@),
            r.z@ == num_sub(self.z@, rhs.z@),
    {
        Point { x: self.x.sub(rhs.x), y: self.y.sub(rhs.y), z: self.z.sub(rhs.z) }
    }

    /// Scales each coordinate.
    pub fn mul(self, rhs: Number) -> (r: Point)
        ensures
            r == pt_mul(self, rhs@),
            r.x@ == num_mul(self.x@, rhs@),
            r.y@ == num_mul(self.y@, rhs@),
            r.z@ == num_mul(self.z@, rhs@),
    {
        Point { x: self.x.mul(rhs), y: self.y.mul(rhs), z: self.z.mul(rhs) }
    }

    /// Divides each coordinate.
    pub fn div(self, rhs: Number) -> (r: Point)
        ensures
            r == pt_div(self, rhs@),
            r.x@ == num_div(self.x@, rhs@),
            r.y@ == num_div(self.y@, rhs@),
            r.z@ == num_div(self.z@, rhs@),
    {
        Point { x: self.x.div(rhs), y: self.y.div(rhs), z: self.z.div(rhs) }
    }

    /// Componentwise equality within one quantum.
    pub fn is_equal(self, rhs: Point) -> (r: bool)
        ensures
            r == (self.x@ == rhs.x@ && self.y@ == rhs.y@ && self.z@ == rhs.z@),
    {
        is_number_equal(self.x, rhs.x) && is_number_equal(self.y, rhs.y) && is_number_equal(
            self.z,
            rhs.z,
        )
    }
}

/// A displacement (or direction) in space.
#[derive(Clone, Copy, Debug, PartialEq, Eq, Structural)]
pub struct Vector {
    pub x: Number,
    pub y: Number,
    pub z: Number,
}

impl Vector {
    pub fn new(x: Number, y: Number, z: Number) -> (r: Vector)
        ensures
            r == (Vector { x, y, z }),
    {
        Vector { x, y, z }
    }

    pub fn x(&self) -> (r: Number)
        ensures
            r == self.x,
    {
        self.x
    }

    pub fn y(&self) -> (r: Number)
        ensures
            r == self.y,
    {
        self.y
    }

    pub fn z(&self) -> (r: Number)
        ensures
            r == self.z,
    {
        self.z
    }

    pub fn add(self, rhs: Vector) -> (r: Vector)
        ensures
            r == v_add(self, rhs),
            r.x@ == num_add(self.x@, rhs.x@),
            r.y@ == num_add(self.y@, rhs.y@),
            r.z@ == num_add(self.z@, rhs.z@),
    {
        Vector { x: self.x.add(rhs.x), y: self.y.add(rhs.y), z: self.z.add(rhs.z) }
    }

    pub fn sub(self, rhs: Vector) -> (r: Vector)
        ensures
            r == v_sub(self, rhs),
            r.x@ == num_sub(self.x@, rhs.x@),
            r.y@ == num_sub(self.y@, rhs.y@),
            r.z@ == num_sub(self.z@, rhs.z@),
    {
        Vector { x: self.x.sub(rhs.x), y: self.y.sub(rhs.y), z: self.z.sub(rhs.z) }
    }

    /// Scales each component.
    pub fn mul(self, rhs: Number) -> (r: Vector)
        ensures
            r == v_mul(self, rhs@),
            r.x@ == num_mul(self.x@, rhs@),
            r.y@ == num_mul(self.y@, rhs@),
            r.z@ == num_mul(self.z@, rhs@),
    {
        Vector { x: self.x.mul(rhs), y: self.y.mul(rhs), z: self.z.mul(rhs) }
    }

    /// Divides each component.
    pub fn div(self, rhs: Number) -> (r: Vector)
        ensures
            r == v_div(self, rhs@),
            r.x@ == num_div(self.x@, rhs@),
            r.y@ == num_div(self.y@, rhs@),
            r.z@ == num_div(self.z@, rhs@),
    {
        Vector { x: self.x.div(rhs), y: self.y.div(rhs), z: self.z.div(rhs) }
    }

    /// The reversed displacement.
    pub fn neg(self) -> (r: Vector)
        ensures
            r == v_neg(self),
            r.x@ == num_neg(self.x@),
            r.y@ == num_neg(self.y@),
            r.z@ == num_neg(self.z@),
    {
        Vector { x: self.x.neg(), y: self.y.neg(), z: self.z.neg() }
    }

    /// The dot product.
    pub fn dot(&self, other: &Vector) -> (r: Number)
        ensures
            r@ == vec_dot(*self, *other),
    {
        self.x.mul(other.x).add(self.y.mul(other.y)).add(self.z.mul(other.z))
    }

    /// The length of the vector.
    pub fn magnitude(&self) -> (r: Number)
        ensures
            r@ == vec_magnitude(*self),
            r@ >= 0,
    {
        proof {
            crate::number::lemma_num_mul_self_nonneg(self.x@);
            crate::number::lemma_num_mul_self_nonneg(self.y@);
            crate::number::lemma_num_mul_self_nonneg(self.z@);
        }
        self.dot(self).sqrt()
    }

    /// The vector scaled to unit length: each component divided by the
    /// magnitude (the zero vector, whose magnitude is zero, stays zero).
    pub fn normalize(&self) -> (r: Vector)
        ensures
            r == v_normalize(*self),
            r.x@ == num_div(self.x@, vec_magnitude(*self)),
            r.y@ == num_div(self.y@, vec_magnitude(*self)),
            r.z@ == num_div(self.z@, vec_magnitude(*self)),
    {
        let magnitude = self.magnitude();
        self.div(magnitude)
    }

    /// The cross product.
    pub fn cross(&self, other: &Vector) -> (r: Vector)
        ensures
            r == v_cross(*self, *other),
            r.x@ == num_sub(num_mul(self.y@, other.z@), num_mul(self.z@, other.y@)),
            r.y@ == num_sub(num_mul(self.z@, other.x@), num_mul(self.x@, other.z@)),
            r.z@ == num_sub(num_mul(self.x@, other.y@), num_mul(self.y@, other.x@)),
    {
        Vector {
            x: self.y.mul(other.z).sub(self.z.mul(other.y)),
            y: self.z.mul(other.x).sub(self.x.mul(other.z)),
            z: self.x.mul(other.y).sub(self.y.mul(other.x)),
        }
    }

    /// The reflection of the vector about a surface normal:
    /// `self - normal * (2 * dot(self, normal))`.
    pub fn reflect(&self, normal: &Vector) -> (r: Vector)
        ensures
            r == spec_reflect(*self, *normal),
    {
        let d = self.dot(normal);
        let twice = d.add(d);
        self.sub(normal.mul(twice))
    }

    /// Componentwise equality within one quantum.
    pub fn is_equal(self, rhs: Vector) -> (r: bool)
        ensures
            r == (self.x@ == rhs.x@ && self.y@ == rhs.y@ && self.z@ == rhs.z@),
    {
        is_number_equal(self.x, rhs.x) && is_number_equal(self.y, rhs.y) && is_number_equal(
            self.z,
            rhs.z,
        )
    }
}

/// The reflection of `v` about the normal `n`, in fixed-point arithmetic.
pub open spec fn spec_reflect(v: Vector, n: Vector) -> Vector {
    let twice = num_add(vec_dot(v, n), vec_dot(v, n));
    Vector {
        x: Number { raw: num_sub(v.x@, num_mul(n.x@, twice)) as i64 },
        y: Number { raw: num_sub(v.y@, num_mul(n.y@, twice)) as i64 },
        z: Number { raw: num_sub(v.z@, num_mul(n.z@, twice)) as i64 },
    }
}

/// A homogeneous four-component value: a point when the fourth component is
/// one, a vector when it is zero.
#[derive(Clone, Copy, Debug, PartialEq, Eq, Structural)]
pub struct Vec4 {
    pub x: Number,
    pub y: Number,
    pub z: Number,
    pub w: Number,
}

impl Vec4 {
    pub fn new(x: Number, y: Number, z: Number, w: Number) -> (r: Vec4)
        ensures
            r == (Vec4 { x, y, z, w }),
    {
        Vec4 { x, y, z, w }
    }

    /// Whether the fourth component marks a point.
    pub fn is_point(&self) -> (r: bool)
        ensures
            r == (self.w@ == SCALE as int),
    {
        is_number_equal(self.w, Number::one())
    }

    /// Whether the fourth component marks a vector.
    pub fn is_vector(&self) -> (r: bool)
        ensures
            r == (self.w@ == 0),
    {
        is_number_equal(self.w, Number::zero())
    }

    /// Wraps a point with a fourth component of one.
    pub fn from_point(p: Point) -> (r: Vec4)
        ensures
            r.x == p.x,
            r.y == p.y,
            r.z == p.z,
            r.w@ == SCALE as int,
    {
        Vec4 { x: p.x, y: p.y, z: p.z, w: Number::one() }
    }

    /// Wraps a vector with a fourth component of zero.
    pub fn from_vector(v: Vector) -> (r: Vec4)
        ensures
            r.x == v.x,
            r.y == v.y,
            r.z == v.z,
            r.w@ == 0,
    {
        Vec4 { x: v.x, y: v.y, z: v.z, w: Number::zero() }
    }

    /// The contained point; rejected when the fourth component is not one.
    pub fn to_point(&self) -> (r: Result<Point, Error>)
        ensures
            self.w@ == SCALE as int <==> r is Ok,
            r matches Ok(p) ==> p == (Point { x: self.x, y: self.y, z: self.z }),
    {
        if self.is_point() {
            Ok(Point { x: self.x, y: self.y, z: self.z })
        } else {
            Err(Error::new("Vec4 does not contain a point"))
        }
    }

    /// The contained vector; rejected when the fourth component is not zero.
    pub fn to_vector(&self) -> (r: Result<Vector, Error>)
        ensures
            self.w@ == 0 <==> r is Ok,
            r matches Ok(v) ==> v == (Vector { x: self.x, y: self.y, z: self.z }),
    {
        if self.is_vector() {
            Ok(Vector { x: self.x, y: self.y, z: self.z })
        } else {
            Err(Error::new("Vec4 does not contain a vector"))
        }
    }
}

} // verus!
