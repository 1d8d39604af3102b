//! Parametric rays: an origin and a direction, fixed at construction.
use crate::matrix::{mat_seq, mat_wf, Matrix};
use crate::number::Number;
use crate::transform::{
    scaling, scaling_seq, transform_point, transform_vector, translation, translation_seq,
    xform_point, xform_point_w, xform_vector, xform_vector_w,
};
use crate::tuple::{pt_add, v_mul, Point, Vector};
use crate::Error;
use vstd::prelude::*;

verus! {

/// A ray through space.
#[derive(Clone, Copy, Debug, PartialEq, Eq, Structural)]
pub struct Ray {
    pub origin: Point,
    pub direction: Vector,
}

/// The point reached after travelling `t` along the ray.
pub open spec fn ray_position(r: Ray, t: int) -> Point {
    pt_add(r.origin, v_mul(r.direction, t))
}

/// The ray carried through a matrix view: origin as a point, direction as
/// a vector.
pub open spec fn ray_transformed(s: Seq<Seq<int>>, r: Ray) -> Ray {
    Ray { origin: xform_point(s, r.origin), direction: xform_vector(s, r.direction) }
}

impl Ray {
    pub fn new(origin: Point, direction: Vector) -> (r: Ray)
        ensures
            r == (Ray { origin, direction }),
    {
        Ray { origin, direction }
    }

    pub fn origin(&self) -> (r: Point)
        ensures
            r == self.origin,
    {
        self.origin
    }

    pub fn direction(&self) -> (r: Vector)
        ensures
            r == self.direction,
    {
        self.direction
    }

    /// The point at parameter `t`: `origin + t * direction`.
    pub fn position(&self, t: Number) -> (r: Point)
        ensures
            r == ray_position(*self, t@),
    {
        self.origin.add(self.direction.mul(t))
    }

    /// The ray carried through a four-by-four transform; rejected when the
    /// matrix has another shape or does not keep points points and vectors
    /// vectors.
    pub fn transform(&self, m: &Matrix) -> (r: Result<Ray, Error>)
        requires
            mat_wf(*m),
        ensures
            r is Ok <==> (m.n == 4 && m.m == 4 && xform_point_w(mat_seq(*m), self.origin)
                == crate::number::SCALE as int && xform_vector_w(mat_seq(*m), self.direction)
                == 0),
            r matches Ok(ray2) ==> ray2 == ray_transformed(mat_seq(*m), *self),
    {
        let origin = match transform_point(self.origin, m) {
            Ok(p) => p,
            Err(e) => {
                return Err(e);
            },
        };
        let direction = match transform_vector(self.direction, m) {
            Ok(v) => v,
            Err(e) => {
                return Err(e);
            },
        };
        Ok(Ray { origin, direction })
    }

    /// The ray moved by a translation.
    pub fn translate(&self, dx: Number, dy: Number, dz: Number) -> (r: Result<Ray, Error>)
        ensures
            r is Ok <==> (xform_point_w(translation_seq(dx@, dy@, dz@), self.origin)
                == crate::number::SCALE as int && xform_vector_w(
                translation_seq(dx@, dy@, dz@),
                self.direction,
            ) == 0),
            r matches Ok(ray2) ==> ray2 == ray_transformed(
                translation_seq(dx@, dy@, dz@),
                *self,
            ),
    {
        let m = translation(dx, dy, dz);
        proof {
            assert(mat_seq(m) =~~= translation_seq(dx@, dy@, dz@));
        }
        self.transform(&m)
    }

    /// The ray scaled along the axes.
    pub fn scale(&self, sx: Number, sy: Number, sz: Number) -> (r: Result<Ray, Error>)
        ensures
            r is Ok <==> (xform_point_w(scaling_seq(sx@, sy@, sz@), self.origin)
                == crate::number::SCALE as int && xform_vector_w(
                scaling_seq(sx@, sy@, sz@),
                self.direction,
            ) == 0),
            r matches Ok(ray2) ==> ray2 == ray_transformed(scaling_seq(sx@, sy@, sz@), *self),
    {
        let m = scaling(sx, sy, sz);
        proof {
            assert(mat_seq(m) =~~= scaling_seq(sx@, sy@, sz@));
        }
        self.transform(&m)
    }
}

} // verus!
