//! Named transformations as data: a closed union over the affine
//! transform constructors, turned into matrices on demand.
use crate::matrix::{mat_at, mat_wf, Matrix};
use crate::number::Number;
use crate::matrix::mat_seq;
use crate::number::SCALE;
use crate::transform::{
    rotation_x, rotation_x_at, rotation_y, rotation_y_at, rotation_z, rotation_z_at, scaling,
    scaling_at, shearing, shearing_at, transform_point, transform_vector, translation,
    translation_at, xform_point, xform_point_w, xform_vector, xform_vector_w,
};
use crate::tuple::{Point, Vector};
use crate::Error;
use vstd::prelude::*;

verus! {

/// One named affine transformation.
#[derive(Clone, Copy, Debug, PartialEq, Eq, Structural)]
pub enum Transformation {
    Translation { x: Number, y: Number, z: Number },
    Scaling { x: Number, y: Number, z: Number },
    RotationX { phi: Number },
    RotationY { phi: Number },
    RotationZ { phi: Number },
    Shearing { x_y: Number, x_z: Number, y_x: Number, y_z: Number, z_x: Number, z_y: Number },
}

/// The entry at `(i, j)` of the matrix a transformation denotes.
pub open spec fn transformation_at(t: Transformation, i: int, j: int) -> int {
    match t {
        Transformation::Translation { x, y, z } => translation_at(x@, y@, z@, i, j),
        Transformation::Scaling { x, y, z } => scaling_at(x@, y@, z@, i, j),
        Transformation::RotationX { phi } => rotation_x_at(phi@, i, j),
        Transformation::RotationY { phi } => rotation_y_at(phi@, i, j),
        Transformation::RotationZ { phi } => rotation_z_at(phi@, i, j),
        Transformation::Shearing { x_y, x_z, y_x, y_z, z_x, z_y } => shearing_at(
            x_y@,
            x_z@,
            y_x@,
            y_z@,
            z_x@,
            z_y@,
            i,
            j,
        ),
    }
}

impl Transformation {
    /// The four-by-four matrix of the transformation.
    pub fn create_matrix(&self) -> (r: Matrix)
        ensures
            mat_wf(r),
            r.n == 4,
            r.m == 4,
            forall|i: int, j: int|
                0 <= i < 4 && 0 <= j < 4 ==> mat_at(r, i, j) == transformation_at(*self, i, j),
    {
        match self {
            Transformation::Translation { x, y, z } => translation(*x, *y, *z),
            Transformation::Scaling { x, y, z } => scaling(*x, *y, *z),
            Transformation::RotationX { phi } => rotation_x(*phi),
            Transformation::RotationY { phi } => rotation_y(*phi),
            Transformation::RotationZ { phi } => rotation_z(*phi),
            Transformation::Shearing { x_y, x_z, y_x, y_z, z_x, z_y } => shearing(
                *x_y,
                *x_z,
                *y_x,
                *y_z,
                *z_x,
                *z_y,
            ),
        }
    }
}

/// The sequence view of the matrix a transformation denotes.
pub open spec fn transformation_seq(t: Transformation) -> Seq<Seq<int>> {
    Seq::new(4, |i: int| Seq::new(4, |j: int| transformation_at(t, i, j)))
}

/// Applies a named transformation to a point; rejected when the result is
/// no longer a point.
pub fn apply_to_point(item: Point, transformation: &Transformation) -> (r: Result<Point, Error>)
    ensures
        r is Ok <==> xform_point_w(transformation_seq(*transformation), item) == SCALE as int,
        r matches Ok(p) ==> p == xform_point(transformation_seq(*transformation), item),
{
    let m = transformation.create_matrix();
    proof {
        assert(mat_seq(m) =~~= transformation_seq(*transformation));
    }
    transform_point(item, &m)
}

/// Applies a named transformation to a vector; rejected when the result is
/// no longer a vector.
pub fn apply_to_vector(item: Vector, transformation: &Transformation) -> (r: Result<
    Vector,
    Error,
>)
    ensures
        r is Ok <==> xform_vector_w(transformation_seq(*transformation), item) == 0,
        r matches Ok(v) ==> v == xform_vector(transformation_seq(*transformation), item),
{
    let m = transformation.create_matrix();
    proof {
        assert(mat_seq(m) =~~= transformation_seq(*transformation));
    }
    transform_vector(item, &m)
}

} // verus!
