//! Affine transform constructors and their application to points and
//! vectors through homogeneous coordinates.
use crate::matrix::{mat_at, mat_seq, mat_wf, seq_row_dot, Matrix};
use crate::number::{
    is_number_equal, num_add, num_mul, num_neg, Number, SCALE,
};
use crate::trig::{cos, sin, spec_cos, spec_sin};
use crate::tuple::{pt_new, pt_sub, v_cross, v_new, v_normalize, Point, Vector};
use crate::Error;
use vstd::prelude::*;

verus! {

/// Row `row` of the matrix view `s` applied to the homogeneous column
/// `(x, y, z, w)`.
pub open spec fn xform_coord(s: Seq<Seq<int>>, x: int, y: int, z: int, w: int, row: int) -> int {
    num_add(
        num_add(
            num_add(num_mul(s[row][0], x), num_mul(s[row][1], y)),
            num_mul(s[row][2], z),
        ),
        num_mul(s[row][3], w),
    )
}

/// The point carried through the matrix view `s` (with a homogeneous
/// coordinate of one).
pub open spec fn xform_point(s: Seq<Seq<int>>, p: Point) -> Point {
    pt_new(
        xform_coord(s, p.x@, p.y@, p.z@, SCALE as int, 0),
        xform_coord(s, p.x@, p.y@, p.z@, SCALE as int, 1),
        xform_coord(s, p.x@, p.y@, p.z@, SCALE as int, 2),
    )
}

/// The homogeneous coordinate a point maps to under `s`; the conversion
/// back to a point demands that it be one.
pub open spec fn xform_point_w(s: Seq<Seq<int>>, p: Point) -> int {
    xform_coord(s, p.x@, p.y@, p.z@, SCALE as int, 3)
}

/// The vector carried through the matrix view `s` (with a homogeneous
/// coordinate of zero).
pub open spec fn xform_vector(s: Seq<Seq<int>>, v: Vector) -> Vector {
    v_new(
        xform_coord(s, v.x@, v.y@, v.z@, 0, 0),
        xform_coord(s, v.x@, v.y@, v.z@, 0, 1),
        xform_coord(s, v.x@, v.y@, v.z@, 0, 2),
    )
}

/// The homogeneous coordinate a vector maps to under `s`; the conversion
/// back to a vector demands that it be zero.
pub open spec fn xform_vector_w(s: Seq<Seq<int>>, v: Vector) -> int {
    xform_coord(s, v.x@, v.y@, v.z@, 0, 3)
}

/// The entry of a translation matrix.
pub open spec fn translation_at(dx: int, dy: int, dz: int, i: int, j: int) -> int {
    if j == 3 {
        if i == 0 {
            dx
        } else if i == 1 {
            dy
        } else if i == 2 {
            dz
        } else {
            SCALE as int
        }
    } else if i == j {
        SCALE as int
    } else {
        0
    }
}

/// The sequence view of a translation matrix.
pub open spec fn translation_seq(dx: int, dy: int, dz: int) -> Seq<Seq<int>> {
    Seq::new(4, |i: int| Seq::new(4, |j: int| translation_at(dx, dy, dz, i, j)))
}

/// The entry of a scaling matrix.
pub open spec fn scaling_at(sx: int, sy: int, sz: int, i: int, j: int) -> int {
    if i == j {
        if i == 0 {
            sx
        } else if i == 1 {
            sy
        } else if i == 2 {
            sz
        } else {
            SCALE as int
        }
    } else {
        0
    }
}

/// The sequence view of a scaling matrix.
pub open spec fn scaling_seq(sx: int, sy: int, sz: int) -> Seq<Seq<int>> {
    Seq::new(4, |i: int| Seq::new(4, |j: int| scaling_at(sx, sy, sz, i, j)))
}

/// The entry of a rotation matrix about the x axis.
pub open spec fn rotation_x_at(phi: int, i: int, j: int) -> int {
    if i == 0 && j == 0 || i == 3 && j == 3 {
        SCALE as int
    } else if i == 1 && j == 1 || i == 2 && j == 2 {
        spec_cos(phi)
    } else if i == 1 && j == 2 {
        num_neg(spec_sin(phi))
    } else if i == 2 && j == 1 {
        spec_sin(phi)
    } else {
        0
    }
}

/// The entry of a rotation matrix about the y axis.
pub open spec fn rotation_y_at(phi: int, i: int, j: int) -> int {
    if i == 1 && j == 1 || i == 3 && j == 3 {
        SCALE as int
    } else if i == 0 && j == 0 || i == 2 && j == 2 {
        spec_cos(phi)
    } else if i == 2 && j == 0 {
        num_neg(spec_sin(phi))
    } else if i == 0 && j == 2 {
        spec_sin(phi)
    } else {
        0
    }
}

/// The entry of a rotation matrix about the z axis.
pub open spec fn rotation_z_at(phi: int, i: int, j: int) -> int {
    if i == 2 && j == 2 || i == 3 && j == 3 {
        SCALE as int
    } else if i == 0 && j == 0 || i == 1 && j == 1 {
        spec_cos(phi)
    } else if i == 0 && j == 1 {
        num_neg(spec_sin(phi))
    } else if i == 1 && j == 0 {
        spec_sin(phi)
    } else {
        0
    }
}

/// The entry of a shearing matrix.
pub open spec fn shearing_at(
    xy: int,
    xz: int,
    yx: int,
    yz: int,
    zx: int,
    zy: int,
    i: int,
    j: int,
) -> int {
    if i == j {
        SCALE as int
    } else if i == 0 && j == 1 {
        xy
    } else if i == 0 && j == 2 {
        xz
    } else if i == 1 && j == 0 {
        yx
    } else if i == 1 && j == 2 {
        yz
    } else if i == 2 && j == 0 {
        zx
    } else if i == 2 && j == 1 {
        zy
    } else {
        0
    }
}

/// The orientation part of a view transform: rows built from the camera's
/// left, true-up and forward directions.
pub open spec fn view_orientation(from: Point, to: Point, up: Vector) -> Seq<Seq<int>> {
    let forward = v_normalize(pt_sub(to, from));
    let upn = v_normalize(up);
    let left = v_cross(forward, upn);
    let true_up = v_cross(left, forward);
    seq![
        seq![left.x@, left.y@, left.z@, 0int],
        seq![true_up.x@, true_up.y@, true_up.z@, 0int],
        seq![num_neg(forward.x@), num_neg(forward.y@), num_neg(forward.z@), 0int],
        seq![0int, 0int, 0int, SCALE as int],
    ]
}

/// Applies a four-by-four transform to a point; rejected when the matrix is
/// not four-by-four or the transformed homogeneous coordinate is not one.
pub fn transform_point(value: Point, trans: &Matrix) -> (r: Result<Point, Error>)
    requires
        mat_wf(*trans),
    ensures
        r is Ok <==> (trans.n == 4 && trans.m == 4 && xform_point_w(mat_seq(*trans), value)
            == SCALE as int),
        r matches Ok(p) ==> p == xform_point(mat_seq(*trans), value),
{
    if trans.num_rows() != 4 || trans.num_cols() != 4 {
        return Err(Error::new("Matrix sizes do not match for multiplication"));
    }
    let one = Number::one();
    let w = apply_row(trans, value.x, value.y, value.z, one, 3);
    if !is_number_equal(w, one) {
        return Err(Error::new("Conversion failed"));
    }
    Ok(
        Point::new(
            apply_row(trans, value.x, value.y, value.z, one, 0),
            apply_row(trans, value.x, value.y, value.z, one, 1),
            apply_row(trans, value.x, value.y, value.z, one, 2),
        ),
    )
}

/// Applies a four-by-four transform to a vector; rejected when the matrix
/// is not four-by-four or the transformed homogeneous coordinate is not
/// zero.
pub fn transform_vector(value: Vector, trans: &Matrix) -> (r: Result<Vector, Error>)
    requires
        mat_wf(*trans),
    ensures
        r is Ok <==> (trans.n == 4 && trans.m == 4 && xform_vector_w(mat_seq(*trans), value)
            == 0),
        r matches Ok(v) ==> v == xform_vector(mat_seq(*trans), value),
{
    if trans.num_rows() != 4 || trans.num_cols() != 4 {
        return Err(Error::new("Matrix sizes do not match for multiplication"));
    }
    let zero = Number::zero();
    let w = apply_row(trans, value.x, value.y, value.z, zero, 3);
    if !is_number_equal(w, zero) {
        return Err(Error::new("Conversion failed"));
    }
    Ok(
        Vector::new(
            apply_row(trans, value.x, value.y, value.z, zero, 0),
            apply_row(trans, value.x, value.y, value.z, zero, 1),
            apply_row(trans, value.x, value.y, value.z, zero, 2),
        ),
    )
}

/// One row of the homogeneous matrix-vector product.
pub(crate) fn apply_row(m: &Matrix, x: Number, y: Number, z: Number, w: Number, row: usize) -> (r: Number)
    requires
        mat_wf(*m),
        m.n == 4,
        m.m == 4,
        row < 4,
    ensures
        r@ == xform_coord(mat_seq(*m), x@, y@, z@, w@, row as int),
{
    m.get(row, 0).mul(x).add(m.get(row, 1).mul(y)).add(m.get(row, 2).mul(z)).add(
        m.get(row, 3).mul(w),
    )
}

/// The translation by `(dx, dy, dz)`.
pub fn translation(dx: Number, dy: Number, dz: Number) -> (r: Matrix)
    ensures
        mat_wf(r),
        r.n == 4,
        r.m == 4,
        forall|i: int, j: int|
            0 <= i < 4 && 0 <= j < 4 ==> mat_at(r, i, j) == translation_at(dx@, dy@, dz@, i, j),
{
    let mut ret = Matrix::identity(4);
    ret.set(0, 3, dx);
    ret.set(1, 3, dy);
    ret.set(2, 3, dz);
    ret
}

/// The axis-aligned scaling by `(sx, sy, sz)`.
pub fn scaling(sx: Number, sy: Number, sz: Number) -> (r: Matrix)
    ensures
        mat_wf(r),
        r.n == 4,
        r.m == 4,
        forall|i: int, j: int|
            0 <= i < 4 && 0 <= j < 4 ==> mat_at(r, i, j) == scaling_at(sx@, sy@, sz@, i, j),
{
    let mut ret = Matrix::identity(4);
    ret.set(0, 0, sx);
    ret.set(1, 1, sy);
    ret.set(2, 2, sz);
    ret
}

/// The right-handed rotation about the x axis by `phi` radians.
pub fn rotation_x(phi: Number) -> (r: Matrix)
    ensures
        mat_wf(r),
        r.n == 4,
        r.m == 4,
        forall|i: int, j: int|
            0 <= i < 4 && 0 <= j < 4 ==> mat_at(r, i, j) == rotation_x_at(phi@, i, j),
{
    let c = cos(phi);
    let s = sin(phi);
    let mut ret = Matrix::identity(4);
    ret.set(1, 1, c);
    ret.set(1, 2, s.neg());
    ret.set(2, 1, s);
    ret.set(2, 2, c);
    ret
}

/// The right-handed rotation about the y axis by `phi` radians.
pub fn rotation_y(phi: Number) -> (r: Matrix)
    ensures
        mat_wf(r),
        r.n == 4,
        r.m == 4,
        forall|i: int, j: int|
            0 <= i < 4 && 0 <= j < 4 ==> mat_at(r, i, j) == rotation_y_at(phi@, i, j),
{
    let c = cos(phi);
    let s = sin(phi);
    let mut ret = Matrix::identity(4);
    ret.set(0, 0, c);
    ret.set(0, 2, s);
    ret.set(2, 0, s.neg());
    ret.set(2, 2, c);
    ret
}

/// The right-handed rotation about the z axis by `phi` radians.
pub fn rotation_z(phi: Number) -> (r: Matrix)
    ensures
        mat_wf(r),
        r.n == 4,
        r.m == 4,
        forall|i: int, j: int|
            0 <= i < 4 && 0 <= j < 4 ==> mat_at(r, i, j) == rotation_z_at(phi@, i, j),
{
    let c = cos(phi);
    let s = sin(phi);
    let mut ret = Matrix::identity(4);
    ret.set(0, 0, c);
    ret.set(0, 1, s.neg());
    ret.set(1, 0, s);
    ret.set(1, 1, c);
    ret
}

/// The shearing with the six independent coefficients.
pub fn shearing(xy: Number, xz: Number, yx: Number, yz: Number, zx: Number, zy: Number) -> (r:
    Matrix)
    ensures
        mat_wf(r),
        r.n == 4,
        r.m == 4,
        forall|i: int, j: int|
            0 <= i < 4 && 0 <= j < 4 ==> mat_at(r, i, j) == shearing_at(
                xy@,
                xz@,
                yx@,
                yz@,
                zx@,
                zy@,
                i,
                j,
            ),
{
    let mut ret = Matrix::identity(4);
    ret.set(0, 1, xy);
    ret.set(0, 2, xz);
    ret.set(1, 0, yx);
    ret.set(1, 2, yz);
    ret.set(2, 0, zx);
    ret.set(2, 1, zy);
    ret
}

/// The world-to-camera transform for an eye at `from` looking at `to` with
/// the given up direction: the orientation built from the orthogonalized
/// camera axes, composed with the translation of the eye to the origin.
pub fn view_transform(from: Point, to: Point, up: Vector) -> (r: Matrix)
    ensures
        mat_wf(r),
        r.n == 4,
        r.m == 4,
        forall|i: int, j: int|
            0 <= i < 4 && 0 <= j < 4 ==> mat_at(r, i, j) == seq_row_dot(
                view_orientation(from, to, up),
                translation_seq(num_neg(from.x@), num_neg(from.y@), num_neg(from.z@)),
                i,
                j,
                4,
            ),
{
    let forward = to.sub(from).normalize();
    let upn = up.normalize();
    let left = forward.cross(&upn);
    let true_up = left.cross(&forward);

    let mut orientation = Matrix::identity(4);
    orientation.set(0, 0, left.x());
    orientation.set(0, 1, left.y());
    orientation.set(0, 2, left.z());
    orientation.set(1, 0, true_up.x());
    orientation.set(1, 1, true_up.y());
    orientation.set(1, 2, true_up.z());
    orientation.set(2, 0, forward.x().neg());
    orientation.set(2, 1, forward.y().neg());
    orientation.set(2, 2, forward.z().neg());

    let shift = translation(from.x().neg(), from.y().neg(), from.z().neg());
    let ret = match orientation.multiply(&shift) {
        Ok(mx) => mx,
        Err(_) => {
            proof {
                assert(false);
            }
            Matrix::identity(4)
        },
    };
    proof {
        assert(mat_seq(orientation) =~~= view_orientation(from, to, up));
        assert(mat_seq(shift) =~~= translation_seq(
            num_neg(from.x@),
            num_neg(from.y@),
            num_neg(from.z@),
        ));
    }
    ret
}

} // verus!
