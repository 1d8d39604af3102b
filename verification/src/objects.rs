//! The geometric objects of a scene: spheres and planes as a closed union,
//! each owning a transform and a material, with ray intersection and
//! surface normals computed in object space.
use crate::material::{default_material, Material};
use crate::matrix::{
    mat4_seq, mat_seq, mat_wf, seq_det, seq_inverse, seq_transpose, Mat4, Matrix,
};
use crate::number::{
    is_sqrt, num_add, num_div, num_mul, num_neg, num_sqrt, num_sub, raws, Number, EPSILON, SCALE,
};
use crate::ray::{ray_position, ray_transformed, Ray};
use crate::transform::{
    transform_point, transform_vector, xform_point, xform_point_w, xform_vector, xform_vector_w,
};
use crate::tuple::{pt_add, pt_sub, v_mul, v_neg, v_new, v_normalize, vec_dot, Point, Vector};
use crate::Error;
use vstd::prelude::*;

verus! {

/// The offset of the shadow-ray origin along the surface normal, used to
/// avoid an object shadowing itself through rounding.
pub const OVER_POINT_OFFSET: i64 = 10_000;

/// A sphere with an origin and a radius (the unit sphere by default).
#[derive(Debug, PartialEq)]
pub struct Sphere {
    pub origin: Point,
    pub radius: Number,
    pub transformation: Mat4,
    pub material: Material,
}

/// The plane through the origin with normal along positive y.
#[derive(Debug, PartialEq)]
pub struct Plane {
    pub transformation: Mat4,
    pub material: Material,
}

/// Any scene object: the closed union over the supported primitives.
#[derive(Debug, PartialEq)]
pub enum Object3D {
    Sphere(Sphere),
    Plane(Plane),
}

/// The object's transform.
pub open spec fn obj_transformation(o: Object3D) -> Mat4 {
    match o {
        Object3D::Sphere(s) => s.transformation,
        Object3D::Plane(p) => p.transformation,
    }
}

/// The object's material.
pub open spec fn obj_material(o: Object3D) -> Material {
    match o {
        Object3D::Sphere(s) => s.material,
        Object3D::Plane(p) => p.material,
    }
}

/// Whether the object's transform can be inverted.
pub open spec fn obj_invertible(o: Object3D) -> bool {
    seq_det(mat4_seq(obj_transformation(o)), 4) != 0
}

/// The inverse of the object's transform, as a sequence view.
pub open spec fn obj_inv(o: Object3D) -> Seq<Seq<int>> {
    seq_inverse(mat4_seq(obj_transformation(o)), 4)
}

/// Whether a ray can be carried into the object's space.
pub open spec fn obj_intersect_ok(o: Object3D, r: Ray) -> bool {
    &&& obj_invertible(o)
    &&& xform_point_w(obj_inv(o), r.origin) == SCALE as int
    &&& xform_vector_w(obj_inv(o), r.direction) == 0
}

/// The ray carried into the object's space.
pub open spec fn obj_local_ray(o: Object3D, r: Ray) -> Ray {
    ray_transformed(obj_inv(o), r)
}

/// The distance vector from the sphere's center to the ray's origin.
pub open spec fn sphere_dist(s: Sphere, lr: Ray) -> Vector {
    pt_sub(lr.origin, s.origin)
}

/// Half the normalized linear coefficient of the sphere quadratic.
pub open spec fn sphere_p(s: Sphere, lr: Ray) -> int {
    num_div(vec_dot(lr.direction, sphere_dist(s, lr)), vec_dot(lr.direction, lr.direction))
}

/// The normalized constant coefficient of the sphere quadratic.
pub open spec fn sphere_q(s: Sphere, lr: Ray) -> int {
    num_div(
        num_sub(vec_dot(sphere_dist(s, lr), sphere_dist(s, lr)), num_mul(s.radius@, s.radius@)),
        vec_dot(lr.direction, lr.direction),
    )
}

/// The discriminant of the sphere quadratic (in normalized form).
pub open spec fn sphere_disc(s: Sphere, lr: Ray) -> int {
    num_sub(num_mul(sphere_p(s, lr), sphere_p(s, lr)), sphere_q(s, lr))
}

/// The roots of the sphere quadratic: none when the discriminant is
/// negative, otherwise the two (possibly equal) roots in ascending order.
pub open spec fn sphere_roots(s: Sphere, lr: Ray) -> Seq<int> {
    let p = sphere_p(s, lr);
    let disc = sphere_disc(s, lr);
    if disc >= 0 {
        let rt = num_sqrt(disc * SCALE as int);
        seq![num_sub(num_neg(p), rt), num_add(num_neg(p), rt)]
    } else {
        Seq::empty()
    }
}

/// The roots of a ray against the plane: none when the direction is
/// parallel to it, otherwise the single crossing.
pub open spec fn plane_roots(lr: Ray) -> Seq<int> {
    if crate::number::num_abs(lr.direction.y@) < EPSILON as int {
        Seq::empty()
    } else {
        seq![num_div(num_neg(lr.origin.y@), lr.direction.y@)]
    }
}

/// The local-space roots of an object for a local ray.
pub open spec fn local_roots(o: Object3D, lr: Ray) -> Seq<int> {
    match o {
        Object3D::Sphere(s) => sphere_roots(s, lr),
        Object3D::Plane(_) => plane_roots(lr),
    }
}

/// The roots of an object for a world-space ray.
pub open spec fn obj_roots(o: Object3D, r: Ray) -> Seq<int> {
    local_roots(o, obj_local_ray(o, r))
}

/// The local-space surface normal of an object at a local point.
pub open spec fn local_normal(o: Object3D, p: Point) -> Vector {
    match o {
        Object3D::Sphere(s) => pt_sub(p, s.origin),
        Object3D::Plane(_) => v_new(0, SCALE as int, 0),
    }
}

/// Whether the normal computation succeeds at a world point.
pub open spec fn obj_normal_ok(o: Object3D, p: Point) -> bool {
    &&& obj_invertible(o)
    &&& xform_point_w(obj_inv(o), p) == SCALE as int
}

/// The world-space surface normal at a world point: the local normal
/// carried out by the transposed inverse and normalized.
pub open spec fn obj_normal(o: Object3D, p: Point) -> Vector {
    v_normalize(
        xform_vector(
            seq_transpose(obj_inv(o), 4, 4),
            local_normal(o, xform_point(obj_inv(o), p)),
        ),
    )
}

/// Inverts an object or camera pose; rejected when its determinant is
/// zero.
pub(crate) fn invert_mat4(trans: &Mat4) -> (r: Result<Matrix, Error>)
    ensures
        r is Ok <==> seq_det(mat4_seq(*trans), 4) != 0,
        r matches Ok(m) ==> {
            &&& mat_wf(m)
            &&& m.n == 4
            &&& m.m == 4
            &&& mat_seq(m) == seq_inverse(mat4_seq(*trans), 4)
        },
{
    let m = trans.to_matrix();
    m.invert()
}

/// Carries a world ray into the space of a pose.
pub(crate) fn local_ray_of(trans: &Mat4, ray: &Ray) -> (r: Result<Ray, Error>)
    ensures
        r is Ok <==> {
            &&& seq_det(mat4_seq(*trans), 4) != 0
            &&& xform_point_w(seq_inverse(mat4_seq(*trans), 4), ray.origin) == SCALE as int
            &&& xform_vector_w(seq_inverse(mat4_seq(*trans), 4), ray.direction) == 0
        },
        r matches Ok(lr) ==> lr == ray_transformed(seq_inverse(mat4_seq(*trans), 4), *ray),
{
    let inv = match invert_mat4(trans) {
        Ok(m) => m,
        Err(e) => {
            return Err(e);
        },
    };
    ray.transform(&inv)
}

/// Carries a world point into the space of a pose.
pub(crate) fn local_point_of(trans: &Mat4, p: Point) -> (r: Result<Point, Error>)
    ensures
        r is Ok <==> {
            &&& seq_det(mat4_seq(*trans), 4) != 0
            &&& xform_point_w(seq_inverse(mat4_seq(*trans), 4), p) == SCALE as int
        },
        r matches Ok(q) ==> q == xform_point(seq_inverse(mat4_seq(*trans), 4), p),
{
    let inv = match invert_mat4(trans) {
        Ok(m) => m,
        Err(e) => {
            return Err(e);
        },
    };
    transform_point(p, &inv)
}

/// Carries a local normal out to world space through the transposed
/// inverse of a pose and normalizes it. The homogeneous coordinate the
/// multiplication produces is discarded: the transpose of an affine
/// inverse is in general not affine, and only the direction matters.
pub(crate) fn world_normal_of(trans: &Mat4, local: Vector) -> (r: Result<Vector, Error>)
    ensures
        r is Ok <==> seq_det(mat4_seq(*trans), 4) != 0,
        r matches Ok(v) ==> v == v_normalize(
            xform_vector(seq_transpose(seq_inverse(mat4_seq(*trans), 4), 4, 4), local),
        ),
{
    let inv = match invert_mat4(trans) {
        Ok(m) => m,
        Err(e) => {
            return Err(e);
        },
    };
    let t = inv.transpose();
    let normal = Vector::new(
        crate::transform::apply_row(&t, local.x, local.y, local.z, Number::zero(), 0),
        crate::transform::apply_row(&t, local.x, local.y, local.z, Number::zero(), 1),
        crate::transform::apply_row(&t, local.x, local.y, local.z, Number::zero(), 2),
    );
    Ok(normal.normalize())
}

impl Sphere {
    /// A sphere with the identity transform and the default material.
    pub fn new(origin: Point, radius: Number) -> (r: Sphere)
        ensures
            r.origin == origin,
            r.radius == radius,
            r.transformation == crate::matrix::mat4_identity_spec(),
            r.material == default_material(),
    {
        Sphere {
            origin,
            radius,
            transformation: Mat4::identity(),
            material: crate::material::MaterialBuilder::new().build(),
        }
    }

    /// The unit sphere at the origin.
    pub fn new_unit() -> (r: Sphere)
        ensures
            r.origin == crate::tuple::pt_new(0, 0, 0),
            r.radius@ == SCALE as int,
            r.transformation == crate::matrix::mat4_identity_spec(),
            r.material == default_material(),
    {
        Sphere::new(
            Point::new(Number::zero(), Number::zero(), Number::zero()),
            Number::one(),
        )
    }

    /// The roots of the sphere quadratic for a ray already in the sphere's
    /// own space.
    pub fn local_intersect(&self, local_ray: &Ray) -> (r: Vec<Number>)
        ensures
            raws(r@) == sphere_roots(*self, *local_ray),
    {
        let a = local_ray.origin();
        let b = local_ray.direction();
        let d = a.sub(self.origin);

        let b2 = b.dot(&b);
        let p = b.dot(&d).div(b2);
        let q = d.dot(&d).sub(self.radius.mul(self.radius)).div(b2);
        let x = p.mul(p).sub(q);

        let mut ret: Vec<Number> = Vec::new();
        if x.ge(Number::zero()) {
            let rt = x.sqrt();
            ret.push(p.neg().sub(rt));
            ret.push(p.neg().add(rt));
        }
        proof {
            assert(raws(ret@) =~= sphere_roots(*self, *local_ray));
        }
        ret
    }

    /// The local normal: the direction from the sphere's center.
    pub fn local_normal_at(&self, local_point: Point) -> (r: Vector)
        ensures
            r == pt_sub(local_point, self.origin),
    {
        local_point.sub(self.origin)
    }

    /// The roots for a world-space ray, found in the sphere's own space.
    pub fn intersect(&self, ray: &Ray) -> (r: Result<Vec<Number>, Error>)
        ensures
            r is Ok <==> obj_intersect_ok(Object3D::Sphere(*self), *ray),
            r matches Ok(ts) ==> raws(ts@) == sphere_roots(
                *self,
                ray_transformed(seq_inverse(mat4_seq(self.transformation), 4), *ray),
            ),
    {
        let local_ray = match local_ray_of(&self.transformation, ray) {
            Ok(lr) => lr,
            Err(e) => {
                return Err(e);
            },
        };
        Ok(self.local_intersect(&local_ray))
    }

    /// The world-space surface normal at a world point.
    pub fn normal_at(&self, pt: Point) -> (r: Result<Vector, Error>)
        ensures
            r is Ok <==> obj_normal_ok(Object3D::Sphere(*self), pt),
            r matches Ok(v) ==> v == obj_normal(Object3D::Sphere(*self), pt),
    {
        let local_point = match local_point_of(&self.transformation, pt) {
            Ok(p) => p,
            Err(e) => {
                return Err(e);
            },
        };
        let local = self.local_normal_at(local_point);
        world_normal_of(&self.transformation, local)
    }

    /// The sphere's material.
    pub fn material(&self) -> (r: &Material)
        ensures
            r == &self.material,
    {
        &self.material
    }

    /// Replaces the sphere's material.
    pub fn change_material(&mut self, material: Material)
        ensures
            final(self).material == material,
            final(self).origin == old(self).origin,
            final(self).radius == old(self).radius,
            final(self).transformation == old(self).transformation,
    {
        self.material = material;
    }

    /// The sphere's transform as a matrix.
    pub fn transformation(&self) -> (r: Matrix)
        ensures
            mat_wf(r),
            r.n == 4,
            r.m == 4,
            mat_seq(r) == mat4_seq(self.transformation),
    {
        self.transformation.to_matrix()
    }

    /// Replaces the sphere's transform; rejected when the matrix is not
    /// four-by-four.
    pub fn change_transformation(&mut self, t: Matrix) -> (r: Result<(), Error>)
        requires
            mat_wf(t),
        ensures
            r is Ok <==> (t.n == 4 && t.m == 4),
            r is Err ==> *final(self) == *old(self),
            r is Ok ==> {
                &&& final(self).origin == old(self).origin
                &&& final(self).radius == old(self).radius
                &&& final(self).material == old(self).material
                &&& mat4_seq(final(self).transformation) == mat_seq(t)
            },
    {
        let m4 = match Mat4::from_matrix(&t) {
            Ok(m) => m,
            Err(e) => {
                return Err(e);
            },
        };
        self.transformation = m4;
        Ok(())
    }

    /// A structurally identical copy of the sphere.
    pub fn duplicate(&self) -> (r: Sphere)
        ensures
            r == *self,
    {
        Sphere {
            origin: self.origin,
            radius: self.radius,
            transformation: self.transformation,
            material: self.material.duplicate(),
        }
    }
}

impl Plane {
    /// The x-z plane with the identity transform and the default material.
    pub fn new() -> (r: Plane)
        ensures
            r.transformation == crate::matrix::mat4_identity_spec(),
            r.material == default_material(),
    {
        Plane {
            transformation: Mat4::identity(),
            material: crate::material::MaterialBuilder::new().build(),
        }
    }

    /// The roots of a ray already in the plane's own space: none for a
    /// direction parallel to the plane.
    pub fn local_intersect(&self, local_ray: &Ray) -> (r: Vec<Number>)
        ensures
            raws(r@) == plane_roots(*local_ray),
    {
        let dir_y = local_ray.direction().y();
        let mut ret: Vec<Number> = Vec::new();
        if !dir_y.abs().lt(Number::from_raw(EPSILON)) {
            ret.push(local_ray.origin().y().neg().div(dir_y));
        }
        proof {
            assert(raws(ret@) =~= plane_roots(*local_ray));
        }
        ret
    }

    /// The local normal: constant, along positive y.
    pub fn local_normal_at(&self, _local_point: Point) -> (r: Vector)
        ensures
            r == v_new(0, SCALE as int, 0),
    {
        Vector::new(Number::zero(), Number::one(), Number::zero())
    }

    /// The roots for a world-space ray, found in the plane's own space.
    pub fn intersect(&self, ray: &Ray) -> (r: Result<Vec<Number>, Error>)
        ensures
            r is Ok <==> obj_intersect_ok(Object3D::Plane(*self), *ray),
            r matches Ok(ts) ==> raws(ts@) == plane_roots(
                ray_transformed(seq_inverse(mat4_seq(self.transformation), 4), *ray),
            ),
    {
        let local_ray = match local_ray_of(&self.transformation, ray) {
            Ok(lr) => lr,
            Err(e) => {
                return Err(e);
            },
        };
        Ok(self.local_intersect(&local_ray))
    }

    /// The world-space surface normal at a world point.
    pub fn normal_at(&self, pt: Point) -> (r: Result<Vector, Error>)
        ensures
            r is Ok <==> obj_normal_ok(Object3D::Plane(*self), pt),
            r matches Ok(v) ==> v == obj_normal(Object3D::Plane(*self), pt),
    {
        let local_point = match local_point_of(&self.transformation, pt) {
            Ok(p) => p,
            Err(e) => {
                return Err(e);
            },
        };
        let local = self.local_normal_at(local_point);
        world_normal_of(&self.transformation, local)
    }

    /// The plane's material.
    pub fn material(&self) -> (r: &Material)
        ensures
            r == &self.material,
    {
        &self.material
    }

    /// Replaces the plane's material.
    pub fn change_material(&mut self, material: Material)
        ensures
            final(self).material == material,
            final(self).transformation == old(self).transformation,
    {
        self.material = material;
    }

    /// The plane's transform as a matrix.
    pub fn transformation(&self) -> (r: Matrix)
        ensures
            mat_wf(r),
            r.n == 4,
            r.m == 4,
            mat_seq(r) == mat4_seq(self.transformation),
    {
        self.transformation.to_matrix()
    }

    /// Replaces the plane's transform; rejected when the matrix is not
    /// four-by-four.
    pub fn change_transformation(&mut self, t: Matrix) -> (r: Result<(), Error>)
        requires
            mat_wf(t),
        ensures
            r is Ok <==> (t.n == 4 && t.m == 4),
            r is Err ==> *final(self) == *old(self),
            r is Ok ==> {
                &&& final(self).material == old(self).material
                &&& mat4_seq(final(self).transformation) == mat_seq(t)
            },
    {
        let m4 = match Mat4::from_matrix(&t) {
            Ok(m) => m,
            Err(e) => {
                return Err(e);
            },
        };
        self.transformation = m4;
        Ok(())
    }

    /// A structurally identical copy of the plane.
    pub fn duplicate(&self) -> (r: Plane)
        ensures
            r == *self,
    {
        Plane { transformation: self.transformation, material: self.material.duplicate() }
    }
}

impl Object3D {
    /// The roots for a world-space ray: the ray is carried into the
    /// object's space by the inverse transform and handed to the
    /// primitive's local intersection.
    pub fn intersect(&self, ray: &Ray) -> (r: Result<Vec<Number>, Error>)
        ensures
            r is Ok <==> obj_intersect_ok(*self, *ray),
            r matches Ok(ts) ==> raws(ts@) == obj_roots(*self, *ray),
    {
        match self {
            Object3D::Sphere(s) => s.intersect(ray),
            Object3D::Plane(p) => p.intersect(ray),
        }
    }

    /// The world-space surface normal at a world point: the point is
    /// carried into object space, the local normal out through the
    /// transposed inverse, then normalized.
    pub fn normal_at(&self, pt: Point) -> (r: Result<Vector, Error>)
        ensures
            r is Ok <==> obj_normal_ok(*self, pt),
            r matches Ok(v) ==> v == obj_normal(*self, pt),
    {
        match self {
            Object3D::Sphere(s) => s.normal_at(pt),
            Object3D::Plane(p) => p.normal_at(pt),
        }
    }

    /// The object's material.
    pub fn material(&self) -> (r: &Material)
        ensures
            *r == obj_material(*self),
    {
        match self {
            Object3D::Sphere(s) => &s.material,
            Object3D::Plane(p) => &p.material,
        }
    }

    /// Replaces the object's material.
    pub fn change_material(&mut self, material: Material)
        ensures
            obj_material(*final(self)) == material,
            obj_transformation(*final(self)) == obj_transformation(*old(self)),
            *old(self) matches Object3D::Sphere(s) ==> (*final(self) matches Object3D::Sphere(s2)
                && s2.origin == s.origin && s2.radius == s.radius),
            *old(self) is Plane ==> *final(self) is Plane,
    {
        match self {
            Object3D::Sphere(s) => {
                s.material = material;
            },
            Object3D::Plane(p) => {
                p.material = material;
            },
        }
    }

    /// The object's transform as a matrix.
    pub fn transformation(&self) -> (r: Matrix)
        ensures
            mat_wf(r),
            r.n == 4,
            r.m == 4,
            mat_seq(r) == mat4_seq(obj_transformation(*self)),
    {
        match self {
            Object3D::Sphere(s) => s.transformation.to_matrix(),
            Object3D::Plane(p) => p.transformation.to_matrix(),
        }
    }

    /// Replaces the object's transform; rejected when the matrix is not
    /// four-by-four.
    pub fn change_transformation(&mut self, t: Matrix) -> (r: Result<(), Error>)
        requires
            mat_wf(t),
        ensures
            r is Ok <==> (t.n == 4 && t.m == 4),
            r is Err ==> *final(self) == *old(self),
            r is Ok ==> {
                &&& obj_material(*final(self)) == obj_material(*old(self))
                &&& mat4_seq(obj_transformation(*final(self))) == mat_seq(t)
                &&& (*old(self) matches Object3D::Sphere(s) ==> (*final(self) matches
                    Object3D::Sphere(s2) && s2.origin == s.origin && s2.radius == s.radius))
                &&& (*old(self) is Plane ==> *final(self) is Plane)
            },
    {
        match self {
            Object3D::Sphere(s) => s.change_transformation(t),
            Object3D::Plane(p) => p.change_transformation(t),
        }
    }

    /// A structurally identical copy of the object.
    pub fn duplicate(&self) -> (r: Object3D)
        ensures
            r == *self,
    {
        match self {
            Object3D::Sphere(s) => Object3D::Sphere(s.duplicate()),
            Object3D::Plane(p) => Object3D::Plane(p.duplicate()),
        }
    }

    /// Whether two objects are structurally equal.
    pub fn equals(&self, other: &Object3D) -> (r: bool)
        ensures
            r == (*self == *other),
    {
        match (self, other) {
            (Object3D::Sphere(a), Object3D::Sphere(b)) => a.origin == b.origin && a.radius
                == b.radius && a.transformation == b.transformation && a.material.equals(
                &b.material,
            ),
            (Object3D::Plane(a), Object3D::Plane(b)) => a.transformation == b.transformation
                && a.material.equals(&b.material),
            _ => false,
        }
    }
}

/// A ray/object crossing: the hit parameter, the ray, and the object hit.
#[derive(Debug)]
pub struct Intersection {
    pub ray: Ray,
    pub t: Number,
    pub partner: Object3D,
}

/// The intersection records of one object for one ray, in root order.
pub open spec fn spec_intersections(r: Ray, o: Object3D) -> Seq<Intersection> {
    obj_roots(o, r).map_values(
        |t: int| Intersection { ray: r, t: Number { raw: t as i64 }, partner: o },
    )
}

/// The concatenated intersection records of the first `k` objects.
pub open spec fn spec_many_intersections(r: Ray, objs: Seq<Object3D>, k: nat) -> Seq<Intersection>
    decreases k,
{
    if k == 0 {
        Seq::empty()
    } else {
        spec_many_intersections(r, objs, (k - 1) as nat) + spec_intersections(
            r,
            objs[k - 1],
        )
    }
}

/// Whether every listed object accepts the ray.
pub open spec fn many_intersect_ok(r: Ray, objs: Seq<Object3D>) -> bool {
    forall|i: int| 0 <= i < objs.len() ==> obj_intersect_ok(#[trigger] objs[i], r)
}

/// The geometry derived from a hit, precomputed for shading.
#[derive(Debug)]
pub struct ComputationResult {
    pub t: Number,
    pub ray: Ray,
    pub object: Object3D,
    pub point: Point,
    pub over_point: Point,
    pub eye_dir: Vector,
    pub normal: Vector,
    pub inside: bool,
}

/// The shading geometry of an intersection: hit point, eye direction,
/// possibly flipped normal, and the nudged shadow-ray origin.
pub open spec fn spec_prepare(i: Intersection) -> ComputationResult {
    let pt = ray_position(i.ray, i.t@);
    let eye_dir = v_neg(v_normalize(i.ray.direction));
    let n1 = v_normalize(obj_normal(i.partner, pt));
    let inside = vec_dot(eye_dir, n1) < 0;
    let normal = if inside {
        v_neg(n1)
    } else {
        n1
    };
    ComputationResult {
        t: i.t,
        ray: i.ray,
        object: i.partner,
        point: pt,
        over_point: pt_add(pt, v_mul(normal, OVER_POINT_OFFSET as int)),
        eye_dir,
        normal,
        inside,
    }
}

impl Intersection {
    /// The hit parameter.
    pub fn parameter(&self) -> (r: Number)
        ensures
            r == self.t,
    {
        self.t
    }

    /// The hit point on the ray.
    pub fn position(&self) -> (r: Point)
        ensures
            r == ray_position(self.ray, self.t@),
    {
        self.ray.position(self.t)
    }

    /// The object hit.
    pub fn partner(&self) -> (r: &Object3D)
        ensures
            r == &self.partner,
    {
        &self.partner
    }

    /// A structurally identical copy of the record.
    pub fn duplicate(&self) -> (r: Intersection)
        ensures
            r == *self,
    {
        Intersection { ray: self.ray, t: self.t, partner: self.partner.duplicate() }
    }

    /// Derives the shading geometry of this hit; rejected when the
    /// object's normal cannot be computed at the hit point.
    pub fn prepare_computations(&self) -> (r: Result<ComputationResult, Error>)
        ensures
            r is Ok <==> obj_normal_ok(self.partner, ray_position(self.ray, self.t@)),
            r matches Ok(c) ==> c == spec_prepare(*self),
    {
        let pt = self.ray.position(self.t);
        let eye_dir = self.ray.direction().normalize().neg();
        let base_normal = match self.partner.normal_at(pt) {
            Ok(n) => n,
            Err(e) => {
                return Err(e);
            },
        };
        let n1 = base_normal.normalize();
        let inside = eye_dir.dot(&n1).lt(Number::zero());
        let normal = if inside {
            n1.neg()
        } else {
            n1
        };
        let over_point = pt.add(normal.mul(Number::from_raw(OVER_POINT_OFFSET)));
        Ok(
            ComputationResult {
                t: self.t,
                ray: self.ray,
                object: self.partner.duplicate(),
                point: pt,
                over_point,
                eye_dir,
                normal,
                inside,
            },
        )
    }
}

/// The intersection records of one object for one ray.
pub fn find_intersections(ray: &Ray, partner: &Object3D) -> (r: Result<Vec<Intersection>, Error>)
    ensures
        r is Ok <==> obj_intersect_ok(*partner, *ray),
        r matches Ok(v) ==> v@ == spec_intersections(*ray, *partner),
{
    let ts = match partner.intersect(ray) {
        Ok(v) => v,
        Err(e) => {
            return Err(e);
        },
    };
    let mut ret: Vec<Intersection> = Vec::new();
    let mut i: usize = 0;
    while i < ts.len()
        invariant
            0 <= i <= ts.len(),
            raws(ts@) == obj_roots(*partner, *ray),
            ret@.len() == i,
            forall|k: int|
                0 <= k < i ==> ret@[k] == spec_intersections(*ray, *partner)[k],
        decreases ts.len() - i,
    {
        ret.push(Intersection { ray: *ray, t: ts[i], partner: partner.duplicate() });
        i = i + 1;
    }
    proof {
        assert(ret@ =~= spec_intersections(*ray, *partner));
    }
    Ok(ret)
}

/// The concatenated intersection records of many objects for one ray.
#[verifier::rlimit(100)]
pub fn find_many_intersections(ray: &Ray, partners: &Vec<Object3D>) -> (r: Result<
    Vec<Intersection>,
    Error,
>)
    ensures
        r is Ok <==> many_intersect_ok(*ray, partners@),
        r matches Ok(v) ==> v@ == spec_many_intersections(*ray, partners@, partners@.len()),
{
    let mut ret: Vec<Intersection> = Vec::new();
    let mut i: usize = 0;
    while i < partners.len()
        invariant
            0 <= i <= partners@.len(),
            forall|k: int| 0 <= k < i ==> obj_intersect_ok(#[trigger] partners@[k], *ray),
            ret@ == spec_many_intersections(*ray, partners@, i as nat),
        decreases partners@.len() - i,
    {
        let mut intersections = match find_intersections(ray, &partners[i]) {
            Ok(v) => v,
            Err(e) => {
                return Err(e);
            },
        };
        ret.append(&mut intersections);
        proof {
            assert(spec_many_intersections(*ray, partners@, (i + 1) as nat)
                == spec_many_intersections(*ray, partners@, i as nat) + spec_intersections(
                *ray,
                partners@[i as int],
            ));
        }
        i = i + 1;
    }
    Ok(ret)
}

/// The visible hit: among the records with a non-negative parameter, one
/// with the smallest parameter (the first seen on a tie); none when every
/// parameter is negative.
pub fn find_hit(intersections: Vec<Intersection>) -> (r: Option<Intersection>)
    ensures
        r is None <==> (forall|i: int|
            0 <= i < intersections@.len() ==> intersections@[i].t@ < 0),
        r matches Some(h) ==> {
            &&& exists|i: int| 0 <= i < intersections@.len() && intersections@[i] == h
            &&& h.t@ >= 0
            &&& forall|i: int|
                0 <= i < intersections@.len() && intersections@[i].t@ >= 0 ==> h.t@
                    <= intersections@[i].t@
        },
{
    let mut best: Option<usize> = None;
    let mut i: usize = 0;
    while i < intersections.len()
        invariant
            0 <= i <= intersections@.len(),
            best is None ==> forall|k: int| 0 <= k < i ==> intersections@[k].t@ < 0,
            best matches Some(b) ==> {
                &&& 0 <= b < i
                &&& intersections@[b as int].t@ >= 0
                &&& forall|k: int|
                    0 <= k < i && intersections@[k].t@ >= 0 ==> intersections@[b as int].t@
                        <= intersections@[k].t@
            },
        decreases intersections@.len() - i,
    {
        let t = intersections[i].t;
        if t.ge(Number::zero()) {
            best = match best {
                Some(b) => {
                    if intersections[b].t.le(t) {
                        Some(b)
                    } else {
                        Some(i)
                    }
                },
                None => Some(i),
            };
        }
        i = i + 1;
    }
    match best {
        Some(b) => Some(intersections[b].duplicate()),
        None => None,
    }
}

} // verus!

verus! {

/// A tangent ray: when the discriminant of the sphere quadratic is zero,
/// the two reported roots are equal.
pub proof fn lemma_tangent_roots_equal(s: Sphere, lr: Ray)
    requires
        sphere_disc(s, lr) == 0,
    ensures
        sphere_roots(s, lr).len() == 2,
        sphere_roots(s, lr)[0] == sphere_roots(s, lr)[1],
{
    crate::number::lemma_sqrt_unique(0, 0);
}

/// A missing ray: when the discriminant is negative there is no root, and
/// otherwise there are exactly two.
pub proof fn lemma_sphere_root_count(s: Sphere, lr: Ray)
    ensures
        sphere_disc(s, lr) < 0 ==> sphere_roots(s, lr).len() == 0,
        sphere_disc(s, lr) >= 0 ==> sphere_roots(s, lr).len() == 2,
{
}

} // verus!

verus! {

/// The two roots of the sphere quadratic lie symmetric about the point of
/// closest approach: away from the saturation bounds their raw values add
/// up to exactly twice the negated half coefficient.
pub proof fn lemma_sphere_roots_symmetric(s: Sphere, lr: Ray)
    requires
        sphere_disc(s, lr) >= 0,
        crate::number::num_abs(num_neg(sphere_p(s, lr))) + num_sqrt(
            sphere_disc(s, lr) * SCALE as int,
        ) <= i64::MAX as int,
    ensures
        sphere_roots(s, lr)[0] + sphere_roots(s, lr)[1] == 2 * num_neg(sphere_p(s, lr)),
{
    let p = sphere_p(s, lr);
    let disc = sphere_disc(s, lr);
    let rt = num_sqrt(disc * SCALE as int);
    assert(is_sqrt(disc * SCALE as int, rt)) by {
        crate::number::lemma_sqrt_witness(disc * SCALE as int);
    }
}

} // verus!
