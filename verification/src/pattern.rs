//! Procedural color patterns.
//!
//! A pattern is a closed union: either a solid color or a nested two-child
//! pattern with a repetition rule and its own transform, so patterns
//! compose to arbitrary depth. Evaluation happens in pattern space: a world
//! point is carried through the inverse of the object's transform and then
//! through the inverse of the pattern's own transform.
use crate::color::{c_add, c_scale, c_sub, Color};
use crate::matrix::{
    mat4_identity_spec, mat4_seq, mat_seq, mat_wf, seq_det, seq_inverse, Mat4, Matrix,
};
use crate::number::{
    num_add, num_clip, num_floor, num_mul, num_sqrt, num_sub, Number, SCALE,
};
use crate::objects::{obj_inv, obj_invertible, Object3D};
use crate::transform::{transform_point, xform_point, xform_point_w};
use crate::tuple::Point;
use crate::Error;
use vstd::prelude::*;

verus! {

/// The repetition rule of a nested pattern.
#[derive(Clone, Copy, Debug, PartialEq, Eq, Structural)]
pub enum PatternKind {
    Stripes,
    Gradient,
    Ring,
    Checkers3D,
}

/// A pattern returning one constant color everywhere.
#[derive(Clone, Copy, Debug, PartialEq, Eq, Structural)]
pub struct SolidPattern(pub Color);

/// A pattern alternating or blending between two child patterns.
#[derive(Debug, PartialEq)]
pub struct NestedPattern {
    pub kind: PatternKind,
    pub pattern_a: Box<Pattern>,
    pub pattern_b: Box<Pattern>,
    pub transformation: Mat4,
}

/// Any pattern: the closed union over the supported pattern shapes.
#[derive(Debug, PartialEq)]
pub enum Pattern {
    Solid(SolidPattern),
    Nested(NestedPattern),
}

/// A convenience pattern built from two plain colors.
#[derive(Debug, PartialEq)]
pub struct TwoColorPattern {
    pub nested_pattern: NestedPattern,
}

/// The local transform of a pattern (the identity for a solid one).
pub open spec fn pattern_transformation(p: Pattern) -> Mat4 {
    match p {
        Pattern::Solid(_) => mat4_identity_spec(),
        Pattern::Nested(np) => np.transformation,
    }
}

/// Whether the pattern's own transform can be inverted.
pub open spec fn pattern_invertible(p: Pattern) -> bool {
    seq_det(mat4_seq(pattern_transformation(p)), 4) != 0
}

/// The inverse of the pattern's own transform, as a sequence view.
pub open spec fn pattern_inv(p: Pattern) -> Seq<Seq<int>> {
    seq_inverse(mat4_seq(pattern_transformation(p)), 4)
}

/// The color of a pattern at a point of pattern space.
pub open spec fn spec_color_at(p: Pattern, pt: Point) -> Color
    decreases p,
{
    match p {
        Pattern::Solid(sp) => sp.0,
        Pattern::Nested(np) => match np.kind {
            PatternKind::Stripes => {
                if num_floor(pt.x@) % 2 == 0 {
                    spec_color_at(*np.pattern_a, pt)
                } else {
                    spec_color_at(*np.pattern_b, pt)
                }
            },
            PatternKind::Gradient => {
                let ca = spec_color_at(*np.pattern_a, pt);
                let cb = spec_color_at(*np.pattern_b, pt);
                let fraction = num_sub(pt.x@, num_clip(num_floor(pt.x@) * SCALE as int));
                c_add(ca, c_scale(c_sub(cb, ca), fraction))
            },
            PatternKind::Ring => {
                let radius = num_sqrt(
                    num_add(num_mul(pt.x@, pt.x@), num_mul(pt.z@, pt.z@)) * SCALE as int,
                );
                if num_floor(radius) % 2 == 0 {
                    spec_color_at(*np.pattern_a, pt)
                } else {
                    spec_color_at(*np.pattern_b, pt)
                }
            },
            PatternKind::Checkers3D => {
                if (num_floor(pt.x@) + num_floor(pt.y@) + num_floor(pt.z@)) % 2 == 0 {
                    spec_color_at(*np.pattern_a, pt)
                } else {
                    spec_color_at(*np.pattern_b, pt)
                }
            },
        },
    }
}

/// Whether evaluating a pattern on an object at a world point succeeds:
/// both transforms invert and both conversions keep the point a point.
pub open spec fn color_at_object_ok(p: Pattern, o: Object3D, pt: Point) -> bool {
    &&& obj_invertible(o)
    &&& xform_point_w(obj_inv(o), pt) == SCALE as int
    &&& pattern_invertible(p)
    &&& xform_point_w(pattern_inv(p), xform_point(obj_inv(o), pt)) == SCALE as int
}

/// The color of a pattern on an object at a world point: the point carried
/// to object space, then to pattern space, then evaluated.
pub open spec fn spec_color_at_object(p: Pattern, o: Object3D, pt: Point) -> Color {
    spec_color_at(p, xform_point(pattern_inv(p), xform_point(obj_inv(o), pt)))
}

impl Pattern {
    /// The color at a point of pattern space.
    pub fn color_at(&self, pt: Point) -> (r: Color)
        ensures
            r == spec_color_at(*self, pt),
        decreases self,
    {
        match self {
            Pattern::Solid(sp) => sp.0,
            Pattern::Nested(np) => match np.kind {
                PatternKind::Stripes => {
                    if pt.x().floor_is_even() {
                        np.pattern_a.color_at(pt)
                    } else {
                        np.pattern_b.color_at(pt)
                    }
                },
                PatternKind::Gradient => {
                    let ca = np.pattern_a.color_at(pt);
                    let cb = np.pattern_b.color_at(pt);
                    let fraction = pt.x().sub(Number::from_int(pt.x().floor()));
                    ca.add(cb.sub(ca).scale(fraction))
                },
                PatternKind::Ring => {
                    let x2 = pt.x().mul(pt.x());
                    let z2 = pt.z().mul(pt.z());
                    proof {
                        crate::number::lemma_num_mul_self_nonneg(pt.x@);
                        crate::number::lemma_num_mul_self_nonneg(pt.z@);
                    }
                    let radius = x2.add(z2).sqrt();
                    if radius.floor_is_even() {
                        np.pattern_a.color_at(pt)
                    } else {
                        np.pattern_b.color_at(pt)
                    }
                },
                PatternKind::Checkers3D => {
                    let sum: i128 = pt.x().floor() as i128 + pt.y().floor() as i128 + pt.z()
                        .floor() as i128;
                    if sum_is_even(sum) {
                        np.pattern_a.color_at(pt)
                    } else {
                        np.pattern_b.color_at(pt)
                    }
                },
            },
        }
    }

    /// The color of this pattern on an object at a world point; rejected
    /// when a transform cannot be inverted or a conversion degenerates.
    pub fn color_at_object(&self, object: &Object3D, pt: Point) -> (r: Result<Color, Error>)
        ensures
            r is Ok <==> color_at_object_ok(*self, *object, pt),
            r matches Ok(c) ==> c == spec_color_at_object(*self, *object, pt),
    {
        let object_matrix = object.transformation();
        let object_inv = match object_matrix.invert() {
            Ok(m) => m,
            Err(e) => {
                return Err(e);
            },
        };
        let object_pt = match transform_point(pt, &object_inv) {
            Ok(p) => p,
            Err(e) => {
                return Err(e);
            },
        };
        let pattern_matrix = self.transformation();
        let pattern_inverse = match pattern_matrix.invert() {
            Ok(m) => m,
            Err(e) => {
                return Err(e);
            },
        };
        let pattern_pt = match transform_point(object_pt, &pattern_inverse) {
            Ok(p) => p,
            Err(e) => {
                return Err(e);
            },
        };
        Ok(self.color_at(pattern_pt))
    }

    /// The pattern's local transform as a matrix (the identity for a solid
    /// pattern).
    pub fn transformation(&self) -> (r: Matrix)
        ensures
            mat_wf(r),
            r.n == 4,
            r.m == 4,
            mat_seq(r) == mat4_seq(pattern_transformation(*self)),
    {
        match self {
            Pattern::Solid(_) => {
                let m4 = Mat4::identity();
                m4.to_matrix()
            },
            Pattern::Nested(np) => np.transformation.to_matrix(),
        }
    }

    /// Replaces a nested pattern's transform; a solid pattern has none and
    /// ignores the change. Rejected when the matrix is not four-by-four.
    pub fn change_transformation(&mut self, t: &Matrix) -> (r: Result<(), Error>)
        requires
            mat_wf(*t),
        ensures
            r is Ok <==> ((*old(self)) is Solid || (t.n == 4 && t.m == 4)),
            (*old(self)) is Solid ==> *final(self) == *old(self),
            r is Err ==> *final(self) == *old(self),
            (r is Ok && (*old(self)) is Nested) ==> {
                &&& (*final(self)) matches Pattern::Nested(np)
                &&& (*old(self)) matches Pattern::Nested(onp)
                &&& np.kind == onp.kind
                &&& np.pattern_a == onp.pattern_a
                &&& np.pattern_b == onp.pattern_b
                &&& mat4_seq(np.transformation) == mat_seq(*t)
            },
    {
        match self {
            Pattern::Solid(_) => Ok(()),
            Pattern::Nested(np) => {
                let m4 = match Mat4::from_matrix(t) {
                    Ok(m) => m,
                    Err(e) => {
                        return Err(e);
                    },
                };
                np.transformation = m4;
                Ok(())
            },
        }
    }

    /// A structurally identical copy of the pattern.
    pub fn duplicate(&self) -> (r: Pattern)
        ensures
            r == *self,
        decreases self,
    {
        match self {
            Pattern::Solid(sp) => Pattern::Solid(SolidPattern(sp.0)),
            Pattern::Nested(np) => Pattern::Nested(
                NestedPattern {
                    kind: np.kind,
                    pattern_a: Box::new(np.pattern_a.duplicate()),
                    pattern_b: Box::new(np.pattern_b.duplicate()),
                    transformation: np.transformation,
                },
            ),
        }
    }

    /// Whether two patterns are structurally equal.
    pub fn equals(&self, other: &Pattern) -> (r: bool)
        ensures
            r == (*self == *other),
        decreases self,
    {
        match (self, other) {
            (Pattern::Solid(a), Pattern::Solid(b)) => a == b,
            (Pattern::Nested(a), Pattern::Nested(b)) => {
                let kinds_match = match (a.kind, b.kind) {
                    (PatternKind::Stripes, PatternKind::Stripes) => true,
                    (PatternKind::Gradient, PatternKind::Gradient) => true,
                    (PatternKind::Ring, PatternKind::Ring) => true,
                    (PatternKind::Checkers3D, PatternKind::Checkers3D) => true,
                    _ => false,
                };
                kinds_match && a.transformation == b.transformation && a.pattern_a.equals(
                    &b.pattern_a,
                ) && a.pattern_b.equals(&b.pattern_b)
            },
            _ => false,
        }
    }
}

/// Whether a (small) whole number is even.
fn sum_is_even(v: i128) -> (r: bool)
    requires
        v != i128::MIN,
    ensures
        r == ((v as int) % 2 == 0),
{
    let m: u128 = if v < 0 {
        ((-v) as u128) % 2
    } else {
        (v as u128) % 2
    };
    proof {
        let vi = v as int;
        if v < 0 {
            assert((vi % 2 == 0) == ((-vi) % 2 == 0)) by (nonlinear_arith);
        }
    }
    m == 0
}

impl NestedPattern {
    /// A nested pattern with the given rule and children, and the identity
    /// transform.
    pub fn new(kind: PatternKind, pattern_a: Pattern, pattern_b: Pattern) -> (r: NestedPattern)
        ensures
            r.kind == kind,
            *r.pattern_a == pattern_a,
            *r.pattern_b == pattern_b,
            r.transformation == mat4_identity_spec(),
    {
        NestedPattern {
            kind,
            pattern_a: Box::new(pattern_a),
            pattern_b: Box::new(pattern_b),
            transformation: Mat4::identity(),
        }
    }

    pub fn new_stripes(pattern_a: Pattern, pattern_b: Pattern) -> (r: NestedPattern)
        ensures
            r.kind == PatternKind::Stripes,
            *r.pattern_a == pattern_a,
            *r.pattern_b == pattern_b,
            r.transformation == mat4_identity_spec(),
    {
        Self::new(PatternKind::Stripes, pattern_a, pattern_b)
    }

    pub fn new_gradient(pattern_a: Pattern, pattern_b: Pattern) -> (r: NestedPattern)
        ensures
            r.kind == PatternKind::Gradient,
            *r.pattern_a == pattern_a,
            *r.pattern_b == pattern_b,
            r.transformation == mat4_identity_spec(),
    {
        Self::new(PatternKind::Gradient, pattern_a, pattern_b)
    }

    pub fn new_ring(pattern_a: Pattern, pattern_b: Pattern) -> (r: NestedPattern)
        ensures
            r.kind == PatternKind::Ring,
            *r.pattern_a == pattern_a,
            *r.pattern_b == pattern_b,
            r.transformation == mat4_identity_spec(),
    {
        Self::new(PatternKind::Ring, pattern_a, pattern_b)
    }

    pub fn new_checkers3d(pattern_a: Pattern, pattern_b: Pattern) -> (r: NestedPattern)
        ensures
            r.kind == PatternKind::Checkers3D,
            *r.pattern_a == pattern_a,
            *r.pattern_b == pattern_b,
            r.transformation == mat4_identity_spec(),
    {
        Self::new(PatternKind::Checkers3D, pattern_a, pattern_b)
    }

    /// A structurally identical copy.
    pub fn duplicate(&self) -> (r: NestedPattern)
        ensures
            r == *self,
    {
        NestedPattern {
            kind: self.kind,
            pattern_a: Box::new(self.pattern_a.duplicate()),
            pattern_b: Box::new(self.pattern_b.duplicate()),
            transformation: self.transformation,
        }
    }
}

impl TwoColorPattern {
    /// The underlying nested pattern over two solid children.
    pub open spec fn spec_pattern(&self) -> Pattern {
        Pattern::Nested(self.nested_pattern)
    }

    fn new(kind: PatternKind, color_a: Color, color_b: Color) -> (r: TwoColorPattern)
        ensures
            r.nested_pattern.kind == kind,
            *r.nested_pattern.pattern_a == Pattern::Solid(SolidPattern(color_a)),
            *r.nested_pattern.pattern_b == Pattern::Solid(SolidPattern(color_b)),
            r.nested_pattern.transformation == mat4_identity_spec(),
    {
        TwoColorPattern {
            nested_pattern: NestedPattern::new(
                kind,
                Pattern::Solid(SolidPattern(color_a)),
                Pattern::Solid(SolidPattern(color_b)),
            ),
        }
    }

    pub fn new_stripes(color_a: Color, color_b: Color) -> (r: TwoColorPattern)
        ensures
            r.nested_pattern.kind == PatternKind::Stripes,
            *r.nested_pattern.pattern_a == Pattern::Solid(SolidPattern(color_a)),
            *r.nested_pattern.pattern_b == Pattern::Solid(SolidPattern(color_b)),
            r.nested_pattern.transformation == mat4_identity_spec(),
    {
        Self::new(PatternKind::Stripes, color_a, color_b)
    }

    pub fn new_gradient(color_a: Color, color_b: Color) -> (r: TwoColorPattern)
        ensures
            r.nested_pattern.kind == PatternKind::Gradient,
            *r.nested_pattern.pattern_a == Pattern::Solid(SolidPattern(color_a)),
            *r.nested_pattern.pattern_b == Pattern::Solid(SolidPattern(color_b)),
            r.nested_pattern.transformation == mat4_identity_spec(),
    {
        Self::new(PatternKind::Gradient, color_a, color_b)
    }

    pub fn new_ring(color_a: Color, color_b: Color) -> (r: TwoColorPattern)
        ensures
            r.nested_pattern.kind == PatternKind::Ring,
            *r.nested_pattern.pattern_a == Pattern::Solid(SolidPattern(color_a)),
            *r.nested_pattern.pattern_b == Pattern::Solid(SolidPattern(color_b)),
            r.nested_pattern.transformation == mat4_identity_spec(),
    {
        Self::new(PatternKind::Ring, color_a, color_b)
    }

    pub fn new_checkers3d(color_a: Color, color_b: Color) -> (r: TwoColorPattern)
        ensures
            r.nested_pattern.kind == PatternKind::Checkers3D,
            *r.nested_pattern.pattern_a == Pattern::Solid(SolidPattern(color_a)),
            *r.nested_pattern.pattern_b == Pattern::Solid(SolidPattern(color_b)),
            r.nested_pattern.transformation == mat4_identity_spec(),
    {
        Self::new(PatternKind::Checkers3D, color_a, color_b)
    }

    /// The color at a point of pattern space.
    pub fn color_at(&self, pt: Point) -> (r: Color)
        ensures
            r == spec_color_at(self.spec_pattern(), pt),
    {
        let p = self.as_pattern();
        p.color_at(pt)
    }

    /// The color of this pattern on an object at a world point.
    pub fn color_at_object(&self, object: &Object3D, pt: Point) -> (r: Result<Color, Error>)
        ensures
            r is Ok <==> color_at_object_ok(self.spec_pattern(), *object, pt),
            r matches Ok(c) ==> c == spec_color_at_object(self.spec_pattern(), *object, pt),
    {
        let p = self.as_pattern();
        p.color_at_object(object, pt)
    }

    /// The pattern's local transform as a matrix.
    pub fn transformation(&self) -> (r: Matrix)
        ensures
            mat_wf(r),
            r.n == 4,
            r.m == 4,
            mat_seq(r) == mat4_seq(self.nested_pattern.transformation),
    {
        self.nested_pattern.transformation.to_matrix()
    }

    /// Replaces the pattern's transform; rejected when the matrix is not
    /// four-by-four.
    pub fn change_transformation(&mut self, t: &Matrix) -> (r: Result<(), Error>)
        requires
            mat_wf(*t),
        ensures
            r is Ok <==> (t.n == 4 && t.m == 4),
            r is Err ==> *final(self) == *old(self),
            r is Ok ==> {
                &&& final(self).nested_pattern.kind == old(self).nested_pattern.kind
                &&& final(self).nested_pattern.pattern_a == old(self).nested_pattern.pattern_a
                &&& final(self).nested_pattern.pattern_b == old(self).nested_pattern.pattern_b
                &&& mat4_seq(final(self).nested_pattern.transformation) == mat_seq(*t)
            },
    {
        let m4 = match Mat4::from_matrix(t) {
            Ok(m) => m,
            Err(e) => {
                return Err(e);
            },
        };
        self.nested_pattern.transformation = m4;
        Ok(())
    }

    /// This pattern as the general pattern union.
    pub fn as_pattern(&self) -> (r: Pattern)
        ensures
            r == self.spec_pattern(),
    {
        Pattern::Nested(self.nested_pattern.duplicate())
    }
}

} // verus!

verus! {

/// A two-color stripe pattern over solid children, with the identity
/// transform.
pub open spec fn stripe_pattern(color_a: Color, color_b: Color) -> Pattern {
    Pattern::Nested(
        NestedPattern {
            kind: PatternKind::Stripes,
            pattern_a: Box::new(Pattern::Solid(SolidPattern(color_a))),
            pattern_b: Box::new(Pattern::Solid(SolidPattern(color_b))),
            transformation: mat4_identity_spec(),
        },
    )
}

/// A two-color stripe picks the first color exactly on the even unit
/// cells of x.
pub proof fn lemma_stripe_cells(color_a: Color, color_b: Color, pt: Point)
    ensures
        spec_color_at(stripe_pattern(color_a, color_b), pt) == if num_floor(pt.x@) % 2 == 0 {
            color_a
        } else {
            color_b
        },
{
    assert(spec_color_at(Pattern::Solid(SolidPattern(color_a)), pt) == color_a);
    assert(spec_color_at(Pattern::Solid(SolidPattern(color_b)), pt) == color_b);
}

/// Stripes repeat with period two: moving a point two units along x
/// leaves the color of a two-color stripe pattern unchanged.
pub proof fn lemma_stripe_period(color_a: Color, color_b: Color, pt: Point, pt2: Point)
    requires
        pt2.x@ == pt.x@ + 2 * SCALE as int,
        pt.x@ + 2 * SCALE as int <= i64::MAX as int,
    ensures
        spec_color_at(stripe_pattern(color_a, color_b), pt) == spec_color_at(
            stripe_pattern(color_a, color_b),
            pt2,
        ),
{
    vstd::arithmetic::div_mod::lemma_div_plus_one(pt.x@ + SCALE as int, SCALE as int);
    vstd::arithmetic::div_mod::lemma_div_plus_one(pt.x@, SCALE as int);
    assert(num_floor(pt2.x@) == num_floor(pt.x@) + 2);
    lemma_stripe_cells(color_a, color_b, pt);
    lemma_stripe_cells(color_a, color_b, pt2);
}

/// Stripes alternate on unit boundaries: moving a point one unit along x
/// swaps the two colors of a two-color stripe pattern.
pub proof fn lemma_stripe_alternation(color_a: Color, color_b: Color, pt: Point, pt2: Point)
    requires
        pt2.x@ == pt.x@ + SCALE as int,
        pt.x@ + SCALE as int <= i64::MAX as int,
    ensures
        spec_color_at(stripe_pattern(color_a, color_b), pt2) == if spec_color_at(
            stripe_pattern(color_a, color_b),
            pt,
        ) == color_a && color_a != color_b {
            color_b
        } else {
            color_a
        },
{
    vstd::arithmetic::div_mod::lemma_div_plus_one(pt.x@, SCALE as int);
    assert(num_floor(pt2.x@) == num_floor(pt.x@) + 1);
    lemma_stripe_cells(color_a, color_b, pt);
    lemma_stripe_cells(color_a, color_b, pt2);
}

} // verus!
