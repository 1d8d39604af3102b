//! The camera: pixel dimensions, field of view, a pose, and the per-pixel
//! ray generation and render loop.
use crate::canvas::{canvas_at, canvas_wf, Canvas};
use crate::color::c_new;
use crate::matrix::{mat4_seq, mat_seq, mat_wf, seq_det, seq_inverse, Mat4, Matrix};
use crate::number::{num_add, num_clip, num_div, num_mul, num_sub, Number, HALF_SCALE, SCALE};
use crate::objects::{invert_mat4, many_intersect_ok, spec_many_intersections, spec_prepare};
use crate::ray::Ray;
use crate::transform::{transform_point, xform_point, xform_point_w};
use crate::trig::{spec_tan, tan};
use crate::tuple::{pt_new, pt_sub, v_normalize, Point};
use crate::world::{
    hit_chain_ok, is_min_hit, no_visible_hit, spec_shade_hit, World,
};
use crate::Error;
use vstd::prelude::*;

verus! {

/// The tangent of half the field of view: half the width of the canvas
/// plane one unit in front of the camera.
pub open spec fn spec_half_view(fov: int) -> int {
    spec_tan(num_div(fov, num_clip(2 * SCALE as int)))
}

/// The width-over-height ratio of the image.
pub open spec fn spec_aspect(hsize: int, vsize: int) -> int {
    num_div(num_clip(hsize * SCALE as int), num_clip(vsize * SCALE as int))
}

/// Half the world-space width of the canvas plane.
pub open spec fn spec_half_width(fov: int, hsize: int, vsize: int) -> int {
    if spec_aspect(hsize, vsize) >= SCALE as int {
        spec_half_view(fov)
    } else {
        num_mul(spec_half_view(fov), spec_aspect(hsize, vsize))
    }
}

/// Half the world-space height of the canvas plane.
pub open spec fn spec_half_height(fov: int, hsize: int, vsize: int) -> int {
    if spec_aspect(hsize, vsize) >= SCALE as int {
        num_div(spec_half_view(fov), spec_aspect(hsize, vsize))
    } else {
        spec_half_view(fov)
    }
}

/// The world-space size of one square pixel.
pub open spec fn spec_pixel_size(fov: int, hsize: int, vsize: int) -> int {
    num_div(
        num_mul(spec_half_width(fov, hsize, vsize), num_clip(2 * SCALE as int)),
        num_clip(hsize * SCALE as int),
    )
}

/// The derived fields agree with the camera's dimensions and field of
/// view.
pub open spec fn camera_wf(c: Camera) -> bool {
    &&& c.half_width@ == spec_half_width(c.field_of_view@, c.hsize as int, c.vsize as int)
    &&& c.half_height@ == spec_half_height(c.field_of_view@, c.hsize as int, c.vsize as int)
    &&& c.pixel_size@ == spec_pixel_size(c.field_of_view@, c.hsize as int, c.vsize as int)
}

/// The inverse of the camera's pose, as a sequence view.
pub open spec fn cam_inv(c: Camera) -> Seq<Seq<int>> {
    seq_inverse(mat4_seq(c.transform), 4)
}

/// The point on the canvas plane (one unit in front of the camera) that a
/// pixel's center maps to, in camera space.
pub open spec fn spec_canvas_point(c: Camera, x: int, y: int) -> Point {
    let xoffset = num_mul(num_add(num_clip(x * SCALE as int), HALF_SCALE as int), c.pixel_size@);
    let yoffset = num_mul(num_add(num_clip(y * SCALE as int), HALF_SCALE as int), c.pixel_size@);
    pt_new(
        num_sub(c.half_width@, xoffset),
        num_sub(c.half_height@, yoffset),
        num_clip(-1 * SCALE as int),
    )
}

/// Whether the ray for a pixel can be built: the pose inverts and both the
/// canvas point and the camera origin stay points.
pub open spec fn ray_for_pixel_ok(c: Camera, x: int, y: int) -> bool {
    &&& seq_det(mat4_seq(c.transform), 4) != 0
    &&& xform_point_w(cam_inv(c), spec_canvas_point(c, x, y)) == SCALE as int
    &&& xform_point_w(cam_inv(c), pt_new(0, 0, 0)) == SCALE as int
}

/// The world-space ray through a pixel's center.
pub open spec fn spec_ray_for_pixel(c: Camera, x: int, y: int) -> Ray {
    let pixel = xform_point(cam_inv(c), spec_canvas_point(c, x, y));
    let origin = xform_point(cam_inv(c), pt_new(0, 0, 0));
    Ray { origin, direction: v_normalize(pt_sub(pixel, origin)) }
}

/// What a rendered pixel must hold: black when the pixel's ray hits
/// nothing visible, otherwise the shading of a nearest visible hit.
pub open spec fn spec_pixel_matches(c: Camera, w: World, x: int, y: int, col: crate::color::Color)
    -> bool {
    let ray = spec_ray_for_pixel(c, x, y);
    let all = spec_many_intersections(ray, w.objects@, w.objects@.len());
    &&& (no_visible_hit(all) ==> col == c_new(0, 0, 0))
    &&& (!no_visible_hit(all) ==> exists|h: crate::objects::Intersection|
        is_min_hit(all, h) && col == spec_shade_hit(w.objects@, w.light->Some_0, spec_prepare(h)))
}

/// Whether resolving one pixel succeeds end to end.
pub open spec fn spec_pixel_ok(c: Camera, w: World, x: int, y: int) -> bool {
    &&& ray_for_pixel_ok(c, x, y)
    &&& many_intersect_ok(spec_ray_for_pixel(c, x, y), w.objects@)
    &&& forall|h: crate::objects::Intersection|
        is_min_hit(
            spec_many_intersections(
                spec_ray_for_pixel(c, x, y),
                w.objects@,
                w.objects@.len(),
            ),
            h,
        ) ==> hit_chain_ok(w.objects@, w.light->Some_0, h)
}

/// A camera over a `hsize` by `vsize` image with a field of view and a
/// world-to-camera pose.
#[derive(Debug)]
pub struct Camera {
    pub hsize: usize,
    pub vsize: usize,
    pub field_of_view: Number,
    pub transform: Mat4,
    pub pixel_size: Number,
    pub half_width: Number,
    pub half_height: Number,
}

impl Camera {
    /// A camera with the identity pose; the pixel size and half extents
    /// are derived from the field of view and the aspect ratio.
    pub fn new(hsize: usize, vsize: usize, field_of_view: Number) -> (r: Camera)
        requires
            hsize <= i64::MAX as usize,
            vsize <= i64::MAX as usize,
        ensures
            camera_wf(r),
            r.hsize == hsize,
            r.vsize == vsize,
            r.field_of_view == field_of_view,
            r.transform == crate::matrix::mat4_identity_spec(),
    {
        let half_view = tan(field_of_view.div(Number::from_int(2)));
        let aspect = Number::from_int(hsize as i64).div(Number::from_int(vsize as i64));
        let half_width: Number;
        let half_height: Number;
        if aspect.ge(Number::one()) {
            half_width = half_view;
            half_height = half_width.div(aspect);
        } else {
            half_width = half_view.mul(aspect);
            half_height = half_view;
        }
        let pixel_size = half_width.mul(Number::from_int(2)).div(Number::from_int(hsize as i64));
        Camera {
            hsize,
            vsize,
            field_of_view,
            transform: Mat4::identity(),
            pixel_size,
            half_width,
            half_height,
        }
    }

    /// The image width in pixels.
    pub fn hsize(&self) -> (r: usize)
        ensures
            r == self.hsize,
    {
        self.hsize
    }

    /// The image height in pixels.
    pub fn vsize(&self) -> (r: usize)
        ensures
            r == self.vsize,
    {
        self.vsize
    }

    /// The field of view in radians.
    pub fn field_of_view(&self) -> (r: Number)
        ensures
            r == self.field_of_view,
    {
        self.field_of_view
    }

    /// The camera's pose as a matrix.
    pub fn transform(&self) -> (r: Matrix)
        ensures
            mat_wf(r),
            r.n == 4,
            r.m == 4,
            mat_seq(r) == mat4_seq(self.transform),
    {
        self.transform.to_matrix()
    }

    /// Replaces the camera's pose; rejected when the matrix is not
    /// four-by-four.
    pub fn set_transformation(&mut self, t: Matrix) -> (r: Result<(), Error>)
        requires
            mat_wf(t),
        ensures
            r is Ok <==> (t.n == 4 && t.m == 4),
            r is Err ==> *final(self) == *old(self),
            r is Ok ==> {
                &&& final(self).hsize == old(self).hsize
                &&& final(self).vsize == old(self).vsize
                &&& final(self).field_of_view == old(self).field_of_view
                &&& final(self).pixel_size == old(self).pixel_size
                &&& final(self).half_width == old(self).half_width
                &&& final(self).half_height == old(self).half_height
                &&& mat4_seq(final(self).transform) == mat_seq(t)
            },
    {
        let m4 = match Mat4::from_matrix(&t) {
            Ok(m) => m,
            Err(e) => {
                return Err(e);
            },
        };
        self.transform = m4;
        Ok(())
    }

    /// The world-space size of one pixel.
    pub fn pixel_size(&self) -> (r: Number)
        ensures
            r == self.pixel_size,
    {
        self.pixel_size
    }

    /// The world-space ray through the center of pixel `(x, y)`; rejected
    /// when the camera's pose cannot be inverted or degenerates.
    pub fn ray_for_pixel(&self, x: usize, y: usize) -> (r: Result<Ray, Error>)
        requires
            x <= i64::MAX as usize,
            y <= i64::MAX as usize,
        ensures
            r is Ok <==> ray_for_pixel_ok(*self, x as int, y as int),
            r matches Ok(ray) ==> ray == spec_ray_for_pixel(*self, x as int, y as int),
    {
        let half = Number::from_raw(HALF_SCALE);
        let xoffset = Number::from_int(x as i64).add(half).mul(self.pixel_size);
        let yoffset = Number::from_int(y as i64).add(half).mul(self.pixel_size);

        let world_x = self.half_width.sub(xoffset);
        let world_y = self.half_height.sub(yoffset);

        let t_inv = match invert_mat4(&self.transform) {
            Ok(m) => m,
            Err(e) => {
                return Err(e);
            },
        };
        let pixel = match transform_point(
            Point::new(world_x, world_y, Number::from_int(-1)),
            &t_inv,
        ) {
            Ok(p) => p,
            Err(e) => {
                return Err(e);
            },
        };
        let origin = match transform_point(
            Point::new(Number::zero(), Number::zero(), Number::zero()),
            &t_inv,
        ) {
            Ok(p) => p,
            Err(e) => {
                return Err(e);
            },
        };
        let direction = pixel.sub(origin).normalize();
        Ok(Ray::new(origin, direction))
    }

    /// Renders the world: one ray per pixel, resolved by the world to a
    /// color and written to a fresh canvas in row-major order.
    #[verifier::rlimit(100)]
    pub fn render(&self, world: &World) -> (r: Result<Canvas, Error>)
        requires
            world.light is Some,
            self.hsize <= i64::MAX as usize,
            self.vsize <= i64::MAX as usize,
        ensures
            r matches Ok(canvas) ==> {
                &&& canvas_wf(canvas)
                &&& canvas.width == self.hsize
                &&& canvas.height == self.vsize
                &&& forall|x: int, y: int|
                    0 <= x < self.hsize && 0 <= y < self.vsize ==> spec_pixel_matches(
                        *self,
                        *world,
                        x,
                        y,
                        canvas_at(canvas, x, y),
                    )
            },
            (forall|x: int, y: int|
                0 <= x < self.hsize && 0 <= y < self.vsize ==> spec_pixel_ok(
                    *self,
                    *world,
                    x,
                    y,
                )) ==> r is Ok,
    {
        let mut ret = Canvas::new(self.hsize, self.vsize);
        let mut y: usize = 0;
        while y < self.vsize
            invariant
                0 <= y <= self.vsize,
                world.light is Some,
                self.hsize <= i64::MAX as usize,
                self.vsize <= i64::MAX as usize,
                canvas_wf(ret),
                ret.width == self.hsize,
                ret.height == self.vsize,
                forall|a: int, b: int|
                    0 <= a < self.hsize && 0 <= b < y ==> spec_pixel_matches(
                        *self,
                        *world,
                        a,
                        b,
                        canvas_at(ret, a, b),
                    ),
            decreases self.vsize - y,
        {
            let mut x: usize = 0;
            while x < self.hsize
                invariant
                    0 <= y < self.vsize,
                    0 <= x <= self.hsize,
                    world.light is Some,
                    self.hsize <= i64::MAX as usize,
                    self.vsize <= i64::MAX as usize,
                    canvas_wf(ret),
                    ret.width == self.hsize,
                    ret.height == self.vsize,
                    forall|a: int, b: int|
                        0 <= a < self.hsize && 0 <= b < y ==> spec_pixel_matches(
                            *self,
                            *world,
                            a,
                            b,
                            canvas_at(ret, a, b),
                        ),
                    forall|a: int|
                        0 <= a < x ==> spec_pixel_matches(
                            *self,
                            *world,
                            a,
                            y as int,
                            canvas_at(ret, a, y as int),
                        ),
                decreases self.hsize - x,
            {
                let ray = match self.ray_for_pixel(x, y) {
                    Ok(r0) => r0,
                    Err(e) => {
                        proof {
                            assert(!spec_pixel_ok(*self, *world, x as int, y as int));
                        }
                        return Err(e);
                    },
                };
                let color = match world.color_at_ray_hit(&ray) {
                    Ok(c) => c,
                    Err(e) => {
                        proof {
                            assert(!spec_pixel_ok(*self, *world, x as int, y as int));
                        }
                        return Err(e);
                    },
                };
                ret.set_pixel(x, y, color);
                x = x + 1;
            }
            y = y + 1;
        }
        Ok(ret)
    }
}

} // verus!
