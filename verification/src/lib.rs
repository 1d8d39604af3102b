//! A software ray tracer with a verified core.
//!
//! Every quantity of the renderer is a fixed-point number with nine decimal
//! digits after the point, so that all arithmetic (including the rounding in
//! multiplication, division and square roots) has an exact specification.
//! On top of that scalar the crate builds the usual ray-tracing pipeline:
//! points, vectors and colors, homogeneous matrices with cofactor inversion,
//! affine transform constructors, spheres and planes with ray intersection
//! and surface normals, procedural color patterns, Phong lighting with
//! shadows, a scene container, a camera, and a plain-text pixel encoder.
use vstd::prelude::*;

pub mod camera;
pub mod canvas;
pub mod color;
pub mod io;
pub mod light;
pub mod material;
pub mod matrix;
pub mod number;
pub mod objects;
pub mod pattern;
pub mod ray;
pub mod transform;
pub mod transformation;
pub mod world;
pub mod trig;
pub mod tuple;

verus! {

/// The error carried by every fallible operation of the crate:
/// a plain message describing what was rejected.
#[derive(Debug, Clone, PartialEq, Eq)]
pub struct Error {
    pub message: String,
}

impl Error {
    /// Builds an error from a static description.
    pub fn new(message: &str) -> (r: Error)
        ensures
            r.message@ == message@,
    {
        Error { message: message.to_owned() }
    }

    /// The human-readable description of the failure.
    pub fn message(&self) -> (r: &String)
        ensures
            r@ == self.message@,
    {
        &self.message
    }
}

} // verus!
