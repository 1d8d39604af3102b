//! Surface materials: a color or pattern plus the Phong reflectance
//! coefficients, with the documented defaults.
use crate::color::{c_new, Color};
use crate::number::{Number, SCALE};
use crate::pattern::Pattern;
use vstd::prelude::*;

verus! {

/// The material every fresh object carries: white, no pattern, ambient
/// one tenth, diffuse and specular nine tenths, shininess two hundred.
pub open spec fn default_material() -> Material {
    Material {
        color: c_new(SCALE as int, SCALE as int, SCALE as int),
        pattern: None,
        ambient: Number { raw: 100_000_000 },
        diffuse: Number { raw: 900_000_000 },
        specular: Number { raw: 900_000_000 },
        shininess: Number { raw: 200_000_000_000 },
    }
}

/// The reflectance description of a surface.
#[derive(Debug, PartialEq)]
pub struct Material {
    pub color: Color,
    pub pattern: Option<Pattern>,
    pub ambient: Number,
    pub diffuse: Number,
    pub specular: Number,
    pub shininess: Number,
}

impl Material {
    /// A structurally identical copy of the material.
    pub fn duplicate(&self) -> (r: Material)
        ensures
            r == *self,
    {
        Material {
            color: self.color,
            pattern: match &self.pattern {
                Some(p) => Some(p.duplicate()),
                None => None,
            },
            ambient: self.ambient,
            diffuse: self.diffuse,
            specular: self.specular,
            shininess: self.shininess,
        }
    }

    /// Whether two materials are structurally equal.
    pub fn equals(&self, other: &Material) -> (r: bool)
        ensures
            r == (*self == *other),
    {
        let patterns_match = match (&self.pattern, &other.pattern) {
            (None, None) => true,
            (Some(a), Some(b)) => a.equals(b),
            _ => false,
        };
        patterns_match && self.color == other.color && self.ambient == other.ambient
            && self.diffuse == other.diffuse && self.specular == other.specular
            && self.shininess == other.shininess
    }
}

/// A step-by-step constructor for materials, starting from the defaults.
#[derive(Debug)]
pub struct MaterialBuilder {
    pub color: Color,
    pub pattern: Option<Pattern>,
    pub ambient: Number,
    pub diffuse: Number,
    pub specular: Number,
    pub shininess: Number,
}

impl MaterialBuilder {
    /// A builder holding the default material.
    pub fn new() -> (r: MaterialBuilder)
        ensures
            r.color == default_material().color,
            r.pattern == default_material().pattern,
            r.ambient == default_material().ambient,
            r.diffuse == default_material().diffuse,
            r.specular == default_material().specular,
            r.shininess == default_material().shininess,
    {
        MaterialBuilder {
            color: Color::new(Number::one(), Number::one(), Number::one()),
            pattern: None,
            ambient: Number::from_raw(100_000_000),
            diffuse: Number::from_raw(900_000_000),
            specular: Number::from_raw(900_000_000),
            shininess: Number::from_raw(200_000_000_000),
        }
    }

    pub fn color(self, color: Color) -> (r: MaterialBuilder)
        ensures
            r == (MaterialBuilder { color, ..self }),
    {
        MaterialBuilder { color, ..self }
    }

    pub fn pattern(self, pattern: Pattern) -> (r: MaterialBuilder)
        ensures
            r == (MaterialBuilder { pattern: Some(pattern), ..self }),
    {
        MaterialBuilder { pattern: Some(pattern), ..self }
    }

    pub fn ambient(self, value: Number) -> (r: MaterialBuilder)
        ensures
            r == (MaterialBuilder { ambient: value, ..self }),
    {
        MaterialBuilder { ambient: value, ..self }
    }

    pub fn diffuse(self, value: Number) -> (r: MaterialBuilder)
        ensures
            r == (MaterialBuilder { diffuse: value, ..self }),
    {
        MaterialBuilder { diffuse: value, ..self }
    }

    pub fn specular(self, value: Number) -> (r: MaterialBuilder)
        ensures
            r == (MaterialBuilder { specular: value, ..self }),
    {
        MaterialBuilder { specular: value, ..self }
    }

    pub fn shininess(self, value: Number) -> (r: MaterialBuilder)
        ensures
            r == (MaterialBuilder { shininess: value, ..self }),
    {
        MaterialBuilder { shininess: value, ..self }
    }

    /// The material assembled from the builder's fields.
    pub fn build(self) -> (r: Material)
        ensures
            r.color == self.color,
            r.pattern == self.pattern,
            r.ambient == self.ambient,
            r.diffuse == self.diffuse,
            r.specular == self.specular,
            r.shininess == self.shininess,
    {
        Material {
            color: self.color,
            pattern: self.pattern,
            ambient: self.ambient,
            diffuse: self.diffuse,
            specular: self.specular,
            shininess: self.shininess,
        }
    }
}

} // verus!
