//! The point light and the Phong lighting model.
use crate::color::{c_add, c_mul, c_new, c_scale, Color};
use crate::material::Material;
use crate::number::{num_floor, num_powi, Number};
use crate::objects::Object3D;
use crate::pattern::{color_at_object_ok, spec_color_at_object};
use crate::tuple::{pt_sub, spec_reflect, v_neg, v_normalize, vec_dot, Point, Vector};
use crate::Error;
use vstd::prelude::*;

verus! {

/// A point light: a position and an intensity color.
#[derive(Clone, Copy, Debug, PartialEq, Eq, Structural)]
pub struct PointLight {
    pub intensity: Color,
    pub position: Point,
}

/// The exponent used for the specular term: the shininess rounded down to
/// a whole number, clamped into the unsigned 32-bit range.
pub open spec fn shininess_exp(s: int) -> nat {
    let f = num_floor(s);
    if f < 0 {
        0
    } else if f > u32::MAX as int {
        u32::MAX as nat
    } else {
        f as nat
    }
}

/// The base color of a surface point: the pattern evaluated on the object
/// when the material has one, the material's flat color otherwise.
pub open spec fn spec_base_color(material: Material, object: Object3D, position: Point) -> Color {
    match material.pattern {
        Some(p) => spec_color_at_object(p, object, position),
        None => material.color,
    }
}

/// Whether resolving the base color succeeds (a flat color always does).
pub open spec fn lighting_ok(material: Material, object: Object3D, position: Point) -> bool {
    match material.pattern {
        Some(p) => color_at_object_ok(p, object, position),
        None => true,
    }
}

/// The Phong lighting model: the ambient term always applies; the diffuse
/// and specular terms only out of shadow, with the light in front of the
/// surface, and (for the specular term) the reflection toward the eye.
pub open spec fn spec_lighting(
    material: Material,
    object: Object3D,
    light: PointLight,
    position: Point,
    camera: Vector,
    surface: Vector,
    in_shadow: bool,
) -> Color {
    let normal = v_normalize(surface);
    let black = c_new(0, 0, 0);
    let color = spec_base_color(material, object, position);
    let effective_color = c_mul(color, light.intensity);
    let light_v = v_normalize(pt_sub(light.position, position));
    let ambient = c_scale(effective_color, material.ambient@);
    let light_dot_normal = vec_dot(light_v, normal);
    let diffuse = if !in_shadow && light_dot_normal >= 0 {
        c_scale(c_scale(effective_color, material.diffuse@), light_dot_normal)
    } else {
        black
    };
    let specular = if !in_shadow && light_dot_normal >= 0 {
        let reflect_v = v_neg(spec_reflect(light_v, normal));
        let reflect_dot_camera = vec_dot(reflect_v, camera);
        if reflect_dot_camera > 0 {
            c_scale(
                c_scale(light.intensity, material.specular@),
                num_powi(reflect_dot_camera, shininess_exp(material.shininess@)),
            )
        } else {
            black
        }
    } else {
        black
    };
    c_add(c_add(ambient, diffuse), specular)
}

/// Evaluates the Phong model at a surface point; rejected only when the
/// material's pattern cannot be evaluated on the object.
pub fn lighting(
    material: &Material,
    object: &Object3D,
    light: &PointLight,
    position: &Point,
    camera: &Vector,
    surface: &Vector,
    in_shadow: bool,
) -> (r: Result<Color, Error>)
    ensures
        r is Ok <==> lighting_ok(*material, *object, *position),
        r matches Ok(c) ==> c == spec_lighting(
            *material,
            *object,
            *light,
            *position,
            *camera,
            *surface,
            in_shadow,
        ),
{
    let normal = surface.normalize();
    let black = Color::black();

    let color = match &material.pattern {
        Some(pattern) => {
            match pattern.color_at_object(object, *position) {
                Ok(c) => c,
                Err(e) => {
                    return Err(e);
                },
            }
        },
        None => material.color,
    };

    let effective_color = color.mul(light.intensity);
    let light_v = light.position.sub(*position).normalize();

    let ambient = effective_color.scale(material.ambient);
    let mut diffuse = black;
    let mut specular = black;

    if !in_shadow {
        let light_dot_normal = light_v.dot(&normal);
        if light_dot_normal.ge(Number::zero()) {
            diffuse = effective_color.scale(material.diffuse).scale(light_dot_normal);

            let reflect_v = light_v.reflect(&normal).neg();
            let reflect_dot_camera = reflect_v.dot(camera);
            if reflect_dot_camera.gt(Number::zero()) {
                let factor = reflect_dot_camera.powi(shininess_exponent(material.shininess));
                specular = light.intensity.scale(material.specular).scale(factor);
            }
        }
    }

    Ok(ambient.add(diffuse).add(specular))
}

/// The specular exponent of a material's shininess.
fn shininess_exponent(s: Number) -> (r: u32)
    ensures
        r as nat == shininess_exp(s@),
{
    let f = s.floor();
    if f < 0 {
        0
    } else if f > u32::MAX as i64 {
        u32::MAX
    } else {
        f as u32
    }
}

/// In shadow the diffuse and specular terms vanish: the result is the
/// ambient term alone, whatever the light geometry.
pub proof fn lemma_lighting_in_shadow(
    material: Material,
    object: Object3D,
    light: PointLight,
    position: Point,
    camera: Vector,
    surface: Vector,
)
    ensures
        spec_lighting(material, object, light, position, camera, surface, true) == c_scale(
            c_mul(spec_base_color(material, object, position), light.intensity),
            material.ambient@,
        ),
{
}

/// With the light behind the surface (the light direction against the
/// normal), the diffuse and specular terms vanish: the result is the
/// ambient term alone.
pub proof fn lemma_lighting_light_behind(
    material: Material,
    object: Object3D,
    light: PointLight,
    position: Point,
    camera: Vector,
    surface: Vector,
)
    requires
        vec_dot(v_normalize(pt_sub(light.position, position)), v_normalize(surface)) < 0,
    ensures
        spec_lighting(material, object, light, position, camera, surface, false) == c_scale(
            c_mul(spec_base_color(material, object, position), light.intensity),
            material.ambient@,
        ),
{
}

} // verus!
