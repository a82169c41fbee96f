//! Surface materials and the Phong illumination model.

use vstd::prelude::*;

use crate::color::Color;
use crate::fx::{fx_floor_units, fx_powi, fxpowi, ifloor, ONE};
use crate::lights::PointLight;
use crate::matrix::invertible;
use crate::pattern::{pattern_transform, pattern_wf, spec_pattern_at_shape, Pattern};
use crate::shape::{reflect, shape_transform, spec_reflect, Shape};
use crate::tuple::{Point, Vector};

verus! {

/// The physical surface parameters of a shape.
#[derive(Clone, Copy, Debug, PartialEq, Eq)]
pub struct Material {
    pub color: Color,
    pub ambient: i64,
    pub diffuse: i64,
    pub specular: i64,
    pub shininess: i64,
    pub reflective: i64,
    pub transparency: i64,
    pub refractive_index: i64,
    pub pattern: Option<Pattern>,
}

impl Default for Material {
    /// The default surface: white, mostly diffuse, shininess two hundred,
    /// neither reflective nor transparent, with the refractive index of a
    /// vacuum and no pattern.
    fn default() -> (m: Material)
        ensures
            m == spec_default_material(),
    {
        Material {
            color: Color { red: ONE, green: ONE, blue: ONE },
            ambient: 1_000_000_000_000,
            diffuse: 9_000_000_000_000,
            specular: 9_000_000_000_000,
            shininess: 2_000_000_000_000_000,
            reflective: 0,
            transparency: 0,
            refractive_index: ONE,
            pattern: None,
        }
    }
}

/// The material every shape starts with.
pub open spec fn spec_default_material() -> Material {
    Material {
        color: Color { red: ONE, green: ONE, blue: ONE },
        ambient: 1_000_000_000_000i64,
        diffuse: 9_000_000_000_000i64,
        specular: 9_000_000_000_000i64,
        shininess: 2_000_000_000_000_000i64,
        reflective: 0i64,
        transparency: 0i64,
        refractive_index: ONE,
        pattern: None,
    }
}

/// The specular exponent: the floor of the shininess, clamped to a plain
/// nonnegative count.
pub open spec fn shininess_exp(s: i64) -> nat {
    if ifloor(s) < 0 {
        0
    } else if ifloor(s) > u32::MAX {
        u32::MAX as nat
    } else {
        ifloor(s) as nat
    }
}

/// What `lighting` needs of its shape argument: the transforms it inverts
/// must be invertible whenever a pattern is consulted.
pub open spec fn lighting_wf(material: Material, object: Shape) -> bool {
    material.pattern is Some ==> {
        &&& pattern_wf(material.pattern.unwrap())
        &&& invertible(shape_transform(object))
    }
}

/// Phong illumination: ambient, diffuse and specular terms of one light.
pub open spec fn spec_lighting(
    material: Material,
    object: Shape,
    light: PointLight,
    point: Point,
    eyev: Vector,
    normalv: Vector,
    in_shadow: bool,
) -> Color
    recommends
        lighting_wf(material, object),
{
    let color = match material.pattern {
        Some(p) => spec_pattern_at_shape(p, object, point),
        None => material.color,
    };
    let effective = color.spec_mul(light.intensity);
    let lightv = light.position.spec_sub(point).spec_normalize();
    let ambient = effective.spec_scale(material.ambient);
    let light_dot_normal = lightv.spec_dot(normalv);
    let black = Color { red: 0i64, green: 0i64, blue: 0i64 };
    let pair = if light_dot_normal < 0 || in_shadow {
        (black, black)
    } else {
        let diffuse = effective.spec_scale(material.diffuse).spec_scale(light_dot_normal);
        let reflectv = spec_reflect(lightv.spec_neg(), normalv);
        let reflect_dot_eye = reflectv.spec_dot(eyev);
        if reflect_dot_eye <= 0 {
            (diffuse, black)
        } else {
            let factor = fxpowi(reflect_dot_eye, shininess_exp(material.shininess));
            (diffuse, light.intensity.spec_scale(material.specular).spec_scale(factor))
        }
    };
    ambient.spec_add(pair.0).spec_add(pair.1)
}

/// The color one light gives a point on a surface.
pub fn lighting(
    material: &Material,
    object: &Shape,
    light: &PointLight,
    point: &Point,
    eyev: &Vector,
    normalv: &Vector,
    in_shadow: bool,
) -> (c: Color)
    requires
        lighting_wf(*material, *object),
    ensures
        c == spec_lighting(*material, *object, *light, *point, *eyev, *normalv, in_shadow),
{
    let color = match &material.pattern {
        Some(p) => p.pattern_at_shape(object, point),
        None => material.color,
    };
    let effective = color.mul(light.intensity);
    let lightv = light.position.sub(*point).normalize();
    let ambient = effective.scale(material.ambient);
    let light_dot_normal = lightv.dot(*normalv);
    let black = Color::black();
    let (diffuse, specular) = if light_dot_normal < 0 || in_shadow {
        (black, black)
    } else {
        let diffuse = effective.scale(material.diffuse).scale(light_dot_normal);
        let reflectv = reflect(lightv.neg(), *normalv);
        let reflect_dot_eye = reflectv.dot(*eyev);
        if reflect_dot_eye <= 0 {
            (diffuse, black)
        } else {
            let u = fx_floor_units(material.shininess);
            let e: u32 = if u < 0 {
                0
            } else if u > u32::MAX as i64 {
                u32::MAX
            } else {
                u as u32
            };
            let factor = fx_powi(reflect_dot_eye, e);
            (diffuse, light.intensity.scale(material.specular).scale(factor))
        }
    };
    ambient.add(diffuse).add(specular)
}

} // verus!
