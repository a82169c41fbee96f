use std::f64::consts::{FRAC_1_SQRT_2, SQRT_2};

use raytracer::color::Color;
use raytracer::fx::{fx_approx, EPS};
use raytracer::lights::PointLight;
use raytracer::materials::Material;
use raytracer::matrix::Matrix;
use raytracer::ray::{intersections, Intersection, Ray};
use raytracer::shape::{Plane, Shape, Sphere};
use raytracer::tuple::{Point, Vector};
use raytracer::world::{prepare_computations, World};
use raytracer::DEFAULT_REFLECTION_COUNT;

fn fx(v: f64) -> i64 {
    (v * 10_000_000_000_000.0).round() as i64
}

fn ap(a: i64, e: f64) -> bool {
    fx_approx(a, fx(e))
}

fn cap(c: Color, r: f64, g: f64, b: f64) -> bool {
    fx_approx(c.red, fx(r)) && fx_approx(c.green, fx(g)) && fx_approx(c.blue, fx(b))
}

fn pt(x: f64, y: f64, z: f64) -> Point {
    Point::new(fx(x), fx(y), fx(z))
}

fn vc(x: f64, y: f64, z: f64) -> Vector {
    Vector::new(fx(x), fx(y), fx(z))
}

fn pap(p: Point, x: f64, y: f64, z: f64) -> bool {
    ap(p.x, x) && ap(p.y, y) && ap(p.z, z)
}

fn vap(v: Vector, x: f64, y: f64, z: f64) -> bool {
    ap(v.x, x) && ap(v.y, y) && ap(v.z, z)
}

#[test]
fn world_create_a_world() {
    let w = World::new();
    assert!(w.objects.is_empty());
    assert!(w.lights.is_empty());
}

#[test]
fn world_default_world() {
    let light = PointLight::new(pt(-10.0, 10.0, -10.0), Color::white());
    let s1 = {
        let mut s = Sphere::new(0);
        let mut m = Material::default();
        m.color = Color::new(fx(0.8), fx(1.0), fx(0.6));
        m.diffuse = fx(0.7);
        m.specular = fx(0.2);
        s.material = m;
        Shape::Sphere(s)
    };
    let s2 = {
        let mut s = Sphere::new(1);
        s.transform = Matrix::identity().scaling(fx(0.5), fx(0.5), fx(0.5));
        Shape::Sphere(s)
    };
    let w = World::default();
    assert!(w.lights.contains(&light));
    assert!(w.objects.contains(&s1));
    assert!(w.objects.contains(&s2));
}

#[test]
fn world_intersect_world_with_ray() {
    let w = World::default();
    let r = Ray::new(pt(0.0, 0.0, -5.0), vc(0.0, 0.0, 1.0));
    let xs = w.intersect(&r);
    assert_eq!(xs.len(), 4);
    assert!(ap(xs[0].t, 4.0));
    assert!(ap(xs[1].t, 4.5));
    assert!(ap(xs[2].t, 5.5));
    assert!(ap(xs[3].t, 6.0));
}

#[test]
fn world_precomputing_state_of_intersection() {
    let r = Ray::new(pt(0.0, 0.0, -5.0), vc(0.0, 0.0, 1.0));
    let shape = Shape::Sphere(Sphere::new(0));
    let i = Intersection::new(fx(4.0), shape);
    let comps = prepare_computations(&i, &r, &vec![]);
    assert_eq!(comps.t, i.t);
    assert_eq!(comps.object, i.object);
    assert!(pap(comps.point, 0.0, 0.0, -1.0));
    assert!(vap(comps.eyev, 0.0, 0.0, -1.0));
    assert!(vap(comps.normalv, 0.0, 0.0, -1.0));
}

#[test]
fn world_hit_when_intersection_occurs_on_exterior() {
    let r = Ray::new(pt(0.0, 0.0, -5.0), vc(0.0, 0.0, 1.0));
    let shape = Shape::Sphere(Sphere::new(0));
    let i = Intersection::new(fx(4.0), shape);
    let comps = prepare_computations(&i, &r, &vec![]);
    assert_eq!(comps.inside, false);
}

#[test]
fn world_hit_when_intersection_occurs_on_interior() {
    let r = Ray::new(pt(0.0, 0.0, 0.0), vc(0.0, 0.0, 1.0));
    let shape = Shape::Sphere(Sphere::new(0));
    let i = Intersection::new(fx(1.0), shape);
    let comps = prepare_computations(&i, &r, &vec![]);
    assert!(pap(comps.point, 0.0, 0.0, 1.0));
    assert!(vap(comps.eyev, 0.0, 0.0, -1.0));
    assert_eq!(comps.inside, true);
    assert!(vap(comps.normalv, 0.0, 0.0, -1.0));
}

#[test]
fn world_shading_an_intersection() {
    let w = World::default();
    let r = Ray::new(pt(0.0, 0.0, -5.0), vc(0.0, 0.0, 1.0));
    let shape = w.objects[0];
    let i = Intersection::new(fx(4.0), shape);
    let comps = prepare_computations(&i, &r, &vec![]);
    let c = w.shade_hit(&comps, DEFAULT_REFLECTION_COUNT);
    assert!(cap(c, 0.38066, 0.47583, 0.2855));
}

#[test]
fn world_shading_an_intersection_from_inside() {
    let mut w = World::default();
    w.lights[0] = PointLight::new(pt(0.0, 0.25, 0.0), Color::white());
    let r = Ray::new(pt(0.0, 0.0, 0.0), vc(0.0, 0.0, 1.0));
    let shape = w.objects[1];
    let i = Intersection::new(fx(0.5), shape);
    let comps = prepare_computations(&i, &r, &vec![]);
    let c = w.shade_hit(&comps, DEFAULT_REFLECTION_COUNT);
    assert!(cap(c, 0.90498, 0.90498, 0.90498));
}

#[test]
fn world_color_when_ray_misses() {
    let w = World::default();
    let r = Ray::new(pt(0.0, 0.0, -5.0), vc(0.0, 1.0, 0.0));
    let c = w.color_at(&r, DEFAULT_REFLECTION_COUNT);
    assert_eq!(c, Color::black());
}

#[test]
fn world_color_when_ray_hits() {
    let w = World::default();
    let r = Ray::new(pt(0.0, 0.0, -5.0), vc(0.0, 0.0, 1.0));
    let c = w.color_at(&r, DEFAULT_REFLECTION_COUNT);
    assert!(cap(c, 0.38066, 0.47583, 0.2855));
}

#[test]
fn world_color_with_intersection_behind_ray() {
    let mut w = World::default();
    let mut m0 = w.objects[0].get_material();
    m0.ambient = fx(1.0);
    w.objects[0].set_material(m0);
    let mut m1 = w.objects[1].get_material();
    m1.ambient = fx(1.0);
    w.objects[1].set_material(m1);
    let r = Ray::new(pt(0.0, 0.0, 0.75), vc(0.0, 0.0, -1.0));
    let c = w.color_at(&r, DEFAULT_REFLECTION_COUNT);
    let inner = w.objects[1].get_material().color;
    assert!(c.approx_eq(&inner));
}

#[test]
fn world_no_shadow_when_not_colinear_with_point_and_light() {
    let w = World::default();
    let p = pt(0.0, 10.0, 0.0);
    assert!(!w.is_shadowed(&w.lights[0], &p));
}

#[test]
fn world_shadow_when_object_between_point_and_light() {
    let w = World::default();
    let p = pt(10.0, -10.0, 10.0);
    assert!(w.is_shadowed(&w.lights[0], &p));
}

#[test]
fn world_no_shadow_when_object_behind_light() {
    let w = World::default();
    let p = pt(-20.0, 20.0, -20.0);
    assert!(!w.is_shadowed(&w.lights[0], &p));
}

#[test]
fn world_no_shadow_when_object_behind_point() {
    let w = World::default();
    let p = pt(0.0, 10.0, 0.0);
    assert!(!w.is_shadowed(&w.lights[0], &p));
}

#[test]
fn world_shade_hit_given_intersection_in_shadow() {
    let mut w = World::default();
    w.lights = vec![PointLight::new(pt(0.0, 0.0, -10.0), Color::white())];
    let s1 = Sphere::new(2);
    w.objects.push(Shape::Sphere(s1));
    let mut s2 = Sphere::new(3);
    s2.transform = Matrix::identity().translation(0, 0, fx(10.0));
    w.objects.push(Shape::Sphere(s2));
    let r = Ray::new(pt(0.0, 0.0, 5.0), vc(0.0, 0.0, 1.0));
    let i = Intersection::new(fx(4.0), w.objects[3]);
    let comps = prepare_computations(&i, &r, &vec![]);
    let c = w.shade_hit(&comps, DEFAULT_REFLECTION_COUNT);
    assert!(cap(c, 0.1, 0.1, 0.1));
}

#[test]
fn world_hit_should_offset_point() {
    let r = Ray::new(pt(0.0, 0.0, -5.0), vc(0.0, 0.0, 1.0));
    let mut shape = Sphere::new(0);
    shape.transform = Matrix::identity().translation(0, 0, fx(1.0));
    let i = Intersection::new(fx(5.0), Shape::Sphere(shape));
    let comps = prepare_computations(&i, &r, &vec![]);
    assert!(comps.over_point.z < -EPS / 2);
    assert!(comps.point.z > comps.over_point.z);
}

#[test]
fn precomputing_reflection_vector() {
    let shape = Shape::Plane(Plane::new(0));
    let r = Ray::new(pt(0.0, 1.0, -1.0), vc(0.0, -FRAC_1_SQRT_2, FRAC_1_SQRT_2));
    let i = Intersection::new(fx(SQRT_2), shape);
    let comps = prepare_computations(&i, &r, &vec![]);
    assert!(vap(comps.reflectv, 0.0, FRAC_1_SQRT_2, FRAC_1_SQRT_2));
}

#[test]
fn reflection_for_nonreflective_material() {
    let mut w = World::default();
    let r = Ray::new(pt(0.0, 0.0, 0.0), vc(0.0, 0.0, 1.0));
    let mut m = w.objects[1].get_material();
    m.ambient = fx(1.0);
    w.objects[1].set_material(m);
    let shape = w.objects[1];
    let i = Intersection::new(fx(1.0), shape);
    let comps = prepare_computations(&i, &r, &vec![]);
    let color = w.reflected_color(&comps, DEFAULT_REFLECTION_COUNT);
    assert_eq!(color, Color::black());
}

#[test]
fn reflected_color_for_reflective_material() {
    let mut w = World::default();
    let mut shape = Plane::new(0);
    shape.material.reflective = fx(0.5);
    shape.transform = Matrix::default().translation(0, fx(-1.0), 0);
    let shape = Shape::Plane(shape);
    w.objects.push(shape);
    let r = Ray::new(pt(0.0, 0.0, -3.0), vc(0.0, -FRAC_1_SQRT_2, FRAC_1_SQRT_2));
    let i = Intersection::new(fx(SQRT_2), shape);
    let comps = prepare_computations(&i, &r, &vec![]);
    let color = w.reflected_color(&comps, DEFAULT_REFLECTION_COUNT);
    assert!(cap(color, 0.19032, 0.2379, 0.14274));
}

#[test]
fn shade_hit_with_reflective_material() {
    let mut w = World::default();
    let mut shape = Plane::new(0);
    shape.material.reflective = fx(0.5);
    shape.transform = Matrix::default().translation(0, fx(-1.0), 0);
    let shape = Shape::Plane(shape);
    w.objects.push(shape);
    let r = Ray::new(pt(0.0, 0.0, -3.0), vc(0.0, -FRAC_1_SQRT_2, FRAC_1_SQRT_2));
    let i = Intersection::new(fx(SQRT_2), shape);
    let comps = prepare_computations(&i, &r, &vec![]);
    let color = w.shade_hit(&comps, DEFAULT_REFLECTION_COUNT);
    assert!(cap(color, 0.87677, 0.92436, 0.82918));
}

#[test]
fn color_at_with_mutually_reflective_surfaces() {
    let mut w = World::default();
    w.lights = vec![PointLight::new(pt(0.0, 0.0, 0.0), Color::white())];
    let mut lower = Plane::new(0);
    lower.material.reflective = fx(1.0);
    lower.transform = Matrix::default().translation(0, fx(-1.0), 0);
    let mut upper = Plane::new(1);
    upper.material.reflective = fx(1.0);
    upper.transform = Matrix::default().translation(0, fx(1.0), 0);
    w.objects = vec![Shape::Plane(lower), Shape::Plane(upper)];
    let r = Ray::new(pt(0.0, 0.0, 0.0), vc(0.0, 1.0, 0.0));
    let c = w.color_at(&r, DEFAULT_REFLECTION_COUNT);
    assert_eq!(c, c);
}

#[test]
fn reflected_color_at_max_recursive_depth() {
    let mut w = World::default();
    let mut shape = Plane::new(0);
    shape.material.reflective = fx(0.5);
    shape.transform = Matrix::default().translation(0, fx(-1.0), 0);
    let shape = Shape::Plane(shape);
    w.objects.push(shape);
    let r = Ray::new(pt(0.0, 0.0, -3.0), vc(0.0, -FRAC_1_SQRT_2, FRAC_1_SQRT_2));
    let i = Intersection::new(fx(SQRT_2), shape);
    let comps = prepare_computations(&i, &r, &vec![]);
    let color = w.reflected_color(&comps, 0);
    assert_eq!(color, Color::black());
}

#[test]
fn refracted_color_with_opaque_surface() {
    let w = World::default();
    let shape = w.objects[0];
    let r = Ray::new(pt(0.0, 0.0, -5.0), vc(0.0, 0.0, 1.0));
    let i1 = Intersection::new(fx(4.0), shape);
    let i2 = Intersection::new(fx(6.0), shape);
    let xs = intersections(vec![i1, i2]);
    let comps = prepare_computations(&xs[0], &r, &xs);
    let c = w.refracted_color(&comps, 5);
    assert_eq!(c, Color::black());
}

#[test]
fn refracted_color_at_maximum_recursive_depth() {
    let mut w = World::default();
    let mut m = w.objects[0].get_material();
    m.transparency = fx(1.0);
    m.refractive_index = fx(1.5);
    w.objects[0].set_material(m);
    let shape = w.objects[0];
    let r = Ray::new(pt(0.0, 0.0, -5.0), vc(0.0, 0.0, 1.0));
    let i1 = Intersection::new(fx(4.0), shape);
    let i2 = Intersection::new(fx(6.0), shape);
    let xs = intersections(vec![i1, i2]);
    let comps = prepare_computations(&xs[0], &r, &xs);
    let c = w.refracted_color(&comps, 0);
    assert_eq!(c, Color::black());
}

#[test]
fn refracted_color_under_total_internal_reflection() {
    let mut w = World::default();
    let mut m = w.objects[0].get_material();
    m.transparency = fx(1.0);
    m.refractive_index = fx(1.5);
    w.objects[0].set_material(m);
    let shape = w.objects[0];
    let r = Ray::new(pt(0.0, 0.0, FRAC_1_SQRT_2), vc(0.0, 1.0, 0.0));
    let i1 = Intersection::new(fx(-FRAC_1_SQRT_2), shape);
    let i2 = Intersection::new(fx(FRAC_1_SQRT_2), shape);
    let xs = intersections(vec![i1, i2]);
    let comps = prepare_computations(&xs[1], &r, &xs);
    let c = w.refracted_color(&comps, 5);
    assert_eq!(c, Color::black());
}

#[test]
fn shade_hit_with_transparent_material() {
    let mut w = World::default();
    let mut floor = Plane::new(3);
    floor.transform = floor.transform.translation(0, fx(-1.0), 0);
    floor.material.transparency = fx(0.5);
    floor.material.refractive_index = fx(1.5);
    let floor = Shape::Plane(floor);
    w.objects.push(floor);

    let mut ball = Sphere::new(4);
    ball.material.color = Color::new(fx(1.0), 0, 0);
    ball.material.ambient = fx(0.5);
    ball.transform = ball.transform.translation(0, fx(-3.5), fx(-0.5));
    w.objects.push(Shape::Sphere(ball));

    let r = Ray::new(pt(0.0, 0.0, -3.0), vc(0.0, -FRAC_1_SQRT_2, FRAC_1_SQRT_2));
    let xs = intersections(vec![Intersection::new(fx(SQRT_2), floor)]);
    let comps = prepare_computations(&xs[0], &r, &xs);
    let color = w.shade_hit(&comps, 5);
    assert!(cap(color, 1.31450, 0.68642, 0.68642));
}

#[test]
fn shade_hit_with_reflective_transparent_material() {
    let mut w = World::default();
    let r = Ray::new(pt(0.0, 0.0, -3.0), vc(0.0, -FRAC_1_SQRT_2, FRAC_1_SQRT_2));
    let mut floor = Plane::new(0);
    floor.transform = floor.transform.translation(0, fx(-1.0), 0);
    floor.material.reflective = fx(0.5);
    floor.material.transparency = fx(0.5);
    floor.material.refractive_index = fx(1.5);
    let floor = Shape::Plane(floor);
    w.objects.push(floor);

    let mut ball = Sphere::new(1);
    ball.material.color = Color::new(fx(1.0), 0, 0);
    ball.material.ambient = fx(0.5);
    ball.transform = ball.transform.translation(0, fx(-3.5), fx(-0.5));
    w.objects.push(Shape::Sphere(ball));

    let xs = intersections(vec![Intersection::new(fx(SQRT_2), floor)]);
    let comps = prepare_computations(&xs[0], &r, &xs);
    let color = w.shade_hit(&comps, 5);
    assert!(cap(color, 1.29609, 0.69643, 0.69243));
}

#[test]
fn empty_world_shades_every_ray_black() {
    let w = World::new();
    let r = Ray::new(pt(0.0, 0.0, -5.0), vc(0.0, 0.0, 1.0));
    assert_eq!(w.color_at(&r, DEFAULT_REFLECTION_COUNT), Color::black());
    assert_eq!(w.intersect(&r).len(), 0);
}

#[test]
fn refraction_at_grazing_incidence_is_traced() {
    let mut w = World::default();
    let mut m = w.objects[0].get_material();
    m.transparency = fx(1.0);
    w.objects[0].set_material(m);
    let comps = raytracer::world::Computations::new(
        fx(1.0),
        w.objects[0],
        pt(0.0, 0.0, 0.0),
        vc(1.0, 0.0, 0.0),
        vc(0.0, 0.0, 1.0),
        vc(0.0, 0.0, 0.0),
        false,
        pt(0.0, 0.0, 0.0),
        pt(0.0, 0.0, 0.0),
        fx(1.0),
        fx(1.0),
    );
    let c = w.refracted_color(&comps, 2);
    assert_ne!(c, Color::black());
}
