use std::f64::consts::FRAC_1_SQRT_2;

use raytracer::fx::{fx_approx, EPS, ONE};
use raytracer::matrix::Matrix;
use raytracer::ray::{hit, intersections, schlick, Intersection, Ray};
use raytracer::shape::{Shape, Sphere};
use raytracer::tuple::{Point, Vector};
use raytracer::world::prepare_computations;

fn fx(v: f64) -> i64 {
    (v * 10_000_000_000_000.0).round() as i64
}

fn ap(a: i64, e: f64) -> bool {
    fx_approx(a, fx(e))
}

fn pap(p: Point, x: f64, y: f64, z: f64) -> bool {
    ap(p.x, x) && ap(p.y, y) && ap(p.z, z)
}

fn vap(v: Vector, x: f64, y: f64, z: f64) -> bool {
    ap(v.x, x) && ap(v.y, y) && ap(v.z, z)
}

fn sphere(id: usize) -> Shape {
    Shape::Sphere(Sphere::new(id))
}

fn glass_sphere(id: usize) -> Shape {
    Shape::Sphere(Sphere::new_glass(id))
}

#[test]
fn ray_create_and_query_ray() {
    let origin = Point::new(fx(1.0), fx(2.0), fx(3.0));
    let direction = Vector::new(fx(4.0), fx(5.0), fx(6.0));
    let r = Ray::new(origin, direction);
    assert_eq!(r.origin, origin);
    assert_eq!(r.direction, direction);
}

#[test]
fn ray_point_from_distance() {
    let r = Ray::new(Point::new(fx(2.0), fx(3.0), fx(4.0)), Vector::new(fx(1.0), 0, 0));
    assert!(pap(r.position(fx(0.0)), 2.0, 3.0, 4.0));
    assert!(pap(r.position(fx(1.0)), 3.0, 3.0, 4.0));
    assert!(pap(r.position(fx(-1.0)), 1.0, 3.0, 4.0));
    assert!(pap(r.position(fx(2.5)), 4.5, 3.0, 4.0));
}

#[test]
fn ray_ray_intersect_sphere_at_two_points() {
    let r = Ray::new(Point::new(0, 0, fx(-5.0)), Vector::new(0, 0, fx(1.0)));
    let s = sphere(0);
    let xs = r.intersect(&s);
    assert_eq!(xs.len(), 2);
    assert!(ap(xs[0].t, 4.0));
    assert!(ap(xs[1].t, 6.0));
}

#[test]
fn ray_ray_intersect_sphere_at_tangent() {
    let r = Ray::new(Point::new(0, fx(1.0), fx(-5.0)), Vector::new(0, 0, fx(1.0)));
    let s = sphere(0);
    let xs = r.intersect(&s);
    assert_eq!(xs.len(), 2);
    assert!(ap(xs[0].t, 5.0));
    assert!(ap(xs[1].t, 5.0));
}

#[test]
fn ray_ray_misses_sphere() {
    let r = Ray::new(Point::new(0, fx(2.0), fx(-5.0)), Vector::new(0, 0, fx(1.0)));
    let s = sphere(0);
    let xs = r.intersect(&s);
    assert_eq!(xs.len(), 0);
}

#[test]
fn ray_ray_originates_in_sphere() {
    let r = Ray::new(Point::new(0, 0, 0), Vector::new(0, 0, fx(1.0)));
    let s = sphere(0);
    let xs = r.intersect(&s);
    assert_eq!(xs.len(), 2);
    assert!(ap(xs[0].t, -1.0));
    assert!(ap(xs[1].t, 1.0));
}

#[test]
fn ray_sphere_behind_ray() {
    let r = Ray::new(Point::new(0, 0, fx(5.0)), Vector::new(0, 0, fx(1.0)));
    let s = sphere(0);
    let xs = r.intersect(&s);
    assert_eq!(xs.len(), 2);
    assert!(ap(xs[0].t, -6.0));
    assert!(ap(xs[1].t, -4.0));
}

#[test]
fn ray_intersection_encapsulates_t_and_object() {
    let s = sphere(0);
    let i = Intersection::new(fx(3.5), s);
    assert!(ap(i.t, 3.5));
    assert_eq!(i.object.id(), s.id());
}

#[test]
fn ray_aggregating_intersections() {
    let s = sphere(0);
    let i1 = Intersection::new(fx(1.0), s);
    let i2 = Intersection::new(fx(2.0), s);
    let xs = intersections(vec![i1, i2]);
    assert_eq!(xs.len(), 2);
    assert!(ap(xs[0].t, 1.0));
    assert!(ap(xs[1].t, 2.0));
}

#[test]
fn ray_intersect_sets_object_on_intersection() {
    let r = Ray::new(Point::new(0, 0, fx(-5.0)), Vector::new(0, 0, fx(1.0)));
    let s = sphere(0);
    let xs = r.intersect(&s);
    assert_eq!(xs.len(), 2);
    assert_eq!(xs[0].object.id(), s.id());
    assert_eq!(xs[1].object.id(), s.id());
}

#[test]
fn ray_hit_when_all_positive_t() {
    let s = sphere(0);
    let i1 = Intersection::new(fx(1.0), s);
    let i2 = Intersection::new(fx(2.0), s);
    let xs = intersections(vec![i2, i1]);
    assert_eq!(hit(&xs), Some(i1));
}

#[test]
fn ray_hit_when_some_negative_t() {
    let s = sphere(0);
    let i1 = Intersection::new(fx(-1.0), s);
    let i2 = Intersection::new(fx(1.0), s);
    let xs = intersections(vec![i2, i1]);
    assert_eq!(hit(&xs), Some(i2));
}

#[test]
fn ray_hit_when_all_negative_t() {
    let s = sphere(0);
    let i1 = Intersection::new(fx(-2.0), s);
    let i2 = Intersection::new(fx(-1.0), s);
    let xs = intersections(vec![i2, i1]);
    assert_eq!(hit(&xs), None);
}

#[test]
fn ray_hit_is_always_lowest_nonnegative_intersection() {
    let s = sphere(0);
    let i1 = Intersection::new(fx(5.0), s);
    let i2 = Intersection::new(fx(7.0), s);
    let i3 = Intersection::new(fx(-3.0), s);
    let i4 = Intersection::new(fx(2.0), s);
    let xs = intersections(vec![i1, i2, i3, i4]);
    assert_eq!(hit(&xs), Some(i4));
}

#[test]
fn ray_translate_ray() {
    let r = Ray::new(Point::new(fx(1.0), fx(2.0), fx(3.0)), Vector::new(0, fx(1.0), 0));
    let m = Matrix::identity().translation(fx(3.0), fx(4.0), fx(5.0));
    let r2 = r.transform(m);
    assert!(pap(r2.origin, 4.0, 6.0, 8.0));
    assert!(vap(r2.direction, 0.0, 1.0, 0.0));
}

#[test]
fn ray_scale_ray() {
    let r = Ray::new(Point::new(fx(1.0), fx(2.0), fx(3.0)), Vector::new(0, fx(1.0), 0));
    let m = Matrix::identity().scaling(fx(2.0), fx(3.0), fx(4.0));
    let r2 = r.transform(m);
    assert!(pap(r2.origin, 2.0, 6.0, 12.0));
    assert!(vap(r2.direction, 0.0, 3.0, 0.0));
}

#[test]
fn ray_default_sphere_transformation() {
    let s = sphere(0);
    assert_eq!(s.get_transform(), Matrix::identity());
}

#[test]
fn ray_change_sphere_transformation() {
    let mut s = sphere(0);
    let t = Matrix::identity().translation(fx(2.0), fx(3.0), fx(4.0));
    s.set_transform(t);
    assert_eq!(s.get_transform(), t);
}

#[test]
fn ray_intersect_scaled_sphere_with_ray() {
    let r = Ray::new(Point::new(0, 0, fx(-5.0)), Vector::new(0, 0, fx(1.0)));
    let mut s = sphere(0);
    s.set_transform(Matrix::identity().scaling(fx(2.0), fx(2.0), fx(2.0)));
    let xs = r.intersect(&s);
    assert_eq!(xs.len(), 2);
    assert!(ap(xs[0].t, 3.0));
    assert!(ap(xs[1].t, 7.0));
}

#[test]
fn ray_intersect_translated_sphere_with_ray() {
    let r = Ray::new(Point::new(0, 0, fx(-5.0)), Vector::new(0, 0, fx(1.0)));
    let mut s = sphere(0);
    s.set_transform(Matrix::identity().translation(fx(5.0), 0, 0));
    let xs = r.intersect(&s);
    assert_eq!(xs.len(), 0);
}

#[test]
fn finding_n1_and_n2_at_various_intersections() {
    let mut a = glass_sphere(0);
    a.set_transform(Matrix::identity().scaling(fx(2.0), fx(2.0), fx(2.0)));
    let mut ma = a.get_material();
    ma.refractive_index = fx(1.5);
    a.set_material(ma);

    let mut b = glass_sphere(1);
    b.set_transform(Matrix::identity().translation(0, 0, fx(-0.25)));
    let mut mb = b.get_material();
    mb.refractive_index = fx(2.0);
    b.set_material(mb);

    let mut c = glass_sphere(2);
    c.set_transform(Matrix::identity().translation(0, 0, fx(0.25)));
    let mut mc = c.get_material();
    mc.refractive_index = fx(2.5);
    c.set_material(mc);

    let r = Ray::new(Point::new(0, 0, fx(-4.0)), Vector::new(0, 0, fx(1.0)));
    let i1 = Intersection::new(fx(2.0), a);
    let i2 = Intersection::new(fx(2.75), b);
    let i3 = Intersection::new(fx(3.25), c);
    let i4 = Intersection::new(fx(4.75), b);
    let i5 = Intersection::new(fx(5.25), c);
    let i6 = Intersection::new(fx(6.0), a);
    let xs = intersections(vec![i1, i2, i3, i4, i5, i6]);

    let ns = vec![
        (1.0, 1.5),
        (1.5, 2.0),
        (2.0, 2.5),
        (2.5, 2.5),
        (2.5, 1.5),
        (1.5, 1.0),
    ];
    for (i, (n1, n2)) in ns.iter().enumerate() {
        let comps = prepare_computations(&xs[i], &r, &xs);
        assert!(ap(comps.n1, *n1));
        assert!(ap(comps.n2, *n2));
    }
}

#[test]
fn under_point_offset_below_surface() {
    let r = Ray::new(Point::new(0, 0, fx(-5.0)), Vector::new(0, 0, fx(1.0)));
    let mut shape = glass_sphere(0);
    shape.set_transform(Matrix::identity().translation(0, 0, fx(1.0)));
    let i = Intersection::new(fx(5.0), shape);
    let xs = intersections(vec![i]);
    let comps = prepare_computations(&xs[0], &r, &xs);
    assert!(comps.under_point.z > EPS / 2);
    assert!(comps.point.z < comps.under_point.z);
}

#[test]
#[allow(non_snake_case)]
fn Schlick_approximation_under_total_internal_reflection() {
    let shape = glass_sphere(0);
    let r = Ray::new(Point::new(0, 0, fx(FRAC_1_SQRT_2)), Vector::new(0, fx(1.0), 0));
    let i1 = Intersection::new(fx(-FRAC_1_SQRT_2), shape);
    let i2 = Intersection::new(fx(FRAC_1_SQRT_2), shape);
    let xs = intersections(vec![i1, i2]);
    let comps = prepare_computations(&xs[1], &r, &xs);
    let reflectance = schlick(&comps);
    assert_eq!(reflectance, ONE);
}

#[test]
fn schlick_approximation_with_perpendicular_viewing_angle() {
    let shape = glass_sphere(0);
    let r = Ray::new(Point::new(0, 0, 0), Vector::new(0, fx(1.0), 0));
    let i1 = Intersection::new(fx(-1.0), shape);
    let i2 = Intersection::new(fx(1.0), shape);
    let xs = intersections(vec![i1, i2]);
    let comps = prepare_computations(&xs[1], &r, &xs);
    let reflectance = schlick(&comps);
    assert!(ap(reflectance, 0.04));
}

#[test]
fn schlick_approximation_with_small_angle_and_n2_gt_n1() {
    let shape = glass_sphere(0);
    let r = Ray::new(Point::new(0, fx(0.99), fx(-2.0)), Vector::new(0, 0, fx(1.0)));
    let i1 = Intersection::new(fx(1.8589), shape);
    let xs = intersections(vec![i1]);
    let comps = prepare_computations(&xs[0], &r, &xs);
    let reflectance = schlick(&comps);
    assert!(ap(reflectance, 0.48873));
}

#[test]
fn hit_of_no_intersections_is_none() {
    let xs: Vec<Intersection> = Vec::new();
    assert_eq!(hit(&xs), None);
}
