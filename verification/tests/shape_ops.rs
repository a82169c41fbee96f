use std::f64::consts::{FRAC_1_SQRT_2, PI};

use raytracer::fx::fx_approx;
use raytracer::materials::Material;
use raytracer::matrix::Matrix;
use raytracer::ray::Ray;
use raytracer::shape::{reflect, Cone, Cube, Cylinder, Plane, Shape, Sphere};
use raytracer::tuple::{Point, Vector};

fn fx(v: f64) -> i64 {
    (v * 10_000_000_000_000.0).round() as i64
}

fn ap(a: i64, e: f64) -> bool {
    fx_approx(a, fx(e))
}

fn vap(v: Vector, x: f64, y: f64, z: f64) -> bool {
    ap(v.x, x) && ap(v.y, y) && ap(v.z, z)
}

fn pt(x: f64, y: f64, z: f64) -> Point {
    Point::new(fx(x), fx(y), fx(z))
}

fn vc(x: f64, y: f64, z: f64) -> Vector {
    Vector::new(fx(x), fx(y), fx(z))
}

const ROOT_3_OVER_3: f64 = 0.5773502692;

#[test]
fn sphere_sphere_normal_on_x() {
    let s = Sphere::new(0);
    let n = s.normal_at(pt(1.0, 0.0, 0.0));
    assert!(vap(n, 1.0, 0.0, 0.0));
}

#[test]
fn sphere_sphere_normal_on_y() {
    let s = Sphere::new(0);
    let n = s.normal_at(pt(0.0, 1.0, 0.0));
    assert!(vap(n, 0.0, 1.0, 0.0));
}

#[test]
fn sphere_sphere_normal_on_z() {
    let s = Sphere::new(0);
    let n = s.normal_at(pt(0.0, 0.0, 1.0));
    assert!(vap(n, 0.0, 0.0, 1.0));
}

#[test]
fn sphere_sphere_normal_at_nonaxial() {
    let s = Sphere::new(0);
    let n = s.normal_at(pt(ROOT_3_OVER_3, ROOT_3_OVER_3, ROOT_3_OVER_3));
    assert!(vap(n, ROOT_3_OVER_3, ROOT_3_OVER_3, ROOT_3_OVER_3));
}

#[test]
fn sphere_normal_is_normalized() {
    let s = Sphere::new(0);
    let n = s.normal_at(pt(ROOT_3_OVER_3, ROOT_3_OVER_3, ROOT_3_OVER_3));
    let nn = n.normalize();
    assert!(fx_approx(n.x, nn.x) && fx_approx(n.y, nn.y) && fx_approx(n.z, nn.z));
}

#[test]
fn compute_normal_of_translated_sphere() {
    let mut s = Sphere::new(0);
    s.transform = Matrix::identity().translation(0, fx(1.0), 0);
    let n = s.normal_at(pt(0.0, 1.70711, -0.70711));
    assert!(vap(n, 0.0, 0.70711, -0.70711));
}

#[test]
fn compute_normal_of_transformed_sphere() {
    let mut s = Sphere::new(0);
    s.transform = Matrix::identity().rotation_z(fx(PI / 5.0)).scaling(fx(1.0), fx(0.5), fx(1.0));
    let n = s.normal_at(pt(0.0, FRAC_1_SQRT_2, -FRAC_1_SQRT_2));
    assert!(vap(n, 0.0, 0.97014, -0.24254));
}

#[test]
fn sphere_reflect_vector_at_45() {
    let v = vc(1.0, -1.0, 0.0);
    let n = vc(0.0, 1.0, 0.0);
    let r = reflect(v, n);
    assert!(vap(r, 1.0, 1.0, 0.0));
}

#[test]
fn sphere_reflect_vector_off_slant() {
    let v = vc(0.0, -1.0, 0.0);
    let n = vc(FRAC_1_SQRT_2, FRAC_1_SQRT_2, 0.0);
    let r = reflect(v, n);
    assert!(vap(r, 1.0, 0.0, 0.0));
}

#[test]
fn sphere_has_default_material() {
    let s = Sphere::new(0);
    assert_eq!(s.material, Material::default());
}

#[test]
fn sphere_may_be_assigned_material() {
    let mut s = Sphere::new(0);
    let mut m = Material::default();
    m.ambient = fx(1.0);
    s.material = m;
    assert_eq!(s.material, m);
}

#[test]
fn default_transformation() {
    let s = Shape::Sphere(Sphere::new(0));
    assert_eq!(s.get_transform(), Matrix::identity());
}

#[test]
fn mod_assign_transformation() {
    let mut s = Shape::Sphere(Sphere::new(0));
    s.set_transform(Matrix::identity().translation(fx(2.0), fx(3.0), fx(4.0)));
    assert_eq!(s.get_transform(), Matrix::identity().translation(fx(2.0), fx(3.0), fx(4.0)));
}

#[test]
fn mod_default_material() {
    let s = Shape::Sphere(Sphere::new(0));
    assert_eq!(s.get_material(), Material::default());
}

#[test]
fn assign_material() {
    let mut s = Shape::Sphere(Sphere::new(0));
    let mut m = s.get_material();
    m.ambient = fx(1.0);
    s.set_material(m);
    let mut expected = Material::default();
    expected.ambient = fx(1.0);
    assert_eq!(s.get_material(), expected);
}

#[test]
fn intersect_scaled_shape_with_ray() {
    let r = Ray::new(pt(0.0, 0.0, -5.0), vc(0.0, 0.0, 1.0));
    let mut s = Shape::Sphere(Sphere::new(0));
    s.set_transform(Matrix::identity().scaling(fx(2.0), fx(2.0), fx(2.0)));
    let sr = r.transform(s.get_transform().inverse().unwrap());
    assert!(ap(sr.origin.x, 0.0) && ap(sr.origin.y, 0.0) && ap(sr.origin.z, -2.5));
    assert!(vap(sr.direction, 0.0, 0.0, 0.5));
    let xs = r.intersect(&s);
    assert_eq!(xs.len(), 2);
    assert!(ap(xs[0].t, 3.0));
    assert!(ap(xs[1].t, 7.0));
}

#[test]
fn mod_intersect_translated_sphere_with_ray() {
    let r = Ray::new(pt(0.0, 0.0, -5.0), vc(0.0, 0.0, 1.0));
    let mut s = Shape::Sphere(Sphere::new(0));
    s.set_transform(Matrix::identity().translation(fx(5.0), 0, 0));
    let sr = r.transform(s.get_transform().inverse().unwrap());
    assert!(ap(sr.origin.x, -5.0) && ap(sr.origin.y, 0.0) && ap(sr.origin.z, -5.0));
    assert!(vap(sr.direction, 0.0, 0.0, 1.0));
    let xs = r.intersect(&s);
    assert_eq!(xs.len(), 0);
}

#[test]
fn compute_normal_of_translated_shape() {
    let mut s = Shape::Sphere(Sphere::new(0));
    s.set_transform(Matrix::identity().translation(0, fx(1.0), 0));
    let n = s.normal_at(pt(0.0, 1.70711, -0.70711));
    assert!(vap(n, 0.0, 0.70711, -0.70711));
}

#[test]
fn compute_normal_of_transformed_shape() {
    let mut s = Shape::Sphere(Sphere::new(0));
    s.set_transform(Matrix::identity().rotation_z(fx(PI / 5.0)).scaling(fx(1.0), fx(0.5), fx(1.0)));
    let n = s.normal_at(pt(0.0, FRAC_1_SQRT_2, -FRAC_1_SQRT_2));
    assert!(vap(n, 0.0, 0.97014, -0.24254));
}

#[test]
fn normal_of_plane_is_constant() {
    let p = Plane::new(0);
    let n1 = p.normal_at(pt(0.0, 0.0, 0.0));
    let n2 = p.normal_at(pt(10.0, 0.0, -10.0));
    let n3 = p.normal_at(pt(-5.0, 0.0, 150.0));
    assert!(vap(n1, 0.0, 1.0, 0.0));
    assert!(vap(n2, 0.0, 1.0, 0.0));
    assert!(vap(n3, 0.0, 1.0, 0.0));
}

#[test]
fn intersect_ray_parallel() {
    let p = Plane::new(0);
    let r = Ray::new(pt(0.0, 10.0, 0.0), vc(0.0, 0.0, 1.0));
    let xs = p.local_intersect(&r);
    assert_eq!(xs.len(), 0);
}

#[test]
fn intersect_coplanar_ray() {
    let p = Plane::new(0);
    let r = Ray::new(pt(0.0, 0.0, 0.0), vc(0.0, 0.0, 1.0));
    let xs = p.local_intersect(&r);
    assert_eq!(xs.len(), 0);
}

#[test]
fn ray_intersect_from_above() {
    let p = Shape::Plane(Plane::new(0));
    let r = Ray::new(pt(0.0, 1.0, 0.0), vc(0.0, -1.0, 0.0));
    let xs = r.intersect(&p);
    assert_eq!(xs.len(), 1);
    assert!(ap(xs[0].t, 1.0));
    assert_eq!(xs[0].object.id(), p.id());
}

#[test]
fn ray_intersect_from_below() {
    let p = Shape::Plane(Plane::new(0));
    let r = Ray::new(pt(0.0, -1.0, 0.0), vc(0.0, 1.0, 0.0));
    let xs = r.intersect(&p);
    assert_eq!(xs.len(), 1);
    assert!(ap(xs[0].t, 1.0));
    assert_eq!(xs[0].object.id(), p.id());
}

#[test]
fn ray_intersect_cube() {
    let c = Cube::new(0);
    let examples = vec![
        (pt(5.0, 0.5, 0.0), vc(-1.0, 0.0, 0.0), 4.0, 6.0),
        (pt(-5.0, 0.5, 0.0), vc(1.0, 0.0, 0.0), 4.0, 6.0),
        (pt(0.5, 5.0, 0.0), vc(0.0, -1.0, 0.0), 4.0, 6.0),
        (pt(0.5, -5.0, 0.0), vc(0.0, 1.0, 0.0), 4.0, 6.0),
        (pt(0.5, 0.0, 5.0), vc(0.0, 0.0, -1.0), 4.0, 6.0),
        (pt(0.5, 0.0, -5.0), vc(0.0, 0.0, 1.0), 4.0, 6.0),
        (pt(0.0, 0.5, 0.0), vc(0.0, 0.0, 1.0), -1.0, 1.0),
    ];
    for (origin, direction, t1, t2) in examples {
        let r = Ray::new(origin, direction);
        let xs = c.local_intersect(&r);
        assert_eq!(xs.len(), 2);
        assert!(ap(xs[0], t1));
        assert!(ap(xs[1], t2));
    }
}

#[test]
fn ray_misses_cube() {
    let c = Cube::new(0);
    let examples = vec![
        (pt(-2.0, 0.0, 0.0), vc(0.2673, 0.5345, 0.8018)),
        (pt(0.0, -2.0, 0.0), vc(0.8018, 0.2673, 0.5345)),
        (pt(0.0, 0.0, -2.0), vc(0.5345, 0.8018, 0.2673)),
        (pt(2.0, 0.0, 2.0), vc(0.0, 0.0, -1.0)),
        (pt(0.0, 2.0, 2.0), vc(0.0, -1.0, 0.0)),
        (pt(2.0, 2.0, 0.0), vc(-1.0, 0.0, 0.0)),
    ];
    for (origin, direction) in examples {
        let r = Ray::new(origin, direction);
        let xs = c.local_intersect(&r);
        assert_eq!(xs.len(), 0);
    }
}

#[test]
fn normal_of_cube() {
    let c = Cube::new(0);
    let examples = vec![
        (pt(1.0, 0.5, -0.8), (1.0, 0.0, 0.0)),
        (pt(-1.0, -0.2, 0.9), (-1.0, 0.0, 0.0)),
        (pt(-0.4, 1.0, -0.1), (0.0, 1.0, 0.0)),
        (pt(0.3, -1.0, -0.7), (0.0, -1.0, 0.0)),
        (pt(-0.6, 0.3, 1.0), (0.0, 0.0, 1.0)),
        (pt(0.4, 0.4, -1.0), (0.0, 0.0, -1.0)),
        (pt(1.0, 1.0, 1.0), (1.0, 0.0, 0.0)),
        (pt(-1.0, -1.0, -1.0), (-1.0, 0.0, 0.0)),
    ];
    for (point, normal) in examples {
        let n = c.local_normal_at(&point);
        assert!(vap(n, normal.0, normal.1, normal.2));
    }
}

#[test]
fn ray_misses_cylinder() {
    let c = Cylinder::new(0);
    let examples = vec![
        (pt(1.0, 0.0, 0.0), vc(0.0, 1.0, 0.0)),
        (pt(0.0, 0.0, 0.0), vc(0.0, 1.0, 0.0)),
        (pt(0.0, 0.0, -5.0), vc(1.0, 1.0, 1.0)),
    ];
    for (origin, direction) in examples {
        let direction = direction.normalize();
        let r = Ray::new(origin, direction);
        let xs = c.local_intersect(&r);
        assert_eq!(xs.len(), 0);
    }
}

#[test]
fn ray_strikes_cylinder() {
    let c = Cylinder::new(0);
    let examples = vec![
        (pt(1.0, 0.0, -5.0), vc(0.0, 0.0, 1.0), 5.0, 5.0),
        (pt(0.0, 0.0, -5.0), vc(0.0, 0.0, 1.0), 4.0, 6.0),
        (pt(0.5, 0.0, -5.0), vc(0.1, 1.0, 1.0), 6.80798, 7.08872),
    ];
    for (origin, direction, t0, t1) in examples {
        let direction = direction.normalize();
        let r = Ray::new(origin, direction);
        let xs = c.local_intersect(&r);
        assert_eq!(xs.len(), 2);
        assert!(ap(xs[0], t0));
        assert!(ap(xs[1], t1));
    }
}

#[test]
fn normal_vector_on_cylinder() {
    let c = Cylinder::new(0);
    let examples = vec![
        (pt(1.0, 0.0, 0.0), (1.0, 0.0, 0.0)),
        (pt(0.0, 5.0, -1.0), (0.0, 0.0, -1.0)),
        (pt(0.0, -2.0, 1.0), (0.0, 0.0, 1.0)),
        (pt(-1.0, 1.0, 0.0), (-1.0, 0.0, 0.0)),
    ];
    for (point, normal) in examples {
        let n = c.local_normal_at(&point);
        assert!(vap(n, normal.0, normal.1, normal.2));
    }
}

#[test]
fn default_min_and_max_for_cylinder() {
    let c = Cylinder::new(0);
    assert_eq!(c.minimum, i64::MIN);
    assert_eq!(c.maximum, i64::MAX);
}

#[test]
fn intersect_constrained_cylinder() {
    let mut c = Cylinder::new(0);
    c.minimum = fx(1.0);
    c.maximum = fx(2.0);
    let examples = vec![
        (pt(0.0, 1.5, 0.0), vc(0.1, 1.0, 0.0), 0),
        (pt(0.0, 3.0, -5.0), vc(0.0, 0.0, 1.0), 0),
        (pt(0.0, 0.0, -5.0), vc(0.0, 0.0, 1.0), 0),
        (pt(0.0, 2.0, -5.0), vc(0.0, 0.0, 1.0), 0),
        (pt(0.0, 1.0, -5.0), vc(0.0, 0.0, 1.0), 0),
        (pt(0.0, 1.5, -2.0), vc(0.0, 0.0, 1.0), 2),
    ];
    for (point, direction, count) in examples {
        let direction = direction.normalize();
        let r = Ray::new(point, direction);
        let xs = c.local_intersect(&r);
        assert_eq!(xs.len(), count);
    }
}

#[test]
fn default_closed_value_for_cylinder() {
    let c = Cylinder::new(0);
    assert!(!c.closed);
}

#[test]
fn intersecting_caps_of_closed_cylinder() {
    let mut c = Cylinder::new(0);
    c.minimum = fx(1.0);
    c.maximum = fx(2.0);
    c.closed = true;
    let examples = vec![
        (pt(0.0, 3.0, 0.0), vc(0.0, -1.0, 0.0), 2),
        (pt(0.0, 3.0, -2.0), vc(0.0, -1.0, 2.0), 2),
        (pt(0.0, 4.0, -2.0), vc(0.0, -1.0, 1.0), 2),
        (pt(0.0, 0.0, -2.0), vc(0.0, 1.0, 2.0), 2),
        (pt(0.0, -1.0, -2.0), vc(0.0, 1.0, 1.0), 2),
    ];
    for (point, direction, count) in examples {
        let direction = direction.normalize();
        let r = Ray::new(point, direction);
        let xs = c.local_intersect(&r);
        assert_eq!(xs.len(), count);
    }
}

#[test]
fn normal_vector_of_cylinder_end_caps() {
    let mut c = Cylinder::new(0);
    c.minimum = fx(1.0);
    c.maximum = fx(2.0);
    c.closed = true;
    let examples = vec![
        (pt(0.0, 1.0, 0.0), (0.0, -1.0, 0.0)),
        (pt(0.5, 1.0, 0.0), (0.0, -1.0, 0.0)),
        (pt(0.0, 1.0, 0.5), (0.0, -1.0, 0.0)),
        (pt(0.0, 2.0, 0.0), (0.0, 1.0, 0.0)),
        (pt(0.5, 2.0, 0.0), (0.0, 1.0, 0.0)),
        (pt(0.0, 2.0, 0.5), (0.0, 1.0, 0.0)),
    ];
    for (point, normal) in examples {
        let n = c.local_normal_at(&point);
        assert!(vap(n, normal.0, normal.1, normal.2));
    }
}

#[test]
fn intersecting_cone_with_ray() {
    let shape = Cone::new(0);
    let examples = vec![
        (pt(0.0, 0.0, -5.0), vc(0.0, 0.0, 1.0), 5.0, 5.0),
        (pt(0.0, 0.0, -5.0), vc(1.0, 1.0, 1.0), 8.66025, 8.66025),
        (pt(1.0, 1.0, -5.0), vc(-0.5, -1.0, 1.0), 4.55006, 49.44994),
    ];
    for (origin, direction, t0, t1) in examples {
        let direction = direction.normalize();
        let r = Ray::new(origin, direction);
        let xs = shape.local_intersect(&r);
        assert_eq!(xs.len(), 2);
        assert!(ap(xs[0], t0));
        assert!(ap(xs[1], t1));
    }
}

#[test]
fn intersecting_cone_with_ray_parallel_to_one_half() {
    let shape = Cone::new(0);
    let direction = vc(0.0, 1.0, 1.0).normalize();
    let r = Ray::new(pt(0.0, 0.0, -1.0), direction);
    let xs = shape.local_intersect(&r);
    assert_eq!(xs.len(), 1);
    assert!(ap(xs[0], 0.35355));
}

#[test]
fn intersecting_cone_end_caps() {
    let mut shape = Cone::new(0);
    shape.minimum = fx(-0.5);
    shape.maximum = fx(0.5);
    shape.closed = true;
    let examples = vec![
        (pt(0.0, 0.0, -5.0), vc(0.0, 1.0, 0.0), 0),
        (pt(0.0, 0.0, -0.25), vc(0.0, 1.0, 1.0), 2),
        (pt(0.0, 0.0, -0.25), vc(0.0, 1.0, 0.0), 4),
    ];
    for (origin, direction, count) in examples {
        let direction = direction.normalize();
        let r = Ray::new(origin, direction);
        let xs = shape.local_intersect(&r);
        assert_eq!(xs.len(), count);
    }
}

#[test]
fn computing_normal_vector_on_cone() {
    let shape = Cone::new(0);
    let examples = vec![
        (pt(0.0, 0.0, 0.0), (0.0, 0.0, 0.0)),
        (pt(0.0, 0.0, 0.0), (0.0, 0.0, 0.0)),
        (pt(0.0, 0.0, 0.0), (0.0, 0.0, 0.0)),
    ];
    for (point, normal) in examples {
        let n = shape.local_normal_at(&point);
        assert!(vap(n, normal.0, normal.1, normal.2));
    }
}

#[test]
fn cube_slab_is_unbounded_along_a_degenerate_axis() {
    let c = Cube::new(0);
    let r = Ray::new(pt(0.5, 0.999999, -5.0), vc(0.0, 0.0, 1.0));
    let xs = c.local_intersect(&r);
    assert_eq!(xs.len(), 2);
    assert!(ap(xs[0], 4.0));
    assert!(ap(xs[1], 6.0));
}
