//! The scene: shapes and lights, with shadowing and the depth-bounded
//! recursive shading that folds surface, reflected and refracted light.

use vstd::prelude::*;

use crate::color::Color;
use crate::fx::{
    fx_add, fx_div, fx_mul, fx_sqrt, fx_sub, fxadd, fxdiv, fxmul, fxsqrt, fxsub,
    EPS, ONE,
};
use crate::lights::PointLight;
use crate::materials::{lighting, spec_default_material, spec_lighting, Material};
use crate::matrix::{invertible, spec_identity, Matrix};
use crate::ray::{
    all_objects_wf, hit, intersections, lemma_sort_contains, schlick, sort_by_t, sorted_by_t,
    spec_hit, spec_position, spec_ray_intersect, spec_schlick, Intersection, Ray,
};
use crate::shape::{
    shape_id, shape_material, shape_transform, shape_wf, spec_normal_at, spec_reflect, Shape,
    Sphere,
};
use crate::tuple::{Point, Vector};

verus! {

/// The scene: an ordered list of shapes, and the lights that shine on them.
#[derive(Clone, Debug)]
pub struct World {
    pub objects: Vec<Shape>,
    pub lights: Vec<PointLight>,
}

/// Everything shading derives about one hit before coloring it.
#[derive(Clone, Copy, Debug)]
pub struct Computations {
    pub t: i64,
    pub object: Shape,
    pub point: Point,
    pub eyev: Vector,
    pub normalv: Vector,
    pub reflectv: Vector,
    pub inside: bool,
    pub over_point: Point,
    pub under_point: Point,
    pub n1: i64,
    pub n2: i64,
}

impl Computations {
    pub fn new(
        t: i64,
        object: Shape,
        point: Point,
        eyev: Vector,
        normalv: Vector,
        reflectv: Vector,
        inside: bool,
        over_point: Point,
        under_point: Point,
        n1: i64,
        n2: i64,
    ) -> (c: Computations)
        ensures
            c == (Computations {
                t,
                object,
                point,
                eyev,
                normalv,
                reflectv,
                inside,
                over_point,
                under_point,
                n1,
                n2,
            }),
    {
        Computations {
            t,
            object,
            point,
            eyev,
            normalv,
            reflectv,
            inside,
            over_point,
            under_point,
            n1,
            n2,
        }
    }
}

/// A world is renderable when each of its shapes is well formed.
pub open spec fn world_wf(w: World) -> bool {
    forall|k: int| 0 <= k < w.objects@.len() ==> #[trigger] shape_wf(w.objects@[k])
}

/// What shading needs of a prepared hit.
pub open spec fn comps_wf(c: Computations) -> bool {
    &&& shape_wf(c.object)
    &&& c.n1 > 0
    &&& c.n2 > 0
}

/// The intersections of a ray with the first `k` shapes, in shape order.
pub open spec fn flat_intersections(objs: Seq<Shape>, r: Ray, k: int) -> Seq<Intersection>
    decreases k,
{
    if k <= 0 {
        Seq::empty()
    } else {
        flat_intersections(objs, r, k - 1) + spec_ray_intersect(r, objs[k - 1])
    }
}

/// The intersections of a ray with the whole scene, sorted by `t`.
pub open spec fn spec_world_intersect(w: World, r: Ray) -> Seq<Intersection> {
    sort_by_t(flat_intersections(w.objects@, r, w.objects@.len() as int))
}

/// The intersections that cast shadows: those of opaque shapes.
pub open spec fn shadow_filter(s: Seq<Intersection>) -> Seq<Intersection>
    decreases s.len(),
{
    if s.len() == 0 {
        Seq::empty()
    } else {
        shadow_filter(s.drop_last()) + (if !(shape_material(s.last().object).transparency > 0) {
            seq![s.last()]
        } else {
            Seq::empty()
        })
    }
}

/// Whether something opaque stands between a point and a light: a hit on the
/// ray toward the light, closer than the light itself.
pub open spec fn spec_is_shadowed(w: World, light: PointLight, point: Point) -> bool
    recommends
        world_wf(w),
{
    let v = light.position.spec_sub(point);
    let distance = v.spec_magnitude();
    let direction = v.spec_normalize();
    let r = Ray { origin: point, direction };
    let xs = shadow_filter(spec_world_intersect(w, r));
    match spec_hit(xs) {
        Some(h) => h.t < distance,
        None => false,
    }
}

/// Toggle a shape's containment: drop its first occurrence (by identity),
/// or append it when absent.
pub open spec fn toggle(cs: Seq<Shape>, s: Shape) -> Seq<Shape>
    decreases cs.len(),
{
    if cs.len() == 0 {
        seq![s]
    } else if shape_id(cs.first()) == shape_id(s) {
        cs.drop_first()
    } else {
        seq![cs.first()] + toggle(cs.drop_first(), s)
    }
}

/// The shapes a ray is inside of after crossing the first `k` intersections.
pub open spec fn containers_before(xs: Seq<Intersection>, k: int) -> Seq<Shape>
    decreases k,
{
    if k <= 0 {
        Seq::empty()
    } else {
        toggle(containers_before(xs, k - 1), xs[k - 1].object)
    }
}

/// The first position whose `t` equals the hit's, or -1 when there is none.
pub open spec fn find_hit(xs: Seq<Intersection>, t: i64) -> int
    decreases xs.len(),
{
    if xs.len() == 0 {
        -1
    } else if xs.first().t == t {
        0
    } else {
        let r = find_hit(xs.drop_first(), t);
        if r < 0 {
            -1
        } else {
            r + 1
        }
    }
}

/// The refractive index of the innermost container, vacuum when none.
pub open spec fn last_refraction(cs: Seq<Shape>) -> i64 {
    if cs.len() == 0 {
        ONE
    } else {
        shape_material(cs.last()).refractive_index
    }
}

/// Everything shading derives from a hit: the surface point, eye and normal
/// vectors (the normal flipped when the hit is inside), the reflection
/// vector, the two epsilon-shifted points, and the refractive indices on the
/// two sides of the surface, read from the containment walk.
pub open spec fn spec_prepare_computations(
    hit_i: Intersection,
    r: Ray,
    xs: Seq<Intersection>,
) -> Computations
    recommends
        invertible(shape_transform(hit_i.object)),
{
    let t = hit_i.t;
    let object = hit_i.object;
    let point = spec_position(r, t);
    let eyev = r.direction.spec_neg();
    let normal_raw = spec_normal_at(object, point);
    let reflectv = spec_reflect(r.direction, normal_raw);
    let inside = normal_raw.spec_dot(eyev) < 0;
    let normalv = if inside {
        normal_raw.spec_neg()
    } else {
        normal_raw
    };
    let over_point = point.spec_add(normalv.spec_scale(EPS));
    let under_point = point.spec_sub_vector(normalv.spec_scale(EPS));
    let h = find_hit(xs, t);
    let n1 = if h < 0 {
        ONE
    } else {
        last_refraction(containers_before(xs, h))
    };
    let n2 = if h < 0 {
        ONE
    } else {
        last_refraction(containers_before(xs, h + 1))
    };
    Computations {
        t,
        object,
        point,
        eyev,
        normalv,
        reflectv,
        inside,
        over_point,
        under_point,
        n1,
        n2,
    }
}

/// The reflected contribution: black for a dull surface or at depth zero,
/// else the color along the reflection ray, scaled by the reflectivity.
pub open spec fn spec_reflected_color(w: World, c: Computations, remaining: u32) -> Color
    recommends
        world_wf(w),
        comps_wf(c),
    decreases remaining, 0nat, 0nat,
{
    if shape_material(c.object).reflective == 0 || remaining == 0 {
        Color { red: 0i64, green: 0i64, blue: 0i64 }
    } else {
        let reflect_ray = Ray { origin: c.over_point, direction: c.reflectv };
        spec_color_at(w, reflect_ray, (remaining - 1) as u32).spec_scale(
            shape_material(c.object).reflective,
        )
    }
}

/// The refracted contribution: black for an opaque surface, at depth zero,
/// or under total internal reflection (a squared transmitted sine above
/// one), else the color along the refracted ray from the under point,
/// scaled by the transparency.
pub open spec fn spec_refracted_color(w: World, c: Computations, remaining: u32) -> Color
    recommends
        world_wf(w),
        comps_wf(c),
    decreases remaining, 0nat, 1nat,
{
    if shape_material(c.object).transparency == 0 || remaining == 0 {
        Color { red: 0i64, green: 0i64, blue: 0i64 }
    } else {
        let n_ratio = fxdiv(c.n1, c.n2);
        let cos_i = c.eyev.spec_dot(c.normalv);
        let sin2_t = fxmul(fxmul(n_ratio, n_ratio), fxsub(ONE, fxmul(cos_i, cos_i)));
        if sin2_t > ONE {
            Color { red: 0i64, green: 0i64, blue: 0i64 }
        } else {
            let cos_t = fxsqrt(fxsub(ONE, sin2_t));
            let direction = c.normalv.spec_scale(fxsub(fxmul(n_ratio, cos_i), cos_t)).spec_sub(
                c.eyev.spec_scale(n_ratio),
            );
            let refract_ray = Ray { origin: c.under_point, direction };
            spec_color_at(w, refract_ray, (remaining - 1) as u32).spec_scale(
                shape_material(c.object).transparency,
            )
        }
    }
}

/// The color the first `k` lights together give a prepared hit.
pub open spec fn shade_upto(w: World, c: Computations, remaining: u32, k: int) -> Color
    recommends
        world_wf(w),
        comps_wf(c),
        k <= w.lights@.len(),
    decreases remaining, 1nat, k,
{
    if k <= 0 {
        Color { red: 0i64, green: 0i64, blue: 0i64 }
    } else {
        let acc = shade_upto(w, c, remaining, k - 1);
        let light = w.lights@[k - 1];
        let shadowed = spec_is_shadowed(w, light, c.over_point);
        let material = shape_material(c.object);
        let surface = spec_lighting(
            material,
            c.object,
            light,
            c.over_point,
            c.eyev,
            c.normalv,
            shadowed,
        );
        let reflected = spec_reflected_color(w, c, remaining);
        let refracted = spec_refracted_color(w, c, remaining);
        if material.reflective >= EPS && material.transparency >= EPS {
            let reflectance = spec_schlick(c);
            acc.spec_add(surface).spec_add(reflected.spec_scale(reflectance)).spec_add(
                refracted.spec_scale(fxsub(ONE, reflectance)),
            )
        } else {
            acc.spec_add(surface).spec_add(reflected).spec_add(refracted)
        }
    }
}

/// The color every light together gives a prepared hit, with the reflected
/// and refracted contributions blended by the Schlick reflectance where the
/// surface is both reflective and transparent.
pub open spec fn spec_shade_hit(w: World, c: Computations, remaining: u32) -> Color
    recommends
        world_wf(w),
        comps_wf(c),
    decreases remaining, 2nat, 0nat,
{
    shade_upto(w, c, remaining, w.lights@.len() as int)
}

/// The color a ray finds in the scene: black where it hits nothing, else the
/// shaded color of the visible hit.
pub open spec fn spec_color_at(w: World, r: Ray, remaining: u32) -> Color
    recommends
        world_wf(w),
    decreases remaining, 3nat, 0nat,
{
    let xs = spec_world_intersect(w, r);
    match spec_hit(xs) {
        Some(i) => spec_shade_hit(w, spec_prepare_computations(i, r, xs), remaining),
        None => Color { red: 0i64, green: 0i64, blue: 0i64 },
    }
}

proof fn lemma_find_hit_at(xs: Seq<Intersection>, t: i64, k: int)
    requires
        0 <= k < xs.len(),
        xs[k].t == t,
        forall|j: int| 0 <= j < k ==> xs[j].t != t,
    ensures
        find_hit(xs, t) == k,
    decreases xs.len(),
{
    if k == 0 {
    } else {
        assert(forall|j: int| 0 <= j < k - 1 ==> xs.drop_first()[j] == xs[j + 1]);
        lemma_find_hit_at(xs.drop_first(), t, k - 1);
    }
}

proof fn lemma_find_hit_none(xs: Seq<Intersection>, t: i64)
    requires
        forall|j: int| 0 <= j < xs.len() ==> xs[j].t != t,
    ensures
        find_hit(xs, t) == -1,
    decreases xs.len(),
{
    if xs.len() > 0 {
        lemma_find_hit_none(xs.drop_first(), t);
    }
}

proof fn lemma_toggle_at(cs: Seq<Shape>, s: Shape, j: int)
    requires
        0 <= j <= cs.len(),
        forall|k: int| 0 <= k < j ==> shape_id(cs[k]) != shape_id(s),
        j < cs.len() ==> shape_id(cs[j]) == shape_id(s),
    ensures
        toggle(cs, s) =~= if j == cs.len() {
            cs.push(s)
        } else {
            cs.remove(j)
        },
    decreases cs.len(),
{
    if cs.len() == 0 {
    } else if shape_id(cs.first()) == shape_id(s) {
        assert(j == 0);
    } else {
        assert(j >= 1);
        assert(forall|k: int| 0 <= k < j - 1 ==> cs.drop_first()[k] == cs[k + 1]);
        lemma_toggle_at(cs.drop_first(), s, j - 1);
        if j == cs.len() {
            assert(seq![cs.first()] + cs.drop_first().push(s) =~= cs.push(s));
        } else {
            assert(seq![cs.first()] + cs.drop_first().remove(j - 1) =~= cs.remove(j));
        }
    }
}

proof fn lemma_toggle_elems(cs: Seq<Shape>, s: Shape, y: Shape)
    requires
        toggle(cs, s).contains(y),
    ensures
        cs.contains(y) || y == s,
    decreases cs.len(),
{
    if cs.len() == 0 {
    } else if shape_id(cs.first()) == shape_id(s) {
        let i = choose|i: int| 0 <= i < cs.drop_first().len() && cs.drop_first()[i] == y;
        assert(cs[i + 1] == y);
    } else {
        let t = toggle(cs, s);
        let i = choose|i: int| 0 <= i < t.len() && t[i] == y;
        if i == 0 {
            assert(cs[0] == y);
        } else {
            assert(toggle(cs.drop_first(), s)[i - 1] == y);
            lemma_toggle_elems(cs.drop_first(), s, y);
            if cs.drop_first().contains(y) {
                let m = choose|m: int| 0 <= m < cs.drop_first().len() && cs.drop_first()[m] == y;
                assert(cs[m + 1] == y);
            }
        }
    }
}

/// Every shape in the containment walk comes from the intersection list.
proof fn lemma_containers_elems(xs: Seq<Intersection>, k: int, y: Shape)
    requires
        containers_before(xs, k).contains(y),
        k <= xs.len(),
    ensures
        exists|j: int| 0 <= j < k && #[trigger] xs[j].object == y,
    decreases k,
{
    if k <= 0 {
    } else {
        lemma_toggle_elems(containers_before(xs, k - 1), xs[k - 1].object, y);
        if containers_before(xs, k - 1).contains(y) {
            lemma_containers_elems(xs, k - 1, y);
            let j = choose|j: int| 0 <= j < k - 1 && #[trigger] xs[j].object == y;
            assert(xs[j].object == y);
        } else {
            assert(xs[k - 1].object == y);
        }
    }
}

/// Toggle a shape in the running containment list.
fn toggle_exec(containers: &mut Vec<Shape>, s: &Shape)
    ensures
        final(containers)@ == toggle(old(containers)@, *s),
{
    let sid = s.id();
    let mut j: usize = 0;
    while j < containers.len()
        invariant
            j <= containers@.len(),
            forall|k: int| 0 <= k < j ==> shape_id(containers@[k]) != shape_id(*s),
            sid == shape_id(*s),
            containers@ == old(containers)@,
        decreases containers@.len() - j,
    {
        if containers[j].id() == sid {
            proof {
                lemma_toggle_at(containers@, *s, j as int);
            }
            containers.remove(j);
            return ;
        }
        j = j + 1;
    }
    proof {
        lemma_toggle_at(containers@, *s, containers@.len() as int);
    }
    containers.push(*s);
}

/// The refractive indices on the two sides of the hit: the containment list
/// is replayed up to the hit, and read just before and just after it.
fn refraction_boundary(hit_i: &Intersection, xs: &Vec<Intersection>) -> (r: (i64, i64))
    ensures
        r.0 == {
            let h = find_hit(xs@, hit_i.t);
            if h < 0 {
                ONE
            } else {
                last_refraction(containers_before(xs@, h))
            }
        },
        r.1 == {
            let h = find_hit(xs@, hit_i.t);
            if h < 0 {
                ONE
            } else {
                last_refraction(containers_before(xs@, h + 1))
            }
        },
        all_objects_wf(xs@) ==> r.0 > 0 && r.1 > 0,
{
    let mut k: usize = 0;
    let mut containers: Vec<Shape> = Vec::new();
    while k < xs.len()
        invariant
            k <= xs@.len(),
            containers@ == containers_before(xs@, k as int),
            forall|j: int| 0 <= j < k ==> xs@[j].t != hit_i.t,
        decreases xs@.len() - k,
    {
        if xs[k].t == hit_i.t {
            proof {
                lemma_find_hit_at(xs@, hit_i.t, k as int);
            }
            let n1 = if containers.len() == 0 {
                ONE
            } else {
                containers[containers.len() - 1].get_material().refractive_index
            };
            toggle_exec(&mut containers, &xs[k].object);
            let n2 = if containers.len() == 0 {
                ONE
            } else {
                containers[containers.len() - 1].get_material().refractive_index
            };
            proof {
                let h = find_hit(xs@, hit_i.t);
                if all_objects_wf(xs@) {
                    let before = containers_before(xs@, h);
                    if before.len() > 0 {
                        assert(before.contains(before.last()));
                        lemma_containers_elems(xs@, h, before.last());
                        let j = choose|j: int| 0 <= j < h && #[trigger] xs@[j].object
                            == before.last();
                        assert(shape_wf(xs@[j].object));
                    }
                    let after = containers_before(xs@, h + 1);
                    if after.len() > 0 {
                        assert(after.contains(after.last()));
                        lemma_containers_elems(xs@, h + 1, after.last());
                        let j = choose|j: int| 0 <= j < h + 1 && #[trigger] xs@[j].object
                            == after.last();
                        assert(shape_wf(xs@[j].object));
                    }
                }
            }
            return (n1, n2);
        }
        toggle_exec(&mut containers, &xs[k].object);
        k = k + 1;
    }
    proof {
        lemma_find_hit_none(xs@, hit_i.t);
    }
    (ONE, ONE)
}

/// Derive everything shading needs from a hit: point, eye, normal (flipped
/// inside), reflection vector, the two shifted points, and the refractive
/// boundary read from the other intersections of the same ray.
pub fn prepare_computations(hit_i: &Intersection, r: &Ray, xs: &Vec<Intersection>) -> (c:
    Computations)
    requires
        invertible(shape_transform(hit_i.object)),
    ensures
        c == spec_prepare_computations(*hit_i, *r, xs@),
        shape_wf(hit_i.object) && all_objects_wf(xs@) ==> comps_wf(c),
{
    let t = hit_i.t;
    let object = hit_i.object;
    let point = r.position(t);
    let eyev = r.direction.neg();
    let normal_raw = object.normal_at(point);
    let reflectv = crate::shape::reflect(r.direction, normal_raw);
    let inside = normal_raw.dot(eyev) < 0;
    let normalv = if inside {
        normal_raw.neg()
    } else {
        normal_raw
    };
    let over_point = point.add(normalv.scale(EPS));
    let under_point = point.sub_vector(normalv.scale(EPS));
    let (n1, n2) = refraction_boundary(hit_i, xs);
    Computations {
        t,
        object,
        point,
        eyev,
        normalv,
        reflectv,
        inside,
        over_point,
        under_point,
        n1,
        n2,
    }
}

impl World {
    /// An empty scene.
    pub fn new() -> (w: World)
        ensures
            w.objects@.len() == 0,
            w.lights@.len() == 0,
    {
        World { objects: Vec::new(), lights: Vec::new() }
    }

    /// Every intersection of a ray with every shape of the scene, sorted.
    #[verifier::rlimit(60)]
    pub fn intersect(&self, r: &Ray) -> (v: Vec<Intersection>)
        requires
            world_wf(*self),
        ensures
            v@ == spec_world_intersect(*self, *r),
            sorted_by_t(v@),
            all_objects_wf(v@),
    {
        let mut acc: Vec<Intersection> = Vec::new();
        let mut i: usize = 0;
        while i < self.objects.len()
            invariant
                i <= self.objects@.len(),
                world_wf(*self),
                acc@ == flat_intersections(self.objects@, *r, i as int),
                all_objects_wf(acc@),
            decreases self.objects@.len() - i,
        {
            let shape = &self.objects[i];
            proof {
                assert(shape_wf(self.objects@[i as int]));
            }
            let xs = r.intersect(shape);
            proof {
                assert forall|k: int| 0 <= k < xs@.len() implies #[trigger] shape_wf(
                    xs@[k].object,
                ) by {
                    assert(xs@[k].object == self.objects@[i as int]);
                }
            }
            let ghost acc0 = acc@;
            let mut j: usize = 0;
            while j < xs.len()
                invariant
                    j <= xs@.len(),
                    acc@ == acc0 + xs@.take(j as int),
                    all_objects_wf(acc0),
                    all_objects_wf(xs@),
                    all_objects_wf(acc@),
                decreases xs@.len() - j,
            {
                acc.push(xs[j]);
                proof {
                    assert(acc@ =~= acc0 + xs@.take(j + 1 as int));
                }
                j = j + 1;
            }
            proof {
                assert(acc0 + xs@.take(xs@.len() as int) =~= acc0 + xs@);
            }
            i = i + 1;
        }
        let sorted = intersections(acc);
        proof {
            assert forall|k: int| 0 <= k < sorted@.len() implies #[trigger] shape_wf(
                sorted@[k].object,
            ) by {
                assert(sorted@.contains(sorted@[k]));
                lemma_sort_contains(acc@, sorted@[k]);
                let m = choose|m: int| 0 <= m < acc@.len() && acc@[m] == sorted@[k];
                assert(shape_wf(acc@[m].object));
            }
        }
        sorted
    }

    /// Every intersection of a ray with every shape of the scene, sorted.
    pub fn intersect_world(&self, r: &Ray) -> (v: Vec<Intersection>)
        requires
            world_wf(*self),
        ensures
            v@ == spec_world_intersect(*self, *r),
            all_objects_wf(v@),
    {
        self.intersect(r)
    }

    /// Whether an opaque shape stands between the point and the light.
    pub fn is_shadowed(&self, light: &PointLight, point: &Point) -> (r: bool)
        requires
            world_wf(*self),
        ensures
            r == spec_is_shadowed(*self, *light, *point),
    {
        let v = light.position.sub(*point);
        let distance = v.magnitude();
        let direction = v.normalize();
        let ray = Ray::new(*point, direction);
        let xs = self.intersect(&ray);
        let mut kept: Vec<Intersection> = Vec::new();
        let mut i: usize = 0;
        while i < xs.len()
            invariant
                i <= xs@.len(),
                kept@ == shadow_filter(xs@.take(i as int)),
            decreases xs@.len() - i,
        {
            proof {
                assert(xs@.take(i + 1 as int).drop_last() =~= xs@.take(i as int));
            }
            if !(xs[i].object.get_material().transparency > 0) {
                kept.push(xs[i]);
                proof {
                    assert(kept@ =~= shadow_filter(xs@.take(i + 1 as int)));
                }
            } else {
                proof {
                    assert(kept@ =~= shadow_filter(xs@.take(i + 1 as int)));
                }
            }
            i = i + 1;
        }
        proof {
            assert(xs@.take(xs@.len() as int) =~= xs@);
        }
        match hit(&kept) {
            Some(h) => h.t < distance,
            None => false,
        }
    }

    /// The shaded color of a prepared hit under every light of the scene.
    #[verifier::rlimit(100)]
    pub fn shade_hit(&self, comps: &Computations, remaining: u32) -> (c: Color)
        requires
            world_wf(*self),
            comps_wf(*comps),
        ensures
            c == spec_shade_hit(*self, *comps, remaining),
        decreases remaining, 2nat, 0nat,
    {
        let mut res = Color::black();
        let mut i: usize = 0;
        while i < self.lights.len()
            invariant
                i <= self.lights@.len(),
                world_wf(*self),
                comps_wf(*comps),
                res == shade_upto(*self, *comps, remaining, i as int),
            decreases remaining, 1nat, (self.lights@.len() - i) as nat,
        {
            let light = self.lights[i];
            let shadowed = self.is_shadowed(&light, &comps.over_point);
            let material = comps.object.get_material();
            let surface = lighting(
                &material,
                &comps.object,
                &light,
                &comps.over_point,
                &comps.eyev,
                &comps.normalv,
                shadowed,
            );
            let reflected = self.reflected_color(comps, remaining);
            let refracted = self.refracted_color(comps, remaining);
            if material.reflective >= EPS && material.transparency >= EPS {
                let reflectance = schlick(comps);
                res = res.add(surface).add(reflected.scale(reflectance)).add(
                    refracted.scale(fx_sub(ONE, reflectance)),
                );
            } else {
                res = res.add(surface).add(reflected).add(refracted);
            }
            i = i + 1;
        }
        res
    }

    /// The reflected contribution of a prepared hit.
    pub fn reflected_color(&self, comps: &Computations, remaining: u32) -> (c: Color)
        requires
            world_wf(*self),
            comps_wf(*comps),
        ensures
            c == spec_reflected_color(*self, *comps, remaining),
        decreases remaining, 0nat, 0nat,
    {
        let material = comps.object.get_material();
        if material.reflective == 0 || remaining == 0 {
            Color::black()
        } else {
            let reflect_ray = Ray::new(comps.over_point, comps.reflectv);
            let color = self.color_at(&reflect_ray, remaining - 1);
            color.scale(material.reflective)
        }
    }

    /// The refracted contribution of a prepared hit.
    pub fn refracted_color(&self, comps: &Computations, remaining: u32) -> (c: Color)
        requires
            world_wf(*self),
            comps_wf(*comps),
        ensures
            c == spec_refracted_color(*self, *comps, remaining),
        decreases remaining, 0nat, 1nat,
    {
        let material = comps.object.get_material();
        if material.transparency == 0 || remaining == 0 {
            return Color::black();
        }
        let n_ratio = fx_div(comps.n1, comps.n2);
        let cos_i = comps.eyev.dot(comps.normalv);
        let sin2_t = fx_mul(fx_mul(n_ratio, n_ratio), fx_sub(ONE, fx_mul(cos_i, cos_i)));
        if sin2_t > ONE {
            return Color::black();
        }
        let cos_t = fx_sqrt(fx_sub(ONE, sin2_t));
        let direction = comps.normalv.scale(fx_sub(fx_mul(n_ratio, cos_i), cos_t)).sub(
            comps.eyev.scale(n_ratio),
        );
        let refract_ray = Ray::new(comps.under_point, direction);
        let color = self.color_at(&refract_ray, remaining - 1);
        color.scale(material.transparency)
    }

    /// The color a ray finds in the scene.
    pub fn color_at(&self, ray: &Ray, remaining: u32) -> (c: Color)
        requires
            world_wf(*self),
        ensures
            c == spec_color_at(*self, *ray, remaining),
        decreases remaining, 3nat, 0nat,
    {
        let xs = self.intersect(ray);
        match hit(&xs) {
            Some(i) => {
                proof {
                    assert(xs@.contains(i));
                    let k = choose|k: int| 0 <= k < xs@.len() && xs@[k] == i;
                    assert(shape_wf(xs@[k].object));
                }
                let comps = prepare_computations(&i, ray, &xs);
                self.shade_hit(&comps, remaining)
            },
            None => Color::black(),
        }
    }
}

impl Default for World {
    /// The default scene: one light, an outer colored sphere, and an inner
    /// half-size sphere.
    fn default() -> (w: World)
        ensures
            w.lights@ =~= seq![
                PointLight {
                    position: Point { x: -100_000_000_000_000i64, y: 100_000_000_000_000i64, z: -100_000_000_000_000i64 },
                    intensity: Color { red: ONE, green: ONE, blue: ONE },
                },
            ],
            w.objects@.len() == 2,
            w.objects@[0] == Shape::Sphere(
                Sphere {
                    id: 0,
                    transform: spec_identity(),
                    material: Material {
                        color: Color { red: 8_000_000_000_000i64, green: ONE, blue: 6_000_000_000_000i64 },
                        diffuse: 7_000_000_000_000i64,
                        specular: 2_000_000_000_000i64,
                        ..spec_default_material()
                    },
                },
            ),
            w.objects@[1] == Shape::Sphere(
                Sphere {
                    id: 1,
                    transform: crate::matrix::mat_mul(
                        crate::transformations::scaling_matrix(
                            5_000_000_000_000,
                            5_000_000_000_000,
                            5_000_000_000_000,
                        ),
                        spec_identity(),
                    ),
                    material: spec_default_material(),
                },
            ),
    {
        let light = PointLight::new(
            Point::new(-100_000_000_000_000, 100_000_000_000_000, -100_000_000_000_000),
            Color::white(),
        );
        let mut s1 = Sphere::new(0);
        let mut m = Material::default();
        m.color = Color::new(8_000_000_000_000, ONE, 6_000_000_000_000);
        m.diffuse = 7_000_000_000_000;
        m.specular = 2_000_000_000_000;
        s1.material = m;
        let mut s2 = Sphere::new(1);
        s2.transform = Matrix::identity().scaling(5_000_000_000_000, 5_000_000_000_000, 5_000_000_000_000);
        let mut objects: Vec<Shape> = Vec::new();
        objects.push(Shape::Sphere(s1));
        objects.push(Shape::Sphere(s2));
        let mut lights: Vec<PointLight> = Vec::new();
        lights.push(light);
        World { objects, lights }
    }
}

} // verus!
