//! Rays, intersections, their aggregation, and the choice of the visible hit.

use vstd::prelude::*;

use crate::fx::{
    fx_add, fx_div, fx_mul, fx_powi, fx_sqrt, fx_sub, fxadd, fxdiv, fxmul, fxpowi, fxsqrt, fxsub,
    ONE,
};
use crate::matrix::{invertible, mat_mul_point, mat_mul_vector, spec_inverse, Matrix};
use crate::shape::{shape_transform, shape_wf, spec_local_intersect, Shape};
use crate::tuple::{Point, Vector};
use crate::world::Computations;

verus! {

#[derive(Clone, Copy, Debug, PartialEq, Eq)]
pub struct Ray {
    pub origin: Point,
    pub direction: Vector,
}

/// A parametric distance along a ray, and the shape met there.
#[derive(Clone, Copy, Debug, PartialEq, Eq)]
pub struct Intersection {
    pub t: i64,
    pub object: Shape,
}

impl Intersection {
    pub fn new(t: i64, object: Shape) -> (i: Intersection)
        ensures
            i == (Intersection { t, object }),
    {
        Intersection { t, object }
    }
}

/// The point a ray reaches after parameter `t`.
pub open spec fn spec_position(r: Ray, t: i64) -> Point {
    r.origin.spec_add(r.direction.spec_scale(t))
}

/// A ray carried through a transform: both origin and direction are mapped.
pub open spec fn spec_ray_transform(r: Ray, m: Matrix) -> Ray {
    Ray { origin: mat_mul_point(m, r.origin), direction: mat_mul_vector(m, r.direction) }
}

/// Insert one intersection into a list from the back, before every entry
/// with a strictly larger `t`: the step of a stable insertion sort.
pub open spec fn insert_sorted(s: Seq<Intersection>, x: Intersection) -> Seq<Intersection>
    decreases s.len(),
{
    if s.len() == 0 {
        seq![x]
    } else if s.last().t <= x.t {
        s.push(x)
    } else {
        insert_sorted(s.drop_last(), x).push(s.last())
    }
}

/// Stable insertion sort by `t` ascending.
pub open spec fn sort_by_t(s: Seq<Intersection>) -> Seq<Intersection>
    decreases s.len(),
{
    if s.len() == 0 {
        Seq::empty()
    } else {
        insert_sorted(sort_by_t(s.drop_last()), s.last())
    }
}

/// A list is nondecreasing in `t`.
pub open spec fn sorted_by_t(s: Seq<Intersection>) -> bool {
    forall|i: int, j: int| 0 <= i <= j < s.len() ==> s[i].t <= s[j].t
}

/// The visible hit: of the entries with nonnegative `t`, the earliest one
/// with the least `t`; none when every entry lies behind the ray.
pub open spec fn spec_hit(s: Seq<Intersection>) -> Option<Intersection>
    decreases s.len(),
{
    if s.len() == 0 {
        None
    } else {
        let prev = spec_hit(s.drop_last());
        let x = s.last();
        if x.t >= 0 {
            match prev {
                None => Some(x),
                Some(y) => if x.t < y.t {
                    Some(x)
                } else {
                    Some(y)
                },
            }
        } else {
            prev
        }
    }
}

proof fn lemma_insert_sorted_at(s: Seq<Intersection>, x: Intersection, j: int)
    requires
        0 <= j <= s.len(),
        forall|k: int| j <= k < s.len() ==> s[k].t > x.t,
        j > 0 ==> s[j - 1].t <= x.t,
    ensures
        insert_sorted(s, x) =~= s.take(j) + seq![x] + s.skip(j),
    decreases s.len(),
{
    if s.len() == 0 {
    } else if j == s.len() {
    } else {
        lemma_insert_sorted_at(s.drop_last(), x, j);
        assert(s.drop_last().take(j) =~= s.take(j));
        assert((s.take(j) + seq![x] + s.drop_last().skip(j)).push(s.last()) =~= s.take(j)
            + seq![x] + s.skip(j));
    }
}

/// Inserting keeps a list nondecreasing in `t`.
proof fn lemma_insert_sorted_sorted(s: Seq<Intersection>, x: Intersection)
    requires
        sorted_by_t(s),
    ensures
        sorted_by_t(insert_sorted(s, x)),
    decreases s.len(),
{
    if s.len() == 0 {
    } else if s.last().t <= x.t {
        let out = s.push(x);
        assert forall|i: int, j: int| 0 <= i <= j < out.len() implies out[i].t <= out[j].t by {
            if j < s.len() {
            } else if i < s.len() {
                assert(s[i].t <= s[s.len() - 1].t);
            }
        }
    } else {
        assert(sorted_by_t(s.drop_last())) by {
            assert(forall|i: int, j: int|
                0 <= i <= j < s.drop_last().len() ==> s.drop_last()[i] == s[i] && s.drop_last()[j]
                    == s[j]);
        }
        lemma_insert_sorted_sorted(s.drop_last(), x);
        let inner = insert_sorted(s.drop_last(), x);
        let out = inner.push(s.last());
        assert forall|i: int, j: int| 0 <= i <= j < out.len() implies out[i].t <= out[j].t by {
            if j < inner.len() {
            } else if i < inner.len() {
                assert(inner.contains(inner[i]));
                lemma_insert_sorted_contains(s.drop_last(), x, inner[i]);
                if s.drop_last().contains(inner[i]) {
                    let k = choose|k: int|
                        0 <= k < s.drop_last().len() && s.drop_last()[k] == inner[i];
                    assert(s[k].t <= s[s.len() - 1].t);
                }
            }
        }
    }
}

/// Sorting leaves the list nondecreasing in `t`.
pub proof fn lemma_sort_sorted(s: Seq<Intersection>)
    ensures
        sorted_by_t(sort_by_t(s)),
    decreases s.len(),
{
    if s.len() > 0 {
        lemma_sort_sorted(s.drop_last());
        lemma_insert_sorted_sorted(sort_by_t(s.drop_last()), s.last());
    }
}

/// Pushing appends exactly one entry.
proof fn lemma_push_contains(s: Seq<Intersection>, x: Intersection, y: Intersection)
    ensures
        s.push(x).contains(y) <==> (s.contains(y) || y == x),
{
    if s.push(x).contains(y) {
        let i = choose|i: int| 0 <= i < s.push(x).len() && s.push(x)[i] == y;
        if i < s.len() {
            assert(s[i] == y);
            assert(s.contains(y));
        }
    }
    if s.contains(y) {
        let i = choose|i: int| 0 <= i < s.len() && s[i] == y;
        assert(s.push(x)[i] == y);
        assert(s.push(x).contains(y));
    }
    if y == x {
        assert(s.push(x)[s.len() as int] == y);
        assert(s.push(x).contains(y));
    }
}

/// Sorting keeps exactly the entries that were there.
pub proof fn lemma_insert_sorted_contains(s: Seq<Intersection>, x: Intersection, y: Intersection)
    ensures
        insert_sorted(s, x).contains(y) <==> (s.contains(y) || y == x),
    decreases s.len(),
{
    if s.len() == 0 {
        assert(seq![x] =~= Seq::<Intersection>::empty().push(x));
        lemma_push_contains(Seq::<Intersection>::empty(), x, y);
    } else if s.last().t <= x.t {
        lemma_push_contains(s, x, y);
    } else {
        lemma_insert_sorted_contains(s.drop_last(), x, y);
        assert(s.contains(y) <==> (s.drop_last().contains(y) || y == s.last())) by {
            if s.contains(y) {
                let i = choose|i: int| 0 <= i < s.len() && s[i] == y;
                if i < s.len() - 1 {
                    assert(s.drop_last()[i] == y);
                }
            }
            if s.drop_last().contains(y) {
                let i = choose|i: int| 0 <= i < s.drop_last().len() && s.drop_last()[i] == y;
                assert(s[i] == y);
            }
        }
        let inner = insert_sorted(s.drop_last(), x);
        lemma_push_contains(inner, s.last(), y);
    }
}

/// Sorting keeps exactly the entries that were there.
pub proof fn lemma_sort_contains(s: Seq<Intersection>, y: Intersection)
    ensures
        sort_by_t(s).contains(y) <==> s.contains(y),
    decreases s.len(),
{
    if s.len() == 0 {
    } else {
        lemma_sort_contains(s.drop_last(), y);
        lemma_insert_sorted_contains(sort_by_t(s.drop_last()), s.last(), y);
        assert(s.contains(y) <==> (s.drop_last().contains(y) || y == s.last())) by {
            if s.contains(y) {
                let i = choose|i: int| 0 <= i < s.len() && s[i] == y;
                if i < s.len() - 1 {
                    assert(s.drop_last()[i] == y);
                }
            }
            if s.drop_last().contains(y) {
                let i = choose|i: int| 0 <= i < s.drop_last().len() && s.drop_last()[i] == y;
                assert(s[i] == y);
            }
        }
    }
}

/// Every shape an intersection list points at is well formed.
pub open spec fn all_objects_wf(s: Seq<Intersection>) -> bool {
    forall|k: int| 0 <= k < s.len() ==> #[trigger] shape_wf(s[k].object)
}

/// Sort the intersections by `t` ascending, keeping the order of equals.
pub fn intersections(list: Vec<Intersection>) -> (r: Vec<Intersection>)
    ensures
        r@ == sort_by_t(list@),
        sorted_by_t(r@),
{
    proof {
        lemma_sort_sorted(list@);
    }
    let mut out: Vec<Intersection> = Vec::new();
    let mut i: usize = 0;
    while i < list.len()
        invariant
            i <= list.len(),
            out@ == sort_by_t(list@.take(i as int)),
        decreases list.len() - i,
    {
        let x = list[i];
        let mut j: usize = out.len();
        while j > 0 && out[j - 1].t > x.t
            invariant
                j <= out.len(),
                forall|k: int| j <= k < out@.len() ==> out@[k].t > x.t,
            decreases j,
        {
            j = j - 1;
        }
        proof {
            lemma_insert_sorted_at(out@, x, j as int);
        }
        out.insert(j, x);
        proof {
            assert(list@.take(i + 1 as int).drop_last() =~= list@.take(i as int));
            assert(out@ =~= insert_sorted(sort_by_t(list@.take(i as int)), x));
        }
        i = i + 1;
    }
    proof {
        assert(list@.take(list@.len() as int) =~= list@);
    }
    out
}

/// The visible hit of a list of intersections: the entry with the least
/// nonnegative `t`, or none when every entry lies behind the ray origin.
pub fn hit(xs: &Vec<Intersection>) -> (r: Option<Intersection>)
    ensures
        r == spec_hit(xs@),
        r is Some ==> {
            &&& r.unwrap().t >= 0
            &&& xs@.contains(r.unwrap())
            &&& forall|k: int| 0 <= k < xs@.len() && xs@[k].t >= 0 ==> r.unwrap().t <= xs@[k].t
        },
        r is None ==> forall|k: int| 0 <= k < xs@.len() ==> xs@[k].t < 0,
{
    let mut best: Option<Intersection> = None;
    let mut i: usize = 0;
    while i < xs.len()
        invariant
            i <= xs.len(),
            best == spec_hit(xs@.take(i as int)),
            best is Some ==> {
                &&& best.unwrap().t >= 0
                &&& exists|k: int| 0 <= k < i && xs@[k] == best.unwrap()
                &&& forall|k: int| 0 <= k < i && xs@[k].t >= 0 ==> best.unwrap().t <= xs@[k].t
            },
            best is None ==> forall|k: int| 0 <= k < i ==> xs@[k].t < 0,
        decreases xs.len() - i,
    {
        let x = xs[i];
        proof {
            assert(xs@.take(i + 1 as int).drop_last() =~= xs@.take(i as int));
        }
        if x.t >= 0 {
            match best {
                None => {
                    best = Some(x);
                },
                Some(b) => {
                    if x.t < b.t {
                        best = Some(x);
                    }
                },
            }
        }
        i = i + 1;
    }
    proof {
        assert(xs@.take(xs@.len() as int) =~= xs@);
        if best is Some {
            let k = choose|k: int| 0 <= k < xs@.len() && xs@[k] == best.unwrap();
            assert(xs@.contains(best.unwrap()));
        }
    }
    best
}

impl Ray {
    pub fn new(origin: Point, direction: Vector) -> (r: Ray)
        ensures
            r == (Ray { origin, direction }),
    {
        Ray { origin, direction }
    }

    pub fn position(&self, t: i64) -> (p: Point)
        ensures
            p == spec_position(*self, t),
    {
        self.origin.add(self.direction.scale(t))
    }

    pub fn transform(&self, t: Matrix) -> (r: Ray)
        ensures
            r == spec_ray_transform(*self, t),
    {
        Ray { origin: t.mul_point(self.origin), direction: t.mul_vector(self.direction) }
    }

    /// Where this ray meets a shape: the local roots of the ray carried into
    /// the shape's object space, each tied to the shape, sorted by `t`.
    pub fn intersect(&self, shape: &Shape) -> (r: Vec<Intersection>)
        requires
            invertible(shape_transform(*shape)),
        ensures
            r@ == spec_ray_intersect(*self, *shape),
            forall|k: int| 0 <= k < r@.len() ==> #[trigger] r@[k].object == *shape,
    {
        let local_ray = self.transform(shape.get_transform().inverted());
        let ts = shape.local_intersect(&local_ray);
        let mut list: Vec<Intersection> = Vec::new();
        let mut i: usize = 0;
        while i < ts.len()
            invariant
                i <= ts.len(),
                list@ == ts@.take(i as int).map_values(
                    |t: i64| Intersection { t, object: *shape },
                ),
        decreases ts.len() - i,
        {
            list.push(Intersection { t: ts[i], object: *shape });
            proof {
                assert(list@ =~= ts@.take(i + 1 as int).map_values(
                    |t: i64| Intersection { t, object: *shape },
                ));
            }
            i = i + 1;
        }
        proof {
            assert(ts@.take(ts@.len() as int) =~= ts@);
        }
        let out = intersections(list);
        proof {
            assert forall|k: int| 0 <= k < out@.len() implies #[trigger] out@[k].object
                == *shape by {
                assert(out@.contains(out@[k]));
                lemma_sort_contains(list@, out@[k]);
                let m = choose|m: int| 0 <= m < list@.len() && list@[m] == out@[k];
            }
        }
        out
    }
}

/// The intersections of a ray with one shape, sorted by `t`.
pub open spec fn spec_ray_intersect(r: Ray, s: Shape) -> Seq<Intersection>
    recommends
        invertible(shape_transform(s)),
{
    let local = spec_ray_transform(r, spec_inverse(shape_transform(s)).unwrap());
    sort_by_t(spec_local_intersect(s, local).map_values(|t: i64| Intersection { t, object: s }))
}

/// The Schlick approximation to the Fresnel reflectance at a hit.
pub open spec fn spec_schlick(c: Computations) -> i64
    recommends
        c.n1 > 0,
        c.n2 > 0,
{
    let cos_i = c.eyev.spec_dot(c.normalv);
    if c.n1 > c.n2 {
        let n = fxdiv(c.n1, c.n2);
        let sin2_t = fxmul(fxmul(n, n), fxsub(ONE, fxmul(cos_i, cos_i)));
        if sin2_t > ONE {
            ONE
        } else {
            let cos_t = fxsqrt(fxsub(ONE, sin2_t));
            schlick_blend(c.n1, c.n2, cos_t)
        }
    } else {
        schlick_blend(c.n1, c.n2, cos_i)
    }
}

/// The blend of reflectance at normal incidence with the grazing falloff.
pub open spec fn schlick_blend(n1: i64, n2: i64, cos: i64) -> i64
    recommends
        n1 > 0,
        n2 > 0,
{
    let q = fxdiv(fxsub(n1, n2), fxadd(n1, n2));
    let r0 = fxmul(q, q);
    fxadd(r0, fxmul(fxsub(ONE, r0), fxpowi(fxsub(ONE, cos), 5)))
}

/// The Schlick reflectance of a prepared hit: one under total internal
/// reflection, else the blend of the normal-incidence reflectance with the
/// fifth-power grazing falloff, using the transmitted cosine when the ray
/// leaves the denser medium.
pub fn schlick(comps: &Computations) -> (r: i64)
    requires
        comps.n1 > 0,
        comps.n2 > 0,
    ensures
        r == spec_schlick(*comps),
{
    let mut cos = comps.eyev.dot(comps.normalv);
    if comps.n1 > comps.n2 {
        let n = fx_div(comps.n1, comps.n2);
        let sin2_t = fx_mul(fx_mul(n, n), fx_sub(ONE, fx_mul(cos, cos)));
        if sin2_t > ONE {
            return ONE;
        }
        proof {
            crate::fx::lemma_square_nonneg(cos);
        }
        cos = fx_sqrt(fx_sub(ONE, sin2_t));
    }
    let q = fx_div(fx_sub(comps.n1, comps.n2), fx_add(comps.n1, comps.n2));
    let r0 = fx_mul(q, q);
    fx_add(r0, fx_mul(fx_sub(ONE, r0), fx_powi(fx_sub(ONE, cos), 5)))
}

} // verus!
