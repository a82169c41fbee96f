//! The camera: pixel coordinates to primary rays, and the render loop.

use vstd::prelude::*;

use crate::canvas::{canvas_wf, spec_ppm, Canvas};
use crate::color::Color;
use crate::fx::{fx_div, fx_mul, fx_sub, fxdiv, fxmul, fxsub, sat, ONE, SCALE, TWO};
use crate::matrix::{invertible, mat_mul_point, spec_identity, spec_inverse, Matrix};
use crate::ray::Ray;
use crate::trig::{fx_tan, fxtan};
use crate::tuple::{Point, Vector};
use crate::world::{spec_color_at, world_wf, World};

verus! {

/// Half of 1.0 in raw units: the shift to a pixel's center.
pub const HALF: i64 = 5_000_000_000_000;

#[derive(Clone, Copy, Debug)]
pub struct Camera {
    pub hsize: i32,
    pub vsize: i32,
    pub field_of_view: i64,
    pub transform: Matrix,
    pub half_width: i64,
    pub half_height: i64,
    pub pixel_size: i64,
}

/// A whole number of pixels as a scalar.
pub open spec fn px_fx(p: int) -> i64 {
    sat(p * SCALE)
}

/// The half width of the image plane: the tangent of half the field of view,
/// shrunk on the narrower side of the aspect ratio.
pub open spec fn spec_half_width(hsize: i32, vsize: i32, field_of_view: i64) -> i64
    recommends
        hsize > 0,
        vsize > 0,
{
    let half_view = fxtan(fxdiv(field_of_view, TWO));
    let aspect = fxdiv(px_fx(hsize as int), px_fx(vsize as int));
    if aspect >= ONE {
        half_view
    } else {
        fxmul(half_view, aspect)
    }
}

/// The half height of the image plane.
pub open spec fn spec_half_height(hsize: i32, vsize: i32, field_of_view: i64) -> i64
    recommends
        hsize > 0,
        vsize > 0,
{
    let half_view = fxtan(fxdiv(field_of_view, TWO));
    let aspect = fxdiv(px_fx(hsize as int), px_fx(vsize as int));
    if aspect >= ONE {
        fxdiv(half_view, aspect)
    } else {
        half_view
    }
}

/// The world-space width of one pixel.
pub open spec fn spec_pixel_size(hsize: i32, vsize: i32, field_of_view: i64) -> i64
    recommends
        hsize > 0,
        vsize > 0,
{
    fxdiv(fxmul(spec_half_width(hsize, vsize, field_of_view), TWO), px_fx(hsize as int))
}

/// A camera is usable when its size is positive and its transform inverts.
pub open spec fn camera_wf(c: Camera) -> bool {
    &&& c.hsize > 0
    &&& c.vsize > 0
    &&& invertible(c.transform)
}

/// The primary ray through the center of a pixel: the pixel's point on the
/// z = -1 image plane and the camera origin, both carried into world space
/// by the inverse camera transform.
pub open spec fn spec_ray_for_pixel(c: Camera, px: int, py: int) -> Ray
    recommends
        invertible(c.transform),
{
    let xoffset = fxmul(crate::fx::fxadd(px_fx(px), HALF), c.pixel_size);
    let yoffset = fxmul(crate::fx::fxadd(px_fx(py), HALF), c.pixel_size);
    let world_x = fxsub(c.half_width, xoffset);
    let world_y = fxsub(c.half_height, yoffset);
    let inv = spec_inverse(c.transform).unwrap();
    let pixel = mat_mul_point(inv, Point { x: world_x, y: world_y, z: (-10_000_000_000_000) as i64 });
    let origin = mat_mul_point(inv, Point { x: 0i64, y: 0i64, z: 0i64 });
    let direction = pixel.spec_sub(origin).spec_normalize();
    Ray { origin, direction }
}

/// The primary ray's direction before normalization: what
/// `spec_ray_for_pixel` hands to `spec_normalize`.
pub open spec fn unnormalized_pixel_direction(c: Camera, px: int, py: int) -> Vector
    recommends
        invertible(c.transform),
{
    let xoffset = fxmul(crate::fx::fxadd(px_fx(px), HALF), c.pixel_size);
    let yoffset = fxmul(crate::fx::fxadd(px_fx(py), HALF), c.pixel_size);
    let world_x = fxsub(c.half_width, xoffset);
    let world_y = fxsub(c.half_height, yoffset);
    let inv = spec_inverse(c.transform).unwrap();
    let pixel = mat_mul_point(inv, Point { x: world_x, y: world_y, z: (-10_000_000_000_000) as i64 });
    let origin = mat_mul_point(inv, Point { x: 0i64, y: 0i64, z: 0i64 });
    pixel.spec_sub(origin)
}

/// Law: wherever the pixel's direction before normalization is of ordinary
/// size (components at most three hundred, length at least one part in five
/// thousand), the primary ray's direction has unit length within the
/// crate's tolerance. The hypothesis leaves out only degenerate cameras
/// whose transform maps the pixel onto the eye.
pub proof fn lemma_ray_for_pixel_direction_near_unit(c: Camera, px: int, py: int)
    requires
        invertible(c.transform),
        -3_000_000_000_000_000 <= unnormalized_pixel_direction(c, px, py).x
            <= 3_000_000_000_000_000,
        -3_000_000_000_000_000 <= unnormalized_pixel_direction(c, px, py).y
            <= 3_000_000_000_000_000,
        -3_000_000_000_000_000 <= unnormalized_pixel_direction(c, px, py).z
            <= 3_000_000_000_000_000,
        unnormalized_pixel_direction(c, px, py).spec_magnitude() >= 2_000_000_000,
    ensures
        crate::fx::fx_near(spec_ray_for_pixel(c, px, py).direction.spec_magnitude(), ONE),
{
    assert(spec_ray_for_pixel(c, px, py).direction == unnormalized_pixel_direction(
        c,
        px,
        py,
    ).spec_normalize());
    crate::tuple::lemma_normalize_near_unit(unnormalized_pixel_direction(c, px, py));
}

/// The colors of every pixel of a rendered image, row by row.
pub open spec fn spec_render_pixels(camera: Camera, world: World, remaining: u32) -> Seq<Color>
    recommends
        camera_wf(camera),
        world_wf(world),
{
    Seq::new(
        (camera.hsize * camera.vsize) as nat,
        |i: int|
            spec_color_at(
                world,
                spec_ray_for_pixel(camera, i % (camera.hsize as int), i / (camera.hsize as int)),
                remaining,
            ),
    )
}

/// Law: rendering is a pure function of the scene. Two renders of equal
/// cameras and equal worlds give the same pixels, and their serialized
/// images are byte for byte identical.
pub proof fn lemma_render_deterministic(c1: Camera, w1: World, c2: Camera, w2: World, n: u32)
    requires
        c1 == c2,
        w1 == w2,
    ensures
        spec_render_pixels(c1, w1, n) == spec_render_pixels(c2, w2, n),
        spec_ppm(
            c1.hsize as int,
            c1.vsize as int,
            spec_render_pixels(c1, w1, n),
        ) == spec_ppm(c2.hsize as int, c2.vsize as int, spec_render_pixels(c2, w2, n)),
{
}

/// A whole number of pixels as a scalar.
fn to_fx(p: i32) -> (r: i64)
    ensures
        r == px_fx(p as int),
{
    proof {
        crate::fx::lemma_i64_product_in_i128(p as int, SCALE as int);
    }
    let wide: i128 = (p as i128) * (SCALE as i128);
    if wide > i64::MAX as i128 {
        i64::MAX
    } else if wide < i64::MIN as i128 {
        i64::MIN
    } else {
        wide as i64
    }
}

impl Camera {
    /// A camera with the given image size and field of view, looking down
    /// the negative z axis until a transform is set.
    pub fn new(hsize: i32, vsize: i32, field_of_view: i64) -> (c: Camera)
        requires
            hsize > 0,
            vsize > 0,
        ensures
            c.hsize == hsize,
            c.vsize == vsize,
            c.field_of_view == field_of_view,
            c.transform == spec_identity(),
            c.half_width == spec_half_width(hsize, vsize, field_of_view),
            c.half_height == spec_half_height(hsize, vsize, field_of_view),
            c.pixel_size == spec_pixel_size(hsize, vsize, field_of_view),
    {
        let half_view = fx_tan(fx_div(field_of_view, TWO));
        let aspect = fx_div(to_fx(hsize), to_fx(vsize));
        let half_width: i64;
        let half_height: i64;
        if aspect >= ONE {
            half_width = half_view;
            half_height = fx_div(half_view, aspect);
        } else {
            half_width = fx_mul(half_view, aspect);
            half_height = half_view;
        }
        let pixel_size = fx_div(fx_mul(half_width, TWO), to_fx(hsize));
        Camera {
            hsize,
            vsize,
            field_of_view,
            transform: Matrix::identity(),
            half_width,
            half_height,
            pixel_size,
        }
    }

    /// The primary ray through the center of the given pixel.
    pub fn ray_for_pixel(&self, px: i32, py: i32) -> (r: Ray)
        requires
            invertible(self.transform),
        ensures
            r == spec_ray_for_pixel(*self, px as int, py as int),
    {
        let xoffset = fx_mul(crate::fx::fx_add(to_fx(px), HALF), self.pixel_size);
        let yoffset = fx_mul(crate::fx::fx_add(to_fx(py), HALF), self.pixel_size);
        let world_x = fx_sub(self.half_width, xoffset);
        let world_y = fx_sub(self.half_height, yoffset);
        let inv = self.transform.inverted();
        let pixel = inv.mul_point(Point::new(world_x, world_y, -ONE));
        let origin = inv.mul_point(Point::new(0, 0, 0));
        let direction = pixel.sub(origin).normalize();
        Ray::new(origin, direction)
    }
}

/// Render the scene: cast the primary ray of every pixel and record the
/// color it finds.
pub fn render(camera: Camera, world: World, reflection_count: u32) -> (image: Canvas)
    requires
        camera_wf(camera),
        world_wf(world),
        camera.hsize * camera.vsize <= usize::MAX,
    ensures
        image.width == camera.hsize as usize,
        image.height == camera.vsize as usize,
        canvas_wf(image),
        image.pixels@ == spec_render_pixels(camera, world, reflection_count),
{
    let w = camera.hsize as usize;
    let h = camera.vsize as usize;
    proof {
        assert(w * h == camera.hsize * camera.vsize) by (nonlinear_arith)
            requires
                w == camera.hsize as usize,
                h == camera.vsize as usize,
                camera.hsize > 0,
                camera.vsize > 0,
        ;
    }
    let mut image = Canvas::new(w, h);
    let ghost target = spec_render_pixels(camera, world, reflection_count);
    let mut y: i32 = 0;
    while y < camera.vsize
        invariant
            0 <= y <= camera.vsize,
            camera_wf(camera),
            world_wf(world),
            image.width == w,
            image.height == h,
            w == camera.hsize as usize,
            h == camera.vsize as usize,
            canvas_wf(image),
            target == spec_render_pixels(camera, world, reflection_count),
            image.pixels@.len() == target.len(),
            forall|k: int| 0 <= k < y * w ==> image.pixels@[k] == target[k],
        decreases camera.vsize - y,
    {
        let mut x: i32 = 0;
        while x < camera.hsize
            invariant
                0 <= y < camera.vsize,
                0 <= x <= camera.hsize,
                camera_wf(camera),
                world_wf(world),
                image.width == w,
                image.height == h,
                w == camera.hsize as usize,
                h == camera.vsize as usize,
                canvas_wf(image),
                target == spec_render_pixels(camera, world, reflection_count),
                image.pixels@.len() == target.len(),
                forall|k: int| 0 <= k < y * w + x ==> image.pixels@[k] == target[k],
            decreases camera.hsize - x,
        {
            let ray = camera.ray_for_pixel(x, y);
            let color = world.color_at(&ray, reflection_count);
            proof {
                assert((y * w + x) < (w * h)) by (nonlinear_arith)
                    requires
                        0 <= x < w,
                        0 <= y < h,
                ;
                vstd::arithmetic::div_mod::lemma_fundamental_div_mod_converse(
                    y * w + x,
                    w as int,
                    y as int,
                    x as int,
                );
            }
            image.write(x as usize, y as usize, color);
            x = x + 1;
        }
        proof {
            assert(y * w + camera.hsize == (y + 1) * w) by (nonlinear_arith)
                requires
                    w == camera.hsize as usize,
                    camera.hsize > 0,
            ;
        }
        y = y + 1;
    }
    proof {
        assert(camera.vsize * w == w * h) by (nonlinear_arith)
            requires
                w == camera.hsize as usize,
                h == camera.vsize as usize,
                camera.hsize > 0,
                camera.vsize > 0,
        ;
        assert(image.pixels@ =~= target);
    }
    image
}

} // verus!
