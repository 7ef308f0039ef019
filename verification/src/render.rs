//! The renderer: for each pixel, the mean colour of its jittered samples.
use crate::scalar::{lawful, num, number, Scalar};
use crate::scene::{two_spheres, Scene};
use crate::shape::{Shape, ShapeList};
use crate::sphere::Sphere;
use crate::vector::Vector3;
use vstd::prelude::*;
use vstd::std_specs::ops::{AddSpec, DivSpec};

verus! {

/// A source of offsets within a pixel. Nothing is asked of what it hands out:
/// the renderer takes each offset as it comes.
pub trait Jitter<T> {
    /// The next offset.
    fn next(&mut self) -> T;
}

/// An image size, a number of samples per pixel, and the scene to render.
pub struct Renderer<S: Shape> {
    width: u32,
    height: u32,
    scene: Scene<S>,
    samples: u32,
}

impl<S: Shape> Renderer<S> {
    /// The width of the image, in pixels.
    pub closed spec fn width(&self) -> u32 {
        self.width
    }

    /// The height of the image, in pixels.
    pub closed spec fn height(&self) -> u32 {
        self.height
    }

    /// The number of samples that are averaged for one pixel.
    pub closed spec fn samples(&self) -> u32 {
        self.samples
    }

    /// The scene that is rendered.
    pub closed spec fn scene(&self) -> Scene<S> {
        self.scene
    }

    /// The renderer of `scene` at `width` by `height` pixels with `samples`
    /// samples for each.
    pub fn with_scene(width: u32, height: u32, samples: u32, scene: Scene<S>) -> (r: Self)
        ensures
            r.width() == width,
            r.height() == height,
            r.samples() == samples,
            r.scene() == scene,
    {
        Renderer { width, height, scene, samples }
    }

    /// The colour of one sample of the pixel `(x, y)`, moved by `(dx, dy)`
    /// within the pixel: the colour of the camera's ray through
    /// `((x + dx) / width, (y + dy) / height)`.
    pub open spec fn sample_spec(&self, x: u32, y: u32, dx: S::Num, dy: S::Num) -> Vector3<S::Num> {
        self.scene().color_spec(
            &self.scene().camera().ray_spec(
                num::<S::Num>(x).add_spec(dx).div_spec(num::<S::Num>(self.width())),
                num::<S::Num>(y).add_spec(dy).div_spec(num::<S::Num>(self.height())),
            ),
        )
    }

    /// The colour of one sample of the pixel `(x, y)`.
    pub fn sample(&self, x: u32, y: u32, dx: S::Num, dy: S::Num) -> (c: Vector3<S::Num>)
        requires
            lawful::<S::Num>(),
        ensures
            c == self.sample_spec(x, y, dx, dy),
    {
        let u = (number::<S::Num>(x) + dx) / number::<S::Num>(self.width);
        let v = (number::<S::Num>(y) + dy) / number::<S::Num>(self.height);
        let r = self.scene.get_camera().get_ray(&u, &v);
        self.scene.color(&r)
    }

    /// The sum of the samples of the pixel `(x, y)` for `offsets`, added up
    /// from zero in the order of the offsets.
    pub open spec fn sum_spec(&self, x: u32, y: u32, offsets: Seq<(S::Num, S::Num)>) -> Vector3<
        S::Num,
    >
        decreases offsets.len(),
    {
        if offsets.len() == 0 {
            Vector3::splat_spec(num::<S::Num>(0))
        } else {
            self.sum_spec(x, y, offsets.drop_last()).plus_spec(
                self.sample_spec(x, y, offsets.last().0, offsets.last().1),
            )
        }
    }

    /// The colour of the pixel `(x, y)` for `offsets`: the sum of its samples,
    /// divided by the number of samples per pixel.
    pub open spec fn pixel_spec(&self, x: u32, y: u32, offsets: Seq<(S::Num, S::Num)>) -> Vector3<
        S::Num,
    > {
        self.sum_spec(x, y, offsets).unscale_spec(num::<S::Num>(self.samples()))
    }

    /// The colour of the pixel `(x, y)` for one pair of offsets per sample:
    /// the mean of the samples where `offsets` holds as many pairs as the
    /// renderer's number of samples, which is what the sum is divided by. That
    /// number is not tested: where it is zero, the pixel is what dividing by
    /// zero gives.
    pub fn pixel(&self, x: u32, y: u32, offsets: &Vec<(S::Num, S::Num)>) -> (c: Vector3<S::Num>)
        requires
            lawful::<S::Num>(),
        ensures
            c == self.pixel_spec(x, y, offsets@),
    {
        let mut sum = Vector3::splat(number::<S::Num>(0));
        let mut k: usize = 0;
        while k < offsets.len()
            invariant
                lawful::<S::Num>(),
                k <= offsets.len(),
                sum == self.sum_spec(x, y, offsets@.take(k as int)),
            decreases offsets.len() - k,
        {
            proof {
                assert(offsets@.take(k + 1).drop_last() =~= offsets@.take(k as int));
            }
            let (dx, dy) = offsets[k];
            sum = sum.plus(self.sample(x, y, dx, dy));
            k += 1;
        }
        proof {
            assert(offsets@.take(k as int) =~= offsets@);
        }
        sum.unscale(number::<S::Num>(self.samples))
    }

    /// `c` is a colour that `render` may give the pixel with index `i`, counted
    /// row by row: the pixel's colour for some offsets, one pair per sample.
    pub open spec fn renders(&self, i: int, c: Vector3<S::Num>) -> bool {
        exists|offsets: Seq<(S::Num, S::Num)>|
            offsets.len() == self.samples() && c == #[trigger] self.pixel_spec(
                (i % (self.width() as int)) as u32,
                (i / (self.width() as int)) as u32,
                offsets,
            )
    }

    /// The image, row by row from row zero, each row from column zero: for
    /// each pixel, two offsets are drawn from `jitter` for each sample, first
    /// the horizontal one, and the pixel gets its colour for them. An image
    /// without width or height has no pixels.
    pub fn render<J: Jitter<S::Num>>(&self, jitter: &mut J) -> (pixels: Vec<Vector3<S::Num>>)
        requires
            lawful::<S::Num>(),
        ensures
            pixels@.len() == self.width() * self.height(),
            forall|i: int| 0 <= i < pixels@.len() ==> self.renders(i, #[trigger] pixels@[i]),
    {
        let w = self.width as u64;
        let h = self.height as u64;
        assert(w * h <= 0xffff_ffff * 0xffff_ffff) by (nonlinear_arith)
            requires
                w <= 0xffff_ffff,
                h <= 0xffff_ffff,
        ;
        let total: u64 = w * h;
        let mut pixels: Vec<Vector3<S::Num>> = Vec::new();
        let mut i: u64 = 0;
        while i < total
            invariant
                lawful::<S::Num>(),
                w == self.width(),
                h == self.height(),
                total == w * h,
                i <= total,
                pixels@.len() == i,
                forall|j: int| 0 <= j < pixels@.len() ==> self.renders(j, #[trigger] pixels@[j]),
            decreases total - i,
        {
            assert(w > 0 && i / w < h) by (nonlinear_arith)
                requires
                    i < w * h,
            ;
            let x = (i % w) as u32;
            let y = (i / w) as u32;
            let mut offsets: Vec<(S::Num, S::Num)> = Vec::new();
            let mut k: u32 = 0;
            while k < self.samples
                invariant
                    k <= self.samples(),
                    offsets@.len() == k,
                decreases self.samples() - k,
            {
                let dx = jitter.next();
                let dy = jitter.next();
                offsets.push((dx, dy));
                k += 1;
            }
            let c = self.pixel(x, y, &offsets);
            pixels.push(c);
            i += 1;
        }
        pixels
    }
}

impl<T: Scalar> Renderer<ShapeList<Sphere<T>>> {
    /// The renderer of the scene of two spheres.
    pub fn new(width: u32, height: u32, samples: u32) -> (r: Self)
        requires
            lawful::<T>(),
        ensures
            r.width() == width,
            r.height() == height,
            r.samples() == samples,
            two_spheres(r.scene()),
    {
        Renderer { width, height, scene: Scene::new(), samples }
    }
}

} // verus!
