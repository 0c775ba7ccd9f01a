//! The ray field of a pinhole camera: one direction per pixel, in raster
//! order.
//!
//! The ray through pixel `(x, y)` of a `width × height` frame points along
//! `(2x/width − 1, 2y/height − 1, 1)`.  Directions are kept exact, as two
//! fractions in front of a unit depth; scaling to unit length is left to
//! whoever encodes them for the device, and does not change where a ray
//! points.  Directions are camera-local: the pose of the camera does not
//! enter them.

use vstd::prelude::*;
use crate::config::{Config, Scene};
use crate::grid::{column_of, row_of, lemma_index_of_pixel, lemma_pixel_of_index};

verus! {

/// The direction `(x_num / x_den, y_num / y_den, 1)`.
#[derive(Debug, Clone, Copy, PartialEq, Eq)]
pub struct Ray {
    pub x_num: i64,
    pub x_den: u32,
    pub y_num: i64,
    pub y_den: u32,
}

impl Ray {
    /// Both denominators are positive and both fractions lie in `[−1, 1)`.
    pub open spec fn in_view(&self) -> bool {
        &&& self.x_den > 0
        &&& self.y_den > 0
        &&& -(self.x_den as int) <= self.x_num < self.x_den
        &&& -(self.y_den as int) <= self.y_num < self.y_den
    }
}

/// The ray through pixel `(x, y)` of a `width × height` frame.
pub open spec fn ray_through(width: u32, height: u32, x: nat, y: nat) -> Ray {
    Ray {
        x_num: (2 * x - width) as i64,
        x_den: width,
        y_num: (2 * y - height) as i64,
        y_den: height,
    }
}

/// The ray field of a frame: `width · height` rays, the one at position `i`
/// going through the pixel at position `i` in raster order.  A frame with a
/// zero dimension has no rays.
pub open spec fn ray_field_of(cfg: &Config) -> Seq<Ray> {
    Seq::new(
        cfg.spec_pixel_count(),
        |i: int|
            ray_through(
                cfg.width,
                cfg.height,
                column_of(cfg.width as nat, i as nat),
                row_of(cfg.width as nat, i as nat),
            ),
    )
}

/// Every ray of a field lies in view: its two fractions are in `[−1, 1)`.
/// With the unit depth in front of it, no ray is the zero vector.
pub proof fn lemma_rays_in_view(cfg: &Config, i: int)
    requires
        0 <= i < ray_field_of(cfg).len(),
    ensures
        ray_field_of(cfg)[i].in_view(),
{
    lemma_pixel_of_index(cfg.width as nat, cfg.height as nat, i as nat);
}

/// Symmetry about the centre of the frame: the rays through columns `x`
/// and `width − x` have opposite horizontal fractions, and likewise rows
/// `y` and `height − y` vertically.
pub proof fn lemma_mirrored_rays(width: u32, height: u32, x: nat, y: nat)
    requires
        0 < x < width,
        0 < y < height,
    ensures
        ({
            let here = ray_through(width, height, x, y);
            let across = ray_through(width, height, (width - x) as nat, y);
            let below = ray_through(width, height, x, (height - y) as nat);
            &&& across.x_num == -here.x_num
            &&& across.y_num == here.y_num
            &&& below.y_num == -here.y_num
            &&& below.x_num == here.x_num
        }),
{
}

/// Generates the ray field of a frame seen from a scene.
///
/// The field is a function of the frame's dimensions alone: the pose in
/// the scene is not applied.
pub fn ray_field(cfg: &Config, _scene: &Scene) -> (rays: Vec<Ray>)
    requires
        cfg.spec_pixel_count() <= usize::MAX,
    ensures
        rays@ == ray_field_of(cfg),
        rays@.len() == (cfg.width as nat) * (cfg.height as nat),
        cfg.width == 0 || cfg.height == 0 ==> rays@.len() == 0,
{
    let width: u32 = cfg.width;
    let height: u32 = cfg.height;
    let mut rays: Vec<Ray> = Vec::new();
    if width == 0 {
        assert((width as nat) * (height as nat) == 0) by (nonlinear_arith)
            requires
                width == 0,
        ;
        assert(rays@ =~= ray_field_of(cfg));
        return rays;
    }
    let mut y: u32 = 0;
    while y < height
        invariant
            width == cfg.width,
            height == cfg.height,
            width > 0,
            y <= height,
            rays@.len() == (y as nat) * (width as nat),
            forall|i: int|
                0 <= i < rays@.len() ==> #[trigger] rays@[i] == ray_through(
                    width,
                    height,
                    column_of(width as nat, i as nat),
                    row_of(width as nat, i as nat),
                ),
        decreases height - y,
    {
        let mut x: u32 = 0;
        while x < width
            invariant
                width == cfg.width,
                height == cfg.height,
                width > 0,
                y < height,
                x <= width,
                rays@.len() == (y as nat) * (width as nat) + (x as nat),
                forall|i: int|
                    0 <= i < rays@.len() ==> #[trigger] rays@[i] == ray_through(
                        width,
                        height,
                        column_of(width as nat, i as nat),
                        row_of(width as nat, i as nat),
                    ),
            decreases width - x,
        {
            proof {
                lemma_index_of_pixel(width as nat, height as nat, x as nat, y as nat);
            }
            let ray: Ray = Ray {
                x_num: 2 * (x as i64) - (width as i64),
                x_den: width,
                y_num: 2 * (y as i64) - (height as i64),
                y_den: height,
            };
            rays.push(ray);
            x = x + 1;
        }
        assert((y as nat) * (width as nat) + (width as nat) == ((y + 1) as nat) * (width as nat))
            by (nonlinear_arith);
        y = y + 1;
    }
    proof {
        assert((height as nat) * (width as nat) == (width as nat) * (height as nat))
            by (nonlinear_arith);
        assert(rays@ =~= ray_field_of(cfg));
        if height == 0 {
            assert((width as nat) * (height as nat) == 0) by (nonlinear_arith)
                requires
                    height == 0,
            ;
        }
    }
    rays
}

} // verus!
