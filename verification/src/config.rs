use vstd::prelude::*;
use crate::error::RenderError;

verus! {

/// Most work items a single dispatch can address.
pub const MAX_WORK_ITEMS: u64 = 0xFFFF_FFFF;

/// Render parameters, fixed for the lifetime of one render.
#[derive(Debug, Clone, Copy, PartialEq, Eq)]
pub struct Config {
    pub width: u32,
    pub height: u32,
    pub min_bounces: u32,
    pub max_bounces: u32,
    pub samples_per_pixel: u32,
}

/// Camera pose at render time.  Each component is the IEEE-754
/// single-precision bit pattern of the coordinate it stands for.
///
/// The ray field is expressed in camera-local space: neither the position
/// nor the orientation is applied to it on the host.  The pose is carried
/// alongside a render unchanged, for a backend that binds it to the kernel.
#[derive(Debug, Clone, Copy, PartialEq, Eq)]
pub struct Scene {
    /// Position, as `x, y, z`.
    pub cam_pos: [u32; 3],
    /// Orientation quaternion, as scalar part then `x, y, z`.
    pub cam_rot: [u32; 4],
}

impl Config {
    /// The parameters are consistent with each other.
    pub open spec fn well_formed(&self) -> bool {
        &&& self.width > 0
        &&& self.height > 0
        &&& self.min_bounces <= self.max_bounces
        &&& self.samples_per_pixel >= 1
    }

    /// Number of pixels, and so of rays, records and work items.
    pub open spec fn spec_pixel_count(&self) -> nat {
        (self.width as nat) * (self.height as nat)
    }

    /// The parameters are consistent and the frame fits one dispatch.
    pub open spec fn renderable(&self) -> bool {
        self.well_formed() && self.spec_pixel_count() <= MAX_WORK_ITEMS
    }

    /// Number of pixels of the frame.
    pub fn pixel_count(&self) -> (n: u64)
        ensures
            n == self.spec_pixel_count(),
    {
        proof {
            lemma_frame_bound(self.width, self.height);
        }
        (self.width as u64) * (self.height as u64)
    }

    /// Accepts exactly the renderable configurations, and for those returns
    /// the work-item count of the dispatch.
    pub fn validate(&self) -> (r: Result<u32, RenderError>)
        ensures
            self.renderable() ==> r == Ok::<u32, RenderError>(self.spec_pixel_count() as u32),
            !self.renderable() ==> r == Err::<u32, RenderError>(
                RenderError::InvalidConfig { width: self.width, height: self.height },
            ),
    {
        let consistent = self.width > 0 && self.height > 0 && self.min_bounces
            <= self.max_bounces && self.samples_per_pixel >= 1;
        let n: u64 = self.pixel_count();
        if consistent && n <= MAX_WORK_ITEMS {
            Ok(n as u32)
        } else {
            Err(RenderError::InvalidConfig { width: self.width, height: self.height })
        }
    }
}

/// A frame of 32-bit dimensions has a pixel count below 2^64.
pub proof fn lemma_frame_bound(width: u32, height: u32)
    ensures
        (width as nat) * (height as nat) <= 0xFFFF_FFFE_0000_0001,
{
    assert((width as nat) * (height as nat) <= 0xFFFF_FFFFnat * 0xFFFF_FFFFnat)
        by (nonlinear_arith)
        requires
            width <= 0xFFFF_FFFF,
            height <= 0xFFFF_FFFF,
    ;
}

} // verus!
