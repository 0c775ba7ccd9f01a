//! The image handed to the preview texture.

use vstd::prelude::*;
use glium::texture::RawImage2d;
use glium::Rect;
use crate::raster::Raster;

verus! {

/// `glium::texture::RawImage2d`, carried as an opaque value.
#[verifier::external_type_specification]
#[verifier::external_body]
#[verifier::reject_recursive_types(T)]
pub struct ExRawImage2d<'a, T: Clone>(RawImage2d<'a, T>);

/// `glium::Rect`, with its four public fields `left`, `bottom`, `width`
/// and `height`, measured in pixels from the bottom-left corner.
#[verifier::external_type_specification]
pub struct ExRect(Rect);

/// The values a raw image holds, in the order it stores them.
pub uninterp spec fn image_data(img: RawImage2d<'static, u8>) -> Seq<u8>;

/// The width and height a raw image was made with.
pub uninterp spec fn image_size(img: RawImage2d<'static, u8>) -> (u32, u32);

/// `glium::texture::RawImage2d::from_raw_rgb`: builds an image that owns
/// `data` unchanged and records the two dimensions as its width and
/// height.  The pixel format it also records, three channels of the
/// element type, is not part of this contract.
#[verifier::external_body]
fn raw_rgb_image(data: Vec<u8>, width: u32, height: u32) -> (img: RawImage2d<'static, u8>)
    ensures
        image_data(img) == data@,
        image_size(img) == (width, height),
{
    RawImage2d::from_raw_rgb(data, (width, height))
}

/// Turns a raster into what the preview texture is updated with: the
/// rectangle to write, which is of the raster's size and sits at the
/// origin, and the image to write into it, which holds the raster's bytes.
pub fn texture_update(raster: Raster) -> (update: (Rect, RawImage2d<'static, u8>))
    ensures
        update.0 == (Rect { left: 0, bottom: 0, width: raster.width, height: raster.height }),
        image_data(update.1) == raster.data@,
        image_size(update.1) == (raster.width, raster.height),
{
    let rect = Rect { left: 0, bottom: 0, width: raster.width, height: raster.height };
    let img = raw_rgb_image(raster.data, raster.width, raster.height);
    (rect, img)
}

} // verus!
