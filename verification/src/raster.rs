//! Assembly of the shaded colour buffer into an 8-bit RGB raster.

use vstd::prelude::*;
use crate::config::{Config, lemma_frame_bound};
use crate::error::RenderError;
use crate::grid::{raster_index, column_of, row_of, lemma_pixel_of_index};
use crate::quantize::{quantize, quantize_component, lemma_quantize_range};

verus! {

/// One record of the device buffer as read back after a dispatch: the
/// colour channels red, green and blue, then an auxiliary channel.  Each
/// channel is the bit pattern of a single-precision value.
#[derive(Debug, Clone, Copy, PartialEq, Eq)]
pub struct Record {
    pub channels: [u32; 4],
}

/// A host-side image: `height` rows of `width` pixels, row-major from the
/// top left, three bytes per pixel in the order red, green, blue.
#[derive(Debug, PartialEq, Eq)]
pub struct Raster {
    pub width: u32,
    pub height: u32,
    pub data: Vec<u8>,
}

impl Raster {
    /// The byte count matches the dimensions.
    pub open spec fn well_formed(&self) -> bool {
        self.data@.len() == 3 * ((self.width as nat) * (self.height as nat))
    }
}

/// The three bytes of the pixel shaded in `record`.
pub open spec fn shade(record: Record) -> Seq<u8> {
    Seq::new(3, |c: int| quantize(record.channels[c]) as u8)
}

/// The pixel at column `x` of row `y` in a frame `width` pixels wide.
pub open spec fn pixel_at(records: Seq<Record>, width: nat, x: nat, y: nat) -> Seq<u8> {
    shade(records[raster_index(width, x, y) as int])
}

/// The bytes of the raster assembled from `records`: pixel `i` takes bytes
/// `3i` to `3i + 2` and is the quantised colour of record `i`.
pub open spec fn raster_bytes(records: Seq<Record>) -> Seq<u8> {
    Seq::new(3 * records.len(), |k: int| shade(records[k / 3])[k % 3])
}

/// Quantises the colour of the record behind pixel `(x, y)`.
fn pixel_rgb(records: &Vec<Record>, width: u32, x: u32, y: u32) -> (rgb: [u8; 3])
    requires
        x < width,
        (y as nat) * (width as nat) + (x as nat) < records@.len(),
    ensures
        rgb@ == pixel_at(records@, width as nat, x as nat, y as nat),
{
    proof {
        lemma_frame_bound(y, width);
        assert(records@.len() == records.len());
    }
    let i: u64 = (y as u64) * (width as u64) + (x as u64);
    let record: Record = records[i as usize];
    let rgb: [u8; 3] = [
        quantize_component(record.channels[0]),
        quantize_component(record.channels[1]),
        quantize_component(record.channels[2]),
    ];
    proof {
        lemma_quantize_range(record.channels[0]);
        lemma_quantize_range(record.channels[1]);
        lemma_quantize_range(record.channels[2]);
        assert(rgb@ =~= shade(record));
    }
    rgb
}

/// `image::ImageBuffer::from_fn` on 8-bit RGB pixels, followed by
/// `into_raw`.
///
/// `from_fn` allocates `3 · width · height` bytes, panicking if that count
/// overflows `usize`, and walks the pixels in storage order, keeping a
/// column counter that wraps at `width`: the pixel stored at position `i`
/// is given the colour computed for column `i % width` of row `i / width`.
/// `into_raw` hands out the storage as it is.  The colour computed here for
/// a coordinate is `pixel_rgb`'s.
#[verifier::external_body]
fn interleave(width: u32, height: u32, records: &Vec<Record>) -> (raw: Vec<u8>)
    requires
        records@.len() == (width as nat) * (height as nat),
        3 * ((width as nat) * (height as nat)) <= usize::MAX,
    ensures
        raw@ == Seq::new(
            3 * ((width as nat) * (height as nat)),
            |k: int|
                pixel_at(
                    records@,
                    width as nat,
                    column_of(width as nat, (k / 3) as nat),
                    row_of(width as nat, (k / 3) as nat),
                )[k % 3],
        ),
{
    let img: image::RgbImage = image::ImageBuffer::from_fn(
        width,
        height,
        |x, y| image::Rgb(pixel_rgb(records, width, x, y)),
    );
    img.into_raw()
}

/// Builds the raster of a frame from the colour buffer read back for it.
///
/// A configuration that is not renderable is refused as `InvalidConfig`.
/// A buffer whose length is not the frame's pixel count, or a frame whose
/// raster would not fit in memory, is refused as `Resource`: nothing is
/// truncated or padded.
pub fn assemble(cfg: &Config, records: &Vec<Record>) -> (r: Result<Raster, RenderError>)
    ensures
        !cfg.renderable() ==> r == Err::<Raster, RenderError>(
            RenderError::InvalidConfig { width: cfg.width, height: cfg.height },
        ),
        cfg.renderable() && !fits(cfg, records@) ==> r == Err::<Raster, RenderError>(
            RenderError::Resource { records: cfg.spec_pixel_count() as u64 },
        ),
        cfg.renderable() && fits(cfg, records@) ==> r is Ok && r->Ok_0.width == cfg.width
            && r->Ok_0.height == cfg.height && r->Ok_0.data@ == raster_bytes(records@)
            && r->Ok_0.well_formed(),
{
    let count: u32 = match cfg.validate() {
        Ok(n) => n,
        Err(e) => {
            return Err(e);
        },
    };
    if records.len() as u64 != count as u64 || count as u64 > (usize::MAX / 3) as u64 {
        return Err(RenderError::Resource { records: count as u64 });
    }
    let raw: Vec<u8> = interleave(cfg.width, cfg.height, records);
    proof {
        assert forall|k: int| 0 <= k < 3 * records@.len() implies #[trigger] raw@[k]
            == raster_bytes(records@)[k] by {
            lemma_pixel_of_index(cfg.width as nat, cfg.height as nat, (k / 3) as nat);
        }
        assert(raw@ =~= raster_bytes(records@));
    }
    Ok(Raster { width: cfg.width, height: cfg.height, data: raw })
}

/// The buffer matches the frame and the frame's raster fits in memory.
pub open spec fn fits(cfg: &Config, records: Seq<Record>) -> bool {
    records.len() == cfg.spec_pixel_count() && 3 * cfg.spec_pixel_count() <= usize::MAX
}

} // verus!
