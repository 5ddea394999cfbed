//! The captured raster: RGBA8 pixels in row-major order.

use vstd::prelude::*;

verus! {

/// What a raster holds, as plain values.
pub struct RasterView {
    pub width: u32,
    pub height: u32,
    pub pixels: Seq<u8>,
}

/// The buffer of a `width` by `height` RGBA8 raster has four bytes a pixel.
pub open spec fn rgba_len_matches(width: u32, height: u32, len: nat) -> bool {
    len == width * height * 4
}

/// The pixel count of any raster fits comfortably in 128 bits.
pub proof fn lemma_pixel_count_bound(width: u32, height: u32)
    ensures
        0 <= width * height <= 0xffff_ffff * 0xffff_ffff,
{
    assert(0 <= width * height <= 0xffff_ffff * 0xffff_ffff) by (nonlinear_arith)
        requires
            0 <= width <= 0xffff_ffff,
            0 <= height <= 0xffff_ffff,
    ;
}

/// An RGBA8 raster whose buffer always holds exactly `width * height`
/// pixels.
pub struct Raster {
    width: u32,
    height: u32,
    pixels: Vec<u8>,
}

#[derive(Clone, Copy, Debug, PartialEq, Eq)]
pub enum RasterError {
    /// The buffer does not hold four bytes for each pixel.
    BufferSizeMismatch,
}

impl View for Raster {
    type V = RasterView;

    closed spec fn view(&self) -> RasterView {
        RasterView { width: self.width, height: self.height, pixels: self.pixels@ }
    }
}

impl Raster {
    #[verifier::type_invariant]
    spec fn well_sized(self) -> bool {
        rgba_len_matches(self.width, self.height, self.pixels@.len())
    }

    /// Wraps an RGBA8 buffer; it must hold exactly four bytes a pixel.
    pub fn new(width: u32, height: u32, pixels: Vec<u8>) -> (r: Result<Raster, RasterError>)
        ensures
            rgba_len_matches(width, height, pixels@.len()) <==> r is Ok,
            r matches Ok(raster) ==> raster@ == (RasterView { width, height, pixels: pixels@ }),
    {
        proof {
            lemma_pixel_count_bound(width, height);
        }
        if (width as u128) * (height as u128) * 4 == pixels.len() as u128 {
            Ok(Raster { width, height, pixels })
        } else {
            Err(RasterError::BufferSizeMismatch)
        }
    }

    pub fn width(&self) -> (w: u32)
        ensures
            w == self@.width,
    {
        self.width
    }

    pub fn height(&self) -> (h: u32)
        ensures
            h == self@.height,
    {
        self.height
    }

    pub fn pixels(&self) -> (p: &Vec<u8>)
        ensures
            p@ == self@.pixels,
            rgba_len_matches(self@.width, self@.height, p@.len()),
    {
        proof {
            use_type_invariant(self);
        }
        &self.pixels
    }

    pub fn into_pixels(self) -> (p: Vec<u8>)
        ensures
            p@ == self@.pixels,
            rgba_len_matches(self@.width, self@.height, p@.len()),
    {
        proof {
            use_type_invariant(&self);
        }
        self.pixels
    }
}

} // verus!
