//! Halving a raster before analysis: premultiply alpha, resize with a
//! bilinear convolution filter, then divide alpha back out.

use crate::raster::{lemma_pixel_count_bound, rgba_len_matches, Raster, RasterView};
use fast_image_resize as fr;
use vstd::prelude::*;

verus! {

/// RGBA8 pixels with each colour channel multiplied by the pixel's alpha.
pub uninterp spec fn alpha_multiplied(pixels: Seq<u8>) -> Seq<u8>;

/// RGBA8 pixels with each colour channel divided by the pixel's alpha.
pub uninterp spec fn alpha_divided(pixels: Seq<u8>) -> Seq<u8>;

/// An RGBA8 raster resampled to another size with a bilinear convolution
/// filter.
pub uninterp spec fn bilinear_resized(
    pixels: Seq<u8>,
    src_width: u32,
    src_height: u32,
    dst_width: u32,
    dst_height: u32,
) -> Seq<u8>;

/// Relies on fast_image_resize's `MulDiv::multiply_alpha_inplace` for
/// `U8x4` images: the colour channels are multiplied by alpha in place, so
/// the buffer keeps its length. `None` where the buffer cannot be taken as
/// an image (`Image::from_vec_u8` refuses a misaligned buffer).
#[verifier::external_body]
fn multiply_alpha(width: u32, height: u32, pixels: Vec<u8>) -> (r: Option<Vec<u8>>)
    requires
        width > 0,
        height > 0,
        width * height <= u32::MAX,
        rgba_len_matches(width, height, pixels@.len()),
    ensures
        r matches Some(p) ==> p@ == alpha_multiplied(pixels@) && p@.len() == pixels@.len(),
{
    let (w, h) = (std::num::NonZeroU32::new(width)?, std::num::NonZeroU32::new(height)?);
    let mut image = fr::Image::from_vec_u8(w, h, pixels, fr::PixelType::U8x4).ok()?;
    fr::MulDiv::default().multiply_alpha_inplace(&mut image.view_mut()).ok()?;
    Some(image.into_vec())
}

/// Relies on fast_image_resize's `MulDiv::divide_alpha_inplace` for `U8x4`
/// images: the colour channels are divided by alpha in place, so the buffer
/// keeps its length. `None` where `Image::from_vec_u8` refuses the buffer.
#[verifier::external_body]
fn divide_alpha(width: u32, height: u32, pixels: Vec<u8>) -> (r: Option<Vec<u8>>)
    requires
        width > 0,
        height > 0,
        width * height <= u32::MAX,
        rgba_len_matches(width, height, pixels@.len()),
    ensures
        r matches Some(p) ==> p@ == alpha_divided(pixels@) && p@.len() == pixels@.len(),
{
    let (w, h) = (std::num::NonZeroU32::new(width)?, std::num::NonZeroU32::new(height)?);
    let mut image = fr::Image::from_vec_u8(w, h, pixels, fr::PixelType::U8x4).ok()?;
    fr::MulDiv::default().divide_alpha_inplace(&mut image.view_mut()).ok()?;
    Some(image.into_vec())
}

/// Relies on fast_image_resize's `Resizer::resize` with
/// `ResizeAlg::Convolution(FilterType::Bilinear)`: it fills the destination
/// image, taken over from `dst_pixels` (`dst_width * dst_height` RGBA8
/// pixels, all zero), and the image hands that buffer back. `None` where
/// `Image::from_vec_u8` refuses either buffer (a misaligned allocation).
#[verifier::external_body]
fn resize_bilinear(
    src_width: u32,
    src_height: u32,
    pixels: Vec<u8>,
    dst_width: u32,
    dst_height: u32,
    dst_pixels: Vec<u8>,
) -> (r: Option<Vec<u8>>)
    requires
        src_width > 0,
        src_height > 0,
        dst_width > 0,
        dst_height > 0,
        src_width * src_height <= u32::MAX,
        dst_width * dst_height <= u32::MAX,
        rgba_len_matches(src_width, src_height, pixels@.len()),
        rgba_len_matches(dst_width, dst_height, dst_pixels@.len()),
        forall|i: int| 0 <= i < dst_pixels@.len() ==> dst_pixels@[i] == 0,
    ensures
        r matches Some(p) ==> p@ == bilinear_resized(pixels@, src_width, src_height, dst_width, dst_height)
            && p@.len() == dst_pixels@.len(),
{
    let (sw, sh) = (std::num::NonZeroU32::new(src_width)?, std::num::NonZeroU32::new(src_height)?);
    let (dw, dh) = (std::num::NonZeroU32::new(dst_width)?, std::num::NonZeroU32::new(dst_height)?);
    let src = fr::Image::from_vec_u8(sw, sh, pixels, fr::PixelType::U8x4).ok()?;
    let mut dst = fr::Image::from_vec_u8(dw, dh, dst_pixels, fr::PixelType::U8x4).ok()?;
    let mut resizer = fr::Resizer::new(fr::ResizeAlg::Convolution(fr::FilterType::Bilinear));
    resizer.resize(&src.view(), &mut dst.view_mut()).ok()?;
    Some(dst.into_vec())
}

/// `len` zero bytes.
fn zeroed(len: usize) -> (v: Vec<u8>)
    ensures
        v@.len() == len,
        forall|i: int| 0 <= i < len ==> v@[i] == 0,
{
    let mut v: Vec<u8> = Vec::new();
    while v.len() < len
        invariant
            v@.len() <= len,
            forall|i: int| 0 <= i < v@.len() ==> v@[i] == 0,
        decreases len - v@.len(),
    {
        v.push(0);
    }
    v
}

#[derive(Clone, Copy, Debug, PartialEq, Eq)]
pub enum ResizeError {
    /// A side of the source is too short to halve (0 or 1 pixel).
    InvalidDimensions,
    /// The source has more pixels than the resizer can count.
    TooLarge,
    /// The resizer refused the buffer.
    Backend,
}

/// The pixels of a raster halved on both axes, with alpha-correct filtering.
pub open spec fn half_size_pixels(v: RasterView) -> Seq<u8> {
    let dst_width = (v.width / 2) as u32;
    let dst_height = (v.height / 2) as u32;
    alpha_divided(
        bilinear_resized(alpha_multiplied(v.pixels), v.width, v.height, dst_width, dst_height),
    )
}

/// Halves a raster on both axes (floor division).
pub fn resize_image(image: Raster) -> (r: Result<Raster, ResizeError>)
    ensures
        (image@.width < 2 || image@.height < 2) <==> r == Err::<Raster, ResizeError>(
            ResizeError::InvalidDimensions,
        ),
        (image@.width >= 2 && image@.height >= 2 && image@.width * image@.height > u32::MAX)
            <==> r == Err::<Raster, ResizeError>(ResizeError::TooLarge),
        r matches Ok(out) ==> out@ == (RasterView {
            width: (image@.width / 2) as u32,
            height: (image@.height / 2) as u32,
            pixels: half_size_pixels(image@),
        }),
{
    let width = image.width();
    let height = image.height();
    if width < 2 || height < 2 {
        return Err(ResizeError::InvalidDimensions);
    }
    proof {
        lemma_pixel_count_bound(width, height);
    }
    if (width as u64) * (height as u64) > u32::MAX as u64 {
        return Err(ResizeError::TooLarge);
    }
    let dst_width = width / 2;
    let dst_height = height / 2;
    assert(dst_width * dst_height <= width * height) by (nonlinear_arith)
        requires
            0 < dst_width <= width,
            0 < dst_height <= height,
    ;
    let pixels = image.into_pixels();
    let len = pixels.len();
    assert(dst_width * dst_height * 4 <= len);
    let destination = zeroed((dst_width as usize) * (dst_height as usize) * 4);
    let premultiplied = match multiply_alpha(width, height, pixels) {
        Some(p) => p,
        None => return Err(ResizeError::Backend),
    };
    let resized = match resize_bilinear(width, height, premultiplied, dst_width, dst_height, destination) {
        Some(p) => p,
        None => return Err(ResizeError::Backend),
    };
    let restored = match divide_alpha(dst_width, dst_height, resized) {
        Some(p) => p,
        None => return Err(ResizeError::Backend),
    };
    match Raster::new(dst_width, dst_height, restored) {
        Ok(out) => Ok(out),
        Err(_) => Err(ResizeError::Backend),
    }
}

} // verus!
