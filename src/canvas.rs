//! An RGB8 drawing surface: single pixels are set here, guide lines and
//! circles are rasterised by plotters' bitmap backend, and the finished
//! surface is encoded as PNG by the image crate.

use plotters_backend::DrawingBackend;
use vstd::prelude::*;

verus! {

#[verifier::external_type_specification]
#[verifier::external_body]
pub struct ExImageError(image::ImageError);

/// An RGB colour.
pub type Rgb8 = (u8, u8, u8);

/// What a canvas holds, as plain values.
pub struct CanvasView {
    pub width: u32,
    pub height: u32,
    pub data: Seq<u8>,
}

/// Sizes plotters' bitmap backend can address: it indexes pixels with
/// `i32` arithmetic.
pub open spec fn canvas_fits(width: u32, height: u32) -> bool {
    &&& width <= i32::MAX
    &&& height <= i32::MAX
    &&& width * height <= i32::MAX
    &&& width * height * 3 <= usize::MAX
}

/// Three bytes a pixel, on a surface the backend can address.
pub open spec fn canvas_size_ok(width: u32, height: u32, len: nat) -> bool {
    &&& len == width * height * 3
    &&& canvas_fits(width, height)
}

/// Largest coordinate, in absolute value, of a slanted line or a circle
/// (and largest surface side for a slanted line): within it, the
/// rasteriser's `i32` arithmetic cannot overflow.
pub const RASTER_LIMIT: i32 = 4096;

/// Largest coordinate, in absolute value, of a horizontal or vertical line,
/// which the backend fills directly (`to + 1` must not overflow).
pub const AXIS_LIMIT: i32 = 0x4000_0000;

pub open spec fn within(v: i32, limit: i32) -> bool {
    -limit <= v <= limit
}

/// Lines that plotters draws without overflowing on a `width` by `height`
/// surface.
pub open spec fn line_in_reach(width: u32, height: u32, from: (i32, i32), to: (i32, i32)) -> bool {
    if from.0 == to.0 || from.1 == to.1 {
        within(from.0, AXIS_LIMIT) && within(from.1, AXIS_LIMIT) && within(to.0, AXIS_LIMIT) && within(to.1, AXIS_LIMIT)
    } else {
        &&& width <= RASTER_LIMIT
        &&& height <= RASTER_LIMIT
        &&& within(from.0, RASTER_LIMIT) && within(from.1, RASTER_LIMIT)
        &&& within(to.0, RASTER_LIMIT) && within(to.1, RASTER_LIMIT)
    }
}

/// Circles that plotters draws without overflowing.
pub open spec fn circle_in_reach(center: (i32, i32), radius: u32) -> bool {
    within(center.0, RASTER_LIMIT) && within(center.1, RASTER_LIMIT) && radius <= RASTER_LIMIT
}

/// `n` bytes, all equal to `value`.
pub open spec fn filled(n: nat, value: u8) -> Seq<u8> {
    Seq::new(n, |i: int| value)
}

/// Whether `(x, y)` lies on a `width` by `height` surface.
pub open spec fn in_bounds(width: u32, height: u32, x: int, y: int) -> bool {
    0 <= x < width && 0 <= y < height
}

/// The surface with pixel `(x, y)` set to `color`; a point off the surface
/// leaves it unchanged.
pub open spec fn with_pixel(data: Seq<u8>, width: u32, height: u32, x: int, y: int, color: Rgb8) -> Seq<u8> {
    if in_bounds(width, height, x, y) {
        let o = (y * width + x) * 3;
        data.update(o, color.0).update(o + 1, color.1).update(o + 2, color.2)
    } else {
        data
    }
}

/// A one-pixel-wide straight line between `from` and `to` as plotters'
/// bitmap backend rasterises it, clipped to the surface.
pub uninterp spec fn line_drawn(
    data: Seq<u8>,
    width: u32,
    height: u32,
    from: (i32, i32),
    to: (i32, i32),
    color: Rgb8,
) -> Seq<u8>;

/// A circle of `radius` around `center`, outlined or filled, clipped to the
/// surface.
pub uninterp spec fn circle_drawn(
    data: Seq<u8>,
    width: u32,
    height: u32,
    center: (i32, i32),
    radius: u32,
    color: Rgb8,
    filled: bool,
) -> Seq<u8>;

/// The PNG encoding of an RGB8 surface.
pub uninterp spec fn png_rgb8(data: Seq<u8>, width: u32, height: u32) -> Seq<u8>;

/// Relies on plotters' `BitMapBackend::draw_line` over an `RGBPixel` buffer
/// in the colour `color`. `with_buffer_and_format` accepts a buffer of three
/// bytes a pixel, and drawing on a buffer target always reports success;
/// the backend draws in place, so the buffer keeps its length.
#[verifier::external_body]
fn backend_draw_line(
    data: &mut Vec<u8>,
    width: u32,
    height: u32,
    from: (i32, i32),
    to: (i32, i32),
    color: Rgb8,
) -> (ok: bool)
    requires
        canvas_size_ok(width, height, old(data)@.len()),
        line_in_reach(width, height, from, to),
    ensures
        ok,
        final(data)@.len() == old(data)@.len(),
        final(data)@ == line_drawn(old(data)@, width, height, from, to, color),
{
    let Ok(mut backend) = plotters_bitmap::BitMapBackend::<plotters_bitmap::bitmap_pixel::RGBPixel>::with_buffer_and_format(
        data.as_mut_slice(),
        (width, height),
    ) else {
        return false;
    };
    let style = plotters::style::RGBColor(color.0, color.1, color.2);
    backend.draw_line(from, to, &style).is_ok()
}

/// Relies on plotters' `DrawingBackend::draw_circle` on a `BitMapBackend`
/// over an `RGBPixel` buffer, in the colour `color`. The backend accepts a
/// buffer of three bytes a pixel and always reports success on it; it draws
/// in place, so the buffer keeps its length.
#[verifier::external_body]
fn backend_draw_circle(
    data: &mut Vec<u8>,
    width: u32,
    height: u32,
    center: (i32, i32),
    radius: u32,
    color: Rgb8,
    filled: bool,
) -> (ok: bool)
    requires
        canvas_size_ok(width, height, old(data)@.len()),
        circle_in_reach(center, radius),
    ensures
        ok,
        final(data)@.len() == old(data)@.len(),
        final(data)@ == circle_drawn(
            old(data)@,
            width,
            height,
            center,
            radius,
            color,
            filled,
        ),
{
    let Ok(mut backend) = plotters_bitmap::BitMapBackend::<plotters_bitmap::bitmap_pixel::RGBPixel>::with_buffer_and_format(
        data.as_mut_slice(),
        (width, height),
    ) else {
        return false;
    };
    let style = plotters::style::RGBColor(color.0, color.1, color.2);
    backend.draw_circle(center, radius, &style, filled).is_ok()
}

/// Relies on `image::write_buffer_with_format` with `ColorType::Rgb8` and
/// `ImageFormat::Png`, writing into an in-memory cursor. Its PNG encoder
/// asserts that the buffer holds three bytes a pixel; the png crate then
/// refuses only a zero width or height (writing to memory cannot fail).
#[verifier::external_body]
fn write_png_rgb8(data: &Vec<u8>, width: u32, height: u32) -> (r: Result<Vec<u8>, image::ImageError>)
    requires
        data@.len() == width * height * 3,
    ensures
        (r is Ok) == (width > 0 && height > 0),
        r matches Ok(png) ==> png@ == png_rgb8(data@, width, height),
{
    let mut png: Vec<u8> = Vec::new();
    image::write_buffer_with_format(
        &mut std::io::Cursor::new(&mut png),
        data,
        width,
        height,
        image::ColorType::Rgb8,
        image::ImageFormat::Png,
    )?;
    Ok(png)
}

/// Why a scope image could not be produced.
#[derive(Clone, Copy, Debug, PartialEq, Eq)]
pub enum RenderError {
    /// The image would have more pixels than the drawing backend can address.
    TooLarge,
    /// PNG encoding failed: the image has no pixels.
    Encoding,
}

/// An RGB8 drawing surface.
pub struct Canvas {
    width: u32,
    height: u32,
    data: Vec<u8>,
}

impl View for Canvas {
    type V = CanvasView;

    closed spec fn view(&self) -> CanvasView {
        CanvasView { width: self.width, height: self.height, data: self.data@ }
    }
}

proof fn lemma_pixel_offset(width: u32, height: u32, x: int, y: int)
    requires
        in_bounds(width, height, x, y),
    ensures
        0 <= y * width,
        0 <= (y * width + x) * 3,
        (y * width + x) * 3 + 3 <= width * height * 3,
{
    assert(0 <= y * width) by (nonlinear_arith)
        requires
            0 <= y,
            0 <= width,
    ;
    assert(0 <= (y * width + x) * 3) by (nonlinear_arith)
        requires
            0 <= x,
            0 <= y,
            0 <= width,
    ;
    assert((y * width + x) * 3 + 3 <= width * height * 3) by (nonlinear_arith)
        requires
            0 <= x < width,
            0 <= y < height,
    ;
}

impl Canvas {
    /// The canvas is well formed: its buffer matches its size.
    pub closed spec fn wf(&self) -> bool {
        canvas_size_ok(self.width, self.height, self.data@.len())
    }

    /// A `width` by `height` canvas filled with `background` in every
    /// channel; `None` when the drawing backend cannot address that size.
    pub fn new(width: u32, height: u32, background: u8) -> (r: Option<Canvas>)
        ensures
            r is Some <==> canvas_fits(width, height),
            r matches Some(c) ==> c.wf() && c@ == (CanvasView {
                width,
                height,
                data: filled((width * height * 3) as nat, background),
            }),
    {
        proof {
            crate::raster::lemma_pixel_count_bound(width, height);
        }
        let count: u64 = (width as u64) * (height as u64);
        if width > i32::MAX as u32 || height > i32::MAX as u32 || count > i32::MAX as u64 || count * 3
            > usize::MAX as u64 {
            return None;
        }
        let len: usize = (count * 3) as usize;
        let mut data: Vec<u8> = Vec::new();
        while data.len() < len
            invariant
                data@.len() <= len,
                forall|i: int| 0 <= i < data@.len() ==> data@[i] == background,
            decreases len - data@.len(),
        {
            data.push(background);
        }
        assert(data@ == filled(len as nat, background));
        Some(Canvas { width, height, data })
    }

    pub fn width(&self) -> (w: u32)
        ensures
            w == self@.width,
    {
        self.width
    }

    pub fn height(&self) -> (h: u32)
        ensures
            h == self@.height,
    {
        self.height
    }

    /// The raw RGB8 bytes, row by row.
    pub fn data(&self) -> (d: &Vec<u8>)
        ensures
            d@ == self@.data,
    {
        &self.data
    }

    /// Sets one pixel; a point off the canvas is dropped.
    pub fn plot_pixel(&mut self, x: i64, y: i64, color: Rgb8)
        requires
            old(self).wf(),
        ensures
            final(self).wf(),
            final(self)@ == (CanvasView {
                data: with_pixel(old(self)@.data, old(self)@.width, old(self)@.height, x as int, y as int, color),
                ..old(self)@
            }),
    {
        if x < 0 || y < 0 || x >= self.width as i64 || y >= self.height as i64 {
            return;
        }
        proof {
            lemma_pixel_offset(self.width, self.height, x as int, y as int);
        }
        let len = self.data.len();
        let row: usize = (y as usize) * (self.width as usize);
        assert(row == y * self.width);
        let o: usize = (row + (x as usize)) * 3;
        assert(o + 2 < len);
        self.data.set(o, color.0);
        self.data.set(o + 1, color.1);
        self.data.set(o + 2, color.2);
    }

    /// Draws a straight guide line.
    pub fn draw_line(&mut self, from: (i32, i32), to: (i32, i32), color: Rgb8)
        requires
            old(self).wf(),
            line_in_reach(old(self)@.width, old(self)@.height, from, to),
        ensures
            final(self).wf(),
            final(self)@ == (CanvasView {
                data: line_drawn(old(self)@.data, old(self)@.width, old(self)@.height, from, to, color),
                ..old(self)@
            }),
    {
        backend_draw_line(&mut self.data, self.width, self.height, from, to, color);
    }

    /// Draws a circle outline.
    pub fn draw_circle(&mut self, center: (i32, i32), radius: u32, color: Rgb8)
        requires
            old(self).wf(),
            circle_in_reach(center, radius),
        ensures
            final(self).wf(),
            final(self)@ == (CanvasView {
                data: circle_drawn(
                    old(self)@.data,
                    old(self)@.width,
                    old(self)@.height,
                    center,
                    radius,
                    color,
                    false,
                ),
                ..old(self)@
            }),
    {
        backend_draw_circle(&mut self.data, self.width, self.height, center, radius, color, false);
    }

    /// Encodes the canvas as an 8-bit RGB PNG.
    pub fn encode_png(&self) -> (r: Result<Vec<u8>, RenderError>)
        requires
            self.wf(),
        ensures
            r is Ok <==> self@.width > 0 && self@.height > 0,
            r matches Ok(png) ==> png@ == png_rgb8(self@.data, self@.width, self@.height),
            r is Err ==> r == Err::<Vec<u8>, RenderError>(RenderError::Encoding),
    {
        match write_png_rgb8(&self.data, self.width, self.height) {
            Ok(png) => Ok(png),
            Err(_) => Err(RenderError::Encoding),
        }
    }
}

} // verus!
