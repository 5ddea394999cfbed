//! The waveform monitor: every pixel of the source traced at its column,
//! either once at its weighted luminance or three times at its channel
//! values, with a mid-level line and a centre column line.

use crate::canvas::{canvas_fits, filled, line_drawn, png_rgb8, with_pixel, Canvas, RenderError, Rgb8};
use crate::color::{luminance, luminance_of};
use crate::raster::Raster;
use crate::vector_scope::{pixel_color, AUX_LINE_COLOR, BACKGROUND_COLOR};
use vstd::prelude::*;

verus! {

/// Height of a waveform image: one row for each 8-bit level.
pub const WAVEFORM_HEIGHT: u32 = 255;

/// Row of the mid-level reference line.
pub const WAVEFORM_MID_LEVEL: i32 = 128;

/// What the waveform traces.
#[derive(Clone, Copy, Debug, PartialEq, Eq)]
pub enum WaveformMode {
    /// Each channel at its own value, coloured in that channel alone.
    PerChannel,
    /// The weighted luminance, in the pixel's own colour.
    Luminance,
}

/// The trace of pixel `p` plotted onto `data`.
pub open spec fn trace_pixel(data: Seq<u8>, pixels: Seq<u8>, width: u32, mode: WaveformMode, p: int) -> Seq<u8> {
    let c = pixel_color(pixels, p);
    let x = p % (width as int);
    match mode {
        WaveformMode::PerChannel => {
            let red = with_pixel(data, width, WAVEFORM_HEIGHT, x, c.0 as int, (c.0, 0, 0));
            let green = with_pixel(red, width, WAVEFORM_HEIGHT, x, c.1 as int, (0, c.1, 0));
            with_pixel(green, width, WAVEFORM_HEIGHT, x, c.2 as int, (0, 0, c.2))
        },
        WaveformMode::Luminance => with_pixel(data, width, WAVEFORM_HEIGHT, x, luminance(c.0, c.1, c.2), c),
    }
}

/// The traces of the first `k` pixels, plotted in order onto `data`.
pub open spec fn trace(data: Seq<u8>, pixels: Seq<u8>, width: u32, mode: WaveformMode, k: nat) -> Seq<u8>
    decreases k,
{
    if k == 0 {
        data
    } else {
        trace_pixel(trace(data, pixels, width, mode, (k - 1) as nat), pixels, width, mode, k - 1)
    }
}

/// The reference lines drawn over the traces.
pub open spec fn with_waveform_guides(data: Seq<u8>, width: u32) -> Seq<u8> {
    let mid = line_drawn(
        data,
        width,
        WAVEFORM_HEIGHT,
        (0, WAVEFORM_MID_LEVEL),
        (width as i32, WAVEFORM_MID_LEVEL),
        AUX_LINE_COLOR,
    );
    let half = (width / 2) as i32;
    line_drawn(mid, width, WAVEFORM_HEIGHT, (half, 0), (half, WAVEFORM_HEIGHT as i32), AUX_LINE_COLOR)
}

/// The finished waveform's RGB8 pixels for a raster of `width` columns.
pub open spec fn waveform_data(pixels: Seq<u8>, width: u32, mode: WaveformMode) -> Seq<u8> {
    let empty = filled((width * WAVEFORM_HEIGHT * 3) as nat, BACKGROUND_COLOR);
    with_waveform_guides(trace(empty, pixels, width, mode, pixels.len() / 4), width)
}

/// Whether a waveform as wide as `width` fits the drawing backend and memory.
pub open spec fn waveform_fits(width: u32) -> bool {
    canvas_fits(width, WAVEFORM_HEIGHT)
}

/// What rendering a waveform yields: `TooLarge` exactly when the backend
/// cannot address it, `Encoding` exactly when the source has no columns, and
/// otherwise the PNG of the traced pixels.
pub open spec fn waveform_result(
    pixels: Seq<u8>,
    width: u32,
    mode: WaveformMode,
    r: Result<Vec<u8>, RenderError>,
) -> bool {
    if !waveform_fits(width) {
        r == Err::<Vec<u8>, RenderError>(RenderError::TooLarge)
    } else if width == 0 {
        r == Err::<Vec<u8>, RenderError>(RenderError::Encoding)
    } else {
        r matches Ok(png) && png@ == png_rgb8(waveform_data(pixels, width, mode), width, WAVEFORM_HEIGHT)
    }
}

/// Renders the waveform of `image` as an 8-bit RGB PNG as wide as the image
/// and `WAVEFORM_HEIGHT` tall. It fails only for a source too wide for the
/// drawing backend, or one with no columns.
pub fn draw_waveform_with(image: &Raster, mode: WaveformMode) -> (r: Result<Vec<u8>, RenderError>)
    ensures
        waveform_result(image@.pixels, image@.width, mode, r),
{
    let width = image.width();
    let pixels = image.pixels();
    let mut canvas = match Canvas::new(width, WAVEFORM_HEIGHT, BACKGROUND_COLOR) {
        Some(c) => c,
        None => return Err(RenderError::TooLarge),
    };
    let ghost empty = canvas@.data;
    let count: usize = pixels.len() / 4;
    assert(width > 0 || count == 0) by (nonlinear_arith)
        requires
            pixels@.len() == width * image@.height * 4,
            count == pixels@.len() / 4,
    ;
    let mut p: usize = 0;
    while p < count
        invariant
            canvas.wf(),
            canvas@.width == width,
            canvas@.height == WAVEFORM_HEIGHT,
            width == image@.width,
            waveform_fits(width),
            pixels@ == image@.pixels,
            count == pixels@.len() / 4,
            pixels@.len() <= usize::MAX,
            width > 0 || count == 0,
            p <= count,
            canvas@.data == trace(empty, pixels@, width, mode, p as nat),
        decreases count - p,
    {
        assert(4 * p + 4 <= pixels@.len()) by (nonlinear_arith)
            requires
                p < count,
                count == pixels@.len() / 4,
        ;
        let c: Rgb8 = (pixels[4 * p], pixels[4 * p + 1], pixels[4 * p + 2]);
        let x: i64 = (p % (width as usize)) as i64;
        match mode {
            WaveformMode::PerChannel => {
                canvas.plot_pixel(x, c.0 as i64, (c.0, 0, 0));
                canvas.plot_pixel(x, c.1 as i64, (0, c.1, 0));
                canvas.plot_pixel(x, c.2 as i64, (0, 0, c.2));
            },
            WaveformMode::Luminance => {
                let level = luminance_of(c.0, c.1, c.2);
                canvas.plot_pixel(x, level as i64, c);
            },
        }
        p = p + 1;
    }
    assert(width <= 8421504) by (nonlinear_arith)
        requires
            width * 255 <= i32::MAX,
    ;
    let half = (width / 2) as i32;
    canvas.draw_line((0, WAVEFORM_MID_LEVEL), (width as i32, WAVEFORM_MID_LEVEL), AUX_LINE_COLOR);
    canvas.draw_line((half, 0), (half, WAVEFORM_HEIGHT as i32), AUX_LINE_COLOR);
    canvas.encode_png()
}

/// The per-channel waveform of `image`.
pub fn draw_waveform(image: &Raster) -> (r: Result<Vec<u8>, RenderError>)
    ensures
        waveform_result(image@.pixels, image@.width, WaveformMode::PerChannel, r),
{
    draw_waveform_with(image, WaveformMode::PerChannel)
}

/// The luminance waveform of `image`.
pub fn draw_waveform_luminance(image: &Raster) -> (r: Result<Vec<u8>, RenderError>)
    ensures
        waveform_result(image@.pixels, image@.width, WaveformMode::Luminance, r),
{
    draw_waveform_with(image, WaveformMode::Luminance)
}

} // verus!
