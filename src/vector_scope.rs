//! The vectorscope: a scatter of sampled pixels by chrominance on a fixed
//! square canvas, with a 100% saturation circle, a centre cross-hair and a
//! skin-tone reference line.

use crate::canvas::{canvas_fits, circle_drawn, filled, line_drawn, png_rgb8, with_pixel, Canvas, CanvasView, RenderError, Rgb8};
use crate::color::is_neutral;
use crate::raster::Raster;
use vstd::prelude::*;

verus! {

pub const VECTOR_SCOPE_WIDTH: u32 = 250;

pub const VECTOR_SCOPE_HEIGHT: u32 = 250;

pub const VECTOR_SCOPE_CENTER_X: i32 = 125;

pub const VECTOR_SCOPE_CENTER_Y: i32 = 125;

/// Value of every channel of an empty scope.
pub const BACKGROUND_COLOR: u8 = 16;

/// Only every this many pixels of the source is plotted.
pub const ANALYZE_SKIP_RATIO: usize = 64;

/// Radius of the 100% saturation circle.
pub const SATURATION_CIRCLE_RADIUS: u32 = 100;

/// Colour of all reference geometry.
pub const AUX_LINE_COLOR: Rgb8 = (100, 100, 100);

/// End of the skin-tone line: 100 units from the centre at 57 degrees,
/// towards the upper left, truncated to whole pixels.
pub const SKIN_TONE_LINE_END: (i32, i32) = (70, 41);

/// A sampled pixel and its chrominance offset from the scope's centre: the
/// saturation times the cosine and sine of the calibrated hue angle, with
/// `y` pointing up.
#[derive(Clone, Copy, Debug, PartialEq, Eq)]
pub struct ChromaSample {
    pub color: Rgb8,
    pub offset: (i32, i32),
}

/// How many pixels of an RGBA8 buffer of `len` bytes are sampled: pixel 0
/// and every `ANALYZE_SKIP_RATIO`-th after it.
pub open spec fn sample_count(len: nat) -> nat {
    let stride = 4 * ANALYZE_SKIP_RATIO;
    ((len + stride - 1) / stride) as nat
}

/// The colour of pixel `p` of an RGBA8 buffer.
pub open spec fn pixel_color(pixels: Seq<u8>, p: int) -> Rgb8 {
    (pixels[4 * p], pixels[4 * p + 1], pixels[4 * p + 2])
}

/// The colours of the sampled pixels, in buffer order.
pub open spec fn sampled_colors(pixels: Seq<u8>) -> Seq<Rgb8> {
    Seq::new(sample_count(pixels.len()), |i: int| pixel_color(pixels, ANALYZE_SKIP_RATIO * i))
}

/// Where a sample lands on the canvas: neutral colours have no saturation
/// and sit on the centre; others sit at the centre plus the offset, with
/// the `y` axis flipped because rows grow downwards.
pub open spec fn scope_point(color: Rgb8, offset: (i32, i32)) -> (int, int) {
    if is_neutral(color.0, color.1, color.2) {
        (VECTOR_SCOPE_CENTER_X as int, VECTOR_SCOPE_CENTER_Y as int)
    } else {
        (VECTOR_SCOPE_CENTER_X + offset.0, VECTOR_SCOPE_CENTER_Y - offset.1)
    }
}

/// The scope's pixels after plotting `samples` in order onto `data`, each in
/// its own colour.
pub open spec fn scatter(data: Seq<u8>, samples: Seq<ChromaSample>) -> Seq<u8>
    decreases samples.len(),
{
    if samples.len() == 0 {
        data
    } else {
        let s = samples.last();
        let p = scope_point(s.color, s.offset);
        with_pixel(
            scatter(data, samples.drop_last()),
            VECTOR_SCOPE_WIDTH,
            VECTOR_SCOPE_HEIGHT,
            p.0,
            p.1,
            s.color,
        )
    }
}

/// The reference geometry drawn over the scatter: the saturation circle,
/// the horizontal and vertical centre lines, and the skin-tone line.
pub open spec fn with_guides(data: Seq<u8>) -> Seq<u8> {
    let (w, h) = (VECTOR_SCOPE_WIDTH, VECTOR_SCOPE_HEIGHT);
    let center = (VECTOR_SCOPE_CENTER_X, VECTOR_SCOPE_CENTER_Y);
    let circle = circle_drawn(data, w, h, center, SATURATION_CIRCLE_RADIUS, AUX_LINE_COLOR, false);
    let horizontal = line_drawn(circle, w, h, (0, center.1), (w as i32, center.1), AUX_LINE_COLOR);
    let vertical = line_drawn(horizontal, w, h, (center.0, 0), (center.0, h as i32), AUX_LINE_COLOR);
    line_drawn(vertical, w, h, center, SKIN_TONE_LINE_END, AUX_LINE_COLOR)
}

/// The pixels of a scope with nothing drawn on it.
pub open spec fn empty_scope() -> Seq<u8> {
    filled((VECTOR_SCOPE_WIDTH * VECTOR_SCOPE_HEIGHT * 3) as nat, BACKGROUND_COLOR)
}

/// The finished scope's RGB8 pixels.
pub open spec fn vector_scope_data(samples: Seq<ChromaSample>) -> Seq<u8> {
    with_guides(scatter(empty_scope(), samples))
}

/// Picks the colours to analyse: pixel 0 and every `ANALYZE_SKIP_RATIO`-th
/// pixel after it, whole pixels only.
pub fn sample_colors(image: &Raster) -> (colors: Vec<Rgb8>)
    ensures
        colors@ == sampled_colors(image@.pixels),
{
    let pixels = image.pixels();
    let n = pixels.len();
    let stride: usize = 4 * ANALYZE_SKIP_RATIO;
    let count: usize = n / stride + if n % stride == 0 { 0 } else { 1 };
    assert(count == sample_count(n as nat));
    let mut colors: Vec<Rgb8> = Vec::new();
    let mut i: usize = 0;
    while i < count
        invariant
            pixels@ == image@.pixels,
            n == pixels@.len(),
            n % 4 == 0,
            count == sample_count(n as nat),
            i <= count,
            colors@.len() == i,
            stride == 4 * ANALYZE_SKIP_RATIO,
            forall|k: int| 0 <= k < i ==> colors@[k] == pixel_color(pixels@, ANALYZE_SKIP_RATIO * k),
        decreases count - i,
    {
        proof {
            lemma_sample_in_range(n as int, i as int);
        }
        let index: usize = stride * i;
        colors.push((pixels[index], pixels[index + 1], pixels[index + 2]));
        i = i + 1;
    }
    assert(colors@ =~= sampled_colors(image@.pixels));
    colors
}

/// A sampled pixel (every 256 bytes) lies wholly inside an RGBA8 buffer of
/// `n` bytes.
proof fn lemma_sample_in_range(n: int, i: int)
    requires
        n % 4 == 0,
        0 <= i < (n + 255) / 256,
    ensures
        256 * i + 4 <= n,
{
    assert(256 * i + 4 <= n) by (nonlinear_arith)
        requires
            n % 4 == 0,
            0 <= i,
            i < (n + 255) / 256,
    ;
}

/// Where a sample lands on the canvas.
pub fn vector_scope_point(color: Rgb8, offset: (i32, i32)) -> (p: (i64, i64))
    ensures
        p.0 == scope_point(color, offset).0,
        p.1 == scope_point(color, offset).1,
{
    if color.0 == color.1 && color.1 == color.2 {
        (VECTOR_SCOPE_CENTER_X as i64, VECTOR_SCOPE_CENTER_Y as i64)
    } else {
        (VECTOR_SCOPE_CENTER_X as i64 + offset.0 as i64, VECTOR_SCOPE_CENTER_Y as i64 - offset.1 as i64)
    }
}

/// Renders the vectorscope of the given samples as an 8-bit RGB PNG of
/// `VECTOR_SCOPE_WIDTH` by `VECTOR_SCOPE_HEIGHT` pixels. Samples that fall
/// off the canvas are dropped. It always succeeds.
pub fn draw_vector_scope(samples: &Vec<ChromaSample>) -> (r: Result<Vec<u8>, RenderError>)
    ensures
        r matches Ok(png) && png@ == png_rgb8(vector_scope_data(samples@), VECTOR_SCOPE_WIDTH, VECTOR_SCOPE_HEIGHT),
{
    assert(canvas_fits(VECTOR_SCOPE_WIDTH, VECTOR_SCOPE_HEIGHT));
    let mut canvas = match Canvas::new(VECTOR_SCOPE_WIDTH, VECTOR_SCOPE_HEIGHT, BACKGROUND_COLOR) {
        Some(c) => c,
        None => return Err(RenderError::TooLarge),
    };
    let ghost empty = canvas@.data;
    let mut i: usize = 0;
    while i < samples.len()
        invariant
            canvas.wf(),
            canvas@.width == VECTOR_SCOPE_WIDTH,
            canvas@.height == VECTOR_SCOPE_HEIGHT,
            empty == empty_scope(),
            i <= samples@.len(),
            canvas@.data == scatter(empty, samples@.take(i as int)),
        decreases samples@.len() - i,
    {
        let s = samples[i];
        let p = vector_scope_point(s.color, s.offset);
        canvas.plot_pixel(p.0, p.1, s.color);
        assert(samples@.take(i + 1).drop_last() =~= samples@.take(i as int));
        i = i + 1;
    }
    assert(samples@.take(i as int) =~= samples@);
    let center = (VECTOR_SCOPE_CENTER_X, VECTOR_SCOPE_CENTER_Y);
    canvas.draw_circle(center, SATURATION_CIRCLE_RADIUS, AUX_LINE_COLOR);
    canvas.draw_line((0, center.1), (VECTOR_SCOPE_WIDTH as i32, center.1), AUX_LINE_COLOR);
    canvas.draw_line((center.0, 0), (center.0, VECTOR_SCOPE_HEIGHT as i32), AUX_LINE_COLOR);
    canvas.draw_line(center, SKIN_TONE_LINE_END, AUX_LINE_COLOR);
    canvas.encode_png()
}

/// A neutral colour lands exactly on the centre of the scope, whatever
/// chrominance offset accompanies it; plotted alone on an empty scope it
/// colours the centre pixel and nothing else.
pub proof fn lemma_neutral_at_center(color: Rgb8, offset: (i32, i32))
    requires
        is_neutral(color.0, color.1, color.2),
    ensures
        scope_point(color, offset) == (VECTOR_SCOPE_CENTER_X as int, VECTOR_SCOPE_CENTER_Y as int),
        scatter(empty_scope(), seq![ChromaSample { color, offset }]) == with_pixel(
            empty_scope(),
            VECTOR_SCOPE_WIDTH,
            VECTOR_SCOPE_HEIGHT,
            VECTOR_SCOPE_CENTER_X as int,
            VECTOR_SCOPE_CENTER_Y as int,
            color,
        ),
{
    let s = seq![ChromaSample { color, offset }];
    let empty = empty_scope();
    assert(s.drop_last() =~= Seq::<ChromaSample>::empty());
    assert(scatter(empty, s.drop_last()) == empty);
    assert(s.last() == ChromaSample { color, offset });
}

} // verus!
