//! One tick's worth of scope images for the front end, and which of them
//! are published.

use crate::canvas::{png_rgb8, RenderError};
use crate::encoding::{data_uri, to_data_uri};
use crate::raster::{Raster, RasterView};
use crate::vector_scope::{draw_vector_scope, vector_scope_data, ChromaSample, VECTOR_SCOPE_HEIGHT, VECTOR_SCOPE_WIDTH};
use crate::waveform::{draw_waveform_luminance, waveform_data, waveform_fits, WaveformMode, WAVEFORM_HEIGHT};
use crate::worker::{Overlays, ScopeKind};
use vstd::prelude::*;

verus! {

/// The image URIs of one tick; an empty string means that the overlay was
/// not produced this tick.
pub struct Payload {
    pub base64_vector_scope: String,
    pub base64_waveform: String,
}

impl Payload {
    pub fn new(base64_vector_scope: String, base64_waveform: String) -> (p: Payload)
        ensures
            p.base64_vector_scope@ == base64_vector_scope@,
            p.base64_waveform@ == base64_waveform@,
    {
        Payload { base64_vector_scope, base64_waveform }
    }
}

/// The payload text for a PNG: its `data:` URI, or empty for an image too
/// large to encode.
pub open spec fn payload_text(png: Seq<u8>) -> Seq<char> {
    if png.len() <= usize::MAX / 2 {
        data_uri(png)
    } else {
        Seq::empty()
    }
}

/// The vectorscope part of a payload.
pub open spec fn vector_scope_part(samples: Seq<ChromaSample>) -> Seq<char> {
    payload_text(png_rgb8(vector_scope_data(samples), VECTOR_SCOPE_WIDTH, VECTOR_SCOPE_HEIGHT))
}

/// The waveform part of a payload: empty for a raster the waveform cannot
/// be drawn for (too wide, or no columns).
pub open spec fn waveform_part(image: RasterView) -> Seq<char> {
    if waveform_fits(image.width) && image.width > 0 {
        payload_text(
            png_rgb8(
                waveform_data(image.pixels, image.width, WaveformMode::Luminance),
                image.width,
                WAVEFORM_HEIGHT,
            ),
        )
    } else {
        Seq::empty()
    }
}

/// The payload text for one rendered overlay: its `data:` URI, or empty
/// when rendering failed or the image is too large to encode.
pub fn payload_part(rendered: Result<Vec<u8>, RenderError>) -> (s: String)
    ensures
        s@ == match rendered {
            Ok(png) => payload_text(png@),
            Err(_) => Seq::empty(),
        },
{
    match rendered {
        Ok(png) => match to_data_uri(&png) {
            Some(uri) => uri,
            None => String::new(),
        },
        Err(_) => String::new(),
    }
}

/// Renders the requested overlays of one tick. `samples` are the
/// chrominance samples of `image`. Each part is rendered on its own, so a
/// part that cannot be produced leaves the other untouched.
pub fn render_payload(image: &Raster, samples: &Vec<ChromaSample>, overlays: Overlays) -> (p: Payload)
    ensures
        p.base64_vector_scope@ == if overlays.vector_scope {
            vector_scope_part(samples@)
        } else {
            Seq::empty()
        },
        p.base64_waveform@ == if overlays.waveform {
            waveform_part(image@)
        } else {
            Seq::empty()
        },
{
    let vector_scope = if overlays.vector_scope {
        payload_part(draw_vector_scope(samples))
    } else {
        String::new()
    };
    let waveform = if overlays.waveform {
        payload_part(draw_waveform_luminance(image))
    } else {
        String::new()
    };
    Payload::new(vector_scope, waveform)
}

/// One image to send to the window of its kind.
pub struct Publication {
    pub kind: ScopeKind,
    pub data: String,
}

/// The non-empty parts of a payload, vectorscope first.
pub fn publications(payload: Payload) -> (v: Vec<Publication>)
    ensures
        v@.len() == (if payload.base64_vector_scope@.len() > 0 { 1int } else { 0 }) + (if payload.base64_waveform@.len()
            > 0 {
            1int
        } else {
            0
        }),
        payload.base64_vector_scope@.len() > 0 ==> v@[0].kind == ScopeKind::VectorScope && v@[0].data@
            == payload.base64_vector_scope@,
        payload.base64_waveform@.len() > 0 ==> v@.last().kind == ScopeKind::Waveform && v@.last().data@
            == payload.base64_waveform@,
{
    let mut v: Vec<Publication> = Vec::new();
    let Payload { base64_vector_scope, base64_waveform } = payload;
    if !base64_vector_scope.as_str().is_empty() {
        v.push(Publication { kind: ScopeKind::VectorScope, data: base64_vector_scope });
    }
    if !base64_waveform.as_str().is_empty() {
        v.push(Publication { kind: ScopeKind::Waveform, data: base64_waveform });
    }
    v
}

} // verus!
