//! Signal analysis for a screen vectorscope and waveform monitor: colour
//! transforms, raster resampling, scope rendering, the capture region and
//! the scheduling of the background render loop.

pub mod canvas;
pub mod capture;
pub mod color;
pub mod encoding;
pub mod payload;
pub mod raster;
pub mod resample;
pub mod vector_scope;
pub mod waveform;
pub mod worker;
