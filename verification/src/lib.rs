//! Pixel-level image transforms on flat byte buffers: greyscale conversion,
//! brightness dimming, channel restriction and simple composition, with
//! scalar reference kernels and lane-batched variants proved against them.

pub mod buffer;
pub mod naive;
pub mod optimized;
pub mod utils;
