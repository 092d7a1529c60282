//! Escape-time fractal rendering, split into its verifiable parts:
//! coordinate-pair parsing, escape-time counting over an orbit's
//! bound-exceedance flags, and rasterisation of per-pixel counts into a
//! grayscale intensity buffer.

pub mod escape;
pub mod parse;
pub mod raster;
