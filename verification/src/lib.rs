//! Turns vector icons into fixed-size rasters and single-image icon containers.
//!
//! A vector document is scaled uniformly until its longer side fills a square
//! canvas, centred on that canvas over transparent padding, and the canvas is
//! then wrapped as an icon container with exactly one entry.

pub mod ceiling;
pub mod error;
pub mod fit;
pub mod icon;
pub mod length;
pub mod plan;
pub mod raster;
pub mod rasterize;
