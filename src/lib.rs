//! Synthetic Bayer raw images: re-mosaics an RGB(A) raster into a single
//! channel 16-bit colour filter array buffer and describes the minimal DNG
//! container that carries it.

pub mod image;
pub mod pattern;
pub mod raw;
