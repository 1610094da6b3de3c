//! Chains of elementary plane transforms and the rasters they warp.
//!
//! * [`chain`]: the transforms (identity, rotation, translation, scaling)
//!   and the chain of slots that an editor switches and tunes.
//! * [`raster`]: rectangles of RGBA pixels and their packed samples.
//! * [`warp`]: the net transform of a chain, and the warp of a raster by
//!   it, with bilinear sampling and a fill colour where there is no source.
//!
//! Everything here is verified but the matrix product and the resampling,
//! which are imageproc's: `warp` says what is assumed of them. Real numbers
//! are out of the verifier's reach, so a transform holds its parameters as
//! bit patterns, and the program that embeds the library builds the matrix
//! of each transform.

pub mod chain;
pub mod raster;
pub mod warp;

pub use imageproc::geometric_transformations::Projection;
