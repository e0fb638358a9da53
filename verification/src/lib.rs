//! Isosurface extraction core: dense 2D/3D grids, exact line-segment
//! geometry predicates, contour building and validation, scan-line polygon
//! rasterization, stacked-contour volume assembly, a marching-squares slice
//! extractor, and the marching-cubes topology tables.
//!
//! Coordinates and scalar samples are integers; callers pick a fixed-point
//! scale appropriate to their data. Tolerances are exact rationals, so every
//! geometric predicate here is a deterministic, exactly-specified function of
//! its inputs.

pub mod grid;
pub mod line;
pub mod geometry;
pub mod contour;
pub mod raster;
pub mod structure;
pub mod marching_squares;
pub mod mc_tables;
pub mod layout;
pub mod webgl_data;
