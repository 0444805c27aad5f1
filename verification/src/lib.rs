//! Paint servers of a vector-graphics renderer: how an incomplete gradient or
//! pattern is completed from the paint servers it refers to, how the completed
//! one is laid out for a painted object, and the arithmetic on pixels that
//! compositing needs.

pub mod clip_path;
pub mod coord_units;
pub mod document;
pub mod filters;
pub mod geometry;
pub mod gradient;
pub mod handle;
pub mod image;
pub mod length;
pub mod number;
pub mod pattern;
pub mod surface_utils;
pub mod util;
