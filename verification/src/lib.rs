//! Reconstruction of wall polygons from detected room-boundary lines, and
//! the exactly specified parts of the wallpaper-preview compositor.
//!
//! The numeric heart of the pipeline is carried out in exact integer
//! arithmetic so that every stage has a precise contract: line fitting and
//! intersection over rational slopes, the eleven room-shape reconstruction
//! procedures, pattern width allocation, atlas tiling, and brightness
//! transfer.  Image resampling, the projective warp and all I/O are left to
//! a thin unverified host layer.

pub mod geometry;
pub mod img;
pub mod layout;
pub mod polygons;
pub mod shading;
pub mod shares;

pub use geometry::Line;
pub use geometry::Point;
