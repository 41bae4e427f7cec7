pub mod classify;
pub mod color;
pub mod frame;
pub mod geometry;
pub mod organize;
pub mod raster;
