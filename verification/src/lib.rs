//! Sizing and rasterization pipeline for turning a vector document of known
//! intrinsic size into a raster image: resolve embedded text against a font
//! catalog, compute target pixel dimensions and scale factors from optional
//! caller constraints, and paint the scaled document into a pixel buffer.

pub mod backend;
pub mod document;
pub mod fonts;
pub mod pipeline;
pub mod raster;
pub mod size;
pub mod text;
