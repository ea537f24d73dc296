//! Renders raster images as character art.
//!
//! A luminance raster is mapped sample by sample onto a ramp of glyphs ordered
//! from dense to sparse, one line of text per raster row. Decoding and
//! resampling are done by the `image` crate; the geometry, the quantisation and
//! the assembly of the text are verified here.

pub mod codec;
pub mod convert;
pub mod error;
pub mod geometry;
pub mod ramp;
pub mod raster;
pub mod render;

pub use convert::{decode_failure, image_to_ascii, render_samples, to_ascii};
pub use error::AsciiError;
pub use geometry::target_size;
pub use ramp::Ramp;
pub use raster::LumaRaster;
pub use render::render;
