//! A photo watermarking engine: given a decoded RGBA raster, a settings
//! record and parsed photographic metadata, it composites a text or image
//! watermark in a deterministic, position-controlled way.
//!
//! The pieces, leaves first: placeholder resolution over a closed token set
//! (`resolve`, with its numeric formatting in `numfmt` and the metadata
//! record in `metadata`); the font registry with its `Arial` fallback
//! (`registry`); placement and scaling (`layout`); and the compositor
//! (`compose`), which short-circuits when disabled, blends image watermarks
//! in place, and prepares text watermarks for the caller's glyph rasterizer.

pub mod compose;
pub mod layout;
pub mod metadata;
pub mod numfmt;
pub mod registry;
pub mod resolve;
pub mod settings;
