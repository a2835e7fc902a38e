//! The terminal presenter: cell decoding, frames and overlays.

pub mod export;
pub mod frame;
pub mod glyph;
pub mod laws;
pub mod ops;
pub mod output;
pub mod overlay;
pub mod text;
