//! Shows a rendered 3D scene as glyphs on a terminal.
//!
//! A mesh is rendered off-screen, the image is reduced on the GPU to one
//! glyph and one colour for each terminal cell, and the cells are written to
//! the terminal. This crate holds what is decided on the way: how packed
//! cells become frames of terminal output in each presentation mode, what
//! the overlays look like and where they go, how large the images and
//! buffers are, and when resources have to be made or bound anew. It talks
//! to no device and to no terminal itself; it says what is to be done, and
//! its caller does it.

pub mod config;
pub mod gpu;
pub mod layout;
pub mod model;
pub mod terminal;
