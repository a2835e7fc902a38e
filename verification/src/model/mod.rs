//! Naming and sorting out model and skybox files.

pub mod loader;
pub mod order;
