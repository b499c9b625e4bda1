//! Helpers around screenshots and images.

pub mod image;
pub mod screenshot;
