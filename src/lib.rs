pub mod laws;
pub mod render;
pub mod transform;
