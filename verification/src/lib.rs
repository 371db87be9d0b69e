pub mod fit;
pub mod geometry;
pub mod lifecycle;
pub mod paint;
pub mod resources;
pub mod text;
