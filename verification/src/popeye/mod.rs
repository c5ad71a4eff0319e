//! Rendering a Popeye scan.
pub mod host;
pub mod render;
pub mod scan;
pub mod size;
