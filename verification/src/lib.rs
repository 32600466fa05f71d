//! Pixel-exact visual comparison of two raster images.
//!
//! Two canvases are compared coordinate by coordinate; the coordinates where
//! they disagree are painted with a highlight colour over the reference.

pub mod canvas;
pub mod color;
pub mod difference;
pub mod elapsed;
pub mod engine;
pub mod laws;
pub mod layout;
pub mod reconcile;

pub use canvas::Canvas;
pub use color::Color;
pub use difference::{difference, DifferenceSet};
pub use elapsed::Elapsed;
pub use engine::{compare, DiffEngine, DiffResult};
pub use reconcile::{adjust_dimensions, resize};
