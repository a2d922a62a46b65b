//! The cell grid and the shapes drawn on it.

pub mod bezier;
pub mod canvas;
pub mod cell;
pub mod cell_buffer;
pub mod color;
pub mod curves;
pub mod point_2d;
pub mod shapes;
pub mod size_2d;
