pub mod cell;
pub mod control;
pub mod field;
pub mod grid;
pub mod life;
pub mod patterns;

pub use cell::{Cell, Glyph};
pub use field::Field;
pub use grid::Grid;
pub use life::ConwayCell;
