pub mod cell;
pub mod grid;
