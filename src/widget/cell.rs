pub mod state;
pub mod style;
