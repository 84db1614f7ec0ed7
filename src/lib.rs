//! Layout and interaction logic for a family of table-like widgets: a
//! clickable, resizable cell, an equal-width column and a fixed grid.
pub mod widget;
