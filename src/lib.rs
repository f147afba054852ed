//! Glue between a windowing system and an immediate-mode GUI, and the
//! painting of text selections and text cursors into laid-out text.

pub mod geometry;
pub mod mesh;
pub mod galley;
pub mod style;
pub mod text_selection;
pub mod text_cursor;
pub mod keys;
pub mod input;
