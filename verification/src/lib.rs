//! A minimal retained-mode terminal user interface layer.
//!
//! A tree of drawable components renders into a rectangular grid of cells,
//! and a diffing renderer turns the difference between two successive frames
//! into a minimal stream of cursor moves and character writes.

pub mod app;
pub mod cell;
pub mod component;
pub mod dimension;
pub mod output;
pub mod position;
pub mod render;
pub mod screen;
