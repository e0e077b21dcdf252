//! A character-grid diagram editor core: geometry, line routing, element
//! transforms, canvas rendering and the pointer-gesture state machine.

pub mod action;
pub mod canvas;
pub mod commands;
pub mod elements;
pub mod geometry;
pub mod glyphs;
pub mod home;
pub mod line;
pub mod operation;
pub mod paths;
pub mod text;
