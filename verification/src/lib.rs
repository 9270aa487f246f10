//! Decision logic of the Halley compositor session and its shell.

pub mod geometry;
pub mod ids;
pub mod num;
pub mod region;
pub mod session;
pub mod shell;
pub mod steps;
pub mod text;
pub mod text_map;
pub mod time;
