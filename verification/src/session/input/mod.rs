pub mod actions;
pub mod buttons;
pub mod cluster_float;
pub mod handle;
pub mod keyboard;
pub mod pointer;
pub mod repeat;
