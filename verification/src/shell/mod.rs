pub mod apogee;
pub mod bearings;
pub mod cluster_composer;
pub mod layout;
pub mod overlay;
pub mod settle;
pub mod state;
pub mod tiles;
