pub mod arrange;
pub mod assignment;
pub mod autostart;
pub mod closing;
pub mod cursor;
pub mod environment;
pub mod focus;
pub mod fullscreen;
pub mod gesture;
pub mod input;
pub mod interaction;
pub mod lifecycle;
pub mod mosaic;
pub mod navigation;
pub mod opening;
pub mod output;
pub mod pointer;
pub mod pointer_constraints;
pub mod process;
pub mod protocol;
pub mod settings;
pub mod spawn;
pub mod startup_clusters;
pub mod state;
pub mod suppressed;
pub mod touch;
pub mod trace;
pub mod trace_state;
pub mod tty;
pub mod winit;
