//! What the window shows, as values: the rendering itself is the window
//! toolkit's.
pub mod hotkeys;
pub mod main;
pub mod timer;
