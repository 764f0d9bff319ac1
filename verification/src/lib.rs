//! Keyboard-backlight effect engine for single-zone controllers that accept
//! only the three brightness states 0, 1 and 2.

pub mod autostart;
pub mod clock;
pub mod commands;
pub mod driver;
pub mod effects;
pub mod text;
pub mod tray;
