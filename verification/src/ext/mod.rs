pub mod audio;
pub mod tray;
