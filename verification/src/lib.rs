//! Style, widget-state and event-dispatch logic of the deft UI toolkit,
//! with each operation specified over a mathematical model and proved.

pub mod animation;
pub mod base;
pub mod event_loop;
pub mod ext;
pub mod style;
pub mod text;
pub mod ui;
pub mod window;
