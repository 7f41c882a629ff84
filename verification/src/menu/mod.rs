//! The firmware's menus: what each key does on each screen, and the texts
//! the screens show.

pub mod labels;
pub mod laws;
pub mod navigation;
pub mod recorder;
pub mod screen;
pub mod state;
pub mod view;
