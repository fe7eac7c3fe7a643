//! Core of a desktop teleprompter: the script store, the settings document
//! with its keyed updates, the auxiliary-window registry and the tray menu.

pub mod script;
pub mod settings;
pub mod store;
pub mod text;
pub mod tray;
pub mod window;
