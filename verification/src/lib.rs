//! Verified core of a terminal weather client: the search prompt's text
//! input, the key bindings, the state machine that reacts to messages and
//! events, the debounce logic of the location search, and the layout
//! arithmetic of the prompt screen.

pub mod text;
pub mod input;
pub mod keys;
pub mod list;
pub mod config;
pub mod weather;
pub mod app;
pub mod debounce;
pub mod layout;
