//! The action dispatch engine of an interactive terminal application:
//! actions and their textual form, mode-scoped key bindings, the multi-key
//! resolver, the action bus, the components, and the dispatch loop state.

pub mod actions;
pub mod app;
pub mod bus;
pub mod components;
pub mod config;
pub mod event;
pub mod input;
pub mod keys;
pub mod resolver;
pub mod text;
