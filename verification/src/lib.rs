//! An Elm-style terminal-UI runtime: raw input is normalized into a stream of
//! runtime events, an application loop turns select events into actions, a
//! state store reduces actions into a single republished state snapshot, and
//! components project that snapshot into their own view state.
//!
//! All coordination logic (event normalization, key bindings, reduction rules,
//! selection cursors, layout arithmetic, shutdown) is verified here; terminal
//! painting, channels and network calls live outside the library and hand in
//! plain values.

pub mod action;
pub mod app;
pub mod clusters;
pub mod context;
pub mod events;
pub mod input;
pub mod state;
pub mod state_store;
pub mod termination;
pub mod ui;
