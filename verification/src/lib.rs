//! Host-platform command library for a small desktop shell.
//!
//! The shell exposes a handful of independent, stateless commands to its
//! front end: a greeting stamped with the current time, a call into a
//! vendor-supplied native library, clipboard image extraction with a
//! guaranteed placeholder fallback, and a hotkey-driven window chrome
//! toggle. This crate holds the decision and data-conversion logic of
//! those commands, each with a verified contract; the thin platform layer
//! (dynamic loading, clipboard access, windowing) drives it from outside.

pub mod bridge;
pub mod clipboard;
pub mod greeting;
pub mod window;
