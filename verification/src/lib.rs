//! Core of a terminal-like command console: an append-only log of
//! command/result lines, each line optionally awaiting the result of a
//! background task over a one-shot channel that is polled without blocking.
//!
//! The view layer (window chrome, fonts, input handling) stays outside this
//! crate; it drives the log through `submit`, `poll_open_requests` and
//! `entries`, and decides on `classify_command`'s answer whether a typed line
//! is dispatched, ignored, or ends the application.

pub mod command;
pub mod task;
pub mod window;
