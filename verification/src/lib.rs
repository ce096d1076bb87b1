//! Core of a command-line notification tool.
//!
//! A message is delivered to one or more configured destinations: a desktop
//! popup or an HTTP webhook. The webhook body is rendered either by a built-in
//! provider format (plain text, Discord, Google Chat) or by a user-defined
//! template with its own HTTP method and headers. Messages arrive once, as a
//! command argument, or repeatedly, by streaming lines from standard input
//! through an optional regular-expression filter.
//!
//! This crate holds the verified logic: the configuration model, the message
//! rendering engine, the planning of each delivery, the success/failure
//! semantics of the fan-out over all destinations, and the per-line decisions
//! of the streaming loop. The I/O that carries the plans out (HTTP transport,
//! desktop notification display, reading standard input, loading the
//! configuration file) lives outside, in the surrounding binary.

pub mod cli;
pub mod config;
pub mod dispatch;
pub mod error;
pub mod headers;
pub mod json;
pub mod stream;
pub mod text;
