//! A framework for serving terminal user interfaces over SSH.
//!
//! The verified part holds the decisions that the server makes for each
//! connection: which input reaches an application, which control sequences
//! prepare and restore a remote terminal, how output is gathered into frames
//! and handed to the per-connection channel, and how sessions are admitted and
//! tracked.

pub mod chai;
pub mod escape;
pub mod input;
pub mod keys;
pub mod registry;
pub mod server;
pub mod terminal;
