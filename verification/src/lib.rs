//! Startup decisions of a small traced HTTP service: reading the listener
//! port, choosing the log filter, ordering the startup steps and describing
//! the one instrumented request handler.
//!
//! Everything here works on plain values. The program around this library
//! reads the environment, installs the diagnostics pipeline, binds the
//! listener and serves requests; this library decides what it must do.

pub mod filter;
pub mod handler;
pub mod port;
pub mod startup;
