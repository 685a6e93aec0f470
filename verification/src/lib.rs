//! Supervision of a single long-running node process: its configuration,
//! the command line derived from it, and the restart protocol that swaps the
//! running instance and its configuration as one unit.
//!
//! The library decides; the host performs. Every function here works on
//! plain values and hands back plain values, so that the program around it
//! only has to read files, start processes and move events.

pub mod decimal;
pub mod config;
pub mod json;
pub mod codec;
pub mod event;
pub mod supervisor;
