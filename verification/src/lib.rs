//! A command-buffering layer between a host application and a deferred
//! rasterizer: producers append drawing and resource-management commands,
//! and a single consumer drains the whole buffer in FIFO order on demand.
//!
//! The buffer never loses, duplicates or reorders a command except through
//! an explicit `init` reset; those guarantees are stated in the contracts of
//! [`queue::Renderer`] and proved as laws in [`laws`].

pub mod commands;
pub mod laws;
pub mod queue;
