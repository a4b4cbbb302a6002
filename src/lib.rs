//! Addressing and linkage core of a WebAssembly virtual machine: how linear
//! memories and tables are laid out for a target, engine identities, and the
//! one-shot hand-off of resolved imports to an instance.

pub mod engine;
pub mod imports;
pub mod memory;
pub mod target;
pub mod tunables;
