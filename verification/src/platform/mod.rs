//! Launching on each platform.

pub mod command;
pub mod cpu;
pub mod darwin;
pub mod darwin_laws;
pub mod fd;
pub mod fd_laws;
pub mod linux;
pub mod other;
pub mod remap;
pub mod remap_laws;
