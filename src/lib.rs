//! Orchestration of accelerated virtual machines: the data model of a VM
//! record, the engine's launch arguments, display-port selection, the table of
//! running engine processes, and the disk-image utility's snapshot commands.

pub mod text;
pub mod vm_config;
pub mod select;
pub mod platform;
pub mod launch;
pub mod snapshot;
pub mod registry;
pub mod port;
pub mod qemu;
pub mod catalog;
