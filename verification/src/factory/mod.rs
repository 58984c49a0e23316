//! The virtual machine factory: where a sandbox gets its virtual machine from.

pub mod base;
pub mod ops;
pub mod template;
pub mod vm;
