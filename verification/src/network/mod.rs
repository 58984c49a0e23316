//! The network of a sandbox, as it is configured from outside.

pub mod info;
pub mod xlet;
