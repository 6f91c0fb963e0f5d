//! The kernel's facade.

pub mod tasks;
