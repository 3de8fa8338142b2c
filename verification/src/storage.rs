//! Storage backends.

pub mod in_memory;
