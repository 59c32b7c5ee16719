//! The memory subsystem: set-associative caches with true-LRU replacement.

pub mod cache;
pub mod lru;
