//! A cross-process advisory lock anchored to a sentinel file in a cache
//! directory: where the sentinel goes, the steps that take the lock, and what
//! releasing the guard must undo.
pub mod laws;
pub mod location;
pub mod lock;
