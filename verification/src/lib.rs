//! A file transfer engine: copies a byte range from a readable source to a
//! writable destination, through either a portable buffered strategy or a
//! platform-accelerated strategy that falls back to buffered copying when the
//! fast path is unsupported, while reporting monotone progress.

pub mod accelerated;
pub mod buffered;
pub mod error;
pub mod handle;
pub mod laws;
pub mod plan;
pub mod progress;
pub mod range;
pub mod strategy;
