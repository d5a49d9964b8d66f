//! Streaming execution engine for a command-line coding agent: boundary
//! finding, output formatting, the resumable patch log, the dual-buffer
//! stream decisions and log normalization.

pub mod boundary;
pub mod engine;
pub mod entry;
pub mod executor;
pub mod format;
pub mod normalize;
pub mod prompt;
pub mod spawn;
pub mod stream;
pub mod text;
pub mod wal;
