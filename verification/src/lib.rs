//! Capture-and-processing engine for a screen timelapse recorder.
//!
//! The engine normalizes captured frames onto a fixed-size canvas, discards
//! blank frames, numbers frames gap-tolerantly within per-day directories,
//! records per-frame metadata in a SQLite store with idempotent schema
//! migration, keeps a bounded in-memory error log, and reclaims stale
//! derived-cache directories.

pub mod blank;
pub mod errorlog;
pub mod errors;
pub mod framename;
pub mod normalize;
pub mod reaper;
pub mod screen;
pub mod session;
pub mod store;
