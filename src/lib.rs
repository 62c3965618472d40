//! Command orchestration and progress tracking for a system-update console.
pub mod ansi;
pub mod buffer;
pub mod errors;
pub mod git;
pub mod messages;
pub mod noise;
pub mod screen;
pub mod shell;
pub mod steps;
pub mod summary;
pub mod text;
pub mod update;
