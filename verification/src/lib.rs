//! A resumable, sequentially staged research pipeline.
//!
//! A session walks a fixed chain of stages (question extraction, research
//! fan-out, summarizing, reporting) over a typed per-session context store.
//! The runner executes one stage per invocation and reports whether the
//! caller should keep polling; the parser recovers structured findings from
//! loosely formatted provider text.

pub mod format;
pub mod laws;
pub mod models;
pub mod parser;
pub mod runner;
pub mod stages;
pub mod tavily;
pub mod text;
