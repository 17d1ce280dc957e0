//! Presentation of dependency-audit results: the sequence of lines that a
//! terminal report or a structured dump consists of, with each package's
//! inverse dependency tree drawn at most once per run.

pub mod advisory_url;
pub mod config;
pub mod laws;
pub mod output;
pub mod presenter;
pub mod report;
pub mod text;
