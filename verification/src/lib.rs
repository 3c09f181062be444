//! A pool of workers claims numbered jobs from a shared countdown, takes each
//! job through download, checksum, extraction, parsing and persistence, and
//! reports every step to a single aggregator that keeps the console view.
//!
//! The library holds the decisions: which job comes next, what a worker does
//! after each outcome, which records are kept, and what the console shows.
//! Network, disk and terminal work is left to the caller, which performs the
//! requested action and hands the outcome back.

pub mod allocator;
pub mod article;
pub mod guarantees;
pub mod logger;
pub mod parser;
pub mod pipeline;
pub mod progress;
pub mod text;
pub mod xml;
