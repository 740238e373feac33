//! Orchestration and reporting for a static analyzer of smart-contract
//! sources: the options of a run, the queries over the rule catalog, the
//! grouping of findings by severity, what the console shows of them, and the
//! course of a run from the first look at the path to the report.
//!
//! Nothing here reads, writes or prints. A command takes what its caller
//! found out and gives back the lines to show and the work to do next.

pub mod aggregate;
pub mod catalog;
pub mod commands;
pub mod console;
pub mod error;
pub mod model;
pub mod options;
pub mod report;
pub mod reporter;
pub mod severity;
pub mod text;
