//! The commands of the program, each as a function from what the caller
//! found out to what is to be shown and done.

pub mod analyze;
pub mod config;
pub mod list_rules;
pub mod rule_info;
