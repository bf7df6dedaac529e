//! Differential execution of commands against two builds of a program, with
//! a verified comparison model: per-command results, line diffs, report
//! equality and the textual summary.

pub mod env;
pub mod diff;
pub mod config;
pub mod execution;
pub mod report;
