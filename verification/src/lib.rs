//! Validation of test targets and normalisation of test-runner output.

pub mod args;
pub mod command;
pub mod cypress;
pub mod decimal;
pub mod path;
pub mod report;
pub mod runner;
pub mod target;
pub mod text;
