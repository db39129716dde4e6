//! Smoketest orchestration for Windows driver packages on a Hyper-V virtual machine.

pub mod bugcheck;
pub mod calendar;
pub mod capture;
pub mod cli;
pub mod command;
pub mod details;
pub mod duration;
pub mod encoding;
pub mod error;
pub mod extract;
pub mod json;
pub mod laws;
pub mod numbers;
pub mod package;
pub mod paths;
pub mod pipeline;
pub mod ps_runner;
pub mod report;
pub mod scripts;
pub mod steps;
pub mod text;
pub mod views;
