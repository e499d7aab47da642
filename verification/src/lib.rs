//! Smelt: semantic version control logic with verified contracts.

pub mod api;
pub mod cli;
pub mod commands;
pub mod diff;
pub mod doctor;
pub mod error;
pub mod git;
pub mod graph;
pub mod ids;
pub mod mcp;
pub mod storage;
pub mod text;
pub mod time;
pub mod types;
