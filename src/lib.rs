//! Turns a natural-language request into a shell command, classifies the
//! risk of running it, and decides, with the user, whether it runs.

pub mod text;
pub mod safety;
pub mod parser;
pub mod llm;
pub mod confirm;
pub mod executor;
pub mod persistence;
pub mod history;
pub mod config;
pub mod prompt;
pub mod audit;
pub mod plugin;
pub mod git;
pub mod docker;
pub mod manager;
pub mod cli;
