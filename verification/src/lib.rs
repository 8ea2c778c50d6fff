//! Console engine of an interactive graph-database query tool: input
//! classification, session configuration, result routing and the text that
//! the console shows, with machine-checked contracts.

pub mod app;
pub mod cli;
pub mod cmds;
pub mod config;
pub mod domain;
pub mod error;
pub mod repository;
pub mod service;
pub mod text;
pub mod utils;
pub mod view;
