//! Argus: the decision-making core of a terminal dashboard that watches
//! CI/CD pipelines on GitHub Actions, GitLab CI and Jenkins.
//!
//! Everything here is plain data and pure decisions: status mapping, the
//! merge and ordering rules of the pipeline store, keyboard navigation,
//! retry/back-off decisions, configuration validation and text formatting.
//! Network, terminal and clock access live in the application around it.

pub mod api;
pub mod app;
pub mod config;
pub mod instant;
pub mod models;
pub mod services;
pub mod state;
pub mod text;
pub mod ui;
pub mod utils;
