//! Credential resolution, token caching and the polling coordinator of a
//! fabric telemetry dashboard, with the rules of each stated as contracts.

pub mod api;
pub mod assoc;
pub mod auth;
pub mod channel;
pub mod cli;
pub mod clock;
pub mod config;
pub mod dashboard;
pub mod pipeline;
pub mod services;
pub mod text;
pub mod ui;
pub mod worker;
