//! Verified core of the Microsoft Defender for Cloud Apps command-line client:
//! the API enums, credential resolution, credential-file scanning, request
//! filters, argument handling and the decision logic of the agent.

pub mod text;
pub mod models;
pub mod commands;
pub mod error;
pub mod config;
pub mod auth;
pub mod output;
pub mod agent;
pub mod cli;
pub mod dispatch;
pub mod help_for_ai;
pub mod json;
pub mod client;
