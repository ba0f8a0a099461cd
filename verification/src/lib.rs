//! The decision core of a tool that sets or reads a Slack presence status.
//!
//! Nothing in this crate touches the network, the clock or the browser's
//! cookie store. Each operation is split into the values to hand to the
//! outside world and the interpretation of what came back, so every rule of
//! the tool is stated as a contract and proved.

pub mod outside;
pub mod report;
pub mod settings;
pub mod slack_api;
pub mod slack_api_client;
pub mod text;
pub mod tokens;
