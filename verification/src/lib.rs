//! Verified core of the FieldMid edge daemon: command-line parsing,
//! configuration and session rules, the decisions of the login flows, the
//! read-only guard, sync-status reporting and the dashboard state machine.
//!
//! Input and output (network, files, terminal, the sync engine) stay with the
//! caller, which hands these modules plain values and acts on what they return.

pub mod text;
pub mod json;
pub mod cli;
pub mod session;
pub mod config;
pub mod auth;
pub mod login;
pub mod endpoints;
pub mod connector;
pub mod demo;
pub mod network;
pub mod schema;
pub mod watcher;
pub mod tui;
pub mod banner;
