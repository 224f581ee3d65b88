//! Verified core of a read-only YNAB command-line client: the rules that
//! decide what is fetched, cached, filtered and printed, with the I/O left
//! to the program around it.

pub mod text;
pub mod output;
pub mod error;
pub mod config;
pub mod api;
pub mod auth;
pub mod cache;
pub mod cli;
pub mod mcp;
pub mod secrets;
