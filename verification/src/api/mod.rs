//! The YNAB API's data shapes and the rules for addressing it and reading
//! its replies.

pub mod client;
pub mod types;
