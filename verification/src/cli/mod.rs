//! The command tree and the per-command rules: which budget and token a
//! command uses, which entities it shows, and what rows it prints. Parsing
//! the command line and running the commands happen in the program around
//! the library.

use vstd::prelude::*;
use crate::cli::transactions::Filters;
use crate::text::opt_text;

pub mod accounts;
pub mod auth;

pub mod budgets;
pub mod cache_cmd;

pub mod categories;
pub mod config_cmd;
pub mod context;
pub mod payees;
pub mod transactions;

verus! {

/// The parsed command line: a command plus the global flags.
#[derive(Debug)]
pub struct Cli {
    pub command: Command,
    /// Output raw API JSON instead of a table.
    pub json: bool,
    /// Budget id (default: config default_budget, then the API's last-used).
    pub budget: Option<String>,
    /// Bypass the local cache for this invocation.
    pub no_cache: bool,
}

#[derive(Debug)]
#[allow(inconsistent_fields)]
pub enum Command {
    /// Authenticate with YNAB.
    Auth { command: AuthCommand },
    /// Read or edit the config file.
    Config { command: ConfigCommand },
    /// List budgets.
    Budgets { command: BudgetsCommand },
    /// List accounts.
    Accounts { command: AccountsCommand },
    /// List categories.
    Categories { command: CategoriesCommand },
    /// List payees.
    Payees { command: PayeesCommand },
    /// List transactions.
    Transactions { command: TransactionsCommand },
    /// Inspect or clear the local cache.
    Cache { command: CacheCommand },
    /// Run the MCP server.
    Mcp { command: McpCommand },
}

#[derive(Debug)]
pub enum BudgetsCommand {
    List,
}

#[derive(Debug)]
pub enum AccountsCommand {
    List,
}

#[derive(Debug)]
pub enum CategoriesCommand {
    List,
}

#[derive(Debug)]
pub enum PayeesCommand {
    List,
}

#[derive(Debug)]
pub enum TransactionsCommand {
    /// List transactions (filters combine with AND).
    List {
        since: Option<String>,
        until: Option<String>,
        payee: Option<String>,
        account: Option<String>,
        category: Option<String>,
        uncategorized: bool,
        unapproved: bool,
    },
}

#[derive(Debug)]
pub enum AuthCommand {
    /// Log in with a Personal Access Token, or via OAuth with `oauth`.
    Login { oauth: bool, reset_app: bool },
    /// Show whether you are logged in and the token works.
    Status,
    /// Remove stored credentials and cached data.
    Logout,
}

#[derive(Debug)]
pub enum ConfigCommand {
    /// `config get <key>`.
    Get { key: String },
    /// `config set <key> <value>`.
    SetValue { key: String, value: String },
}

#[derive(Debug)]
pub enum CacheCommand {
    Status,
    Clear,
}

#[derive(Debug)]
pub enum McpCommand {
    /// Serve the MCP server over stdio until the client disconnects.
    Serve,
}

impl TransactionsCommand {
    /// The filters the `transactions list` flags ask for, each flag to its
    /// filter.
    pub fn into_filters(self) -> (f: Filters)
        ensures
            match self {
                TransactionsCommand::List {
                    since,
                    until,
                    payee,
                    account,
                    category,
                    uncategorized,
                    unapproved,
                } => opt_text(f.since) == opt_text(since) && opt_text(f.until) == opt_text(until)
                    && opt_text(f.payee) == opt_text(payee) && opt_text(f.account) == opt_text(
                    account,
                ) && opt_text(f.category) == opt_text(category) && f.uncategorized
                    == uncategorized && f.unapproved == unapproved,
            },
    {
        match self {
            TransactionsCommand::List {
                since,
                until,
                payee,
                account,
                category,
                uncategorized,
                unapproved,
            } => Filters { since, until, payee, account, category, uncategorized, unapproved },
        }
    }
}

} // verus!
