//! The MCP frontend (`ynab mcp serve`): a stdio server exposing the same
//! read-only core the CLI uses. The server plumbing lives in the program
//! around the library; this module holds what it decides: how a fetch
//! result becomes a tool result, and which ways of ending a session are
//! clean.

use vstd::prelude::*;
use crate::error::{Error, Result, error_text};

pub mod params;

verus! {

/// The name the server announces.
pub const SERVER_NAME: &'static str = "ynab-cli";

/// The result of a tool call.
#[derive(Debug)]
pub enum ToolOutcome<V> {
    /// The raw JSON envelope, as structured content.
    Structured(V),
    /// A tool-level error carrying the error's user-facing message (never
    /// a token).
    Failure(String),
}

/// Maps a fetch result to a tool result: success becomes structured
/// content, failure a tool-level error whose text is the error's message.
pub fn to_tool_result<V>(result: Result<V>) -> (r: ToolOutcome<V>)
    ensures
        match result {
            Ok(v) => r == ToolOutcome::Structured(v),
            Err(e) => r matches ToolOutcome::Failure(m) && m@ == error_text(e),
        },
{
    match result {
        Ok(v) => ToolOutcome::Structured(v),
        Err(e) => ToolOutcome::Failure(e.message()),
    }
}

/// How a server session ended.
#[derive(Debug)]
pub enum SessionEnd {
    /// Input closed before any client completed the handshake.
    ClosedBeforeHandshake,
    /// The handshake failed for another reason (its description).
    HandshakeFailed(String),
    /// The client closed the session.
    Closed,
    /// The session was cancelled.
    Cancelled,
    /// A tool handler's task failed (its description).
    TaskFailed(String),
    /// A way of ending the session this program does not know of.
    OtherQuit,
    /// Waiting for the session failed (its description).
    WaitFailed(String),
}

/// The configuration-error message of a failed session, if it failed.
pub open spec fn session_failure(end: SessionEnd) -> Option<Seq<char>> {
    match end {
        SessionEnd::HandshakeFailed(d) => Some("mcp server failed to start: "@ + d@),
        SessionEnd::TaskFailed(d) => Some("MCP server task failed: "@ + d@),
        SessionEnd::WaitFailed(d) => Some("mcp server error: "@ + d@),
        _ => None,
    }
}

/// What `mcp serve` returns for a session end: closing the input, before or
/// after the handshake, and any quit the program does not know of, are clean
/// exits; a failed handshake, a failed handler task or a failed wait are
/// errors.
pub fn session_result(end: SessionEnd) -> (r: Result<()>)
    ensures
        match session_failure(end) {
            None => r is Ok,
            Some(m) => r matches Err(Error::Config(s)) && s@ == m,
        },
{
    match end {
        SessionEnd::HandshakeFailed(d) => {
            let mut s = String::from_str("mcp server failed to start: ");
            s.append(d.as_str());
            Err(Error::Config(s))
        },
        SessionEnd::TaskFailed(d) => {
            let mut s = String::from_str("MCP server task failed: ");
            s.append(d.as_str());
            Err(Error::Config(s))
        },
        SessionEnd::WaitFailed(d) => {
            let mut s = String::from_str("mcp server error: ");
            s.append(d.as_str());
            Err(Error::Config(s))
        },
        _ => Ok(()),
    }
}

} // verus!
