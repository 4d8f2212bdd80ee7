//! Connection configuration: the target, the credential, and what to do
//! when the connection drops.

use vstd::prelude::*;

use crate::segments::clone_opt_string;

verus! {

/// What the run loop does after the read side terminates on a connection
/// error. The policy is configuration; the loop that consults it is the
/// host's.
#[derive(Clone, Copy, Debug, PartialEq, Eq, Structural)]
pub enum ReconnectionStrategy {
    /// Reconnect endlessly, with exponential backoff between the bounds,
    /// in milliseconds.
    Infinite { initial_delay_ms: u64, max_delay_ms: u64 },
    /// Reconnect at most `max_attempts` times, with the same backoff.
    Limited { max_attempts: u32, initial_delay_ms: u64, max_delay_ms: u64 },
    /// Do not reconnect.
    Disabled,
}

impl Default for ReconnectionStrategy {
    /// Endless reconnection, backing off from one second to one minute.
    fn default() -> (r: Self)
        ensures
            r == (ReconnectionStrategy::Infinite { initial_delay_ms: 1000, max_delay_ms: 60000 }),
    {
        ReconnectionStrategy::Infinite { initial_delay_ms: 1000, max_delay_ms: 60000 }
    }
}

/// Where to connect, and as whom. The remote peer is the WebSocket server;
/// the bot dials out to it. Not renegotiated after connect.
#[derive(Debug, PartialEq, Eq)]
pub struct ReverseConnectionConfig {
    /// The WebSocket URL to dial.
    pub target: String,
    /// An optional bearer credential, sent as an authorization header.
    pub auth: Option<String>,
    /// The reconnection policy.
    pub reconnection: ReconnectionStrategy,
}

impl Clone for ReverseConnectionConfig {
    fn clone(&self) -> (r: Self)
        ensures
            r == *self,
    {
        ReverseConnectionConfig {
            target: self.target.clone(),
            auth: clone_opt_string(&self.auth),
            reconnection: self.reconnection,
        }
    }
}

} // verus!
