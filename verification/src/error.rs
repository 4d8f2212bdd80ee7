//! Error taxonomy of the framework.

use vstd::prelude::*;

verus! {

/// Everything that can go wrong inside the engine.
///
/// Extractor mismatches are deliberately *not* represented here: a handler
/// whose extractors do not resolve is skipped, never failed.
#[derive(Debug, PartialEq, Eq)]
pub enum FlowError {
    /// An extractor could not be applied to an event.
    ExtractorError { extractor: String, event: String },
    /// Socket-level failure while connecting, sending or receiving.
    WebSocketError(String),
    /// A frame held bytes that are not valid UTF-8 text.
    FromUtf8Error,
    /// Malformed or unexpected JSON on encode or decode.
    JsonError,
    /// A send was attempted while no socket is attached.
    NoConnection,
    /// The completion signal's producer vanished before a reply arrived.
    NoResponse,
    /// No reply arrived within the given window, in milliseconds.
    Timeout(u64),
}

impl Clone for FlowError {
    fn clone(&self) -> (r: Self)
        ensures
            r == *self,
    {
        match self {
            FlowError::ExtractorError { extractor, event } => FlowError::ExtractorError {
                extractor: extractor.clone(),
                event: event.clone(),
            },
            FlowError::WebSocketError(s) => FlowError::WebSocketError(s.clone()),
            FlowError::FromUtf8Error => FlowError::FromUtf8Error,
            FlowError::JsonError => FlowError::JsonError,
            FlowError::NoConnection => FlowError::NoConnection,
            FlowError::NoResponse => FlowError::NoResponse,
            FlowError::Timeout(ms) => FlowError::Timeout(*ms),
        }
    }
}

impl FlowError {
    /// A short description, for hosts that report errors as text.
    pub fn describe(&self) -> (r: &str)
        ensures
            r@ == self.spec_describe(),
    {
        match self {
            FlowError::ExtractorError { .. } => "extractor cannot be applied to this event",
            FlowError::WebSocketError(_) => "websocket failure",
            FlowError::FromUtf8Error => "frame is not valid utf-8 text",
            FlowError::JsonError => "malformed or unexpected json",
            FlowError::NoConnection => "no connection",
            FlowError::NoResponse => "no response",
            FlowError::Timeout(_) => "timed out waiting for a reply",
        }
    }

    pub open spec fn spec_describe(&self) -> Seq<char> {
        match self {
            FlowError::ExtractorError { .. } => "extractor cannot be applied to this event"@,
            FlowError::WebSocketError(_) => "websocket failure"@,
            FlowError::FromUtf8Error => "frame is not valid utf-8 text"@,
            FlowError::JsonError => "malformed or unexpected json"@,
            FlowError::NoConnection => "no connection"@,
            FlowError::NoResponse => "no response"@,
            FlowError::Timeout(_) => "timed out waiting for a reply"@,
        }
    }
}

} // verus!
