//! Engine for chat-bot clients speaking a JSON-over-WebSocket action protocol:
//! request/response correlation by echo token, an ordered event-dispatch
//! pipeline with short-circuit control, composable extractors, and a
//! type-tagged shared-state registry.

pub mod api;
pub mod connect;
pub mod correlator;
pub mod dispatch;
pub mod error;
pub mod event;
pub mod extract;
pub mod frame;
pub mod json;
pub mod message;
pub mod segments;
pub mod state;

use vstd::prelude::*;

verus! {

/// Pipeline control signal returned by every handler or service invocation.
#[derive(Clone, Copy, Debug, PartialEq, Eq, Structural)]
pub enum HandlerControl {
    /// This registration had nothing to contribute; the pipeline proceeds.
    Skip,
    /// Proceed to the next registration.
    Continue,
    /// Stop the whole pipeline for this event.
    Block,
}

/// The explicit short-circuit idiom of handler bodies: a missing value is
/// routine, so the body aborts to [`HandlerControl::Skip`], never to an
/// error. Written `let v = match unwrap_or_skip(x) { Ok(v) => v, Err(c) =>
/// return c };`.
pub fn unwrap_or_skip<T>(o: Option<T>) -> (r: Result<T, HandlerControl>)
    ensures
        match o {
            Some(v) => r == Ok::<T, HandlerControl>(v),
            None => r == Err::<T, HandlerControl>(HandlerControl::Skip),
        },
{
    match o {
        Some(v) => Ok(v),
        None => Err(HandlerControl::Skip),
    }
}

/// The same idiom for fallible sub-expressions: any failure becomes `Skip`.
pub fn ok_or_skip<T, E>(res: Result<T, E>) -> (r: Result<T, HandlerControl>)
    ensures
        match res {
            Ok(v) => r == Ok::<T, HandlerControl>(v),
            Err(_) => r == Err::<T, HandlerControl>(HandlerControl::Skip),
        },
{
    match res {
        Ok(v) => Ok(v),
        Err(_) => Err(HandlerControl::Skip),
    }
}

} // verus!
