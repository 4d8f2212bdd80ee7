//! Inbound events: everything the remote peer pushes outside a call reply.

pub mod message;
pub mod meta_event;
pub mod notice;
pub mod request;

use vstd::prelude::*;

verus! {

/// The discriminated payload of one inbound event. Frames whose
/// discriminator is unrecognized keep their raw JSON text.
#[derive(Debug)]
pub enum TypedEvent {
    Message(Box<message::Message>),
    Notice(notice::Notice),
    Request(request::Request),
    MetaEvent(meta_event::MetaEvent),
    Unknown(String),
}

impl TypedEvent {
    /// The discriminator this payload answers to.
    pub open spec fn spec_type(&self) -> Seq<char> {
        match self {
            TypedEvent::Message(..) => "message"@,
            TypedEvent::Notice(..) => "notice"@,
            TypedEvent::Request(..) => "request"@,
            TypedEvent::MetaEvent(..) => "meta_event"@,
            TypedEvent::Unknown(..) => "unknown"@,
        }
    }

    pub fn get_type(&self) -> (r: &str)
        ensures
            r@ == self.spec_type(),
    {
        match self {
            TypedEvent::Message(..) => "message",
            TypedEvent::Notice(..) => "notice",
            TypedEvent::Request(..) => "request",
            TypedEvent::MetaEvent(..) => "meta_event",
            TypedEvent::Unknown(..) => "unknown",
        }
    }
}

/// One inbound event: when it happened, which bot it addresses, and its
/// discriminated payload. Events are fanned out read-only; no handler
/// mutates one.
#[derive(Debug)]
pub struct Event {
    pub time: i64,
    pub self_id: i64,
    pub event: TypedEvent,
}

} // verus!
