//! The event vocabulary: one enum per aggregate and one that routes among them.

use vstd::prelude::*;

pub mod requests;
pub mod rfc;
pub mod shape;

verus! {

/// Who produced an event and when; carried along, never interpreted.
#[derive(Debug, PartialEq, Eq)]
pub struct EventContext {
    pub client_id: String,
    pub client_session_id: String,
    pub client_command_batch_id: String,
    pub created_at: String,
}

/// An event of any aggregate, tagged by the aggregate it belongs to.
#[derive(Debug, PartialEq, Eq)]
pub enum OpticEvent {
    RequestsEvent(requests::RequestsEvent),
    RfcEvent(rfc::RfcEvent),
    ShapeEvent(shape::ShapeEvent),
}

impl OpticEvent {
    /// The name of the wrapped event's kind.
    pub open spec fn kind(&self) -> &'static str {
        match self {
            OpticEvent::RequestsEvent(e) => e.kind(),
            OpticEvent::RfcEvent(e) => e.kind(),
            OpticEvent::ShapeEvent(e) => e.kind(),
        }
    }

    /// The name of the wrapped event's kind.
    pub fn event_type(&self) -> (r: &'static str)
        ensures
            r == self.kind(),
    {
        match self {
            OpticEvent::RequestsEvent(e) => e.event_type(),
            OpticEvent::RfcEvent(e) => e.event_type(),
            OpticEvent::ShapeEvent(e) => e.event_type(),
        }
    }
}

} // verus!
