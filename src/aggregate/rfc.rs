//! The change-proposal aggregate: a routing target that holds no state.

use vstd::prelude::*;

use crate::aggregate::Diagnostic;
use crate::events::rfc::RfcEvent;

verus! {

#[derive(Debug, Default, PartialEq, Eq)]
pub struct RfcState {}

#[derive(Debug, PartialEq, Eq)]
pub struct RfcAggregate {
    pub state: RfcState,
}

impl RfcAggregate {
    pub fn new() -> (r: Self) {
        RfcAggregate { state: RfcState {} }
    }

    /// The name under which this aggregate reports.
    pub fn aggregate_type() -> (r: &'static str)
        ensures
            r == "rfc",
    {
        "rfc"
    }

    /// The (empty) state, for reading.
    pub fn get_state(&self) -> (r: &RfcState)
        ensures
            r == &self.state,
    {
        &self.state
    }

    /// No event of this aggregate changes anything: each is reported as
    /// unhandled.
    pub fn apply(&mut self, event: RfcEvent) -> (r: Diagnostic)
        ensures
            r == (Diagnostic { event_type: event.kind(), aggregate_type: "rfc" }),
    {
        Diagnostic { event_type: event.event_type(), aggregate_type: RfcAggregate::aggregate_type() }
    }
}

} // verus!
