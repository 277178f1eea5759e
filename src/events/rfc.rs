//! Events of the change-proposal aggregate.

use vstd::prelude::*;

use crate::events::EventContext;

verus! {

/// An event of the change-proposal aggregate; none of them changes state.
#[derive(Debug, PartialEq, Eq)]
pub enum RfcEvent {
    ContributionAdded(ContributionAdded),
    ApiNamed(ApiNamed),
}

#[derive(Debug, PartialEq, Eq)]
pub struct ContributionAdded {
    pub id: String,
    pub key: String,
    pub value: String,
    pub event_context: Option<EventContext>,
}

#[derive(Debug, PartialEq, Eq)]
pub struct ApiNamed {
    pub name: String,
    pub event_context: Option<EventContext>,
}

impl RfcEvent {
    /// The name of this event's kind.
    pub open spec fn kind(&self) -> &'static str {
        match self {
            RfcEvent::ContributionAdded(_) => "ContributionAdded",
            RfcEvent::ApiNamed(_) => "ApiNamed",
        }
    }

    /// The name of this event's kind.
    pub fn event_type(&self) -> (r: &'static str)
        ensures
            r == self.kind(),
    {
        match self {
            RfcEvent::ContributionAdded(_) => "ContributionAdded",
            RfcEvent::ApiNamed(_) => "ApiNamed",
        }
    }
}

} // verus!
