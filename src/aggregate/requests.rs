//! The aggregate that owns paths, requests, request parameters and responses.

use vstd::prelude::*;

use crate::aggregate::{ApplyError, Diagnostic};
use crate::events::requests::RequestsEvent;
use crate::state::requests::{BodyDescriptor, RequestsModel, RequestsState};

verus! {

#[derive(Debug, PartialEq, Eq)]
pub struct RequestsAggregate {
    pub state: RequestsState,
}

/// What applying `event` to stores holding `m` leaves them holding, and what
/// it reports.
///
/// Six kinds of event change the stores. Setting the shape of an unknown
/// request parameter, or the body of an unknown response, fails and changes
/// nothing. Every other kind changes nothing and is reported as unhandled.
pub open spec fn apply_requests_event(m: RequestsModel, event: RequestsEvent) -> (
    RequestsModel,
    Result<Option<Diagnostic>, ApplyError>,
) {
    match event {
        RequestsEvent::PathComponentAdded(e) => (
            m.with_path_component(e.path_id, e.parent_path_id, e.name),
            Ok(None),
        ),
        RequestsEvent::RequestAdded(e) => (
            m.with_request(e.request_id, e.path_id, e.http_method),
            Ok(None),
        ),
        RequestsEvent::RequestParameterAddedByPathAndMethod(e) => (
            m.with_request_parameter_by_path_and_method(
                e.parameter_id,
                e.path_id,
                e.http_method,
                e.parameter_location,
                e.name,
            ),
            Ok(None),
        ),
        RequestsEvent::RequestParameterShapeSet(e) => {
            if m.request_parameters.contains_key(e.parameter_id@) {
                (m.with_request_parameter_shape(e.parameter_id, e.parameter_descriptor), Ok(None))
            } else {
                (m, Err(ApplyError::UnknownRequestParameter(e.parameter_id)))
            }
        },
        RequestsEvent::ResponseAddedByPathAndMethod(e) => (
            m.with_response_by_path_and_method(
                e.response_id,
                e.path_id,
                e.http_method,
                e.http_status_code,
            ),
            Ok(None),
        ),
        RequestsEvent::ResponseBodySet(e) => {
            if m.responses.contains_key(e.response_id@) {
                (
                    m.with_response_body(e.response_id, BodyDescriptor::Shaped(e.body_descriptor)),
                    Ok(None),
                )
            } else {
                (m, Err(ApplyError::UnknownResponse(e.response_id)))
            }
        },
        _ => (m, Ok(Some(Diagnostic { event_type: event.kind(), aggregate_type: "requests" }))),
    }
}

impl RequestsAggregate {
    pub open spec fn well_formed(&self) -> bool {
        self.state.well_formed()
    }

    /// An aggregate with empty stores.
    pub fn new() -> (r: Self)
        ensures
            r.well_formed(),
            r.state@ == RequestsModel::empty(),
    {
        RequestsAggregate { state: RequestsState::new() }
    }

    /// The name under which this aggregate reports.
    pub fn aggregate_type() -> (r: &'static str)
        ensures
            r == "requests",
    {
        "requests"
    }

    /// The stores, for reading.
    pub fn get_state(&self) -> (r: &RequestsState)
        ensures
            r == &self.state,
    {
        &self.state
    }

    /// Applies one event: see `apply_requests_event`.
    pub fn apply(&mut self, event: RequestsEvent) -> (r: Result<Option<Diagnostic>, ApplyError>)
        requires
            old(self).well_formed(),
        ensures
            final(self).well_formed(),
            (final(self).state@, r) == apply_requests_event(old(self).state@, event),
    {
        let kind = event.event_type();
        let state = &mut self.state;
        match event {
            RequestsEvent::PathComponentAdded(e) => {
                state.with_path_component(e.path_id, e.parent_path_id, e.name);
                Ok(None)
            },
            RequestsEvent::RequestAdded(e) => {
                state.with_request(e.request_id, e.path_id, e.http_method);
                Ok(None)
            },
            RequestsEvent::RequestParameterAddedByPathAndMethod(e) => {
                state.with_request_parameter_by_path_and_method(
                    e.parameter_id,
                    e.path_id,
                    e.http_method,
                    e.parameter_location,
                    e.name,
                );
                Ok(None)
            },
            RequestsEvent::RequestParameterShapeSet(e) => {
                if state.has_request_parameter(&e.parameter_id) {
                    state.with_request_parameter_shape(e.parameter_id, e.parameter_descriptor);
                    Ok(None)
                } else {
                    Err(ApplyError::UnknownRequestParameter(e.parameter_id))
                }
            },
            RequestsEvent::ResponseAddedByPathAndMethod(e) => {
                state.with_response_by_path_and_method(
                    e.response_id,
                    e.path_id,
                    e.http_method,
                    e.http_status_code,
                );
                Ok(None)
            },
            RequestsEvent::ResponseBodySet(e) => {
                if state.has_response(&e.response_id) {
                    state.with_response_body(e.response_id, BodyDescriptor::Shaped(e.body_descriptor));
                    Ok(None)
                } else {
                    Err(ApplyError::UnknownResponse(e.response_id))
                }
            },
            _ => Ok(Some(Diagnostic { event_type: kind, aggregate_type: RequestsAggregate::aggregate_type() })),
        }
    }
}

} // verus!
