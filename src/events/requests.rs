//! Events on paths, requests, request parameters and responses.

use vstd::prelude::*;

use crate::events::EventContext;
use crate::state::requests::{
    PathComponentId, RequestId, RequestParameterId, ResponseId, ShapedBodyDescriptor,
    ShapedRequestParameterShapeDescriptor,
};

verus! {

/// A change to paths, requests, request parameters or responses.
#[derive(Debug, PartialEq, Eq)]
pub enum RequestsEvent {
    PathComponentAdded(PathComponentAdded),
    PathComponentRenamed(PathComponentRenamed),
    PathComponentRemoved(PathComponentRemoved),
    PathParameterAdded(PathParameterAdded),
    PathParameterRenamed(PathParameterRenamed),
    PathParameterRemoved(PathParameterRemoved),
    RequestParameterAddedByPathAndMethod(RequestParameterAddedByPathAndMethod),
    RequestParameterRenamed(RequestParameterRenamed),
    RequestParameterShapeSet(RequestParameterShapeSet),
    RequestParameterShapeUnset(RequestParameterShapeUnset),
    RequestParameterRemoved(RequestParameterRemoved),
    RequestAdded(RequestAdded),
    RequestContentTypeSet(RequestContentTypeSet),
    RequestBodySet(RequestBodySet),
    RequestBodyUnset(RequestBodyUnset),
    RequestRemoved(RequestRemoved),
    ResponseAddedByPathAndMethod(ResponseAddedByPathAndMethod),
    ResponseStatusCodeSet(ResponseStatusCodeSet),
    ResponseContentTypeSet(ResponseContentTypeSet),
    ResponseBodySet(ResponseBodySet),
    ResponseBodyUnset(ResponseBodyUnset),
    ResponseRemoved(ResponseRemoved),
}

#[derive(Debug, PartialEq, Eq)]
pub struct PathComponentAdded {
    pub path_id: PathComponentId,
    pub parent_path_id: PathComponentId,
    pub name: String,
    pub event_context: Option<EventContext>,
}

#[derive(Debug, PartialEq, Eq)]
pub struct PathComponentRenamed {
    pub path_id: PathComponentId,
    pub name: String,
    pub event_context: Option<EventContext>,
}

#[derive(Debug, PartialEq, Eq)]
pub struct PathComponentRemoved {
    pub path_id: PathComponentId,
    pub event_context: Option<EventContext>,
}

#[derive(Debug, PartialEq, Eq)]
pub struct PathParameterAdded {
    pub path_id: PathComponentId,
    pub parent_path_id: PathComponentId,
    pub name: String,
    pub event_context: Option<EventContext>,
}

#[derive(Debug, PartialEq, Eq)]
pub struct PathParameterRenamed {
    pub path_id: PathComponentId,
    pub name: String,
    pub event_context: Option<EventContext>,
}

#[derive(Debug, PartialEq, Eq)]
pub struct PathParameterRemoved {
    pub path_id: PathComponentId,
    pub name: String,
    pub event_context: Option<EventContext>,
}

#[derive(Debug, PartialEq, Eq)]
pub struct RequestParameterAddedByPathAndMethod {
    pub parameter_id: RequestParameterId,
    pub path_id: PathComponentId,
    pub http_method: String,
    pub parameter_location: String,
    pub name: String,
    pub event_context: Option<EventContext>,
}

#[derive(Debug, PartialEq, Eq)]
pub struct RequestParameterRenamed {
    pub parameter_id: RequestParameterId,
    pub name: String,
    pub event_context: Option<EventContext>,
}

#[derive(Debug, PartialEq, Eq)]
pub struct RequestParameterShapeSet {
    pub parameter_id: RequestParameterId,
    pub parameter_descriptor: ShapedRequestParameterShapeDescriptor,
    pub event_context: Option<EventContext>,
}

#[derive(Debug, PartialEq, Eq)]
pub struct RequestParameterShapeUnset {
    pub parameter_id: RequestParameterId,
    pub event_context: Option<EventContext>,
}

#[derive(Debug, PartialEq, Eq)]
pub struct RequestParameterRemoved {
    pub parameter_id: RequestParameterId,
    pub event_context: Option<EventContext>,
}

#[derive(Debug, PartialEq, Eq)]
pub struct RequestAdded {
    pub request_id: RequestId,
    pub path_id: PathComponentId,
    pub http_method: String,
    pub event_context: Option<EventContext>,
}

#[derive(Debug, PartialEq, Eq)]
pub struct RequestContentTypeSet {
    pub request_id: RequestId,
    pub http_content_type: String,
    pub event_context: Option<EventContext>,
}

#[derive(Debug, PartialEq, Eq)]
pub struct RequestBodySet {
    pub request_id: RequestId,
    pub event_context: Option<EventContext>,
}

#[derive(Debug, PartialEq, Eq)]
pub struct RequestBodyUnset {
    pub request_id: RequestId,
    pub event_context: Option<EventContext>,
}

#[derive(Debug, PartialEq, Eq)]
pub struct RequestRemoved {
    pub request_id: RequestId,
    pub event_context: Option<EventContext>,
}

#[derive(Debug, PartialEq, Eq)]
pub struct ResponseAddedByPathAndMethod {
    pub response_id: ResponseId,
    pub path_id: PathComponentId,
    pub http_method: String,
    pub http_status_code: u16,
    pub event_context: Option<EventContext>,
}

#[derive(Debug, PartialEq, Eq)]
pub struct ResponseStatusCodeSet {
    pub response_id: ResponseId,
    pub http_status_code: u16,
    pub event_context: Option<EventContext>,
}

#[derive(Debug, PartialEq, Eq)]
pub struct ResponseContentTypeSet {
    pub response_id: ResponseId,
    pub http_content_type: String,
    pub event_context: Option<EventContext>,
}

#[derive(Debug, PartialEq, Eq)]
pub struct ResponseBodySet {
    pub response_id: ResponseId,
    pub body_descriptor: ShapedBodyDescriptor,
    pub event_context: Option<EventContext>,
}

#[derive(Debug, PartialEq, Eq)]
pub struct ResponseBodyUnset {
    pub response_id: ResponseId,
    pub event_context: Option<EventContext>,
}

#[derive(Debug, PartialEq, Eq)]
pub struct ResponseRemoved {
    pub response_id: ResponseId,
    pub event_context: Option<EventContext>,
}

impl RequestsEvent {
    /// The name of this event's kind.
    pub open spec fn kind(&self) -> &'static str {
        match self {
            RequestsEvent::PathComponentAdded(_) => "PathComponentAdded",
            RequestsEvent::PathComponentRenamed(_) => "PathComponentRenamed",
            RequestsEvent::PathComponentRemoved(_) => "PathComponentRemoved",
            RequestsEvent::PathParameterAdded(_) => "PathParameterAdded",
            RequestsEvent::PathParameterRenamed(_) => "PathParameterRenamed",
            RequestsEvent::PathParameterRemoved(_) => "PathParameterRemoved",
            RequestsEvent::RequestParameterAddedByPathAndMethod(_) => "RequestParameterAddedByPathAndMethod",
            RequestsEvent::RequestParameterRenamed(_) => "RequestParameterRenamed",
            RequestsEvent::RequestParameterShapeSet(_) => "RequestParameterShapeSet",
            RequestsEvent::RequestParameterShapeUnset(_) => "RequestParameterShapeUnset",
            RequestsEvent::RequestParameterRemoved(_) => "RequestParameterRemoved",
            RequestsEvent::RequestAdded(_) => "RequestAdded",
            RequestsEvent::RequestContentTypeSet(_) => "RequestContentTypeSet",
            RequestsEvent::RequestBodySet(_) => "RequestBodySet",
            RequestsEvent::RequestBodyUnset(_) => "RequestBodyUnset",
            RequestsEvent::RequestRemoved(_) => "RequestRemoved",
            RequestsEvent::ResponseAddedByPathAndMethod(_) => "ResponseAddedByPathAndMethod",
            RequestsEvent::ResponseStatusCodeSet(_) => "ResponseStatusCodeSet",
            RequestsEvent::ResponseContentTypeSet(_) => "ResponseContentTypeSet",
            RequestsEvent::ResponseBodySet(_) => "ResponseBodySet",
            RequestsEvent::ResponseBodyUnset(_) => "ResponseBodyUnset",
            RequestsEvent::ResponseRemoved(_) => "ResponseRemoved",
        }
    }

    /// The name of this event's kind.
    pub fn event_type(&self) -> (r: &'static str)
        ensures
            r == self.kind(),
    {
        match self {
            RequestsEvent::PathComponentAdded(_) => "PathComponentAdded",
            RequestsEvent::PathComponentRenamed(_) => "PathComponentRenamed",
            RequestsEvent::PathComponentRemoved(_) => "PathComponentRemoved",
            RequestsEvent::PathParameterAdded(_) => "PathParameterAdded",
            RequestsEvent::PathParameterRenamed(_) => "PathParameterRenamed",
            RequestsEvent::PathParameterRemoved(_) => "PathParameterRemoved",
            RequestsEvent::RequestParameterAddedByPathAndMethod(_) => "RequestParameterAddedByPathAndMethod",
            RequestsEvent::RequestParameterRenamed(_) => "RequestParameterRenamed",
            RequestsEvent::RequestParameterShapeSet(_) => "RequestParameterShapeSet",
            RequestsEvent::RequestParameterShapeUnset(_) => "RequestParameterShapeUnset",
            RequestsEvent::RequestParameterRemoved(_) => "RequestParameterRemoved",
            RequestsEvent::RequestAdded(_) => "RequestAdded",
            RequestsEvent::RequestContentTypeSet(_) => "RequestContentTypeSet",
            RequestsEvent::RequestBodySet(_) => "RequestBodySet",
            RequestsEvent::RequestBodyUnset(_) => "RequestBodyUnset",
            RequestsEvent::RequestRemoved(_) => "RequestRemoved",
            RequestsEvent::ResponseAddedByPathAndMethod(_) => "ResponseAddedByPathAndMethod",
            RequestsEvent::ResponseStatusCodeSet(_) => "ResponseStatusCodeSet",
            RequestsEvent::ResponseContentTypeSet(_) => "ResponseContentTypeSet",
            RequestsEvent::ResponseBodySet(_) => "ResponseBodySet",
            RequestsEvent::ResponseBodyUnset(_) => "ResponseBodyUnset",
            RequestsEvent::ResponseRemoved(_) => "ResponseRemoved",
        }
    }
}

} // verus!
