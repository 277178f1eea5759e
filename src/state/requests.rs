//! Path components, requests, request parameters and responses.

use vstd::prelude::*;

use crate::id_map::IdMap;
use crate::state::shape::ShapeId;

verus! {

pub type PathComponentId = String;

pub type RequestId = String;

pub type RequestParameterId = String;

pub type ResponseId = String;

/// One segment of a path, linked to its parent by id.
#[derive(Debug, PartialEq, Eq)]
pub struct PathComponent {
    pub path_id: PathComponentId,
    pub descriptor: PathComponentDescriptor,
    pub is_removed: bool,
}

#[derive(Debug, PartialEq, Eq)]
pub struct PathComponentDescriptor {
    pub parent_path_id: PathComponentId,
    pub name: String,
}

#[derive(Debug, PartialEq, Eq)]
pub struct HttpRequest {
    pub request_id: RequestId,
    pub request_descriptor: RequestDescriptor,
    pub is_removed: bool,
}

#[derive(Debug, PartialEq, Eq)]
pub struct HttpRequestParameter {
    pub parameter_id: RequestParameterId,
    pub request_parameter_descriptor: RequestParameterDescriptor,
    pub is_removed: bool,
}

#[derive(Debug, PartialEq, Eq)]
pub struct HttpResponse {
    pub response_id: ResponseId,
    pub response_descriptor: ResponseDescriptor,
    pub is_removed: bool,
}

#[derive(Debug, PartialEq, Eq)]
pub struct RequestDescriptor {
    pub path_component_id: PathComponentId,
    pub http_method: String,
    pub body_descriptor: BodyDescriptor,
}

#[derive(Debug, PartialEq, Eq)]
pub struct ResponseDescriptor {
    pub path_id: PathComponentId,
    pub http_method: String,
    pub http_status_code: u16,
    pub body_descriptor: BodyDescriptor,
}

/// A request or response body: not yet described, or described by a shape.
#[derive(Debug, PartialEq, Eq)]
pub enum BodyDescriptor {
    Unset,
    Shaped(ShapedBodyDescriptor),
}

#[derive(Debug, PartialEq, Eq)]
pub struct ShapedBodyDescriptor {
    pub http_content_type: String,
    pub shape_id: ShapeId,
    pub is_removed: bool,
}

#[derive(Debug, PartialEq, Eq)]
pub struct RequestParameterDescriptor {
    pub path_id: PathComponentId,
    pub http_method: String,
    pub location: String,
    pub name: String,
    pub shape_descriptor: RequestParameterShapeDescriptor,
}

/// A request parameter's shape: not yet described, or described by a shape.
#[derive(Debug, PartialEq, Eq)]
pub enum RequestParameterShapeDescriptor {
    Unset,
    Shaped(ShapedRequestParameterShapeDescriptor),
}

#[derive(Debug, PartialEq, Eq)]
pub struct ShapedRequestParameterShapeDescriptor {
    pub shape_id: ShapeId,
    pub is_removed: bool,
}

/// The stores of the requests aggregate.
#[derive(Debug, PartialEq, Eq)]
pub struct RequestsState {
    path_components: IdMap<PathComponent>,
    request_parameters: IdMap<HttpRequestParameter>,
    requests: IdMap<HttpRequest>,
    responses: IdMap<HttpResponse>,
}

/// What a `RequestsState` holds: each store as a map from id to record.
pub struct RequestsModel {
    pub path_components: Map<Seq<char>, PathComponent>,
    pub request_parameters: Map<Seq<char>, HttpRequestParameter>,
    pub requests: Map<Seq<char>, HttpRequest>,
    pub responses: Map<Seq<char>, HttpResponse>,
}

impl RequestsModel {
    pub open spec fn empty() -> RequestsModel {
        RequestsModel {
            path_components: Map::empty(),
            request_parameters: Map::empty(),
            requests: Map::empty(),
            responses: Map::empty(),
        }
    }

    /// Stores a live path component under `path_id`, replacing any earlier one.
    pub open spec fn with_path_component(
        self,
        path_id: PathComponentId,
        parent_path_id: PathComponentId,
        name: String,
    ) -> RequestsModel {
        RequestsModel {
            path_components: self.path_components.insert(
                path_id@,
                PathComponent {
                    path_id,
                    descriptor: PathComponentDescriptor { parent_path_id, name },
                    is_removed: false,
                },
            ),
            ..self
        }
    }

    /// Stores a live request with an unset body under `request_id`.
    pub open spec fn with_request(
        self,
        request_id: RequestId,
        path_id: PathComponentId,
        http_method: String,
    ) -> RequestsModel {
        RequestsModel {
            requests: self.requests.insert(
                request_id@,
                HttpRequest {
                    request_id,
                    request_descriptor: RequestDescriptor {
                        path_component_id: path_id,
                        http_method,
                        body_descriptor: BodyDescriptor::Unset,
                    },
                    is_removed: false,
                },
            ),
            ..self
        }
    }

    /// Stores a live request parameter with an unset shape under `parameter_id`.
    pub open spec fn with_request_parameter_by_path_and_method(
        self,
        parameter_id: RequestParameterId,
        path_id: PathComponentId,
        http_method: String,
        parameter_location: String,
        name: String,
    ) -> RequestsModel {
        RequestsModel {
            request_parameters: self.request_parameters.insert(
                parameter_id@,
                HttpRequestParameter {
                    parameter_id,
                    request_parameter_descriptor: RequestParameterDescriptor {
                        path_id,
                        http_method,
                        location: parameter_location,
                        name,
                        shape_descriptor: RequestParameterShapeDescriptor::Unset,
                    },
                    is_removed: false,
                },
            ),
            ..self
        }
    }

    /// The parameter stored under `parameter_id`, its shape set to `descriptor`.
    pub open spec fn with_request_parameter_shape(
        self,
        parameter_id: RequestParameterId,
        descriptor: ShapedRequestParameterShapeDescriptor,
    ) -> RequestsModel {
        let p = self.request_parameters[parameter_id@];
        RequestsModel {
            request_parameters: self.request_parameters.insert(
                parameter_id@,
                HttpRequestParameter {
                    request_parameter_descriptor: RequestParameterDescriptor {
                        shape_descriptor: RequestParameterShapeDescriptor::Shaped(descriptor),
                        ..p.request_parameter_descriptor
                    },
                    ..p
                },
            ),
            ..self
        }
    }

    /// Stores a live response with an unset body under `response_id`.
    pub open spec fn with_response_by_path_and_method(
        self,
        response_id: ResponseId,
        path_id: PathComponentId,
        http_method: String,
        http_status_code: u16,
    ) -> RequestsModel {
        RequestsModel {
            responses: self.responses.insert(
                response_id@,
                HttpResponse {
                    response_id,
                    response_descriptor: ResponseDescriptor {
                        path_id,
                        http_method,
                        http_status_code,
                        body_descriptor: BodyDescriptor::Unset,
                    },
                    is_removed: false,
                },
            ),
            ..self
        }
    }

    /// The response stored under `response_id`, its body set to `body_descriptor`.
    pub open spec fn with_response_body(
        self,
        response_id: ResponseId,
        body_descriptor: BodyDescriptor,
    ) -> RequestsModel {
        let r = self.responses[response_id@];
        RequestsModel {
            responses: self.responses.insert(
                response_id@,
                HttpResponse {
                    response_descriptor: ResponseDescriptor { body_descriptor, ..r.response_descriptor },
                    ..r
                },
            ),
            ..self
        }
    }
}

impl View for RequestsState {
    type V = RequestsModel;

    closed spec fn view(&self) -> RequestsModel {
        RequestsModel {
            path_components: self.path_components@,
            request_parameters: self.request_parameters@,
            requests: self.requests@,
            responses: self.responses@,
        }
    }
}

impl RequestsState {
    /// Each store is well formed and files every record under its own id.
    pub closed spec fn well_formed(&self) -> bool {
        &&& self.path_components.well_formed()
        &&& self.request_parameters.well_formed()
        &&& self.requests.well_formed()
        &&& self.responses.well_formed()
        &&& forall|k: Seq<char>| #[trigger]
            self.path_components@.contains_key(k) ==> self.path_components@[k].path_id@ == k
        &&& forall|k: Seq<char>| #[trigger]
            self.request_parameters@.contains_key(k) ==> self.request_parameters@[k].parameter_id@
                == k
        &&& forall|k: Seq<char>| #[trigger]
            self.requests@.contains_key(k) ==> self.requests@[k].request_id@ == k
        &&& forall|k: Seq<char>| #[trigger]
            self.responses@.contains_key(k) ==> self.responses@[k].response_id@ == k
    }

    /// Empty stores.
    pub fn new() -> (r: Self)
        ensures
            r.well_formed(),
            r@ == RequestsModel::empty(),
    {
        RequestsState {
            path_components: IdMap::new(),
            request_parameters: IdMap::new(),
            requests: IdMap::new(),
            responses: IdMap::new(),
        }
    }

    /// Every request, removed or not, each once.
    pub fn all_requests(&self) -> (r: Vec<&HttpRequest>)
        requires
            self.well_formed(),
        ensures
            r@.len() == self@.requests.dom().len(),
            forall|i: int|
                0 <= i < r@.len() ==> self@.requests.contains_key(#[trigger] r@[i].request_id@)
                    && self@.requests[r@[i].request_id@] == *r@[i],
            forall|k: Seq<char>| #[trigger]
                self@.requests.contains_key(k) ==> r@.contains(&self@.requests[k]),
    {
        let r = self.requests.values();
        assert forall|i: int|
            0 <= i < r@.len() implies self@.requests.contains_key(#[trigger] r@[i].request_id@)
                && self@.requests[r@[i].request_id@] == *r@[i] by {
            assert(self.requests@.values().contains(*r@[i]));
        }
        r
    }

    /// Every response, removed or not, each once.
    pub fn all_responses(&self) -> (r: Vec<&HttpResponse>)
        requires
            self.well_formed(),
        ensures
            r@.len() == self@.responses.dom().len(),
            forall|i: int|
                0 <= i < r@.len() ==> self@.responses.contains_key(#[trigger] r@[i].response_id@)
                    && self@.responses[r@[i].response_id@] == *r@[i],
            forall|k: Seq<char>| #[trigger]
                self@.responses.contains_key(k) ==> r@.contains(&self@.responses[k]),
    {
        let r = self.responses.values();
        assert forall|i: int|
            0 <= i < r@.len() implies self@.responses.contains_key(#[trigger] r@[i].response_id@)
                && self@.responses[r@[i].response_id@] == *r@[i] by {
            assert(self.responses@.values().contains(*r@[i]));
        }
        r
    }
    /// Stores a live path component under `path_id`; a component already
    /// stored there is replaced.
    pub fn with_path_component(
        &mut self,
        path_id: PathComponentId,
        parent_path_id: PathComponentId,
        name: String,
    )
        requires
            old(self).well_formed(),
        ensures
            final(self).well_formed(),
            final(self)@ == old(self)@.with_path_component(path_id, parent_path_id, name),
    {
        let ghost expected = self@.with_path_component(path_id, parent_path_id, name);
        self.path_components.insert(
            path_id.clone(),
            PathComponent {
                path_id: path_id,
                descriptor: PathComponentDescriptor { parent_path_id, name },
                is_removed: false,
            },
        );
        assert(self@ == expected);
    }

    /// Stores a live request with an unset body under `request_id`.
    pub fn with_request(&mut self, request_id: RequestId, path_id: PathComponentId, http_method: String)
        requires
            old(self).well_formed(),
        ensures
            final(self).well_formed(),
            final(self)@ == old(self)@.with_request(request_id, path_id, http_method),
    {
        let ghost expected = self@.with_request(request_id, path_id, http_method);
        self.requests.insert(
            request_id.clone(),
            HttpRequest {
                request_id: request_id,
                request_descriptor: RequestDescriptor {
                    path_component_id: path_id,
                    http_method,
                    body_descriptor: BodyDescriptor::Unset,
                },
                is_removed: false,
            },
        );
        assert(self@ == expected);
    }

    /// Stores a live request parameter with an unset shape under `parameter_id`.
    pub fn with_request_parameter_by_path_and_method(
        &mut self,
        parameter_id: RequestParameterId,
        path_id: PathComponentId,
        http_method: String,
        parameter_location: String,
        name: String,
    )
        requires
            old(self).well_formed(),
        ensures
            final(self).well_formed(),
            final(self)@ == old(self)@.with_request_parameter_by_path_and_method(
                parameter_id,
                path_id,
                http_method,
                parameter_location,
                name,
            ),
    {
        let ghost expected = self@.with_request_parameter_by_path_and_method(
            parameter_id,
            path_id,
            http_method,
            parameter_location,
            name,
        );
        self.request_parameters.insert(
            parameter_id.clone(),
            HttpRequestParameter {
                parameter_id: parameter_id,
                request_parameter_descriptor: RequestParameterDescriptor {
                    path_id,
                    http_method,
                    location: parameter_location,
                    name,
                    shape_descriptor: RequestParameterShapeDescriptor::Unset,
                },
                is_removed: false,
            },
        );
        assert(self@ == expected);
    }

    /// Sets the shape of the parameter stored under `parameter_id`, which
    /// must exist.
    pub fn with_request_parameter_shape(
        &mut self,
        parameter_id: RequestParameterId,
        parameter_shape_descriptor: ShapedRequestParameterShapeDescriptor,
    )
        requires
            old(self).well_formed(),
            old(self)@.request_parameters.contains_key(parameter_id@),
        ensures
            final(self).well_formed(),
            final(self)@ == old(self)@.with_request_parameter_shape(
                parameter_id,
                parameter_shape_descriptor,
            ),
    {
        let ghost expected = self@.with_request_parameter_shape(
            parameter_id,
            parameter_shape_descriptor,
        );
        let mut parameter = self.request_parameters.take(&parameter_id);
        parameter.request_parameter_descriptor.shape_descriptor =
            RequestParameterShapeDescriptor::Shaped(parameter_shape_descriptor);
        self.request_parameters.insert(parameter_id, parameter);
        assert(self@.request_parameters =~= expected.request_parameters);
        assert(self@ == expected);
    }

    /// Stores a live response with an unset body under `response_id`.
    pub fn with_response_by_path_and_method(
        &mut self,
        response_id: ResponseId,
        path_id: PathComponentId,
        http_method: String,
        http_status_code: u16,
    )
        requires
            old(self).well_formed(),
        ensures
            final(self).well_formed(),
            final(self)@ == old(self)@.with_response_by_path_and_method(
                response_id,
                path_id,
                http_method,
                http_status_code,
            ),
    {
        let ghost expected = self@.with_response_by_path_and_method(
            response_id,
            path_id,
            http_method,
            http_status_code,
        );
        self.responses.insert(
            response_id.clone(),
            HttpResponse {
                response_id: response_id,
                response_descriptor: ResponseDescriptor {
                    path_id,
                    http_method,
                    http_status_code,
                    body_descriptor: BodyDescriptor::Unset,
                },
                is_removed: false,
            },
        );
        assert(self@ == expected);
    }

    /// Sets the body of the response stored under `response_id`, which must
    /// exist.
    pub fn with_response_body(&mut self, response_id: ResponseId, body_descriptor: BodyDescriptor)
        requires
            old(self).well_formed(),
            old(self)@.responses.contains_key(response_id@),
        ensures
            final(self).well_formed(),
            final(self)@ == old(self)@.with_response_body(response_id, body_descriptor),
    {
        let ghost expected = self@.with_response_body(response_id, body_descriptor);
        let mut response = self.responses.take(&response_id);
        response.response_descriptor.body_descriptor = body_descriptor;
        self.responses.insert(response_id, response);
        assert(self@.responses =~= expected.responses);
        assert(self@ == expected);
    }
    /// Whether a request parameter is stored under `parameter_id`.
    pub fn has_request_parameter(&self, parameter_id: &RequestParameterId) -> (r: bool)
        requires
            self.well_formed(),
        ensures
            r == self@.request_parameters.contains_key(parameter_id@),
    {
        self.request_parameters.contains_key(parameter_id)
    }

    /// Whether a response is stored under `response_id`.
    pub fn has_response(&self, response_id: &ResponseId) -> (r: bool)
        requires
            self.well_formed(),
        ensures
            r == self@.responses.contains_key(response_id@),
    {
        self.responses.contains_key(response_id)
    }

    /// The path component stored under `path_id`, if any.
    pub fn path_component(&self, path_id: &PathComponentId) -> (r: Option<&PathComponent>)
        requires
            self.well_formed(),
        ensures
            match r {
                Some(c) => self@.path_components.contains_key(path_id@) && *c
                    == self@.path_components[path_id@],
                None => !self@.path_components.contains_key(path_id@),
            },
    {
        self.path_components.get(path_id)
    }

    /// The request stored under `request_id`, if any.
    pub fn request(&self, request_id: &RequestId) -> (r: Option<&HttpRequest>)
        requires
            self.well_formed(),
        ensures
            match r {
                Some(q) => self@.requests.contains_key(request_id@) && *q
                    == self@.requests[request_id@],
                None => !self@.requests.contains_key(request_id@),
            },
    {
        self.requests.get(request_id)
    }

    /// The request parameter stored under `parameter_id`, if any.
    pub fn request_parameter(&self, parameter_id: &RequestParameterId) -> (r: Option<&HttpRequestParameter>)
        requires
            self.well_formed(),
        ensures
            match r {
                Some(p) => self@.request_parameters.contains_key(parameter_id@) && *p
                    == self@.request_parameters[parameter_id@],
                None => !self@.request_parameters.contains_key(parameter_id@),
            },
    {
        self.request_parameters.get(parameter_id)
    }

    /// The response stored under `response_id`, if any.
    pub fn response(&self, response_id: &ResponseId) -> (r: Option<&HttpResponse>)
        requires
            self.well_formed(),
        ensures
            match r {
                Some(q) => self@.responses.contains_key(response_id@) && *q
                    == self@.responses[response_id@],
                None => !self@.responses.contains_key(response_id@),
            },
    {
        self.responses.get(response_id)
    }
}

} // verus!
