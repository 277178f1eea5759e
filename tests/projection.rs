use optic::aggregate::requests::RequestsAggregate;
use optic::aggregate::rfc::RfcAggregate;
use optic::aggregate::shape::ShapeAggregate;
use optic::aggregate::{replay, ApplyError, Diagnostic, OpticAggregate, Replay};
use optic::events::requests::{
    PathComponentAdded, PathComponentRenamed, RequestAdded, RequestParameterAddedByPathAndMethod,
    RequestParameterShapeSet, RequestsEvent, ResponseAddedByPathAndMethod, ResponseBodySet,
    ResponseRemoved,
};
use optic::events::rfc::{ApiNamed, RfcEvent};
use optic::events::shape::{FieldAdded, ShapeAdded, ShapeEvent, ShapeRenamed};
use optic::events::OpticEvent;
use optic::state::requests::{
    BodyDescriptor, RequestParameterShapeDescriptor, ShapedBodyDescriptor,
    ShapedRequestParameterShapeDescriptor,
};
use optic::state::shape::{
    FieldShapeDescriptor, FieldShapeFromShape, ShapeParametersDescriptor,
    StaticShapeParametersDescriptor,
};

fn s(x: &str) -> String {
    x.to_string()
}

fn path_added(id: &str, parent: &str, name: &str) -> OpticEvent {
    OpticEvent::RequestsEvent(RequestsEvent::PathComponentAdded(PathComponentAdded {
        path_id: s(id),
        parent_path_id: s(parent),
        name: s(name),
        event_context: None,
    }))
}

fn request_added(id: &str, path: &str, method: &str) -> OpticEvent {
    OpticEvent::RequestsEvent(RequestsEvent::RequestAdded(RequestAdded {
        request_id: s(id),
        path_id: s(path),
        http_method: s(method),
        event_context: None,
    }))
}

fn response_added(id: &str, path: &str, method: &str, status: u16) -> OpticEvent {
    OpticEvent::RequestsEvent(RequestsEvent::ResponseAddedByPathAndMethod(
        ResponseAddedByPathAndMethod {
            response_id: s(id),
            path_id: s(path),
            http_method: s(method),
            http_status_code: status,
            event_context: None,
        },
    ))
}

fn body(content_type: &str, shape: &str) -> ShapedBodyDescriptor {
    ShapedBodyDescriptor {
        http_content_type: s(content_type),
        shape_id: s(shape),
        is_removed: false,
    }
}

fn response_body_set(id: &str, shape: &str) -> OpticEvent {
    OpticEvent::RequestsEvent(RequestsEvent::ResponseBodySet(ResponseBodySet {
        response_id: s(id),
        body_descriptor: body("application/json", shape),
        event_context: None,
    }))
}

fn parameter_added(id: &str) -> OpticEvent {
    OpticEvent::RequestsEvent(RequestsEvent::RequestParameterAddedByPathAndMethod(
        RequestParameterAddedByPathAndMethod {
            parameter_id: s(id),
            path_id: s("root"),
            http_method: s("GET"),
            parameter_location: s("query"),
            name: s("limit"),
            event_context: None,
        },
    ))
}

fn parameter_shape_set(id: &str, shape: &str) -> OpticEvent {
    OpticEvent::RequestsEvent(RequestsEvent::RequestParameterShapeSet(RequestParameterShapeSet {
        parameter_id: s(id),
        parameter_descriptor: ShapedRequestParameterShapeDescriptor {
            shape_id: s(shape),
            is_removed: false,
        },
        event_context: None,
    }))
}

fn shape_added(id: &str) -> OpticEvent {
    OpticEvent::ShapeEvent(ShapeEvent::ShapeAdded(ShapeAdded {
        shape_id: s(id),
        base_shape_id: s("$object"),
        parameters: ShapeParametersDescriptor::NoParameterList,
        name: s("Thing"),
        event_context: None,
    }))
}

fn field_added(field: &str, shape: &str) -> OpticEvent {
    OpticEvent::ShapeEvent(ShapeEvent::FieldAdded(FieldAdded {
        field_id: s(field),
        shape_id: s(shape),
        name: s(field),
        shape_descriptor: FieldShapeDescriptor::FieldShapeFromShape(FieldShapeFromShape {
            field_id: s(field),
            shape_id: s("$string"),
        }),
        event_context: None,
    }))
}

fn run(events: Vec<OpticEvent>) -> Replay {
    match replay(events) {
        Ok(done) => done,
        Err(e) => panic!("replay failed: {:?}", e),
    }
}

#[test]
fn end_to_end_scenario() {
    let done = run(vec![
        path_added("root", "root", "/"),
        request_added("r1", "root", "GET"),
        response_added("res1", "root", "GET", 200),
        response_body_set("res1", "s1"),
    ]);
    assert!(done.diagnostics.is_empty());
    let state = done.aggregate.get_state();
    let requests = state.requests.all_requests();
    assert_eq!(requests.len(), 1);
    assert_eq!(requests[0].request_id, "r1");
    assert_eq!(requests[0].request_descriptor.body_descriptor, BodyDescriptor::Unset);
    let responses = state.requests.all_responses();
    assert_eq!(responses.len(), 1);
    assert_eq!(responses[0].response_id, "res1");
    assert_eq!(responses[0].response_descriptor.http_status_code, 200);
    assert_eq!(
        responses[0].response_descriptor.body_descriptor,
        BodyDescriptor::Shaped(body("application/json", "s1"))
    );
}

#[test]
fn replaying_twice_gives_the_same_state() {
    let log = || {
        vec![
            path_added("root", "root", "/"),
            request_added("r1", "root", "GET"),
            shape_added("s1"),
            field_added("f1", "s1"),
            OpticEvent::RequestsEvent(RequestsEvent::PathComponentRenamed(PathComponentRenamed {
                path_id: s("root"),
                name: s("/v2"),
                event_context: None,
            })),
        ]
    };
    let first = run(log());
    let second = run(log());
    assert_eq!(first, second);
    assert_eq!(first.diagnostics.len(), 1);
}

#[test]
fn fields_keep_the_order_of_their_events() {
    let done = run(vec![shape_added("s"), field_added("f1", "s"), field_added("f2", "s")]);
    let state = done.aggregate.get_state();
    let shape = state.shape.shape(&s("s")).unwrap();
    assert_eq!(shape.descriptor.field_ordering, vec![s("f1"), s("f2")]);
    assert!(shape.descriptor.is_user_defined);
    assert_eq!(state.shape.field(&s("f2")).unwrap().descriptor.shape_id, "s");

    let reversed = run(vec![shape_added("s"), field_added("f2", "s"), field_added("f1", "s")]);
    let shape = reversed.aggregate.get_state().shape.shape(&s("s")).unwrap();
    assert_eq!(shape.descriptor.field_ordering, vec![s("f2"), s("f1")]);
}

#[test]
fn response_body_goes_from_unset_to_shaped() {
    let mut aggregate = OpticAggregate::new();
    assert_eq!(aggregate.apply(response_added("res1", "root", "POST", 201)), Ok(None));
    let before = aggregate.get_state().requests.response(&s("res1")).unwrap();
    assert_eq!(before.response_descriptor.body_descriptor, BodyDescriptor::Unset);
    assert_eq!(aggregate.apply(response_body_set("res1", "s9")), Ok(None));
    let after = aggregate.get_state().requests.response(&s("res1")).unwrap();
    assert_eq!(
        after.response_descriptor.body_descriptor,
        BodyDescriptor::Shaped(body("application/json", "s9"))
    );
    assert_eq!(after.response_descriptor.http_method, "POST");
    assert_eq!(after.response_descriptor.http_status_code, 201);
}

#[test]
fn removing_a_response_does_not_unset_its_body() {
    let done = run(vec![
        response_added("res1", "root", "GET", 200),
        response_body_set("res1", "s1"),
        OpticEvent::RequestsEvent(RequestsEvent::ResponseRemoved(ResponseRemoved {
            response_id: s("res1"),
            event_context: None,
        })),
    ]);
    let response = done.aggregate.get_state().requests.response(&s("res1")).unwrap();
    assert!(matches!(response.response_descriptor.body_descriptor, BodyDescriptor::Shaped(_)));
    assert_eq!(
        done.diagnostics,
        vec![Diagnostic { event_type: "ResponseRemoved", aggregate_type: "requests" }]
    );
}

#[test]
fn re_adding_a_path_component_keeps_the_second() {
    let done = run(vec![path_added("p", "root", "users"), path_added("p", "api", "accounts")]);
    let component = done.aggregate.get_state().requests.path_component(&s("p")).unwrap();
    assert_eq!(component.descriptor.name, "accounts");
    assert_eq!(component.descriptor.parent_path_id, "api");
    assert!(!component.is_removed);
}

#[test]
fn shape_set_on_unknown_parameter_fails() {
    let result = replay(vec![parameter_added("other"), parameter_shape_set("missing", "s1")]);
    assert_eq!(result, Err(ApplyError::UnknownRequestParameter(s("missing"))));
    let err = result.unwrap_err();
    assert_eq!(err.event_type(), "RequestParameterShapeSet");
    assert_eq!(err.id(), "missing");
}

#[test]
fn failure_leaves_state_unchanged() {
    let mut aggregate = OpticAggregate::new();
    aggregate.apply(path_added("root", "root", "/")).unwrap();
    let before = OpticAggregate::new();
    let mut expected = before;
    expected.apply(path_added("root", "root", "/")).unwrap();
    assert_eq!(
        aggregate.apply(response_body_set("nope", "s1")),
        Err(ApplyError::UnknownResponse(s("nope")))
    );
    assert_eq!(aggregate, expected);
}

#[test]
fn shape_set_on_known_parameter_shapes_it() {
    let done = run(vec![parameter_added("q1"), parameter_shape_set("q1", "s4")]);
    let parameter = done.aggregate.get_state().requests.request_parameter(&s("q1")).unwrap();
    assert_eq!(
        parameter.request_parameter_descriptor.shape_descriptor,
        RequestParameterShapeDescriptor::Shaped(ShapedRequestParameterShapeDescriptor {
            shape_id: s("s4"),
            is_removed: false,
        })
    );
    assert_eq!(parameter.request_parameter_descriptor.location, "query");
}

#[test]
fn field_on_unknown_shape_fails() {
    let result = replay(vec![shape_added("s1"), field_added("f1", "s2")]);
    assert_eq!(result, Err(ApplyError::UnknownShape(s("s2"))));
    assert_eq!(result.unwrap_err().event_type(), "FieldAdded");
}

#[test]
fn renaming_a_path_component_is_reported_and_changes_nothing() {
    let renamed = || {
        OpticEvent::RequestsEvent(RequestsEvent::PathComponentRenamed(PathComponentRenamed {
            path_id: s("root"),
            name: s("/renamed"),
            event_context: None,
        }))
    };
    let plain = run(vec![path_added("root", "root", "/")]);
    let done = run(vec![path_added("root", "root", "/"), renamed(), renamed()]);
    assert_eq!(done.aggregate, plain.aggregate);
    let component = done.aggregate.get_state().requests.path_component(&s("root")).unwrap();
    assert_eq!(component.descriptor.name, "/");
    let reported = Diagnostic { event_type: "PathComponentRenamed", aggregate_type: "requests" };
    assert_eq!(done.diagnostics, vec![Diagnostic { event_type: "PathComponentRenamed", aggregate_type: "requests" }, reported]);
}

#[test]
fn unhandled_shape_and_rfc_events_are_reported() {
    let done = run(vec![
        shape_added("s1"),
        OpticEvent::ShapeEvent(ShapeEvent::ShapeRenamed(ShapeRenamed {
            shape_id: s("s1"),
            name: s("Other"),
            event_context: None,
        })),
        OpticEvent::RfcEvent(RfcEvent::ApiNamed(ApiNamed { name: s("api"), event_context: None })),
    ]);
    assert_eq!(
        done.diagnostics,
        vec![
            Diagnostic { event_type: "ShapeRenamed", aggregate_type: "shape" },
            Diagnostic { event_type: "ApiNamed", aggregate_type: "rfc" },
        ]
    );
    let shape = done.aggregate.get_state().shape.shape(&s("s1")).unwrap();
    assert_eq!(shape.descriptor.name, "Thing");
}

#[test]
fn aggregate_names() {
    assert_eq!(OpticAggregate::aggregate_type(), "optic");
    assert_eq!(RequestsAggregate::aggregate_type(), "requests");
    assert_eq!(ShapeAggregate::aggregate_type(), "shape");
    assert_eq!(RfcAggregate::aggregate_type(), "rfc");
}

#[test]
fn event_type_names_the_kind() {
    assert_eq!(path_added("a", "a", "a").event_type(), "PathComponentAdded");
    assert_eq!(response_body_set("a", "b").event_type(), "ResponseBodySet");
    assert_eq!(field_added("f", "s").event_type(), "FieldAdded");
}

#[test]
fn empty_log_gives_empty_state() {
    let done = run(vec![]);
    assert!(done.diagnostics.is_empty());
    let state = done.aggregate.get_state();
    assert!(state.requests.all_requests().is_empty());
    assert!(state.requests.all_responses().is_empty());
    assert!(state.shape.shape(&s("s")).is_none());
}

#[test]
fn shape_keeps_its_parameters_and_base() {
    let mut aggregate = ShapeAggregate::new();
    let added = ShapeEvent::ShapeAdded(ShapeAdded {
        shape_id: s("list"),
        base_shape_id: s("$list"),
        parameters: ShapeParametersDescriptor::StaticParameterList(StaticShapeParametersDescriptor {
            shape_parameter_ids: vec![s("T")],
        }),
        name: s("List"),
        event_context: None,
    });
    assert_eq!(aggregate.apply(added), Ok(None));
    let shape = aggregate.get_state().shape(&s("list")).unwrap();
    assert_eq!(shape.descriptor.base_shape_id, "$list");
    assert!(shape.descriptor.field_ordering.is_empty());
    assert_eq!(
        shape.descriptor.parameters,
        ShapeParametersDescriptor::StaticParameterList(StaticShapeParametersDescriptor {
            shape_parameter_ids: vec![s("T")],
        })
    );
}

#[test]
fn re_adding_a_response_resets_its_body() {
    let done = run(vec![
        response_added("res1", "root", "GET", 200),
        response_body_set("res1", "s1"),
        response_added("res1", "root", "GET", 404),
    ]);
    let response = done.aggregate.get_state().requests.response(&s("res1")).unwrap();
    assert_eq!(response.response_descriptor.body_descriptor, BodyDescriptor::Unset);
    assert_eq!(response.response_descriptor.http_status_code, 404);
}
