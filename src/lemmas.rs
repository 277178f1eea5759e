//! Laws of the projection, proved over the models that the executable
//! functions' contracts speak of.

use vstd::prelude::*;

use crate::aggregate::{apply_event, replay_events, ApplyError, Diagnostic, OpticModel};
use crate::events::requests::{
    PathComponentAdded, PathComponentRenamed, RequestParameterShapeSet,
    ResponseAddedByPathAndMethod, ResponseBodySet, RequestsEvent,
};
use crate::events::shape::{FieldAdded, ShapeAdded, ShapeEvent};
use crate::events::OpticEvent;
use crate::state::requests::{BodyDescriptor, RequestParameterShapeDescriptor};

verus! {

/// Replaying one log twice gives the same outcome: the same model, the same
/// reports, or the same failure.
pub proof fn replay_is_deterministic(a: Seq<OpticEvent>, b: Seq<OpticEvent>)
    requires
        a == b,
    ensures
        replay_events(a) == replay_events(b),
{
}

/// Two `FieldAdded` events on a shape that exists append their field ids to
/// its field ordering in the order in which the events come.
pub proof fn fields_are_ordered_as_added(m: OpticModel, f1: FieldAdded, f2: FieldAdded)
    requires
        m.shape.shapes.contains_key(f1.shape_id@),
        f2.shape_id@ == f1.shape_id@,
    ensures
        ({
            let (m1, r1) = apply_event(m, OpticEvent::ShapeEvent(ShapeEvent::FieldAdded(f1)));
            let (m2, r2) = apply_event(m1, OpticEvent::ShapeEvent(ShapeEvent::FieldAdded(f2)));
            &&& r1 == Ok::<Option<Diagnostic>, ApplyError>(None)
            &&& r2 == Ok::<Option<Diagnostic>, ApplyError>(None)
            &&& m2.shape.shapes[f1.shape_id@].field_ordering == m.shape.shapes[f1.shape_id@].field_ordering
                + seq![f1.field_id, f2.field_id]
        }),
{
    let (m1, r1) = apply_event(m, OpticEvent::ShapeEvent(ShapeEvent::FieldAdded(f1)));
    assert(m.shape.shapes[f1.shape_id@].field_ordering.push(f1.field_id).push(f2.field_id)
        =~= m.shape.shapes[f1.shape_id@].field_ordering + seq![f1.field_id, f2.field_id]);
}

/// A fresh shape followed by `FieldAdded` for `f1` then `f2` has the field
/// ordering `[f1, f2]`; the other order gives `[f2, f1]`.
pub proof fn new_shape_field_order(s: ShapeAdded, f1: FieldAdded, f2: FieldAdded)
    requires
        f1.shape_id@ == s.shape_id@,
        f2.shape_id@ == s.shape_id@,
    ensures
        ({
            let add = OpticEvent::ShapeEvent(ShapeEvent::ShapeAdded(s));
            let a1 = OpticEvent::ShapeEvent(ShapeEvent::FieldAdded(f1));
            let a2 = OpticEvent::ShapeEvent(ShapeEvent::FieldAdded(f2));
            &&& replay_events(seq![add, a1, a2]) matches Ok((m, _))
                && m.shape.shapes[s.shape_id@].field_ordering == seq![f1.field_id, f2.field_id]
            &&& replay_events(seq![add, a2, a1]) matches Ok((m, _))
                && m.shape.shapes[s.shape_id@].field_ordering == seq![f2.field_id, f1.field_id]
        }),
{
    let add = OpticEvent::ShapeEvent(ShapeEvent::ShapeAdded(s));
    let a1 = OpticEvent::ShapeEvent(ShapeEvent::FieldAdded(f1));
    let a2 = OpticEvent::ShapeEvent(ShapeEvent::FieldAdded(f2));
    let forward = seq![add, a1, a2];
    let backward = seq![add, a2, a1];
    assert(forward.drop_last() =~= seq![add, a1]);
    assert(seq![add, a1].drop_last() =~= seq![add]);
    assert(seq![add].drop_last() =~= Seq::<OpticEvent>::empty());
    assert(backward.drop_last() =~= seq![add, a2]);
    assert(seq![add, a2].drop_last() =~= seq![add]);
    let m0 = OpticModel::empty();
    let (m1, _) = apply_event(m0, add);
    fields_are_ordered_as_added(m1, f1, f2);
    fields_are_ordered_as_added(m1, f2, f1);
    let none = Seq::<Diagnostic>::empty();
    assert(replay_events(Seq::<OpticEvent>::empty()) == Ok::<_, ApplyError>((m0, none)));
    assert(replay_events(seq![add]) == Ok::<_, ApplyError>((m1, none)));
    let (f, _) = apply_event(m1, a1);
    let (b, _) = apply_event(m1, a2);
    assert(replay_events(seq![add, a1]) == Ok::<_, ApplyError>((f, none)));
    assert(replay_events(seq![add, a2]) == Ok::<_, ApplyError>((b, none)));
    assert(replay_events(forward) == Ok::<_, ApplyError>((apply_event(f, a2).0, none)));
    assert(replay_events(backward) == Ok::<_, ApplyError>((apply_event(b, a1).0, none)));
    assert(Seq::<String>::empty() + seq![f1.field_id, f2.field_id] =~= seq![f1.field_id, f2.field_id]);
    assert(Seq::<String>::empty() + seq![f2.field_id, f1.field_id] =~= seq![f2.field_id, f1.field_id]);
}

/// A response just added has an unset body; a `ResponseBodySet` for it then
/// gives it the shaped body that the event carries.
pub proof fn response_body_becomes_shaped(
    m: OpticModel,
    added: ResponseAddedByPathAndMethod,
    set: ResponseBodySet,
)
    requires
        set.response_id@ == added.response_id@,
    ensures
        ({
            let (m1, r1) = apply_event(
                m,
                OpticEvent::RequestsEvent(RequestsEvent::ResponseAddedByPathAndMethod(added)),
            );
            let (m2, r2) = apply_event(
                m1,
                OpticEvent::RequestsEvent(RequestsEvent::ResponseBodySet(set)),
            );
            &&& r1 == Ok::<Option<Diagnostic>, ApplyError>(None)
            &&& r2 == Ok::<Option<Diagnostic>, ApplyError>(None)
            &&& m1.requests.responses[added.response_id@].response_descriptor.body_descriptor
                == BodyDescriptor::Unset
            &&& m2.requests.responses[added.response_id@].response_descriptor.body_descriptor
                == BodyDescriptor::Shaped(set.body_descriptor)
        }),
{
}

/// No event other than re-adding the same response leaves a shaped response
/// body unset; likewise for the shape of a request parameter.
pub proof fn shaped_stays_shaped(m: OpticModel, event: OpticEvent, id: Seq<char>)
    requires
        !(event matches OpticEvent::RequestsEvent(
            RequestsEvent::ResponseAddedByPathAndMethod(e),
        ) && e.response_id@ == id),
        !(event matches OpticEvent::RequestsEvent(
            RequestsEvent::RequestParameterAddedByPathAndMethod(e),
        ) && e.parameter_id@ == id),
    ensures
        ({
            let next = apply_event(m, event).0;
            &&& m.requests.responses.contains_key(id)
                && m.requests.responses[id].response_descriptor.body_descriptor is Shaped
                ==> next.requests.responses.contains_key(id)
                && next.requests.responses[id].response_descriptor.body_descriptor is Shaped
            &&& m.requests.request_parameters.contains_key(id)
                && m.requests.request_parameters[id].request_parameter_descriptor.shape_descriptor is Shaped
                ==> next.requests.request_parameters.contains_key(id)
                && next.requests.request_parameters[id].request_parameter_descriptor.shape_descriptor is Shaped
        }),
{
}

/// A second `PathComponentAdded` for the same id replaces the first: the
/// component then has the second event's name and parent.
pub proof fn path_component_last_write_wins(
    m: OpticModel,
    first: PathComponentAdded,
    second: PathComponentAdded,
)
    requires
        first.path_id@ == second.path_id@,
    ensures
        ({
            let (m1, _) = apply_event(
                m,
                OpticEvent::RequestsEvent(RequestsEvent::PathComponentAdded(first)),
            );
            let (m2, _) = apply_event(
                m1,
                OpticEvent::RequestsEvent(RequestsEvent::PathComponentAdded(second)),
            );
            &&& m2.requests.path_components[first.path_id@].descriptor.name == second.name
            &&& m2.requests.path_components[first.path_id@].descriptor.parent_path_id
                == second.parent_path_id
        }),
{
}

/// Whether `event` adds a request parameter under `id`.
pub open spec fn adds_parameter(event: OpticEvent, id: Seq<char>) -> bool {
    event matches OpticEvent::RequestsEvent(
        RequestsEvent::RequestParameterAddedByPathAndMethod(e),
    ) && e.parameter_id@ == id
}

/// A request parameter is known only if an event of the log added it.
proof fn lemma_parameter_was_added(events: Seq<OpticEvent>, id: Seq<char>)
    requires
        replay_events(events) is Ok,
        replay_events(events)->Ok_0.0.requests.request_parameters.contains_key(id),
    ensures
        exists|i: int|
            0 <= i < events.len() && adds_parameter(#[trigger] events[i], id),
    decreases events.len(),
{
    let prefix = events.drop_last();
    let last = events.last();
    if adds_parameter(last, id) {
        assert(events[events.len() - 1] == last);
    } else {
        lemma_parameter_was_added(prefix, id);
        let i = choose|i: int|
            0 <= i < prefix.len() && adds_parameter(#[trigger] prefix[i], id);
        assert(events[i] == prefix[i]);
    }
}

/// Setting the shape of a request parameter that no earlier event added
/// fails with an error naming that parameter, unless the log failed before.
pub proof fn unknown_parameter_shape_set_fails(
    before: Seq<OpticEvent>,
    set: RequestParameterShapeSet,
)
    requires
        forall|i: int|
            0 <= i < before.len() ==> !adds_parameter(#[trigger] before[i], set.parameter_id@),
    ensures
        replay_events(
            before.push(OpticEvent::RequestsEvent(RequestsEvent::RequestParameterShapeSet(set))),
        ) == match replay_events(before) {
            Err(e) => Err(e),
            Ok(_) => Err::<(OpticModel, Seq<Diagnostic>), ApplyError>(
                ApplyError::UnknownRequestParameter(set.parameter_id),
            ),
        },
{
    let all = before.push(OpticEvent::RequestsEvent(RequestsEvent::RequestParameterShapeSet(set)));
    assert(all.drop_last() =~= before);
    if replay_events(before) is Ok {
        if replay_events(before)->Ok_0.0.requests.request_parameters.contains_key(
            set.parameter_id@,
        ) {
            lemma_parameter_was_added(before, set.parameter_id@);
        }
    }
}

/// A `PathComponentRenamed` changes nothing and is reported once, as an
/// unhandled event of the requests aggregate.
pub proof fn path_component_renamed_is_reported(
    m: OpticModel,
    before: Seq<OpticEvent>,
    renamed: PathComponentRenamed,
)
    ensures
        apply_event(m, OpticEvent::RequestsEvent(RequestsEvent::PathComponentRenamed(renamed)))
            == (m, Ok::<Option<Diagnostic>, ApplyError>(
            Some(Diagnostic { event_type: "PathComponentRenamed", aggregate_type: "requests" }),
        )),
        replay_events(
            before.push(OpticEvent::RequestsEvent(RequestsEvent::PathComponentRenamed(renamed))),
        ) == match replay_events(before) {
            Err(e) => Err(e),
            Ok((model, reports)) => Ok::<(OpticModel, Seq<Diagnostic>), ApplyError>(
                (
                    model,
                    reports.push(
                        Diagnostic { event_type: "PathComponentRenamed", aggregate_type: "requests" },
                    ),
                ),
            ),
        },
{
    let all = before.push(OpticEvent::RequestsEvent(RequestsEvent::PathComponentRenamed(renamed)));
    assert(all.drop_last() =~= before);
}

} // verus!
