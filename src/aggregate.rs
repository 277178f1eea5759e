//! The aggregates, the root that routes events among them, and the replay
//! of an event log.

use vstd::prelude::*;

use crate::aggregate::requests::{apply_requests_event, RequestsAggregate};
use crate::aggregate::rfc::{RfcAggregate, RfcState};
use crate::aggregate::shape::{apply_shape_event, ShapeAggregate};
use crate::events::OpticEvent;
use crate::state::requests::{RequestParameterId, RequestsModel, RequestsState, ResponseId};
use crate::state::shape::{ShapeId, ShapeModel, ShapeState};

pub mod requests;
pub mod rfc;
pub mod shape;

verus! {

/// A report that an event was accepted but that no logic applies it yet.
#[derive(Debug, PartialEq, Eq)]
pub struct Diagnostic {
    pub event_type: &'static str,
    pub aggregate_type: &'static str,
}

/// An event that refers to a record that does not exist; replay cannot go on.
#[derive(Debug, PartialEq, Eq)]
pub enum ApplyError {
    /// A `RequestParameterShapeSet` for a parameter never added.
    UnknownRequestParameter(RequestParameterId),
    /// A `ResponseBodySet` for a response never added.
    UnknownResponse(ResponseId),
    /// A `FieldAdded` for a shape never added.
    UnknownShape(ShapeId),
}

impl ApplyError {
    pub open spec fn kind(&self) -> &'static str {
        match self {
            ApplyError::UnknownRequestParameter(_) => "RequestParameterShapeSet",
            ApplyError::UnknownResponse(_) => "ResponseBodySet",
            ApplyError::UnknownShape(_) => "FieldAdded",
        }
    }

    /// The kind of the event that failed.
    pub fn event_type(&self) -> (r: &'static str)
        ensures
            r == self.kind(),
    {
        match self {
            ApplyError::UnknownRequestParameter(_) => "RequestParameterShapeSet",
            ApplyError::UnknownResponse(_) => "ResponseBodySet",
            ApplyError::UnknownShape(_) => "FieldAdded",
        }
    }

    /// The id that the failed event referred to.
    pub fn id(&self) -> (r: &String)
        ensures
            r == match self {
                ApplyError::UnknownRequestParameter(id) => id,
                ApplyError::UnknownResponse(id) => id,
                ApplyError::UnknownShape(id) => id,
            },
    {
        match self {
            ApplyError::UnknownRequestParameter(id) => id,
            ApplyError::UnknownResponse(id) => id,
            ApplyError::UnknownShape(id) => id,
        }
    }
}

/// A read-only view of the three aggregates' states, borrowed from the root.
#[derive(Debug)]
pub struct OpticState<'a> {
    pub requests: &'a RequestsState,
    pub rfc: &'a RfcState,
    pub shape: &'a ShapeState,
}

/// The root aggregate: routes each event to the aggregate it belongs to.
#[derive(Debug, PartialEq, Eq)]
pub struct OpticAggregate {
    requests: RequestsAggregate,
    rfc: RfcAggregate,
    shape: ShapeAggregate,
}

/// What the root aggregate holds.
pub struct OpticModel {
    pub requests: RequestsModel,
    pub shape: ShapeModel,
}

impl OpticModel {
    pub open spec fn empty() -> OpticModel {
        OpticModel { requests: RequestsModel::empty(), shape: ShapeModel::empty() }
    }
}

/// What applying `event` to a root holding `m` leaves it holding, and what it
/// reports: the event goes to its own aggregate, and the others stay as they
/// were.
pub open spec fn apply_event(m: OpticModel, event: OpticEvent) -> (
    OpticModel,
    Result<Option<Diagnostic>, ApplyError>,
) {
    match event {
        OpticEvent::RequestsEvent(e) => {
            let (requests, r) = apply_requests_event(m.requests, e);
            (OpticModel { requests, ..m }, r)
        },
        OpticEvent::RfcEvent(e) => (
            m,
            Ok(Some(Diagnostic { event_type: e.kind(), aggregate_type: "rfc" })),
        ),
        OpticEvent::ShapeEvent(e) => {
            let (shape, r) = apply_shape_event(m.shape, e);
            (OpticModel { shape, ..m }, r)
        },
    }
}

/// What replaying `events` in order on a fresh root gives: the model it ends
/// with and the reports of unhandled events in order, or the first failure.
pub open spec fn replay_events(events: Seq<OpticEvent>) -> Result<
    (OpticModel, Seq<Diagnostic>),
    ApplyError,
>
    decreases events.len(),
{
    if events.len() == 0 {
        Ok((OpticModel::empty(), Seq::empty()))
    } else {
        match replay_events(events.drop_last()) {
            Err(e) => Err(e),
            Ok((m, diagnostics)) => {
                let (next, r) = apply_event(m, events.last());
                match r {
                    Err(e) => Err(e),
                    Ok(None) => Ok((next, diagnostics)),
                    Ok(Some(d)) => Ok((next, diagnostics.push(d))),
                }
            },
        }
    }
}

impl View for OpticAggregate {
    type V = OpticModel;

    closed spec fn view(&self) -> OpticModel {
        OpticModel { requests: self.requests.state@, shape: self.shape.state@ }
    }
}

impl OpticAggregate {
    pub closed spec fn well_formed(&self) -> bool {
        self.requests.well_formed() && self.shape.well_formed()
    }

    /// A root with empty stores.
    pub fn new() -> (r: Self)
        ensures
            r.well_formed(),
            r@ == OpticModel::empty(),
    {
        OpticAggregate {
            requests: RequestsAggregate::new(),
            rfc: RfcAggregate::new(),
            shape: ShapeAggregate::new(),
        }
    }

    /// The name under which the root reports.
    pub fn aggregate_type() -> (r: &'static str)
        ensures
            r == "optic",
    {
        "optic"
    }

    /// The three states, borrowed for reading.
    pub fn get_state(&self) -> (r: OpticState<'_>)
        requires
            self.well_formed(),
        ensures
            r.requests.well_formed(),
            r.shape.well_formed(),
            r.requests@ == self@.requests,
            r.shape@ == self@.shape,
    {
        OpticState {
            requests: self.requests.get_state(),
            rfc: self.rfc.get_state(),
            shape: self.shape.get_state(),
        }
    }

    /// Routes one event to its aggregate and applies it: see `apply_event`.
    pub fn apply(&mut self, event: OpticEvent) -> (r: Result<Option<Diagnostic>, ApplyError>)
        requires
            old(self).well_formed(),
        ensures
            final(self).well_formed(),
            (final(self)@, r) == apply_event(old(self)@, event),
    {
        match event {
            OpticEvent::RequestsEvent(e) => self.requests.apply(e),
            OpticEvent::RfcEvent(e) => Ok(Some(self.rfc.apply(e))),
            OpticEvent::ShapeEvent(e) => self.shape.apply(e),
        }
    }
}

/// Once a prefix of the log fails, the whole log fails with the same error.
proof fn lemma_replay_failure_persists(events: Seq<OpticEvent>, k: int)
    requires
        0 <= k <= events.len(),
        replay_events(events.take(k)) is Err,
    ensures
        replay_events(events) == replay_events(events.take(k)),
    decreases events.len() - k,
{
    if k < events.len() {
        assert(events.take(k + 1).drop_last() =~= events.take(k));
        lemma_replay_failure_persists(events, k + 1);
    } else {
        assert(events.take(k) =~= events);
    }
}

impl Default for OpticAggregate {
    fn default() -> (r: Self)
        ensures
            r.well_formed(),
            r@ == OpticModel::empty(),
    {
        OpticAggregate::new()
    }
}

/// The outcome of a replay that met no failure.
#[derive(Debug, PartialEq, Eq)]
pub struct Replay {
    pub aggregate: OpticAggregate,
    pub diagnostics: Vec<Diagnostic>,
}

/// Applies `events` in order to a fresh root. Stops at the first event that
/// fails, and returns its error; otherwise returns the root and the reports
/// of unhandled events, in order.
pub fn replay(events: Vec<OpticEvent>) -> (r: Result<Replay, ApplyError>)
    ensures
        r matches Ok(done) ==> done.aggregate.well_formed(),
        r matches Ok(done) ==> replay_events(events@) == Ok::<(OpticModel, Seq<Diagnostic>), ApplyError>(
            (done.aggregate@, done.diagnostics@),
        ),
        r matches Err(e) ==> replay_events(events@) == Err::<(OpticModel, Seq<Diagnostic>), ApplyError>(e),
{
    let ghost all = events@;
    let n: usize = events.len();
    let mut rest = events;
    let mut pending: Vec<OpticEvent> = Vec::new();
    while rest.len() > 0
        invariant
            all == events@,
            rest@.len() + pending@.len() == all.len(),
            rest@ == all.take(rest@.len() as int),
            forall|j: int|
                0 <= j < pending@.len() ==> #[trigger] pending@[j] == all[all.len() - 1 - j],
        decreases rest@.len(),
    {
        let e = rest.pop().unwrap();
        pending.push(e);
        assert(rest@ =~= all.take(rest@.len() as int));
    }
    let mut aggregate = OpticAggregate::new();
    let mut diagnostics: Vec<Diagnostic> = Vec::new();
    let mut i: usize = 0;
    assert(all.take(0) =~= Seq::<OpticEvent>::empty());
    while pending.len() > 0
        invariant
            all == events@,
            i + pending@.len() == all.len(),
            all.len() == n,
            forall|j: int|
                0 <= j < pending@.len() ==> #[trigger] pending@[j] == all[all.len() - 1 - j],
            aggregate.well_formed(),
            replay_events(all.take(i as int)) == Ok::<(OpticModel, Seq<Diagnostic>), ApplyError>(
                (aggregate@, diagnostics@),
            ),
        decreases pending@.len(),
    {
        let e = pending.pop().unwrap();
        assert(e == all[i as int]);
        assert(all.take(i + 1).drop_last() =~= all.take(i as int));
        assert(all.take(i + 1).last() == all[i as int]);
        match aggregate.apply(e) {
            Err(err) => {
                proof {
                    assert(all.take(i + 1).last() == all[i as int]);
                    assert(replay_events(all.take(i + 1)) == Err::<
                        (OpticModel, Seq<Diagnostic>),
                        ApplyError,
                    >(err));
                    lemma_replay_failure_persists(all, i as int + 1);
                    assert(replay_events(all) == Err::<(OpticModel, Seq<Diagnostic>), ApplyError>(err));
                }
                return Err(err);
            },
            Ok(None) => {},
            Ok(Some(d)) => {
                diagnostics.push(d);
            },
        }
        i = i + 1;
    }
    assert(all.take(i as int) =~= all);
    Ok(Replay { aggregate, diagnostics })
}

} // verus!
