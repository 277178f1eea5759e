//! The aggregate that owns shapes and their fields.

use vstd::prelude::*;

use crate::aggregate::{ApplyError, Diagnostic};
use crate::events::shape::ShapeEvent;
use crate::state::shape::{ShapeModel, ShapeState};

verus! {

#[derive(Debug, PartialEq, Eq)]
pub struct ShapeAggregate {
    pub state: ShapeState,
}

/// What applying `event` to stores holding `m` leaves them holding, and what
/// it reports.
///
/// Adding a shape or a field changes the stores; adding a field to an
/// unknown shape fails and changes nothing. Every other kind changes nothing
/// and is reported as unhandled.
pub open spec fn apply_shape_event(m: ShapeModel, event: ShapeEvent) -> (
    ShapeModel,
    Result<Option<Diagnostic>, ApplyError>,
) {
    match event {
        ShapeEvent::ShapeAdded(e) => (
            m.with_shape(e.shape_id, e.base_shape_id, e.parameters, e.name),
            Ok(None),
        ),
        ShapeEvent::FieldAdded(e) => {
            if m.shapes.contains_key(e.shape_id@) {
                (m.with_field(e.field_id, e.shape_id, e.name, e.shape_descriptor), Ok(None))
            } else {
                (m, Err(ApplyError::UnknownShape(e.shape_id)))
            }
        },
        _ => (m, Ok(Some(Diagnostic { event_type: event.kind(), aggregate_type: "shape" }))),
    }
}

impl ShapeAggregate {
    pub open spec fn well_formed(&self) -> bool {
        self.state.well_formed()
    }

    /// An aggregate with empty stores.
    pub fn new() -> (r: Self)
        ensures
            r.well_formed(),
            r.state@ == ShapeModel::empty(),
    {
        ShapeAggregate { state: ShapeState::new() }
    }

    /// The name under which this aggregate reports.
    pub fn aggregate_type() -> (r: &'static str)
        ensures
            r == "shape",
    {
        "shape"
    }

    /// The stores, for reading.
    pub fn get_state(&self) -> (r: &ShapeState)
        ensures
            r == &self.state,
    {
        &self.state
    }

    /// Applies one event: see `apply_shape_event`.
    pub fn apply(&mut self, event: ShapeEvent) -> (r: Result<Option<Diagnostic>, ApplyError>)
        requires
            old(self).well_formed(),
        ensures
            final(self).well_formed(),
            (final(self).state@, r) == apply_shape_event(old(self).state@, event),
    {
        let kind = event.event_type();
        let state = &mut self.state;
        match event {
            ShapeEvent::ShapeAdded(e) => {
                state.with_shape(e.shape_id, e.base_shape_id, e.parameters, e.name);
                Ok(None)
            },
            ShapeEvent::FieldAdded(e) => {
                if state.shape(&e.shape_id).is_some() {
                    state.with_field(e.field_id, e.shape_id, e.name, e.shape_descriptor);
                    Ok(None)
                } else {
                    Err(ApplyError::UnknownShape(e.shape_id))
                }
            },
            _ => Ok(Some(Diagnostic { event_type: kind, aggregate_type: ShapeAggregate::aggregate_type() })),
        }
    }
}

} // verus!
