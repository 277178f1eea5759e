//! Events on shapes and their fields.

use vstd::prelude::*;

use crate::events::EventContext;
use crate::state::shape::{FieldId, FieldShapeDescriptor, ShapeId, ShapeParametersDescriptor};

verus! {

/// A change to shapes or their fields.
#[derive(Debug, PartialEq, Eq)]
pub enum ShapeEvent {
    ShapeAdded(ShapeAdded),
    BaseShapeSet(BaseShapeSet),
    ShapeRenamed(ShapeRenamed),
    ShapeRemoved(ShapeRemoved),
    FieldAdded(FieldAdded),
    FieldRenamed(FieldRenamed),
    FieldRemoved(FieldRemoved),
}

#[derive(Debug, PartialEq, Eq)]
pub struct ShapeAdded {
    pub shape_id: ShapeId,
    pub base_shape_id: ShapeId,
    pub parameters: ShapeParametersDescriptor,
    pub name: String,
    pub event_context: Option<EventContext>,
}

#[derive(Debug, PartialEq, Eq)]
pub struct BaseShapeSet {
    pub shape_id: ShapeId,
    pub base_shape_id: ShapeId,
    pub event_context: Option<EventContext>,
}

#[derive(Debug, PartialEq, Eq)]
pub struct ShapeRenamed {
    pub shape_id: ShapeId,
    pub name: String,
    pub event_context: Option<EventContext>,
}

#[derive(Debug, PartialEq, Eq)]
pub struct ShapeRemoved {
    pub shape_id: ShapeId,
    pub event_context: Option<EventContext>,
}

#[derive(Debug, PartialEq, Eq)]
pub struct FieldAdded {
    pub field_id: FieldId,
    pub shape_id: ShapeId,
    pub name: String,
    pub shape_descriptor: FieldShapeDescriptor,
    pub event_context: Option<EventContext>,
}

#[derive(Debug, PartialEq, Eq)]
pub struct FieldRenamed {
    pub field_id: FieldId,
    pub name: String,
    pub event_context: Option<EventContext>,
}

#[derive(Debug, PartialEq, Eq)]
pub struct FieldRemoved {
    pub field_id: FieldId,
    pub event_context: Option<EventContext>,
}

impl ShapeEvent {
    /// The name of this event's kind.
    pub open spec fn kind(&self) -> &'static str {
        match self {
            ShapeEvent::ShapeAdded(_) => "ShapeAdded",
            ShapeEvent::BaseShapeSet(_) => "BaseShapeSet",
            ShapeEvent::ShapeRenamed(_) => "ShapeRenamed",
            ShapeEvent::ShapeRemoved(_) => "ShapeRemoved",
            ShapeEvent::FieldAdded(_) => "FieldAdded",
            ShapeEvent::FieldRenamed(_) => "FieldRenamed",
            ShapeEvent::FieldRemoved(_) => "FieldRemoved",
        }
    }

    /// The name of this event's kind.
    pub fn event_type(&self) -> (r: &'static str)
        ensures
            r == self.kind(),
    {
        match self {
            ShapeEvent::ShapeAdded(_) => "ShapeAdded",
            ShapeEvent::BaseShapeSet(_) => "BaseShapeSet",
            ShapeEvent::ShapeRenamed(_) => "ShapeRenamed",
            ShapeEvent::ShapeRemoved(_) => "ShapeRemoved",
            ShapeEvent::FieldAdded(_) => "FieldAdded",
            ShapeEvent::FieldRenamed(_) => "FieldRenamed",
            ShapeEvent::FieldRemoved(_) => "FieldRemoved",
        }
    }
}

} // verus!
