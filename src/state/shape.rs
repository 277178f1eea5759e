//! Shapes (structural types) and their fields.

use vstd::prelude::*;

use crate::id_map::IdMap;

verus! {

pub type ShapeId = String;

pub type FieldId = String;

pub type ShapeParameterId = String;

#[derive(Debug, PartialEq, Eq)]
pub struct ShapeValue {
    pub is_user_defined: bool,
    pub base_shape_id: ShapeId,
    pub parameters: ShapeParametersDescriptor,
    pub field_ordering: Vec<FieldId>,
    pub name: String,
}

#[derive(Debug, PartialEq, Eq)]
pub struct ShapeEntity {
    pub shape_id: ShapeId,
    pub descriptor: ShapeValue,
    pub is_removed: bool,
}

#[derive(Debug, PartialEq, Eq)]
pub struct FieldEntity {
    pub field_id: FieldId,
    pub descriptor: FieldValue,
    pub is_removed: bool,
}

#[derive(Debug, PartialEq, Eq)]
pub struct FieldValue {
    pub shape_id: ShapeId,
    pub shape_descriptor: FieldShapeDescriptor,
    pub name: String,
}

/// The type parameters that a shape declares, if any.
#[derive(Debug, PartialEq, Eq)]
pub enum ShapeParametersDescriptor {
    NoParameterList,
    StaticParameterList(StaticShapeParametersDescriptor),
    DynamicParameterList(DynamicShapeParametersDescriptor),
}

#[derive(Debug, PartialEq, Eq)]
pub struct StaticShapeParametersDescriptor {
    pub shape_parameter_ids: Vec<ShapeParameterId>,
}

#[derive(Debug, PartialEq, Eq)]
pub struct DynamicShapeParametersDescriptor {
    pub shape_parameter_ids: Vec<ShapeParameterId>,
}

/// Where a field's shape comes from: another shape, or a shape parameter.
#[derive(Debug, PartialEq, Eq)]
pub enum FieldShapeDescriptor {
    FieldShapeFromShape(FieldShapeFromShape),
    FieldShapeFromParameter(FieldShapeFromParameter),
}

#[derive(Debug, PartialEq, Eq)]
pub struct FieldShapeFromShape {
    pub field_id: FieldId,
    pub shape_id: ShapeId,
}

#[derive(Debug, PartialEq, Eq)]
pub struct FieldShapeFromParameter {
    pub field_id: FieldId,
    pub shape_parameter_id: ShapeParameterId,
}

/// A shape record, its field ordering taken as a sequence.
pub struct ShapeEntityModel {
    pub shape_id: ShapeId,
    pub is_user_defined: bool,
    pub base_shape_id: ShapeId,
    pub parameters: ShapeParametersDescriptor,
    pub field_ordering: Seq<FieldId>,
    pub name: String,
    pub is_removed: bool,
}

impl View for ShapeEntity {
    type V = ShapeEntityModel;

    open spec fn view(&self) -> ShapeEntityModel {
        ShapeEntityModel {
            shape_id: self.shape_id,
            is_user_defined: self.descriptor.is_user_defined,
            base_shape_id: self.descriptor.base_shape_id,
            parameters: self.descriptor.parameters,
            field_ordering: self.descriptor.field_ordering@,
            name: self.descriptor.name,
            is_removed: self.is_removed,
        }
    }
}

impl ShapeEntityModel {
    /// The same shape with `field_id` appended to its field ordering.
    pub open spec fn with_appended_field_id(self, field_id: FieldId) -> ShapeEntityModel {
        ShapeEntityModel { field_ordering: self.field_ordering.push(field_id), ..self }
    }
}

impl ShapeEntity {
    /// Appends `field_id` to the end of the field ordering; nothing else changes.
    pub fn with_appended_field_id(&mut self, field_id: FieldId)
        ensures
            final(self)@ == old(self)@.with_appended_field_id(field_id),
    {
        self.descriptor.field_ordering.push(field_id);
    }
}

/// The stores of the shape aggregate.
#[derive(Debug, PartialEq, Eq)]
pub struct ShapeState {
    shapes: IdMap<ShapeEntity>,
    fields: IdMap<FieldEntity>,
}

/// What a `ShapeState` holds: each store as a map from id to record.
pub struct ShapeModel {
    pub shapes: Map<Seq<char>, ShapeEntityModel>,
    pub fields: Map<Seq<char>, FieldEntity>,
}

impl ShapeModel {
    pub open spec fn empty() -> ShapeModel {
        ShapeModel { shapes: Map::empty(), fields: Map::empty() }
    }

    /// Stores a live, user-defined shape with no fields under `shape_id`,
    /// replacing any earlier one.
    pub open spec fn with_shape(
        self,
        shape_id: ShapeId,
        base_shape_id: ShapeId,
        parameters: ShapeParametersDescriptor,
        name: String,
    ) -> ShapeModel {
        ShapeModel {
            shapes: self.shapes.insert(
                shape_id@,
                ShapeEntityModel {
                    shape_id,
                    is_user_defined: true,
                    base_shape_id,
                    parameters,
                    field_ordering: Seq::empty(),
                    name,
                    is_removed: false,
                },
            ),
            ..self
        }
    }

    /// Appends `field_id` to the ordering of the shape under `shape_id` and
    /// stores a live field under `field_id`.
    pub open spec fn with_field(
        self,
        field_id: FieldId,
        shape_id: ShapeId,
        name: String,
        shape_descriptor: FieldShapeDescriptor,
    ) -> ShapeModel {
        ShapeModel {
            shapes: self.shapes.insert(
                shape_id@,
                self.shapes[shape_id@].with_appended_field_id(field_id),
            ),
            fields: self.fields.insert(
                field_id@,
                FieldEntity {
                    field_id,
                    descriptor: FieldValue { shape_id, shape_descriptor, name },
                    is_removed: false,
                },
            ),
        }
    }
}

impl View for ShapeState {
    type V = ShapeModel;

    closed spec fn view(&self) -> ShapeModel {
        ShapeModel {
            shapes: self.shapes@.map_values(|e: ShapeEntity| e@),
            fields: self.fields@,
        }
    }
}

impl ShapeState {
    /// Each store is well formed and files every record under its own id.
    pub closed spec fn well_formed(&self) -> bool {
        &&& self.shapes.well_formed()
        &&& self.fields.well_formed()
        &&& forall|k: Seq<char>| #[trigger]
            self.shapes@.contains_key(k) ==> self.shapes@[k].shape_id@ == k
        &&& forall|k: Seq<char>| #[trigger]
            self.fields@.contains_key(k) ==> self.fields@[k].field_id@ == k
    }

    /// Empty stores.
    pub fn new() -> (r: Self)
        ensures
            r.well_formed(),
            r@ == ShapeModel::empty(),
    {
        let r = ShapeState { shapes: IdMap::new(), fields: IdMap::new() };
        assert(r@.shapes =~= Map::empty());
        r
    }

    /// Stores a live, user-defined shape with no fields under `shape_id`; a
    /// shape already stored there is replaced.
    pub fn with_shape(
        &mut self,
        shape_id: ShapeId,
        assigned_shape_id: ShapeId,
        parameters: ShapeParametersDescriptor,
        name: String,
    )
        requires
            old(self).well_formed(),
        ensures
            final(self).well_formed(),
            final(self)@ == old(self)@.with_shape(shape_id, assigned_shape_id, parameters, name),
    {
        let ghost expected = self@.with_shape(shape_id, assigned_shape_id, parameters, name);
        let shape = ShapeEntity {
            shape_id: shape_id.clone(),
            descriptor: ShapeValue {
                is_user_defined: true,
                base_shape_id: assigned_shape_id,
                parameters,
                name,
                field_ordering: Vec::new(),
            },
            is_removed: false,
        };
        proof {
            assert(shape@.field_ordering =~= Seq::empty());
        }
        self.shapes.insert(shape_id, shape);
        assert(self@.shapes =~= expected.shapes);
        assert(self@ == expected);
    }

    /// Appends `field_id` to the field ordering of the shape under
    /// `shape_id`, which must exist, and stores a live field under `field_id`.
    pub fn with_field(
        &mut self,
        field_id: FieldId,
        shape_id: ShapeId,
        name: String,
        shape_descriptor: FieldShapeDescriptor,
    )
        requires
            old(self).well_formed(),
            old(self)@.shapes.contains_key(shape_id@),
        ensures
            final(self).well_formed(),
            final(self)@ == old(self)@.with_field(field_id, shape_id, name, shape_descriptor),
    {
        let ghost expected = self@.with_field(field_id, shape_id, name, shape_descriptor);
        let mut shape = self.shapes.take(&shape_id);
        shape.with_appended_field_id(field_id.clone());
        self.shapes.insert(shape_id.clone(), shape);
        self.fields.insert(
            field_id.clone(),
            FieldEntity {
                field_id: field_id,
                descriptor: FieldValue { shape_id, shape_descriptor, name },
                is_removed: false,
            },
        );
        assert(self@.shapes =~= expected.shapes);
        assert(self@.fields =~= expected.fields);
        assert(self@ == expected);
    }

    /// The shape stored under `shape_id`, if any.
    pub fn shape(&self, shape_id: &ShapeId) -> (r: Option<&ShapeEntity>)
        requires
            self.well_formed(),
        ensures
            match r {
                Some(s) => self@.shapes.contains_key(shape_id@) && s@ == self@.shapes[shape_id@],
                None => !self@.shapes.contains_key(shape_id@),
            },
    {
        self.shapes.get(shape_id)
    }

    /// The field stored under `field_id`, if any.
    pub fn field(&self, field_id: &FieldId) -> (r: Option<&FieldEntity>)
        requires
            self.well_formed(),
        ensures
            match r {
                Some(f) => self@.fields.contains_key(field_id@) && *f == self@.fields[field_id@],
                None => !self@.fields.contains_key(field_id@),
            },
    {
        self.fields.get(field_id)
    }
}

} // verus!
