//! Properties: one named, cached value with an immutable schema.

use vstd::prelude::*;

verus! {

/// The primitive type that a schema declares for its value.
#[derive(Clone, Copy, Debug, PartialEq, Eq, Structural)]
pub enum ValueType {
    Number,
    Integer,
}

/// Who asks for a property to be written.
#[derive(Clone, Copy, Debug, PartialEq, Eq, Structural)]
pub enum Writer {
    /// The update loop that owns the property: the authoritative producer.
    UpdateLoop,
    /// A write request that came in from outside the process.
    External,
}

/// A write request from outside was aimed at a read-only property.
#[derive(Clone, Copy, Debug, PartialEq, Eq, Structural)]
pub struct ReadOnlyViolation;

/// Mathematical model of a [`Schema`].
pub struct SchemaView {
    pub semantic_type: Seq<char>,
    pub title: Seq<char>,
    pub value_type: ValueType,
    pub description: Seq<char>,
    pub minimum: int,
    pub maximum: int,
    pub unit: Seq<char>,
    pub read_only: bool,
}

impl SchemaView {
    /// The bounds are ordered.
    pub open spec fn valid(self) -> bool {
        self.minimum <= self.maximum
    }
}

/// Metadata of a property, fixed when the property is made.
///
/// `minimum` and `maximum` are in thousandths of `unit`, and
/// `minimum <= maximum` holds of every schema.
#[derive(Debug)]
pub struct Schema {
    semantic_type: String,
    title: String,
    value_type: ValueType,
    description: String,
    minimum: i64,
    maximum: i64,
    unit: String,
    read_only: bool,
}

impl View for Schema {
    type V = SchemaView;

    closed spec fn view(&self) -> SchemaView {
        SchemaView {
            semantic_type: self.semantic_type@,
            title: self.title@,
            value_type: self.value_type,
            description: self.description@,
            minimum: self.minimum as int,
            maximum: self.maximum as int,
            unit: self.unit@,
            read_only: self.read_only,
        }
    }
}

impl Clone for Schema {
    fn clone(&self) -> (copy: Schema)
        ensures
            copy@ == self@,
    {
        proof {
            use_type_invariant(self);
        }
        Schema {
            semantic_type: self.semantic_type.clone(),
            title: self.title.clone(),
            value_type: self.value_type,
            description: self.description.clone(),
            minimum: self.minimum,
            maximum: self.maximum,
            unit: self.unit.clone(),
            read_only: self.read_only,
        }
    }
}

impl Schema {
    #[verifier::type_invariant]
    spec fn ordered_bounds(&self) -> bool {
        self.minimum <= self.maximum
    }

    /// A schema with the given fields; the bounds are in thousandths of `unit`.
    pub fn new(
        semantic_type: String,
        title: String,
        value_type: ValueType,
        description: String,
        minimum: i64,
        maximum: i64,
        unit: String,
        read_only: bool,
    ) -> (schema: Schema)
        requires
            minimum <= maximum,
        ensures
            schema@ == (SchemaView {
                semantic_type: semantic_type@,
                title: title@,
                value_type,
                description: description@,
                minimum: minimum as int,
                maximum: maximum as int,
                unit: unit@,
                read_only,
            }),
    {
        Schema { semantic_type, title, value_type, description, minimum, maximum, unit, read_only }
    }

    pub fn semantic_type(&self) -> (text: &String)
        ensures
            text@ == self@.semantic_type,
    {
        &self.semantic_type
    }

    pub fn title(&self) -> (text: &String)
        ensures
            text@ == self@.title,
    {
        &self.title
    }

    pub fn value_type(&self) -> (value_type: ValueType)
        ensures
            value_type == self@.value_type,
    {
        self.value_type
    }

    pub fn description(&self) -> (text: &String)
        ensures
            text@ == self@.description,
    {
        &self.description
    }

    /// The lower bound, never above the upper one.
    pub fn minimum(&self) -> (bound: i64)
        ensures
            bound == self@.minimum,
            self@.valid(),
    {
        proof {
            use_type_invariant(self);
        }
        self.minimum
    }

    /// The upper bound, never below the lower one.
    pub fn maximum(&self) -> (bound: i64)
        ensures
            bound == self@.maximum,
            self@.valid(),
    {
        proof {
            use_type_invariant(self);
        }
        self.maximum
    }

    pub fn unit(&self) -> (text: &String)
        ensures
            text@ == self@.unit,
    {
        &self.unit
    }

    pub fn is_read_only(&self) -> (flag: bool)
        ensures
            flag == self@.read_only,
    {
        self.read_only
    }
}

/// Mathematical model of a [`Property`].
pub struct PropertyView {
    pub name: Seq<char>,
    pub value: int,
    pub schema: SchemaView,
}

impl PropertyView {
    /// Whether a write by `writer` is let through.
    pub open spec fn admits(self, writer: Writer) -> bool {
        writer == Writer::UpdateLoop || !self.schema.read_only
    }

    /// This property with `value` cached in place of the old value.
    pub open spec fn with_value(self, value: int) -> PropertyView {
        PropertyView { value, ..self }
    }

    /// The cached value lies within the declared bounds.
    pub open spec fn in_bounds(self) -> bool {
        self.schema.minimum <= self.value <= self.schema.maximum
    }
}

/// One named value of a thing: the last value cached for it, in thousandths
/// of the schema's unit, and the schema that describes it.
#[derive(Debug)]
pub struct Property {
    name: String,
    value: i64,
    schema: Schema,
}

impl View for Property {
    type V = PropertyView;

    closed spec fn view(&self) -> PropertyView {
        PropertyView { name: self.name@, value: self.value as int, schema: self.schema@ }
    }
}

impl Clone for Property {
    fn clone(&self) -> (copy: Property)
        ensures
            copy@ == self@,
    {
        proof {
            use_type_invariant(self);
        }
        Property { name: self.name.clone(), value: self.value, schema: self.schema.clone() }
    }
}

impl Property {
    /// Holds of every property: its schema has ordered bounds.
    #[verifier::type_invariant]
    pub open spec fn well_formed(&self) -> bool {
        self@.schema.valid()
    }

    /// A property called `name` that starts out with `initial_value` cached.
    pub fn new(name: String, initial_value: i64, schema: Schema) -> (property: Property)
        ensures
            property@ == (PropertyView {
                name: name@,
                value: initial_value as int,
                schema: schema@,
            }),
    {
        proof {
            use_type_invariant(&schema);
        }
        Property { name, value: initial_value, schema }
    }

    pub fn get_name(&self) -> (name: &String)
        ensures
            name@ == self@.name,
    {
        &self.name
    }

    /// The value that was cached last.
    pub fn get_value(&self) -> (value: i64)
        ensures
            value == self@.value,
    {
        self.value
    }

    pub fn get_metadata(&self) -> (schema: &Schema)
        ensures
            schema@ == self@.schema,
            schema@.valid(),
    {
        proof {
            use_type_invariant(&self.schema);
        }
        &self.schema
    }

    /// Whether a write by `writer` is let through: the update loop may always
    /// write, a request from outside only where the property is not read-only.
    pub fn admits(&self, writer: Writer) -> (admitted: bool)
        ensures
            admitted == self@.admits(writer),
    {
        writer == Writer::UpdateLoop || !self.schema.is_read_only()
    }

    /// Caches `new_value`, whoever asks, and hands back the value cached before.
    pub(crate) fn store(&mut self, new_value: i64) -> (previous: i64)
        ensures
            previous == old(self)@.value,
            final(self)@ == old(self)@.with_value(new_value as int),
        no_unwind
    {
        proof {
            use_type_invariant(&*self);
        }
        let previous = self.value;
        self.value = new_value;
        previous
    }

    /// Caches `new_value` and hands back the value cached before.
    ///
    /// The update loop may always write. A request from outside is turned
    /// away from a read-only property, which then stays as it was.
    pub fn set_cached_value(&mut self, new_value: i64, writer: Writer) -> (outcome: Result<
        i64,
        ReadOnlyViolation,
    >)
        ensures
            match outcome {
                Ok(previous) => {
                    &&& old(self)@.admits(writer)
                    &&& previous == old(self)@.value
                    &&& final(self)@ == old(self)@.with_value(new_value as int)
                },
                Err(_) => !old(self)@.admits(writer) && final(self)@ == old(self)@,
            },
    {
        if self.admits(writer) {
            Ok(self.store(new_value))
        } else {
            Err(ReadOnlyViolation)
        }
    }
}

} // verus!
