//! Things: descriptive metadata and an ordered set of uniquely named properties.

use vstd::prelude::*;
use crate::property::Property;
use crate::property::PropertyView;
use crate::property::ReadOnlyViolation;
use crate::property::Writer;
use crate::text::same_text;

verus! {

/// A property was offered to a thing that already has one of that name.
#[derive(Clone, Copy, Debug, PartialEq, Eq, Structural)]
pub struct DuplicateName;

/// Mathematical model of a [`Thing`]: its properties in insertion order.
pub struct ThingView {
    pub title: Seq<char>,
    pub type_tags: Seq<Seq<char>>,
    pub description: Seq<char>,
    pub properties: Seq<PropertyView>,
}

impl ThingView {
    /// No two properties share a name.
    pub open spec fn unique_names(self) -> bool {
        forall|i: int, j: int|
            0 <= i < j < self.properties.len() ==> (#[trigger] self.properties[i]).name != (
            #[trigger] self.properties[j]).name
    }

    /// Names are unique and every schema has ordered bounds.
    pub open spec fn valid(self) -> bool {
        &&& self.unique_names()
        &&& forall|i: int|
            0 <= i < self.properties.len() ==> (#[trigger] self.properties[i]).schema.valid()
    }

    /// Whether position `i` holds the property called `name`.
    pub open spec fn names(self, i: int, name: Seq<char>) -> bool {
        0 <= i < self.properties.len() && self.properties[i].name == name
    }

    pub open spec fn has_property(self, name: Seq<char>) -> bool {
        exists|i: int| self.names(i, name)
    }

    /// The position of the property called `name`, where there is one.
    pub open spec fn index_of(self, name: Seq<char>) -> int {
        choose|i: int| self.names(i, name)
    }

    /// The property called `name`, if the thing has one.
    pub open spec fn find(self, name: Seq<char>) -> Option<PropertyView> {
        if self.has_property(name) {
            Some(self.properties[self.index_of(name)])
        } else {
            None
        }
    }

    /// The value cached for `name`, if the thing has such a property.
    pub open spec fn value_of(self, name: Seq<char>) -> Option<int> {
        match self.find(name) {
            Some(property) => Some(property.value),
            None => None,
        }
    }

    /// This thing with `value` cached for `name`; unchanged where no
    /// property has that name.
    pub open spec fn with_value(self, name: Seq<char>, value: int) -> ThingView {
        if self.has_property(name) {
            ThingView {
                properties: self.properties.update(
                    self.index_of(name),
                    self.properties[self.index_of(name)].with_value(value),
                ),
                ..self
            }
        } else {
            self
        }
    }

    /// This thing with `property` appended after the properties it has.
    pub open spec fn with_property(self, property: PropertyView) -> ThingView {
        ThingView { properties: self.properties.push(property), ..self }
    }
}

/// Where names are unique, the position that holds `name` is the one that
/// `index_of` picks.
pub proof fn lemma_index_of(thing: ThingView, i: int, name: Seq<char>)
    requires
        thing.unique_names(),
        thing.names(i, name),
    ensures
        thing.has_property(name),
        thing.index_of(name) == i,
{
    // Two positions that hold one name would be two properties of one name.
    assert(thing.names(thing.index_of(name), name));
}

/// Caching a value moves no property and renames none: every position holds
/// the same name and schema as before, and the thing stays valid.
pub proof fn lemma_with_value_keeps_shape(thing: ThingView, name: Seq<char>, value: int)
    requires
        thing.valid(),
    ensures
        thing.with_value(name, value).valid(),
        thing.with_value(name, value).properties.len() == thing.properties.len(),
        forall|i: int|
            0 <= i < thing.properties.len() ==> {
                &&& (#[trigger] thing.with_value(name, value).properties[i]).name
                    == thing.properties[i].name
                &&& thing.with_value(name, value).properties[i].schema == thing.properties[i].schema
            },
        forall|i: int, other: Seq<char>|
            thing.names(i, other) <==> #[trigger] thing.with_value(name, value).names(i, other),
{
    let after = thing.with_value(name, value);
    assert forall|i: int| 0 <= i < thing.properties.len() implies {
        &&& (#[trigger] after.properties[i]).name == thing.properties[i].name
        &&& after.properties[i].schema == thing.properties[i].schema
    } by {}
}

/// Round trip: once `value` is cached for a property, that value is what is
/// read of it, and what is read of any other property is what it was. Reads
/// take the thing as it is and change nothing, so reads of other properties
/// in between make no difference.
pub proof fn lemma_round_trip(thing: ThingView, name: Seq<char>, value: int, other: Seq<char>)
    requires
        thing.valid(),
    ensures
        thing.with_value(name, value).has_property(other) == thing.has_property(other),
        thing.has_property(name) ==> thing.with_value(name, value).value_of(name) == Some(value),
        thing.has_property(name) ==> thing.with_value(name, value).find(name) == Some(
            thing.find(name)->0.with_value(value),
        ),
        other != name ==> thing.with_value(name, value).find(other) == thing.find(other),
{
    let after = thing.with_value(name, value);
    lemma_with_value_keeps_shape(thing, name, value);
    if thing.has_property(other) {
        // The position that held `other` before holds it afterwards.
        lemma_index_of(after, thing.index_of(other), other);
    } else if after.has_property(other) {
        assert(thing.names(after.index_of(other), other));
    }
    if thing.has_property(name) {
        lemma_index_of(after, thing.index_of(name), name);
    }
}

/// An entity that owns uniquely named properties, kept in the order in which
/// they were added, with a title, capability tags and a description that stay
/// as they were given.
#[derive(Debug)]
pub struct Thing {
    title: String,
    type_tags: Vec<String>,
    description: String,
    properties: Vec<Property>,
}

impl View for Thing {
    type V = ThingView;

    closed spec fn view(&self) -> ThingView {
        ThingView {
            title: self.title@,
            type_tags: Seq::new(self.type_tags@.len(), |i: int| self.type_tags@[i]@),
            description: self.description@,
            properties: Seq::new(self.properties@.len(), |i: int| self.properties@[i]@),
        }
    }
}

impl Clone for Thing {
    fn clone(&self) -> (copy: Thing)
        ensures
            copy@ == self@,
    {
        proof {
            use_type_invariant(self);
        }
        let mut type_tags: Vec<String> = Vec::new();
        let mut i: usize = 0;
        while i < self.type_tags.len()
            invariant
                i <= self.type_tags@.len(),
                type_tags@.len() == i,
                forall|k: int| 0 <= k < i ==> (#[trigger] type_tags@[k])@ == self.type_tags@[k]@,
            decreases self.type_tags@.len() - i,
        {
            type_tags.push(self.type_tags[i].clone());
            i += 1;
        }
        let mut properties: Vec<Property> = Vec::new();
        let mut j: usize = 0;
        while j < self.properties.len()
            invariant
                j <= self.properties@.len(),
                properties@.len() == j,
                forall|k: int| 0 <= k < j ==> (#[trigger] properties@[k])@ == self.properties@[k]@,
            decreases self.properties@.len() - j,
        {
            properties.push(self.properties[j].clone());
            j += 1;
        }
        proof {
            assert forall|a: int, b: int| 0 <= a < b < properties@.len() implies (
            #[trigger] properties@[a])@.name != (#[trigger] properties@[b])@.name by {
                assert(self@.properties[a] == properties@[a]@);
                assert(self@.properties[b] == properties@[b]@);
            }
            assert forall|k: int| 0 <= k < properties@.len() implies (
            #[trigger] properties@[k])@.schema.valid() by {
                assert(self@.properties[k] == properties@[k]@);
            }
        }
        let copy = Thing {
            title: self.title.clone(),
            type_tags,
            description: self.description.clone(),
            properties,
        };
        proof {
            assert(copy@.type_tags =~= self@.type_tags);
            assert(copy@.properties =~= self@.properties);
        }
        copy
    }
}

impl Thing {
    /// Holds of every thing: names are unique and schemas have ordered bounds.
    #[verifier::type_invariant]
    pub open spec fn well_formed(&self) -> bool {
        self@.valid()
    }

    /// A thing without properties. A missing tag list stands for no tags, a
    /// missing description for the empty one.
    pub fn new(
        title: String,
        type_tags: Option<Vec<String>>,
        description: Option<String>,
    ) -> (thing: Thing)
        ensures
            thing@.title == title@,
            thing@.type_tags == match type_tags {
                Some(tags) => Seq::new(tags@.len(), |i: int| tags@[i]@),
                None => Seq::<Seq<char>>::empty(),
            },
            thing@.description == match description {
                Some(text) => text@,
                None => Seq::<char>::empty(),
            },
            thing@.properties == Seq::<PropertyView>::empty(),
            thing@.valid(),
    {
        let type_tags = match type_tags {
            Some(tags) => tags,
            None => Vec::new(),
        };
        let description = match description {
            Some(text) => text,
            None => String::new(),
        };
        Thing { title, type_tags, description, properties: Vec::new() }
    }

    pub fn get_title(&self) -> (title: &String)
        ensures
            title@ == self@.title,
    {
        &self.title
    }

    /// The capability tags, in the order in which they were given.
    pub fn get_type(&self) -> (tags: &Vec<String>)
        ensures
            tags@.len() == self@.type_tags.len(),
            forall|i: int| 0 <= i < tags@.len() ==> (#[trigger] tags@[i])@ == self@.type_tags[i],
    {
        &self.type_tags
    }

    pub fn get_description(&self) -> (description: &String)
        ensures
            description@ == self@.description,
    {
        &self.description
    }

    /// The properties in the order in which they were added.
    pub fn properties(&self) -> (properties: &Vec<Property>)
        ensures
            properties@.len() == self@.properties.len(),
            forall|i: int|
                0 <= i < properties@.len() ==> (#[trigger] properties@[i])@ == self@.properties[i],
            self@.valid(),
    {
        proof {
            use_type_invariant(self);
        }
        &self.properties
    }

    /// The position of the property called `name`.
    fn position(&self, name: &str) -> (found: Option<usize>)
        ensures
            self@.valid(),
            match found {
                Some(i) => self@.names(i as int, name@) && self@.index_of(name@) == i,
                None => !self@.has_property(name@),
            },
    {
        proof {
            use_type_invariant(self);
        }
        let mut i: usize = 0;
        while i < self.properties.len()
            invariant
                i <= self.properties@.len(),
                self@.properties.len() == self.properties@.len(),
                forall|k: int| 0 <= k < i ==> !self@.names(k, name@),
                forall|k: int|
                    0 <= k < self.properties@.len() ==> self@.properties[k] == (
                    #[trigger] self.properties@[k])@,
                self@.valid(),
            decreases self.properties@.len() - i,
        {
            if same_text(self.properties[i].get_name().as_str(), name) {
                proof {
                    lemma_index_of(self@, i as int, name@);
                }
                return Some(i);
            }
            i += 1;
        }
        None
    }

    /// Appends `property`, unless a property of that name is there already:
    /// then the thing stays as it was.
    pub fn add_property(&mut self, property: Property) -> (outcome: Result<(), DuplicateName>)
        ensures
            final(self)@.valid(),
            match outcome {
                Ok(_) => {
                    &&& !old(self)@.has_property(property@.name)
                    &&& final(self)@ == old(self)@.with_property(property@)
                },
                Err(_) => old(self)@.has_property(property@.name) && final(self)@ == old(self)@,
            },
    {
        if self.position(property.get_name().as_str()).is_some() {
            return Err(DuplicateName);
        }
        proof {
            use_type_invariant(&property);
        }
        let ghost before = self@;
        let mut properties: Vec<Property> = Vec::new();
        core::mem::swap(&mut self.properties, &mut properties);
        properties.push(property);
        proof {
            assert forall|i: int, j: int| 0 <= i < j < properties@.len() implies (
            #[trigger] properties@[i])@.name != (#[trigger] properties@[j])@.name by {
                if j == before.properties.len() {
                    assert(!before.names(i, property@.name));
                } else {
                    assert(before.properties[j] == properties@[j]@);
                }
            }
            assert forall|i: int| 0 <= i < properties@.len() implies (
            #[trigger] properties@[i])@.schema.valid() by {
                if i < before.properties.len() {
                    assert(before.properties[i] == properties@[i]@);
                }
            }
        }
        core::mem::swap(&mut self.properties, &mut properties);
        proof {
            assert(self@.properties =~= before.properties.push(property@));
        }
        Ok(())
    }

    /// The property called `name`, if the thing has one.
    pub fn find_property(&self, name: &str) -> (found: Option<&Property>)
        ensures
            match found {
                Some(property) => self@.find(name@) == Some(property@),
                None => self@.find(name@) is None,
            },
    {
        match self.position(name) {
            Some(i) => Some(&self.properties[i]),
            None => None,
        }
    }

    pub fn has_property(&self, name: &str) -> (has: bool)
        ensures
            has == self@.has_property(name@),
    {
        self.position(name).is_some()
    }

    /// The value cached for the property called `name`.
    pub fn get_property(&self, name: &str) -> (value: Option<i64>)
        ensures
            match value {
                Some(v) => self@.value_of(name@) == Some(v as int),
                None => self@.value_of(name@) is None,
            },
    {
        match self.position(name) {
            Some(i) => Some(self.properties[i].get_value()),
            None => None,
        }
    }

    /// The names of the properties in the order in which they were added; no
    /// name comes twice.
    pub fn property_names(&self) -> (names: Vec<String>)
        ensures
            names@.len() == self@.properties.len(),
            forall|i: int|
                0 <= i < names@.len() ==> (#[trigger] names@[i])@ == self@.properties[i].name,
            forall|i: int, j: int|
                0 <= i < j < names@.len() ==> (#[trigger] names@[i])@ != (#[trigger] names@[j])@,
    {
        proof {
            use_type_invariant(self);
        }
        let mut names: Vec<String> = Vec::new();
        let mut i: usize = 0;
        while i < self.properties.len()
            invariant
                i <= self.properties@.len(),
                names@.len() == i,
                self@.properties.len() == self.properties@.len(),
                forall|k: int| 0 <= k < i ==> (#[trigger] names@[k])@ == self@.properties[k].name,
                forall|k: int|
                    0 <= k < self.properties@.len() ==> self@.properties[k] == (
                    #[trigger] self.properties@[k])@,
            decreases self.properties@.len() - i,
        {
            names.push(self.properties[i].get_name().clone());
            i += 1;
        }
        names
    }

    /// Caches `value` at position `i` and hands back the value cached before.
    fn store_at(&mut self, i: usize, value: i64) -> (previous: i64)
        requires
            i < old(self)@.properties.len(),
        ensures
            final(self)@.valid(),
            previous == old(self)@.properties[i as int].value,
            final(self)@ == (ThingView {
                properties: old(self)@.properties.update(
                    i as int,
                    old(self)@.properties[i as int].with_value(value as int),
                ),
                ..old(self)@
            }),
    {
        proof {
            use_type_invariant(&*self);
        }
        let ghost before = self@;
        let mut properties: Vec<Property> = Vec::new();
        core::mem::swap(&mut self.properties, &mut properties);
        let previous = properties[i].store(value);
        proof {
            assert forall|k: int| 0 <= k < properties@.len() implies (
            #[trigger] properties@[k])@.name == before.properties[k].name && properties@[k]@.schema
                == before.properties[k].schema by {}
        }
        core::mem::swap(&mut self.properties, &mut properties);
        proof {
            assert(self@.properties =~= before.properties.update(
                i as int,
                before.properties[i as int].with_value(value as int),
            ));
        }
        previous
    }

    /// The update loop's write: caches `value` for the property called `name`
    /// and hands back the value cached before, or nothing where the thing has
    /// no such property and stays as it was. No other property changes.
    pub fn commit(&mut self, name: &str, value: i64) -> (previous: Option<i64>)
        ensures
            final(self)@.valid(),
            final(self)@ == old(self)@.with_value(name@, value as int),
            match previous {
                Some(cached) => {
                    &&& old(self)@.value_of(name@) == Some(cached as int)
                    &&& final(self)@.value_of(name@) == Some(value as int)
                },
                None => old(self)@.value_of(name@) is None,
            },
    {
        proof {
            use_type_invariant(&*self);
            lemma_round_trip(self@, name@, value as int, name@);
        }
        match self.position(name) {
            Some(i) => Some(self.store_at(i, value)),
            None => None,
        }
    }

    /// Caches `new_value` for the property called `name` and hands back the
    /// value cached before, or nothing where the thing has no such property.
    ///
    /// A request from outside to write a read-only property is turned away.
    /// In that case, and where the property is missing, the thing stays as it
    /// was. No other property changes in any case.
    pub fn set_cached_value(&mut self, name: &str, new_value: i64, writer: Writer) -> (outcome:
        Result<Option<i64>, ReadOnlyViolation>)
        ensures
            final(self)@.valid(),
            match outcome {
                Ok(Some(previous)) => {
                    &&& old(self)@.find(name@) matches Some(property)
                    &&& property.admits(writer)
                    &&& previous == property.value
                    &&& final(self)@ == old(self)@.with_value(name@, new_value as int)
                    &&& final(self)@.value_of(name@) == Some(new_value as int)
                },
                Ok(None) => old(self)@.find(name@) is None && final(self)@ == old(self)@,
                Err(_) => {
                    &&& old(self)@.find(name@) matches Some(property)
                    &&& !property.admits(writer)
                    &&& final(self)@ == old(self)@
                },
            },
    {
        proof {
            use_type_invariant(&*self);
            lemma_round_trip(self@, name@, new_value as int, name@);
        }
        match self.position(name) {
            Some(i) => {
                if self.properties[i].admits(writer) {
                    Ok(Some(self.store_at(i, new_value)))
                } else {
                    Err(ReadOnlyViolation)
                }
            },
            None => Ok(None),
        }
    }
}

} // verus!
