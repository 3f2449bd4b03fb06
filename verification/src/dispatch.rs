//! The action dispatcher: from the name of a requested action to an action
//! to run, or to nothing where the name is not recognised.

use vstd::prelude::*;
use crate::handle::SharedHandle;
use crate::text::same_text;

verus! {

/// Any JSON value, `serde_json::Value`, taken as an opaque type.
#[verifier::external_type_specification]
#[verifier::external_body]
pub struct ExJsonValue(serde_json::Value);

/// The members of a JSON object, `serde_json::Map`, taken as an opaque type.
#[verifier::external_type_specification]
#[verifier::external_body]
#[verifier::reject_recursive_types(K)]
#[verifier::reject_recursive_types(V)]
pub struct ExJsonObject<K, V>(serde_json::Map<K, V>);

/// The members of a JSON value: those of the object where the value is an
/// object, none where it is any other JSON value. This names what
/// `serde_json::Value::as_object` hands out.
pub uninterp spec fn json_members(value: serde_json::Value) -> Option<
    serde_json::Map<String, serde_json::Value>,
>;

/// The members of `value` where it is a JSON object, nothing where it is any
/// other JSON value: `serde_json::Value::as_object`, which looks at nothing
/// but the value.
#[verifier::external_body]
fn members_of<'a>(value: &'a serde_json::Value) -> (found: Option<
    &'a serde_json::Map<String, serde_json::Value>,
>)
    ensures
        match found {
            Some(members) => json_members(*value) == Some(*members),
            None => json_members(*value) is None,
        },
{
    value.as_object()
}

/// A copy of `members` with the same keys and values: `clone` of
/// `serde_json::Map`.
#[verifier::external_body]
fn copy_of(members: &serde_json::Map<String, serde_json::Value>) -> (copy: serde_json::Map<
    String,
    serde_json::Value,
>)
    ensures
        copy == *members,
{
    members.clone()
}

/// A recognised request to run an action on a thing.
pub struct ActionRequest {
    pub thing: SharedHandle,
    pub name: String,
    /// The members of the payload, where it was a JSON object.
    pub input: Option<serde_json::Map<String, serde_json::Value>>,
}

/// The dispatcher. It recognises the actions whose names it was made with;
/// made with none, it recognises no action at all.
pub struct Generator {
    actions: Vec<String>,
}

impl View for Generator {
    type V = Set<Seq<char>>;

    /// The names of the actions that the dispatcher recognises.
    closed spec fn view(&self) -> Set<Seq<char>> {
        Set::new(
            |name: Seq<char>|
                exists|i: int| 0 <= i < self.actions@.len() && self.actions@[i]@ == name,
        )
    }
}

impl Generator {
    /// The dispatcher that recognises no action.
    pub fn new() -> (generator: Generator)
        ensures
            generator@ == Set::<Seq<char>>::empty(),
    {
        Generator { actions: Vec::new() }
    }

    /// The dispatcher that recognises the actions called `actions`.
    pub fn with_actions(actions: Vec<String>) -> (generator: Generator)
        ensures
            forall|name: Seq<char>|
                generator@.contains(name) <==> exists|i: int|
                    0 <= i < actions@.len() && (#[trigger] actions@[i])@ == name,
    {
        Generator { actions }
    }

    /// Whether the dispatcher recognises an action called `name`.
    pub fn supports(&self, name: &str) -> (supported: bool)
        ensures
            supported == self@.contains(name@),
    {
        let mut i: usize = 0;
        while i < self.actions.len()
            invariant
                i <= self.actions@.len(),
                forall|k: int| 0 <= k < i ==> (#[trigger] self.actions@[k])@ != name@,
            decreases self.actions@.len() - i,
        {
            if same_text(self.actions[i].as_str(), name) {
                return true;
            }
            i += 1;
        }
        false
    }

    /// The request to run the action called `name` on `thing` with `input`,
    /// where the dispatcher recognises the name; nothing where it does not.
    pub fn dispatch(
        &self,
        thing: &SharedHandle,
        name: String,
        input: Option<serde_json::Map<String, serde_json::Value>>,
    ) -> (action: Option<ActionRequest>)
        ensures
            match action {
                Some(request) => {
                    &&& self@.contains(name@)
                    &&& request.thing == *thing
                    &&& request.name@ == name@
                    &&& request.input == input
                },
                None => !self@.contains(name@),
            },
    {
        if self.supports(name.as_str()) {
            Some(ActionRequest { thing: thing.share(), name, input })
        } else {
            None
        }
    }

    /// The request to run the action called `name` on `thing`, where the
    /// dispatcher recognises the name; nothing where it does not. Of the
    /// payload `input`, the request keeps the members where it is a JSON
    /// object, and nothing where it is anything else.
    pub fn generate(
        &self,
        thing: &SharedHandle,
        name: String,
        input: Option<&serde_json::Value>,
    ) -> (action: Option<ActionRequest>)
        ensures
            match action {
                Some(request) => {
                    &&& self@.contains(name@)
                    &&& request.thing == *thing
                    &&& request.name@ == name@
                    &&& request.input == match input {
                        Some(value) => json_members(*value),
                        None => None,
                    }
                },
                None => !self@.contains(name@),
            },
    {
        let input = match input {
            Some(value) => match members_of(value) {
                Some(members) => Some(copy_of(members)),
                None => None,
            },
            None => None,
        };
        self.dispatch(thing, name, input)
    }
}

} // verus!
