//! The registry: the things that a process exposes, and how.

use vstd::prelude::*;
use crate::handle::SharedHandle;

verus! {

/// The things that a process exposes, each through its shared handle: either
/// several, in a fixed order and under a collection name, or a single one.
///
/// No operation changes a registry, so the way of exposing that was chosen
/// when it was made stays.
pub enum ThingsType {
    /// Several things, in the order in which they were added, and the name
    /// of the collection.
    Multiple(Vec<SharedHandle>, String),
    /// One thing, which needs no collection name.
    Single(SharedHandle),
}

impl ThingsType {
    /// The handles of the registry in the order in which they were added.
    pub open spec fn handles(self) -> Seq<SharedHandle> {
        match self {
            ThingsType::Multiple(things, _) => things@,
            ThingsType::Single(thing) => seq![thing],
        }
    }

    /// The name of the collection, which only several things have.
    pub open spec fn collection(self) -> Option<Seq<char>> {
        match self {
            ThingsType::Multiple(_, name) => Some(name@),
            ThingsType::Single(_) => None,
        }
    }

    /// How many things the registry exposes.
    pub fn len(&self) -> (count: usize)
        ensures
            count == self.handles().len(),
    {
        match self {
            ThingsType::Multiple(things, _) => things.len(),
            ThingsType::Single(_) => 1,
        }
    }

    /// The handle of the thing at position `thing_id`, counted from zero in
    /// the order in which the things were added.
    pub fn get(&self, thing_id: usize) -> (found: Option<&SharedHandle>)
        ensures
            match found {
                Some(handle) => thing_id < self.handles().len() && *handle == self.handles()[
                    thing_id as int],
                None => thing_id >= self.handles().len(),
            },
    {
        match self {
            ThingsType::Multiple(things, _) => {
                if thing_id < things.len() {
                    Some(&things[thing_id])
                } else {
                    None
                }
            },
            ThingsType::Single(thing) => {
                if thing_id == 0 {
                    Some(thing)
                } else {
                    None
                }
            },
        }
    }

    /// A handle to every thing, in the order in which the things were added.
    pub fn things(&self) -> (shared: Vec<SharedHandle>)
        ensures
            shared@ == self.handles(),
    {
        let mut shared: Vec<SharedHandle> = Vec::new();
        match self {
            ThingsType::Multiple(things, _) => {
                let mut i: usize = 0;
                while i < things.len()
                    invariant
                        i <= things@.len(),
                        shared@ == things@.take(i as int),
                    decreases things@.len() - i,
                {
                    shared.push(things[i].share());
                    i += 1;
                }
            },
            ThingsType::Single(thing) => {
                shared.push(thing.share());
            },
        }
        shared
    }

    /// The name of the collection, which only several things have.
    pub fn name(&self) -> (name: Option<&String>)
        ensures
            match name {
                Some(text) => self.collection() == Some(text@),
                None => self.collection() is None,
            },
    {
        match self {
            ThingsType::Multiple(_, name) => Some(name),
            ThingsType::Single(_) => None,
        }
    }
}

} // verus!
