//! Shared handles: one thing behind a readers-writer lock.

use vstd::prelude::*;
use std::sync::Arc;
use std::sync::RwLock;
use std::sync::RwLockReadGuard;
use std::sync::RwLockWriteGuard;
use crate::property::Writer;
use crate::thing::Thing;
use crate::thing::ThingView;

verus! {

/// The readers-writer lock of the standard library, `std::sync::RwLock`.
/// Nothing of what it guards shows in a value of this type.
#[verifier::external_type_specification]
#[verifier::external_body]
#[verifier::reject_recursive_types(T)]
pub struct ExRwLock<T: ?Sized>(RwLock<T>);

/// Shared access to what a lock guards, `std::sync::RwLockReadGuard`. The
/// access ends when the guard is dropped.
#[verifier::external_type_specification]
#[verifier::external_body]
#[verifier::reject_recursive_types(T)]
pub struct ExRwLockReadGuard<'a, T: ?Sized>(RwLockReadGuard<'a, T>);

/// Exclusive access to what a lock guards, `std::sync::RwLockWriteGuard`. The
/// access ends when the guard is dropped.
#[verifier::external_type_specification]
#[verifier::external_body]
#[verifier::reject_recursive_types(T)]
pub struct ExRwLockWriteGuard<'a, T: ?Sized + 'a>(RwLockWriteGuard<'a, T>);

/// What is behind the lock can no longer be trusted, and nobody is let at it
/// any more: a holder panicked while it had exclusive access and may have
/// left the thing half-written, or the thing found there has lost a property
/// that it was made with.
#[derive(Clone, Copy, Debug, PartialEq, Eq, Structural)]
pub struct LockPoisoned;

/// A fresh readers-writer lock around `value`: `RwLock::new`. Nothing is
/// claimed of the lock.
#[verifier::external_body]
fn new_lock<T>(value: T) -> RwLock<T> {
    RwLock::new(value)
}

/// Waits for shared access: `RwLock::read`.
///
/// The standard library reports a poisoned lock as an error, which comes
/// back as `LockPoisoned`. Nothing is claimed of what the guard guards: other
/// holders may have written it since it was last seen.
///
/// The standard library lets the call panic, or wait for ever, where the
/// calling thread holds the lock already. Every caller in this file asks with
/// no guard in hand.
#[verifier::external_body]
fn acquire_read<'a, T>(lock: &'a RwLock<T>) -> Result<RwLockReadGuard<'a, T>, LockPoisoned> {
    match lock.read() {
        Ok(guard) => Ok(guard),
        Err(_) => Err(LockPoisoned),
    }
}

/// Waits for exclusive access: `RwLock::write`.
///
/// The standard library reports a poisoned lock as an error, which comes
/// back as `LockPoisoned`. Nothing is claimed of what the guard guards.
///
/// The standard library lets the call panic, or wait for ever, where the
/// calling thread holds the lock already. Every caller in this file asks with
/// no guard in hand.
#[verifier::external_body]
fn acquire_write<'a, T>(lock: &'a RwLock<T>) -> Result<RwLockWriteGuard<'a, T>, LockPoisoned> {
    match lock.write() {
        Ok(guard) => Ok(guard),
        Err(_) => Err(LockPoisoned),
    }
}

/// What a read guard guards: `deref` of `RwLockReadGuard`. Nothing is claimed
/// of it.
#[verifier::external_body]
fn guarded<'a, 'b, T>(guard: &'a RwLockReadGuard<'b, T>) -> &'a T {
    &**guard
}

/// What a write guard guards, for writing: `deref_mut` of
/// `RwLockWriteGuard`. Nothing is claimed of it.
#[verifier::external_body]
fn guarded_mut<'a, 'b, T>(guard: &'a mut RwLockWriteGuard<'b, T>) -> &'a mut T {
    &mut **guard
}

/// Why a write through a shared handle did not happen.
#[derive(Clone, Copy, Debug, PartialEq, Eq, Structural)]
pub enum WriteError {
    /// The request came from outside and the property is read-only.
    ReadOnlyViolation,
    /// What is behind the lock can no longer be trusted.
    LockPoisoned,
}

/// The value cached for `name` on `found`, the thing that a reader found
/// behind the lock of a handle that was made for a thing with such a
/// property. Where `found` has lost the property, it can no longer be trusted.
pub fn read_known(found: &Thing, name: &str) -> (outcome: Result<Option<i64>, LockPoisoned>)
    ensures
        match outcome {
            Ok(value) => value matches Some(cached) && found@.value_of(name@) == Some(
                cached as int,
            ),
            Err(_) => found@.value_of(name@) is None,
        },
{
    match found.get_property(name) {
        Some(cached) => Ok(Some(cached)),
        None => Err(LockPoisoned),
    }
}

/// The update loop's write to `found`, the thing that it found behind the
/// lock of a handle that was made for a thing with a property called `name`:
/// caches `value` for it and hands back the value cached before. Where
/// `found` has lost the property, it stays as it is and can no longer be
/// trusted.
pub fn commit_known(found: &mut Thing, name: &str, value: i64) -> (outcome: Result<
    Option<i64>,
    LockPoisoned,
>)
    ensures
        final(found)@ == old(found)@.with_value(name@, value as int),
        match outcome {
            Ok(previous) => {
                &&& previous matches Some(cached)
                &&& old(found)@.value_of(name@) == Some(cached as int)
                &&& final(found)@.value_of(name@) == Some(value as int)
            },
            Err(_) => old(found)@.value_of(name@) is None && final(found)@ == old(found)@,
        },
{
    match found.commit(name, value) {
        Some(cached) => Ok(Some(cached)),
        None => Err(LockPoisoned),
    }
}

/// A write from outside to `found`, the thing that was found behind the lock
/// of a handle that was made for a thing with a property called `name` that
/// can be written: caches `value` for it and hands back the value cached
/// before. Where `found` has lost the property, or refuses the write, it
/// stays as it is and can no longer be trusted.
pub fn write_known(found: &mut Thing, name: &str, value: i64) -> (outcome: Result<
    Option<i64>,
    WriteError,
>)
    ensures
        match outcome {
            Ok(previous) => {
                &&& previous matches Some(cached)
                &&& old(found)@.find(name@) matches Some(property)
                &&& property.admits(Writer::External)
                &&& cached == property.value
                &&& final(found)@ == old(found)@.with_value(name@, value as int)
                &&& final(found)@.value_of(name@) == Some(value as int)
            },
            Err(error) => {
                &&& error == WriteError::LockPoisoned
                &&& !(old(found)@.find(name@) matches Some(property) && property.admits(
                    Writer::External,
                ))
                &&& final(found)@ == old(found)@
            },
        },
{
    match found.set_cached_value(name, value, Writer::External) {
        Ok(Some(cached)) => Ok(Some(cached)),
        _ => Err(WriteError::LockPoisoned),
    }
}

/// What the holders of one handle share: the thing behind its lock, and the
/// thing as it was made.
struct Guarded {
    as_made: Thing,
    current: RwLock<Thing>,
}

/// Access to one thing for every holder at once: any number of readers, or
/// one writer and nobody else.
///
/// What never changes of a thing, its title, tags and description and the
/// names and schemas of its properties, is kept beside the lock as the thing
/// was made, and is answered from there: that needs no access and cannot
/// fail. What changes, the cached values, is behind the lock. Every operation
/// on a value waits for its access, does its one piece of work, and gives the
/// access up before it returns: a read acquires shared access, looks, and
/// releases; a write acquires exclusive access, stores one value, and
/// releases. So no holder ever waits for a second handle while it has the
/// first.
///
/// The value that an operation finds under the lock is whatever the last
/// writer left there, which no contract here can know: the contracts of
/// [`read_known`], [`commit_known`] and [`write_known`] say what each
/// operation does to the thing it finds, and [`crate::history`] says what the
/// order of the lock means for readers.
pub struct SharedHandle {
    shared: Arc<Guarded>,
}

impl SharedHandle {
    /// The thing as it was when the handle was made. Its title, tags and
    /// description, and the names and schemas of its properties in their
    /// order, are those of the thing behind the lock for good; its values are
    /// those that the properties started with.
    pub closed spec fn as_made(&self) -> ThingView {
        self.shared.as_made@
    }

    /// A handle that owns `thing`.
    pub fn new(thing: Thing) -> (handle: SharedHandle)
        ensures
            handle.as_made() == thing@,
    {
        let as_made = thing.clone();
        SharedHandle { shared: Arc::new(Guarded { as_made, current: new_lock(thing) }) }
    }

    /// Another holder's handle to the same thing.
    pub fn share(&self) -> (other: SharedHandle)
        ensures
            other == *self,
    {
        SharedHandle { shared: self.shared.clone() }
    }

    /// The title of the thing. It never changes, so this always succeeds.
    pub fn get_title(&self) -> (outcome: Result<String, LockPoisoned>)
        ensures
            outcome matches Ok(title) && title@ == self.as_made().title,
    {
        Ok(self.shared.as_made.get_title().clone())
    }

    /// The names of the thing's properties in the order in which they were
    /// added. They never change, so this always succeeds. No name comes
    /// twice.
    pub fn property_names(&self) -> (outcome: Result<Vec<String>, LockPoisoned>)
        ensures
            outcome matches Ok(names) && {
                &&& names@.len() == self.as_made().properties.len()
                &&& forall|i: int|
                    0 <= i < names@.len() ==> (#[trigger] names@[i])@
                        == self.as_made().properties[i].name
                &&& forall|i: int, j: int|
                    0 <= i < j < names@.len() ==> (#[trigger] names@[i])@ != (
                    #[trigger] names@[j])@
            },
    {
        Ok(self.shared.as_made.property_names())
    }

    /// The value cached for `name`, read under shared access.
    ///
    /// There is nothing to read, and no access is asked for, where the thing
    /// has no such property. Where it has one, its value comes back unless
    /// the lock is poisoned.
    pub fn get_property(&self, name: &str) -> (outcome: Result<Option<i64>, LockPoisoned>)
        ensures
            !self.as_made().has_property(name@) ==> outcome matches Ok(None),
            self.as_made().has_property(name@) ==> outcome matches Ok(Some(_)) || outcome is Err,
    {
        if !self.shared.as_made.has_property(name) {
            return Ok(None);
        }
        match acquire_read(&self.shared.current) {
            Ok(guard) => read_known(guarded(&guard), name),
            Err(poisoned) => Err(poisoned),
        }
    }

    /// The update loop's write: caches `value` for `name` under exclusive
    /// access, which is held for that one assignment only, and hands back the
    /// value cached before.
    ///
    /// There is nothing to write, and no access is asked for, where the thing
    /// has no such property. Where it has one, the write goes through unless
    /// the lock is poisoned, read-only or not.
    pub fn commit(&self, name: &str, value: i64) -> (outcome: Result<Option<i64>, LockPoisoned>)
        ensures
            !self.as_made().has_property(name@) ==> outcome matches Ok(None),
            self.as_made().has_property(name@) ==> outcome matches Ok(Some(_)) || outcome is Err,
    {
        if !self.shared.as_made.has_property(name) {
            return Ok(None);
        }
        match acquire_write(&self.shared.current) {
            Ok(mut guard) => commit_known(guarded_mut(&mut guard), name, value),
            Err(poisoned) => Err(poisoned),
        }
    }

    /// A write request from outside: caches `value` for `name` under
    /// exclusive access and hands back the value cached before.
    ///
    /// There is nothing to write where the thing has no such property, and
    /// the request is turned away where the property is read-only: in both
    /// cases no access is asked for. Where the property can be written, the
    /// write goes through unless the lock is poisoned.
    pub fn set_property(&self, name: &str, value: i64) -> (outcome: Result<Option<i64>, WriteError>)
        ensures
            match self.as_made().find(name@) {
                None => outcome matches Ok(None),
                Some(property) => if property.admits(Writer::External) {
                    outcome matches Ok(Some(_)) || outcome matches Err(WriteError::LockPoisoned)
                } else {
                    outcome matches Err(WriteError::ReadOnlyViolation)
                },
            },
    {
        match self.shared.as_made.find_property(name) {
            None => Ok(None),
            Some(property) => {
                if !property.admits(Writer::External) {
                    return Err(WriteError::ReadOnlyViolation);
                }
                match acquire_write(&self.shared.current) {
                    Ok(mut guard) => write_known(guarded_mut(&mut guard), name, value),
                    Err(_) => Err(WriteError::LockPoisoned),
                }
            },
        }
    }
}

} // verus!
