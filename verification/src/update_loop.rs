//! The update loop: a state machine that turns readings into committed,
//! schema-valid property values and change notifications.
//!
//! The machine does no waiting, reading or sending of its own. Each step takes
//! the event that the last piece of outside work ended in and answers with the
//! next piece of work to do.

use vstd::prelude::*;
use crate::handle::SharedHandle;
use crate::handle::WriteError;
use crate::reading::clamp;
use crate::reading::clamped;
use crate::reading::lemma_clamped;
use crate::reading::scaled;
use crate::reading::transform;
use crate::reading::ProducerError;
use crate::reading::Quantity;
use crate::reading::Reading;
use crate::thing::Thing;
use crate::thing::ThingView;

verus! {

/// Where in its cycle an update loop stands.
#[derive(Clone, Copy, Debug, PartialEq, Eq, Structural)]
pub enum Phase {
    /// Between two cycles.
    Idle,
    /// The producer has been asked for a reading.
    AcquiringReading,
    /// A reading is in hand and waits to be brought into the value domain.
    Transforming { reading: Reading },
    /// A schema-valid value waits to be cached under exclusive access.
    Committing { value: i64 },
    /// The value is cached and the observers have yet to hear of it.
    Notifying { value: i64 },
    /// The loop has come to its end and does no further work.
    Terminating,
}

/// What the outside work that a loop asked for ended in.
#[derive(Clone, Copy, Debug, PartialEq, Eq, Structural)]
pub enum Event {
    /// The monotonic clock reads `now` milliseconds.
    Tick { now: u64 },
    /// The process is shutting down.
    Shutdown,
    /// The producer handed over a reading.
    ReadingReady(Reading),
    /// The producer failed.
    ReadingFailed(ProducerError),
    /// Nothing outside was to be done.
    Proceed,
    /// The value is cached; `previous` was cached before.
    Committed { previous: i64 },
    /// The thing has no property of the loop's name.
    PropertyMissing,
    /// The lock of the shared handle is poisoned.
    LockPoisoned,
    /// The observers have been told.
    Notified,
}

/// The outside work that a loop asks for next.
#[derive(Clone, Copy, Debug, PartialEq, Eq, Structural)]
pub enum Action {
    /// Wait until the monotonic clock reads `until` milliseconds, then tick.
    Wait { until: u64 },
    /// Ask the producer for a reading.
    Read,
    /// Nothing to do outside: proceed at once.
    Proceed,
    /// Cache `value` under exclusive access.
    Commit { value: i64 },
    /// Tell the observers that `value` is now cached.
    Notify { value: i64 },
    /// Stop the loop: the process is shutting down.
    Stop,
    /// Stop the whole process: what the handle guards can no longer be
    /// trusted.
    Abort,
}

/// Mathematical model of a [`Notification`].
pub struct NotificationView {
    pub thing_id: nat,
    pub property: Seq<char>,
    pub value: int,
}

/// A change event for the observers of a thing.
#[derive(Debug)]
pub struct Notification {
    /// Position of the thing among the things of its registry.
    pub thing_id: usize,
    pub property: String,
    pub value: i64,
}

impl View for Notification {
    type V = NotificationView;

    open spec fn view(&self) -> NotificationView {
        NotificationView {
            thing_id: self.thing_id as nat,
            property: self.property@,
            value: self.value as int,
        }
    }
}

impl Notification {
    /// The notification that a write from outside owes the observers of the
    /// thing at position `thing_id`, once the write of `value` to `property`
    /// has come to `outcome`: one that tells of `value` where the write went
    /// through, none where there was no such property or the write was turned
    /// away.
    pub fn after_write(
        thing_id: usize,
        property: &str,
        value: i64,
        outcome: &Result<Option<i64>, WriteError>,
    ) -> (owed: Option<Notification>)
        ensures
            match owed {
                Some(notification) => {
                    &&& *outcome matches Ok(Some(_))
                    &&& notification@ == (NotificationView {
                        thing_id: thing_id as nat,
                        property: property@,
                        value: value as int,
                    })
                },
                None => !(*outcome matches Ok(Some(_))),
            },
    {
        match outcome {
            Ok(Some(_)) => Some(Notification { thing_id, property: property.to_owned(), value }),
            _ => None,
        }
    }
}

/// Mathematical model of an [`UpdateLoop`].
pub struct LoopView {
    pub phase: Phase,
    pub thing_id: nat,
    pub property: Seq<char>,
    pub quantity: Quantity,
    pub minimum: int,
    pub maximum: int,
    pub interval: nat,
    pub next_start: nat,
}

impl LoopView {
    /// The bounds are ordered, all numbers fit their machine types, and a
    /// value that the loop has in hand to commit or to notify of lies within
    /// the bounds.
    pub open spec fn valid(self) -> bool {
        &&& i64::MIN <= self.minimum <= self.maximum <= i64::MAX
        &&& self.interval <= u64::MAX
        &&& self.next_start <= u64::MAX
        &&& self.thing_id <= usize::MAX
        &&& self.phase matches Phase::Committing { value } ==> self.minimum <= value
            <= self.maximum
        &&& self.phase matches Phase::Notifying { value } ==> self.minimum <= value
            <= self.maximum
    }

    /// The value that a cycle commits for `reading`: the chosen field in
    /// thousandths of its unit, clamped to the bounds.
    pub open spec fn value_for(self, reading: Reading) -> int {
        clamped(scaled(reading, self.quantity), self.minimum, self.maximum)
    }

    /// When the cycle after one that starts at `now` is due: one interval
    /// later, or at the end of time where the clock cannot count that far.
    pub open spec fn start_after(self, now: u64) -> nat {
        if now + self.interval <= u64::MAX {
            (now + self.interval) as nat
        } else {
            u64::MAX as nat
        }
    }

    /// The loop in `phase`, all else as it is.
    pub open spec fn in_phase(self, phase: Phase) -> LoopView {
        LoopView { phase, ..self }
    }

    /// Whether a cycle starts when the clock reads `now`.
    pub open spec fn due(self, now: u64) -> bool {
        self.phase is Idle && now >= self.next_start
    }

    /// Waiting for the next cycle to be due.
    pub open spec fn wait(self) -> Action {
        Action::Wait { until: self.next_start as u64 }
    }

    /// The transition table: the loop after `event`, and the work it asks
    /// for. An event that the phase does not expect changes nothing and asks
    /// for nothing.
    pub open spec fn step(self, event: Event) -> (LoopView, Option<Action>) {
        match (self.phase, event) {
            (Phase::Idle, Event::Tick { now }) => if now >= self.next_start {
                (
                    LoopView {
                        phase: Phase::AcquiringReading,
                        next_start: self.start_after(now),
                        ..self
                    },
                    Some(Action::Read),
                )
            } else {
                (self, Some(self.wait()))
            },
            (Phase::Idle, Event::Shutdown) => (
                self.in_phase(Phase::Terminating),
                Some(Action::Stop),
            ),
            (Phase::AcquiringReading, Event::ReadingReady(reading)) => (
                self.in_phase(Phase::Transforming { reading }),
                Some(Action::Proceed),
            ),
            (Phase::AcquiringReading, Event::ReadingFailed(_)) => (
                self.in_phase(Phase::Idle),
                Some(self.wait()),
            ),
            (Phase::Transforming { reading }, Event::Proceed) => (
                self.in_phase(Phase::Committing { value: self.value_for(reading) as i64 }),
                Some(Action::Commit { value: self.value_for(reading) as i64 }),
            ),
            (Phase::Committing { value }, Event::Committed { previous }) => (
                self.in_phase(Phase::Notifying { value }),
                Some(Action::Notify { value }),
            ),
            (Phase::Committing { value }, Event::PropertyMissing) => (
                self.in_phase(Phase::Idle),
                Some(self.wait()),
            ),
            (Phase::Committing { value }, Event::LockPoisoned) => (
                self.in_phase(Phase::Terminating),
                Some(Action::Abort),
            ),
            (Phase::Notifying { value }, Event::Notified) => (
                self.in_phase(Phase::Idle),
                Some(self.wait()),
            ),
            _ => (self, None),
        }
    }

    /// The loop's property exists in `thing` and declares the loop's bounds.
    pub open spec fn feeds(self, thing: ThingView) -> bool {
        &&& thing.find(self.property) matches Some(property)
        &&& property.schema.minimum == self.minimum
        &&& property.schema.maximum == self.maximum
    }

    /// The notification that tells of `value`.
    pub open spec fn notification(self, value: int) -> NotificationView {
        NotificationView { thing_id: self.thing_id, property: self.property, value }
    }

    /// The loop after a whole cycle that started at `now`: as it was, but for
    /// the start of the next cycle, one interval later.
    pub open spec fn after_cycle(self, now: u64) -> LoopView {
        LoopView { next_start: self.start_after(now), ..self }
    }

    /// The loop after it has taken `events` one after the other.
    pub open spec fn after(self, events: Seq<Event>) -> LoopView
        decreases events.len(),
    {
        if events.len() == 0 {
            self
        } else {
            self.after(events.drop_last()).step(events.last()).0
        }
    }

    /// The work that the loop asks for in answer to the last of `events`,
    /// once it has taken them one after the other.
    pub open spec fn answer(self, events: Seq<Event>) -> Option<Action>
        decreases events.len(),
    {
        if events.len() == 0 {
            None
        } else {
            self.after(events.drop_last()).step(events.last()).1
        }
    }

    /// Whether `after` and `action` are what a loop that waits to commit
    /// comes to when the commit is reported. Where the thing is `known` to
    /// have the property, the commit is done or the lock is poisoned; where
    /// it is not, the commit is not possible for want of the property.
    pub open spec fn commit_reported(
        self,
        known: bool,
        after: LoopView,
        action: Option<Action>,
    ) -> bool {
        if known {
            ||| (after, action) == self.step(Event::Committed { previous: 0 })
            ||| (after, action) == self.step(Event::LockPoisoned)
        } else {
            (after, action) == self.step(Event::PropertyMissing)
        }
    }

    /// Whether `after` and `action` are what the loop comes to when it takes
    /// `event` and then goes on by itself for as long as the work it asks for
    /// needs nothing but the shared handle: it proceeds where it is asked to
    /// proceed, and commits where it is asked to commit, to a thing that is
    /// `known` to have the property or not.
    pub open spec fn settles(
        self,
        event: Event,
        known: bool,
        after: LoopView,
        action: Option<Action>,
    ) -> bool {
        let (next, asked) = self.step(event);
        match asked {
            Some(Action::Proceed) => next.step(Event::Proceed).0.commit_reported(
                known,
                after,
                action,
            ),
            Some(Action::Commit { .. }) => next.commit_reported(known, after, action),
            _ => after == next && action == asked,
        }
    }

    /// Whether the loop, when it takes `event`, comes to commit a value
    /// before it asks for anything from outside.
    pub open spec fn commits_on(self, event: Event) -> bool {
        ||| self.step(event).1 matches Some(Action::Proceed)
        ||| self.step(event).1 matches Some(Action::Commit { .. })
    }

    /// Between two cycles, or waiting for a reading, or at its end: the loop
    /// has no value in hand.
    pub open spec fn empty_handed(self) -> bool {
        self.phase is Idle || self.phase is AcquiringReading || self.phase is Terminating
    }
}

/// One notification for each commit that went through: the loop asks for a
/// notification in answer to the report of a commit that it had asked for,
/// and in answer to nothing else, and the notification tells the value that
/// was committed.
pub proof fn lemma_one_notification_per_commit(update_loop: LoopView, event: Event, value: i64)
    ensures
        update_loop.step(event).1 == Some(Action::Notify { value }) <==> update_loop.phase == (
        Phase::Committing { value }) && event is Committed,
{
}

/// The value that the loop asks to commit is the clamped transform of the
/// reading that this cycle acquired, and lies within the loop's bounds.
pub proof fn lemma_commits_clamped_transform(update_loop: LoopView, event: Event, value: i64)
    requires
        update_loop.valid(),
        update_loop.step(event).1 == Some(Action::Commit { value }),
    ensures
        update_loop.phase is Transforming,
        value == update_loop.value_for(update_loop.phase->reading),
        update_loop.minimum <= value <= update_loop.maximum,
{
    lemma_clamped(
        scaled(update_loop.phase->reading, update_loop.quantity),
        update_loop.minimum,
        update_loop.maximum,
    );
}

/// Without a reading, nothing is committed and nobody is notified: whatever
/// else happens to a loop that has no value in hand, ticks, failed readings
/// and stray reports among it, the loop asks for no commit and for no
/// notification, and still has no value in hand afterwards.
pub proof fn lemma_no_reading_no_commit(update_loop: LoopView, events: Seq<Event>)
    requires
        update_loop.empty_handed(),
        forall|k: int| 0 <= k < events.len() ==> !(events[k] is ReadingReady),
    ensures
        update_loop.after(events).empty_handed(),
        !(update_loop.answer(events) matches Some(Action::Commit { .. })),
        !(update_loop.answer(events) matches Some(Action::Notify { .. })),
    decreases events.len(),
{
    if events.len() > 0 {
        let earlier = events.drop_last();
        assert forall|k: int| 0 <= k < earlier.len() implies !(earlier[k] is ReadingReady) by {
            assert(earlier[k] == events[k]);
        }
        lemma_no_reading_no_commit(update_loop, earlier);
        // The last event is no reading either, so the loop takes up no value.
        assert(events.last() == events[events.len() - 1]);
    }
}

/// The start of the next cycle never moves back, whatever happens to the
/// loop.
pub proof fn lemma_next_start_never_moves_back(update_loop: LoopView, events: Seq<Event>)
    ensures
        update_loop.after(events).next_start >= update_loop.next_start,
        update_loop.after(events).interval == update_loop.interval,
    decreases events.len(),
{
    if events.len() > 0 {
        lemma_next_start_never_moves_back(update_loop, events.drop_last());
    }
}

/// Cadence: where a cycle starts when the clock reads `first`, and another
/// one starts later, when the clock reads `second`, the two starts are at
/// least one interval apart, whatever happened in between and however long
/// the first cycle took.
pub proof fn lemma_starts_are_an_interval_apart(
    update_loop: LoopView,
    first: u64,
    between: Seq<Event>,
    second: u64,
)
    requires
        update_loop.step(Event::Tick { now: first }).1 == Some(Action::Read),
        update_loop.step(Event::Tick { now: first }).0.after(between).step(
            Event::Tick { now: second },
        ).1 == Some(Action::Read),
    ensures
        second >= update_loop.start_after(first),
        first + update_loop.interval <= u64::MAX ==> second >= first + update_loop.interval,
{
    let started = update_loop.step(Event::Tick { now: first }).0;
    lemma_next_start_never_moves_back(started, between);
}

/// `after` is `before` with one notification more at its end, which tells
/// what `told` says.
pub open spec fn one_more(
    before: Seq<Notification>,
    after: Seq<Notification>,
    told: NotificationView,
) -> bool {
    &&& after.len() == before.len() + 1
    &&& after.drop_last() == before
    &&& after.last()@ == told
}

/// The background task of one sensor-backed property.
///
/// Cycles start a fixed interval apart by a monotonic clock that counts
/// milliseconds. The bounds are those that the property's schema declared when
/// the loop was made.
#[derive(Debug)]
pub struct UpdateLoop {
    phase: Phase,
    thing_id: usize,
    property: String,
    quantity: Quantity,
    minimum: i64,
    maximum: i64,
    interval: u64,
    next_start: u64,
}

impl View for UpdateLoop {
    type V = LoopView;

    closed spec fn view(&self) -> LoopView {
        LoopView {
            phase: self.phase,
            thing_id: self.thing_id as nat,
            property: self.property@,
            quantity: self.quantity,
            minimum: self.minimum as int,
            maximum: self.maximum as int,
            interval: self.interval as nat,
            next_start: self.next_start as nat,
        }
    }
}

impl UpdateLoop {
    /// Holds of every loop: its bounds are ordered.
    #[verifier::type_invariant]
    pub open spec fn well_formed(&self) -> bool {
        self@.valid()
    }

    /// An idle loop that feeds the property called `property` of `thing`, the
    /// thing at position `thing_id` of its registry, from the `quantity` field
    /// of each reading. The first cycle is due one `interval` after `now`.
    ///
    /// There is no such loop where the thing has no such property.
    pub fn new(
        thing: &Thing,
        thing_id: usize,
        property: &str,
        quantity: Quantity,
        interval: u64,
        now: u64,
    ) -> (made: Option<UpdateLoop>)
        ensures
            match made {
                Some(update_loop) => {
                    &&& update_loop@.valid()
                    &&& update_loop@.feeds(thing@)
                    &&& update_loop@.phase == Phase::Idle
                    &&& update_loop@.thing_id == thing_id
                    &&& update_loop@.property == property@
                    &&& update_loop@.quantity == quantity
                    &&& update_loop@.interval == interval
                    &&& update_loop@.next_start == update_loop@.start_after(now)
                },
                None => !thing@.has_property(property@),
            },
    {
        match thing.find_property(property) {
            Some(found) => {
                let schema = found.get_metadata();
                Some(
                    UpdateLoop {
                        phase: Phase::Idle,
                        thing_id,
                        property: property.to_owned(),
                        quantity,
                        minimum: schema.minimum(),
                        maximum: schema.maximum(),
                        interval,
                        next_start: now.saturating_add(interval),
                    },
                )
            },
            None => None,
        }
    }

    pub fn phase(&self) -> (phase: Phase)
        ensures
            phase == self@.phase,
    {
        self.phase
    }

    pub fn thing_id(&self) -> (thing_id: usize)
        ensures
            thing_id == self@.thing_id,
    {
        self.thing_id
    }

    pub fn property(&self) -> (name: &String)
        ensures
            name@ == self@.property,
    {
        &self.property
    }

    /// When the next cycle is due, in milliseconds of the monotonic clock.
    pub fn next_start(&self) -> (due: u64)
        ensures
            due == self@.next_start,
    {
        self.next_start
    }

    /// The value that a cycle commits for `reading`, within the bounds.
    pub fn value_for(&self, reading: &Reading) -> (value: i64)
        ensures
            value == self@.value_for(*reading),
            self@.minimum <= value <= self@.maximum,
    {
        proof {
            use_type_invariant(self);
        }
        clamp(transform(reading, self.quantity), self.minimum, self.maximum)
    }

    /// Takes `event` and answers with the work to do next, as the transition
    /// table says.
    pub fn step(&mut self, event: Event) -> (action: Option<Action>)
        ensures
            final(self)@.valid(),
            (final(self)@, action) == old(self)@.step(event),
    {
        proof {
            use_type_invariant(&*self);
        }
        match (self.phase, event) {
            (Phase::Idle, Event::Tick { now }) => {
                if now >= self.next_start {
                    self.phase = Phase::AcquiringReading;
                    self.next_start = now.saturating_add(self.interval);
                    Some(Action::Read)
                } else {
                    Some(Action::Wait { until: self.next_start })
                }
            },
            (Phase::Idle, Event::Shutdown) => {
                self.phase = Phase::Terminating;
                Some(Action::Stop)
            },
            (Phase::AcquiringReading, Event::ReadingReady(reading)) => {
                self.phase = Phase::Transforming { reading };
                Some(Action::Proceed)
            },
            (Phase::AcquiringReading, Event::ReadingFailed(_)) => {
                self.phase = Phase::Idle;
                Some(Action::Wait { until: self.next_start })
            },
            (Phase::Transforming { reading }, Event::Proceed) => {
                let value = self.value_for(&reading);
                self.phase = Phase::Committing { value };
                Some(Action::Commit { value })
            },
            (Phase::Committing { value }, Event::Committed { previous: _ }) => {
                self.phase = Phase::Notifying { value };
                Some(Action::Notify { value })
            },
            (Phase::Committing { value: _ }, Event::PropertyMissing) => {
                self.phase = Phase::Idle;
                Some(Action::Wait { until: self.next_start })
            },
            (Phase::Committing { value: _ }, Event::LockPoisoned) => {
                self.phase = Phase::Terminating;
                Some(Action::Abort)
            },
            (Phase::Notifying { value: _ }, Event::Notified) => {
                self.phase = Phase::Idle;
                Some(Action::Wait { until: self.next_start })
            },
            _ => None,
        }
    }

    /// The notification that tells of `value`.
    pub fn notification(&self, value: i64) -> (notification: Notification)
        ensures
            notification@ == self@.notification(value as int),
    {
        Notification { thing_id: self.thing_id, property: self.property.clone(), value }
    }

    /// Caches `value` for the loop's property through `handle` and reports
    /// how that went, as the event to hand to the next step.
    pub fn commit(&self, handle: &SharedHandle, value: i64) -> (event: Event)
        ensures
            event is Committed || event is PropertyMissing || event is LockPoisoned,
            event is PropertyMissing <==> !handle.as_made().has_property(self@.property),
    {
        match handle.commit(self.property.as_str(), value) {
            Ok(Some(previous)) => Event::Committed { previous },
            Ok(None) => Event::PropertyMissing,
            Err(_) => Event::LockPoisoned,
        }
    }

    /// Takes `event` and goes on for as long as the work to do next needs
    /// nothing but `handle`: the loop transforms the reading that it was
    /// handed and commits the value through `handle`. What comes back is work
    /// for the outside: to wait, to read, to notify or to end.
    ///
    /// Where the loop comes to commit, the thing of `handle` decides what is
    /// next. Where it was made without the loop's property, the cycle is
    /// skipped and the loop waits. Where it was made with it, the loop asks to
    /// notify of the clamped transform of the reading, or to abort if the lock
    /// is poisoned. A value to notify of lies within the loop's bounds, which
    /// are those that the property declares where the loop feeds that thing.
    pub fn advance(&mut self, handle: &SharedHandle, event: Event) -> (action: Option<Action>)
        ensures
            final(self)@.valid(),
            old(self)@.settles(
                event,
                handle.as_made().has_property(old(self)@.property),
                final(self)@,
                action,
            ),
            !(action matches Some(Action::Proceed)),
            !(action matches Some(Action::Commit { .. })),
            old(self)@.commits_on(event) ==> ((action matches Some(Action::Wait { .. }))
                <==> !handle.as_made().has_property(old(self)@.property)),
            action matches Some(Action::Notify { value }) ==> old(self)@.minimum <= value <= old(
                self,
            )@.maximum,
            action matches Some(Action::Notify { value }) ==> (old(self)@.feeds(handle.as_made())
                ==> {
                &&& handle.as_made().find(old(self)@.property) matches Some(property)
                &&& property.schema.minimum <= value <= property.schema.maximum
            }),
    {
        proof {
            use_type_invariant(&*self);
        }
        let mut action = self.step(event);
        if let Some(Action::Proceed) = action {
            action = self.step(Event::Proceed);
        }
        if let Some(Action::Commit { value }) = action {
            let report = self.commit(handle, value);
            action = self.step(report);
        }
        action
    }

    /// One whole cycle on a thing that the caller holds alone, with `sample`
    /// for what the producer hands over and `outbox` for the observers.
    ///
    /// Nothing happens unless the loop is idle and a cycle is due at `now`.
    /// A cycle leaves the loop idle, the next cycle one interval after `now`.
    /// A failed reading leaves the thing and the outbox as they were. A
    /// reading caches its clamped transform for the loop's property and sends
    /// exactly one notification, which tells of that value; where the thing
    /// lacks the property, the cycle is skipped like a failed one.
    pub fn run_cycle(
        &mut self,
        thing: &mut Thing,
        outbox: &mut Vec<Notification>,
        now: u64,
        sample: Result<Reading, ProducerError>,
    )
        ensures
            final(self)@.valid(),
            final(thing)@.valid(),
            !old(self)@.due(now) ==> {
                &&& final(self)@ == old(self)@
                &&& final(thing)@ == old(thing)@
                &&& final(outbox)@ == old(outbox)@
            },
            old(self)@.due(now) ==> final(self)@ == old(self)@.after_cycle(now),
            old(self)@.due(now) ==> match sample {
                Ok(reading) => {
                    &&& final(thing)@ == old(thing)@.with_value(
                        old(self)@.property,
                        old(self)@.value_for(reading),
                    )
                    &&& old(thing)@.has_property(old(self)@.property) ==> {
                        &&& final(thing)@.value_of(old(self)@.property) == Some(
                            old(self)@.value_for(reading),
                        )
                        &&& one_more(
                            old(outbox)@,
                            final(outbox)@,
                            old(self)@.notification(old(self)@.value_for(reading)),
                        )
                    }
                    &&& !old(thing)@.has_property(old(self)@.property) ==> final(outbox)@ == old(
                        outbox,
                    )@
                    &&& old(self)@.feeds(old(thing)@) ==> final(self)@.feeds(final(thing)@)
                        && final(thing)@.find(old(self)@.property)->0.in_bounds()
                },
                Err(_) => final(thing)@ == old(thing)@ && final(outbox)@ == old(outbox)@,
            },
    {
        proof {
            use_type_invariant(&*thing);
        }
        match self.step(Event::Tick { now }) {
            Some(Action::Read) => {},
            _ => {
                return ;
            },
        }
        let event = match sample {
            Ok(reading) => Event::ReadingReady(reading),
            Err(error) => Event::ReadingFailed(error),
        };
        match self.step(event) {
            Some(Action::Proceed) => {},
            _ => {
                return ;
            },
        }
        let value = match self.step(Event::Proceed) {
            Some(Action::Commit { value }) => value,
            _ => {
                return ;
            },
        };
        proof {
            lemma_clamped(
                scaled(sample->Ok_0, self@.quantity),
                self@.minimum,
                self@.maximum,
            );
        }
        let event = match thing.commit(self.property.as_str(), value) {
            Some(previous) => Event::Committed { previous },
            None => Event::PropertyMissing,
        };
        match self.step(event) {
            Some(Action::Notify { value }) => {
                let notification = self.notification(value);
                let ghost sent = outbox@;
                outbox.push(notification);
                assert(outbox@.drop_last() =~= sent);
                self.step(Event::Notified);
            },
            _ => {},
        }
    }
}

} // verus!
