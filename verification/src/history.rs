//! Histories: what the holders of a shared handle do, step by step, in the
//! order in which the lock lets it happen, and what the readers get to see.
//!
//! The lock grants shared access while nobody writes, and exclusive access
//! while nobody reads or writes. A holder looks at the thing only while it has
//! shared access, and stores into it only while it has exclusive access. A
//! writer that panics poisons the lock, which then grants nothing any more.
//! From these rules alone it follows that no reader ever sees a thing that a
//! writer is still at work on, or has left half-written.

use vstd::prelude::*;
use crate::thing::ThingView;

verus! {

/// One step of one holder of a shared handle. Holders are told apart by
/// number.
pub enum Step {
    /// The holder is granted shared access.
    AcquireRead { holder: nat },
    /// The holder looks at the thing.
    Look { holder: nat },
    /// The holder gives up its shared access.
    ReleaseRead { holder: nat },
    /// The holder is granted exclusive access.
    AcquireWrite { holder: nat },
    /// The holder caches `value` for the property called `name`.
    Store { holder: nat, name: Seq<char>, value: int },
    /// The holder gives up its exclusive access.
    ReleaseWrite { holder: nat },
    /// The holder panics while it has exclusive access.
    Panic { holder: nat },
}

/// A thing under the lock of its handle.
pub struct Shared {
    /// The thing as it is at this moment.
    pub thing: ThingView,
    /// The thing as it was when a writer last gave up its access, or as it
    /// was to begin with where nobody has written yet.
    pub settled: ThingView,
    /// The holders that have shared access.
    pub readers: Set<nat>,
    /// The holder that has exclusive access.
    pub writer: Option<nat>,
    /// Whether a writer has panicked.
    pub poisoned: bool,
}

impl Shared {
    /// `thing` under a lock that nobody holds.
    pub open spec fn fresh(thing: ThingView) -> Shared {
        Shared { thing, settled: thing, readers: Set::empty(), writer: None, poisoned: false }
    }

    /// Readers and a writer never have access together, nobody has access to
    /// what is behind a poisoned lock, and while nobody writes and the lock is
    /// sound, the thing is as the last writer left it.
    pub open spec fn consistent(self) -> bool {
        &&& self.writer is Some ==> self.readers == Set::<nat>::empty() && !self.poisoned
        &&& self.poisoned ==> self.readers == Set::<nat>::empty()
        &&& self.writer is None && !self.poisoned ==> self.thing == self.settled
    }

    /// Whether `step` can happen now: what the lock grants, and what a holder
    /// may do with the access it has.
    pub open spec fn admits(self, step: Step) -> bool {
        match step {
            Step::AcquireRead { holder } => {
                &&& !self.poisoned
                &&& self.writer is None
                &&& !self.readers.contains(holder)
            },
            Step::Look { holder } => self.readers.contains(holder),
            Step::ReleaseRead { holder } => self.readers.contains(holder),
            Step::AcquireWrite { holder } => {
                &&& !self.poisoned
                &&& self.writer is None
                &&& self.readers == Set::<nat>::empty()
            },
            Step::Store { holder, .. } => self.writer == Some(holder),
            Step::ReleaseWrite { holder } => self.writer == Some(holder),
            Step::Panic { holder } => self.writer == Some(holder),
        }
    }

    /// The thing and its lock once `step` has happened.
    pub open spec fn after(self, step: Step) -> Shared {
        match step {
            Step::AcquireRead { holder } => Shared { readers: self.readers.insert(holder), ..self },
            Step::Look { holder } => self,
            Step::ReleaseRead { holder } => Shared { readers: self.readers.remove(holder), ..self },
            Step::AcquireWrite { holder } => Shared { writer: Some(holder), ..self },
            Step::Store { holder, name, value } => Shared {
                thing: self.thing.with_value(name, value),
                ..self
            },
            Step::ReleaseWrite { holder } => Shared { settled: self.thing, writer: None, ..self },
            Step::Panic { holder } => Shared { writer: None, poisoned: true, ..self },
        }
    }

    /// The thing and its lock once `steps` have happened one after the other.
    pub open spec fn run(self, steps: Seq<Step>) -> Shared
        decreases steps.len(),
    {
        if steps.len() == 0 {
            self
        } else {
            self.run(steps.drop_last()).after(steps.last())
        }
    }

    /// Whether `steps` can happen one after the other.
    pub open spec fn admits_all(self, steps: Seq<Step>) -> bool
        decreases steps.len(),
    {
        steps.len() == 0 || (self.admits_all(steps.drop_last()) && self.run(
            steps.drop_last(),
        ).admits(steps.last()))
    }

    /// What the holder that looks in step `k` of `steps` sees: the thing as
    /// the steps before have left it.
    pub open spec fn seen(self, steps: Seq<Step>, k: int) -> ThingView {
        self.run(steps.take(k)).thing
    }
}

/// Steps that can happen one after the other can happen up to any point, and
/// the step at that point can happen next.
pub proof fn lemma_prefix(start: Shared, steps: Seq<Step>, k: int)
    requires
        start.admits_all(steps),
        0 <= k <= steps.len(),
    ensures
        start.admits_all(steps.take(k)),
        k < steps.len() ==> start.run(steps.take(k)).admits(steps[k]),
        k < steps.len() ==> start.run(steps.take(k + 1)) == start.run(steps.take(k)).after(
            steps[k],
        ),
    decreases steps.len(),
{
    if k < steps.len() {
        let earlier = steps.drop_last();
        if k + 1 == steps.len() {
            assert(steps.take(k + 1) == steps);
        } else {
            assert(earlier.take(k) == steps.take(k));
            assert(earlier.take(k + 1) == steps.take(k + 1));
            lemma_prefix(start, earlier, k);
        }
    } else {
        assert(steps.take(k) == steps);
    }
}

/// Exclusion: whatever steps the lock lets happen, readers and a writer never
/// have access together, and the thing changes only under a writer's hands.
pub proof fn lemma_consistent(start: Shared, steps: Seq<Step>)
    requires
        start.consistent(),
        start.admits_all(steps),
    ensures
        start.run(steps).consistent(),
    decreases steps.len(),
{
    if steps.len() > 0 {
        lemma_consistent(start, steps.drop_last());
    }
}

/// Poison is final: behind a poisoned lock no step can happen any more, so
/// that nobody looks at, or goes on from, what a writer left half-written.
pub proof fn lemma_poison_is_final(start: Shared, steps: Seq<Step>, step: Step)
    requires
        start.consistent(),
        start.admits_all(steps),
        start.run(steps).poisoned,
    ensures
        !start.run(steps).admits(step),
{
    // A poisoned lock has no holder, and grants no access.
    lemma_consistent(start, steps);
}

/// While no writer gives up its access, the thing that readers can see stays
/// as it was settled.
pub proof fn lemma_settled_until_release(start: Shared, steps: Seq<Step>)
    requires
        forall|i: int| 0 <= i < steps.len() ==> !(steps[i] is ReleaseWrite),
    ensures
        start.run(steps).settled == start.settled,
    decreases steps.len(),
{
    if steps.len() > 0 {
        let earlier = steps.drop_last();
        assert forall|i: int| 0 <= i < earlier.len() implies !(earlier[i] is ReleaseWrite) by {
            assert(earlier[i] == steps[i]);
        }
        lemma_settled_until_release(start, earlier);
    }
}

/// A holder that looks sees the thing as the last writer left it: never a
/// thing that a writer is still at work on.
pub proof fn lemma_look_sees_settled(start: Shared, steps: Seq<Step>, k: int)
    requires
        start.consistent(),
        start.admits_all(steps),
        0 <= k < steps.len(),
        steps[k] is Look,
    ensures
        start.seen(steps, k) == start.run(steps.take(k)).settled,
{
    // The holder that looks has shared access, so nobody writes.
    lemma_prefix(start, steps, k);
    lemma_consistent(start, steps.take(k));
}

/// Atomicity: among the steps of any number of readers and of one writer
/// that holds exclusive access once, every look sees the whole thing either
/// as it was before the writer came or as the writer left it. The looks before
/// the writer gives up its access see the one, the looks after it the other,
/// and none sees a thing with only some of the writer's values in it.
pub proof fn lemma_looks_see_before_or_after(
    thing: ThingView,
    steps: Seq<Step>,
    release: int,
    k: int,
)
    requires
        Shared::fresh(thing).admits_all(steps),
        0 <= release < steps.len(),
        steps[release] is ReleaseWrite,
        forall|i: int| 0 <= i < steps.len() && i != release ==> !(steps[i] is ReleaseWrite),
        0 <= k < steps.len(),
        steps[k] is Look,
    ensures
        k < release ==> Shared::fresh(thing).seen(steps, k) == thing,
        k > release ==> Shared::fresh(thing).seen(steps, k) == Shared::fresh(thing).run(
            steps.take(release),
        ).thing,
{
    let start = Shared::fresh(thing);
    lemma_look_sees_settled(start, steps, k);
    if k < release {
        let before = steps.take(k);
        assert forall|i: int| 0 <= i < before.len() implies !(before[i] is ReleaseWrite) by {
            assert(before[i] == steps[i]);
        }
        lemma_settled_until_release(start, before);
    } else {
        // Up to the release nothing settles; the release settles the thing as
        // the writer left it; after the release nothing settles again.
        let up_to = steps.take(release);
        assert forall|i: int| 0 <= i < up_to.len() implies !(up_to[i] is ReleaseWrite) by {
            assert(up_to[i] == steps[i]);
        }
        lemma_prefix(start, steps, release);
        let released = start.run(steps.take(release + 1));
        let later = steps.subrange(release + 1, k);
        assert forall|i: int| 0 <= i < later.len() implies !(later[i] is ReleaseWrite) by {
            assert(later[i] == steps[release + 1 + i]);
        }
        lemma_settled_until_release(released, later);
        lemma_run_in_two(start, steps.take(release + 1), later);
        assert(steps.take(release + 1) + later == steps.take(k));
    }
}

/// Steps that happen in two parts happen one part after the other.
pub proof fn lemma_run_in_two(start: Shared, first: Seq<Step>, second: Seq<Step>)
    ensures
        start.run(first + second) == start.run(first).run(second),
    decreases second.len(),
{
    if second.len() > 0 {
        lemma_run_in_two(start, first, second.drop_last());
        assert((first + second).drop_last() == first + second.drop_last());
    }
}

} // verus!
