//! One capture event: what became of its targets, and the order in which
//! they are taken.

use vstd::prelude::*;
use vstd::multiset::lemma_multiset_empty_len;
use vstd::seq_lib::{to_multiset_build, to_multiset_len};

verus! {

/// What became of one capture target within an event.
#[derive(Clone, Copy, Debug, PartialEq, Eq, Structural)]
pub enum TargetOutcome {
    /// A frame was captured and stored.
    Persisted,
    /// No frame could be captured from the target.
    CaptureFailed,
    /// A frame was captured, but storing it failed.
    PersistFailed,
}

/// What one capture event observed.
#[derive(Debug)]
pub enum EventOutcome {
    /// The targets could not be listed: the event had no targets.
    EnumerationFailed,
    /// The targets were listed; one outcome for each, in the order listed.
    Processed(Vec<TargetOutcome>),
}

impl EventOutcome {
    /// The outcomes of the targets of the event, none where listing failed.
    pub open spec fn targets(self) -> Seq<TargetOutcome> {
        match self {
            EventOutcome::EnumerationFailed => Seq::empty(),
            EventOutcome::Processed(outcomes) => outcomes@,
        }
    }
}

/// How many members of `outcomes` are `kind`.
pub open spec fn tally(outcomes: Seq<TargetOutcome>, kind: TargetOutcome) -> nat {
    outcomes.to_multiset().count(kind)
}

/// Where there is no outcome, every tally is zero.
pub proof fn lemma_tally_none(outcomes: Seq<TargetOutcome>, kind: TargetOutcome)
    requires
        outcomes.len() == 0,
    ensures
        tally(outcomes, kind) == 0,
{
    broadcast use vstd::multiset::group_multiset_axioms;

    to_multiset_len(outcomes);
    lemma_multiset_empty_len(outcomes.to_multiset());
}

/// One more outcome raises the tally of its own kind by one and leaves the
/// tallies of the other kinds as they are.
pub proof fn lemma_tally_push(
    outcomes: Seq<TargetOutcome>,
    last: TargetOutcome,
    kind: TargetOutcome,
)
    ensures
        tally(outcomes.push(last), kind) == tally(outcomes, kind) + if last == kind {
            1nat
        } else {
            0nat
        },
{
    broadcast use vstd::multiset::group_multiset_axioms;

    to_multiset_build(outcomes, last);
}

/// Every outcome is of exactly one of the three kinds.
pub proof fn lemma_tally_partitions(outcomes: Seq<TargetOutcome>)
    ensures
        tally(outcomes, TargetOutcome::Persisted) + tally(outcomes, TargetOutcome::CaptureFailed)
            + tally(outcomes, TargetOutcome::PersistFailed) == outcomes.len(),
    decreases outcomes.len(),
{
    if outcomes.len() == 0 {
        lemma_tally_none(outcomes, TargetOutcome::Persisted);
        lemma_tally_none(outcomes, TargetOutcome::CaptureFailed);
        lemma_tally_none(outcomes, TargetOutcome::PersistFailed);
    } else {
        let front = outcomes.drop_last();
        assert(outcomes =~= front.push(outcomes.last()));
        lemma_tally_partitions(front);
        lemma_tally_push(front, outcomes.last(), TargetOutcome::Persisted);
        lemma_tally_push(front, outcomes.last(), TargetOutcome::CaptureFailed);
        lemma_tally_push(front, outcomes.last(), TargetOutcome::PersistFailed);
    }
}

/// Counts the members of `outcomes` that are `kind`.
pub fn count_outcomes(outcomes: &Vec<TargetOutcome>, kind: TargetOutcome) -> (count: usize)
    ensures
        count == tally(outcomes@, kind),
{
    let mut count: usize = 0;
    let mut i: usize = 0;
    proof {
        lemma_tally_none(outcomes@.take(0), kind);
    }
    while i < outcomes.len()
        invariant
            i <= outcomes.len(),
            count <= i,
            count == tally(outcomes@.take(i as int), kind),
        decreases outcomes.len() - i,
    {
        proof {
            assert(outcomes@.take(i + 1) =~= outcomes@.take(i as int).push(outcomes@[i as int]));
            lemma_tally_push(outcomes@.take(i as int), outcomes@[i as int], kind);
        }
        if outcomes[i] == kind {
            count += 1;
        }
        i += 1;
    }
    proof {
        assert(outcomes@.take(i as int) =~= outcomes@);
    }
    count
}

/// What the course of an event is, as plain mathematics.
pub struct EventRunModel {
    /// How many targets were listed; none where listing failed.
    pub targets: nat,
    /// Whether listing the targets failed.
    pub enumeration_failed: bool,
    /// The outcomes recorded so far, in the order of the targets.
    pub outcomes: Seq<TargetOutcome>,
}

impl EventRunModel {
    /// The course of an event at its start, given how many targets were
    /// listed, or that listing them failed.
    pub open spec fn begin(listed: Option<usize>) -> EventRunModel {
        EventRunModel {
            targets: match listed {
                Some(count) => count as nat,
                None => 0,
            },
            enumeration_failed: listed is None,
            outcomes: Seq::empty(),
        }
    }

    /// The target to take next: the first one without an outcome. Targets
    /// are numbered from zero in the order in which they were listed.
    pub open spec fn next_target(self) -> Option<nat> {
        if self.outcomes.len() < self.targets {
            Some(self.outcomes.len())
        } else {
            None
        }
    }

    /// The course after the target that was due had `outcome`. Whatever the
    /// outcome, the event goes on with the target behind it.
    pub open spec fn record(self, outcome: TargetOutcome) -> EventRunModel {
        if self.next_target() is Some {
            EventRunModel { outcomes: self.outcomes.push(outcome), ..self }
        } else {
            self
        }
    }
}

/// The course of one capture event. The targets are taken one at a time, in
/// the order in which they were listed, and every one of them is taken: a
/// target that fails does not keep the others from their turn.
#[derive(Debug)]
pub struct EventRun {
    listing_failed: bool,
    /// How many targets have not had their turn yet.
    remaining: usize,
    outcomes: Vec<TargetOutcome>,
}

impl View for EventRun {
    type V = EventRunModel;

    closed spec fn view(&self) -> EventRunModel {
        if self.listing_failed {
            EventRunModel { targets: 0, enumeration_failed: true, outcomes: Seq::empty() }
        } else {
            EventRunModel {
                targets: self.outcomes@.len() + self.remaining as nat,
                enumeration_failed: false,
                outcomes: self.outcomes@,
            }
        }
    }
}

impl EventRun {
    /// Starts an event with `listed` targets, or with none where listing
    /// them failed (`None`). Targets are listed anew for every event.
    pub fn begin(listed: Option<usize>) -> (run: EventRun)
        ensures
            run@ == EventRunModel::begin(listed),
    {
        match listed {
            Some(count) => EventRun {
                listing_failed: false,
                remaining: count,
                outcomes: Vec::new(),
            },
            None => EventRun { listing_failed: true, remaining: 0, outcomes: Vec::new() },
        }
    }

    /// The number of the target to capture next, or `None` once every target
    /// has had its turn.
    pub fn next_target(&self) -> (next: Option<usize>)
        ensures
            match self@.next_target() {
                Some(target) => next == Some(target as usize) && target <= usize::MAX,
                None => next is None,
            },
    {
        if !self.listing_failed && self.remaining > 0 {
            Some(self.outcomes.len())
        } else {
            None
        }
    }

    /// Records what became of the target that was due. Where no target is
    /// due, nothing is recorded.
    pub fn record(&mut self, outcome: TargetOutcome)
        ensures
            final(self)@ == old(self)@.record(outcome),
    {
        if !self.listing_failed && self.remaining > 0 {
            self.outcomes.push(outcome);
            self.remaining = self.remaining - 1;
        }
    }

    /// Ends the event and hands out what it observed.
    pub fn finish(self) -> (outcome: EventOutcome)
        ensures
            outcome is EnumerationFailed == self@.enumeration_failed,
            outcome.targets() == self@.outcomes,
    {
        if self.listing_failed {
            EventOutcome::EnumerationFailed
        } else {
            EventOutcome::Processed(self.outcomes)
        }
    }
}

/// Every target has its turn, in order, whatever became of the others:
/// once `done` targets have an outcome, the next one is target number
/// `done.len()` while targets are left, and the event is over when there
/// are none.
pub proof fn lemma_every_target_has_its_turn(
    run: EventRunModel,
    outcome: TargetOutcome,
    other: TargetOutcome,
)
    requires
        run.outcomes.len() <= run.targets,
    ensures
        run.record(outcome).next_target() == run.record(other).next_target(),
        run.record(outcome).outcomes.len() <= run.targets,
        run.next_target() is Some ==> run.record(outcome).outcomes.len() == run.outcomes.len() + 1,
        run.record(outcome).next_target() is None <==> run.outcomes.len() + 1 >= run.targets,
{
}

} // verus!
