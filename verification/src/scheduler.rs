//! The capture scheduler: a machine of two states, driven by what the
//! caller reads from its clocks.
//!
//! One round of a session goes as follows. The caller reads how long the
//! session has lasted and asks `begin_event` whether another capture event
//! may start. If so, it lists the capture targets, captures and stores one
//! frame from each in turn, measures how long that took and hands both to
//! `finish_event`, which counts the event and says how long to pause so that
//! the next event starts one interval after this one did.

use vstd::prelude::*;
use crate::config::{ConfigModel, SessionConfig};
use crate::event::{count_outcomes, lemma_tally_none, tally, EventOutcome, TargetOutcome};

verus! {

/// Nanoseconds in one second. The scheduler measures time in nanoseconds.
pub const NANOS_PER_SECOND: u128 = 1_000_000_000;

/// The state of a session.
#[derive(Clone, Copy, Debug, PartialEq, Eq, Structural)]
pub enum Phase {
    /// Capture events are still started.
    Running,
    /// The session has lasted its total duration; nothing more is done.
    Terminated,
}

/// What the caller is to do next.
#[derive(Clone, Copy, Debug, PartialEq, Eq, Structural)]
pub enum Directive {
    /// Carry out one capture event, then call `finish_event`.
    RunEvent,
    /// Leave the loop: the session is over.
    Stop,
}

/// The account of one finished capture event.
#[derive(Clone, Copy, Debug)]
pub struct EventReport {
    /// How many targets the event had.
    pub targets: usize,
    /// How many frames were captured and stored.
    pub persisted: usize,
    /// How many targets gave no frame.
    pub capture_failures: usize,
    /// How many frames could not be stored.
    pub persist_failures: usize,
    /// Whether listing the targets failed.
    pub enumeration_failed: bool,
    /// How long to pause before the next reading of the session clock, in
    /// nanoseconds; `None` where the next event is already due.
    pub pause_nanos: Option<u128>,
}

/// What a scheduler is, as plain mathematics. Times are in nanoseconds.
pub struct SchedulerModel {
    /// From the start of one capture event to the start of the next.
    pub interval: nat,
    /// Once the session has lasted this long, no further event is started.
    pub total: nat,
    /// The progress counter: how many capture events have completed.
    pub completed: nat,
    pub phase: Phase,
}

impl SchedulerModel {
    /// The scheduler of a session that is about to start.
    pub open spec fn start(config: ConfigModel) -> SchedulerModel {
        SchedulerModel {
            interval: config.interval * NANOS_PER_SECOND as nat,
            total: config.total * NANOS_PER_SECOND as nat,
            completed: 0,
            phase: Phase::Running,
        }
    }

    /// What the scheduler decides once the session has lasted `since_start`:
    /// another event while it is running and the total duration is not
    /// reached. The test is made before an event starts and never during it.
    pub open spec fn directive(self, since_start: nat) -> Directive {
        if self.phase == Phase::Running && since_start < self.total {
            Directive::RunEvent
        } else {
            Directive::Stop
        }
    }

    /// The scheduler after that decision: terminated where it said `Stop`.
    pub open spec fn begin(self, since_start: nat) -> SchedulerModel {
        if self.directive(since_start) == Directive::RunEvent {
            self
        } else {
            SchedulerModel { phase: Phase::Terminated, ..self }
        }
    }

    /// The scheduler after a capture event: a running one has counted it,
    /// whatever happened to the targets; a terminated one stays as it is.
    pub open spec fn finish(self) -> SchedulerModel {
        if self.phase == Phase::Running {
            SchedulerModel { completed: self.completed + 1, ..self }
        } else {
            self
        }
    }

    /// The pause after an event whose work took `work`: what is left of the
    /// interval, and none where the work used it up.
    pub open spec fn pause(self, work: nat) -> Option<nat> {
        if self.phase == Phase::Running && work < self.interval {
            Some((self.interval - work) as nat)
        } else {
            None
        }
    }

    /// The events to expect over the whole session.
    pub open spec fn expected_events(self) -> nat {
        self.total / self.interval
    }
}

/// The scheduler of one capture session. It owns the progress counter of
/// the session: it alone counts, and others read `completed`.
#[derive(Debug)]
pub struct CaptureScheduler {
    interval_nanos: u128,
    total_nanos: u128,
    completed: u64,
    phase: Phase,
}

impl View for CaptureScheduler {
    type V = SchedulerModel;

    closed spec fn view(&self) -> SchedulerModel {
        SchedulerModel {
            interval: self.interval_nanos as nat,
            total: self.total_nanos as nat,
            completed: self.completed as nat,
            phase: self.phase,
        }
    }
}

impl CaptureScheduler {
    #[verifier::type_invariant]
    spec fn well_formed(self) -> bool {
        self.interval_nanos > 0
    }

    /// The scheduler of a session with the given configuration: running,
    /// with no event counted.
    pub fn new(config: &SessionConfig) -> (scheduler: CaptureScheduler)
        ensures
            scheduler@ == SchedulerModel::start(config@),
            scheduler@.interval > 0,
    {
        let interval_seconds: u128 = config.interval_seconds();
        let total_seconds: u128 = config.total_seconds();
        CaptureScheduler {
            interval_nanos: interval_seconds * NANOS_PER_SECOND,
            total_nanos: total_seconds * NANOS_PER_SECOND,
            completed: 0,
            phase: Phase::Running,
        }
    }

    /// Decides whether a capture event starts now, `since_start_nanos`
    /// nanoseconds into the session. Call it at the top of every round,
    /// before any work of the event. Once the total duration is reached the
    /// scheduler is terminated and answers `Stop` from then on. The counter
    /// is left alone.
    pub fn begin_event(&mut self, since_start_nanos: u128) -> (directive: Directive)
        ensures
            directive == old(self)@.directive(since_start_nanos as nat),
            final(self)@ == old(self)@.begin(since_start_nanos as nat),
            final(self)@.completed == old(self)@.completed,
    {
        proof {
            use_type_invariant(&*self);
        }
        match self.phase {
            Phase::Running => {
                if since_start_nanos < self.total_nanos {
                    Directive::RunEvent
                } else {
                    self.phase = Phase::Terminated;
                    Directive::Stop
                }
            },
            Phase::Terminated => Directive::Stop,
        }
    }

    /// Closes a capture event whose work took `work_nanos` nanoseconds.
    ///
    /// A running scheduler counts the event, exactly once and whatever
    /// `outcome` holds: targets that failed neither take the event back nor
    /// end the session. A terminated scheduler does not change. The report
    /// tallies the outcomes and gives the pause that keeps the events one
    /// interval apart.
    ///
    /// The counter must have room for one more event.
    pub fn finish_event(&mut self, outcome: &EventOutcome, work_nanos: u128) -> (report:
        EventReport)
        requires
            old(self)@.phase == Phase::Running ==> old(self)@.completed < u64::MAX,
        ensures
            final(self)@ == old(self)@.finish(),
            final(self)@.completed >= old(self)@.completed,
            final(self)@.phase == old(self)@.phase,
            forall|since_start: nat|
                final(self)@.directive(since_start) == old(self)@.directive(since_start),
            report.targets == outcome.targets().len(),
            report.persisted == tally(outcome.targets(), TargetOutcome::Persisted),
            report.capture_failures == tally(outcome.targets(), TargetOutcome::CaptureFailed),
            report.persist_failures == tally(outcome.targets(), TargetOutcome::PersistFailed),
            report.enumeration_failed == (outcome is EnumerationFailed),
            match report.pause_nanos {
                Some(pause) => old(self)@.pause(work_nanos as nat) == Some(pause as nat),
                None => old(self)@.pause(work_nanos as nat) is None,
            },
            report.pause_nanos matches Some(pause) ==> pause + work_nanos == old(self)@.interval
                && pause > 0 && old(self)@.phase == Phase::Running,
            report.pause_nanos is None ==> work_nanos >= old(self)@.interval || old(self)@.phase
                == Phase::Terminated,
    {
        proof {
            use_type_invariant(&*self);
        }
        let pause_nanos: Option<u128> = match self.phase {
            Phase::Running => {
                self.completed = self.completed + 1;
                if work_nanos < self.interval_nanos {
                    Some(self.interval_nanos - work_nanos)
                } else {
                    None
                }
            },
            Phase::Terminated => None,
        };
        proof {
            if outcome is EnumerationFailed {
                lemma_tally_none(outcome.targets(), TargetOutcome::Persisted);
                lemma_tally_none(outcome.targets(), TargetOutcome::CaptureFailed);
                lemma_tally_none(outcome.targets(), TargetOutcome::PersistFailed);
            }
        }
        match outcome {
            EventOutcome::EnumerationFailed => EventReport {
                targets: 0,
                persisted: 0,
                capture_failures: 0,
                persist_failures: 0,
                enumeration_failed: true,
                pause_nanos,
            },
            EventOutcome::Processed(outcomes) => EventReport {
                targets: outcomes.len(),
                persisted: count_outcomes(outcomes, TargetOutcome::Persisted),
                capture_failures: count_outcomes(outcomes, TargetOutcome::CaptureFailed),
                persist_failures: count_outcomes(outcomes, TargetOutcome::PersistFailed),
                enumeration_failed: false,
                pause_nanos,
            },
        }
    }

    /// The progress counter: how many capture events have completed.
    pub fn completed(&self) -> (count: u64)
        ensures
            count == self@.completed,
    {
        self.completed
    }

    /// The state of the session.
    pub fn phase(&self) -> (phase: Phase)
        ensures
            phase == self@.phase,
    {
        self.phase
    }

    /// Whether the session is over.
    pub fn is_terminated(&self) -> (terminated: bool)
        ensures
            terminated == (self@.phase == Phase::Terminated),
    {
        match self.phase {
            Phase::Running => false,
            Phase::Terminated => true,
        }
    }
}

} // verus!
