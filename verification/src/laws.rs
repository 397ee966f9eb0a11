//! What holds of every session that the scheduler runs.
//!
//! A session is a sequence of rounds. In each round the caller reads the
//! session clock, asks the scheduler whether an event may begin and, if so,
//! does the work of the event and closes it. The laws below speak of the
//! scheduler after any such sequence, given only what the caller observed.

use vstd::prelude::*;
use vstd::arithmetic::div_mod::{lemma_div_multiples_vanish_quotient, lemma_fundamental_div_mod};
use crate::config::{expected_events, ConfigModel};
use crate::event::TargetOutcome;
use crate::scheduler::{Directive, Phase, SchedulerModel, NANOS_PER_SECOND};

verus! {

/// One round of a session, as the caller observed it. Times are in
/// nanoseconds.
pub struct Round {
    /// How long the session had lasted when the round began.
    pub at: nat,
    /// How long the work of the capture event took.
    pub work: nat,
    /// What became of the targets of the event.
    pub outcomes: Seq<TargetOutcome>,
}

/// The scheduler after one round: asked at the top, and the event closed.
pub open spec fn after_round(scheduler: SchedulerModel, round: Round) -> SchedulerModel {
    scheduler.begin(round.at).finish()
}

/// The scheduler after the given rounds, in their order.
pub open spec fn after_rounds(scheduler: SchedulerModel, rounds: Seq<Round>) -> SchedulerModel
    decreases rounds.len(),
{
    if rounds.len() == 0 {
        scheduler
    } else {
        after_rounds(after_round(scheduler, rounds.first()), rounds.drop_first())
    }
}

/// How many rounds at the front of `rounds` begin before `total` is reached.
pub open spec fn events_before(total: nat, rounds: Seq<Round>) -> nat
    decreases rounds.len(),
{
    if rounds.len() == 0 || rounds.first().at >= total {
        0
    } else {
        1 + events_before(total, rounds.drop_first())
    }
}

/// How long a round lasts from its top to the end of its pause.
pub open spec fn round_length(scheduler: SchedulerModel, work: nat) -> nat {
    match scheduler.pause(work) {
        Some(pause) => work + pause,
        None => work,
    }
}

/// No round begins before the round in front of it has done its work and
/// sat out its pause. This is what a clock that does not run backwards and
/// a sleep that does not return early give.
pub open spec fn paced(scheduler: SchedulerModel, rounds: Seq<Round>) -> bool {
    forall|k: int|
        0 < k < rounds.len() ==> (#[trigger] rounds[k]).at >= rounds[k - 1].at + round_length(
            scheduler,
            rounds[k - 1].work,
        )
}

/// Every round begins less than one interval behind the ideal schedule, on
/// which round `k` begins `k` intervals into the session.
pub open spec fn punctual(scheduler: SchedulerModel, rounds: Seq<Round>) -> bool {
    forall|k: int|
        0 <= k < rounds.len() ==> (#[trigger] rounds[k]).at < (k + 1) * scheduler.interval
}

/// The two sessions differ at most in what became of their targets: they
/// have as many rounds, and these began at the same times and took as long.
pub open spec fn same_timing(one: Seq<Round>, other: Seq<Round>) -> bool {
    &&& one.len() == other.len()
    &&& forall|k: int|
        0 <= k < one.len() ==> (#[trigger] one[k]).at == other[k].at && one[k].work
            == other[k].work
}

/// Drift compensation: work and pause together last exactly one interval
/// where the work fits into the interval, and as long as the work where it
/// does not. A round is never shorter than the interval.
pub proof fn lemma_round_lasts_an_interval(scheduler: SchedulerModel, work: nat)
    requires
        scheduler.phase == Phase::Running,
    ensures
        work <= scheduler.interval ==> round_length(scheduler, work) == scheduler.interval,
        work > scheduler.interval ==> round_length(scheduler, work) == work,
        round_length(scheduler, work) >= scheduler.interval,
{
}

/// A terminated scheduler does no further work: no round changes it.
pub proof fn lemma_terminated_is_final(scheduler: SchedulerModel, rounds: Seq<Round>)
    requires
        scheduler.phase == Phase::Terminated,
    ensures
        after_rounds(scheduler, rounds) == scheduler,
    decreases rounds.len(),
{
    if rounds.len() > 0 {
        lemma_terminated_is_final(scheduler, rounds.drop_first());
    }
}

/// What `events_before` counts: rounds that all begin before `total`, up to
/// the first one that does not.
pub proof fn lemma_events_before_bounds(total: nat, rounds: Seq<Round>)
    ensures
        events_before(total, rounds) <= rounds.len(),
        forall|j: int| 0 <= j < events_before(total, rounds) ==> (#[trigger] rounds[j]).at < total,
        events_before(total, rounds) < rounds.len() ==> rounds[events_before(
            total,
            rounds,
        ) as int].at >= total,
    decreases rounds.len(),
{
    if rounds.len() > 0 && rounds.first().at < total {
        let rest = rounds.drop_first();
        lemma_events_before_bounds(total, rest);
        assert forall|j: int| 0 <= j < events_before(total, rounds) implies (
        #[trigger] rounds[j]).at < total by {
            if j > 0 {
                assert(rounds[j] == rest[j - 1]);
            }
        }
        if events_before(total, rounds) < rounds.len() {
            assert(rounds[events_before(total, rounds) as int] == rest[events_before(
                total,
                rest,
            ) as int]);
        }
    }
}

/// Fewer rounds never hold more events.
pub proof fn lemma_events_before_prefix(total: nat, rounds: Seq<Round>, k: int)
    requires
        0 <= k <= rounds.len(),
    ensures
        events_before(total, rounds.take(k)) <= events_before(total, rounds),
    decreases rounds.len(),
{
    if k > 0 && rounds.first().at < total {
        assert(rounds.take(k).first() == rounds.first());
        assert(rounds.take(k).drop_first() =~= rounds.drop_first().take(k - 1));
        lemma_events_before_prefix(total, rounds.drop_first(), k - 1);
    }
}

/// The progress counter equals the number of completed events: after any
/// rounds, a scheduler that was running has counted exactly the rounds that
/// began before the total duration was reached, and it is terminated as soon
/// as one round did not.
pub proof fn lemma_counter_counts_events(scheduler: SchedulerModel, rounds: Seq<Round>)
    requires
        scheduler.phase == Phase::Running,
    ensures
        after_rounds(scheduler, rounds).completed == scheduler.completed + events_before(
            scheduler.total,
            rounds,
        ),
        after_rounds(scheduler, rounds).interval == scheduler.interval,
        after_rounds(scheduler, rounds).total == scheduler.total,
        after_rounds(scheduler, rounds).phase == Phase::Terminated <==> events_before(
            scheduler.total,
            rounds,
        ) < rounds.len(),
    decreases rounds.len(),
{
    if rounds.len() > 0 {
        let next = after_round(scheduler, rounds.first());
        if rounds.first().at < scheduler.total {
            lemma_counter_counts_events(next, rounds.drop_first());
        } else {
            lemma_terminated_is_final(next, rounds.drop_first());
        }
    }
}

/// The progress counter never goes down: after the first `k` of the rounds
/// it is at most what it is after all of them, and at least what it was at
/// the start.
pub proof fn lemma_counter_monotone(scheduler: SchedulerModel, rounds: Seq<Round>, k: int)
    requires
        0 <= k <= rounds.len(),
    ensures
        scheduler.completed <= after_rounds(scheduler, rounds.take(k)).completed,
        after_rounds(scheduler, rounds.take(k)).completed <= after_rounds(
            scheduler,
            rounds,
        ).completed,
{
    if scheduler.phase == Phase::Running {
        lemma_counter_counts_events(scheduler, rounds.take(k));
        lemma_counter_counts_events(scheduler, rounds);
        lemma_events_before_prefix(scheduler.total, rounds, k);
    } else {
        lemma_terminated_is_final(scheduler, rounds.take(k));
        lemma_terminated_is_final(scheduler, rounds);
    }
}

/// Targets that fail change nothing in the course of a session: the same
/// events are counted and the session ends at the same round as it would
/// have with every frame captured and stored.
pub proof fn lemma_failures_change_no_schedule(
    scheduler: SchedulerModel,
    one: Seq<Round>,
    other: Seq<Round>,
)
    requires
        same_timing(one, other),
    ensures
        after_rounds(scheduler, one) == after_rounds(scheduler, other),
    decreases one.len(),
{
    if one.len() > 0 {
        assert(one.first().at == other.first().at) by {
            assert(one[0].at == other[0].at);
        }
        assert(same_timing(one.drop_first(), other.drop_first())) by {
            assert forall|k: int| 0 <= k < one.drop_first().len() implies (
            #[trigger] one.drop_first()[k]).at == other.drop_first()[k].at
                && one.drop_first()[k].work == other.drop_first()[k].work by {
                assert(one[k + 1].at == other[k + 1].at);
            }
        }
        lemma_failures_change_no_schedule(
            after_round(scheduler, one.first()),
            one.drop_first(),
            other.drop_first(),
        );
    }
}

/// A session whose total duration is zero completes no event, whatever the
/// clock reads.
pub proof fn lemma_zero_duration_runs_nothing(scheduler: SchedulerModel, rounds: Seq<Round>)
    requires
        scheduler.total == 0,
    ensures
        after_rounds(scheduler, rounds).completed == scheduler.completed,
        forall|since_start: nat| scheduler.directive(since_start) == Directive::Stop,
{
    if scheduler.phase == Phase::Running {
        lemma_counter_counts_events(scheduler, rounds);
    } else {
        lemma_terminated_is_final(scheduler, rounds);
    }
}

/// In paced rounds, round `k` begins no earlier than `k` intervals into the
/// session.
pub proof fn lemma_paced_rounds_begin_late_enough(
    scheduler: SchedulerModel,
    rounds: Seq<Round>,
    k: int,
)
    requires
        scheduler.phase == Phase::Running,
        paced(scheduler, rounds),
        0 <= k < rounds.len(),
    ensures
        rounds[k].at >= k * scheduler.interval,
    decreases k,
{
    if k > 0 {
        lemma_paced_rounds_begin_late_enough(scheduler, rounds, k - 1);
        lemma_round_lasts_an_interval(scheduler, rounds[k - 1].work);
        assert(rounds[k].at >= rounds[k - 1].at + scheduler.interval);
        assert((k - 1) * scheduler.interval + scheduler.interval == k * scheduler.interval)
            by (nonlinear_arith);
    } else {
        assert(0 * scheduler.interval == 0);
    }
}

/// A session never completes more than one event beyond the expected
/// number, and none beyond it where the interval divides the total duration.
/// The one event more is the event that begins in the last, shorter stretch
/// of the session: whether an event may begin is decided when it begins, and
/// not by when it will end.
pub proof fn lemma_event_count_upper_bound(scheduler: SchedulerModel, rounds: Seq<Round>)
    requires
        scheduler.phase == Phase::Running,
        scheduler.completed == 0,
        scheduler.interval > 0,
        paced(scheduler, rounds),
    ensures
        after_rounds(scheduler, rounds).completed <= scheduler.expected_events() + 1,
        scheduler.total % scheduler.interval == 0 ==> after_rounds(scheduler, rounds).completed
            <= scheduler.expected_events(),
{
    lemma_counter_counts_events(scheduler, rounds);
    lemma_events_before_bounds(scheduler.total, rounds);
    let count = events_before(scheduler.total, rounds);
    if count > 0 {
        let last = count - 1;
        lemma_paced_rounds_begin_late_enough(scheduler, rounds, last);
        assert(rounds[last].at < scheduler.total);
        let interval = scheduler.interval as int;
        let total = scheduler.total as int;
        lemma_fundamental_div_mod(total, interval);
        assert(last * interval < total);
        assert(last <= total / interval) by (nonlinear_arith)
            requires
                last * interval < total,
                total == interval * (total / interval) + total % interval,
                0 <= total % interval < interval,
                interval > 0,
        ;
        if total % interval == 0 {
            assert(last < total / interval) by (nonlinear_arith)
                requires
                    last * interval < total,
                    total == interval * (total / interval),
                    interval > 0,
            ;
        }
    }
}

/// A session that has ended after punctual rounds has completed at least
/// the expected number of events.
pub proof fn lemma_event_count_lower_bound(scheduler: SchedulerModel, rounds: Seq<Round>)
    requires
        scheduler.phase == Phase::Running,
        scheduler.completed == 0,
        scheduler.interval > 0,
        punctual(scheduler, rounds),
        after_rounds(scheduler, rounds).phase == Phase::Terminated,
    ensures
        after_rounds(scheduler, rounds).completed >= scheduler.expected_events(),
{
    lemma_counter_counts_events(scheduler, rounds);
    lemma_events_before_bounds(scheduler.total, rounds);
    let count = events_before(scheduler.total, rounds) as int;
    let interval = scheduler.interval as int;
    let total = scheduler.total as int;
    assert(rounds[count].at >= total);
    assert(total < (count + 1) * interval);
    lemma_fundamental_div_mod(total, interval);
    assert(total / interval <= count) by (nonlinear_arith)
        requires
            total < (count + 1) * interval,
            total == interval * (total / interval) + total % interval,
            0 <= total % interval < interval,
            interval > 0,
    ;
}

/// The number of events that a session completes is the expected number,
/// within one event: once the session has ended, after rounds that were
/// paced and punctual, it lies between the expected number and one more.
pub proof fn lemma_event_count_within_one(scheduler: SchedulerModel, rounds: Seq<Round>)
    requires
        scheduler.phase == Phase::Running,
        scheduler.completed == 0,
        scheduler.interval > 0,
        paced(scheduler, rounds),
        punctual(scheduler, rounds),
        after_rounds(scheduler, rounds).phase == Phase::Terminated,
    ensures
        scheduler.expected_events() <= after_rounds(scheduler, rounds).completed
            <= scheduler.expected_events() + 1,
{
    lemma_event_count_upper_bound(scheduler, rounds);
    lemma_event_count_lower_bound(scheduler, rounds);
}

/// The scheduler of a fresh session expects as many events as its
/// configuration does: counting in nanoseconds changes nothing.
pub proof fn lemma_start_expects_as_configured(config: ConfigModel)
    requires
        config.interval > 0,
    ensures
        SchedulerModel::start(config).phase == Phase::Running,
        SchedulerModel::start(config).completed == 0,
        SchedulerModel::start(config).interval > 0,
        SchedulerModel::start(config).expected_events() == expected_events(
            config.interval,
            config.total,
        ),
{
    let nanos = NANOS_PER_SECOND as int;
    lemma_div_multiples_vanish_quotient(nanos, config.total as int, config.interval as int);
    assert(config.interval * nanos == nanos * config.interval) by (nonlinear_arith);
    assert(config.total * nanos == nanos * config.total) by (nonlinear_arith);
}

} // verus!
