//! What is proved of the scheduler's transitions: that they keep the
//! state well formed, the cadence of the tiers, the order of the requests
//! and of the phases, and when the wait ends.

use vstd::arithmetic::div_mod::{lemma_mod_self_0, lemma_small_mod};
use vstd::prelude::*;
use crate::constants::OBD_RESPONSE_ID;
use crate::obd::response::{decoded_snapshot, response_id};
use crate::scheduler::model::{deadline_from, next_cycle, SchedulerState};
use crate::scheduler::{Action, Event, Phase};

verus! {

/// No transition leads out of the well-formed states.
pub proof fn lemma_step_keeps_wf(state: SchedulerState, event: Event, now: nat)
    requires
        state.wf(),
        now <= u64::MAX,
    ensures
        state.step(event, now).0.wf(),
{
    if state.phase == Phase::AwaitingResponses {
        if let Event::Frame(frame) = event {
            if state.counts(frame) {
                let id = response_id(frame.data@)->0;
                state.outstanding.index_of_first_ensures(id);
                state.outstanding.remove_ensures(state.outstanding.index_of_first(id)->0);
            }
        }
    }
}

/// The cycle counter after `count` further cycles.
pub open spec fn cycle_after(cycle: nat, divisor: nat, count: nat) -> nat
    decreases count,
{
    if count == 0 {
        cycle
    } else {
        cycle_after(next_cycle(cycle, divisor), divisor, (count - 1) as nat)
    }
}

/// How many of `count` cycles in a row ask for the regular tier, when the
/// first of them has the counter `cycle`.
pub open spec fn regular_cycles(cycle: nat, divisor: nat, count: nat) -> nat
    decreases count,
{
    if count == 0 {
        0
    } else {
        let first: nat = if cycle == 0 {
            1
        } else {
            0
        };
        first + regular_cycles(next_cycle(cycle, divisor), divisor, (count - 1) as nat)
    }
}

/// A run of cycles that does not reach the end of its round never asks for
/// the regular tier, and its counter rises by one with each cycle.
proof fn lemma_inside_round(cycle: nat, divisor: nat, count: nat)
    requires
        1 <= cycle < divisor,
        cycle + count <= divisor,
    ensures
        regular_cycles(cycle, divisor, count) == 0,
        cycle_after(cycle, divisor, count) == if cycle + count == divisor {
            0
        } else {
            cycle + count
        },
    decreases count,
{
    if count == 0 {
    } else if cycle + 1 == divisor {
        lemma_mod_self_0(divisor as int);
        assert(count == 1);
        reveal_with_fuel(regular_cycles, 2);
        reveal_with_fuel(cycle_after, 2);
    } else {
        lemma_small_mod(cycle + 1, divisor);
        lemma_inside_round(cycle + 1, divisor, (count - 1) as nat);
    }
}

/// A run of cycles counts as its two parts do.
proof fn lemma_regular_cycles_split(cycle: nat, divisor: nat, first: nat, second: nat)
    ensures
        regular_cycles(cycle, divisor, first + second) == regular_cycles(cycle, divisor, first)
            + regular_cycles(cycle_after(cycle, divisor, first), divisor, second),
    decreases first,
{
    if first > 0 {
        lemma_regular_cycles_split(
            next_cycle(cycle, divisor),
            divisor,
            (first - 1) as nat,
            second,
        );
        assert((first + second - 1) as nat == (first - 1) as nat + second);
    }
}

/// Cadence: of as many cycles in a row as make a round, exactly one asks
/// for the regular tier, wherever in a round the run begins, and after them
/// the counter is where it was.
pub proof fn lemma_regular_once_per_round(cycle: nat, divisor: nat)
    requires
        1 <= divisor,
        cycle < divisor,
    ensures
        regular_cycles(cycle, divisor, divisor) == 1,
        cycle_after(cycle, divisor, divisor) == cycle,
{
    if divisor == 1 {
        lemma_mod_self_0(1);
        reveal_with_fuel(regular_cycles, 2);
        reveal_with_fuel(cycle_after, 2);
    } else if cycle == 0 {
        lemma_small_mod(1, divisor);
        lemma_inside_round(1, divisor, (divisor - 1) as nat);
    } else {
        let head: nat = (divisor - cycle) as nat;
        lemma_inside_round(cycle, divisor, head);
        lemma_regular_cycles_split(cycle, divisor, head, cycle);
        lemma_cycle_after_split(cycle, divisor, head, cycle);
        assert(head + cycle == divisor);
        lemma_small_mod(1, divisor);
        lemma_inside_round(1, divisor, (cycle - 1) as nat);
    }
}

/// The counter after a run of cycles is the counter after its two parts.
proof fn lemma_cycle_after_split(cycle: nat, divisor: nat, first: nat, second: nat)
    ensures
        cycle_after(cycle, divisor, first + second) == cycle_after(
            cycle_after(cycle, divisor, first),
            divisor,
            second,
        ),
    decreases first,
{
    if first > 0 {
        lemma_cycle_after_split(next_cycle(cycle, divisor), divisor, (first - 1) as nat, second);
        assert((first + second - 1) as nat == (first - 1) as nat + second);
    }
}

/// The plan of every cycle begins with the whole high-frequency tier. The
/// regular tier follows in the first cycle of a round and in no other.
pub proof fn lemma_plan_holds_high_frequency(state: SchedulerState)
    ensures
        state.plan().len() >= state.high_frequency.len(),
        state.plan().subrange(0, state.high_frequency.len() as int) == state.high_frequency,
        state.cycle == 0 ==> state.plan().subrange(
            state.high_frequency.len() as int,
            state.plan().len() as int,
        ) == state.regular,
        state.cycle != 0 ==> state.plan() == state.high_frequency,
{
    assert(state.plan().subrange(0, state.high_frequency.len() as int)
        =~= state.high_frequency);
    if state.cycle == 0 {
        assert(state.plan().subrange(
            state.high_frequency.len() as int,
            state.plan().len() as int,
        ) =~= state.regular);
    }
}

/// The place of a phase in the order of a cycle.
pub open spec fn phase_rank(phase: Phase) -> nat {
    match phase {
        Phase::Idle => 0,
        Phase::RequestingHighFreq => 1,
        Phase::RequestingRegular => 2,
        Phase::AwaitingResponses => 3,
        Phase::Publishing => 4,
    }
}

/// The phases follow each other in the order of the cycle: a step stays in
/// its phase or moves forward, never back, and only the step that ends the
/// publishing leads to rest. The counter of cycles moves with that step
/// and with no other.
pub proof fn lemma_phases_in_order(state: SchedulerState, event: Event, now: nat)
    ensures
        ({
            let after = state.step(event, now).0;
            let ends = state.phase == Phase::Publishing && event is Published;
            &&& ends ==> after.phase == Phase::Idle && after.cycle == next_cycle(
                state.cycle,
                state.divisor,
            )
            &&& !ends ==> phase_rank(after.phase) >= phase_rank(state.phase) && after.cycle
                == state.cycle
            &&& (state.phase == Phase::Idle && !(event is CycleStart)) ==> after == state
        }),
{
}

/// The state after a run of events, each with the time at which it was
/// reported.
pub open spec fn run(start: SchedulerState, events: Seq<(Event, nat)>) -> SchedulerState
    decreases events.len(),
{
    if events.len() == 0 {
        start
    } else {
        run(start, events.drop_last()).step(events.last().0, events.last().1).0
    }
}

/// How many cycles came to their end during a run.
pub open spec fn cycles_ended(start: SchedulerState, events: Seq<(Event, nat)>) -> nat
    decreases events.len(),
{
    if events.len() == 0 {
        0
    } else {
        let before = run(start, events.drop_last());
        let ended: nat = if before.phase == Phase::Publishing && events.last().0 is Published {
            1
        } else {
            0
        };
        cycles_ended(start, events.drop_last()) + ended
    }
}

/// Whatever is reported to a scheduler, and in whatever order, its counter
/// is that of its start moved on by the number of cycles that ended, and
/// what it was set up with stays. So the cycles of any run have the
/// counters that `cycle_after` gives, and of those `lemma_regular_once_per_round`
/// speaks.
pub proof fn lemma_run_counts_cycles(start: SchedulerState, events: Seq<(Event, nat)>)
    requires
        start.wf(),
        forall|i: int| 0 <= i < events.len() ==> (#[trigger] events[i]).1 <= u64::MAX,
    ensures
        run(start, events).wf(),
        run(start, events).cycle == cycle_after(
            start.cycle,
            start.divisor,
            cycles_ended(start, events),
        ),
        run(start, events).high_frequency == start.high_frequency,
        run(start, events).regular == start.regular,
        run(start, events).divisor == start.divisor,
        run(start, events).deadline_ms == start.deadline_ms,
    decreases events.len(),
{
    if events.len() > 0 {
        let earlier = events.drop_last();
        lemma_run_counts_cycles(start, earlier);
        let before = run(start, earlier);
        let (event, now) = events.last();
        lemma_step_keeps_wf(before, event, now);
        lemma_phases_in_order(before, event, now);
        lemma_snapshot_written_by_responses_only(before, event, now);
        lemma_cycle_after_split(start.cycle, start.divisor, cycles_ended(start, earlier), 1);
        reveal_with_fuel(cycle_after, 2);
    }
}

/// The parameters among the first `outcomes.len()` of `plan` whose request
/// was sent, in order: `outcomes[i]` says whether the request for
/// `plan[i]` was.
pub open spec fn sent_requests(plan: Seq<u8>, outcomes: Seq<bool>) -> Seq<u8>
    decreases outcomes.len(),
{
    if outcomes.len() == 0 {
        Seq::empty()
    } else {
        let before = sent_requests(plan, outcomes.drop_last());
        if outcomes.last() {
            before.push(plan[outcomes.len() - 1])
        } else {
            before
        }
    }
}

/// The state and the action after a cycle was begun from `start` and the
/// driver reported, one by one, the `outcomes` of the requests it was
/// asked to send.
pub open spec fn after_outcomes(
    start: SchedulerState,
    outcomes: Seq<bool>,
    now: nat,
) -> (SchedulerState, Action)
    decreases outcomes.len(),
{
    if outcomes.len() == 0 {
        start.step(Event::CycleStart, now)
    } else {
        let event = if outcomes.last() {
            Event::Sent
        } else {
            Event::SendFailed
        };
        after_outcomes(start, outcomes.drop_last(), now).0.step(event, now)
    }
}

/// The state in the middle of the requests of a cycle, when `outcomes`
/// were reported and requests remain.
pub open spec fn while_requesting(start: SchedulerState, outcomes: Seq<bool>) -> SchedulerState {
    let done = outcomes.len();
    let high = start.high_frequency.len();
    SchedulerState {
        phase: if done < high {
            Phase::RequestingHighFreq
        } else {
            Phase::RequestingRegular
        },
        cursor: if done < high {
            done
        } else {
            (done - high) as nat
        },
        issued: sent_requests(start.plan(), outcomes),
        ..start
    }
}

/// The state when all requests of a cycle were tried, with `outcomes`.
pub open spec fn when_requested(
    start: SchedulerState,
    outcomes: Seq<bool>,
    now: nat,
) -> SchedulerState {
    let sent = sent_requests(start.plan(), outcomes);
    SchedulerState {
        phase: if sent.len() == 0 {
            Phase::Publishing
        } else {
            Phase::AwaitingResponses
        },
        cursor: 0,
        issued: Seq::empty(),
        outstanding: sent,
        expected: sent.len(),
        received: 0,
        deadline: deadline_from(now, start.deadline_ms),
        ..start
    }
}

/// A cycle asks for the parameters of its plan, one after the other and
/// each once: the high-frequency tier in every cycle, then the regular tier
/// in the first cycle of a round. A request that fails is passed over and
/// the next one follows. When all were tried, the cycle waits for exactly
/// those that were sent, until the deadline counted from that moment; with
/// none sent it hands the snapshot on at once.
pub proof fn lemma_cycle_follows_plan(start: SchedulerState, outcomes: Seq<bool>, now: nat)
    requires
        start.wf(),
        start.phase == Phase::Idle,
        outcomes.len() <= start.plan().len(),
    ensures
        outcomes.len() < start.plan().len() ==> after_outcomes(start, outcomes, now) == (
            while_requesting(start, outcomes),
            Action::Send(start.plan()[outcomes.len() as int]),
        ),
        outcomes.len() == start.plan().len() ==> after_outcomes(start, outcomes, now).0
            == when_requested(start, outcomes, now),
        outcomes.len() == start.plan().len() ==> after_outcomes(start, outcomes, now).1
            == when_requested(start, outcomes, now).wanted(),
    decreases outcomes.len(),
{
    let plan = start.plan();
    let high = start.high_frequency.len();
    if outcomes.len() == 0 {
        let fresh = SchedulerState { cursor: 0, issued: Seq::empty(), ..start };
        if plan.len() > 0 {
            assert(after_outcomes(start, outcomes, now).0 =~= while_requesting(start, outcomes));
        } else {
            assert(after_outcomes(start, outcomes, now).0 =~= when_requested(
                start,
                outcomes,
                now,
            ));
        }
    } else {
        let earlier = outcomes.drop_last();
        lemma_cycle_follows_plan(start, earlier, now);
        let before = while_requesting(start, earlier);
        let done = earlier.len();
        assert(after_outcomes(start, earlier, now).0 == before);
        assert(before.current_request() == plan[done as int]);
        assert(sent_requests(plan, outcomes) == if outcomes.last() {
            sent_requests(plan, earlier).push(plan[done as int])
        } else {
            sent_requests(plan, earlier)
        });
        let after = before.after_request(outcomes.last(), now);
        assert(after_outcomes(start, outcomes, now) == after);
        if outcomes.len() < plan.len() {
            assert(after.0 =~= while_requesting(start, outcomes));
        } else {
            assert(after.0 =~= when_requested(start, outcomes, now));
        }
    }
}

/// Only a response frame that arrives during the wait changes the
/// snapshot, and it changes it as the decoder says. No transition changes
/// what the scheduler was set up with.
pub proof fn lemma_snapshot_written_by_responses_only(
    state: SchedulerState,
    event: Event,
    now: nat,
)
    ensures
        state.step(event, now).0.snapshot == if state.phase == Phase::AwaitingResponses && (
        event matches Event::Frame(frame) && frame.id == OBD_RESPONSE_ID) {
            decoded_snapshot(state.snapshot, event->Frame_0.data@)
        } else {
            state.snapshot
        },
        state.step(event, now).0.high_frequency == state.high_frequency,
        state.step(event, now).0.regular == state.regular,
        state.step(event, now).0.divisor == state.divisor,
        state.step(event, now).0.deadline_ms == state.deadline_ms,
{
}

/// The wait ends, and the snapshot is handed on, as soon as every request
/// was answered or the deadline is reached, whichever comes first; until
/// then the scheduler goes on waiting for the same deadline. A frame that
/// answers no outstanding request does not bring the end nearer.
pub proof fn lemma_wait_ends(state: SchedulerState, event: Event, now: nat)
    requires
        state.wf(),
        state.phase == Phase::AwaitingResponses,
        event is Frame || event is Timeout,
    ensures
        ({
            let (after, action) = state.step(event, now);
            &&& after.deadline == state.deadline
            &&& after.expected == state.expected
            &&& after.received == state.received + if event matches Event::Frame(frame)
                && state.counts(frame) {
                1nat
            } else {
                0nat
            }
            &&& (after.received == after.expected || now >= state.deadline) ==> (action
                == Action::Publish && after.phase == Phase::Publishing)
            &&& !(after.received == after.expected || now >= state.deadline) ==> (action
                == Action::Receive { deadline: state.deadline as u64 } && after.phase
                == Phase::AwaitingResponses)
        }),
{
}

} // verus!
