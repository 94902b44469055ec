//! The scheduler as mathematics: its state, and the transition that an
//! event brings about.

use vstd::prelude::*;
use crate::constants::OBD_RESPONSE_ID;
use crate::obd::frame::RawFrame;
use crate::obd::response::{decoded_snapshot, response_id};
use crate::scheduler::{Action, Event, Phase};
use crate::value::PhysicalValue;
use crate::vehicle::data::{Field, VehicleData};

verus! {

/// The time at which a wait that starts at `now` ends. A time beyond what
/// 64 bits hold is held at the largest time.
pub open spec fn deadline_from(now: nat, wait: nat) -> nat {
    if now + wait > u64::MAX {
        u64::MAX as nat
    } else {
        now + wait
    }
}

/// The cycle counter that follows `cycle` in rounds of `divisor` cycles.
pub open spec fn next_cycle(cycle: nat, divisor: nat) -> nat {
    (cycle + 1) % divisor
}

/// The state of a scheduler as mathematics.
#[verifier::ext_equal]
pub struct SchedulerState {
    /// The parameters asked for in every cycle.
    pub high_frequency: Seq<u8>,
    /// The parameters asked for in one cycle of each round.
    pub regular: Seq<u8>,
    /// How many cycles make a round.
    pub divisor: nat,
    /// How long a cycle waits, in milliseconds.
    pub deadline_ms: nat,
    /// Where in its cycle the scheduler stands.
    pub phase: Phase,
    /// The number of the cycle within its round, from zero.
    pub cycle: nat,
    /// While requesting: the place in the tier of the request under way.
    pub cursor: nat,
    /// The parameters whose request was sent in this cycle.
    pub issued: Seq<u8>,
    /// The requests still waiting for an answer.
    pub outstanding: Seq<u8>,
    /// How many requests the cycle waits for.
    pub expected: nat,
    /// How many of them were answered.
    pub received: nat,
    /// When the cycle stops waiting.
    pub deadline: nat,
    /// The snapshot.
    pub snapshot: Map<Field, PhysicalValue>,
}

impl SchedulerState {
    /// What holds of every state that a scheduler reaches.
    pub open spec fn wf(self) -> bool {
        &&& 1 <= self.divisor <= u32::MAX
        &&& self.cycle < self.divisor
        &&& self.deadline_ms <= u64::MAX
        &&& self.deadline <= u64::MAX
        &&& self.phase == Phase::RequestingHighFreq ==> self.cursor < self.high_frequency.len()
        &&& self.phase == Phase::RequestingRegular ==> self.cursor < self.regular.len()
        &&& self.received + self.outstanding.len() == self.expected
        &&& self.phase == Phase::AwaitingResponses ==> self.received < self.expected
        &&& forall|f: Field| self.snapshot.dom().contains(f)
    }

    /// Whether this cycle asks for the regular tier: the first cycle of
    /// each round does.
    pub open spec fn regular_due(self) -> bool {
        self.cycle == 0
    }

    /// The requests of this cycle, in order: the high-frequency tier, then
    /// the regular tier where it is due.
    pub open spec fn plan(self) -> Seq<u8> {
        if self.regular_due() {
            self.high_frequency + self.regular
        } else {
            self.high_frequency
        }
    }

    /// While requesting: the parameter whose request is under way.
    pub open spec fn current_request(self) -> u8 {
        if self.phase == Phase::RequestingHighFreq {
            self.high_frequency[self.cursor as int]
        } else {
            self.regular[self.cursor as int]
        }
    }

    /// What the scheduler waits for in this state.
    pub open spec fn wanted(self) -> Action {
        match self.phase {
            Phase::Idle => Action::Rest,
            Phase::RequestingHighFreq => Action::Send(self.current_request()),
            Phase::RequestingRegular => Action::Send(self.current_request()),
            Phase::AwaitingResponses => Action::Receive { deadline: self.deadline as u64 },
            Phase::Publishing => Action::Publish,
        }
    }

    /// The requests are done: the wait begins, until `deadline_ms` after
    /// `now`, for the requests that were sent. With none sent there is
    /// nothing to wait for.
    pub open spec fn begin_await(self, now: nat) -> (SchedulerState, Action) {
        let deadline = deadline_from(now, self.deadline_ms);
        let armed = SchedulerState {
            cursor: 0,
            issued: Seq::empty(),
            outstanding: self.issued,
            expected: self.issued.len(),
            received: 0,
            deadline,
            ..self
        };
        if self.issued.len() == 0 {
            (SchedulerState { phase: Phase::Publishing, ..armed }, Action::Publish)
        } else {
            (
                SchedulerState { phase: Phase::AwaitingResponses, ..armed },
                Action::Receive { deadline: deadline as u64 },
            )
        }
    }

    /// The high-frequency tier is done: the regular tier follows where it
    /// is due and not empty, else the wait.
    pub open spec fn begin_regular(self, now: nat) -> (SchedulerState, Action) {
        if self.regular_due() && self.regular.len() > 0 {
            (
                SchedulerState { phase: Phase::RequestingRegular, cursor: 0, ..self },
                Action::Send(self.regular[0]),
            )
        } else {
            self.begin_await(now)
        }
    }

    /// A cycle begins: nothing is sent yet, and the first request is that
    /// of the first high-frequency parameter.
    pub open spec fn begin_cycle(self, now: nat) -> (SchedulerState, Action) {
        let fresh = SchedulerState { cursor: 0, issued: Seq::empty(), ..self };
        if self.high_frequency.len() > 0 {
            (
                SchedulerState { phase: Phase::RequestingHighFreq, ..fresh },
                Action::Send(self.high_frequency[0]),
            )
        } else {
            fresh.begin_regular(now)
        }
    }

    /// A request was tried. One that was sent is waited for; one that
    /// failed is left out of this cycle. Either way the next parameter of
    /// the tier follows, and after the last one the next stage.
    pub open spec fn after_request(self, sent: bool, now: nat) -> (SchedulerState, Action) {
        let noted = SchedulerState {
            cursor: self.cursor + 1,
            issued: if sent {
                self.issued.push(self.current_request())
            } else {
                self.issued
            },
            ..self
        };
        if self.phase == Phase::RequestingHighFreq {
            if noted.cursor < self.high_frequency.len() {
                (noted, Action::Send(self.high_frequency[noted.cursor as int]))
            } else {
                noted.begin_regular(now)
            }
        } else {
            if noted.cursor < self.regular.len() {
                (noted, Action::Send(self.regular[noted.cursor as int]))
            } else {
                noted.begin_await(now)
            }
        }
    }

    /// While waiting: the wait ends when every request was answered or the
    /// deadline is reached, and goes on otherwise.
    pub open spec fn settle(self, now: nat) -> (SchedulerState, Action) {
        if self.received == self.expected || now >= self.deadline {
            (SchedulerState { phase: Phase::Publishing, ..self }, Action::Publish)
        } else {
            (self, Action::Receive { deadline: self.deadline as u64 })
        }
    }

    /// Whether a frame answers an outstanding request.
    pub open spec fn counts(self, frame: RawFrame) -> bool {
        frame.id == OBD_RESPONSE_ID && (response_id(frame.data@) matches Some(id)
            && self.outstanding.contains(id))
    }

    /// While waiting, a frame arrived. One from another address is passed
    /// over. Any other is read into the snapshot, whether or not it was
    /// asked for in this cycle; it counts as an answer only when a request
    /// for its parameter is outstanding.
    pub open spec fn after_frame(self, frame: RawFrame, now: nat) -> (SchedulerState, Action) {
        if frame.id != OBD_RESPONSE_ID {
            self.settle(now)
        } else {
            let snapshot = decoded_snapshot(self.snapshot, frame.data@);
            if self.counts(frame) {
                SchedulerState {
                    snapshot,
                    outstanding: self.outstanding.remove_value(response_id(frame.data@)->0),
                    received: self.received + 1,
                    ..self
                }.settle(now)
            } else {
                SchedulerState { snapshot, ..self }.settle(now)
            }
        }
    }

    /// The sinks were served: the cycle is over and the counter moves on.
    pub open spec fn finish(self) -> (SchedulerState, Action) {
        (
            SchedulerState {
                phase: Phase::Idle,
                cycle: next_cycle(self.cycle, self.divisor),
                ..self
            },
            Action::Rest,
        )
    }

    /// The transition: the state and the action that follow an event at
    /// time `now`. An event that does not belong to the phase changes
    /// nothing, and the scheduler says again what it waits for.
    pub open spec fn step(self, event: Event, now: nat) -> (SchedulerState, Action) {
        match self.phase {
            Phase::Idle => match event {
                Event::CycleStart => self.begin_cycle(now),
                _ => (self, self.wanted()),
            },
            Phase::RequestingHighFreq | Phase::RequestingRegular => match event {
                Event::Sent => self.after_request(true, now),
                Event::SendFailed => self.after_request(false, now),
                _ => (self, self.wanted()),
            },
            Phase::AwaitingResponses => match event {
                Event::Frame(frame) => self.after_frame(frame, now),
                Event::Timeout => self.settle(now),
                _ => (self, self.wanted()),
            },
            Phase::Publishing => match event {
                Event::Published => self.finish(),
                _ => (self, self.wanted()),
            },
        }
    }
}

/// The state in which a scheduler starts: idle, at the first cycle of a
/// round, with nothing asked for and every quantity at zero.
pub open spec fn initial_state(
    high_frequency: Seq<u8>,
    regular: Seq<u8>,
    divisor: nat,
    deadline_ms: nat,
) -> SchedulerState {
    SchedulerState {
        high_frequency,
        regular,
        divisor,
        deadline_ms,
        phase: Phase::Idle,
        cycle: 0,
        cursor: 0,
        issued: Seq::empty(),
        outstanding: Seq::empty(),
        expected: 0,
        received: 0,
        deadline: 0,
        snapshot: VehicleData::initial(),
    }
}

} // verus!
