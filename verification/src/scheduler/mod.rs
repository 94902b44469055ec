//! The poll scheduler: one cycle after another, it asks for the
//! high-frequency parameters, in one cycle of each round also for the
//! regular ones, waits for the answers until all have come or the deadline
//! has passed, and then hands the snapshot on.
//!
//! The scheduler does no input or output of its own. It is a state machine:
//! [`Scheduler::step`] takes what happened and the time, and says what to do
//! next. Whoever drives it performs that action and reports the outcome.
//!
//! [`model`] holds the state machine as mathematics, [`laws`] what is
//! proved of it, and [`pending`] the requests that wait for an answer.

pub mod laws;
pub mod model;
pub mod pending;

use vstd::prelude::*;
use crate::config::AppConfig;
use crate::constants::OBD_RESPONSE_ID;
use crate::obd::frame::RawFrame;
use crate::obd::registry::{high_frequency, high_frequency_ids, regular, regular_ids};
use crate::obd::response::{decode_into, decoded_snapshot, response_id, response_parameter};
use crate::scheduler::laws::lemma_step_keeps_wf;
use crate::scheduler::model::{initial_state, SchedulerState};
use crate::scheduler::pending::PendingRequestSet;
use crate::vehicle::data::VehicleData;

verus! {

/// The cadence divisor used when none is configured: the regular tier is
/// asked for in one cycle of ten.
pub const DEFAULT_DIVISOR: u32 = 10;

/// The deadline used when none is configured, in milliseconds.
pub const DEFAULT_DEADLINE_MS: u64 = 20;

/// Where in its cycle the scheduler stands.
#[derive(Clone, Copy, Debug, PartialEq, Eq, Structural)]
pub enum Phase {
    /// Between two cycles.
    Idle,
    /// Asking for the high-frequency parameters.
    RequestingHighFreq,
    /// Asking for the regular parameters.
    RequestingRegular,
    /// Waiting for answers.
    AwaitingResponses,
    /// Handing the snapshot on.
    Publishing,
}

/// What the scheduler asks its driver to do.
#[derive(Clone, Copy, Debug, PartialEq, Eq, Structural)]
pub enum Action {
    /// Send a request for this parameter, then report `Sent` or
    /// `SendFailed`.
    Send(u8),
    /// Wait for a frame, at most until this time, then report `Frame` or
    /// `Timeout`.
    Receive { deadline: u64 },
    /// Hand the snapshot to the sinks, then report `Published`.
    Publish,
    /// The cycle is over; report `CycleStart` to begin the next.
    Rest,
}

/// What the driver reports to the scheduler.
#[derive(Debug)]
pub enum Event {
    /// A new cycle begins.
    CycleStart,
    /// The request was sent.
    Sent,
    /// The request could not be sent.
    SendFailed,
    /// A frame arrived.
    Frame(RawFrame),
    /// No frame arrived in time.
    Timeout,
    /// The sinks were served.
    Published,
}

/// What a scheduler is set up with.
#[derive(Debug)]
pub struct SchedulerConfig {
    /// The parameters asked for in every cycle.
    pub high_frequency: Vec<u8>,
    /// The parameters asked for in one cycle of each round.
    pub regular: Vec<u8>,
    /// How many cycles make a round. Must not be zero.
    pub divisor: u32,
    /// How long a cycle waits for its answers, in milliseconds.
    pub deadline_ms: u64,
}

impl SchedulerConfig {
    /// The tiers of the registry, with the deadline and the cadence divisor
    /// of the configuration.
    pub fn from_app(config: &AppConfig) -> (scheduling: SchedulerConfig)
        ensures
            scheduling.high_frequency@ == high_frequency(),
            scheduling.regular@ == regular(),
            scheduling.divisor == config.regular_divisor,
            scheduling.deadline_ms == config.cycle_deadline_ms,
    {
        SchedulerConfig {
            high_frequency: high_frequency_ids(),
            regular: regular_ids(),
            divisor: config.regular_divisor,
            deadline_ms: config.cycle_deadline_ms,
        }
    }

    /// The tiers of the registry, a round of ten cycles and a deadline of
    /// twenty milliseconds.
    pub fn standard() -> (config: SchedulerConfig)
        ensures
            config.high_frequency@ == high_frequency(),
            config.regular@ == regular(),
            config.divisor == DEFAULT_DIVISOR,
            config.deadline_ms == DEFAULT_DEADLINE_MS,
    {
        SchedulerConfig {
            high_frequency: high_frequency_ids(),
            regular: regular_ids(),
            divisor: DEFAULT_DIVISOR,
            deadline_ms: DEFAULT_DEADLINE_MS,
        }
    }
}

/// The poll scheduler. It owns the snapshot: nothing else writes it, and
/// readers get it only through [`Scheduler::snapshot`].
#[derive(Debug)]
pub struct Scheduler {
    config: SchedulerConfig,
    phase: Phase,
    cycle: u32,
    cursor: usize,
    issued: Vec<u8>,
    pending: PendingRequestSet,
    data: VehicleData,
}

impl View for Scheduler {
    type V = SchedulerState;

    closed spec fn view(&self) -> SchedulerState {
        SchedulerState {
            high_frequency: self.config.high_frequency@,
            regular: self.config.regular@,
            divisor: self.config.divisor as nat,
            deadline_ms: self.config.deadline_ms as nat,
            phase: self.phase,
            cycle: self.cycle as nat,
            cursor: self.cursor as nat,
            issued: self.issued@,
            outstanding: self.pending@.outstanding,
            expected: self.pending@.expected,
            received: self.pending@.received,
            deadline: self.pending@.deadline,
            snapshot: self.data@,
        }
    }
}

impl Scheduler {
    /// The scheduler is in a state that it can reach.
    pub open spec fn wf(&self) -> bool {
        self@.wf()
    }

    /// A scheduler at rest before its first cycle, or nothing when the
    /// configured divisor is zero.
    pub fn new(config: SchedulerConfig) -> (scheduler: Option<Scheduler>)
        ensures
            scheduler is Some <==> config.divisor != 0,
            scheduler matches Some(s) ==> s.wf() && s@ == initial_state(
                config.high_frequency@,
                config.regular@,
                config.divisor as nat,
                config.deadline_ms as nat,
            ),
    {
        if config.divisor == 0 {
            return None;
        }
        let ghost high = config.high_frequency@;
        let ghost regular = config.regular@;
        let ghost divisor = config.divisor as nat;
        let ghost deadline_ms = config.deadline_ms as nat;
        let scheduler = Scheduler {
            config,
            phase: Phase::Idle,
            cycle: 0,
            cursor: 0,
            issued: Vec::new(),
            pending: PendingRequestSet::new(Vec::new(), 0),
            data: VehicleData::new(),
        };
        assert(scheduler@ =~= initial_state(high, regular, divisor, deadline_ms));
        Some(scheduler)
    }

    /// Where in its cycle the scheduler stands.
    pub fn phase(&self) -> (phase: Phase)
        ensures
            phase == self@.phase,
    {
        self.phase
    }

    /// The number of the current cycle within its round.
    pub fn cycle(&self) -> (cycle: u32)
        ensures
            cycle == self@.cycle,
    {
        self.cycle
    }

    /// The snapshot, to read.
    pub fn snapshot(&self) -> (data: &VehicleData)
        ensures
            data@ == self@.snapshot,
    {
        &self.data
    }

    /// The requests that wait for an answer, with their count and deadline.
    pub fn pending(&self) -> (pending: &PendingRequestSet)
        ensures
            pending@.outstanding == self@.outstanding,
            pending@.expected == self@.expected,
            pending@.received == self@.received,
            pending@.deadline == self@.deadline,
    {
        &self.pending
    }

    /// Ends the requests and begins the wait for what was sent.
    fn begin_await(&mut self, now: u64) -> (action: Action)
        ensures
            final(self)@ == old(self)@.begin_await(now as nat).0,
            action == old(self)@.begin_await(now as nat).1,
    {
        let deadline: u64 = now.saturating_add(self.config.deadline_ms);
        let mut issued: Vec<u8> = Vec::new();
        core::mem::swap(&mut issued, &mut self.issued);
        self.pending = PendingRequestSet::new(issued, deadline);
        self.cursor = 0;
        if self.pending.expected() == 0 {
            self.phase = Phase::Publishing;
            assert(self@ =~= old(self)@.begin_await(now as nat).0);
            Action::Publish
        } else {
            self.phase = Phase::AwaitingResponses;
            assert(self@ =~= old(self)@.begin_await(now as nat).0);
            Action::Receive { deadline }
        }
    }

    /// Goes on to the regular tier where it is due, else to the wait.
    fn begin_regular(&mut self, now: u64) -> (action: Action)
        ensures
            final(self)@ == old(self)@.begin_regular(now as nat).0,
            action == old(self)@.begin_regular(now as nat).1,
    {
        if self.cycle == 0 && self.config.regular.len() > 0 {
            self.phase = Phase::RequestingRegular;
            self.cursor = 0;
            assert(self@ =~= old(self)@.begin_regular(now as nat).0);
            Action::Send(self.config.regular[0])
        } else {
            self.begin_await(now)
        }
    }

    /// Begins a cycle with the first high-frequency parameter.
    fn begin_cycle(&mut self, now: u64) -> (action: Action)
        ensures
            final(self)@ == old(self)@.begin_cycle(now as nat).0,
            action == old(self)@.begin_cycle(now as nat).1,
    {
        self.cursor = 0;
        self.issued = Vec::new();
        if self.config.high_frequency.len() > 0 {
            self.phase = Phase::RequestingHighFreq;
            assert(self@ =~= old(self)@.begin_cycle(now as nat).0);
            Action::Send(self.config.high_frequency[0])
        } else {
            assert(self@ =~= (SchedulerState {
                cursor: 0,
                issued: Seq::empty(),
                ..old(self)@
            }));
            self.begin_regular(now)
        }
    }

    /// The parameter whose request is under way.
    fn current_request(&self) -> (id: u8)
        requires
            self.wf(),
            self@.phase == Phase::RequestingHighFreq || self@.phase == Phase::RequestingRegular,
        ensures
            id == self@.current_request(),
    {
        match self.phase {
            Phase::RequestingHighFreq => self.config.high_frequency[self.cursor],
            _ => self.config.regular[self.cursor],
        }
    }

    /// Takes note of how a request went and goes on to the next.
    fn after_request(&mut self, sent: bool, now: u64) -> (action: Action)
        requires
            old(self).wf(),
            old(self)@.phase == Phase::RequestingHighFreq || old(self)@.phase
                == Phase::RequestingRegular,
        ensures
            final(self)@ == old(self)@.after_request(sent, now as nat).0,
            action == old(self)@.after_request(sent, now as nat).1,
    {
        assert(self.cursor < self.config.high_frequency.len() || self.cursor
            < self.config.regular.len());
        if sent {
            let id: u8 = self.current_request();
            self.issued.push(id);
        }
        self.cursor = self.cursor + 1;
        assert(self@ =~= (SchedulerState {
            cursor: old(self)@.cursor + 1,
            issued: if sent {
                old(self)@.issued.push(old(self)@.current_request())
            } else {
                old(self)@.issued
            },
            ..old(self)@
        }));
        match self.phase {
            Phase::RequestingHighFreq => {
                if self.cursor < self.config.high_frequency.len() {
                    assert(self@ =~= old(self)@.after_request(sent, now as nat).0);
                    Action::Send(self.config.high_frequency[self.cursor])
                } else {
                    self.begin_regular(now)
                }
            },
            _ => {
                if self.cursor < self.config.regular.len() {
                    assert(self@ =~= old(self)@.after_request(sent, now as nat).0);
                    Action::Send(self.config.regular[self.cursor])
                } else {
                    self.begin_await(now)
                }
            },
        }
    }

    /// Ends the wait when all was answered or the deadline is reached.
    fn settle(&mut self, now: u64) -> (action: Action)
        ensures
            final(self)@ == old(self)@.settle(now as nat).0,
            action == old(self)@.settle(now as nat).1,
    {
        if self.pending.is_complete() || self.pending.is_expired(now) {
            self.phase = Phase::Publishing;
            assert(self@ =~= old(self)@.settle(now as nat).0);
            Action::Publish
        } else {
            Action::Receive { deadline: self.pending.deadline() }
        }
    }

    /// Reads a frame that arrived during the wait.
    fn after_frame(&mut self, frame: &RawFrame, now: u64) -> (action: Action)
        requires
            old(self).wf(),
        ensures
            final(self)@ == old(self)@.after_frame(*frame, now as nat).0,
            action == old(self)@.after_frame(*frame, now as nat).1,
    {
        if frame.id == OBD_RESPONSE_ID {
            let _ = decode_into(&mut self.data, frame.data.as_slice());
            match response_parameter(frame.data.as_slice()) {
                Some(id) => {
                    let _ = self.pending.record(id);
                },
                None => {},
            }
            assert(self@ =~= if old(self)@.counts(*frame) {
                SchedulerState {
                    snapshot: decoded_snapshot(old(self)@.snapshot, frame.data@),
                    outstanding: old(self)@.outstanding.remove_value(
                        response_id(frame.data@)->0,
                    ),
                    received: old(self)@.received + 1,
                    ..old(self)@
                }
            } else {
                SchedulerState {
                    snapshot: decoded_snapshot(old(self)@.snapshot, frame.data@),
                    ..old(self)@
                }
            }) by {
                if let Some(id) = response_id(frame.data@) {
                    old(self)@.outstanding.index_of_first_ensures(id);
                }
            }
        }
        self.settle(now)
    }

    /// Ends the cycle and moves the counter on.
    fn finish(&mut self) -> (action: Action)
        requires
            old(self).wf(),
        ensures
            final(self)@ == old(self)@.finish().0,
            action == old(self)@.finish().1,
    {
        self.cycle = (self.cycle + 1) % self.config.divisor;
        self.phase = Phase::Idle;
        assert(self@ =~= old(self)@.finish().0);
        Action::Rest
    }

    /// Takes what happened at time `now`, in milliseconds on a clock that
    /// does not run backwards, and says what to do next.
    pub fn step(&mut self, event: Event, now: u64) -> (action: Action)
        requires
            old(self).wf(),
        ensures
            final(self).wf(),
            final(self)@ == old(self)@.step(event, now as nat).0,
            action == old(self)@.step(event, now as nat).1,
    {
        proof {
            lemma_step_keeps_wf(self@, event, now as nat);
        }
        match self.phase {
            Phase::Idle => match event {
                Event::CycleStart => self.begin_cycle(now),
                _ => Action::Rest,
            },
            Phase::RequestingHighFreq | Phase::RequestingRegular => match event {
                Event::Sent => self.after_request(true, now),
                Event::SendFailed => self.after_request(false, now),
                _ => Action::Send(self.current_request()),
            },
            Phase::AwaitingResponses => match event {
                Event::Frame(frame) => self.after_frame(&frame, now),
                Event::Timeout => self.settle(now),
                _ => Action::Receive { deadline: self.pending.deadline() },
            },
            Phase::Publishing => match event {
                Event::Published => self.finish(),
                _ => Action::Publish,
            },
        }
    }
}

} // verus!
