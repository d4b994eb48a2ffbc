//! The replay engine: a state machine that drives the oracle session
//! through the coalesced transition sequence, one `update`/`getFee` pair
//! per distinct-timestamp boundary, collecting one result per applied
//! transition and stopping early when the execution budget trips.
//!
//! The engine itself performs no call: it hands out the next owed oracle
//! call as a value, and the surrounding binary feeds the call's outcome
//! back in together with a wall-clock reading.

use vstd::prelude::*;

use crate::coalesce::coalesce;
use crate::coalesce::lemma_transitions_ordered;
use crate::coalesce::transitions_of;
use crate::coalesce::ts_non_decreasing;
use crate::parse::event_of;
use crate::parse::events_of;
use crate::parse::parse_events;
use crate::parse::record_ok;
use crate::progress::ProgressSnapshot;
use crate::progress::ProgressTracker;
use crate::types::FeeSnapshot;
use crate::types::InitCall;
use crate::types::RawRecord;
use crate::types::RawTradeEvent;
use crate::types::ReplayError;
use crate::types::ReplayResult;
use crate::types::SettledTransition;
use crate::types::UpdateCall;

verus! {

/// The run's lifecycle.
#[derive(Clone, Copy, PartialEq, Eq, Structural, Debug)]
pub enum EngineState {
    /// Created; the oracle's `init` call is owed and not yet confirmed.
    Uninitialized,
    /// `init` confirmed; transitions remain and none is applied yet.
    Initialized,
    /// At least one transition applied; more remain.
    Replaying,
    /// Every transition applied; the result sequence is complete.
    Completed,
    /// The execution budget tripped; the remaining transitions were
    /// abandoned and the partial result sequence is valid final output.
    TimedOut,
    /// A fatal condition was reported; the run's output is not meaningful.
    Failed,
}

/// The replay engine. Fields are plain so that contracts can speak of
/// them; every method keeps `wf`.
pub struct ReplayEngine {
    pub state: EngineState,
    /// The coalesced transitions, fixed for the whole run.
    pub transitions: Vec<SettledTransition>,
    /// How many transitions have been applied; the next one owed.
    pub next_index: usize,
    /// Tick and timestamp of the first raw event, owed to `init`.
    pub init_tick: i32,
    pub init_timestamp: u32,
    /// The timestamp of the interval currently open: the init timestamp
    /// until a transition is applied, then the last applied one.
    pub last_timestamp: u32,
    /// One entry per applied transition, in application order.
    pub results: Vec<ReplayResult>,
    pub tracker: ProgressTracker,
}

impl ReplayEngine {
    /// States in which the next transition is still owed to the oracle.
    pub open spec fn is_active(self) -> bool {
        self.state is Initialized || self.state is Replaying
    }

    pub open spec fn wf(self) -> bool {
        &&& self.next_index <= self.transitions@.len()
        &&& self.results@.len() == self.next_index
        &&& (forall|j: int|
            0 <= j < self.next_index ==> (#[trigger] self.results@[j]).timestamp
                == self.transitions@[j].timestamp && self.results@[j].tick
                == self.transitions@[j].tick)
        &&& self.last_timestamp == (if self.next_index == 0 {
            self.init_timestamp
        } else {
            self.transitions@[self.next_index - 1].timestamp
        })
        &&& (self.state is Uninitialized ==> self.next_index == 0)
        &&& (self.state is Initialized ==> self.next_index == 0)
        &&& (self.is_active() ==> self.next_index < self.transitions@.len())
        &&& (self.state is Completed ==> self.next_index == self.transitions@.len())
        &&& self.tracker.wf()
        &&& self.tracker.total == self.transitions@.len()
        &&& self.tracker.processed == self.next_index
    }

    /// Build an engine from the parsed events. The first event seeds the
    /// returned `init` call; the rest coalesce into the transition
    /// sequence. An empty input is the one fatal condition here.
    pub fn new(
        events: &Vec<RawTradeEvent>,
        cadence: usize,
        budget_seconds: u64,
        start_seconds: u64,
    ) -> (r: Result<(ReplayEngine, InitCall), ReplayError>)
        requires
            cadence >= 1,
        ensures
            match r {
                Ok(p) => {
                    &&& events@.len() >= 1
                    &&& p.0.wf()
                    &&& p.0.state is Uninitialized
                    &&& p.0.transitions@ == transitions_of(events@)
                    &&& p.0.results@ == Seq::<ReplayResult>::empty()
                    &&& p.0.next_index == 0
                    &&& p.0.init_tick == events@[0].tick
                    &&& p.0.init_timestamp == events@[0].timestamp
                    &&& p.0.last_timestamp == events@[0].timestamp
                    &&& p.0.tracker.start_seconds == start_seconds
                    &&& p.0.tracker.budget_seconds == budget_seconds
                    &&& p.0.tracker.cadence == cadence
                    &&& p.1 == (InitCall {
                        tick: events@[0].tick,
                        timestamp: events@[0].timestamp,
                    })
                },
                Err(e) => events@.len() == 0 && e == ReplayError::EmptyInput,
            },
    {
        if events.len() == 0 {
            return Err(ReplayError::EmptyInput);
        }
        let first = events[0];
        let transitions = coalesce(events);
        let total = transitions.len();
        let engine = ReplayEngine {
            state: EngineState::Uninitialized,
            transitions,
            next_index: 0,
            init_tick: first.tick,
            init_timestamp: first.timestamp,
            last_timestamp: first.timestamp,
            results: Vec::new(),
            tracker: ProgressTracker::new(total, cadence, budget_seconds, start_seconds),
        };
        Ok((engine, InitCall { tick: first.tick, timestamp: first.timestamp }))
    }

    /// Build an engine straight from the textual records of the event
    /// source: parse them all, fail fast on the first malformed one or on
    /// an empty input, and otherwise seed the run from the first event.
    pub fn from_records(
        records: &Vec<RawRecord>,
        cadence: usize,
        budget_seconds: u64,
        start_seconds: u64,
    ) -> (r: Result<(ReplayEngine, InitCall), ReplayError>)
        requires
            cadence >= 1,
        ensures
            match r {
                Ok(p) => {
                    &&& records@.len() >= 1
                    &&& (forall|i: int| 0 <= i < records@.len() ==> record_ok(#[trigger] records@[i]))
                    &&& p.0.wf()
                    &&& p.0.state is Uninitialized
                    &&& p.0.transitions@ == transitions_of(events_of(records@))
                    &&& p.0.results@ == Seq::<ReplayResult>::empty()
                    &&& p.0.init_tick == event_of(records@[0]).tick
                    &&& p.0.init_timestamp == event_of(records@[0]).timestamp
                    &&& p.0.tracker.start_seconds == start_seconds
                    &&& p.0.tracker.budget_seconds == budget_seconds
                    &&& p.0.tracker.cadence == cadence
                    &&& p.1 == (InitCall {
                        tick: event_of(records@[0]).tick,
                        timestamp: event_of(records@[0]).timestamp,
                    })
                },
                Err(e) => {
                    ||| (exists|i: int|
                        {
                            &&& 0 <= i < records@.len()
                            &&& !record_ok(records@[i])
                            &&& e == (ReplayError::MalformedRecord { index: i as usize })
                            &&& forall|j: int| 0 <= j < i ==> record_ok(#[trigger] records@[j])
                        })
                    ||| (records@.len() == 0 && e == ReplayError::EmptyInput)
                },
            },
    {
        let events = match parse_events(records) {
            Ok(events) => events,
            Err(e) => {
                return Err(e);
            },
        };
        proof {
            assert(events@ =~= events_of(records@));
        }
        ReplayEngine::new(&events, cadence, budget_seconds, start_seconds)
    }

    /// Note that the oracle's `init` call succeeded. A run whose input had
    /// a single distinct timestamp owes no transition and completes here.
    pub fn confirm_init(&mut self)
        requires
            old(self).wf(),
            old(self).state is Uninitialized,
        ensures
            final(self).wf(),
            *final(self) == (ReplayEngine {
                state: if old(self).transitions@.len() == 0 {
                    EngineState::Completed
                } else {
                    EngineState::Initialized
                },
                ..*old(self)
            }),
    {
        if self.transitions.len() == 0 {
            self.state = EngineState::Completed;
        } else {
            self.state = EngineState::Initialized;
        }
    }

    /// Note a fatal condition (an `init`/`update`/`getFee` failure, or an
    /// internal-consistency defect). Nothing is retried or skipped: a
    /// skipped interval would silently corrupt every later one.
    pub fn mark_failed(&mut self)
        requires
            old(self).wf(),
        ensures
            final(self).wf(),
            *final(self) == (ReplayEngine { state: EngineState::Failed, ..*old(self) }),
    {
        self.state = EngineState::Failed;
    }

    /// The next `update` call owed to the oracle: time advances by the
    /// difference to the last applied timestamp, and the transition's tick
    /// is the one that was in effect during the interval being closed.
    /// `None` when the run is in no state to continue; a non-positive
    /// delta is reported as a defect, never applied.
    pub fn next_update(&self) -> (r: Result<Option<UpdateCall>, ReplayError>)
        requires
            self.wf(),
        ensures
            match r {
                Ok(Some(u)) => {
                    &&& self.is_active()
                    &&& self.transitions@[self.next_index as int].timestamp > self.last_timestamp
                    &&& u == (UpdateCall {
                        advance_time_by: (self.transitions@[self.next_index as int].timestamp
                            - self.last_timestamp) as u32,
                        tick: self.transitions@[self.next_index as int].tick,
                    })
                    &&& u.advance_time_by > 0
                },
                Ok(None) => !self.is_active(),
                Err(e) => {
                    &&& self.is_active()
                    &&& self.transitions@[self.next_index as int].timestamp <= self.last_timestamp
                    &&& e == ReplayError::InternalConsistency
                },
            },
    {
        match self.state {
            EngineState::Initialized | EngineState::Replaying => {
                let tr = self.transitions[self.next_index];
                if tr.timestamp > self.last_timestamp {
                    Ok(
                        Some(
                            UpdateCall {
                                advance_time_by: tr.timestamp - self.last_timestamp,
                                tick: tr.tick,
                            },
                        ),
                    )
                } else {
                    Err(ReplayError::InternalConsistency)
                }
            },
            _ => Ok(None),
        }
    }

    /// Apply the outcome of the owed `update` call: the fee snapshot read
    /// back immediately after it and the optional gas it consumed. Appends
    /// exactly one result carrying that snapshot unchanged, advances the
    /// clock bookkeeping, and settles the follow-up state: complete when
    /// this was the last transition, timed out when a cadence-boundary
    /// check finds the budget exceeded, replaying otherwise.
    pub fn apply_update_result(
        &mut self,
        fee: FeeSnapshot,
        gas_used: Option<u128>,
        now_seconds: u64,
    ) -> (r: Option<ProgressSnapshot>)
        requires
            old(self).wf(),
            old(self).is_active(),
            old(self).transitions@[old(self).next_index as int].timestamp > old(
                self,
            ).last_timestamp,
        ensures
            final(self).wf(),
            ({
                let tr = old(self).transitions@[old(self).next_index as int];
                let mid = old(self).tracker.stepped(gas_used);
                &&& final(self).transitions@ == old(self).transitions@
                &&& final(self).init_tick == old(self).init_tick
                &&& final(self).init_timestamp == old(self).init_timestamp
                &&& final(self).next_index == old(self).next_index + 1
                &&& final(self).last_timestamp == tr.timestamp
                &&& final(self).results@ == old(self).results@.push(
                    ReplayResult {
                        timestamp: tr.timestamp,
                        tick: tr.tick,
                        fee: fee.fee,
                        volatility_average: fee.volatility_average,
                        tick_average: fee.tick_average,
                        gas_used,
                    },
                )
                &&& final(self).tracker == (if mid.cadence_hit() {
                    mid.reported()
                } else {
                    mid
                })
                &&& r == (if mid.cadence_hit() {
                    Some(mid.snapshot_spec(now_seconds))
                } else {
                    None::<ProgressSnapshot>
                })
                &&& final(self).state == (if old(self).next_index + 1 == old(
                    self,
                ).transitions@.len() {
                    EngineState::Completed
                } else if mid.cadence_hit() && mid.budget_exceeded(now_seconds) {
                    EngineState::TimedOut
                } else {
                    EngineState::Replaying
                })
            }),
    {
        let tr = self.transitions[self.next_index];
        self.results.push(
            ReplayResult {
                timestamp: tr.timestamp,
                tick: tr.tick,
                fee: fee.fee,
                volatility_average: fee.volatility_average,
                tick_average: fee.tick_average,
                gas_used,
            },
        );
        self.next_index = self.next_index + 1;
        self.last_timestamp = tr.timestamp;
        let progress = self.tracker.record(gas_used, now_seconds);
        if self.next_index == self.transitions.len() {
            self.state = EngineState::Completed;
        } else if progress.1 {
            self.state = EngineState::TimedOut;
        } else {
            self.state = EngineState::Replaying;
        }
        progress.0
    }
}

/// Monotonic delta: on a well-formed engine whose transitions came from a
/// non-decreasing event sequence, the transition owed next always carries
/// a timestamp strictly above the last applied one — so every `update`
/// call advances time strictly, and `next_update` never reports the
/// internal-consistency defect.
pub proof fn lemma_owed_delta_positive(engine: ReplayEngine, events: Seq<RawTradeEvent>)
    requires
        engine.wf(),
        engine.is_active(),
        events.len() >= 1,
        ts_non_decreasing(events),
        engine.transitions@ == transitions_of(events),
        engine.init_timestamp == events[0].timestamp,
    ensures
        engine.transitions@[engine.next_index as int].timestamp > engine.last_timestamp,
{
    lemma_transitions_ordered(events);
}

/// Ordering: the accumulated results are strictly increasing in timestamp,
/// matching the coalesced transition order, whenever the transitions came
/// from a non-decreasing event sequence.
pub proof fn lemma_results_ordered(engine: ReplayEngine, events: Seq<RawTradeEvent>)
    requires
        engine.wf(),
        events.len() >= 1,
        ts_non_decreasing(events),
        engine.transitions@ == transitions_of(events),
    ensures
        forall|i: int, j: int|
            0 <= i < j < engine.results@.len() ==> engine.results@[i].timestamp
                < engine.results@[j].timestamp,
{
    lemma_transitions_ordered(events);
    assert forall|i: int, j: int|
        0 <= i < j < engine.results@.len() implies engine.results@[i].timestamp
        < engine.results@[j].timestamp by {
        assert(engine.results@[i].timestamp == engine.transitions@[i].timestamp);
        assert(engine.results@[j].timestamp == engine.transitions@[j].timestamp);
    }
}

/// Timeout truncation: a timed-out engine holds exactly one well-formed
/// result per transition it applied, still in strictly increasing order,
/// and owes the oracle nothing further — no state accepts another call.
pub proof fn lemma_timeout_truncation(engine: ReplayEngine, events: Seq<RawTradeEvent>)
    requires
        engine.wf(),
        engine.state is TimedOut,
        events.len() >= 1,
        ts_non_decreasing(events),
        engine.transitions@ == transitions_of(events),
    ensures
        !engine.is_active(),
        engine.results@.len() == engine.next_index,
        forall|i: int, j: int|
            0 <= i < j < engine.results@.len() ==> engine.results@[i].timestamp
                < engine.results@[j].timestamp,
{
    lemma_results_ordered(engine, events);
}

} // verus!
