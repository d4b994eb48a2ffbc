use vstd::prelude::*;

verus! {

/// A trade record as it comes from the event source, both fields still in
/// their textual (ASCII) form.
#[derive(PartialEq, Eq, Debug)]
pub struct RawRecord {
    pub timestamp: Vec<u8>,
    pub tick: Vec<u8>,
}

/// A parsed trade event: unix timestamp and the tick observed at it.
/// Input order is expected to carry non-decreasing timestamps.
#[derive(Clone, Copy, PartialEq, Eq, Structural, Debug)]
pub struct RawTradeEvent {
    pub timestamp: u32,
    pub tick: i32,
}

/// One settled state transition: emitted exactly when the timestamp changes
/// in the raw stream. `timestamp` is the new (strictly larger) timestamp and
/// `tick` is the last tick observed under the previous timestamp, i.e. the
/// tick that was in effect during the interval being closed out.
#[derive(Clone, Copy, PartialEq, Eq, Structural, Debug)]
pub struct SettledTransition {
    pub timestamp: u32,
    pub tick: i32,
}

/// The one `init(tick, timestamp)` call owed to the oracle session, seeded
/// from the first raw event.
#[derive(Clone, Copy, PartialEq, Eq, Structural, Debug)]
pub struct InitCall {
    pub tick: i32,
    pub timestamp: u32,
}

/// One `update(advanceTimeBy, tick)` call owed to the oracle session.
/// `advance_time_by` is strictly positive.
#[derive(Clone, Copy, PartialEq, Eq, Structural, Debug)]
pub struct UpdateCall {
    pub advance_time_by: u32,
    pub tick: i32,
}

/// What `getFee` returned right after an `update`: the oracle's derived
/// state for the interval just closed.
#[derive(Clone, Copy, PartialEq, Eq, Structural, Debug)]
pub struct FeeSnapshot {
    pub fee: u16,
    pub volatility_average: u128,
    pub tick_average: i32,
}

/// One accumulated replay result: the transition that was applied together
/// with the fee snapshot read back after it. `gas_used` is `None` when the
/// execution backend does not meter gas.
#[derive(Clone, Copy, PartialEq, Eq, Debug)]
pub struct ReplayResult {
    pub timestamp: u32,
    pub tick: i32,
    pub fee: u16,
    pub volatility_average: u128,
    pub tick_average: i32,
    pub gas_used: Option<u128>,
}

/// The fatal conditions of a run. A timeout is deliberately not here: an
/// early stop on the execution budget is a graceful termination that leaves
/// a valid partial result sequence.
#[derive(Clone, Copy, PartialEq, Eq, Structural, Debug)]
pub enum ReplayError {
    /// There was no event at all to seed the oracle with.
    EmptyInput,
    /// The record at `index` has a timestamp or tick field that does not
    /// parse; the whole run aborts.
    MalformedRecord { index: usize },
    /// An `init`/`update`/`getFee` call failed; never retried, since a
    /// mutating call could be double-applied.
    OracleCall,
    /// A non-positive time delta reached the apply step; a coalescing or
    /// ordering defect, never silently corrected.
    InternalConsistency,
}

} // verus!
