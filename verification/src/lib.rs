//! Replay of a historical trade-event log against a stateful adaptive-fee
//! oracle that runs in a simulated chain environment.
//!
//! The crate holds the replay core: parsing of textual trade records,
//! coalescing of raw events into one settled transition per distinct
//! timestamp, the replay state machine that drives the oracle session, and
//! the progress/timeout bookkeeping. The oracle session itself (contract
//! deployment, `init`/`update`/`getFee` calls) and all file handling are
//! external collaborators: the surrounding binary performs those calls and
//! feeds their results back into the state machine as plain values.

pub mod coalesce;
pub mod digits;
pub mod engine;
pub mod parse;
pub mod progress;
pub mod types;
