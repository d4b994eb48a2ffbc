//! Progress and budget bookkeeping for the replay loop: throughput and
//! remaining-time projection at a fixed cadence of processed transitions,
//! a rolling gas-per-transition average, and the wall-clock budget check
//! that turns a run into a graceful early stop.

use vstd::prelude::*;

verus! {

/// `a + b`, clamped to `u128::MAX`; cumulative gas is observational only,
/// so it saturates rather than constrains the caller.
pub open spec fn sat_add_u128(a: u128, b: u128) -> u128 {
    if a + b > u128::MAX {
        u128::MAX
    } else {
        (a + b) as u128
    }
}

/// `a - b`, clamped at zero; shields the elapsed-time reading against a
/// clock that reports an instant before the recorded start.
pub open spec fn sat_sub_u64(a: u64, b: u64) -> u64 {
    if a >= b {
        (a - b) as u64
    } else {
        0
    }
}

/// The gas a backend reported for one transition; an unmetered backend
/// reports nothing, which counts as zero.
pub open spec fn gas_amount(g: Option<u128>) -> u128 {
    match g {
        Some(v) => v,
        None => 0,
    }
}

/// A projected time to completion, decomposed for reporting.
#[derive(Clone, Copy, PartialEq, Eq, Structural, Debug)]
pub struct EtaParts {
    pub hours: u128,
    pub minutes: u128,
    pub seconds: u128,
}

/// An hours/minutes/seconds reading of a second count.
pub open spec fn eta_parts_of(eta: u128) -> EtaParts {
    EtaParts { hours: eta / 3600, minutes: (eta % 3600) / 60, seconds: (eta % 3600) % 60 }
}

/// Decompose a second count into hours, minutes and seconds; the parts
/// recompose exactly to the input.
pub fn eta_parts(eta: u128) -> (r: EtaParts)
    ensures
        r == eta_parts_of(eta),
        r.hours * 3600 + r.minutes * 60 + r.seconds == eta,
{
    let r = EtaParts { hours: eta / 3600, minutes: (eta % 3600) / 60, seconds: (eta % 3600) % 60 };
    proof {
        assert(r.hours * 3600 + r.minutes * 60 + r.seconds == eta) by (nonlinear_arith)
            requires
                r.hours == eta / 3600,
                r.minutes == (eta % 3600) / 60,
                r.seconds == (eta % 3600) % 60,
        ;
    }
    r
}

/// One periodic progress reading, recomputed at each cadence boundary.
#[derive(Clone, Copy, PartialEq, Eq, Debug)]
pub struct ProgressSnapshot {
    pub processed: usize,
    pub total: usize,
    pub elapsed_seconds: u64,
    /// Whole transitions per second; zero when no time has elapsed yet.
    pub speed: u128,
    /// Projected remaining duration; absent while no time has elapsed,
    /// when only a bare progress count is worth reporting.
    pub eta: Option<EtaParts>,
    /// Gas per transition, averaged over the window since the previous
    /// cadence boundary.
    pub avg_gas_per_transition: u128,
}

/// The explicit state behind periodic reporting: counts, cumulative gas,
/// and the marks left at the previous cadence boundary.
#[derive(Clone, Copy, PartialEq, Eq, Structural, Debug)]
pub struct ProgressTracker {
    pub start_seconds: u64,
    pub budget_seconds: u64,
    pub cadence: usize,
    pub total: usize,
    pub processed: usize,
    pub gas_cumulative: u128,
    pub last_report_processed: usize,
    pub last_report_gas: u128,
}

impl ProgressTracker {
    pub open spec fn wf(self) -> bool {
        &&& self.cadence >= 1
        &&& self.processed <= self.total
        &&& self.last_report_processed <= self.processed
        &&& self.last_report_gas <= self.gas_cumulative
    }

    /// The tracker after one more transition with the given gas reading.
    pub open spec fn stepped(self, gas_used: Option<u128>) -> ProgressTracker {
        ProgressTracker {
            processed: (self.processed + 1) as usize,
            gas_cumulative: sat_add_u128(self.gas_cumulative, gas_amount(gas_used)),
            ..self
        }
    }

    /// Whether the current count sits on a cadence boundary.
    pub open spec fn cadence_hit(self) -> bool {
        self.processed % self.cadence == 0
    }

    /// The tracker after a report: the window marks move up to now.
    pub open spec fn reported(self) -> ProgressTracker {
        ProgressTracker {
            last_report_processed: self.processed,
            last_report_gas: self.gas_cumulative,
            ..self
        }
    }

    /// Whether the wall clock now stands past the execution budget.
    pub open spec fn budget_exceeded(self, now_seconds: u64) -> bool {
        sat_sub_u64(now_seconds, self.start_seconds) > self.budget_seconds
    }

    /// The snapshot that a report at time `now_seconds` carries. The
    /// remaining-time projection is the floor of
    /// `(total - processed) * elapsed / processed`, the integer reading of
    /// remaining work over observed speed.
    pub open spec fn snapshot_spec(self, now_seconds: u64) -> ProgressSnapshot {
        let elapsed = sat_sub_u64(now_seconds, self.start_seconds);
        ProgressSnapshot {
            processed: self.processed,
            total: self.total,
            elapsed_seconds: elapsed,
            speed: if elapsed > 0 {
                (self.processed as int / elapsed as int) as u128
            } else {
                0
            },
            eta: if elapsed > 0 && self.processed > 0 {
                Some(
                    eta_parts_of(
                        (((self.total - self.processed) * elapsed) / (self.processed as int)) as u128,
                    ),
                )
            } else {
                None
            },
            avg_gas_per_transition: if self.last_report_processed < self.processed {
                ((self.gas_cumulative - self.last_report_gas) / (self.processed
                    - self.last_report_processed)) as u128
            } else {
                0
            },
        }
    }

    pub fn new(total: usize, cadence: usize, budget_seconds: u64, start_seconds: u64) -> (r:
        ProgressTracker)
        requires
            cadence >= 1,
        ensures
            r.wf(),
            r == (ProgressTracker {
                start_seconds,
                budget_seconds,
                cadence,
                total,
                processed: 0,
                gas_cumulative: 0,
                last_report_processed: 0,
                last_report_gas: 0,
            }),
    {
        ProgressTracker {
            start_seconds,
            budget_seconds,
            cadence,
            total,
            processed: 0,
            gas_cumulative: 0,
            last_report_processed: 0,
            last_report_gas: 0,
        }
    }

    /// Count one applied transition. At a cadence boundary this returns the
    /// progress snapshot for the given wall-clock reading together with the
    /// budget verdict, and moves the window marks; in between it returns
    /// nothing and never trips the budget (the check is deliberately as
    /// coarse as the cadence).
    pub fn record(&mut self, gas_used: Option<u128>, now_seconds: u64) -> (r: (
        Option<ProgressSnapshot>,
        bool,
    ))
        requires
            old(self).wf(),
            old(self).processed < old(self).total,
        ensures
            final(self).wf(),
            ({
                let mid = old(self).stepped(gas_used);
                if mid.cadence_hit() {
                    &&& *final(self) == mid.reported()
                    &&& r.0 == Some(mid.snapshot_spec(now_seconds))
                    &&& r.1 == mid.budget_exceeded(now_seconds)
                } else {
                    &&& *final(self) == mid
                    &&& r.0 == None::<ProgressSnapshot>
                    &&& r.1 == false
                }
            }),
    {
        self.processed = self.processed + 1;
        let g: u128 = match gas_used {
            Some(v) => v,
            None => 0,
        };
        self.gas_cumulative = if g > u128::MAX - self.gas_cumulative {
            u128::MAX
        } else {
            self.gas_cumulative + g
        };
        if self.processed % self.cadence == 0 {
            let elapsed: u64 = if now_seconds >= self.start_seconds {
                now_seconds - self.start_seconds
            } else {
                0
            };
            let speed: u128 = if elapsed > 0 {
                (self.processed as u128) / (elapsed as u128)
            } else {
                0
            };
            let eta: Option<EtaParts> = if elapsed > 0 && self.processed > 0 {
                let remaining: usize = self.total - self.processed;
                proof {
                    assert((remaining as u128) * (elapsed as u128) <= (u64::MAX as u128) * (
                    u64::MAX as u128)) by (nonlinear_arith)
                        requires
                            remaining as u128 <= u64::MAX as u128,
                            elapsed as u128 <= u64::MAX as u128,
                    ;
                }
                let eta_value: u128 = (remaining as u128) * (elapsed as u128) / (
                self.processed as u128);
                Some(eta_parts(eta_value))
            } else {
                None
            };
            let window: usize = self.processed - self.last_report_processed;
            let avg_gas: u128 = if window > 0 {
                (self.gas_cumulative - self.last_report_gas) / (window as u128)
            } else {
                0
            };
            let snap = ProgressSnapshot {
                processed: self.processed,
                total: self.total,
                elapsed_seconds: elapsed,
                speed,
                eta,
                avg_gas_per_transition: avg_gas,
            };
            let tripped: bool = elapsed > self.budget_seconds;
            self.last_report_processed = self.processed;
            self.last_report_gas = self.gas_cumulative;
            (Some(snap), tripped)
        } else {
            (None, false)
        }
    }
}

} // verus!
