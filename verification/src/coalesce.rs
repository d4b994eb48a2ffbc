//! The event coalescer: folds raw events that share a timestamp into one
//! settled transition per distinct-timestamp boundary.

use vstd::prelude::*;

use crate::types::RawTradeEvent;
use crate::types::SettledTransition;

verus! {

/// The transitions that a raw event sequence settles into: one for each
/// index at which the timestamp differs from its predecessor's, carrying the
/// new timestamp and the tick last observed under the old one. The first
/// event never yields a transition; it seeds the oracle's `init` instead.
pub open spec fn transitions_of(events: Seq<RawTradeEvent>) -> Seq<SettledTransition>
    decreases events.len(),
{
    if events.len() < 2 {
        Seq::empty()
    } else {
        let n = events.len() as int;
        let prefix = transitions_of(events.drop_last());
        if events[n - 1].timestamp != events[n - 2].timestamp {
            prefix.push(SettledTransition {
                timestamp: events[n - 1].timestamp,
                tick: events[n - 2].tick,
            })
        } else {
            prefix
        }
    }
}

/// The event source's ordering invariant: timestamps never go backwards.
pub open spec fn ts_non_decreasing(events: Seq<RawTradeEvent>) -> bool {
    forall|i: int, j: int|
        0 <= i <= j < events.len() ==> events[i].timestamp <= events[j].timestamp
}

/// Strict ordering of a transition sequence by timestamp.
pub open spec fn strictly_increasing(ts: Seq<SettledTransition>) -> bool {
    forall|i: int, j: int| 0 <= i < j < ts.len() ==> ts[i].timestamp < ts[j].timestamp
}

/// The set of distinct timestamps occurring in a raw event sequence.
pub open spec fn timestamp_set(events: Seq<RawTradeEvent>) -> Set<u32>
    decreases events.len(),
{
    if events.len() == 0 {
        Set::empty()
    } else {
        timestamp_set(events.drop_last()).insert(events.last().timestamp)
    }
}

/// Coalesce a raw event sequence into its settled transitions.
pub fn coalesce(events: &Vec<RawTradeEvent>) -> (r: Vec<SettledTransition>)
    ensures
        r@ == transitions_of(events@),
{
    let mut out: Vec<SettledTransition> = Vec::new();
    if events.len() == 0 {
        assert(events@ =~= Seq::<RawTradeEvent>::empty());
        return out;
    }
    let n: usize = events.len();
    let mut i: usize = 1;
    while i < n
        invariant
            1 <= i <= n,
            n == events@.len(),
            out@ == transitions_of(events@.take(i as int)),
        decreases n - i,
    {
        if events[i].timestamp != events[i - 1].timestamp {
            out.push(SettledTransition { timestamp: events[i].timestamp, tick: events[i - 1].tick });
        }
        proof {
            let ii = i as int;
            let t = events@.take(ii + 1);
            assert(t.drop_last() =~= events@.take(ii));
            assert(t[ii] == events@[ii]);
            assert(t[ii - 1] == events@[ii - 1]);
        }
        i += 1;
    }
    proof {
        assert(events@.take(n as int) =~= events@);
    }
    out
}

/// The timestamp-set of a sequence is always finite.
pub proof fn lemma_timestamp_set_finite(events: Seq<RawTradeEvent>)
    ensures
        timestamp_set(events).finite(),
    decreases events.len(),
{
    if events.len() > 0 {
        lemma_timestamp_set_finite(events.drop_last());
    }
}

/// Every member of the timestamp set of a non-decreasing sequence lies
/// between the first and the last timestamp.
proof fn lemma_timestamp_set_members(events: Seq<RawTradeEvent>)
    requires
        events.len() >= 1,
        ts_non_decreasing(events),
    ensures
        forall|t: u32|
            timestamp_set(events).contains(t) ==> events[0].timestamp <= t
                <= events.last().timestamp,
    decreases events.len(),
{
    broadcast use vstd::set::group_set_axioms;

    if events.len() == 1 {
        assert(timestamp_set(events.drop_last()) =~= Set::<u32>::empty());
        assert forall|t: u32| timestamp_set(events).contains(t) implies events[0].timestamp <= t
            <= events.last().timestamp by {
            assert(t == events.last().timestamp);
        }
    } else {
        let prefix = events.drop_last();
        assert(ts_non_decreasing(prefix));
        lemma_timestamp_set_members(prefix);
        assert forall|t: u32| timestamp_set(events).contains(t) implies events[0].timestamp <= t
            <= events.last().timestamp by {
            assert(prefix.last() == events[events.len() - 2]);
            assert(prefix[0] == events[0]);
            if t != events.last().timestamp {
                assert(timestamp_set(prefix).contains(t));
                assert(t <= prefix.last().timestamp);
                assert(prefix.last().timestamp <= events.last().timestamp);
            } else {
                assert(events[0].timestamp <= events.last().timestamp);
            }
        }
    }
}

/// Ordering of the coalesced transitions: with non-decreasing input they
/// are strictly increasing in timestamp, and each lies strictly above the
/// first raw timestamp and at most at the last one.
pub proof fn lemma_transitions_ordered(events: Seq<RawTradeEvent>)
    requires
        events.len() >= 1,
        ts_non_decreasing(events),
    ensures
        strictly_increasing(transitions_of(events)),
        forall|k: int|
            0 <= k < transitions_of(events).len() ==> events[0].timestamp < #[trigger] transitions_of(
                events,
            )[k].timestamp <= events.last().timestamp,
    decreases events.len(),
{
    if events.len() >= 2 {
        let prefix = events.drop_last();
        let n = events.len() as int;
        assert(ts_non_decreasing(prefix));
        lemma_transitions_ordered(prefix);
        let tp = transitions_of(prefix);
        let t = transitions_of(events);
        assert(prefix.last() == events[n - 2]);
        if events[n - 1].timestamp != events[n - 2].timestamp {
            assert(events[n - 2].timestamp <= events[n - 1].timestamp);
            assert(t == tp.push(
                SettledTransition { timestamp: events[n - 1].timestamp, tick: events[n - 2].tick },
            ));
            assert forall|k: int|
                0 <= k < t.len() implies events[0].timestamp < #[trigger] t[k].timestamp
                <= events.last().timestamp by {
                if k < tp.len() {
                    assert(t[k] == tp[k]);
                    assert(tp[k].timestamp <= prefix.last().timestamp);
                } else {
                    assert(t[k].timestamp == events[n - 1].timestamp);
                    assert(events[0].timestamp <= events[n - 2].timestamp);
                }
            }
            assert forall|i: int, j: int| 0 <= i < j < t.len() implies t[i].timestamp
                < t[j].timestamp by {
                if j < tp.len() {
                    assert(t[i] == tp[i] && t[j] == tp[j]);
                } else {
                    assert(t[i] == tp[i]);
                    assert(tp[i].timestamp <= prefix.last().timestamp);
                    assert(t[j].timestamp == events[n - 1].timestamp);
                }
            }
        } else {
            assert(t == tp);
            assert(events.last().timestamp == prefix.last().timestamp);
        }
    }
}

/// Coalescing count: a non-empty, non-decreasing input with K distinct
/// timestamps settles into exactly K - 1 transitions; the first timestamp
/// seeds `init` rather than a transition.
pub proof fn lemma_coalesce_count(events: Seq<RawTradeEvent>)
    requires
        events.len() >= 1,
        ts_non_decreasing(events),
    ensures
        transitions_of(events).len() + 1 == timestamp_set(events).len(),
    decreases events.len(),
{
    broadcast use vstd::set::group_set_axioms;

    if events.len() == 1 {
        assert(timestamp_set(events.drop_last()) =~= Set::<u32>::empty());
        assert(timestamp_set(events) =~= Set::empty().insert(events.last().timestamp));
        assert(timestamp_set(events).len() == 1);
    } else {
        let prefix = events.drop_last();
        let n = events.len() as int;
        assert(ts_non_decreasing(prefix));
        lemma_coalesce_count(prefix);
        lemma_timestamp_set_finite(prefix);
        lemma_timestamp_set_members(prefix);
        assert(prefix.last() == events[n - 2]);
        if events[n - 1].timestamp != events[n - 2].timestamp {
            assert(events[n - 2].timestamp <= events[n - 1].timestamp);
            assert(!timestamp_set(prefix).contains(events[n - 1].timestamp));
            vstd::set::axiom_set_insert_len(timestamp_set(prefix), events[n - 1].timestamp);
        } else {
            assert(timestamp_set(prefix).contains(events[n - 1].timestamp));
            vstd::set::axiom_set_insert_len(timestamp_set(prefix), events[n - 1].timestamp);
        }
    }
}

} // verus!
