//! Parsing of textual trade records into events: decimal text to `u32`
//! timestamps and `i32` ticks, failing fast on the first malformed record.

use vstd::prelude::*;

use crate::types::RawRecord;
use crate::types::RawTradeEvent;
use crate::types::ReplayError;

verus! {

/// ASCII digit, `'0'` (0x30) through `'9'` (0x39).
pub open spec fn is_ascii_digit(b: u8) -> bool {
    0x30 <= b <= 0x39
}

pub open spec fn all_ascii_digits(s: Seq<u8>) -> bool {
    forall|i: int| 0 <= i < s.len() ==> is_ascii_digit(#[trigger] s[i])
}

/// The value of a digit string read in base ten.
pub open spec fn digits_value(s: Seq<u8>) -> nat
    decreases s.len(),
{
    if s.len() == 0 {
        0
    } else {
        digits_value(s.drop_last()) * 10 + (s.last() - 0x30) as nat
    }
}

/// What decimal text denotes as a `u32`: an optional leading `'+'` (0x2B),
/// then at least one digit, value within range. Anything else is malformed.
pub open spec fn parse_u32_spec(s: Seq<u8>) -> Option<u32> {
    let body = if s.len() > 0 && s[0] == 0x2Bu8 {
        s.subrange(1, s.len() as int)
    } else {
        s
    };
    if body.len() > 0 && all_ascii_digits(body) && digits_value(body) <= u32::MAX {
        Some(digits_value(body) as u32)
    } else {
        None
    }
}

/// What decimal text denotes as an `i32`: an optional leading `'+'` or
/// `'-'` (0x2D), then at least one digit, value within range.
pub open spec fn parse_i32_spec(s: Seq<u8>) -> Option<i32> {
    if s.len() > 0 && s[0] == 0x2Du8 {
        let body = s.subrange(1, s.len() as int);
        if body.len() > 0 && all_ascii_digits(body) && digits_value(body) <= 0x8000_0000 {
            Some((0 - digits_value(body)) as i32)
        } else {
            None
        }
    } else {
        let body = if s.len() > 0 && s[0] == 0x2Bu8 {
            s.subrange(1, s.len() as int)
        } else {
            s
        };
        if body.len() > 0 && all_ascii_digits(body) && digits_value(body) <= i32::MAX {
            Some(digits_value(body) as i32)
        } else {
            None
        }
    }
}

/// A record is well-formed when both of its fields parse.
pub open spec fn record_ok(rec: RawRecord) -> bool {
    parse_u32_spec(rec.timestamp@) is Some && parse_i32_spec(rec.tick@) is Some
}

/// The event a well-formed record denotes.
pub open spec fn event_of(rec: RawRecord) -> RawTradeEvent {
    RawTradeEvent {
        timestamp: parse_u32_spec(rec.timestamp@).unwrap(),
        tick: parse_i32_spec(rec.tick@).unwrap(),
    }
}

/// The event sequence a well-formed record sequence denotes.
pub open spec fn events_of(records: Seq<RawRecord>) -> Seq<RawTradeEvent> {
    records.map_values(|rec: RawRecord| event_of(rec))
}

/// A longer digit prefix never denotes a smaller value.
proof fn lemma_digits_value_prefix_le(s: Seq<u8>, i: int, j: int)
    requires
        0 <= i <= j <= s.len(),
        all_ascii_digits(s),
    ensures
        digits_value(s.take(i)) <= digits_value(s.take(j)),
    decreases j - i,
{
    if i < j {
        lemma_digits_value_prefix_le(s, i, j - 1);
        assert(s.take(j).drop_last() =~= s.take(j - 1));
        assert(digits_value(s.take(j)) == digits_value(s.take(j - 1)) * 10 + (s[j - 1] - 0x30));
    }
}

/// Read the digit run `s[start..]` in base ten, reporting `None` as soon as
/// a non-digit appears, the run is empty, or the value would pass `bound`.
fn parse_digits_bounded(s: &Vec<u8>, start: usize, bound: u64) -> (r: Option<u64>)
    requires
        start <= s@.len(),
        bound <= 0x1_0000_0000u64,
    ensures
        ({
            let body = s@.subrange(start as int, s@.len() as int);
            match r {
                Some(v) => body.len() > 0 && all_ascii_digits(body) && digits_value(body) <= bound
                    && v == digits_value(body),
                None => !(body.len() > 0 && all_ascii_digits(body) && digits_value(body) <= bound),
            }
        }),
{
    let ghost body = s@.subrange(start as int, s@.len() as int);
    let n: usize = s.len();
    if start == n {
        return None;
    }
    let mut acc: u64 = 0;
    let mut i: usize = start;
    while i < n
        invariant
            start <= i <= n,
            n == s@.len(),
            start < n,
            bound <= 0x1_0000_0000u64,
            body == s@.subrange(start as int, n as int),
            all_ascii_digits(body.take(i - start)),
            acc == digits_value(body.take(i - start)),
            acc <= bound,
        decreases n - i,
    {
        let b = s[i];
        proof {
            let k = i - start;
            assert(body[k as int] == s@[i as int]);
            assert(body.take(k + 1).drop_last() =~= body.take(k as int));
            assert(body.take(k + 1).last() == body[k as int]);
        }
        if b < 0x30 || b > 0x39 {
            proof {
                assert(!is_ascii_digit(body[(i - start) as int]));
            }
            return None;
        }
        let d: u64 = (b - 0x30) as u64;
        acc = acc * 10 + d;
        i += 1;
        if acc > bound {
            proof {
                let k = i - start;
                if all_ascii_digits(body) {
                    lemma_digits_value_prefix_le(body, k as int, body.len() as int);
                    assert(body.take(body.len() as int) =~= body);
                    assert(digits_value(body) >= digits_value(body.take(k as int)));
                }
            }
            return None;
        }
    }
    proof {
        assert(body.take((n - start) as int) =~= body);
    }
    Some(acc)
}

/// Parse a `u32` from decimal text, exactly as `parse_u32_spec` reads it.
pub fn parse_u32(s: &Vec<u8>) -> (r: Option<u32>)
    ensures
        r == parse_u32_spec(s@),
{
    let start: usize = if s.len() > 0 && s[0] == 0x2B {
        1
    } else {
        0
    };
    proof {
        assert(s@.subrange(0, s@.len() as int) =~= s@);
    }
    match parse_digits_bounded(s, start, 0xFFFF_FFFFu64) {
        Some(v) => Some(v as u32),
        None => None,
    }
}

/// Parse an `i32` from decimal text, exactly as `parse_i32_spec` reads it.
pub fn parse_i32(s: &Vec<u8>) -> (r: Option<i32>)
    ensures
        r == parse_i32_spec(s@),
{
    if s.len() > 0 && s[0] == 0x2D {
        match parse_digits_bounded(s, 1, 0x8000_0000u64) {
            Some(v) => {
                proof {
                    assert(0 - v as int >= i32::MIN);
                }
                Some((0i64 - v as i64) as i32)
            },
            None => None,
        }
    } else {
        let start: usize = if s.len() > 0 && s[0] == 0x2B {
            1
        } else {
            0
        };
        proof {
            assert(s@.subrange(0, s@.len() as int) =~= s@);
        }
        match parse_digits_bounded(s, start, 0x7FFF_FFFFu64) {
            Some(v) => Some(v as i32),
            None => None,
        }
    }
}

/// Parse every record of the input, in order, into events. Fails with
/// `MalformedRecord` at the first record whose timestamp or tick does not
/// read as decimal text; nothing of the input is skipped or repaired.
pub fn parse_events(records: &Vec<RawRecord>) -> (r: Result<Vec<RawTradeEvent>, ReplayError>)
    ensures
        match r {
            Ok(events) => {
                &&& forall|i: int| 0 <= i < records@.len() ==> record_ok(#[trigger] records@[i])
                &&& events@.len() == records@.len()
                &&& forall|i: int|
                    0 <= i < records@.len() ==> #[trigger] events@[i] == event_of(records@[i])
            },
            Err(e) => {
                &&& exists|i: int|
                    {
                        &&& 0 <= i < records@.len()
                        &&& !record_ok(records@[i])
                        &&& e == (ReplayError::MalformedRecord { index: i as usize })
                        &&& forall|j: int| 0 <= j < i ==> record_ok(#[trigger] records@[j])
                    }
            },
        },
{
    let mut events: Vec<RawTradeEvent> = Vec::new();
    let n: usize = records.len();
    let mut i: usize = 0;
    while i < n
        invariant
            0 <= i <= n,
            n == records@.len(),
            events@.len() == i,
            forall|j: int| 0 <= j < i ==> record_ok(#[trigger] records@[j]),
            forall|j: int| 0 <= j < i ==> #[trigger] events@[j] == event_of(records@[j]),
        decreases n - i,
    {
        let ts = parse_u32(&records[i].timestamp);
        let tick = parse_i32(&records[i].tick);
        match (ts, tick) {
            (Some(t), Some(k)) => {
                events.push(RawTradeEvent { timestamp: t, tick: k });
            },
            _ => {
                return Err(ReplayError::MalformedRecord { index: i });
            },
        }
        i += 1;
    }
    Ok(events)
}

} // verus!
