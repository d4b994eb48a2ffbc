use fee_replay::coalesce::coalesce;
use fee_replay::digits::gas_text;
use fee_replay::digits::u128_to_decimal;
use fee_replay::engine::EngineState;
use fee_replay::engine::ReplayEngine;
use fee_replay::parse::parse_events;
use fee_replay::parse::parse_i32;
use fee_replay::parse::parse_u32;
use fee_replay::progress::eta_parts;
use fee_replay::progress::ProgressTracker;
use fee_replay::types::FeeSnapshot;
use fee_replay::types::InitCall;
use fee_replay::types::RawRecord;
use fee_replay::types::RawTradeEvent;
use fee_replay::types::ReplayError;
use fee_replay::types::SettledTransition;
use fee_replay::types::UpdateCall;

fn ev(timestamp: u32, tick: i32) -> RawTradeEvent {
    RawTradeEvent { timestamp, tick }
}

fn rec(timestamp: &str, tick: &str) -> RawRecord {
    RawRecord {
        timestamp: timestamp.as_bytes().to_vec(),
        tick: tick.as_bytes().to_vec(),
    }
}

#[test]
fn parse_u32_plain_and_signed_forms() {
    assert_eq!(parse_u32(&b"0".to_vec()), Some(0));
    assert_eq!(parse_u32(&b"100".to_vec()), Some(100));
    assert_eq!(parse_u32(&b"+123".to_vec()), Some(123));
    assert_eq!(parse_u32(&b"007".to_vec()), Some(7));
    assert_eq!(parse_u32(&b"4294967295".to_vec()), Some(u32::MAX));
    assert_eq!(parse_u32(&b"4294967296".to_vec()), None);
    assert_eq!(parse_u32(&b"99999999999999999999".to_vec()), None);
    assert_eq!(parse_u32(&b"".to_vec()), None);
    assert_eq!(parse_u32(&b"+".to_vec()), None);
    assert_eq!(parse_u32(&b"-1".to_vec()), None);
    assert_eq!(parse_u32(&b"12a".to_vec()), None);
    assert_eq!(parse_u32(&b" 12".to_vec()), None);
}

#[test]
fn parse_i32_plain_and_signed_forms() {
    assert_eq!(parse_i32(&b"0".to_vec()), Some(0));
    assert_eq!(parse_i32(&b"-1".to_vec()), Some(-1));
    assert_eq!(parse_i32(&b"+42".to_vec()), Some(42));
    assert_eq!(parse_i32(&b"2147483647".to_vec()), Some(i32::MAX));
    assert_eq!(parse_i32(&b"2147483648".to_vec()), None);
    assert_eq!(parse_i32(&b"-2147483648".to_vec()), Some(i32::MIN));
    assert_eq!(parse_i32(&b"-2147483649".to_vec()), None);
    assert_eq!(parse_i32(&b"abc".to_vec()), None);
    assert_eq!(parse_i32(&b"-".to_vec()), None);
    assert_eq!(parse_i32(&b"".to_vec()), None);
}

#[test]
fn coalesce_merges_shared_timestamps() {
    // Three raw events, two distinct timestamps: one transition, carrying
    // the last tick seen under the first timestamp.
    let events = vec![ev(100, 5), ev(100, 7), ev(102, 9)];
    let transitions = coalesce(&events);
    assert_eq!(
        transitions,
        vec![SettledTransition { timestamp: 102, tick: 7 }]
    );
}

#[test]
fn coalesce_emits_one_transition_per_distinct_timestamp_boundary() {
    // Five distinct timestamps among eight raw events: four transitions.
    let events = vec![
        ev(10, 1),
        ev(10, 2),
        ev(11, 3),
        ev(12, 4),
        ev(12, 5),
        ev(12, 6),
        ev(13, 7),
        ev(14, 8),
    ];
    let transitions = coalesce(&events);
    assert_eq!(transitions.len(), 4);
    assert_eq!(
        transitions,
        vec![
            SettledTransition { timestamp: 11, tick: 2 },
            SettledTransition { timestamp: 12, tick: 3 },
            SettledTransition { timestamp: 13, tick: 6 },
            SettledTransition { timestamp: 14, tick: 7 },
        ]
    );
}

#[test]
fn coalesce_single_timestamp_yields_nothing() {
    let events = vec![ev(50, 1), ev(50, 2), ev(50, 3)];
    assert_eq!(coalesce(&events).len(), 0);
}

#[test]
fn replay_example_run() {
    // The worked example: init from the first event, one update advancing
    // time by 2 with the settled tick 7, one result carrying the fee
    // snapshot unchanged.
    let records = vec![rec("100", "5"), rec("100", "7"), rec("102", "9")];
    let events = parse_events(&records).unwrap();
    let (mut engine, init) = ReplayEngine::new(&events, 5000, 3600, 1_000).unwrap();
    assert_eq!(init, InitCall { tick: 5, timestamp: 100 });
    engine.confirm_init();
    assert_eq!(engine.state, EngineState::Initialized);

    let owed = engine.next_update().unwrap().unwrap();
    assert_eq!(owed, UpdateCall { advance_time_by: 2, tick: 7 });

    let fee = FeeSnapshot { fee: 30, volatility_average: 777, tick_average: 6 };
    engine.apply_update_result(fee, Some(21_000), 1_001);

    assert_eq!(engine.state, EngineState::Completed);
    assert_eq!(engine.results.len(), 1);
    let r = &engine.results[0];
    assert_eq!(r.timestamp, 102);
    assert_eq!(r.tick, 7);
    assert_eq!(r.fee, 30);
    assert_eq!(r.volatility_average, 777);
    assert_eq!(r.tick_average, 6);
    assert_eq!(r.gas_used, Some(21_000));

    assert_eq!(engine.next_update(), Ok(None));
}

#[test]
fn replay_passes_each_fee_snapshot_through_unchanged() {
    let events = vec![ev(1, 10), ev(2, 20), ev(3, 30), ev(4, 40)];
    let (mut engine, _) = ReplayEngine::new(&events, 5000, 3600, 0).unwrap();
    engine.confirm_init();
    let mut step: u16 = 0;
    while let Some(owed) = engine.next_update().unwrap() {
        let fee = FeeSnapshot {
            fee: 100 + step,
            volatility_average: 1_000 + step as u128,
            tick_average: owed.tick,
        };
        engine.apply_update_result(fee, None, 0);
        step += 1;
    }
    assert_eq!(engine.state, EngineState::Completed);
    assert_eq!(engine.results.len(), 3);
    for (i, r) in engine.results.iter().enumerate() {
        assert_eq!(r.fee, 100 + i as u16);
        assert_eq!(r.volatility_average, 1_000 + i as u128);
        assert_eq!(r.tick, 10 * (i as i32 + 1));
        assert_eq!(r.timestamp, i as u32 + 2);
        assert_eq!(r.gas_used, None);
    }
    // Strictly increasing timestamps, one per distinct-timestamp boundary.
    for w in engine.results.windows(2) {
        assert!(w[0].timestamp < w[1].timestamp);
    }
}

#[test]
fn single_distinct_timestamp_completes_after_init_alone() {
    let records = vec![rec("100", "1"), rec("100", "2"), rec("100", "3")];
    let events = parse_events(&records).unwrap();
    let (mut engine, init) = ReplayEngine::new(&events, 5000, 3600, 0).unwrap();
    assert_eq!(init, InitCall { tick: 1, timestamp: 100 });
    engine.confirm_init();
    assert_eq!(engine.state, EngineState::Completed);
    assert_eq!(engine.results.len(), 0);
    assert_eq!(engine.next_update(), Ok(None));
}

#[test]
fn from_records_runs_the_whole_front_half() {
    let records = vec![rec("100", "5"), rec("100", "7"), rec("102", "9")];
    let (engine, init) = ReplayEngine::from_records(&records, 5000, 3600, 0).unwrap();
    assert_eq!(init, InitCall { tick: 5, timestamp: 100 });
    assert_eq!(
        engine.transitions,
        vec![SettledTransition { timestamp: 102, tick: 7 }]
    );

    let no_records: Vec<RawRecord> = Vec::new();
    match ReplayEngine::from_records(&no_records, 5000, 3600, 0) {
        Err(ReplayError::EmptyInput) => {}
        other => panic!("expected EmptyInput, got ok={:?}", other.is_ok()),
    }

    let bad = vec![rec("100", "5"), rec("101", "1e3")];
    match ReplayEngine::from_records(&bad, 5000, 3600, 0) {
        Err(ReplayError::MalformedRecord { index }) => assert_eq!(index, 1),
        other => panic!("expected MalformedRecord, got ok={:?}", other.is_ok()),
    }
}

#[test]
fn empty_input_fails_with_empty_input_error() {
    let events: Vec<RawTradeEvent> = Vec::new();
    match ReplayEngine::new(&events, 5000, 3600, 0) {
        Err(ReplayError::EmptyInput) => {}
        other => panic!("expected EmptyInput, got {:?}", other.is_ok()),
    }
}

#[test]
fn malformed_third_record_aborts_the_whole_run() {
    let records = vec![rec("100", "5"), rec("101", "7"), rec("102", "abc")];
    match parse_events(&records) {
        Err(ReplayError::MalformedRecord { index }) => assert_eq!(index, 2),
        _ => panic!("expected MalformedRecord"),
    }
    let records = vec![rec("100", "5"), rec("x", "7")];
    match parse_events(&records) {
        Err(ReplayError::MalformedRecord { index }) => assert_eq!(index, 1),
        _ => panic!("expected MalformedRecord"),
    }
}

#[test]
fn budget_trip_stops_the_run_with_partial_results() {
    // Cadence of one: the budget is checked after every transition. The
    // clock reading handed back is far past the zero budget, so the run
    // stops after one applied transition of the four owed.
    let events = vec![ev(1, 10), ev(2, 20), ev(3, 30), ev(4, 40), ev(5, 50)];
    let (mut engine, _) = ReplayEngine::new(&events, 1, 0, 100).unwrap();
    engine.confirm_init();
    let owed = engine.next_update().unwrap().unwrap();
    assert_eq!(owed, UpdateCall { advance_time_by: 1, tick: 10 });
    let fee = FeeSnapshot { fee: 1, volatility_average: 2, tick_average: 3 };
    let snapshot = engine.apply_update_result(fee, Some(5), 200);
    assert!(snapshot.is_some());
    assert_eq!(engine.state, EngineState::TimedOut);
    assert_eq!(engine.results.len(), 1);
    // No further oracle work is handed out.
    assert_eq!(engine.next_update(), Ok(None));
    assert_eq!(engine.results[0].timestamp, 2);
}

#[test]
fn non_monotone_input_is_a_consistency_defect_not_an_update() {
    let events = vec![ev(100, 1), ev(90, 2)];
    let (mut engine, _) = ReplayEngine::new(&events, 5000, 3600, 0).unwrap();
    engine.confirm_init();
    assert_eq!(engine.next_update(), Err(ReplayError::InternalConsistency));
    engine.mark_failed();
    assert_eq!(engine.state, EngineState::Failed);
    assert_eq!(engine.next_update(), Ok(None));
}

#[test]
fn progress_snapshot_carries_the_projection_formulas() {
    // Four transitions of ten total processed over two elapsed seconds:
    // speed 2/s, remaining 6 at that pace projects floor(6*2/4) = 3s.
    let mut tracker = ProgressTracker::new(10, 4, 3600, 1_000);
    let mut reports = 0;
    for k in 0..4u32 {
        let (snap, tripped) = tracker.record(Some(10 + k as u128 * 10), 1_002);
        assert!(!tripped);
        if let Some(s) = snap {
            reports += 1;
            assert_eq!(s.processed, 4);
            assert_eq!(s.total, 10);
            assert_eq!(s.elapsed_seconds, 2);
            assert_eq!(s.speed, 2);
            let eta = s.eta.unwrap();
            assert_eq!((eta.hours, eta.minutes, eta.seconds), (0, 0, 3));
            // Gas 10+20+30+40 over a window of four transitions.
            assert_eq!(s.avg_gas_per_transition, 25);
        }
    }
    assert_eq!(reports, 1);
}

#[test]
fn progress_without_elapsed_time_reports_no_eta() {
    let mut tracker = ProgressTracker::new(5, 1, 3600, 500);
    let (snap, tripped) = tracker.record(None, 500);
    let s = snap.unwrap();
    assert!(!tripped);
    assert_eq!(s.elapsed_seconds, 0);
    assert_eq!(s.speed, 0);
    assert!(s.eta.is_none());
    assert_eq!(s.avg_gas_per_transition, 0);
}

#[test]
fn eta_decomposes_into_hours_minutes_seconds() {
    let parts = eta_parts(3_725);
    assert_eq!((parts.hours, parts.minutes, parts.seconds), (1, 2, 5));
    let parts = eta_parts(59);
    assert_eq!((parts.hours, parts.minutes, parts.seconds), (0, 0, 59));
    let parts = eta_parts(3_600);
    assert_eq!((parts.hours, parts.minutes, parts.seconds), (1, 0, 0));
}

#[test]
fn gas_renders_as_decimal_text_with_zero_sentinel() {
    assert_eq!(u128_to_decimal(0), b"0".to_vec());
    assert_eq!(u128_to_decimal(7), b"7".to_vec());
    assert_eq!(u128_to_decimal(21_000), b"21000".to_vec());
    assert_eq!(
        u128_to_decimal(u128::MAX),
        b"340282366920938463463374607431768211455".to_vec()
    );
    assert_eq!(gas_text(Some(12_345)), b"12345".to_vec());
    assert_eq!(gas_text(None), b"0".to_vec());
}
