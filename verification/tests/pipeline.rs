use eave_tracing::{
    DispatchStats, Dispatcher, EventKind, EventRecord, HookOutcome, SamplerConfig, SourceLocation,
    Tracer, TracerConfig, PPM_SCALE,
};

fn record(kind: EventKind, frame_id: u64, ts: u64) -> EventRecord {
    eave_tracing::make_record(kind, frame_id, Some(1), Some(10), ts, None)
}

fn active_tracer(rate_ppm: u32, capacity: usize) -> Tracer {
    let mut t = Tracer::new(SamplerConfig::all_kinds(rate_ppm), capacity);
    t.set_active(true);
    t
}

#[test]
fn full_rate_scenario_one_frame_in_order() {
    // sample_rate at the whole: one Call, two Line, one Return for frame 42
    // come out as exactly four records, in order, all tagged frame 42.
    let mut t = active_tracer(PPM_SCALE, 16);
    assert_eq!(
        t.on_event("call", 42, Some(7), Some(1), 100, None),
        HookOutcome::Forwarded
    );
    assert_eq!(
        t.on_event("line", 42, Some(7), Some(2), 101, None),
        HookOutcome::Forwarded
    );
    assert_eq!(
        t.on_event("line", 42, Some(7), Some(3), 102, None),
        HookOutcome::Forwarded
    );
    assert_eq!(
        t.on_event("return", 42, Some(7), Some(3), 103, None),
        HookOutcome::Forwarded
    );
    assert_eq!(t.pending(), 4);
    let batch = t.take_batch();
    assert_eq!(batch.len(), 4);
    let kinds: Vec<EventKind> = batch.iter().map(|r| r.kind).collect();
    assert_eq!(
        kinds,
        vec![
            EventKind::Call,
            EventKind::Line,
            EventKind::Line,
            EventKind::Return
        ]
    );
    for r in &batch {
        assert_eq!(r.frame_id, 42);
    }
    let stamps: Vec<u64> = batch.iter().map(|r| r.timestamp_ns).collect();
    assert_eq!(stamps, vec![100, 101, 102, 103]);
}

#[test]
fn capacity_two_drops_three_of_five() {
    // buffer_capacity 2, five submissions, no flush: three oldest dropped.
    let mut d = Dispatcher::new(2);
    for i in 0..5u64 {
        d.submit(record(EventKind::Line, i, i));
    }
    let s: DispatchStats = d.stats();
    assert_eq!(s.sent_count, 0);
    assert_eq!(s.dropped_count, 3);
    assert_eq!(s.error_count, 0);
    let batch = d.take_batch();
    assert_eq!(batch.len(), 2);
    // the two newest survive, still in submission order
    assert_eq!(batch[0].frame_id, 3);
    assert_eq!(batch[1].frame_id, 4);
}

#[test]
fn submit_returns_promptly_when_sink_never_drains() {
    // an unreachable sink means take_batch is never called; submit must
    // keep returning and count drops once capacity is exceeded.
    let mut d = Dispatcher::new(8);
    for i in 0..1000u64 {
        d.submit(record(EventKind::Call, i, i));
    }
    let s = d.stats();
    assert_eq!(s.dropped_count, 1000 - 8);
    assert_eq!(s.sent_count, 0);
}

#[test]
fn sampling_is_consistent_per_frame() {
    // with a rate strictly between the slots of two frames, every
    // non-exception event of one frame gets one verdict.
    let lucky = 42u64; // slot 42378
    let unlucky = 1u64; // slot 1009
    let cfg = SamplerConfig::all_kinds(1500); // keeps slot 1009, drops 42378
    let mut t = Tracer::new(cfg, 64);
    t.set_active(true);
    for name in ["call", "line", "line", "return"] {
        assert_eq!(
            t.on_event(name, lucky, None, None, 0, None),
            HookOutcome::Rejected
        );
    }
    for name in ["call", "line", "line", "return"] {
        assert_eq!(
            t.on_event(name, unlucky, None, None, 0, None),
            HookOutcome::Forwarded
        );
    }
    assert_eq!(t.pending(), 4);
}

#[test]
fn exceptions_bypass_the_rate() {
    // the lowest rate still forwards every exception event.
    let mut t = active_tracer(1, 8);
    assert_eq!(
        t.on_event("line", 42, None, None, 0, None),
        HookOutcome::Rejected
    );
    assert_eq!(
        t.on_event(
            "exception",
            42,
            None,
            None,
            1,
            Some(String::from("ValueError"))
        ),
        HookOutcome::Forwarded
    );
    let batch = t.take_batch();
    assert_eq!(batch.len(), 1);
    assert_eq!(batch[0].kind, EventKind::Exception);
    assert_eq!(batch[0].payload.as_deref(), Some("ValueError"));
}

#[test]
fn rate_threshold_is_exact_on_the_slot() {
    // frame 42 hashes to slot 42378: a rate one above keeps it, the rate
    // equal to the slot drops it.
    let mut keep = active_tracer(42379, 4);
    let mut drop = active_tracer(42378, 4);
    assert_eq!(
        keep.on_event("call", 42, None, None, 0, None),
        HookOutcome::Forwarded
    );
    assert_eq!(
        drop.on_event("call", 42, None, None, 0, None),
        HookOutcome::Rejected
    );
}

#[test]
fn inactive_tracer_records_nothing() {
    let mut t = Tracer::new(SamplerConfig::all_kinds(PPM_SCALE), 4);
    assert_eq!(
        t.on_event("exception", 1, None, None, 0, None),
        HookOutcome::Inactive
    );
    assert_eq!(t.pending(), 0);
    t.set_active(true);
    t.set_active(false);
    assert_eq!(
        t.on_event("call", 1, None, None, 0, None),
        HookOutcome::Inactive
    );
}

#[test]
fn unknown_event_names_are_ignored() {
    let mut t = active_tracer(PPM_SCALE, 4);
    for name in ["opcode", "c_call", "c_return", "c_exception", ""] {
        assert_eq!(
            t.on_event(name, 1, None, None, 0, None),
            HookOutcome::Unrecognized
        );
    }
    assert_eq!(t.pending(), 0);
}

#[test]
fn parse_event_kind_recognizes_the_four_names() {
    assert_eq!(eave_tracing::parse_event_kind("call"), Some(EventKind::Call));
    assert_eq!(eave_tracing::parse_event_kind("line"), Some(EventKind::Line));
    assert_eq!(
        eave_tracing::parse_event_kind("return"),
        Some(EventKind::Return)
    );
    assert_eq!(
        eave_tracing::parse_event_kind("exception"),
        Some(EventKind::Exception)
    );
    assert_eq!(eave_tracing::parse_event_kind("Call"), None);
    assert_eq!(eave_tracing::parse_event_kind("calls"), None);
    assert_eq!(eave_tracing::parse_event_kind("cal"), None);
}

#[test]
fn record_location_needs_both_parts() {
    let r = eave_tracing::make_record(EventKind::Call, 5, Some(9), Some(33), 7, None);
    assert_eq!(r.location, Some(SourceLocation { code_id: 9, line: 33 }));
    let r = eave_tracing::make_record(EventKind::Call, 5, Some(9), None, 7, None);
    assert_eq!(r.location, None);
    let r = eave_tracing::make_record(EventKind::Call, 5, None, Some(33), 7, None);
    assert_eq!(r.location, None);
    let r = eave_tracing::make_record(EventKind::Call, 5, None, None, 7, None);
    assert_eq!(r.location, None);
}

#[test]
fn payload_is_kept_for_exceptions_only() {
    let p = Some(String::from("KeyError"));
    let r = eave_tracing::make_record(EventKind::Exception, 5, None, None, 7, p.clone());
    assert_eq!(r.payload.as_deref(), Some("KeyError"));
    for kind in [EventKind::Call, EventKind::Line, EventKind::Return] {
        let r = eave_tracing::make_record(kind, 5, None, None, 7, p.clone());
        assert_eq!(r.payload, None);
    }
}

#[test]
fn flush_outcome_updates_the_counters() {
    let mut t = active_tracer(PPM_SCALE, 8);
    t.on_event("call", 1, None, None, 0, None);
    t.on_event("return", 1, None, None, 1, None);
    let batch = t.take_batch();
    assert_eq!(batch.len(), 2);
    t.note_sent(batch.len());
    assert_eq!(t.stats().sent_count, 2);
    t.on_event("call", 2, None, None, 2, None);
    let batch = t.take_batch();
    assert_eq!(batch.len(), 1);
    t.note_send_failed();
    let s = t.stats();
    assert_eq!(s.sent_count, 2);
    assert_eq!(s.error_count, 1);
    assert_eq!(s.dropped_count, 0);
}

#[test]
fn counters_saturate_instead_of_wrapping() {
    let mut d = Dispatcher::new(1);
    d.note_sent(usize::MAX);
    d.note_sent(usize::MAX);
    d.note_sent(3);
    assert_eq!(d.stats().sent_count, u64::MAX);
}

#[test]
fn flush_due_triggers_on_count_or_time() {
    assert!(!eave_tracing::flush_due(0, 10, 999, 100)); // nothing pending
    assert!(eave_tracing::flush_due(10, 10, 0, 100)); // count trigger
    assert!(eave_tracing::flush_due(1, 10, 100, 100)); // time trigger
    assert!(!eave_tracing::flush_due(1, 10, 99, 100)); // neither
}

#[test]
fn retry_backoff_doubles_up_to_the_ceiling() {
    assert_eq!(eave_tracing::retry_backoff_ns(0, 100, 1000), 100);
    assert_eq!(eave_tracing::retry_backoff_ns(1, 100, 1000), 200);
    assert_eq!(eave_tracing::retry_backoff_ns(2, 100, 1000), 400);
    assert_eq!(eave_tracing::retry_backoff_ns(3, 100, 1000), 800);
    assert_eq!(eave_tracing::retry_backoff_ns(4, 100, 1000), 1000);
    assert_eq!(eave_tracing::retry_backoff_ns(50, 100, 1000), 1000);
    assert_eq!(eave_tracing::retry_backoff_ns(0, 5000, 1000), 1000);
}

#[test]
fn zero_capacity_is_raised_to_one() {
    let mut d = Dispatcher::new(0);
    d.submit(record(EventKind::Call, 1, 0));
    d.submit(record(EventKind::Call, 2, 1));
    let s = d.stats();
    assert_eq!(s.dropped_count, 1);
    let batch = d.take_batch();
    assert_eq!(batch.len(), 1);
    assert_eq!(batch[0].frame_id, 2);
}

#[test]
fn tracer_from_config_obeys_enabled_flag() {
    let mut cfg = TracerConfig::default();
    cfg.sample_rate_ppm = PPM_SCALE;
    cfg.buffer_capacity = 4;
    let mut t = Tracer::from_config(&cfg);
    assert_eq!(
        t.on_event("call", 1, None, None, 0, None),
        HookOutcome::Inactive
    );
    cfg.enabled = true;
    let mut t = Tracer::from_config(&cfg);
    assert_eq!(
        t.on_event("call", 1, None, None, 0, None),
        HookOutcome::Forwarded
    );
}
