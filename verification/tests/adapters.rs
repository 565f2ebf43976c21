use es_git::apply::{hunk_sentinel, on_hunk, pack_hunk, DiffHunkData, RawHunk};
use es_git::bridge::{replay, BridgeError, CallRecord, InvocationResult};
use es_git::index::{
    match_action, on_match, on_match_sentinel, pack_match, IndexOnMatchCallbackArgs, MatchAction, ON_MATCH_ABORT,
};
use es_git::remote::{
    host_count, on_push_transfer_progress, on_transfer_progress, progress_sentinel, Progress, PushProgress,
    RawProgress,
};
use es_git::tracing::{on_trace, TraceLevel, TraceSlot};
use es_git::Error;
use std::cell::RefCell;

fn through_bridge<Ret>(outcome: InvocationResult<Ret>) -> Result<Ret, BridgeError> {
    replay(CallRecord { accepted: true, written: Some(outcome), poisoned: false })
}

const ALL_ERRORS: [fn() -> BridgeError; 4] = [
    || BridgeError::EnqueueFailure,
    || BridgeError::PoisonedState,
    || BridgeError::UnknownReturnValue,
    || BridgeError::ScriptError(String::new()),
];

#[test]
fn on_match_passes_the_script_number_through() {
    assert_eq!(on_match_sentinel(Ok(0)), 0);
    assert_eq!(on_match_sentinel(Ok(1)), 1);
    assert_eq!(on_match_sentinel(Ok(17)), 17);
    assert_eq!(on_match_sentinel(Ok(-1)), -1);
    assert_eq!(on_match_sentinel(Ok(-40)), -40);
    assert_eq!(on_match_sentinel(Ok(i32::MAX)), i32::MAX);
    assert_eq!(on_match_sentinel(Ok(i32::MIN)), i32::MIN);
}

#[test]
fn on_match_aborts_on_every_bridge_failure() {
    for make in ALL_ERRORS.iter() {
        let code = on_match_sentinel(Err(make()));
        assert_eq!(code, ON_MATCH_ABORT);
        assert_eq!(code, -1);
        assert_eq!(match_action(code), MatchAction::Abort);
    }
}

#[test]
fn engine_reading_of_sentinels() {
    assert_eq!(match_action(0), MatchAction::Proceed);
    assert_eq!(match_action(1), MatchAction::Skip);
    assert_eq!(match_action(i32::MAX), MatchAction::Skip);
    assert_eq!(match_action(-1), MatchAction::Abort);
    assert_eq!(match_action(i32::MIN), MatchAction::Abort);
}

#[test]
fn pack_match_decodes_path_and_pathspec() {
    let packed = pack_match(b"src/lib.rs", b"src/*").unwrap();
    assert_eq!(packed, IndexOnMatchCallbackArgs { path: "src/lib.rs".to_string(), pathspec: "src/*".to_string() });
    let empty = pack_match(b"", b"").unwrap();
    assert_eq!(empty, IndexOnMatchCallbackArgs { path: String::new(), pathspec: String::new() });
}

#[test]
fn pack_match_replaces_what_a_path_cannot_spell() {
    let packed = pack_match(&[b'a', 0xff, b'b'], b"*").unwrap();
    assert_eq!(packed.path, "a\u{fffd}b");
}

#[test]
fn pack_match_refuses_a_pathspec_that_is_not_text() {
    assert_eq!(pack_match(b"a.txt", &[0xc3, 0x28]), None);
}

#[test]
fn index_scan_skips_what_the_callback_skips() {
    let offered = RefCell::new(Vec::new());
    let invoke = |args: IndexOnMatchCallbackArgs| {
        offered.borrow_mut().push(args.path.clone());
        through_bridge(InvocationResult::Value(if args.path == "b.txt" { 1 } else { 0 }))
    };
    let mut added = Vec::new();
    for path in ["a.txt", "b.txt", "c.txt"] {
        match match_action(on_match(&invoke, path.as_bytes(), b"*")) {
            MatchAction::Proceed => added.push(path),
            MatchAction::Skip => {}
            MatchAction::Abort => panic!("the scan was aborted"),
        }
    }
    assert_eq!(added, vec!["a.txt", "c.txt"]);
    assert_eq!(*offered.borrow(), vec!["a.txt", "b.txt", "c.txt"]);
}

#[test]
fn on_match_hands_path_and_pathspec_to_the_callback() {
    let seen = RefCell::new(None);
    let invoke = |args: IndexOnMatchCallbackArgs| {
        *seen.borrow_mut() = Some(args);
        Ok(0)
    };
    assert_eq!(on_match(&invoke, b"docs/readme.md", b"docs/**"), 0);
    assert_eq!(
        seen.borrow().clone(),
        Some(IndexOnMatchCallbackArgs { path: "docs/readme.md".to_string(), pathspec: "docs/**".to_string() })
    );
}

#[test]
fn on_match_aborts_when_the_script_throws() {
    let invoke = |_args: IndexOnMatchCallbackArgs| through_bridge(InvocationResult::<i32>::Failure("thrown".to_string()));
    assert_eq!(on_match(&invoke, b"a.txt", b"*"), -1);
}

#[test]
fn on_match_aborts_without_calling_on_a_bad_pathspec() {
    let calls = RefCell::new(0);
    let invoke = |_args: IndexOnMatchCallbackArgs| {
        *calls.borrow_mut() += 1;
        Ok(0)
    };
    assert_eq!(on_match(&invoke, b"a.txt", &[0xff]), ON_MATCH_ABORT);
    assert_eq!(*calls.borrow(), 0);
}

fn sample_hunk() -> RawHunk {
    RawHunk { old_start: 3, old_lines: 2, new_start: 3, new_lines: 4, header: b"@@ -3,2 +3,4 @@ fn main()\n".to_vec() }
}

#[test]
fn hunk_data_keeps_numbers_and_decodes_header() {
    let data = DiffHunkData::from_raw(&sample_hunk()).unwrap();
    assert_eq!(
        data,
        DiffHunkData {
            old_start: 3,
            old_lines: 2,
            new_start: 3,
            new_lines: 4,
            header: "@@ -3,2 +3,4 @@ fn main()\n".to_string(),
        }
    );
}

#[test]
fn hunk_data_refuses_a_header_that_is_not_text() {
    let mut raw = sample_hunk();
    raw.header = vec![0x40, 0x40, 0x80];
    assert_eq!(DiffHunkData::from_raw(&raw), Err(Error::InvalidUtf8));
    assert_eq!(pack_hunk(Some(&raw)), None);
}

#[test]
fn pack_hunk_of_nothing_is_nothing() {
    assert_eq!(pack_hunk(None), None);
    assert!(pack_hunk(Some(&sample_hunk())).is_some());
}

#[test]
fn hunk_sentinel_follows_the_script_and_stops_on_failure() {
    assert!(hunk_sentinel(Ok(true)));
    assert!(!hunk_sentinel(Ok(false)));
    for make in ALL_ERRORS.iter() {
        assert!(!hunk_sentinel(Err(make())));
    }
}

#[test]
fn hunk_callback_that_always_refuses_applies_nothing() {
    let invoke = |_data: Option<DiffHunkData>| through_bridge(InvocationResult::Value(false));
    let hunks = [sample_hunk(), sample_hunk(), sample_hunk()];
    let applied = hunks.iter().filter(|h| on_hunk(&invoke, Some(h))).count();
    assert_eq!(applied, 0);
}

#[test]
fn on_hunk_shows_the_hunk_to_the_callback() {
    let seen = RefCell::new(Vec::new());
    let invoke = |data: Option<DiffHunkData>| {
        seen.borrow_mut().push(data);
        Ok(true)
    };
    let raw = sample_hunk();
    assert!(on_hunk(&invoke, Some(&raw)));
    assert!(on_hunk(&invoke, None));
    let seen = seen.borrow();
    assert_eq!(seen.len(), 2);
    assert_eq!(seen[0], Some(DiffHunkData::from_raw(&raw).unwrap()));
    assert_eq!(seen[1], None);
}

#[test]
fn on_hunk_stops_when_the_bridge_fails() {
    let invoke = |_data: Option<DiffHunkData>| -> Result<bool, BridgeError> { Err(BridgeError::PoisonedState) };
    assert!(!on_hunk(&invoke, Some(&sample_hunk())));
    let unknown = |_data: Option<DiffHunkData>| through_bridge(InvocationResult::<bool>::Unknown);
    assert!(!on_hunk(&unknown, Some(&sample_hunk())));
}

fn counts(received_objects: usize, received_bytes: usize) -> RawProgress {
    RawProgress {
        total_objects: 10,
        indexed_objects: received_objects,
        received_objects,
        local_objects: 0,
        total_deltas: 4,
        indexed_deltas: 0,
        received_bytes,
    }
}

#[test]
fn host_count_keeps_small_counts_and_wraps_large_ones() {
    assert_eq!(host_count(0), 0);
    assert_eq!(host_count(1234), 1234);
    assert_eq!(host_count(u32::MAX as usize), u32::MAX);
    assert_eq!(host_count(0x1_0000_0000), 0);
    assert_eq!(host_count(0x1_0000_0005), 5);
    assert_eq!(host_count(usize::MAX), u32::MAX);
}

#[test]
fn progress_report_copies_every_counter() {
    let raw = RawProgress {
        total_objects: 1,
        indexed_objects: 2,
        received_objects: 3,
        local_objects: 4,
        total_deltas: 5,
        indexed_deltas: 6,
        received_bytes: 7,
    };
    assert_eq!(
        Progress::from_raw(raw),
        Progress {
            total_objects: 1,
            indexed_objects: 2,
            received_objects: 3,
            local_objects: 4,
            total_deltas: 5,
            indexed_deltas: 6,
            received_bytes: 7,
        }
    );
    assert_eq!(PushProgress::from_raw(8, 9, 10), PushProgress { current: 8, total: 9, bytes: 10 });
}

#[test]
fn progress_sentinel_goes_on_only_after_a_delivery() {
    assert!(progress_sentinel(Ok(())));
    for make in ALL_ERRORS.iter() {
        assert!(!progress_sentinel(Err(make())));
    }
}

#[test]
fn transfer_progress_reports_are_non_decreasing_and_end_at_the_total() {
    let recorded = RefCell::new(Vec::new());
    let invoke = |report: Progress| {
        recorded.borrow_mut().push(report.received_bytes);
        through_bridge(InvocationResult::Value(()))
    };
    let transfer = [counts(0, 0), counts(2, 512), counts(2, 512), counts(7, 4096), counts(10, 65_536)];
    for step in transfer.iter() {
        assert!(on_transfer_progress(&invoke, *step));
    }
    let recorded = recorded.borrow();
    assert_eq!(*recorded, vec![0, 512, 512, 4096, 65_536]);
    assert!(recorded.windows(2).all(|w| w[0] <= w[1]));
    assert_eq!(*recorded.last().unwrap() as usize, transfer.last().unwrap().received_bytes);
}

#[test]
fn transfer_stops_when_the_report_cannot_be_delivered() {
    let invoke = |_report: Progress| through_bridge(InvocationResult::<()>::Failure("thrown".to_string()));
    assert!(!on_transfer_progress(&invoke, counts(1, 1)));
    let refused = |_report: Progress| -> Result<(), BridgeError> { Err(BridgeError::EnqueueFailure) };
    assert!(!on_transfer_progress(&refused, counts(1, 1)));
}

#[test]
fn push_progress_is_packed_and_failures_are_dropped() {
    let seen = RefCell::new(Vec::new());
    let invoke = |report: PushProgress| {
        seen.borrow_mut().push(report);
        Ok(())
    };
    assert!(on_push_transfer_progress(&invoke, 1, 3, 100));
    assert_eq!(*seen.borrow(), vec![PushProgress { current: 1, total: 3, bytes: 100 }]);
    let failing = |_report: PushProgress| -> Result<(), BridgeError> { Err(BridgeError::UnknownReturnValue) };
    assert!(!on_push_transfer_progress(&failing, 1, 3, 100));
}

#[test]
fn trace_slot_set_replaces_and_clear_is_idempotent() {
    let mut slot = TraceSlot::<&str>::new();
    assert_eq!(slot.subscriber(), None);
    assert_eq!(slot.set("first"), None);
    assert_eq!(slot.subscriber(), Some(&"first"));
    assert_eq!(slot.set("second"), Some("first"));
    assert_eq!(slot.subscriber(), Some(&"second"));
    assert_eq!(slot.clear(), Some("second"));
    assert_eq!(slot.subscriber(), None);
    assert_eq!(slot.clear(), None);
    assert_eq!(slot.subscriber(), None);
}

#[test]
fn trace_is_delivered_to_the_subscriber() {
    let mut slot = TraceSlot::new();
    slot.set(7u32);
    let seen = RefCell::new(Vec::new());
    let invoke = |h: &u32, level: TraceLevel, text: String| {
        seen.borrow_mut().push((*h, level, text));
        Ok(())
    };
    assert!(on_trace(&slot, &invoke, TraceLevel::Debug, b"packfile opened"));
    assert_eq!(*seen.borrow(), vec![(7u32, TraceLevel::Debug, "packfile opened".to_string())]);
}

#[test]
fn trace_without_subscriber_or_text_is_dropped() {
    let calls = RefCell::new(0);
    let invoke = |_h: &u32, _level: TraceLevel, _text: String| {
        *calls.borrow_mut() += 1;
        Ok(())
    };
    let empty = TraceSlot::<u32>::new();
    assert!(!on_trace(&empty, &invoke, TraceLevel::Info, b"nobody listens"));
    let mut slot = TraceSlot::new();
    slot.set(1u32);
    assert!(!on_trace(&slot, &invoke, TraceLevel::Info, &[0xfe, 0xff]));
    assert_eq!(*calls.borrow(), 0);
    slot.clear();
    assert!(!on_trace(&slot, &invoke, TraceLevel::Info, b"cleared"));
    assert_eq!(*calls.borrow(), 0);
}

#[test]
fn trace_swallows_the_failure_of_the_subscriber() {
    let mut slot = TraceSlot::new();
    slot.set(());
    let invoke = |_h: &(), _level: TraceLevel, _text: String| -> Result<(), BridgeError> {
        Err(BridgeError::ScriptError("the subscriber threw".to_string()))
    };
    assert!(on_trace(&slot, &invoke, TraceLevel::Error, b"still fine"));
}
