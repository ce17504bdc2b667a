use openless::platform::TargetOs;
use openless::selection::{
    capture_selection_with_status, capture_selection_with_status_diag, classify_selection_result,
    classify_simulated_copy_result, clipboard_sentinel, normalized_selection, read_selected_text,
    restored_clipboard, selection_from_copy, selection_on_linux, truncate_selection,
    uuid_like_token, ClipboardPoll, ClipboardSettle, LinuxSelectionRead, SelectionCaptureDiag,
    SelectionCaptureMissReason, SelectionContext, SELECTION_TRUNCATE_HEAD,
    SELECTION_TRUNCATE_TAIL,
};
use openless::selection_target::{
    capture_selection_insertion_target, focused_or_foreground, linux_text_for_validation,
    read_selection_for_validation, reactivate_on_macos, reactivate_selection_insertion_target,
    reactivate_step, reread_selection,
    resolve_selection_workspace_capture, resolve_selection_workspace_capture_with_diag,
    selected_text_for_validation, selection_insertion_target_is_captured,
    selection_target_still_front, selection_text_matches, validate_selection_insertion_target,
    verdict_on_window, windows_selection_target, windows_selection_targets_match,
    windows_target_is_back, LiveSelection, MacosSelectionTarget, PrefetchedSelection,
    ReactivateStep, SelectionInsertionTarget, SelectionInsertionTargetValidation,
    WindowsSelectionTarget,
};
use std::cell::RefCell;

#[test]
fn maps_dbus_text_to_selection() {
    let result = classify_selection_result(Ok(" selected text ".to_string()));
    assert_eq!(result, LinuxSelectionRead::Text("selected text".to_string()));
}

#[test]
fn maps_empty_dbus_text_to_no_selection() {
    let result = classify_selection_result(Ok(" \n".to_string()));
    assert_eq!(result, LinuxSelectionRead::NoSelection);
}

#[test]
fn maps_dbus_error_to_no_selection() {
    let result = classify_selection_result(Err("DBus unavailable".to_string()));
    assert_eq!(result, LinuxSelectionRead::NoSelection);
}

#[test]
fn the_input_method_is_asked_for_the_selection() {
    assert_eq!(
        read_selected_text(|| Ok("\u{3000}text\t".to_string())),
        LinuxSelectionRead::Text("text".to_string())
    );
    assert_eq!(
        read_selected_text(|| Err("gone".to_string())),
        LinuxSelectionRead::NoSelection
    );
}

#[test]
fn truncate_short_passes_through() {
    let text = "hello world";
    assert_eq!(truncate_selection(text), text);
}

#[test]
fn truncate_long_keeps_head_and_tail() {
    let head: String = "a".repeat(SELECTION_TRUNCATE_HEAD);
    let middle: String = "b".repeat(2_000);
    let tail: String = "c".repeat(SELECTION_TRUNCATE_TAIL);
    let combined = format!("{head}{middle}{tail}");
    let out = truncate_selection(&combined);
    assert!(out.contains("[…truncated…]"));
    assert!(out.starts_with(&"a".repeat(50)));
    assert!(out.ends_with(&"c".repeat(50)));
    assert!(!out.contains(&"b".repeat(20)));
}

#[test]
fn truncation_starts_right_after_the_limit() {
    let whole = "字".repeat(4_000);
    assert_eq!(truncate_selection(&whole), whole);
    let longer = "字".repeat(4_001);
    let expected = format!("{}\n[…truncated…]\n{}", "字".repeat(2_000), "字".repeat(2_000));
    assert_eq!(truncate_selection(&longer), expected);
    assert_eq!(normalized_selection(&Some(format!("  {longer}\n"))), Some(expected));
    assert_eq!(normalized_selection(&Some(" \n ".to_string())), None);
    assert_eq!(normalized_selection(&None), None);
}

#[test]
fn final_selection_check_requires_the_original_text() {
    assert!(selection_text_matches("original", Some("original")));
    assert!(!selection_text_matches("original", Some("different")));
    assert!(!selection_text_matches("original", None));
}

#[test]
fn target_validation_error_codes_are_stable_for_the_capsule_layer() {
    assert_eq!(SelectionInsertionTargetValidation::Valid.error_code(), None);
    assert_eq!(
        SelectionInsertionTargetValidation::TargetUnavailable.error_code(),
        Some("selectionPolishTargetUnavailable")
    );
    assert_eq!(
        SelectionInsertionTargetValidation::TargetChanged.error_code(),
        Some("selectionPolishTargetChanged")
    );
    assert_eq!(
        SelectionInsertionTargetValidation::SelectionChanged.error_code(),
        Some("selectionPolishSelectionChanged")
    );
}

#[test]
fn simulated_copy_result_classifies_failures_and_multibyte_text() {
    let sentinel = "__openless_test_sentinel__";
    for (post_ok, captured, expected) in [
        (
            false,
            Some("stale clipboard".to_string()),
            Err(SelectionCaptureMissReason::CopyShortcutFailed),
        ),
        (true, None, Err(SelectionCaptureMissReason::ClipboardReadFailed)),
        (
            true,
            Some(sentinel.to_string()),
            Err(SelectionCaptureMissReason::ClipboardUnchangedSentinel),
        ),
        (
            true,
            Some(String::new()),
            Err(SelectionCaptureMissReason::ClipboardEmptyAfterCopy),
        ),
        (true, Some("selected".to_string()), Ok("selected".to_string())),
        (true, Some("中文选区".to_string()), Ok("中文选区".to_string())),
    ] {
        assert_eq!(classify_simulated_copy_result(post_ok, captured, sentinel), expected);
    }
    assert_eq!(
        SelectionCaptureMissReason::ClipboardSentinelWriteFailed.as_str(),
        "clipboard_sentinel_write_failed"
    );
}

#[test]
fn every_reason_has_its_name() {
    for (reason, name) in [
        (SelectionCaptureMissReason::Captured, "ok"),
        (SelectionCaptureMissReason::PrefetchHit, "prefetch_hit"),
        (SelectionCaptureMissReason::PrefetchMissLiveOk, "prefetch_miss_live_ok"),
        (SelectionCaptureMissReason::ClipboardInitFailed, "clipboard_init_failed"),
        (SelectionCaptureMissReason::CopyShortcutFailed, "copy_shortcut_failed"),
        (SelectionCaptureMissReason::ClipboardUnchangedSentinel, "clipboard_unchanged_sentinel"),
        (SelectionCaptureMissReason::ClipboardEmptyAfterCopy, "clipboard_empty_after_copy"),
        (SelectionCaptureMissReason::ClipboardReadFailed, "clipboard_read_failed"),
        (SelectionCaptureMissReason::EmptyTrimmed, "empty_trimmed"),
        (SelectionCaptureMissReason::NoCapturePath, "no_capture_path"),
    ] {
        assert_eq!(reason.as_str(), name);
    }
}

#[test]
fn capture_diag_summary_contains_metadata_only() {
    let selected_text = "不得写入日志的中文选区";
    let summary = SelectionCaptureDiag {
        reason: SelectionCaptureMissReason::PrefetchHit,
        front_app: Some("Editor".to_string()),
        used_prefetch: true,
        target_captured: true,
        char_count: Some(selected_text.chars().count()),
    }
    .summary();
    assert_eq!(
        summary,
        "reason=prefetch_hit used_prefetch=true target_captured=true chars=11 front_app=Editor"
    );
    assert!(!summary.contains(selected_text));
}

#[test]
fn capture_diag_summary_marks_what_is_missing() {
    let summary = SelectionCaptureDiag {
        reason: SelectionCaptureMissReason::EmptyTrimmed,
        front_app: None,
        used_prefetch: false,
        target_captured: false,
        char_count: None,
    }
    .summary();
    assert_eq!(
        summary,
        "reason=empty_trimmed used_prefetch=false target_captured=false chars=- front_app=-"
    );
}

fn windows_target(seed: usize) -> WindowsSelectionTarget {
    WindowsSelectionTarget {
        foreground_window: seed,
        focused_window: seed + 1,
        foreground_process_id: seed as u32 + 2,
        foreground_thread_id: seed as u32 + 3,
        focused_process_id: seed as u32 + 4,
        focused_thread_id: seed as u32 + 5,
    }
}

#[test]
fn windows_target_match_rejects_another_control_in_the_same_app() {
    let captured = windows_target(10);
    assert!(windows_selection_targets_match(captured, captured));

    let mut another_control = captured;
    another_control.focused_window += 100;
    assert!(!windows_selection_targets_match(captured, another_control));
}

#[test]
fn windows_requires_a_captured_target_before_contacting_the_provider() {
    assert!(!selection_insertion_target_is_captured(
        &SelectionInsertionTarget { windows: None, macos: None },
        TargetOs::Windows
    ));
    assert!(selection_insertion_target_is_captured(
        &SelectionInsertionTarget { windows: Some(windows_target(10)), macos: None },
        TargetOs::Windows
    ));
}

#[test]
fn a_window_that_belongs_to_nobody_is_no_target() {
    let seen = windows_target(10);
    assert_eq!(windows_selection_target(seen), Some(seen));
    for broken in [
        WindowsSelectionTarget { foreground_window: 0, ..seen },
        WindowsSelectionTarget { foreground_process_id: 0, ..seen },
        WindowsSelectionTarget { foreground_thread_id: 0, ..seen },
        WindowsSelectionTarget { focused_process_id: 0, ..seen },
        WindowsSelectionTarget { focused_thread_id: 0, ..seen },
    ] {
        assert_eq!(windows_selection_target(broken), None);
    }
    assert_eq!(focused_or_foreground(7, Some(9)), 9);
    assert_eq!(focused_or_foreground(7, Some(0)), 7);
    assert_eq!(focused_or_foreground(7, None), 7);
}

fn front(app: Option<&str>, pid: Option<i32>) -> MacosSelectionTarget {
    MacosSelectionTarget { front_app: app.map(str::to_string), front_app_pid: pid }
}

#[test]
fn each_platform_remembers_its_own_target() {
    let windows = Some(windows_target(10));
    let macos = front(Some("Notes"), Some(7));
    let at = capture_selection_insertion_target(windows, macos.clone(), TargetOs::Windows);
    assert_eq!((at.windows, at.macos), (windows, None));
    let at = capture_selection_insertion_target(windows, macos.clone(), TargetOs::Macos);
    assert_eq!((at.windows, at.macos), (None, Some(macos.clone())));
    let at = capture_selection_insertion_target(windows, macos, TargetOs::Linux);
    assert_eq!(at, SelectionInsertionTarget::default());
    assert!(selection_insertion_target_is_captured(&at, TargetOs::Linux));
    assert!(!selection_insertion_target_is_captured(&at, TargetOs::Macos));
}

#[test]
fn a_target_that_moved_is_not_read_again() {
    let at = SelectionInsertionTarget { windows: Some(windows_target(10)), macos: None };
    let moved = validate_selection_insertion_target(
        &at,
        "text",
        TargetOs::Windows,
        || Some(windows_target(30)),
        || panic!("Windows compares windows"),
        || panic!("the selection of another window must not be copied"),
        || panic!("the first look has decided"),
    );
    assert_eq!(moved, SelectionInsertionTargetValidation::TargetChanged);
    let gone = validate_selection_insertion_target(
        &at,
        "text",
        TargetOs::Windows,
        || None,
        || panic!("Windows compares windows"),
        || panic!("the selection of no window must not be copied"),
        || panic!("the first look has decided"),
    );
    assert_eq!(gone, SelectionInsertionTargetValidation::TargetUnavailable);
    let unknown = validate_selection_insertion_target(
        &SelectionInsertionTarget::default(),
        "text",
        TargetOs::Windows,
        || panic!("there is nothing to compare with"),
        || panic!("Windows compares windows"),
        || panic!("there is nothing to compare with"),
        || panic!("there is nothing to compare with"),
    );
    assert_eq!(unknown, SelectionInsertionTargetValidation::TargetUnavailable);
}

#[test]
fn a_target_that_moves_during_the_copy_is_refused() {
    let at = SelectionInsertionTarget { windows: Some(windows_target(10)), macos: None };
    let order = RefCell::new(Vec::new());
    let moved = validate_selection_insertion_target(
        &at,
        "text",
        TargetOs::Windows,
        || {
            order.borrow_mut().push("before");
            Some(windows_target(10))
        },
        || panic!("Windows compares windows"),
        || {
            order.borrow_mut().push("selected");
            Some("text".to_string())
        },
        || {
            order.borrow_mut().push("after");
            Some(windows_target(30))
        },
    );
    assert_eq!(moved, SelectionInsertionTargetValidation::TargetChanged);
    assert_eq!(*order.borrow(), vec!["before", "selected", "after"]);
    let check = |text: &str, after: Option<WindowsSelectionTarget>| {
        validate_selection_insertion_target(
            &at,
            "text",
            TargetOs::Windows,
            || Some(windows_target(10)),
            || panic!("Windows compares windows"),
            || Some(text.to_string()),
            || after,
        )
    };
    assert_eq!(
        check("text", Some(windows_target(10))),
        SelectionInsertionTargetValidation::Valid
    );
    assert_eq!(check("text", None), SelectionInsertionTargetValidation::TargetUnavailable);
    assert_eq!(
        check("other", Some(windows_target(10))),
        SelectionInsertionTargetValidation::SelectionChanged
    );
}

#[test]
fn one_look_at_a_window_has_a_verdict() {
    let captured = windows_target(10);
    assert_eq!(
        verdict_on_window(captured, Some(windows_target(10))),
        SelectionInsertionTargetValidation::Valid
    );
    assert_eq!(
        verdict_on_window(captured, Some(windows_target(30))),
        SelectionInsertionTargetValidation::TargetChanged
    );
    assert_eq!(
        verdict_on_window(captured, None),
        SelectionInsertionTargetValidation::TargetUnavailable
    );
}

#[test]
fn macos_compares_the_application_and_the_text() {
    let validate = |captured: Option<MacosSelectionTarget>, app: &str, text: Option<&str>| {
        validate_selection_insertion_target(
            &SelectionInsertionTarget { windows: None, macos: captured },
            "text",
            TargetOs::Macos,
            || panic!("macOS compares applications"),
            || Some(app.to_string()),
            || text.map(str::to_string),
            || panic!("macOS compares applications"),
        )
    };
    let notes = || Some(front(Some("Notes"), Some(7)));
    assert_eq!(
        validate(None, "Notes", Some("text")),
        SelectionInsertionTargetValidation::TargetUnavailable
    );
    assert_eq!(
        validate(notes(), "Mail", Some("text")),
        SelectionInsertionTargetValidation::TargetChanged
    );
    assert_eq!(
        validate(notes(), "Notes", None),
        SelectionInsertionTargetValidation::SelectionChanged
    );
    assert_eq!(
        validate(notes(), "Notes", Some("text")),
        SelectionInsertionTargetValidation::Valid
    );
    assert_eq!(
        validate(Some(front(None, Some(7))), "Mail", Some("text")),
        SelectionInsertionTargetValidation::Valid
    );
}

#[test]
fn linux_compares_the_text_and_mobile_has_no_target() {
    let at = SelectionInsertionTarget::default();
    let check = |target: TargetOs, text: &str| {
        validate_selection_insertion_target(
            &at,
            "text",
            target,
            || panic!("only Windows compares windows"),
            || panic!("only macOS compares applications"),
            || Some(text.to_string()),
            || panic!("only Windows compares windows"),
        )
    };
    assert_eq!(check(TargetOs::Linux, "text"), SelectionInsertionTargetValidation::Valid);
    assert_eq!(
        check(TargetOs::Linux, "other"),
        SelectionInsertionTargetValidation::SelectionChanged
    );
    assert_eq!(
        check(TargetOs::Android, "text"),
        SelectionInsertionTargetValidation::TargetUnavailable
    );
}

#[test]
fn the_selection_is_read_again_in_the_form_it_was_read_first() {
    assert_eq!(
        selected_text_for_validation(Ok("  text\n".to_string())),
        Some("text".to_string())
    );
    assert_eq!(
        selected_text_for_validation(Err(SelectionCaptureMissReason::ClipboardReadFailed)),
        None
    );
    assert_eq!(
        linux_text_for_validation(LinuxSelectionRead::Text(" text ".to_string())),
        Some("text".to_string())
    );
    assert_eq!(linux_text_for_validation(LinuxSelectionRead::NoSelection), None);
    let direct = read_selection_for_validation(
        Some(" text ".to_string()),
        || panic!("no copy is needed"),
        || panic!("no copy is needed"),
    );
    assert_eq!(direct, Some("text".to_string()));
    let retried = read_selection_for_validation(
        Some("  ".to_string()),
        || Err(SelectionCaptureMissReason::ClipboardUnchangedSentinel),
        || Ok("text".to_string()),
    );
    assert_eq!(retried, Some("text".to_string()));
    let first = read_selection_for_validation(
        None,
        || Ok("first".to_string()),
        || panic!("a copy that worked is not repeated"),
    );
    assert_eq!(first, Some("first".to_string()));
    let lost = read_selection_for_validation(
        None,
        || Err(SelectionCaptureMissReason::ClipboardUnchangedSentinel),
        || Err(SelectionCaptureMissReason::CopyShortcutFailed),
    );
    assert_eq!(lost, None);
}

#[test]
fn an_application_is_asked_four_times_to_come_back() {
    let target = Some(front(Some("Notes"), Some(7)));
    let tries = RefCell::new(Vec::new());
    assert!(reactivate_on_macos(&target, |tried, pid| {
        tries.borrow_mut().push(tried);
        if tried == 2 {
            Some(pid)
        } else {
            Some(1)
        }
    }));
    assert_eq!(*tries.borrow(), vec![0, 1, 2]);
    tries.borrow_mut().clear();
    assert!(!reactivate_on_macos(&target, |tried, _| {
        tries.borrow_mut().push(tried);
        None
    }));
    assert_eq!(*tries.borrow(), vec![0, 1, 2, 3]);
    for target in [None, Some(front(Some("Notes"), None))] {
        assert!(!reactivate_on_macos(&target, |_, _| panic!("nobody can be asked")));
    }
    assert_eq!(reactivate_step(0, Some(7), 7), ReactivateStep::Done);
    assert_eq!(reactivate_step(2, Some(1), 7), ReactivateStep::Again);
    assert_eq!(reactivate_step(3, None, 7), ReactivateStep::Failed);
    assert_eq!(reactivate_step(3, Some(7), 7), ReactivateStep::Done);
    assert!(windows_target_is_back(Some(windows_target(1)), Some(windows_target(1))));
    assert!(!windows_target_is_back(Some(windows_target(1)), Some(windows_target(2))));
    assert!(!windows_target_is_back(Some(windows_target(1)), None));
    assert!(!windows_target_is_back(None, None));
}

#[test]
fn the_last_look_compares_process_and_name() {
    let target = Some(front(Some("Notes"), Some(7)));
    let notes = Some("Notes".to_string());
    assert!(selection_target_still_front(&target, Some(7), &notes));
    assert!(!selection_target_still_front(&target, Some(8), &notes));
    assert!(!selection_target_still_front(&target, None, &notes));
    assert!(!selection_target_still_front(&target, Some(7), &None));
    assert!(selection_target_still_front(&Some(front(None, Some(7))), Some(7), &None));
    assert!(!selection_target_still_front(&Some(front(None, None)), None, &None));
    assert!(!selection_target_still_front(&None, Some(7), &notes));
}

#[test]
fn accessibility_comes_before_a_simulated_copy() {
    let app = || Some("Notes".to_string());
    let (outcome, reason) = capture_selection_with_status_diag(
        app(),
        TargetOs::Macos,
        || Some(" direct ".to_string()),
        || panic!("no copy is needed"),
        || panic!("macOS has no primary selection"),
    );
    assert_eq!(
        outcome.selection,
        Some(SelectionContext { text: "direct".to_string(), source_app: app() })
    );
    assert_eq!(reason, SelectionCaptureMissReason::Captured);
    let (outcome, reason) = capture_selection_with_status_diag(
        app(),
        TargetOs::Macos,
        || Some("  ".to_string()),
        || Ok("copied".to_string()),
        || panic!("macOS has no primary selection"),
    );
    assert_eq!(outcome.selection.unwrap().text, "copied");
    assert_eq!(reason, SelectionCaptureMissReason::Captured);
    let (outcome, reason) = capture_selection_with_status_diag(
        app(),
        TargetOs::Windows,
        || panic!("Windows has no accessibility read"),
        || Ok(" \n".to_string()),
        || panic!("Windows has no primary selection"),
    );
    assert_eq!(outcome.selection, None);
    assert_eq!(reason, SelectionCaptureMissReason::EmptyTrimmed);
}

#[test]
fn linux_reads_its_primary_selection_only() {
    let outcome = capture_selection_with_status(
        None,
        TargetOs::Linux,
        || panic!("Linux has no accessibility read"),
        || panic!("Linux leaves the clipboard alone"),
        || LinuxSelectionRead::Text("picked".to_string()),
    );
    assert_eq!(outcome.selection.unwrap().text, "picked");
    let (outcome, reason) = capture_selection_with_status_diag(
        None,
        TargetOs::Ios,
        || panic!("there is no way"),
        || panic!("there is no way"),
        || panic!("there is no way"),
    );
    assert_eq!(outcome.selection, None);
    assert_eq!(reason, SelectionCaptureMissReason::NoCapturePath);
    let (outcome, reason) = selection_on_linux(LinuxSelectionRead::NoSelection, None);
    assert_eq!(outcome.selection, None);
    assert_eq!(reason, SelectionCaptureMissReason::EmptyTrimmed);
    let (outcome, reason) =
        selection_from_copy(Err(SelectionCaptureMissReason::ClipboardInitFailed), None);
    assert_eq!(outcome.selection, None);
    assert_eq!(reason, SelectionCaptureMissReason::ClipboardInitFailed);
}

#[test]
fn the_sentinel_carries_the_time_in_hexadecimal() {
    assert_eq!(uuid_like_token(0), "0");
    assert_eq!(uuid_like_token(0xdead_beef_0123_4567_89ab), "deadbeef0123456789ab");
    assert_eq!(clipboard_sentinel(255), "__openless_qa_sentinel_ff__");
    assert_eq!(restored_clipboard(Some("before".to_string())), "before");
    assert_eq!(restored_clipboard(None), "");
}

#[test]
fn the_clipboard_settles_after_three_quiet_rounds() {
    let mut settle = ClipboardSettle::new(5);
    assert!(settle.goes_on(0));
    assert!(!settle.observe(true, 5));
    assert!(!settle.observe(true, 5));
    assert!(!settle.observe(false, 5));
    assert!(!settle.observe(true, 5));
    assert!(!settle.observe(true, 6));
    assert!(!settle.observe(true, 6));
    assert!(!settle.observe(true, 6));
    assert!(settle.goes_on(249));
    assert!(!settle.goes_on(250));
    assert!(settle.observe(true, 6));
    assert!(!settle.goes_on(0));
}

#[test]
fn a_copy_is_sent_once_more_while_the_sentinel_stays() {
    let mut poll = ClipboardPoll::new(false);
    assert!(!poll.observe(Some("sentinel".to_string()), "sentinel"));
    assert!(!poll.resends(149));
    assert!(poll.resends(150));
    poll.sent_again(false);
    assert!(poll.resends(150));
    assert!(!poll.post_ok);
    poll.sent_again(true);
    assert!(!poll.resends(400));
    assert!(poll.post_ok);
    assert!(!poll.observe(None, "sentinel"));
    assert_eq!(poll.captured, None);
    assert!(poll.observe(Some("text".to_string()), "sentinel"));
    assert_eq!(poll.captured.as_deref(), Some("text"));
}

fn live(text: Option<&str>, reason: SelectionCaptureMissReason) -> LiveSelection {
    LiveSelection {
        at: SelectionInsertionTarget { windows: Some(windows_target(3)), macos: None },
        selection: text.map(|t| SelectionContext {
            text: t.to_string(),
            source_app: Some("Live".to_string()),
        }),
        reason,
        front_app: Some("Front".to_string()),
    }
}

#[test]
fn a_prefetched_selection_is_used_once() {
    let mut prefetched = PrefetchedSelection::new();
    let at = SelectionInsertionTarget { windows: Some(windows_target(10)), macos: None };
    let selection =
        SelectionContext { text: "ahead".to_string(), source_app: Some("Editor".to_string()) };
    prefetched.prefetch(Some(selection.clone()), at.clone());
    let (read, target, diag) =
        resolve_selection_workspace_capture_with_diag(&mut prefetched, TargetOs::Windows, || {
            panic!("the selection was read ahead")
        });
    assert_eq!((read, target), (Some(selection), at.clone()));
    assert_eq!(
        diag.summary(),
        "reason=prefetch_hit used_prefetch=true target_captured=true chars=5 front_app=Editor"
    );
    let (read, _, diag) =
        resolve_selection_workspace_capture_with_diag(&mut prefetched, TargetOs::Windows, || {
            live(Some("now"), SelectionCaptureMissReason::Captured)
        });
    assert_eq!(read.unwrap().text, "now");
    assert_eq!(
        diag.summary(),
        "reason=prefetch_miss_live_ok used_prefetch=false target_captured=true chars=3 front_app=Live"
    );
    prefetched.prefetch(None, at);
    let (read, _, diag) =
        resolve_selection_workspace_capture_with_diag(&mut prefetched, TargetOs::Windows, || {
            live(None, SelectionCaptureMissReason::ClipboardReadFailed)
        });
    assert_eq!(read, None);
    assert_eq!(
        diag.summary(),
        "reason=clipboard_read_failed used_prefetch=false target_captured=true chars=- front_app=Front"
    );
}

#[test]
fn linux_reads_on_demand_only() {
    let mut prefetched = PrefetchedSelection::new();
    let asked = RefCell::new(0);
    let (read, _) = resolve_selection_workspace_capture(&mut prefetched, TargetOs::Linux, || {
        *asked.borrow_mut() += 1;
        live(Some("now"), SelectionCaptureMissReason::Captured)
    });
    assert_eq!(read.unwrap().text, "now");
    assert_eq!(*asked.borrow(), 1);
    let (_, _, diag) =
        resolve_selection_workspace_capture_with_diag(&mut prefetched, TargetOs::Linux, || {
            live(Some("now"), SelectionCaptureMissReason::Captured)
        });
    assert_eq!(diag.reason, SelectionCaptureMissReason::Captured);
}

#[test]
fn each_platform_rereads_the_selection_its_own_way() {
    let failed = || Err(SelectionCaptureMissReason::ClipboardReadFailed);
    assert_eq!(
        reread_selection(
            TargetOs::Windows,
            || panic!("Windows has no accessible text"),
            || Ok(" copied ".to_string()),
            || panic!("Windows copies once"),
            || panic!("Windows has no primary selection"),
        ),
        Some("copied".to_string())
    );
    assert_eq!(
        reread_selection(
            TargetOs::Macos,
            || None,
            failed,
            || Ok("again".to_string()),
            || panic!("macOS has no primary selection"),
        ),
        Some("again".to_string())
    );
    assert_eq!(
        reread_selection(
            TargetOs::Linux,
            || panic!("Linux has no accessible text"),
            || panic!("Linux copies nothing"),
            || panic!("Linux copies nothing"),
            || LinuxSelectionRead::Text("primary".to_string()),
        ),
        Some("primary".to_string())
    );
    assert_eq!(
        reread_selection(
            TargetOs::Android,
            || panic!("nothing is asked"),
            || panic!("nothing is asked"),
            || panic!("nothing is asked"),
            || panic!("nothing is asked"),
        ),
        None
    );
}

#[test]
fn each_platform_brings_its_target_back() {
    let at = SelectionInsertionTarget {
        windows: Some(windows_target(10)),
        macos: Some(front(Some("Notes"), Some(7))),
    };
    let windows = |seen: Option<WindowsSelectionTarget>| {
        reactivate_selection_insertion_target(
            &at,
            TargetOs::Windows,
            |window| {
                assert_eq!(window, windows_target(10));
                seen
            },
            |_, _| panic!("Windows brings back windows"),
        )
    };
    assert!(windows(Some(windows_target(10))));
    assert!(!windows(Some(windows_target(30))));
    assert!(!windows(None));
    assert!(reactivate_selection_insertion_target(
        &at,
        TargetOs::Macos,
        |_| panic!("macOS brings back applications"),
        |_, pid| Some(pid),
    ));
    assert!(!reactivate_selection_insertion_target(
        &SelectionInsertionTarget::default(),
        TargetOs::Windows,
        |_| panic!("there is nothing to bring back"),
        |_, _| panic!("there is nothing to bring back"),
    ));
    assert!(reactivate_selection_insertion_target(
        &at,
        TargetOs::Linux,
        |_| panic!("the focus need not come back"),
        |_, _| panic!("the focus need not come back"),
    ));
}
