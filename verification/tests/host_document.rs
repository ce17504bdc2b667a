use openless::host_document::{
    evaluate_gate, is_terminal_bundle_id, probe_around_cursor, read_around_cursor, read_result,
    watch_for_edits, BlockReason, DocumentWindow, EditWatcher, GateInputs, HostDocumentReadResult,
    HostDocumentStatus, ReadOutcome, DEFAULT_BUDGET_CHARS,
};
use openless::platform::TargetOs;

fn gate(bundle: Option<&str>, role: Option<&str>, subrole: Option<&str>) -> GateInputs {
    GateInputs {
        secure_input: false,
        bundle_id: bundle.map(str::to_string),
        role: role.map(str::to_string),
        subrole: subrole.map(str::to_string),
    }
}

#[test]
fn ordinary_editor_passes_the_gate() {
    assert_eq!(
        evaluate_gate(&gate(
            Some("com.apple.Notes"),
            Some("AXTextArea"),
            Some("AXStandardWindow")
        )),
        None
    );
}

#[test]
fn secure_input_blocks_before_anything_else() {
    let inputs = GateInputs {
        secure_input: true,
        ..gate(Some("com.apple.Notes"), Some("AXTextArea"), None)
    };
    assert_eq!(evaluate_gate(&inputs), Some(BlockReason::SecureInput));
}

#[test]
fn secure_text_field_role_blocks() {
    assert_eq!(
        evaluate_gate(&gate(Some("com.apple.Safari"), Some("AXSecureTextField"), None)),
        Some(BlockReason::SecureTextField)
    );
}

#[test]
fn secure_text_field_subrole_blocks() {
    assert_eq!(
        evaluate_gate(&gate(
            Some("com.google.Chrome"),
            Some("AXTextField"),
            Some("AXSecureTextField")
        )),
        Some(BlockReason::SecureTextField)
    );
}

#[test]
fn secure_text_field_match_is_case_insensitive() {
    assert_eq!(
        evaluate_gate(&gate(None, Some("axSECUREtextfield"), None)),
        Some(BlockReason::SecureTextField)
    );
}

#[test]
fn white_space_around_a_role_does_not_hide_it() {
    assert_eq!(
        evaluate_gate(&gate(None, None, Some(" AXSecureTextField\n"))),
        Some(BlockReason::SecureTextField)
    );
}

#[test]
fn password_managers_are_blocked() {
    for bundle in [
        "com.1password.1password",
        "com.agilebits.onepassword7",
        "com.apple.keychainaccess",
        "com.bitwarden.desktop",
    ] {
        assert_eq!(
            evaluate_gate(&gate(Some(bundle), Some("AXTextArea"), None)),
            Some(BlockReason::BlockedApp),
            "{bundle} should be blocked"
        );
    }
}

#[test]
fn every_listed_application_is_blocked() {
    for bundle in [
        "com.1password",
        "com.agilebits.onepassword",
        "com.apple.keychainaccess",
        "com.bitwarden",
        "com.lastpass",
        "com.dashlane",
        "org.keepassxc",
        "com.kueh.keepassium",
        "in.sinew.enpass",
        "com.sinew.enpass",
        "com.apple.passwords",
    ] {
        assert_eq!(
            evaluate_gate(&gate(Some(bundle), None, None)),
            Some(BlockReason::BlockedApp)
        );
        assert!(!is_terminal_bundle_id(bundle));
    }
    for bundle in [
        "com.apple.terminal",
        "com.googlecode.iterm2",
        "dev.warp.warp",
        "com.github.wez.wezterm",
        "io.alacritty",
        "org.alacritty",
        "net.kovidgoyal.kitty",
        "co.zeit.hyper",
        "org.tabby",
        "com.tabby",
        "com.mitchellh.ghostty",
    ] {
        assert_eq!(
            evaluate_gate(&gate(Some(bundle), None, None)),
            Some(BlockReason::BlockedApp)
        );
        assert!(is_terminal_bundle_id(bundle));
    }
}

#[test]
fn terminals_are_blocked() {
    for bundle in [
        "com.apple.Terminal",
        "com.googlecode.iterm2",
        "dev.warp.Warp-Stable",
        "com.mitchellh.ghostty",
    ] {
        assert_eq!(
            evaluate_gate(&gate(Some(bundle), Some("AXTextArea"), None)),
            Some(BlockReason::BlockedApp),
            "{bundle} should be blocked"
        );
    }
}

#[test]
fn bundle_match_is_case_insensitive_and_prefix_based() {
    assert_eq!(
        evaluate_gate(&gate(Some("COM.APPLE.TERMINAL"), None, None)),
        Some(BlockReason::BlockedApp)
    );
    assert_eq!(
        evaluate_gate(&gate(Some("com.1password.1password-helper"), None, None)),
        Some(BlockReason::BlockedApp)
    );
}

#[test]
fn a_bundle_that_merely_contains_a_blocked_name_is_not_blocked() {
    assert_eq!(
        evaluate_gate(&gate(Some("com.example.terminalnotes"), None, None)),
        None
    );
}

#[test]
fn missing_metadata_does_not_block_by_itself() {
    assert_eq!(evaluate_gate(&GateInputs::default()), None);
}

#[test]
fn document_window_splits_at_the_cursor() {
    let win = DocumentWindow { text: "上下文测试".to_string(), cursor: 2 };
    assert_eq!(win.before(), "上下");
    assert_eq!(win.after(), "文测试");
}

#[test]
fn document_window_cursor_at_the_end_yields_empty_after() {
    let win = DocumentWindow { text: "abc".to_string(), cursor: 3 };
    assert_eq!(win.before(), "abc");
    assert_eq!(win.after(), "");
}

#[test]
fn a_cursor_past_the_end_counts_as_the_end() {
    let win = DocumentWindow { text: "abc".to_string(), cursor: 9 };
    assert_eq!(win.before(), "abc");
    assert_eq!(win.after(), "");
    assert_eq!(win.before() + &win.after(), win.text);
}

#[test]
fn non_macos_reports_unsupported_without_touching_anything() {
    assert_eq!(DEFAULT_BUDGET_CHARS, 600);
    for target in [TargetOs::Windows, TargetOs::Linux, TargetOs::Android, TargetOs::Ios] {
        let result = probe_around_cursor(
            target,
            || panic!("the application in front is not asked for"),
            || panic!("the keyboard is not looked at"),
            |_| panic!("the application is not asked"),
            || panic!("no time passes"),
        );
        assert_eq!(result.status, HostDocumentStatus::Unsupported);
        assert!(result.window.is_none());
        assert_eq!(result.reason.as_deref(), Some("cursor context is macOS-only for now"));
        assert_eq!((result.app_name, result.bundle_id, result.elapsed_ms), (None, None, 0));
    }
}

#[test]
fn a_closed_gate_answers_before_the_application_is_asked() {
    let probe = |bundle_id: &str, secure: bool| {
        probe_around_cursor(
            TargetOs::Macos,
            || (Some("App".to_string()), Some(bundle_id.to_string())),
            || secure,
            |_| panic!("the application is not asked"),
            || 4,
        )
    };
    let blocked = probe("com.apple.Terminal", false);
    assert_eq!(blocked.status, HostDocumentStatus::Blocked);
    assert_eq!(blocked.reason.as_deref(), Some("blocked_app"));
    assert_eq!(blocked.window, None);
    assert_eq!(blocked.app_name.as_deref(), Some("App"));
    assert_eq!(blocked.bundle_id.as_deref(), Some("com.apple.Terminal"));
    assert_eq!(blocked.elapsed_ms, 4);
    assert_eq!(probe("com.apple.Notes", true).reason.as_deref(), Some("secure_input"));
}

#[test]
fn an_open_gate_lets_the_application_answer() {
    let window = DocumentWindow { text: "abc".to_string(), cursor: 1 };
    let asked = std::cell::RefCell::new(None);
    let read = read_around_cursor(
        TargetOs::Macos,
        || (None, Some("com.apple.Notes".to_string())),
        || false,
        |gate| {
            *asked.borrow_mut() = Some(gate);
            ReadOutcome::Window(window.clone())
        },
        || 9,
    );
    assert_eq!(read, Some(window.clone()));
    assert_eq!(*asked.borrow(), Some(gate(Some("com.apple.Notes"), None, None)));
    let late = probe_around_cursor(
        TargetOs::Macos,
        || (None, None),
        || false,
        |_| ReadOutcome::TimedOut,
        || 300,
    );
    assert_eq!(late.status, HostDocumentStatus::Timeout);
    assert_eq!(late.elapsed_ms, 300);
}

#[test]
fn every_end_of_a_reading_says_why() {
    let window = DocumentWindow { text: "abc".to_string(), cursor: 1 };
    let cases = [
        (ReadOutcome::Window(window.clone()), HostDocumentStatus::Read, None),
        (
            ReadOutcome::Blocked(BlockReason::SecureTextField),
            HostDocumentStatus::Blocked,
            Some("secure_text_field"),
        ),
        (
            ReadOutcome::Unavailable { reason: "no focus".to_string() },
            HostDocumentStatus::Unavailable,
            Some("no focus"),
        ),
        (
            ReadOutcome::TaskFailed { error: "panicked".to_string() },
            HostDocumentStatus::Unavailable,
            Some("blocking task failed: panicked"),
        ),
        (
            ReadOutcome::TimedOut,
            HostDocumentStatus::Timeout,
            Some("no response within 1200ms"),
        ),
    ];
    for (outcome, status, reason) in cases {
        let read = matches!(outcome, ReadOutcome::Window(_));
        let result = read_result(
            outcome,
            Some("Notes".to_string()),
            Some("com.apple.Notes".to_string()),
            17,
        );
        assert_eq!(result.status, status);
        assert_eq!(result.reason.as_deref(), reason);
        assert_eq!(result.window.is_some(), read);
        assert_eq!(result.app_name.as_deref(), Some("Notes"));
        assert_eq!(result.bundle_id.as_deref(), Some("com.apple.Notes"));
        assert_eq!(result.elapsed_ms, 17);
    }
    let empty = HostDocumentReadResult::new(HostDocumentStatus::Unavailable, None);
    assert_eq!((empty.window, empty.app_name, empty.elapsed_ms), (None, None, 0));
    assert_eq!(BlockReason::SecureInput.as_str(), "secure_input");
}

#[test]
fn only_a_text_with_something_in_it_is_watched() {
    let watcher = watch_for_edits("typed".to_string(), TargetOs::Macos, |text| text == "typed");
    let mut watcher = watcher.unwrap();
    assert!(!watcher.stopped);
    watcher.disarm();
    watcher.disarm();
    assert_eq!(watcher, EditWatcher { stopped: true });
    assert_eq!(watch_for_edits("typed".to_string(), TargetOs::Macos, |_| false), None);
    for (text, target) in [("  \n", TargetOs::Macos), ("typed", TargetOs::Windows)] {
        let watcher = watch_for_edits(text.to_string(), target, |_| {
            panic!("nothing is to be watched")
        });
        assert_eq!(watcher, None);
    }
}
