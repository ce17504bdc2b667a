use openless::capsule::{
    apply_android_overlay_on_startup, card_may_show, core_capsule_hide_delay, deferred_capsule,
    height_report_is_current, idle_timer_applies, insert_fallback_payload, insert_fallback_reason,
    qa_event_target, qa_hotkey_label, selection_polish_error, selection_polish_message,
    style_switched_message, transition_android_overlay_trigger, vocab_card_request, OverlayAction,
    SelectionPhase, VocabCard,
};
use openless::errors::BackendErrorCode;
use openless::hotkeys::ShortcutBinding;
use openless::insertion::InsertOutcome;
use openless::platform::TargetOs;
use openless::routing::DictationPhase;
use openless::types::{AndroidOverlayTrigger, CapsuleState, CapsuleStyle};

#[test]
fn core_terminal_capsule_timing_preserves_the_legacy_contract() {
    assert_eq!(core_capsule_hide_delay(CapsuleState::Done), Some(2000));
    assert_eq!(core_capsule_hide_delay(CapsuleState::Error), Some(2000));
    assert_eq!(core_capsule_hide_delay(CapsuleState::Cancelled), Some(0));
    assert_eq!(core_capsule_hide_delay(CapsuleState::Recording), None);
}

#[test]
fn a_timer_hides_only_what_it_was_set_for() {
    assert!(idle_timer_applies(Some(CapsuleState::Done), Some(CapsuleState::Done)));
    assert!(!idle_timer_applies(Some(CapsuleState::Done), Some(CapsuleState::Recording)));
    assert!(!idle_timer_applies(None, Some(CapsuleState::Recording)));
    assert!(idle_timer_applies(None, None));
}

#[test]
fn the_style_name_is_encoded_behind_the_separator() {
    assert_eq!(
        style_switched_message("a|b +c*-._~é"),
        "capsule.styleSwitched|a%7Cb+%2Bc*-._%7E%C3%A9"
    );
    assert_eq!(style_switched_message("正式"), "capsule.styleSwitched|%E6%AD%A3%E5%BC%8F");
    assert_eq!(style_switched_message(""), "capsule.styleSwitched|");
}

#[test]
fn the_capsule_speaks_of_a_finished_polish() {
    assert_eq!(
        selection_polish_message(SelectionPhase::Preview, None),
        Some("capsule.selectionPolish.previewOpen")
    );
    assert_eq!(
        selection_polish_message(
            SelectionPhase::Completed,
            Some(InsertOutcome::CopiedFallback)
        ),
        Some("capsule.selectionPolish.copiedPaste")
    );
    assert_eq!(
        selection_polish_message(SelectionPhase::Completed, Some(InsertOutcome::Inserted)),
        Some("capsule.selectionPolish.replaced")
    );
    assert_eq!(selection_polish_message(SelectionPhase::Processing, None), None);
}

#[test]
fn the_capsule_speaks_of_a_failed_polish() {
    for (message, code, state, said) in [
        (
            "selectionPolishNoSelection",
            BackendErrorCode::InvalidArgument,
            CapsuleState::Cancelled,
            "capsule.selectionPolish.noSelection",
        ),
        (
            "selected text must not be empty",
            BackendErrorCode::InvalidArgument,
            CapsuleState::Cancelled,
            "capsule.selectionPolish.noSelection",
        ),
        (
            "selectionPolishTargetUnavailable",
            BackendErrorCode::Platform,
            CapsuleState::Error,
            "capsule.selectionPolish.targetUnavailable",
        ),
        (
            "selectionPolishTargetChanged",
            BackendErrorCode::Cancelled,
            CapsuleState::Cancelled,
            "capsule.selectionPolish.selectionChanged",
        ),
        (
            "selectionPolishSelectionChanged",
            BackendErrorCode::Cancelled,
            CapsuleState::Cancelled,
            "capsule.selectionPolish.selectionChanged",
        ),
        (
            "whatever",
            BackendErrorCode::Busy,
            CapsuleState::Error,
            "capsule.selectionPolish.busy",
        ),
        (
            "whatever",
            BackendErrorCode::Internal,
            CapsuleState::Error,
            "capsule.selectionPolish.failed",
        ),
    ] {
        assert_eq!(selection_polish_error(message, code), (state, said));
    }
}

#[test]
fn the_fallback_card_shows_a_text_that_did_not_arrive() {
    let card = insert_fallback_payload("text".to_string(), "partial_stream", 7).unwrap();
    assert_eq!(card.text, "text");
    assert_eq!(card.reason, insert_fallback_reason("partial_stream"));
    assert_eq!(card.presentation_id, 7);
    assert_ne!(insert_fallback_reason("partial_stream"), insert_fallback_reason("other"));
    assert_eq!(insert_fallback_payload(" \n".to_string(), "other", 7), None);
    assert!(height_report_is_current(Some(7), 7));
    assert!(!height_report_is_current(Some(8), 7));
    assert!(!height_report_is_current(None, 7));
}

#[test]
fn cards_wait_for_the_recording_to_end() {
    assert!(card_may_show(DictationPhase::Idle, None));
    assert!(!card_may_show(DictationPhase::Recording, None));
    assert!(!card_may_show(DictationPhase::Idle, Some(3)));
    assert_eq!(vocab_card_request(&vec![]), None);
    let mut card = VocabCard { visible: false };
    assert!(!card.release());
    card.claim();
    assert!(card.release());
    assert!(!card.release());
    let back = deferred_capsule(true, false, CapsuleStyle::Classic);
    assert!(back.show && back.classic);
    let back = deferred_capsule(false, false, CapsuleStyle::Siri);
    assert!(!back.show && !back.classic);
}

#[test]
fn the_question_panel_is_the_main_window_on_android() {
    assert_eq!(qa_event_target(TargetOs::Android), "main");
    assert_eq!(qa_event_target(TargetOs::Windows), "qa");
    assert_eq!(qa_hotkey_label(&None, TargetOs::Windows), "");
    let binding =
        ShortcutBinding { primary: ";".to_string(), modifiers: vec!["shift".to_string()] };
    assert_eq!(qa_hotkey_label(&Some(binding), TargetOs::Windows), "Shift+;");
}

#[test]
fn the_floating_control_follows_its_trigger() {
    let change = |from, to, target| transition_android_overlay_trigger(from, to, target);
    let (always, background, keyboard) = (
        AndroidOverlayTrigger::Always,
        AndroidOverlayTrigger::Background,
        AndroidOverlayTrigger::Keyboard,
    );
    assert_eq!(change(background, always, TargetOs::Android), OverlayAction::Show);
    assert_eq!(change(always, keyboard, TargetOs::Android), OverlayAction::Hide);
    assert_eq!(change(background, keyboard, TargetOs::Android), OverlayAction::Leave);
    assert_eq!(change(background, always, TargetOs::Ios), OverlayAction::Leave);
    assert_eq!(
        apply_android_overlay_on_startup(always, TargetOs::Android),
        OverlayAction::Show
    );
    assert_eq!(
        apply_android_overlay_on_startup(keyboard, TargetOs::Android),
        OverlayAction::Hide
    );
    assert_eq!(
        apply_android_overlay_on_startup(always, TargetOs::Linux),
        OverlayAction::Leave
    );
}
