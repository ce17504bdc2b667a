use openless::errors::{BackendError, BackendErrorCode};
use openless::insertion::{InsertOutcome, InsertStatus};
use openless::platform::TargetOs;
use openless::selection::SelectionContext;
use openless::selection_runtime::{
    accepts_capture, apply_step, begin_apply, cannot_revert, captured_selection,
    map_selection_preview, previewed_session, ApplyReply, ApplyStage, ApplyStep, SelectionRuntime,
    SelectionSnapshot,
};
use openless::selection_target::{SelectionInsertionTarget, SelectionInsertionTargetValidation};
use std::cell::{Cell, RefCell};

struct TestBridge {
    capture_calls: Cell<usize>,
    apply_calls: RefCell<Vec<(String, String, bool)>>,
    revert_calls: Cell<usize>,
}

impl TestBridge {
    fn new() -> TestBridge {
        TestBridge {
            capture_calls: Cell::new(0),
            apply_calls: RefCell::new(Vec::new()),
            revert_calls: Cell::new(0),
        }
    }

    fn capture(&self) -> Result<(String, SelectionInsertionTarget), BackendError> {
        self.capture_calls.set(self.capture_calls.get() + 1);
        Ok(("source".to_string(), SelectionInsertionTarget::default()))
    }

    fn apply(
        &self,
        runtime: &SelectionRuntime<SelectionInsertionTarget>,
        session_id: u64,
        replacement: &str,
    ) -> Result<InsertOutcome, BackendError> {
        runtime.apply(
            session_id,
            "source",
            replacement,
            |_target: &SelectionInsertionTarget, source: &str, text: &str, reactivate: bool| {
                self.apply_calls.borrow_mut().push((
                    source.to_string(),
                    text.to_string(),
                    reactivate,
                ));
                Ok(InsertOutcome::Inserted)
            },
        )
    }

    fn revert(
        &self,
        runtime: &SelectionRuntime<SelectionInsertionTarget>,
        session_id: u64,
    ) -> Result<InsertOutcome, BackendError> {
        runtime.revert(session_id, |_target: &SelectionInsertionTarget| {
            self.revert_calls.set(self.revert_calls.get() + 1);
            Ok(InsertOutcome::Inserted)
        })
    }
}

#[test]
fn cancelled_selection_target_rejects_an_unpolled_apply() {
    let bridge = TestBridge::new();
    let mut runtime = SelectionRuntime::new();
    runtime.capture(1, bridge.capture()).unwrap();
    runtime.cancel(1);
    let error = bridge.apply(&runtime, 1, "replacement").unwrap_err();
    assert_eq!(error.code, BackendErrorCode::Cancelled);
    assert!(bridge.apply_calls.borrow().is_empty());
}

#[test]
fn direct_selection_apply_does_not_reactivate_the_capture_target() {
    let bridge = TestBridge::new();
    let mut runtime = SelectionRuntime::new();
    assert_eq!(runtime.capture(1, bridge.capture()), Ok("source".to_string()));
    bridge.apply(&runtime, 1, "replacement").unwrap();
    assert_eq!(
        bridge.apply_calls.borrow().as_slice(),
        &[("source".to_string(), "replacement".to_string(), false)]
    );
}

#[test]
fn a_new_selection_capture_invalidates_the_previous_target() {
    let bridge = TestBridge::new();
    let mut runtime = SelectionRuntime::new();
    runtime.capture(1, bridge.capture()).unwrap();
    runtime.capture(2, bridge.capture()).unwrap();
    let error = bridge.apply(&runtime, 1, "stale replacement").unwrap_err();
    assert_eq!(error.code, BackendErrorCode::Cancelled);
    assert!(bridge.apply_calls.borrow().is_empty());
}

#[test]
fn preview_selection_apply_reactivates_the_capture_target() {
    let bridge = TestBridge::new();
    let mut runtime = SelectionRuntime::new();
    runtime.capture(1, bridge.capture()).unwrap();
    runtime.prepare_preview(1).unwrap();
    bridge.apply(&runtime, 1, "replacement").unwrap();
    assert_eq!(
        bridge.apply_calls.borrow().as_slice(),
        &[("source".to_string(), "replacement".to_string(), true)]
    );
}

#[test]
fn cancelled_selection_target_rejects_apply_and_revert() {
    let bridge = TestBridge::new();
    let mut runtime = SelectionRuntime::new();
    runtime.capture(1, bridge.capture()).unwrap();
    runtime.cancel(1);
    let apply_error = bridge.apply(&runtime, 1, "replacement").unwrap_err();
    let revert_error = bridge.revert(&runtime, 1).unwrap_err();
    assert_eq!(apply_error.code, BackendErrorCode::Cancelled);
    assert_eq!(revert_error.code, BackendErrorCode::Cancelled);
    assert_eq!(revert_error.message, "selection target is no longer active");
    assert!(bridge.apply_calls.borrow().is_empty());
    assert_eq!(bridge.revert_calls.get(), 0);
}

#[test]
fn duplicate_selection_capture_does_not_replace_the_original_target() {
    let bridge = TestBridge::new();
    let mut runtime = SelectionRuntime::new();
    runtime.capture(1, bridge.capture()).unwrap();
    let error = runtime.capture(1, bridge.capture()).unwrap_err();
    bridge.apply(&runtime, 1, "replacement").expect("the original target should remain active");
    assert_eq!(error.code, BackendErrorCode::Busy);
    assert_eq!(bridge.capture_calls.get(), 2);
    assert_eq!(bridge.apply_calls.borrow().len(), 1);
}

#[test]
fn selection_revert_is_delegated_once_to_the_platform_bridge() {
    let bridge = TestBridge::new();
    let mut runtime = SelectionRuntime::new();
    runtime.capture(1, bridge.capture()).unwrap();
    let outcome = bridge.revert(&runtime, 1).unwrap();
    assert_eq!(outcome, InsertOutcome::Inserted);
    assert_eq!(bridge.revert_calls.get(), 1);
}

#[test]
fn a_failed_capture_changes_nothing() {
    let bridge = TestBridge::new();
    let mut runtime = SelectionRuntime::new();
    runtime.capture(1, bridge.capture()).unwrap();
    let failed: Result<(String, SelectionInsertionTarget), BackendError> =
        Err(BackendError::new(BackendErrorCode::Platform, "no"));
    assert_eq!(runtime.capture(2, failed).unwrap_err().message, "no");
    assert!(bridge.apply(&runtime, 1, "replacement").is_ok());
    runtime.cancel(2);
    assert!(bridge.apply(&runtime, 1, "replacement").is_ok());
    assert_eq!(
        runtime.prepare_preview(2).unwrap_err().code,
        BackendErrorCode::Cancelled
    );
    assert!(accepts_capture(&None).is_ok());
    assert_eq!(
        accepts_capture(&Some("text".to_string())).unwrap_err().code,
        BackendErrorCode::Unsupported
    );
    assert_eq!(cannot_revert().code, BackendErrorCode::Unsupported);
}

#[test]
fn a_polish_starts_with_a_selection_and_a_target() {
    let selection = SelectionContext { text: "text".to_string(), source_app: None };
    let at = SelectionInsertionTarget::default();
    let error = captured_selection(None, at.clone(), TargetOs::Linux).unwrap_err();
    assert_eq!(
        (error.code, error.message.as_str()),
        (BackendErrorCode::InvalidArgument, "selectionPolishNoSelection")
    );
    let error =
        captured_selection(Some(selection.clone()), at.clone(), TargetOs::Windows).unwrap_err();
    assert_eq!(
        (error.code, error.message.as_str()),
        (BackendErrorCode::Platform, "selectionPolishTargetUnavailable")
    );
    assert_eq!(
        captured_selection(Some(selection.clone()), at.clone(), TargetOs::Linux),
        Ok((selection, at))
    );
}

#[test]
fn a_preview_gives_the_focus_back_before_anything_is_checked() {
    assert_eq!(begin_apply(true, TargetOs::Macos), ApplyStage::ResigningKey);
    assert_eq!(begin_apply(true, TargetOs::Windows), ApplyStage::Reactivating);
    assert_eq!(begin_apply(false, TargetOs::Macos), ApplyStage::Validating);
    let macos = TargetOs::Macos;
    let mut stage = begin_apply(true, macos);
    for (reply, next) in [
        (ApplyReply::Resigned(Some(true)), ApplyStage::Reactivating),
        (ApplyReply::Reactivated(true), ApplyStage::Validating),
        (
            ApplyReply::Validated(SelectionInsertionTargetValidation::Valid),
            ApplyStage::CheckingFront,
        ),
        (ApplyReply::StillFront(true), ApplyStage::ReadingPreferences),
        (ApplyReply::Preferences(Ok(())), ApplyStage::Inserting),
    ] {
        assert_eq!(apply_step(stage, reply, macos), ApplyStep::Ask(next));
        stage = next;
    }
    assert_eq!(
        apply_step(stage, ApplyReply::Inserted(InsertStatus::PasteSent), macos),
        ApplyStep::Done(Ok(InsertOutcome::PasteSent))
    );
    assert_eq!(
        apply_step(
            ApplyStage::Validating,
            ApplyReply::Validated(SelectionInsertionTargetValidation::Valid),
            TargetOs::Windows
        ),
        ApplyStep::Ask(ApplyStage::ReadingPreferences)
    );
}

#[test]
fn every_refusal_of_a_replacement_has_its_error() {
    let error = |stage, reply| match apply_step(stage, reply, TargetOs::Macos) {
        ApplyStep::Done(Err(error)) => (error.code, error.message),
        other => panic!("{other:?}"),
    };
    let unavailable =
        (BackendErrorCode::Platform, "selectionPolishTargetUnavailable".to_string());
    assert_eq!(
        error(ApplyStage::ResigningKey, ApplyReply::Resigned(None)).0,
        BackendErrorCode::InvalidState
    );
    assert_eq!(
        error(ApplyStage::ResigningKey, ApplyReply::Resigned(Some(false))),
        unavailable
    );
    assert_eq!(error(ApplyStage::Reactivating, ApplyReply::Reactivated(false)), unavailable);
    for (validation, code, message) in [
        (
            SelectionInsertionTargetValidation::TargetUnavailable,
            BackendErrorCode::Platform,
            "selectionPolishTargetUnavailable",
        ),
        (
            SelectionInsertionTargetValidation::TargetChanged,
            BackendErrorCode::Cancelled,
            "selectionPolishTargetChanged",
        ),
        (
            SelectionInsertionTargetValidation::SelectionChanged,
            BackendErrorCode::Cancelled,
            "selectionPolishSelectionChanged",
        ),
    ] {
        assert_eq!(
            error(ApplyStage::Validating, ApplyReply::Validated(validation)),
            (code, message.to_string())
        );
    }
    assert_eq!(
        error(ApplyStage::CheckingFront, ApplyReply::StillFront(false)),
        (BackendErrorCode::Cancelled, "selectionPolishTargetChanged".to_string())
    );
    let refused = BackendError::new(BackendErrorCode::InvalidState, "not ready");
    assert_eq!(
        error(ApplyStage::ReadingPreferences, ApplyReply::Preferences(Err(refused))).1,
        "not ready"
    );
    assert_eq!(
        error(ApplyStage::Inserting, ApplyReply::Inserted(InsertStatus::Failed)).0,
        BackendErrorCode::Platform
    );
}

#[test]
fn a_preview_needs_its_text_and_its_source() {
    let snapshot = |source: Option<&str>, preview: Option<&str>| SelectionSnapshot {
        session_id: Some(4),
        source_text: source.map(str::to_string),
        preview_text: preview.map(str::to_string),
    };
    let payload = map_selection_preview(snapshot(Some("source"), Some("preview"))).unwrap();
    assert_eq!((payload.text.as_str(), payload.source_text.as_str()), ("preview", "source"));
    assert_eq!(map_selection_preview(snapshot(None, Some("preview"))), None);
    assert_eq!(map_selection_preview(snapshot(Some("source"), None)), None);
    assert_eq!(previewed_session(&snapshot(None, None)), Ok(4));
    let closed = SelectionSnapshot { session_id: None, ..snapshot(None, None) };
    assert_eq!(
        previewed_session(&closed),
        Err("selection preview is not active".to_string())
    );
}
