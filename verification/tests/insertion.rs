use openless::errors::{map_join_error, map_platform_error, BackendError, BackendErrorCode};
use openless::insertion::{
    after_insert, after_submit, after_typing, begin_plan, cancel_result, map_insert_status,
    prepare_streaming_input_source, restore_insertion_target, written_chars, BeginPlan, FinishStep,
    InsertOutcome, InsertStatus, InsertStep, InsertionOptions, InsertionSession, SubmitOutcome,
};
use openless::platform::TargetOs;
use openless::types::WindowsInsertionMode;

fn options(mode: WindowsInsertionMode, fallback: bool) -> InsertionOptions {
    InsertionOptions { windows_insertion_mode: mode, allow_non_tsf_fallback: fallback }
}

fn opened(mode: WindowsInsertionMode, fallback: bool) -> InsertionSession<u8, u8> {
    InsertionSession::new(options(mode, fallback), Some(1), Some(2), true)
}

#[test]
fn insertion_status_mapping_preserves_fallback_and_failure_semantics() {
    assert_eq!(map_insert_status(InsertStatus::Inserted).unwrap(), InsertOutcome::Inserted);
    assert_eq!(
        map_insert_status(InsertStatus::CopiedFallback).unwrap(),
        InsertOutcome::CopiedFallback
    );
    assert_eq!(map_insert_status(InsertStatus::PasteSent).unwrap(), InsertOutcome::PasteSent);
    assert_eq!(
        map_insert_status(InsertStatus::Failed).unwrap_err().code,
        BackendErrorCode::Platform
    );
    assert_eq!(
        map_insert_status(InsertStatus::NotRequested).unwrap_err().message,
        "Tauri text insertion failed"
    );
}

#[test]
fn input_source_preparation_skips_one_shot_and_degrades_on_tis_failure() {
    let (previous, streaming): (Option<u8>, bool) =
        prepare_streaming_input_source(false, || panic!("one-shot insertion must not access TIS"));
    assert_eq!(previous, None);
    assert!(!streaming);
    let (previous, streaming): (Option<u8>, bool) =
        prepare_streaming_input_source(true, || Err("TIS select failed".to_string()));
    assert_eq!(previous, None);
    assert!(!streaming);
    assert_eq!(prepare_streaming_input_source(true, || Ok(Some(7_u8))), (Some(7), true));
}

#[test]
fn each_platform_readies_what_it_needs() {
    let tsf = options(WindowsInsertionMode::Tsf, true);
    assert_eq!(
        begin_plan(tsf, false, true, TargetOs::Windows),
        Ok(BeginPlan { prepare_ime: true, switch_input_source: false })
    );
    assert_eq!(
        begin_plan(options(WindowsInsertionMode::Paste, true), false, true, TargetOs::Windows),
        Ok(BeginPlan { prepare_ime: false, switch_input_source: false })
    );
    assert_eq!(
        begin_plan(tsf, true, true, TargetOs::Macos),
        Ok(BeginPlan { prepare_ime: false, switch_input_source: true })
    );
    assert_eq!(
        begin_plan(tsf, false, true, TargetOs::Macos).unwrap_err().code,
        BackendErrorCode::InvalidState
    );
}

#[test]
fn a_lost_target_is_never_typed_into() {
    for target in [TargetOs::Windows, TargetOs::Macos, TargetOs::Linux, TargetOs::Android] {
        for mode in [
            WindowsInsertionMode::Tsf,
            WindowsInsertionMode::SendInput,
            WindowsInsertionMode::Paste,
        ] {
            for fallback in [true, false] {
                let mut session = opened(mode, fallback);
                match session.insert_final(false, target) {
                    InsertStep::Copy => assert!(target == TargetOs::Windows && fallback),
                    InsertStep::Done(Err(error)) => {
                        assert!(target != TargetOs::Windows || !fallback);
                        assert_eq!(
                            error.message,
                            "original text insertion target is unavailable"
                        );
                    }
                    other => panic!("{other:?}"),
                }
                assert_eq!(session.prepared, Some(1));
            }
        }
    }
    assert!(restore_insertion_target(true).is_ok());
}

#[test]
fn the_final_text_takes_the_way_of_its_platform() {
    let first = |mode, target| opened(mode, true).insert_final(true, target);
    assert_eq!(
        first(WindowsInsertionMode::Tsf, TargetOs::Windows),
        InsertStep::Submit(1)
    );
    assert_eq!(
        first(WindowsInsertionMode::SendInput, TargetOs::Windows),
        InsertStep::TypeKeys
    );
    assert_eq!(first(WindowsInsertionMode::Paste, TargetOs::Windows), InsertStep::Paste);
    assert_eq!(first(WindowsInsertionMode::Tsf, TargetOs::Android), InsertStep::AndroidInsert);
    assert_eq!(first(WindowsInsertionMode::Tsf, TargetOs::Macos), InsertStep::Paste);
    let mut session = opened(WindowsInsertionMode::Tsf, true);
    assert_eq!(session.insert_final(true, TargetOs::Windows), InsertStep::Submit(1));
    match session.insert_final(true, TargetOs::Windows) {
        InsertStep::Done(Err(error)) => {
            assert_eq!(error.code, BackendErrorCode::InvalidState);
            assert_eq!(error.message, "prepared Windows IME session is unavailable");
        }
        other => panic!("{other:?}"),
    }
}

#[test]
fn a_failed_way_falls_back_only_where_that_is_allowed() {
    let allowed = options(WindowsInsertionMode::Tsf, true);
    let strict = options(WindowsInsertionMode::Tsf, false);
    let submit = |o, outcome| -> InsertStep<u8> { after_submit(o, outcome) };
    let typed = |o, status| -> InsertStep<u8> { after_typing(o, status) };
    assert_eq!(submit(allowed, SubmitOutcome::Failed), InsertStep::TypeKeys);
    assert_eq!(
        submit(allowed, SubmitOutcome::Answered(InsertStatus::Failed)),
        InsertStep::TypeKeys
    );
    assert_eq!(
        submit(strict, SubmitOutcome::Answered(InsertStatus::Inserted)),
        InsertStep::Done(Ok(InsertOutcome::Inserted))
    );
    assert!(matches!(
        submit(strict, SubmitOutcome::Failed),
        InsertStep::Done(Err(BackendError { code: BackendErrorCode::Platform, .. }))
    ));
    assert!(matches!(
        submit(allowed, SubmitOutcome::Unknown { error: "pipe closed".to_string() }),
        InsertStep::Done(Err(BackendError { code: BackendErrorCode::OutcomeUnknown, .. }))
    ));
    assert_eq!(
        typed(allowed, InsertStatus::Inserted),
        InsertStep::Done(Ok(InsertOutcome::Inserted))
    );
    assert_eq!(typed(allowed, InsertStatus::Failed), InsertStep::Copy);
    assert!(matches!(typed(strict, InsertStatus::Failed), InsertStep::Done(Err(_))));
    let copied: InsertStep<u8> = after_insert(InsertStatus::CopiedFallback);
    assert_eq!(copied, InsertStep::Done(Ok(InsertOutcome::CopiedFallback)));
}

#[test]
fn a_session_is_closed_once() {
    let mut session = opened(WindowsInsertionMode::Tsf, true);
    assert!(session.write().is_ok());
    assert_eq!(session.finish("text"), Ok(FinishStep::Insert));
    assert_eq!(session.write().unwrap_err().code, BackendErrorCode::Cancelled);
    assert_eq!(session.finish("text").unwrap_err().code, BackendErrorCode::InvalidState);
    assert!(!session.cancel());
    let mut empty = opened(WindowsInsertionMode::Tsf, true);
    assert_eq!(empty.finish(""), Ok(FinishStep::Done(InsertOutcome::Inserted)));
    let mut dropped = opened(WindowsInsertionMode::Tsf, true);
    assert!(dropped.cancel());
    assert!(!dropped.cancel());
}

#[test]
fn a_piece_is_not_typed_into_a_closed_session() {
    let mut session = opened(WindowsInsertionMode::Tsf, true);
    assert_eq!(session.write_chunk(true, TargetOs::Linux), Ok(true));
    assert_eq!(
        session.write_chunk(false, TargetOs::Linux).unwrap_err().code,
        BackendErrorCode::Platform
    );
    assert_eq!(
        session.write_chunk(true, TargetOs::Ios).unwrap_err().code,
        BackendErrorCode::Unsupported
    );
    session.cancel();
    assert_eq!(session.write_chunk(true, TargetOs::Linux), Ok(false));
    assert_eq!(written_chars(Ok(5)), 5);
    assert_eq!(written_chars(Err(2)), 2);
}

#[test]
fn what_was_readied_is_given_back_once() {
    let mut session = opened(WindowsInsertionMode::Tsf, true);
    assert_eq!(session.restore_platform_state(TargetOs::Windows).prepared, Some(1));
    assert_eq!(session.restore_platform_state(TargetOs::Windows).prepared, None);
    let state = session.restore_platform_state(TargetOs::Macos);
    assert_eq!((state.prepared, state.input_source), (None, Some(Some(2))));
    let state = session.restore_platform_state(TargetOs::Macos);
    assert_eq!(state.input_source, Some(None));
    assert!(session.supports_streaming(TargetOs::Macos));
    assert!(session.supports_streaming(TargetOs::Linux));
    assert!(!session.supports_streaming(TargetOs::Android));
}

#[test]
fn errors_carry_their_words() {
    assert_eq!(
        map_join_error("Tauri insertion task", "panicked").message,
        "join Tauri insertion task: panicked"
    );
    assert_eq!(map_join_error("x", "y").code, BackendErrorCode::Internal);
    let error = map_platform_error("no window");
    assert_eq!((error.code, error.message.as_str()), (BackendErrorCode::Platform, "no window"));
    assert!(!error.retryable && error.terminal.is_none());
    assert!(error.worth_another_try().retryable);
}

#[test]
fn a_cancelled_insertion_says_what_was_not_restored() {
    assert!(cancel_result(Ok(())).is_ok());
    let error = cancel_result(Err("no input source".to_string())).unwrap_err();
    assert_eq!(error.code, BackendErrorCode::Platform);
    assert_eq!(error.message, "no input source");
}
