use openless::errors::{BackendError, BackendErrorCode};
use openless::local_asr::{GenericProvider, NativeGenerations};
use openless::native_session::{
    begin_generation, foundry_release_step, map_native_asr_error, native_provider_types,
    pcm_duration_ms, plan_native_session, sherpa_release_step, transcription_timed_out, AsrCallLabel, AsrCatalog,
    AsrRequest, NativeCancel, NativePlan, NativeProviderIds, NativeRelease, NativeSession, NativeSessionKind,
    NativeStart, ReleaseStage, ReleaseStep, StartReply, StartStage, Transcription,
};
use openless::platform::TargetOs;
use openless::preferences::{LocalAsrFamily, LocalAsrModel};

fn request(model: Option<&str>) -> AsrRequest {
    AsrRequest {
        provider_type: "provider".to_string(),
        model: model.map(str::to_string),
        runtime: None,
        language: Some("zh".to_string()),
        keep_loaded_secs: Some(60),
        working_languages: vec!["简体中文".to_string(), "English".to_string()],
    }
}

fn catalog() -> AsrCatalog<u8> {
    AsrCatalog {
        is_foundry: false,
        is_sherpa: false,
        generic: GenericProvider {
            is_qwen: false,
            qwen_backend: None,
            is_whisper: false,
            is_apple_speech: false,
        },
        foundry_has_model: false,
        sherpa_has_model: false,
        generic_model: None,
        foundry_default: "foundry-default".to_string(),
        sherpa_default: "sherpa-default".to_string(),
        whisper_default: "whisper-default".to_string(),
    }
}

fn session(kind: NativeSessionKind) -> NativeSession {
    NativeSession {
        kind,
        label: AsrCallLabel { provider_type: "provider".to_string(), model: None },
        generation: 1,
        keep_loaded_secs: 60,
        next_offset: 0,
        pcm: Vec::new(),
        cancelled: false,
        released: false,
    }
}

fn finished(text: &str) -> Transcription {
    Transcription::Finished { text: text.to_string(), duration_ms: 9 }
}

#[test]
fn native_transcription_timeout_is_retryable_and_drops_pending_wait() {
    let error = transcription_timed_out();
    assert_eq!(error.code, BackendErrorCode::Provider);
    assert!(error.message.contains("timed out"));
    assert!(error.retryable);
    let mut waiting = session(NativeSessionKind::AppleSpeech);
    assert_eq!(waiting.conclude(Transcription::TimedOut, "").0.unwrap_err(), error);
    let mut done = session(NativeSessionKind::AppleSpeech);
    assert_eq!(done.conclude(finished("transcript"), "").0.unwrap().text, "transcript");
}

#[test]
fn windows_requests_go_to_the_native_runtimes() {
    let os = TargetOs::Windows;
    let foundry = AsrCatalog { is_foundry: true, ..catalog() };
    assert_eq!(
        plan_native_session(&request(Some("unknown")), foundry.clone(), os).unwrap(),
        NativePlan::Foundry {
            model: "foundry-default".to_string(),
            runtime_source: "auto".to_string(),
            language: Some("zh".to_string()),
        }
    );
    let known = AsrCatalog { foundry_has_model: true, ..foundry };
    let asked = AsrRequest { runtime: Some("cuda".to_string()), ..request(Some("whisper-small")) };
    assert_eq!(
        plan_native_session(&asked, known, os).unwrap(),
        NativePlan::Foundry {
            model: "whisper-small".to_string(),
            runtime_source: "cuda".to_string(),
            language: Some("zh".to_string()),
        }
    );
    let sherpa = AsrCatalog { is_sherpa: true, sherpa_has_model: true, ..catalog() };
    assert_eq!(
        plan_native_session(&request(None), sherpa, os).unwrap(),
        NativePlan::Sherpa {
            model: "sherpa-default".to_string(),
            language: Some("zh".to_string()),
        }
    );
    let error = plan_native_session(&request(None), catalog(), os).unwrap_err();
    assert_eq!(error.code, BackendErrorCode::Unsupported);
    assert_eq!(error.message, "native ASR provider is unavailable: provider");
}

#[test]
fn generic_requests_need_a_backend_and_a_model() {
    let qwen = AsrCatalog {
        generic: GenericProvider {
            is_qwen: true,
            qwen_backend: Some(3),
            is_whisper: false,
            is_apple_speech: false,
        },
        generic_model: Some(LocalAsrModel {
            id: "qwen3-asr-1.7b".to_string(),
            family: LocalAsrFamily::Qwen,
        }),
        ..catalog()
    };
    for os in [TargetOs::Macos, TargetOs::Linux] {
        assert_eq!(
            plan_native_session(&request(Some("qwen3-asr-1.7b")), qwen.clone(), os).unwrap(),
            NativePlan::Qwen { backend: 3, model_id: "qwen3-asr-1.7b".to_string() }
        );
        let error = plan_native_session(&request(None), qwen.clone(), os).unwrap_err();
        assert_eq!(error.code, BackendErrorCode::Provider);
        assert_eq!(error.message, "local Qwen model is not configured");
        let mut without = qwen.clone();
        without.generic.qwen_backend = None;
        assert_eq!(
            plan_native_session(&request(Some("x")), without, os).unwrap_err().message,
            "Qwen backend is unavailable: provider"
        );
    }
}

#[test]
fn macos_has_whisper_and_the_recogniser_of_apple() {
    let mut whisper = catalog();
    whisper.generic.is_whisper = true;
    assert_eq!(
        plan_native_session(&request(Some("unknown")), whisper.clone(), TargetOs::Macos).unwrap(),
        NativePlan::Whisper {
            model_id: "whisper-default".to_string(),
            language: "zh".to_string(),
        }
    );
    assert_eq!(
        plan_native_session(&request(None), whisper, TargetOs::Linux).unwrap_err().code,
        BackendErrorCode::Unsupported
    );
    let mut apple = catalog();
    apple.generic.is_apple_speech = true;
    let plan = plan_native_session(&request(None), apple, TargetOs::Macos).unwrap();
    assert_eq!(plan, NativePlan::AppleSpeech { language: Some("简体中文".to_string()) });
    assert_eq!(plan.label_model(), None);
}

#[test]
fn sessions_are_counted_on_their_runtime() {
    let mut generations = NativeGenerations::new();
    assert_eq!(begin_generation(&mut generations, true), 1);
    assert_eq!(begin_generation(&mut generations, true), 2);
    assert_eq!(begin_generation(&mut generations, false), 1);
    generations.sherpa = u64::MAX;
    assert_eq!(begin_generation(&mut generations, false), 0);
    generations.sherpa = 1;
    assert_eq!((generations.foundry, generations.sherpa), (2, 1));
}

fn start(kind: NativeSessionKind) -> NativeStart<u8> {
    NativeStart::begin(match kind {
        NativeSessionKind::Foundry => NativePlan::Foundry {
            model: "m".to_string(),
            runtime_source: "auto".to_string(),
            language: None,
        },
        NativeSessionKind::Sherpa => {
            NativePlan::Sherpa { model: "m".to_string(), language: None }
        }
        NativeSessionKind::Qwen => NativePlan::Qwen { backend: 1, model_id: "m".to_string() },
        NativeSessionKind::Whisper => {
            NativePlan::Whisper { model_id: "m".to_string(), language: "auto".to_string() }
        }
        NativeSessionKind::AppleSpeech => NativePlan::AppleSpeech { language: None },
    })
}

#[test]
fn a_stored_model_is_asked_for_before_it_is_loaded() {
    for kind in [NativeSessionKind::Sherpa, NativeSessionKind::Qwen, NativeSessionKind::Whisper] {
        let mut on_its_way = start(kind);
        let mut stages = vec![on_its_way.stage];
        for reply in [
            StartReply::Target(Ok(())),
            StartReply::Store(true),
            StartReply::Installed(Ok(true)),
            StartReply::Directory(Ok(())),
        ] {
            on_its_way = on_its_way.answer(reply).unwrap();
            stages.push(on_its_way.stage);
        }
        if kind == NativeSessionKind::Whisper {
            on_its_way = on_its_way.answer(StartReply::File(Ok(()))).unwrap();
        }
        assert_eq!(on_its_way.stage, StartStage::Loading);
        on_its_way = on_its_way.answer(StartReply::Loaded(Ok(()))).unwrap();
        assert_eq!(on_its_way.stage, StartStage::Ready);
        assert_eq!(
            stages[..4],
            [
                StartStage::ParsingTarget,
                StartStage::FindingStore,
                StartStage::CheckingInstalled,
                StartStage::FindingDirectory,
            ]
        );
        let session = on_its_way.into_session(&request(None), 5);
        assert_eq!(session.kind, kind);
        assert_eq!(session.label.provider_type, "provider");
        assert_eq!(session.label.model.as_deref(), Some("m"));
        assert_eq!((session.generation, session.keep_loaded_secs), (5, 60));
    }
    assert_eq!(start(NativeSessionKind::Foundry).stage, StartStage::Ready);
    assert_eq!(start(NativeSessionKind::AppleSpeech).stage, StartStage::Ready);
}

#[test]
fn a_start_fails_with_the_reason_of_its_stage() {
    let at = |kind, stage| NativeStart { stage, ..start(kind) };
    let own = BackendError::new(BackendErrorCode::InvalidArgument, "own");
    for (kind, stage, reply, code, message) in [
        (
            NativeSessionKind::Qwen,
            StartStage::ParsingTarget,
            StartReply::Target(Err(own.clone())),
            BackendErrorCode::InvalidArgument,
            "own",
        ),
        (
            NativeSessionKind::Qwen,
            StartStage::FindingStore,
            StartReply::Store(false),
            BackendErrorCode::Unsupported,
            "Core model store is unavailable",
        ),
        (
            NativeSessionKind::Qwen,
            StartStage::CheckingInstalled,
            StartReply::Installed(Ok(false)),
            BackendErrorCode::InvalidState,
            "local Qwen model is not downloaded",
        ),
        (
            NativeSessionKind::Sherpa,
            StartStage::CheckingInstalled,
            StartReply::Installed(Ok(false)),
            BackendErrorCode::InvalidState,
            "Sherpa model is not downloaded",
        ),
        (
            NativeSessionKind::Whisper,
            StartStage::CheckingInstalled,
            StartReply::Installed(Ok(false)),
            BackendErrorCode::InvalidState,
            "local Whisper model is not downloaded",
        ),
        (
            NativeSessionKind::Whisper,
            StartStage::CheckingInstalled,
            StartReply::Installed(Err(own.clone())),
            BackendErrorCode::InvalidArgument,
            "own",
        ),
        (
            NativeSessionKind::Whisper,
            StartStage::FindingDirectory,
            StartReply::Directory(Err(own.clone())),
            BackendErrorCode::InvalidArgument,
            "own",
        ),
        (
            NativeSessionKind::Whisper,
            StartStage::FindingFile,
            StartReply::File(Err("no file".to_string())),
            BackendErrorCode::Provider,
            "native ASR provider failed: no file",
        ),
        (
            NativeSessionKind::Sherpa,
            StartStage::Loading,
            StartReply::Loaded(Err("no memory".to_string())),
            BackendErrorCode::Provider,
            "native ASR provider failed: no memory",
        ),
    ] {
        let error = at(kind, stage).answer(reply).unwrap_err();
        assert_eq!((error.code, error.message.as_str()), (code, message));
    }
}

#[test]
fn gathered_audio_is_handed_over_with_its_length() {
    let mut qwen = session(NativeSessionKind::Qwen);
    assert!(!qwen.consume_pcm_chunk(&[1, 2]));
    assert!(!qwen.consume_pcm_chunk(&vec![0; 31998]));
    let end = qwen.begin_finish();
    assert_eq!(end.timeout_rule, "local-qwen3");
    let (audio, ms) = end.gathered.unwrap();
    assert_eq!((audio.len(), audio[1], ms), (32000, 2, 1000));
    assert!(qwen.pcm.is_empty());
    let mut apple = session(NativeSessionKind::AppleSpeech);
    assert!(apple.consume_pcm_chunk(&[1, 2]));
    assert!(apple.pcm.is_empty());
    assert_eq!(apple.begin_finish().gathered, None);
    assert_eq!(pcm_duration_ms(&[]), 0);
    assert_eq!(pcm_duration_ms(&[0; 33]), 1);
    assert_eq!(pcm_duration_ms(&[0; 31]), 0);
}

#[test]
fn each_kind_has_its_time_limit() {
    for (kind, rule) in [
        (NativeSessionKind::Foundry, "foundry-local-whisper"),
        (NativeSessionKind::Sherpa, "sherpa-onnx-local"),
        (NativeSessionKind::Qwen, "local-qwen3"),
        (NativeSessionKind::Whisper, "local-whisper"),
        (NativeSessionKind::AppleSpeech, "apple-speech"),
    ] {
        assert_eq!(session(kind).begin_finish().timeout_rule, rule);
    }
}

#[test]
fn partial_texts_follow_one_another() {
    let mut sherpa = session(NativeSessionKind::Sherpa);
    assert_eq!(sherpa.publish_piece("你好"), Some(0));
    assert_eq!(sherpa.publish_piece(", "), Some(2));
    assert_eq!(sherpa.publish_piece(""), Some(4));
    assert_eq!(sherpa.next_offset, 4);
    let mut qwen = session(NativeSessionKind::Qwen);
    qwen.cancel();
    assert_eq!(qwen.publish_piece("late"), None);
    assert_eq!(qwen.next_offset, 0);
}

#[test]
fn notices_stop_after_the_release() {
    let mut foundry = session(NativeSessionKind::Foundry);
    assert!(foundry.shows_notices(true));
    assert!(!foundry.shows_notices(false));
    foundry.conclude(finished("text"), "");
    assert!(!foundry.shows_notices(true));
}

#[test]
fn a_session_releases_what_it_held_once() {
    for (kind, kept, dropped) in [
        (NativeSessionKind::Foundry, NativeRelease::Foundry, NativeRelease::Foundry),
        (NativeSessionKind::Sherpa, NativeRelease::Sherpa, NativeRelease::Sherpa),
        (
            NativeSessionKind::Qwen,
            NativeRelease::Cache { discard: false },
            NativeRelease::Cache { discard: true },
        ),
        (
            NativeSessionKind::Whisper,
            NativeRelease::Cache { discard: false },
            NativeRelease::Cache { discard: true },
        ),
        (NativeSessionKind::AppleSpeech, NativeRelease::Nothing, NativeRelease::Nothing),
    ] {
        let mut done = session(kind);
        let (text, end) = done.conclude(finished("text"), "");
        assert_eq!(text.unwrap().duration_ms, 9);
        assert_eq!((end.cancel, end.release), (None, Some(kept)));
        assert_eq!(done.cancel().release, None);
        let mut cancelled = session(kind);
        assert_eq!(cancelled.cancel().release, Some(dropped));
        assert_eq!(cancelled.cancel().release, None);
        let mut failed = session(kind);
        let (_, end) = failed.conclude(Transcription::Failed { error: "x".to_string() }, "");
        assert_eq!(end.release, Some(dropped));
        assert!(end.cancel.is_some());
    }
    assert_eq!(
        session(NativeSessionKind::Qwen).cancel().cancel,
        Some(NativeCancel::EngineOperation)
    );
    assert_eq!(
        session(NativeSessionKind::Whisper).cancel().cancel,
        Some(NativeCancel::Nothing)
    );
    assert_eq!(
        session(NativeSessionKind::Sherpa).cancel().cancel,
        Some(NativeCancel::Provider)
    );
}

#[test]
fn a_cancelled_session_has_no_text() {
    let mut qwen = session(NativeSessionKind::Qwen);
    qwen.consume_pcm_chunk(&[1, 2, 3, 4]);
    qwen.cancel();
    assert!(qwen.pcm.is_empty());
    let error = qwen.conclude(finished("late"), "").0.unwrap_err();
    assert_eq!(error.code, BackendErrorCode::Cancelled);
    assert_eq!(error.message, "native ASR request cancelled");
    let mut apple = session(NativeSessionKind::AppleSpeech);
    apple.cancel();
    assert!(apple.conclude(finished("kept"), "").0.is_ok());
}

#[test]
fn foundry_failures_are_worth_another_try_until_its_fallback_is_gone() {
    let failed = Transcription::Failed { error: "gpu".to_string() };
    let error = session(NativeSessionKind::Foundry).conclude(failed.clone(), "").0.unwrap_err();
    assert!(error.retryable);
    assert_eq!(error.message, "native ASR provider failed: gpu");
    let error = session(NativeSessionKind::Sherpa).conclude(failed, "").0.unwrap_err();
    assert_eq!(error, map_native_asr_error("gpu"));
    assert!(!error.retryable);
    let error = session(NativeSessionKind::Foundry)
        .conclude(Transcription::FallbackExhausted, "nothing left")
        .0
        .unwrap_err();
    assert_eq!(error.message, "nothing left");
    assert_eq!(error.terminal.as_deref(), Some("foundry_fallback"));
    assert!(!error.retryable);
}

#[test]
fn an_outdated_release_stops() {
    let step = foundry_release_step;
    assert_eq!(step(ReleaseStage::Ordered, 1, 2, false, 60), ReleaseStep::Stop);
    assert_eq!(step(ReleaseStage::Ordered, 1, 1, false, 60), ReleaseStep::Wait { secs: 60 });
    assert_eq!(step(ReleaseStage::Ordered, 1, 1, true, 60), ReleaseStep::RestorePrimary);
    assert_eq!(step(ReleaseStage::Ordered, 1, 1, true, 0), ReleaseStep::Wait { secs: 0 });
    assert_eq!(
        step(ReleaseStage::Restored { primary: true }, 1, 1, true, 60),
        ReleaseStep::Wait { secs: 60 }
    );
    assert_eq!(
        step(ReleaseStage::Restored { primary: false }, 1, 1, true, 60),
        ReleaseStep::Stop
    );
    assert_eq!(step(ReleaseStage::Waited, 1, 2, true, 60), ReleaseStep::Stop);
    assert_eq!(step(ReleaseStage::Waited, 1, 1, true, 60), ReleaseStep::ReleasePrimary);
    assert_eq!(step(ReleaseStage::Waited, 1, 1, false, 60), ReleaseStep::ReleaseGeneration);
    assert_eq!(sherpa_release_step(1, 1), ReleaseStep::ReleaseGeneration);
    assert_eq!(sherpa_release_step(1, 2), ReleaseStep::Stop);
}

#[test]
fn each_platform_serves_its_own_providers() {
    let ids = NativeProviderIds {
        foundry: "foundry-local-whisper".to_string(),
        sherpa: "sherpa-onnx-local".to_string(),
        qwen: "local-qwen3".to_string(),
        qwen_mlx: "local-qwen3-mlx".to_string(),
        qwen_c: "local-qwen3-c".to_string(),
        whisper: "local-whisper".to_string(),
        apple_speech: "apple-speech".to_string(),
    };
    assert_eq!(
        native_provider_types(&ids, TargetOs::Windows),
        vec![
            "foundry-local-whisper",
            "foundry-local",
            "foundry-whisper",
            "sherpa-onnx-local",
            "sherpa-onnx",
        ]
    );
    assert_eq!(
        native_provider_types(&ids, TargetOs::Macos),
        vec!["local-qwen3", "local-qwen3-mlx", "local-qwen3-c", "local-whisper", "apple-speech"]
    );
    assert_eq!(
        native_provider_types(&ids, TargetOs::Linux),
        vec!["local-qwen3", "local-qwen3-mlx", "local-qwen3-c"]
    );
    assert!(native_provider_types(&ids, TargetOs::Android).is_empty());
}
