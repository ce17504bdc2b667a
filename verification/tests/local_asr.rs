use openless::errors::BackendErrorCode;
use openless::local_asr::{
    cancel_prepare, claim_lease, delete_native_model, engine_available, foundry_aliases,
    inspect_native_models, invalidate_route, native_local_asr_model, preload_for_lease,
    prepare_progress, release, release_lease, runtime_status, sherpa_is_loaded_for, status_source,
    supports_model, test_model, uses_store_directory, GenericProvider, LeaseCache, LeaseRelease,
    LocalAsrAdapter, LocalAsrPreparePhase, LocalAsrRuntime, LocalAsrSettings, LocalAsrTarget,
    NativeGenerations, NativeModelReport, PreloadPlan, PreparePlan, PrepareReport, ReleasePlan,
    RuntimeReport, StatusSource, StorageRebind,
};
use openless::platform::TargetOs;
use openless::preferences::{LocalAsrFamily, LocalAsrModel};

fn target(runtime: LocalAsrRuntime, model_id: &str) -> LocalAsrTarget {
    LocalAsrTarget { runtime, model_id: model_id.to_string() }
}

fn qwen() -> Option<LocalAsrModel> {
    Some(LocalAsrModel { id: "qwen3-asr-0.6b".to_string(), family: LocalAsrFamily::Qwen })
}

fn whisper() -> Option<LocalAsrModel> {
    Some(LocalAsrModel {
        id: "whisper-large-v3-turbo".to_string(),
        family: LocalAsrFamily::Whisper,
    })
}

fn provider(is_qwen: bool, is_whisper: bool) -> GenericProvider<u8> {
    GenericProvider {
        is_qwen,
        qwen_backend: if is_qwen { Some(1) } else { None },
        is_whisper,
        is_apple_speech: false,
    }
}

#[test]
fn windows_preload_requires_the_requested_model_to_be_prepared() {
    for runtime in [LocalAsrRuntime::Foundry, LocalAsrRuntime::SherpaOnnx] {
        let error = preload_for_lease(
            &target(runtime, "default"),
            &None,
            "provider",
            provider(false, false),
            false,
            TargetOs::Windows,
        )
        .unwrap_err();
        assert_eq!(error.code, BackendErrorCode::InvalidState);
    }
    let mut generations = NativeGenerations::new();
    generations.invalidate_release(LocalAsrRuntime::Foundry);
    assert_eq!(generations.foundry, 1);
    assert_eq!(generations.sherpa, 0);
    generations.invalidate_release(LocalAsrRuntime::SherpaOnnx);
    assert_eq!(generations.foundry, 1);
    assert_eq!(generations.sherpa, 1);
}

#[test]
fn generic_activation_uses_the_requested_target_before_preferences_commit() {
    for os in [TargetOs::Macos, TargetOs::Linux] {
        let adapter = LocalAsrAdapter::new();
        let mut generations = NativeGenerations::new();
        let wanted = target(LocalAsrRuntime::Generic, "qwen3-asr-0.6b");
        assert_eq!(
            adapter.prepare(&wanted, &qwen(), os, &mut generations).unwrap(),
            PreparePlan::Ready { model_id: wanted.model_id.clone() }
        );
        let wrong_target = target(LocalAsrRuntime::Generic, "whisper-large-v3-turbo");
        let error = preload_for_lease(
            &wrong_target,
            &whisper(),
            "local-qwen3-c",
            provider(true, false),
            true,
            os,
        )
        .unwrap_err();
        assert_eq!(error.code, BackendErrorCode::InvalidArgument);
        assert_eq!(generations, NativeGenerations::new());
    }
}

#[test]
fn runtimes_belong_to_their_platforms() {
    for (runtime, os, available) in [
        (LocalAsrRuntime::Generic, TargetOs::Macos, true),
        (LocalAsrRuntime::Generic, TargetOs::Linux, true),
        (LocalAsrRuntime::Generic, TargetOs::Windows, false),
        (LocalAsrRuntime::Foundry, TargetOs::Windows, true),
        (LocalAsrRuntime::SherpaOnnx, TargetOs::Windows, true),
        (LocalAsrRuntime::Foundry, TargetOs::Macos, false),
        (LocalAsrRuntime::SherpaOnnx, TargetOs::Android, false),
    ] {
        assert_eq!(engine_available(runtime, os), available);
    }
    assert!(supports_model(LocalAsrRuntime::Generic, &qwen(), TargetOs::Linux));
    assert!(!supports_model(LocalAsrRuntime::Generic, &whisper(), TargetOs::Linux));
    assert!(supports_model(LocalAsrRuntime::Generic, &whisper(), TargetOs::Macos));
    assert!(!supports_model(LocalAsrRuntime::Foundry, &None, TargetOs::Linux));
    assert!(uses_store_directory(LocalAsrRuntime::SherpaOnnx));
    assert!(!uses_store_directory(LocalAsrRuntime::Foundry));
    assert!(invalidate_route(LocalAsrRuntime::Foundry));
    assert!(!invalidate_route(LocalAsrRuntime::Generic));
}

#[test]
fn what_is_loaded_is_known_to_one_cache() {
    let source = status_source;
    assert_eq!(
        source(LocalAsrRuntime::Generic, &whisper(), TargetOs::Macos),
        StatusSource::WhisperCache
    );
    assert_eq!(
        source(LocalAsrRuntime::Generic, &whisper(), TargetOs::Linux),
        StatusSource::QwenCache
    );
    assert_eq!(
        source(LocalAsrRuntime::Generic, &None, TargetOs::Macos),
        StatusSource::QwenCache
    );
    assert_eq!(
        source(LocalAsrRuntime::Generic, &qwen(), TargetOs::Windows),
        StatusSource::Nothing
    );
    assert_eq!(source(LocalAsrRuntime::Foundry, &None, TargetOs::Windows), StatusSource::Foundry);
    assert_eq!(
        source(LocalAsrRuntime::SherpaOnnx, &None, TargetOs::Windows),
        StatusSource::Sherpa
    );
}

#[test]
fn the_status_says_what_the_runtime_says() {
    let settings = |runtime| LocalAsrSettings {
        runtime,
        provider_id: "settings".to_string(),
        engine_available: true,
        active_model: "chosen".to_string(),
        keep_loaded_secs: 300,
    };
    let status = runtime_status(
        settings(LocalAsrRuntime::Generic),
        RuntimeReport::Generic { loaded: Some("loaded".to_string()) },
    );
    assert_eq!(status.provider_id, "settings");
    assert_eq!(status.active_model, "chosen");
    assert_eq!(status.model_id.as_deref(), Some("loaded"));
    assert!(status.loaded && status.available);
    assert_eq!(status.keep_loaded_secs, 300);
    let status = runtime_status(
        settings(LocalAsrRuntime::Generic),
        RuntimeReport::Generic { loaded: None },
    );
    assert!(!status.loaded && status.model_id.is_none());
    let status = runtime_status(
        settings(LocalAsrRuntime::Foundry),
        RuntimeReport::Foundry {
            provider_id: "foundry".to_string(),
            available: false,
            runtime_ready: true,
            active_model: "active".to_string(),
            loaded_model_id: None,
            source: "auto".to_string(),
            endpoint: Some("http://127.0.0.1".to_string()),
            error: Some("slow".to_string()),
        },
    );
    assert_eq!(status.provider_id, "foundry");
    assert_eq!(status.active_model, "active");
    assert!(!status.available && status.loaded);
    assert_eq!(status.runtime_source.as_deref(), Some("auto"));
    assert_eq!(status.endpoint.as_deref(), Some("http://127.0.0.1"));
    assert_eq!(status.error.as_deref(), Some("slow"));
    assert_eq!((status.last_error, status.last_audio_ms), (None, None));
    let status = runtime_status(
        settings(LocalAsrRuntime::SherpaOnnx),
        RuntimeReport::Sherpa {
            provider_id: "sherpa".to_string(),
            available: true,
            runtime_ready: false,
            active_model: "active".to_string(),
            loaded_model_id: Some("model".to_string()),
            error: None,
            last_error: Some("last".to_string()),
            last_prepare_ms: Some(1),
            last_transcribe_ms: Some(2),
            last_audio_ms: Some(3),
        },
    );
    assert!(!status.loaded);
    assert_eq!(status.last_error.as_deref(), Some("last"));
    assert_eq!(
        (status.last_prepare_ms, status.last_transcribe_ms, status.last_audio_ms),
        (Some(1), Some(2), Some(3))
    );
    assert_eq!(status.runtime_source, None);
}

#[test]
fn reports_on_models_nobody_asked_about_are_passed_over() {
    let targets = vec![
        target(LocalAsrRuntime::Foundry, "whisper-small"),
        target(LocalAsrRuntime::SherpaOnnx, "sense-voice"),
        target(LocalAsrRuntime::Foundry, "whisper-tiny"),
    ];
    assert_eq!(foundry_aliases(&targets), vec!["whisper-small", "whisper-tiny"]);
    let report = |alias: &str, cached| NativeModelReport {
        alias: alias.to_string(),
        cached,
        size_bytes: Some(7),
        display_name: Some(alias.to_uppercase()),
    };
    let states = inspect_native_models(
        &targets,
        vec![
            report("whisper-tiny", true),
            report("sense-voice", true),
            report("phi", true),
            report("whisper-small", false),
        ],
    );
    let ids: Vec<&str> = states.iter().map(|s| s.target.model_id.as_str()).collect();
    assert_eq!(ids, vec!["whisper-tiny", "whisper-small"]);
    assert!(states[0].installed && !states[1].installed);
    assert_eq!(states[1].display_name.as_deref(), Some("WHISPER-SMALL"));
    assert_eq!(states[0].size_bytes, Some(7));
    assert!(states.iter().all(|s| s.target.runtime == LocalAsrRuntime::Foundry));
}

#[test]
fn a_changed_directory_stops_foundry_until_a_restart() {
    let mut adapter = LocalAsrAdapter::new();
    let mut generations = NativeGenerations::new();
    let wanted = target(LocalAsrRuntime::Foundry, "whisper-small");
    let os = TargetOs::Windows;
    assert_eq!(
        adapter.prepare(&wanted, &None, os, &mut generations),
        Ok(PreparePlan::LoadNatively)
    );
    assert_eq!(adapter.rebind_storage(true), StorageRebind::RestartRequired);
    let error = adapter.prepare(&wanted, &None, os, &mut generations).unwrap_err();
    assert_eq!(error.code, BackendErrorCode::InvalidState);
    assert_eq!(error.message, "Foundry storage changed; restart is required");
    assert_eq!(generations.foundry, 2);
    let sherpa = target(LocalAsrRuntime::SherpaOnnx, "sense-voice");
    assert_eq!(
        adapter.prepare(&sherpa, &None, os, &mut generations),
        Ok(PreparePlan::LoadNatively)
    );
    assert_eq!(adapter.rebind_storage(false), StorageRebind::Applied);
    assert!(adapter.prepare(&wanted, &None, os, &mut generations).is_ok());
}

#[test]
fn generic_models_are_refused_where_they_do_not_run() {
    let adapter = LocalAsrAdapter::new();
    let mut generations = NativeGenerations::new();
    let mut code = |model, os| {
        adapter
            .prepare(&target(LocalAsrRuntime::Generic, "x"), &model, os, &mut generations)
            .unwrap_err()
            .code
    };
    assert_eq!(code(None, TargetOs::Macos), BackendErrorCode::InvalidArgument);
    assert_eq!(code(whisper(), TargetOs::Linux), BackendErrorCode::Unsupported);
    assert_eq!(code(qwen(), TargetOs::Windows), BackendErrorCode::Unsupported);
    assert_eq!(
        native_local_asr_model(&target(LocalAsrRuntime::Generic, "x"), &None)
            .unwrap_err()
            .message,
        "unknown generic local ASR model: x"
    );
}

#[test]
fn what_a_runtime_cannot_do_is_refused() {
    assert_eq!(
        cancel_prepare(LocalAsrRuntime::Generic).unwrap_err().code,
        BackendErrorCode::Unsupported
    );
    assert!(cancel_prepare(LocalAsrRuntime::Foundry).is_ok());
    assert_eq!(
        delete_native_model(LocalAsrRuntime::SherpaOnnx).unwrap_err().message,
        "only Foundry uses native model deletion"
    );
    assert!(delete_native_model(LocalAsrRuntime::Foundry).is_ok());
    let trial = |runtime, model| test_model(&target(runtime, "x"), &model);
    assert_eq!(trial(LocalAsrRuntime::Generic, qwen()).unwrap(), qwen().unwrap());
    assert_eq!(
        trial(LocalAsrRuntime::Foundry, qwen()).unwrap_err().code,
        BackendErrorCode::Unsupported
    );
    assert_eq!(
        trial(LocalAsrRuntime::Generic, None).unwrap_err().code,
        BackendErrorCode::InvalidArgument
    );
}

#[test]
fn a_lease_is_held_in_the_cache_of_its_family() {
    let claim = |model, os| claim_lease(LocalAsrRuntime::Generic, &model, os);
    assert_eq!(claim(qwen(), TargetOs::Linux), LeaseCache::Qwen);
    assert_eq!(claim(whisper(), TargetOs::Macos), LeaseCache::Whisper);
    assert_eq!(claim(whisper(), TargetOs::Linux), LeaseCache::Nothing);
    assert_eq!(claim(None, TargetOs::Macos), LeaseCache::Nothing);
    assert_eq!(
        claim_lease(LocalAsrRuntime::Foundry, &qwen(), TargetOs::Macos),
        LeaseCache::Nothing
    );
    let mut generations = NativeGenerations::new();
    assert_eq!(
        release_lease(LocalAsrRuntime::Generic, &whisper(), TargetOs::Macos, &mut generations),
        LeaseRelease::Lease(LeaseCache::Whisper)
    );
    assert_eq!(generations, NativeGenerations::new());
    assert_eq!(
        release_lease(LocalAsrRuntime::Foundry, &None, TargetOs::Windows, &mut generations),
        LeaseRelease::Runtime(ReleasePlan::Foundry)
    );
    assert_eq!(generations.foundry, 1);
    assert_eq!(
        release(LocalAsrRuntime::SherpaOnnx, TargetOs::Windows, &mut generations),
        ReleasePlan::Sherpa
    );
    assert_eq!((generations.foundry, generations.sherpa), (1, 1));
    assert_eq!(
        release(LocalAsrRuntime::Generic, TargetOs::Linux, &mut generations),
        ReleasePlan::Caches { qwen: true, whisper: false }
    );
    assert_eq!((generations.foundry, generations.sherpa), (1, 1));
}

#[test]
fn preloading_follows_the_provider() {
    let wanted = target(LocalAsrRuntime::Generic, "whisper-large-v3-turbo");
    let preload = |model, provider, os| {
        preload_for_lease(&wanted, &model, "provider", provider, false, os)
    };
    assert_eq!(
        preload(qwen(), provider(true, false), TargetOs::Linux).unwrap(),
        PreloadPlan::LoadQwen { backend: 1, model_id: "qwen3-asr-0.6b".to_string() }
    );
    assert_eq!(
        preload(whisper(), provider(false, true), TargetOs::Macos).unwrap(),
        PreloadPlan::LoadWhisper { model_id: "whisper-large-v3-turbo".to_string() }
    );
    for (model, provider, os, message) in [
        (
            whisper(),
            provider(false, true),
            TargetOs::Linux,
            "generic local ASR provider is unavailable: provider",
        ),
        (
            qwen(),
            provider(true, false),
            TargetOs::Windows,
            "generic local ASR provider is unavailable: provider",
        ),
        (
            qwen(),
            GenericProvider { qwen_backend: None, ..provider(true, false) },
            TargetOs::Macos,
            "Qwen backend is unavailable: provider",
        ),
        (
            None,
            provider(true, false),
            TargetOs::Macos,
            "unknown generic local ASR model: whisper-large-v3-turbo",
        ),
    ] {
        assert_eq!(preload(model, provider, os).unwrap_err().message, message);
    }
    let native = |prepared, os| {
        preload_for_lease(
            &target(LocalAsrRuntime::SherpaOnnx, "x"),
            &None,
            "provider",
            provider(false, false),
            prepared,
            os,
        )
    };
    assert_eq!(native(true, TargetOs::Windows).unwrap(), PreloadPlan::AlreadyLoaded);
    assert_eq!(
        native(true, TargetOs::Linux).unwrap_err().code,
        BackendErrorCode::Unsupported
    );
}

#[test]
fn sherpa_counts_as_loaded_with_the_model_alone() {
    let loaded = Some("sense-voice".to_string());
    assert!(sherpa_is_loaded_for(true, &loaded, "sense-voice"));
    assert!(!sherpa_is_loaded_for(false, &loaded, "sense-voice"));
    assert!(!sherpa_is_loaded_for(true, &loaded, "paraformer"));
    assert!(!sherpa_is_loaded_for(true, &None, "sense-voice"));
}

#[test]
fn progress_is_published_under_the_name_of_its_runtime() {
    let progress = prepare_progress(
        LocalAsrRuntime::Foundry,
        PrepareReport {
            phase: LocalAsrPreparePhase::Load,
            model_alias: "whisper-small".to_string(),
            label: "loading".to_string(),
            percent: 40_u8,
            error: None,
        },
    );
    assert_eq!(progress.runtime, LocalAsrRuntime::Foundry);
    assert_eq!(progress.phase, LocalAsrPreparePhase::Load);
    assert_eq!((progress.model_alias.as_str(), progress.label.as_str()), ("whisper-small", "loading"));
    assert_eq!((progress.percent, progress.error), (40, None));
}

#[test]
fn counts_wrap_around() {
    let mut generations = NativeGenerations { foundry: u64::MAX, sherpa: 3 };
    generations.invalidate_release(LocalAsrRuntime::Foundry);
    assert_eq!(generations, NativeGenerations { foundry: 0, sherpa: 3 });
    generations.invalidate_release(LocalAsrRuntime::Generic);
    assert_eq!(generations, NativeGenerations { foundry: 0, sherpa: 3 });
}
