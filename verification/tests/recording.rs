use openless::errors::BackendErrorCode;
use openless::recording::{
    map_archive_read_error, map_recorder_error, prepare_recording_options, read_pcm,
    recorder_started, unreported_fault_is_logged, ActiveRecording, RecorderFailure, RecorderStart,
    RecordingArchive, Removal,
};
use std::path::PathBuf;
use std::sync::atomic::{AtomicU64, Ordering};
use std::sync::Arc;

#[test]
fn optional_recording_preparation_failure_keeps_microphone_options_usable() {
    let mut options = Vec::new();
    for (archive_fails, mute_fails) in [(true, false), (false, true), (true, true)] {
        let archive_result = if archive_fails {
            Err("recordings directory cannot be created")
        } else {
            Ok(Some(PathBuf::from("fixture.wav")))
        };
        let (archive, mute) = prepare_recording_options(archive_result, true, || {
            if mute_fails {
                Err("default render endpoint is unavailable".to_string())
            } else {
                Ok(())
            }
        });
        options.push((archive.is_some(), mute.is_some()));
    }
    assert_eq!(
        options,
        vec![(false, true), (true, false), (false, false)],
        "optional effects must not prevent capture"
    );
}

#[test]
fn optional_recording_preparation_preserves_guard_ownership_and_disabled_behavior() {
    struct MuteGuard(Arc<AtomicU64>);
    impl Drop for MuteGuard {
        fn drop(&mut self) {
            self.0.fetch_add(1, Ordering::SeqCst);
        }
    }
    let restored = Arc::new(AtomicU64::new(0));
    let path = PathBuf::from("fixture.wav");
    let (archive, mute) =
        prepare_recording_options(Ok::<_, String>(Some(path.clone())), true, || {
            Ok(MuteGuard(Arc::clone(&restored)))
        });
    assert_eq!(archive, Some(path.clone()));
    assert_eq!(restored.load(Ordering::SeqCst), 0);
    drop(mute);
    assert_eq!(restored.load(Ordering::SeqCst), 1);
    let (archive, mute) = prepare_recording_options(
        Ok::<Option<PathBuf>, String>(None),
        false,
        || -> Result<(), String> { panic!("disabled muting must not call the platform") },
    );
    assert!(archive.is_none());
    assert!(mute.is_none());
    let (archive, mute) = prepare_recording_options(
        Ok::<_, String>(Some(path.clone())),
        false,
        || -> Result<(), String> { panic!("disabled muting must not call the platform") },
    );
    assert_eq!(archive, Some(path));
    assert!(mute.is_none());
}

fn wav(pcm: &[u8]) -> Vec<u8> {
    let mut bytes = vec![0_u8; 44];
    bytes[..4].copy_from_slice(b"RIFF");
    bytes[8..12].copy_from_slice(b"WAVE");
    bytes.extend_from_slice(pcm);
    bytes
}

#[test]
fn archived_samples_come_back() {
    assert_eq!(read_pcm(&wav(&[1, 2, 3, 4])), Ok(vec![1, 2, 3, 4]));
}

#[test]
fn what_is_no_archive_is_refused() {
    let mut no_riff = wav(&[1, 2]);
    no_riff[0] = b'X';
    let mut no_wave = wav(&[1, 2]);
    no_wave[11] = b'X';
    for bytes in [vec![], wav(&[]), wav(&[1]), wav(&[1, 2, 3]), no_riff, no_wave] {
        let error = read_pcm(&bytes).unwrap_err();
        assert_eq!(error.code, BackendErrorCode::Persistence);
        assert_eq!(error.message, "dictation recording archive is not canonical PCM WAV");
    }
    assert_eq!(
        map_archive_read_error("denied").message,
        "read dictation recording archive: denied"
    );
}

#[test]
fn an_archive_is_discarded_once() {
    let mut archive = RecordingArchive::new(true);
    assert!(archive.is_available());
    let error = archive
        .discarded(Removal::Failed { error: "busy".to_string() })
        .unwrap_err();
    assert_eq!(error.message, "discard dictation recording archive: busy");
    assert!(archive.is_available());
    assert_eq!(archive.discarded(Removal::NotFound), Ok(()));
    assert!(!archive.is_available());
    assert_eq!(archive.discarded(Removal::Failed { error: "busy".to_string() }), Ok(()));
    let mut removed = RecordingArchive::new(true);
    assert_eq!(removed.discarded(Removal::Removed), Ok(()));
    assert!(!removed.is_available());
}

#[test]
fn a_recorder_is_stopped_once() {
    let mut recording = ActiveRecording { recorder: Some(3), archive: None };
    assert_eq!(recording.stop(), Ok(3));
    let error = recording.stop().unwrap_err();
    assert_eq!(error.code, BackendErrorCode::InvalidState);
    assert_eq!(error.message, "Tauri recorder was already stopped");
}

#[test]
fn a_recorder_that_fails_leaves_no_partial_file() {
    let failed: RecorderStart<u8> = recorder_started(
        Err((RecorderFailure::PermissionDenied, "no microphone".to_string())),
        true,
    );
    match failed {
        RecorderStart::Failed { error, remove_partial } => {
            assert_eq!(error.code, BackendErrorCode::PermissionDenied);
            assert_eq!(error.message, "no microphone");
            assert!(remove_partial);
        }
        other => panic!("{other:?}"),
    }
    assert_eq!(
        recorder_started(Ok((1, true)), true),
        RecorderStart::Running(ActiveRecording {
            recorder: Some(1),
            archive: Some(RecordingArchive { available: true }),
        })
    );
    assert_eq!(
        recorder_started(Ok((1, false)), false),
        RecorderStart::Running(ActiveRecording { recorder: Some(1), archive: None })
    );
    for failure in [RecorderFailure::NoInputDevice, RecorderFailure::EngineFailed] {
        assert_eq!(map_recorder_error(failure, "x").code, BackendErrorCode::Platform);
    }
    assert!(!unreported_fault_is_logged(BackendErrorCode::InvalidState));
    assert!(unreported_fault_is_logged(BackendErrorCode::Internal));
}
