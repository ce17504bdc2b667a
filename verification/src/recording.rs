//! Recordings: what is readied before the microphone is opened, and the archive that a recording
//! is kept in.

use vstd::prelude::*;

use crate::errors::{self, BackendError, BackendErrorCode};

verus! {

/// The length of the header before the samples of an archive.
pub const WAV_HEADER_LEN: usize = 44;

/// An archive of 16 bit samples: a header with its two marks, and whole samples behind it.
pub open spec fn is_canonical_wav(wav: Seq<u8>) -> bool {
    &&& wav.len() > WAV_HEADER_LEN
    &&& wav[0] == 0x52 && wav[1] == 0x49 && wav[2] == 0x46 && wav[3] == 0x46
    &&& wav[8] == 0x57 && wav[9] == 0x41 && wav[10] == 0x56 && wav[11] == 0x45
    &&& (wav.len() - WAV_HEADER_LEN) % 2 == 0
}

/// The samples of an archive.
pub fn read_pcm(wav: &[u8]) -> (r: Result<Vec<u8>, BackendError>)
    ensures
        if is_canonical_wav(wav@) {
            r matches Ok(pcm) && pcm@ == wav@.skip(WAV_HEADER_LEN as int)
        } else {
            errors::fails(
                r,
                BackendErrorCode::Persistence,
                "dictation recording archive is not canonical PCM WAV"@,
            )
        },
{
    let n: usize = wav.len();
    if n <= WAV_HEADER_LEN || !(wav[0] == 0x52 && wav[1] == 0x49 && wav[2] == 0x46 && wav[3] == 0x46)
        || !(wav[8] == 0x57 && wav[9] == 0x41 && wav[10] == 0x56 && wav[11] == 0x45) || (n
        - WAV_HEADER_LEN) % 2 != 0 {
        return Err(
            BackendError::new(
                BackendErrorCode::Persistence,
                "dictation recording archive is not canonical PCM WAV",
            ),
        );
    }
    let mut pcm: Vec<u8> = Vec::new();
    let mut i: usize = WAV_HEADER_LEN;
    while i < n
        invariant
            WAV_HEADER_LEN <= i <= n,
            n == wav@.len(),
            pcm@ == wav@.subrange(WAV_HEADER_LEN as int, i as int),
        decreases n - i,
    {
        pcm.push(wav[i]);
        assert(wav@.subrange(WAV_HEADER_LEN as int, i as int + 1) =~= wav@.subrange(
            WAV_HEADER_LEN as int,
            i as int,
        ).push(wav@[i as int]));
        i += 1;
    }
    assert(pcm@ =~= wav@.skip(WAV_HEADER_LEN as int));
    Ok(pcm)
}

/// What was put behind a header comes out again, as long as it is whole samples and not nothing.
pub proof fn archived_samples_read_back(header: Seq<u8>, pcm: Seq<u8>)
    requires
        header.len() == WAV_HEADER_LEN,
        header.subrange(0, 4) == seq![0x52u8, 0x49u8, 0x46u8, 0x46u8],
        header.subrange(8, 12) == seq![0x57u8, 0x41u8, 0x56u8, 0x45u8],
        pcm.len() > 0,
        pcm.len() % 2 == 0,
    ensures
        is_canonical_wav(header + pcm),
        (header + pcm).skip(WAV_HEADER_LEN as int) == pcm,
{
    let wav = header + pcm;
    assert forall|i: int| 0 <= i < 4 implies #[trigger] wav[i] == header.subrange(0, 4)[i] by {}
    assert forall|i: int| 8 <= i < 12 implies #[trigger] wav[i] == header.subrange(8, 12)[i
        - 8] by {}
    assert(wav[0] == 0x52 && wav[1] == 0x49 && wav[2] == 0x46 && wav[3] == 0x46);
    assert(wav[8] == 0x57 && wav[9] == 0x41 && wav[10] == 0x56 && wav[11] == 0x45);
    assert(wav.skip(WAV_HEADER_LEN as int) =~= pcm);
}

/// The error for an archive that cannot be read.
pub fn map_archive_read_error(error: &str) -> (r: BackendError)
    ensures
        r@ == errors::plain_error(
            BackendErrorCode::Persistence,
            "read dictation recording archive: "@ + error@,
        ),
{
    BackendError::about(
        BackendErrorCode::Persistence,
        "read dictation recording archive: ",
        error,
    )
}

/// How the removal of a file ended.
#[derive(Debug, Clone, PartialEq, Eq)]
pub enum Removal {
    Removed,
    /// There was no such file.
    NotFound,
    Failed { error: String },
}

/// Whether a recording has an archive.
#[derive(Debug, Clone, Copy, PartialEq, Eq, Structural)]
pub struct RecordingArchive {
    pub available: bool,
}

impl RecordingArchive {
    pub fn new(available: bool) -> (r: RecordingArchive)
        ensures
            r.available == available,
    {
        RecordingArchive { available }
    }

    pub fn is_available(&self) -> (r: bool)
        ensures
            r == self.available,
    {
        self.available
    }

    /// Takes note of the removal of the archive; a file that is gone already counts as removed.
    /// One that is not available is not removed at all.
    pub fn discarded(&mut self, removal: Removal) -> (r: Result<(), BackendError>)
        ensures
            if !old(self).available {
                r is Ok && !final(self).available
            } else {
                match removal {
                    Removal::Failed { error } => {
                        &&& errors::fails(
                            r,
                            BackendErrorCode::Persistence,
                            "discard dictation recording archive: "@ + error@,
                        )
                        &&& final(self).available
                    },
                    _ => r is Ok && !final(self).available,
                }
            },
    {
        if !self.available {
            return Ok(());
        }
        match removal {
            Removal::Removed | Removal::NotFound => {
                self.available = false;
                Ok(())
            },
            Removal::Failed { error } => Err(
                BackendError::about(
                    BackendErrorCode::Persistence,
                    "discard dictation recording archive: ",
                    error.as_str(),
                ),
            ),
        }
    }
}

/// A recording in progress; `R` is the recorder.
#[derive(Debug, PartialEq, Eq)]
pub struct ActiveRecording<R> {
    pub recorder: Option<R>,
    pub archive: Option<RecordingArchive>,
}

impl<R> ActiveRecording<R> {
    /// The recorder to stop. There is one to stop once.
    pub fn stop(&mut self) -> (r: Result<R, BackendError>)
        ensures
            final(self).recorder is None,
            final(self).archive == old(self).archive,
            match old(self).recorder {
                Some(recorder) => r == Ok::<R, BackendError>(recorder),
                None => errors::fails(
                    r,
                    BackendErrorCode::InvalidState,
                    "Tauri recorder was already stopped"@,
                ),
            },
    {
        match self.recorder.take() {
            Some(recorder) => Ok(recorder),
            None => Err(
                BackendError::new(
                    BackendErrorCode::InvalidState,
                    "Tauri recorder was already stopped",
                ),
            ),
        }
    }
}

/// The output was muted or not: its guard, or nothing where that failed.
pub open spec fn muted<M, F: FnOnce() -> Result<M, String>>(activate: F, mute: Option<M>) -> bool {
    exists|outcome: Result<M, String>| #[trigger]
        call_ensures(activate, (), outcome) && mute == (match outcome {
            Ok(guard) => Some(guard),
            Err(_) => None,
        })
}

/// What a recording starts with besides the microphone: the path of its archive, and the guard of
/// the muted output. Either may fail without keeping the microphone from being opened.
pub fn prepare_recording_options<A, E, M, F: FnOnce() -> Result<M, String>>(
    archive_path: Result<Option<A>, E>,
    mute_enabled: bool,
    activate_mute: F,
) -> (r: (Option<A>, Option<M>))
    requires
        mute_enabled ==> call_requires(activate_mute, ()),
    ensures
        r.0 == (match archive_path {
            Ok(path) => path,
            Err(_) => None,
        }),
        if mute_enabled {
            muted(activate_mute, r.1)
        } else {
            r.1 is None
        },
{
    let archive: Option<A> = match archive_path {
        Ok(path) => path,
        Err(_) => None,
    };
    if !mute_enabled {
        return (archive, None);
    }
    let outcome: Result<M, String> = activate_mute();
    let ghost said = outcome;
    let mute: Option<M> = match outcome {
        Ok(guard) => Some(guard),
        Err(_) => None,
    };
    assert(call_ensures(activate_mute, (), said));
    (archive, mute)
}

/// Why a recorder failed.
#[derive(Debug, Clone, Copy, PartialEq, Eq, Structural)]
pub enum RecorderFailure {
    PermissionDenied,
    NoInputDevice,
    EngineFailed,
}

/// The error for a recorder that failed, in the words for the user.
pub fn map_recorder_error(failure: RecorderFailure, user_message: &str) -> (r: BackendError)
    ensures
        r@ == errors::plain_error(
            if failure is PermissionDenied {
                BackendErrorCode::PermissionDenied
            } else {
                BackendErrorCode::Platform
            },
            user_message@,
        ),
{
    let code: BackendErrorCode = match failure {
        RecorderFailure::PermissionDenied => BackendErrorCode::PermissionDenied,
        RecorderFailure::NoInputDevice | RecorderFailure::EngineFailed =>
            BackendErrorCode::Platform,
    };
    BackendError::new(code, user_message)
}

/// What is left to do once the recorder has been started, or has failed to.
#[derive(Debug, PartialEq, Eq)]
pub enum RecorderStart<R> {
    Running(ActiveRecording<R>),
    /// `remove_partial` says that a file may have been begun, which nobody will read.
    Failed { error: BackendError, remove_partial: bool },
}

/// What is left to do once the recorder has been started, or has failed to. `archived` says that
/// a path for the archive was found, and a start says whether the archive is being written.
pub fn recorder_started<R>(
    started: Result<(R, bool), (RecorderFailure, String)>,
    archived: bool,
) -> (r: RecorderStart<R>)
    ensures
        match started {
            Ok((recorder, archive_active)) => r == RecorderStart::Running(
                ActiveRecording {
                    recorder: Some(recorder),
                    archive: if archived {
                        Some(RecordingArchive { available: archive_active })
                    } else {
                        None
                    },
                },
            ),
            Err((failure, message)) => {
                &&& r matches RecorderStart::Failed { error, remove_partial }
                &&& remove_partial == archived
                &&& error@ == errors::plain_error(
                    if failure is PermissionDenied {
                        BackendErrorCode::PermissionDenied
                    } else {
                        BackendErrorCode::Platform
                    },
                    message@,
                )
            },
        },
{
    match started {
        Ok((recorder, archive_active)) => {
            let archive: Option<RecordingArchive> = if archived {
                Some(RecordingArchive::new(archive_active))
            } else {
                None
            };
            assert(archived ==> archive == Some(RecordingArchive { available: archive_active }));
            RecorderStart::Running(ActiveRecording { recorder: Some(recorder), archive })
        },
        Err((failure, message)) => RecorderStart::Failed {
            error: map_recorder_error(failure, message.as_str()),
            remove_partial: archived,
        },
    }
}

/// Whether a fault that could not be reported is worth a line in the log. One that came after its
/// session ended is not.
pub fn unreported_fault_is_logged(code: BackendErrorCode) -> (r: bool)
    ensures
        r == !(code is InvalidState),
{
    code != BackendErrorCode::InvalidState
}

/// An archive is read where it begins as a WAV file does and its samples are whole; what is read is
/// all that follows the header. Anything else is refused.
pub proof fn archives_read_back_their_samples(
    wav: &[u8],
    header: Seq<u8>,
    pcm: Seq<u8>,
    r: Result<Vec<u8>, BackendError>,
)
    requires
        header.len() == 44,
        wav@ == header + pcm,
        call_ensures(read_pcm, (wav,), r),
    ensures
        r is Ok <==> {
            &&& pcm.len() > 0 && pcm.len() % 2 == 0
            &&& header.subrange(0, 4) == seq![0x52u8, 0x49u8, 0x46u8, 0x46u8]
            &&& header.subrange(8, 12) == seq![0x57u8, 0x41u8, 0x56u8, 0x45u8]
        },
        r is Ok ==> r->Ok_0@ == pcm,
        r matches Err(e) ==> e.code is Persistence && e.message@
            == "dictation recording archive is not canonical PCM WAV"@,
{
    assert((header + pcm).skip(44) =~= pcm);
    let riff = header.subrange(0, 4);
    let wave = header.subrange(8, 12);
    assert(riff[0] == wav@[0] && riff[1] == wav@[1] && riff[2] == wav@[2] && riff[3] == wav@[3]);
    assert(wave[0] == wav@[8] && wave[1] == wav@[9] && wave[2] == wav@[10] && wave[3] == wav@[11]);
    if is_canonical_wav(wav@) {
        assert(riff =~= seq![0x52u8, 0x49u8, 0x46u8, 0x46u8]);
        assert(wave =~= seq![0x57u8, 0x41u8, 0x56u8, 0x45u8]);
    }
}

/// A file that is no longer than a header is no archive.
pub proof fn short_files_are_no_archives(
    wav: &[u8],
    r: Result<Vec<u8>, BackendError>,
    error: &str,
    mapped: BackendError,
)
    requires
        wav@.len() <= 44,
        call_ensures(read_pcm, (wav,), r),
        call_ensures(map_archive_read_error, (error,), mapped),
    ensures
        r is Err,
        mapped.code is Persistence && mapped.message@ == "read dictation recording archive: "@
            + error@,
{
}

/// An archive is gone once it was discarded, whether it was removed or was not there; it stays where
/// it could not be removed. Discarding it again does nothing.
pub proof fn archives_are_discarded_once(
    available: bool,
    fresh: RecordingArchive,
    archive: &RecordingArchive,
    is_available: bool,
    first: &mut RecordingArchive,
    removal: Removal,
    r: Result<(), BackendError>,
)
    requires
        call_ensures(RecordingArchive::new, (available,), fresh),
        call_ensures(RecordingArchive::is_available, (archive,), is_available),
        call_ensures(RecordingArchive::discarded, (first, removal), r),
    ensures
        fresh.available == available,
        is_available == archive.available,
        r is Err <==> old(first).available && removal is Failed,
        final(first).available <==> r is Err,
        r matches Err(e) ==> e.code is Persistence && e.message@
            == "discard dictation recording archive: "@ + removal->error@,
{
}

/// A recording is stopped once, and hands out its recorder then.
pub proof fn recordings_are_stopped_once<R>(
    first: &mut ActiveRecording<R>,
    r: Result<R, BackendError>,
    second: &mut ActiveRecording<R>,
    again: Result<R, BackendError>,
)
    requires
        call_ensures(ActiveRecording::<R>::stop, (first,), r),
        *old(second) == *final(first),
        call_ensures(ActiveRecording::<R>::stop, (second,), again),
    ensures
        r is Ok <==> old(first).recorder is Some,
        r is Ok ==> r->Ok_0 == old(first).recorder->0,
        again is Err && (again->Err_0).code is InvalidState && (again->Err_0).message@
            == "Tauri recorder was already stopped"@,
        final(second).archive == old(first).archive,
{
}

/// A recording goes on without an archive whose path is not known, and without muting that failed or
/// is switched off.
pub proof fn options_that_fail_are_left_out<A, E, M, F: FnOnce() -> Result<M, String>>(
    path: Result<Option<A>, E>,
    mute_enabled: bool,
    activate: F,
    outcome: Result<M, String>,
    r: (Option<A>, Option<M>),
)
    requires
        forall|x: Result<M, String>| #[trigger] call_ensures(activate, (), x) ==> x == outcome,
        call_ensures(
            prepare_recording_options::<A, E, M, F>,
            (path, mute_enabled, activate),
            r,
        ),
    ensures
        path is Ok ==> r.0 == path->Ok_0,
        path is Err ==> r.0 is None,
        r.1 is Some <==> mute_enabled && outcome is Ok,
        r.1 is Some ==> r.1->0 == outcome->Ok_0,
{
}

/// A recorder that started runs with its archive, where there is one. One that did not start says
/// why, and what it may have written is removed where it had an archive.
pub proof fn recorders_start_or_say_why<R>(
    started: Result<(R, bool), (RecorderFailure, String)>,
    archived: bool,
    r: RecorderStart<R>,
    failure: RecorderFailure,
    message: &str,
    mapped: BackendError,
    code: BackendErrorCode,
    logged: bool,
)
    requires
        call_ensures(recorder_started::<R>, (started, archived), r),
        call_ensures(map_recorder_error, (failure, message), mapped),
        call_ensures(unreported_fault_is_logged, (code,), logged),
    ensures
        r is Running <==> started is Ok,
        r matches RecorderStart::Running(active) ==> {
            &&& active.recorder == Some((started->Ok_0).0)
            &&& active.archive is Some <==> archived
            &&& archived ==> active.archive->0.available == (started->Ok_0).1
        },
        r matches RecorderStart::Failed { error, remove_partial } ==> {
            &&& remove_partial == archived
            &&& error.message@ == (started->Err_0).1@
            &&& error.code is PermissionDenied <==> (started->Err_0).0 is PermissionDenied
            &&& error.code is PermissionDenied || error.code is Platform
        },
        mapped.message@ == message@ && !mapped.retryable,
        failure is PermissionDenied ==> mapped.code is PermissionDenied,
        failure is NoInputDevice || failure is EngineFailed ==> mapped.code is Platform,
        logged <==> !(code is InvalidState),
{
}

} // verus!
