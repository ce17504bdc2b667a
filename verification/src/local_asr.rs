//! Local speech models: which runtime serves them, and how one is inspected, prepared, leased,
//! preloaded and released.

use vstd::prelude::*;

use crate::errors::{self, BackendError, BackendErrorCode};
use crate::platform::TargetOs;
use crate::preferences::{LocalAsrFamily, LocalAsrModel};
use crate::text::{self, same};

verus! {

/// The runtime that loads a local model.
#[derive(Debug, Clone, Copy, PartialEq, Eq, Structural)]
pub enum LocalAsrRuntime {
    Generic,
    Foundry,
    SherpaOnnx,
}

/// A model of a runtime.
#[derive(Debug, Clone, PartialEq, Eq)]
pub struct LocalAsrTarget {
    pub runtime: LocalAsrRuntime,
    pub model_id: String,
}

/// The runtime and the id that a target names.
pub struct TargetParts {
    pub runtime: LocalAsrRuntime,
    pub model_id: Seq<char>,
}

impl View for LocalAsrTarget {
    type V = TargetParts;

    open spec fn view(&self) -> TargetParts {
        TargetParts { runtime: self.runtime, model_id: self.model_id@ }
    }
}

/// Generic models run on macOS and Linux, the native runtimes on Windows.
pub open spec fn runs_on(runtime: LocalAsrRuntime, target: TargetOs) -> bool {
    match runtime {
        LocalAsrRuntime::Generic => target is Macos || target is Linux,
        _ => target is Windows,
    }
}

/// Whether the runtime exists on the platform.
pub fn engine_available(runtime: LocalAsrRuntime, target: TargetOs) -> (r: bool)
    ensures
        r == runs_on(runtime, target),
{
    match runtime {
        LocalAsrRuntime::Generic => target == TargetOs::Macos || target == TargetOs::Linux,
        _ => target == TargetOs::Windows,
    }
}

/// Whether the catalog knows the model, in this family.
pub open spec fn of_family(model: Option<LocalAsrModel>, family: LocalAsrFamily) -> bool {
    model matches Some(m) && m.family == family
}

fn is_of_family(model: &Option<LocalAsrModel>, family: LocalAsrFamily) -> (r: bool)
    ensures
        r == of_family(*model, family),
{
    match model {
        Some(m) => m.family == family,
        None => false,
    }
}

/// Whether the runtime serves the model on the platform; `model` is what the catalog knows of it.
/// Linux serves no generic model but Qwen's.
pub fn supports_model(
    runtime: LocalAsrRuntime,
    model: &Option<LocalAsrModel>,
    target: TargetOs,
) -> (r: bool)
    ensures
        r == (runs_on(runtime, target) && (runtime is Generic && target is Linux ==> of_family(
            *model,
            LocalAsrFamily::Qwen,
        ))),
{
    if runtime == LocalAsrRuntime::Generic && target == TargetOs::Linux {
        is_of_family(model, LocalAsrFamily::Qwen)
    } else {
        engine_available(runtime, target)
    }
}

/// The generic model behind a target: what the catalog knows of it, or the error that it knows
/// none.
pub fn native_local_asr_model(target: &LocalAsrTarget, model: &Option<LocalAsrModel>) -> (r: Result<
    LocalAsrModel,
    BackendError,
>)
    ensures
        match *model {
            Some(m) => r == Ok::<LocalAsrModel, BackendError>(m),
            None => errors::fails(
                r,
                BackendErrorCode::InvalidArgument,
                "unknown generic local ASR model: "@ + target.model_id@,
            ),
        },
{
    match model {
        Some(m) => Ok(LocalAsrModel { id: m.id.clone(), family: m.family }),
        None => Err(
            BackendError::about(
                BackendErrorCode::InvalidArgument,
                "unknown generic local ASR model: ",
                target.model_id.as_str(),
            ),
        ),
    }
}

/// What the Foundry runtime reports of one of its models.
#[derive(Debug, Clone, PartialEq, Eq)]
pub struct NativeModelReport {
    pub alias: String,
    pub cached: bool,
    pub size_bytes: Option<u64>,
    pub display_name: Option<String>,
}

/// What is known of a model that a native runtime keeps.
#[derive(Debug, Clone, PartialEq, Eq)]
pub struct NativeModelState {
    pub target: LocalAsrTarget,
    pub installed: bool,
    pub size_bytes: Option<u64>,
    pub display_name: Option<String>,
}

/// The ids of the Foundry models among the targets, in their order.
pub open spec fn foundry_ids(targets: Seq<LocalAsrTarget>) -> Seq<Seq<char>>
    decreases targets.len(),
{
    if targets.len() == 0 {
        Seq::empty()
    } else if targets.last().runtime is Foundry {
        foundry_ids(targets.drop_last()).push(targets.last().model_id@)
    } else {
        foundry_ids(targets.drop_last())
    }
}

/// The aliases to ask the Foundry runtime about. Where there are none, it need not be asked.
pub fn foundry_aliases(targets: &Vec<LocalAsrTarget>) -> (r: Vec<String>)
    ensures
        text::texts(r@) == foundry_ids(targets@),
{
    let mut r: Vec<String> = Vec::new();
    let mut i: usize = 0;
    while i < targets.len()
        invariant
            i <= targets.len(),
            text::texts(r@) == foundry_ids(targets@.take(i as int)),
        decreases targets.len() - i,
    {
        let ghost before = r@;
        assert(targets@.take(i as int + 1).drop_last() =~= targets@.take(i as int));
        if targets[i].runtime == LocalAsrRuntime::Foundry {
            r.push(targets[i].model_id.clone());
            assert(text::texts(r@) =~= text::texts(before).push(targets@[i as int].model_id@));
        }
        i += 1;
    }
    assert(targets@.take(i as int) =~= targets@);
    r
}

/// The targets name a Foundry model with this id.
pub open spec fn names_foundry(targets: Seq<LocalAsrTarget>, id: Seq<char>) -> bool {
    exists|i: int|
        0 <= i < targets.len() && (#[trigger] targets[i]).runtime is Foundry && targets[i].model_id@
            == id
}

/// The reports on models that the targets name, in the order of the reports.
pub open spec fn wanted_reports(
    targets: Seq<LocalAsrTarget>,
    reports: Seq<NativeModelReport>,
) -> Seq<NativeModelReport>
    decreases reports.len(),
{
    if reports.len() == 0 {
        Seq::empty()
    } else if names_foundry(targets, reports.last().alias@) {
        wanted_reports(targets, reports.drop_last()).push(reports.last())
    } else {
        wanted_reports(targets, reports.drop_last())
    }
}

/// The state says of a Foundry model what the report says.
pub open spec fn state_follows(state: NativeModelState, report: NativeModelReport) -> bool {
    &&& state.target@ == (TargetParts {
        runtime: LocalAsrRuntime::Foundry,
        model_id: report.alias@,
    })
    &&& state.installed == report.cached
    &&& state.size_bytes == report.size_bytes
    &&& state.display_name == report.display_name
}

fn has_foundry_target(targets: &Vec<LocalAsrTarget>, id: &str) -> (r: bool)
    ensures
        r == names_foundry(targets@, id@),
{
    let mut i: usize = 0;
    while i < targets.len()
        invariant
            i <= targets.len(),
            forall|j: int|
                0 <= j < i ==> !((#[trigger] targets@[j]).runtime is Foundry
                    && targets@[j].model_id@ == id@),
        decreases targets.len() - i,
    {
        if targets[i].runtime == LocalAsrRuntime::Foundry && same(targets[i].model_id.as_str(), id) {
            return true;
        }
        i += 1;
    }
    false
}

/// What the Foundry runtime's reports say of the targets. A report on a model that was not asked
/// about is passed over.
pub fn inspect_native_models(targets: &Vec<LocalAsrTarget>, reports: Vec<NativeModelReport>) -> (r:
    Vec<NativeModelState>)
    ensures
        r.len() == wanted_reports(targets@, reports@).len(),
        forall|i: int|
            0 <= i < r.len() ==> state_follows(
                #[trigger] r@[i],
                wanted_reports(targets@, reports@)[i],
            ),
{
    let mut r: Vec<NativeModelState> = Vec::new();
    let mut i: usize = 0;
    while i < reports.len()
        invariant
            i <= reports.len(),
            r.len() == wanted_reports(targets@, reports@.take(i as int)).len(),
            forall|j: int|
                0 <= j < r.len() ==> state_follows(
                    #[trigger] r@[j],
                    wanted_reports(targets@, reports@.take(i as int))[j],
                ),
        decreases reports.len() - i,
    {
        assert(reports@.take(i as int + 1).drop_last() =~= reports@.take(i as int));
        let report = &reports[i];
        if has_foundry_target(targets, report.alias.as_str()) {
            r.push(
                NativeModelState {
                    target: LocalAsrTarget {
                        runtime: LocalAsrRuntime::Foundry,
                        model_id: report.alias.clone(),
                    },
                    installed: report.cached,
                    size_bytes: report.size_bytes,
                    display_name: report.display_name.clone(),
                },
            );
        }
        i += 1;
    }
    assert(reports@.take(i as int) =~= reports@);
    r
}

/// Whether the directory of a model is the one that the model store gives; only Foundry keeps its
/// models elsewhere.
pub fn uses_store_directory(runtime: LocalAsrRuntime) -> (r: bool)
    ensures
        r == !(runtime is Foundry),
{
    runtime != LocalAsrRuntime::Foundry
}

/// Whether the native runtime may be asked to delete a model.
pub fn delete_native_model(runtime: LocalAsrRuntime) -> (r: Result<(), BackendError>)
    ensures
        r is Ok <==> runtime is Foundry,
        r is Err ==> errors::fails(
            r,
            BackendErrorCode::Unsupported,
            "only Foundry uses native model deletion"@,
        ),
{
    if runtime == LocalAsrRuntime::Foundry {
        Ok(())
    } else {
        Err(
            BackendError::new(
                BackendErrorCode::Unsupported,
                "only Foundry uses native model deletion",
            ),
        )
    }
}

/// What a change of the model directory asks of the user.
#[derive(Debug, Clone, Copy, PartialEq, Eq, Structural)]
pub enum StorageRebind {
    Applied,
    RestartRequired,
}

/// Which cache or runtime knows what is loaded.
#[derive(Debug, Clone, Copy, PartialEq, Eq, Structural)]
pub enum StatusSource {
    Nothing,
    QwenCache,
    WhisperCache,
    Foundry,
    Sherpa,
}

/// Where to look for what is loaded; `model` is what the catalog knows of the active model.
pub fn status_source(
    runtime: LocalAsrRuntime,
    model: &Option<LocalAsrModel>,
    target: TargetOs,
) -> (r: StatusSource)
    ensures
        r == (match runtime {
            LocalAsrRuntime::Foundry => StatusSource::Foundry,
            LocalAsrRuntime::SherpaOnnx => StatusSource::Sherpa,
            LocalAsrRuntime::Generic => if target is Macos && of_family(
                *model,
                LocalAsrFamily::Whisper,
            ) {
                StatusSource::WhisperCache
            } else if target is Macos || target is Linux {
                StatusSource::QwenCache
            } else {
                StatusSource::Nothing
            },
        }),
{
    match runtime {
        LocalAsrRuntime::Foundry => StatusSource::Foundry,
        LocalAsrRuntime::SherpaOnnx => StatusSource::Sherpa,
        LocalAsrRuntime::Generic => if target == TargetOs::Macos && is_of_family(
            model,
            LocalAsrFamily::Whisper,
        ) {
            StatusSource::WhisperCache
        } else if target == TargetOs::Macos || target == TargetOs::Linux {
            StatusSource::QwenCache
        } else {
            StatusSource::Nothing
        },
    }
}

/// The settings of the active local model.
#[derive(Debug, Clone, PartialEq, Eq)]
pub struct LocalAsrSettings {
    pub runtime: LocalAsrRuntime,
    pub provider_id: String,
    pub engine_available: bool,
    pub active_model: String,
    pub keep_loaded_secs: u32,
}

/// What the runtime in charge says of itself.
#[derive(Debug, Clone, PartialEq, Eq)]
pub enum RuntimeReport {
    /// The model in the cache of the generic runtime.
    Generic { loaded: Option<String> },
    /// The Foundry runtime; `source` is where it was loaded from.
    Foundry {
        provider_id: String,
        available: bool,
        runtime_ready: bool,
        active_model: String,
        loaded_model_id: Option<String>,
        source: String,
        endpoint: Option<String>,
        error: Option<String>,
    },
    Sherpa {
        provider_id: String,
        available: bool,
        runtime_ready: bool,
        active_model: String,
        loaded_model_id: Option<String>,
        error: Option<String>,
        last_error: Option<String>,
        last_prepare_ms: Option<u64>,
        last_transcribe_ms: Option<u64>,
        last_audio_ms: Option<u64>,
    },
}

/// The state of the local runtime, as settings pages show it.
#[derive(Debug, Clone, PartialEq, Eq)]
pub struct LocalAsrRuntimeStatus {
    pub runtime: LocalAsrRuntime,
    pub provider_id: String,
    pub available: bool,
    pub loaded: bool,
    pub active_model: String,
    pub model_id: Option<String>,
    pub keep_loaded_secs: u32,
    pub runtime_source: Option<String>,
    pub endpoint: Option<String>,
    pub operation: Option<String>,
    pub error: Option<String>,
    pub last_error: Option<String>,
    pub last_prepare_ms: Option<u64>,
    pub last_transcribe_ms: Option<u64>,
    pub last_audio_ms: Option<u64>,
}

/// The state of the local runtime: what the native runtimes say of themselves goes before the
/// settings, and a generic model counts as loaded where its cache holds one.
pub fn runtime_status(settings: LocalAsrSettings, report: RuntimeReport) -> (r:
    LocalAsrRuntimeStatus)
    ensures
        r.runtime == settings.runtime,
        r.keep_loaded_secs == settings.keep_loaded_secs,
        r.operation is None,
        match report {
            RuntimeReport::Generic { loaded } => {
                &&& r.provider_id == settings.provider_id
                &&& r.available == settings.engine_available
                &&& r.active_model == settings.active_model
                &&& r.loaded == loaded is Some
                &&& r.model_id == loaded
                &&& r.runtime_source is None
                &&& r.endpoint is None
                &&& r.error is None
                &&& r.last_error is None
                &&& r.last_prepare_ms is None
                &&& r.last_transcribe_ms is None
                &&& r.last_audio_ms is None
            },
            RuntimeReport::Foundry {
                provider_id,
                available,
                runtime_ready,
                active_model,
                loaded_model_id,
                source,
                endpoint,
                error,
            } => {
                &&& r.provider_id == provider_id
                &&& r.available == available
                &&& r.active_model == active_model
                &&& r.loaded == runtime_ready
                &&& r.model_id == loaded_model_id
                &&& r.runtime_source == Some(source)
                &&& r.endpoint == endpoint
                &&& r.error == error
                &&& r.last_error is None
                &&& r.last_prepare_ms is None
                &&& r.last_transcribe_ms is None
                &&& r.last_audio_ms is None
            },
            RuntimeReport::Sherpa {
                provider_id,
                available,
                runtime_ready,
                active_model,
                loaded_model_id,
                error,
                last_error,
                last_prepare_ms,
                last_transcribe_ms,
                last_audio_ms,
            } => {
                &&& r.provider_id == provider_id
                &&& r.available == available
                &&& r.active_model == active_model
                &&& r.loaded == runtime_ready
                &&& r.model_id == loaded_model_id
                &&& r.runtime_source is None
                &&& r.endpoint is None
                &&& r.error == error
                &&& r.last_error == last_error
                &&& r.last_prepare_ms == last_prepare_ms
                &&& r.last_transcribe_ms == last_transcribe_ms
                &&& r.last_audio_ms == last_audio_ms
            },
        },
{
    match report {
        RuntimeReport::Generic { loaded } => LocalAsrRuntimeStatus {
            runtime: settings.runtime,
            provider_id: settings.provider_id,
            available: settings.engine_available,
            loaded: loaded.is_some(),
            active_model: settings.active_model,
            model_id: loaded,
            keep_loaded_secs: settings.keep_loaded_secs,
            runtime_source: None,
            endpoint: None,
            operation: None,
            error: None,
            last_error: None,
            last_prepare_ms: None,
            last_transcribe_ms: None,
            last_audio_ms: None,
        },
        RuntimeReport::Foundry {
            provider_id,
            available,
            runtime_ready,
            active_model,
            loaded_model_id,
            source,
            endpoint,
            error,
        } => LocalAsrRuntimeStatus {
            runtime: settings.runtime,
            provider_id,
            available,
            loaded: runtime_ready,
            active_model,
            model_id: loaded_model_id,
            keep_loaded_secs: settings.keep_loaded_secs,
            runtime_source: Some(source),
            endpoint,
            operation: None,
            error,
            last_error: None,
            last_prepare_ms: None,
            last_transcribe_ms: None,
            last_audio_ms: None,
        },
        RuntimeReport::Sherpa {
            provider_id,
            available,
            runtime_ready,
            active_model,
            loaded_model_id,
            error,
            last_error,
            last_prepare_ms,
            last_transcribe_ms,
            last_audio_ms,
        } => LocalAsrRuntimeStatus {
            runtime: settings.runtime,
            provider_id,
            available,
            loaded: runtime_ready,
            active_model,
            model_id: loaded_model_id,
            keep_loaded_secs: settings.keep_loaded_secs,
            runtime_source: None,
            endpoint: None,
            operation: None,
            error,
            last_error,
            last_prepare_ms,
            last_transcribe_ms,
            last_audio_ms,
        },
    }
}

/// How often work on each native runtime began. A release that was put off belongs to the count at
/// which it was ordered, and is dropped when the count has moved on.
#[derive(Debug, Clone, Copy, PartialEq, Eq, Structural)]
pub struct NativeGenerations {
    pub foundry: u64,
    pub sherpa: u64,
}

/// The count after one more piece of work; it wraps around.
pub open spec fn next_generation(n: u64) -> u64 {
    if n == u64::MAX {
        0
    } else {
        (n + 1) as u64
    }
}

impl NativeGenerations {
    pub fn new() -> (r: NativeGenerations)
        ensures
            r.foundry == 0,
            r.sherpa == 0,
    {
        NativeGenerations { foundry: 0, sherpa: 0 }
    }

    /// The counts after work began on `runtime`.
    pub open spec fn after_work_on(self, runtime: LocalAsrRuntime) -> NativeGenerations {
        match runtime {
            LocalAsrRuntime::Foundry => NativeGenerations {
                foundry: next_generation(self.foundry),
                sherpa: self.sherpa,
            },
            LocalAsrRuntime::SherpaOnnx => NativeGenerations {
                foundry: self.foundry,
                sherpa: next_generation(self.sherpa),
            },
            LocalAsrRuntime::Generic => self,
        }
    }

    /// The count of a native runtime.
    pub open spec fn of(self, runtime: LocalAsrRuntime) -> u64 {
        if runtime is Foundry {
            self.foundry
        } else {
            self.sherpa
        }
    }

    /// Drops the releases that were put off for `runtime`.
    pub fn invalidate_release(&mut self, runtime: LocalAsrRuntime)
        ensures
            *final(self) == old(self).after_work_on(runtime),
    {
        match runtime {
            LocalAsrRuntime::Foundry => {
                self.foundry = self.foundry.wrapping_add(1);
            },
            LocalAsrRuntime::SherpaOnnx => {
                self.sherpa = self.sherpa.wrapping_add(1);
            },
            LocalAsrRuntime::Generic => {},
        }
    }
}

/// Work on one native runtime drops what was put off for it, and leaves the other runtime alone.
pub proof fn work_outdates_its_own_runtime_only(
    counts: NativeGenerations,
    runtime: LocalAsrRuntime,
    other: LocalAsrRuntime,
)
    requires
        !(runtime is Generic),
        !(other is Generic),
    ensures
        counts.after_work_on(runtime).of(other) == counts.of(other) <==> runtime != other,
{
}

/// Work on the generic runtime drops nothing.
pub proof fn generic_work_outdates_nothing(counts: NativeGenerations)
    ensures
        counts.after_work_on(LocalAsrRuntime::Generic) == counts,
{
}

/// The stage that the preparation of a model has reached.
#[derive(Debug, Clone, Copy, PartialEq, Eq, Structural)]
pub enum LocalAsrPreparePhase {
    Runtime,
    Model,
    Load,
    Finished,
    Failed,
}

/// What a native runtime reports while it prepares a model; `P` is its measure of progress.
#[derive(Debug, Clone, PartialEq, Eq)]
pub struct PrepareReport<P> {
    pub phase: LocalAsrPreparePhase,
    pub model_alias: String,
    pub label: String,
    pub percent: P,
    pub error: Option<String>,
}

/// What is published while a native runtime prepares a model.
#[derive(Debug, Clone, PartialEq, Eq)]
pub struct LocalAsrPrepareProgress<P> {
    pub runtime: LocalAsrRuntime,
    pub phase: LocalAsrPreparePhase,
    pub model_alias: String,
    pub label: String,
    pub percent: P,
    pub error: Option<String>,
}

/// A report of a native runtime, under the runtime's name.
pub fn prepare_progress<P>(runtime: LocalAsrRuntime, report: PrepareReport<P>) -> (r:
    LocalAsrPrepareProgress<P>)
    ensures
        r == (LocalAsrPrepareProgress {
            runtime,
            phase: report.phase,
            model_alias: report.model_alias,
            label: report.label,
            percent: report.percent,
            error: report.error,
        }),
{
    LocalAsrPrepareProgress {
        runtime,
        phase: report.phase,
        model_alias: report.model_alias,
        label: report.label,
        percent: report.percent,
        error: report.error,
    }
}

/// How a model is prepared.
#[derive(Debug, Clone, PartialEq, Eq)]
pub enum PreparePlan {
    /// The native runtime loads it.
    LoadNatively,
    /// Nothing is to be done before it is preloaded.
    Ready { model_id: String },
}

/// The state of the adapter to the local runtimes.
#[derive(Debug, Clone, Copy, PartialEq, Eq, Structural)]
pub struct LocalAsrAdapter {
    /// The model directory changed under a Foundry runtime that had its own.
    pub foundry_rebind_pending: bool,
}

impl LocalAsrAdapter {
    pub fn new() -> (r: LocalAsrAdapter)
        ensures
            !r.foundry_rebind_pending,
    {
        LocalAsrAdapter { foundry_rebind_pending: false }
    }

    /// The model directory changed; `locked` says whether the Foundry runtime holds on to the old
    /// one until a restart.
    pub fn rebind_storage(&mut self, locked: bool) -> (r: StorageRebind)
        ensures
            final(self).foundry_rebind_pending == locked,
            r == (if locked {
                StorageRebind::RestartRequired
            } else {
                StorageRebind::Applied
            }),
    {
        self.foundry_rebind_pending = locked;
        if locked {
            StorageRebind::RestartRequired
        } else {
            StorageRebind::Applied
        }
    }

    /// How the model is prepared on the platform; `model` is what the catalog knows of it. A
    /// release that was put off for the runtime is dropped first.
    pub fn prepare(
        &self,
        wanted: &LocalAsrTarget,
        model: &Option<LocalAsrModel>,
        target: TargetOs,
        generations: &mut NativeGenerations,
    ) -> (r: Result<PreparePlan, BackendError>)
        ensures
            *final(generations) == (if target is Windows {
                old(generations).after_work_on(wanted.runtime)
            } else {
                *old(generations)
            }),
            match wanted.runtime {
                LocalAsrRuntime::Foundry => if self.foundry_rebind_pending {
                    errors::fails(
                        r,
                        BackendErrorCode::InvalidState,
                        "Foundry storage changed; restart is required"@,
                    )
                } else {
                    r == Ok::<PreparePlan, BackendError>(PreparePlan::LoadNatively)
                },
                LocalAsrRuntime::SherpaOnnx => r == Ok::<PreparePlan, BackendError>(
                    PreparePlan::LoadNatively,
                ),
                LocalAsrRuntime::Generic => if *model is None {
                    errors::fails(
                        r,
                        BackendErrorCode::InvalidArgument,
                        "unknown generic local ASR model: "@ + wanted.model_id@,
                    )
                } else if target is Macos || (target is Linux && of_family(
                    *model,
                    LocalAsrFamily::Qwen,
                )) {
                    r matches Ok(PreparePlan::Ready { model_id }) && model_id@ == wanted.model_id@
                } else {
                    errors::fails(
                        r,
                        BackendErrorCode::Unsupported,
                        "generic local ASR model is unavailable on this platform"@,
                    )
                },
            },
    {
        if target == TargetOs::Windows {
            generations.invalidate_release(wanted.runtime);
        }
        match wanted.runtime {
            LocalAsrRuntime::Foundry => if self.foundry_rebind_pending {
                Err(
                    BackendError::new(
                        BackendErrorCode::InvalidState,
                        "Foundry storage changed; restart is required",
                    ),
                )
            } else {
                Ok(PreparePlan::LoadNatively)
            },
            LocalAsrRuntime::SherpaOnnx => Ok(PreparePlan::LoadNatively),
            LocalAsrRuntime::Generic => match native_local_asr_model(wanted, model) {
                Err(e) => Err(e),
                Ok(known) => if target == TargetOs::Macos || (target == TargetOs::Linux
                    && known.family == LocalAsrFamily::Qwen) {
                    Ok(PreparePlan::Ready { model_id: wanted.model_id.clone() })
                } else {
                    Err(
                        BackendError::new(
                            BackendErrorCode::Unsupported,
                            "generic local ASR model is unavailable on this platform",
                        ),
                    )
                },
            },
        }
    }
}

/// Whether the preparation of a model can be cancelled.
pub fn cancel_prepare(runtime: LocalAsrRuntime) -> (r: Result<(), BackendError>)
    ensures
        r is Ok <==> !(runtime is Generic),
        r is Err ==> errors::fails(
            r,
            BackendErrorCode::Unsupported,
            "generic local ASR preload has no separate prepare cancellation"@,
        ),
{
    if runtime == LocalAsrRuntime::Generic {
        Err(
            BackendError::new(
                BackendErrorCode::Unsupported,
                "generic local ASR preload has no separate prepare cancellation",
            ),
        )
    } else {
        Ok(())
    }
}

/// What is released.
#[derive(Debug, Clone, Copy, PartialEq, Eq, Structural)]
pub enum ReleasePlan {
    Caches { qwen: bool, whisper: bool },
    Foundry,
    Sherpa,
}

/// What releasing a runtime releases on the platform. A release that was put off is dropped.
pub fn release(runtime: LocalAsrRuntime, target: TargetOs, generations: &mut NativeGenerations) -> (
    r: ReleasePlan)
    ensures
        *final(generations) == (if target is Windows {
            old(generations).after_work_on(runtime)
        } else {
            *old(generations)
        }),
        r == (match runtime {
            LocalAsrRuntime::Generic => ReleasePlan::Caches {
                qwen: target is Macos || target is Linux,
                whisper: target is Macos,
            },
            LocalAsrRuntime::Foundry => ReleasePlan::Foundry,
            LocalAsrRuntime::SherpaOnnx => ReleasePlan::Sherpa,
        }),
{
    if target == TargetOs::Windows {
        generations.invalidate_release(runtime);
    }
    match runtime {
        LocalAsrRuntime::Generic => ReleasePlan::Caches {
            qwen: target == TargetOs::Macos || target == TargetOs::Linux,
            whisper: target == TargetOs::Macos,
        },
        LocalAsrRuntime::Foundry => ReleasePlan::Foundry,
        LocalAsrRuntime::SherpaOnnx => ReleasePlan::Sherpa,
    }
}

/// The cache that a lease is held in.
#[derive(Debug, Clone, Copy, PartialEq, Eq, Structural)]
pub enum LeaseCache {
    Nothing,
    Qwen,
    Whisper,
}

/// The cache that holds the lease of a model; `model` is what the catalog knows of it.
pub open spec fn cache_of_lease(
    runtime: LocalAsrRuntime,
    model: Option<LocalAsrModel>,
    target: TargetOs,
) -> LeaseCache {
    if !(runtime is Generic) {
        LeaseCache::Nothing
    } else if of_family(model, LocalAsrFamily::Qwen) && (target is Macos || target is Linux) {
        LeaseCache::Qwen
    } else if of_family(model, LocalAsrFamily::Whisper) && target is Macos {
        LeaseCache::Whisper
    } else {
        LeaseCache::Nothing
    }
}

/// The cache in which a lease of the model is claimed.
pub fn claim_lease(runtime: LocalAsrRuntime, model: &Option<LocalAsrModel>, target: TargetOs) -> (r:
    LeaseCache)
    ensures
        r == cache_of_lease(runtime, *model, target),
{
    if runtime != LocalAsrRuntime::Generic {
        LeaseCache::Nothing
    } else if is_of_family(model, LocalAsrFamily::Qwen) && (target == TargetOs::Macos || target
        == TargetOs::Linux) {
        LeaseCache::Qwen
    } else if is_of_family(model, LocalAsrFamily::Whisper) && target == TargetOs::Macos {
        LeaseCache::Whisper
    } else {
        LeaseCache::Nothing
    }
}

/// What giving up a lease releases.
#[derive(Debug, Clone, Copy, PartialEq, Eq, Structural)]
pub enum LeaseRelease {
    /// The lease in one cache; the other cache keeps what it holds.
    Lease(LeaseCache),
    /// The whole native runtime.
    Runtime(ReleasePlan),
}

/// What giving up a lease releases: a native runtime as a whole, but of the generic models only
/// the one that the lease is for.
pub fn release_lease(
    runtime: LocalAsrRuntime,
    model: &Option<LocalAsrModel>,
    target: TargetOs,
    generations: &mut NativeGenerations,
) -> (r: LeaseRelease)
    ensures
        *final(generations) == (if target is Windows {
            old(generations).after_work_on(runtime)
        } else {
            *old(generations)
        }),
        r == (match runtime {
            LocalAsrRuntime::Generic => LeaseRelease::Lease(
                cache_of_lease(runtime, *model, target),
            ),
            LocalAsrRuntime::Foundry => LeaseRelease::Runtime(ReleasePlan::Foundry),
            LocalAsrRuntime::SherpaOnnx => LeaseRelease::Runtime(ReleasePlan::Sherpa),
        }),
{
    if runtime != LocalAsrRuntime::Generic {
        LeaseRelease::Runtime(release(runtime, target, generations))
    } else {
        LeaseRelease::Lease(claim_lease(runtime, model, target))
    }
}

/// Whether the sherpa runtime has loaded the model.
pub fn sherpa_is_loaded_for(runtime_ready: bool, loaded: &Option<String>, model_id: &str) -> (r:
    bool)
    ensures
        r == (runtime_ready && text::optional_text(*loaded) == Some(model_id@)),
{
    match loaded {
        Some(id) => runtime_ready && same(id.as_str(), model_id),
        None => false,
    }
}

/// What a provider's id says, as the catalog reads it; `B` is the backend that a Qwen provider
/// runs on.
#[derive(Debug, Clone, PartialEq, Eq)]
pub struct GenericProvider<B> {
    pub is_qwen: bool,
    pub qwen_backend: Option<B>,
    pub is_whisper: bool,
    pub is_apple_speech: bool,
}

/// How a model is preloaded.
#[derive(Debug, Clone, PartialEq, Eq)]
pub enum PreloadPlan<B> {
    /// Preparing it has loaded it.
    AlreadyLoaded,
    LoadQwen { backend: B, model_id: String },
    LoadWhisper { model_id: String },
}

/// How the model is preloaded on the platform for the provider; `model` is what the catalog knows
/// of it, and `prepared` whether its native runtime has loaded it.
pub fn preload_for_lease<B>(
    wanted: &LocalAsrTarget,
    model: &Option<LocalAsrModel>,
    provider_type: &str,
    provider: GenericProvider<B>,
    prepared: bool,
    target: TargetOs,
) -> (r: Result<PreloadPlan<B>, BackendError>)
    ensures
        if !(wanted.runtime is Generic) {
            if !(target is Windows) {
                errors::fails(
                    r,
                    BackendErrorCode::Unsupported,
                    "Foundry and Sherpa are only available on Windows"@,
                )
            } else if prepared {
                r == Ok::<PreloadPlan<B>, BackendError>(PreloadPlan::AlreadyLoaded)
            } else {
                errors::fails(
                    r,
                    BackendErrorCode::InvalidState,
                    "prepare the selected native ASR model before preload"@,
                )
            }
        } else if !(target is Macos || target is Linux) {
            errors::fails(
                r,
                BackendErrorCode::Unsupported,
                "generic local ASR provider is unavailable: "@ + provider_type@,
            )
        } else if *model is None {
            errors::fails(
                r,
                BackendErrorCode::InvalidArgument,
                "unknown generic local ASR model: "@ + wanted.model_id@,
            )
        } else if provider.is_qwen {
            if provider.qwen_backend is None {
                errors::fails(
                    r,
                    BackendErrorCode::Unsupported,
                    "Qwen backend is unavailable: "@ + provider_type@,
                )
            } else if !of_family(*model, LocalAsrFamily::Qwen) {
                errors::fails(
                    r,
                    BackendErrorCode::InvalidArgument,
                    "Qwen provider requires a Qwen model"@,
                )
            } else {
                r matches Ok(PreloadPlan::LoadQwen { backend, model_id }) && backend
                    == provider.qwen_backend->0 && model_id@ == (*model)->0.id@
            }
        } else if target is Macos && provider.is_whisper {
            r matches Ok(PreloadPlan::LoadWhisper { model_id }) && model_id@ == wanted.model_id@
        } else {
            errors::fails(
                r,
                BackendErrorCode::Unsupported,
                "generic local ASR provider is unavailable: "@ + provider_type@,
            )
        },
{
    if wanted.runtime != LocalAsrRuntime::Generic {
        if target != TargetOs::Windows {
            return Err(
                BackendError::new(
                    BackendErrorCode::Unsupported,
                    "Foundry and Sherpa are only available on Windows",
                ),
            );
        }
        if prepared {
            return Ok(PreloadPlan::AlreadyLoaded);
        }
        return Err(
            BackendError::new(
                BackendErrorCode::InvalidState,
                "prepare the selected native ASR model before preload",
            ),
        );
    }
    if target == TargetOs::Macos || target == TargetOs::Linux {
        let known: LocalAsrModel = match native_local_asr_model(wanted, model) {
            Err(e) => return Err(e),
            Ok(known) => known,
        };
        if provider.is_qwen {
            return match provider.qwen_backend {
                None => Err(
                    BackendError::about(
                        BackendErrorCode::Unsupported,
                        "Qwen backend is unavailable: ",
                        provider_type,
                    ),
                ),
                Some(backend) => if known.family == LocalAsrFamily::Qwen {
                    Ok(PreloadPlan::LoadQwen { backend, model_id: known.id })
                } else {
                    Err(
                        BackendError::new(
                            BackendErrorCode::InvalidArgument,
                            "Qwen provider requires a Qwen model",
                        ),
                    )
                },
            };
        }
        if target == TargetOs::Macos && provider.is_whisper {
            return Ok(PreloadPlan::LoadWhisper { model_id: wanted.model_id.clone() });
        }
    }
    Err(
        BackendError::about(
            BackendErrorCode::Unsupported,
            "generic local ASR provider is unavailable: ",
            provider_type,
        ),
    )
}

/// The model to try out, where the runtime offers a trial; `model` is what the catalog knows of it.
pub fn test_model(wanted: &LocalAsrTarget, model: &Option<LocalAsrModel>) -> (r: Result<
    LocalAsrModel,
    BackendError,
>)
    ensures
        if !(wanted.runtime is Generic) {
            errors::fails(
                r,
                BackendErrorCode::Unsupported,
                "native model smoke test is only available for generic local ASR"@,
            )
        } else {
            match *model {
                Some(m) => r == Ok::<LocalAsrModel, BackendError>(m),
                None => errors::fails(
                    r,
                    BackendErrorCode::InvalidArgument,
                    "unknown generic local ASR model: "@ + wanted.model_id@,
                ),
            }
        },
{
    if wanted.runtime != LocalAsrRuntime::Generic {
        return Err(
            BackendError::new(
                BackendErrorCode::Unsupported,
                "native model smoke test is only available for generic local ASR",
            ),
        );
    }
    native_local_asr_model(wanted, model)
}

/// Whether a change of the provider makes the runtime forget how it reached its model.
pub fn invalidate_route(runtime: LocalAsrRuntime) -> (r: bool)
    ensures
        r == (runtime is Foundry),
{
    runtime == LocalAsrRuntime::Foundry
}

/// The generic runtime runs on macOS and Linux, where Linux has Qwen models alone; the native
/// runtimes run on Windows.
pub proof fn runtimes_have_their_systems(
    runtime: LocalAsrRuntime,
    model: &Option<LocalAsrModel>,
    target: TargetOs,
    available: bool,
    supported: bool,
)
    requires
        call_ensures(engine_available, (runtime, target), available),
        call_ensures(supports_model, (runtime, model, target), supported),
    ensures
        runtime is Generic ==> (available <==> target is Macos || target is Linux),
        runtime is Foundry || runtime is SherpaOnnx ==> (available <==> target is Windows),
        supported ==> available,
        available && !(runtime is Generic && target is Linux) ==> supported,
        runtime is Generic && target is Linux ==> (supported <==> *model is Some && model->0.family
            is Qwen),
{
}

/// A model is known or it is not; the error names it. A smoke test is for the generic runtime.
pub proof fn unknown_models_are_named(
    wanted: &LocalAsrTarget,
    model: &Option<LocalAsrModel>,
    r: Result<LocalAsrModel, BackendError>,
    tested: Result<LocalAsrModel, BackendError>,
)
    requires
        call_ensures(native_local_asr_model, (wanted, model), r),
        call_ensures(test_model, (wanted, model), tested),
    ensures
        r is Ok <==> *model is Some,
        r is Ok ==> r->Ok_0 == model->0,
        r matches Err(e) ==> e.code is InvalidArgument && e.message@
            == "unknown generic local ASR model: "@ + wanted.model_id@,
        tested is Ok <==> *model is Some && wanted.runtime is Generic,
        tested is Ok ==> tested->Ok_0 == model->0,
        tested is Err && !(wanted.runtime is Generic) ==> (tested->Err_0).code is Unsupported && (
        tested->Err_0).message@
            == "native model smoke test is only available for generic local ASR"@,
        tested is Err && wanted.runtime is Generic ==> (tested->Err_0).code is InvalidArgument,
{
}

proof fn lemma_foundry_ids(targets: Seq<LocalAsrTarget>)
    ensures
        foundry_ids(targets) == targets.filter(
            |t: LocalAsrTarget| t.runtime is Foundry,
        ).map_values(|t: LocalAsrTarget| t.model_id@),
    decreases targets.len(),
{
    reveal(Seq::filter);
    let mine = |t: LocalAsrTarget| t.runtime is Foundry;
    let id = |t: LocalAsrTarget| t.model_id@;
    if targets.len() > 0 {
        lemma_foundry_ids(targets.drop_last());
    }
    assert(foundry_ids(targets) =~= targets.filter(mine).map_values(id));
}

proof fn lemma_wanted_reports(targets: Seq<LocalAsrTarget>, reports: Seq<NativeModelReport>)
    ensures
        wanted_reports(targets, reports) == reports.filter(
            |report: NativeModelReport| names_foundry(targets, report.alias@),
        ),
    decreases reports.len(),
{
    reveal(Seq::filter);
    if reports.len() > 0 {
        lemma_wanted_reports(targets, reports.drop_last());
    }
}

/// Foundry is asked for the models of its own targets, in their order.
pub proof fn foundry_is_asked_for_its_own_models(
    targets: &Vec<LocalAsrTarget>,
    r: Vec<String>,
)
    requires
        call_ensures(foundry_aliases, (targets,), r),
    ensures
        r@.map_values(|id: String| id@) == targets@.filter(
            |t: LocalAsrTarget| t.runtime is Foundry,
        ).map_values(|t: LocalAsrTarget| t.model_id@),
{
    lemma_foundry_ids(targets@);
    assert(text::texts(r@) =~= r@.map_values(|id: String| id@));
}

/// Of what Foundry reports, the models that were asked for are told, each with what was reported of
/// it, in the order of the reports.
pub proof fn reports_on_asked_models_are_passed_on(
    targets: &Vec<LocalAsrTarget>,
    reports: Vec<NativeModelReport>,
    r: Vec<NativeModelState>,
)
    requires
        call_ensures(inspect_native_models, (targets, reports), r),
    ensures
        ({
            let asked = reports@.filter(
                |report: NativeModelReport|
                    exists|i: int|
                        0 <= i < targets@.len() && (#[trigger] targets@[i]).runtime is Foundry
                            && targets@[i].model_id@ == report.alias@,
            );
            &&& r@.len() == asked.len()
            &&& forall|i: int|
                0 <= i < r@.len() ==> {
                    &&& (#[trigger] r@[i]).target.runtime is Foundry
                    &&& r@[i].target.model_id@ == asked[i].alias@
                    &&& r@[i].installed == asked[i].cached
                    &&& r@[i].size_bytes == asked[i].size_bytes
                    &&& r@[i].display_name == asked[i].display_name
                }
        }),
{
    lemma_wanted_reports(targets@, reports@);
    let named = |report: NativeModelReport| names_foundry(targets@, report.alias@);
    let spelled = |report: NativeModelReport|
        exists|i: int|
            0 <= i < targets@.len() && (#[trigger] targets@[i]).runtime is Foundry
                && targets@[i].model_id@ == report.alias@;
    assert(named =~= spelled);
}

/// Foundry keeps its models by itself: they are deleted through it and through nothing else.
pub proof fn foundry_keeps_its_own_models(
    runtime: LocalAsrRuntime,
    uses_store: bool,
    deleted: Result<(), BackendError>,
    cancelled: Result<(), BackendError>,
    invalidates: bool,
)
    requires
        call_ensures(uses_store_directory, (runtime,), uses_store),
        call_ensures(delete_native_model, (runtime,), deleted),
        call_ensures(cancel_prepare, (runtime,), cancelled),
        call_ensures(invalidate_route, (runtime,), invalidates),
    ensures
        uses_store <==> !(runtime is Foundry),
        deleted is Ok <==> !uses_store,
        deleted matches Err(e) ==> e.code is Unsupported && e.message@
            == "only Foundry uses native model deletion"@,
        cancelled is Ok <==> runtime is Foundry || runtime is SherpaOnnx,
        cancelled matches Err(e) ==> e.code is Unsupported && e.message@
            == "generic local ASR preload has no separate prepare cancellation"@,
        invalidates <==> runtime is Foundry,
{
}

/// Who is asked for the status: the native runtimes themselves, and the caches of the generic
/// runtime, the Whisper cache for a Whisper model on macOS.
pub proof fn statuses_come_from_the_runtime(
    runtime: LocalAsrRuntime,
    model: &Option<LocalAsrModel>,
    target: TargetOs,
    r: StatusSource,
)
    requires
        call_ensures(status_source, (runtime, model, target), r),
    ensures
        runtime is Foundry <==> r is Foundry,
        runtime is SherpaOnnx <==> r is Sherpa,
        runtime is Generic ==> {
            &&& r is WhisperCache <==> target is Macos && *model is Some && model->0.family
                is Whisper
            &&& r is QwenCache <==> (target is Macos || target is Linux) && !(r is WhisperCache)
            &&& r is Nothing <==> !(target is Macos || target is Linux)
        },
{
}

/// A status tells what was reported, and for the generic runtime what is set; what a runtime does not
/// report is left out.
pub proof fn statuses_tell_what_was_reported(
    settings: LocalAsrSettings,
    report: RuntimeReport,
    r: LocalAsrRuntimeStatus,
)
    requires
        call_ensures(runtime_status, (settings, report), r),
    ensures
        r.runtime == settings.runtime && r.keep_loaded_secs == settings.keep_loaded_secs,
        r.operation is None,
        report matches RuntimeReport::Generic { loaded } ==> {
            &&& r.loaded <==> loaded is Some
            &&& r.model_id == loaded
            &&& r.provider_id == settings.provider_id && r.active_model == settings.active_model
            &&& r.available == settings.engine_available
            &&& r.error is None && r.runtime_source is None && r.endpoint is None
            &&& r.last_error is None && r.last_prepare_ms is None && r.last_transcribe_ms is None
                && r.last_audio_ms is None
        },
        report is Foundry ==> {
            &&& r.provider_id == report->Foundry_provider_id
            &&& r.available == report->Foundry_available
            &&& r.loaded == report->Foundry_runtime_ready
            &&& r.active_model == report->Foundry_active_model
            &&& r.model_id == report->Foundry_loaded_model_id
            &&& r.runtime_source == Some(report->source)
            &&& r.endpoint == report->endpoint
            &&& r.error == report->Foundry_error
            &&& r.last_error is None && r.last_prepare_ms is None && r.last_transcribe_ms is None
                && r.last_audio_ms is None
        },
        report is Sherpa ==> {
            &&& r.provider_id == report->Sherpa_provider_id
            &&& r.available == report->Sherpa_available
            &&& r.loaded == report->Sherpa_runtime_ready
            &&& r.active_model == report->Sherpa_active_model
            &&& r.model_id == report->Sherpa_loaded_model_id
            &&& r.runtime_source is None && r.endpoint is None
            &&& r.error == report->Sherpa_error
            &&& r.last_error == report->last_error
            &&& r.last_prepare_ms == report->last_prepare_ms
            &&& r.last_transcribe_ms == report->last_transcribe_ms
            &&& r.last_audio_ms == report->last_audio_ms
        },
{
}

/// Work on a native runtime gives it a new count and leaves the other one; a new counter begins at
/// zero for both.
pub proof fn counts_go_up_one_by_one(
    fresh: NativeGenerations,
    counts: &mut NativeGenerations,
    runtime: LocalAsrRuntime,
)
    requires
        call_ensures(NativeGenerations::new, (), fresh),
        call_ensures(NativeGenerations::invalidate_release, (counts, runtime), ()),
    ensures
        fresh.foundry == 0 && fresh.sherpa == 0,
        runtime is Foundry ==> final(counts).sherpa == old(counts).sherpa && final(counts).foundry
            != old(counts).foundry,
        runtime is Foundry && old(counts).foundry < u64::MAX ==> final(counts).foundry
            == old(counts).foundry + 1,
        runtime is SherpaOnnx ==> final(counts).foundry == old(counts).foundry
            && final(counts).sherpa != old(counts).sherpa,
        runtime is SherpaOnnx && old(counts).sherpa < u64::MAX ==> final(counts).sherpa
            == old(counts).sherpa + 1,
        runtime is Generic ==> *final(counts) == *old(counts),
{
}

/// Progress is passed on as it was reported, with the runtime that it is about.
pub proof fn progress_is_passed_on<P>(
    runtime: LocalAsrRuntime,
    report: PrepareReport<P>,
    r: LocalAsrPrepareProgress<P>,
)
    requires
        call_ensures(prepare_progress::<P>, (runtime, report), r),
    ensures
        r.runtime == runtime && r.phase == report.phase && r.model_alias == report.model_alias
            && r.label == report.label && r.percent == report.percent && r.error == report.error,
{
}

/// A storage that is in use is rebound at the next start, and until then Foundry prepares nothing.
pub proof fn locked_storage_waits_for_a_restart(
    fresh: LocalAsrAdapter,
    adapter: &mut LocalAsrAdapter,
    locked: bool,
    r: StorageRebind,
    after: &LocalAsrAdapter,
    wanted: &LocalAsrTarget,
    model: &Option<LocalAsrModel>,
    target: TargetOs,
    counts: &mut NativeGenerations,
    prepared: Result<PreparePlan, BackendError>,
)
    requires
        call_ensures(LocalAsrAdapter::new, (), fresh),
        call_ensures(LocalAsrAdapter::rebind_storage, (adapter, locked), r),
        *after == *final(adapter),
        call_ensures(
            LocalAsrAdapter::prepare,
            (after, wanted, model, target, counts),
            prepared,
        ),
    ensures
        !fresh.foundry_rebind_pending,
        r is RestartRequired <==> locked,
        wanted.runtime is Foundry ==> (prepared is Ok <==> !locked),
        wanted.runtime is Foundry && locked ==> (prepared->Err_0).code is InvalidState && (
        prepared->Err_0).message@ == "Foundry storage changed; restart is required"@,
        wanted.runtime is SherpaOnnx ==> prepared is Ok,
        (wanted.runtime is Foundry || wanted.runtime is SherpaOnnx) && prepared is Ok
            ==> prepared->Ok_0 is LoadNatively,
{
}

/// A generic model is ready where it is known and its system runs it. Preparing and releasing on
/// Windows outdate what was put off for the runtime; elsewhere nothing was.
pub proof fn generic_models_are_ready_where_they_run(
    adapter: &LocalAsrAdapter,
    wanted: &LocalAsrTarget,
    model: &Option<LocalAsrModel>,
    target: TargetOs,
    counts: &mut NativeGenerations,
    r: Result<PreparePlan, BackendError>,
    invalidated: &mut NativeGenerations,
)
    requires
        call_ensures(LocalAsrAdapter::prepare, (adapter, wanted, model, target, counts), r),
        *old(invalidated) == *old(counts),
        call_ensures(NativeGenerations::invalidate_release, (invalidated, wanted.runtime), ()),
    ensures
        target is Windows ==> *final(counts) == *final(invalidated),
        !(target is Windows) ==> *final(counts) == *old(counts),
        wanted.runtime is Generic ==> {
            &&& r is Ok <==> *model is Some && (target is Macos || target is Linux
                && model->0.family is Qwen)
            &&& r is Ok ==> r->Ok_0 is Ready && r->Ok_0->model_id@ == wanted.model_id@
            &&& *model is None ==> (r->Err_0).code is InvalidArgument
            &&& *model is Some && r is Err ==> (r->Err_0).code is Unsupported && (r->Err_0).message@
                == "generic local ASR model is unavailable on this platform"@
        },
{
}

/// What is released: a native runtime as a whole, of the generic runtime the caches that its system
/// has; and a lease holds the cache of its model.
pub proof fn releases_give_back_what_the_runtime_holds(
    runtime: LocalAsrRuntime,
    model: &Option<LocalAsrModel>,
    target: TargetOs,
    counts: &mut NativeGenerations,
    r: ReleasePlan,
    claimed: LeaseCache,
    lease_counts: &mut NativeGenerations,
    given_back: LeaseRelease,
)
    requires
        call_ensures(release, (runtime, target, counts), r),
        call_ensures(claim_lease, (runtime, model, target), claimed),
        *old(lease_counts) == *old(counts),
        call_ensures(release_lease, (runtime, model, target, lease_counts), given_back),
    ensures
        runtime is Foundry ==> r is Foundry && given_back == LeaseRelease::Runtime(r),
        runtime is SherpaOnnx ==> r is Sherpa && given_back == LeaseRelease::Runtime(r),
        runtime is Generic ==> r == (ReleasePlan::Caches {
            qwen: target is Macos || target is Linux,
            whisper: target is Macos,
        }) && given_back == LeaseRelease::Lease(claimed),
        claimed is Qwen <==> runtime is Generic && *model is Some && model->0.family is Qwen && (
        target is Macos || target is Linux),
        claimed is Whisper <==> runtime is Generic && *model is Some && model->0.family is Whisper
            && target is Macos,
        *final(lease_counts) == *final(counts),
        !(target is Windows) ==> *final(counts) == *old(counts),
        target is Windows && runtime is Foundry ==> final(counts).foundry != old(counts).foundry,
        target is Windows && runtime is SherpaOnnx ==> final(counts).sherpa != old(counts).sherpa,
{
}

/// Sherpa is loaded for a model where it is ready and has that very model.
pub proof fn sherpa_is_loaded_for_one_model(
    runtime_ready: bool,
    loaded: &Option<String>,
    model_id: &str,
    r: bool,
)
    requires
        call_ensures(sherpa_is_loaded_for, (runtime_ready, loaded, model_id), r),
    ensures
        r <==> runtime_ready && *loaded is Some && loaded->0@ == model_id@,
{
}

/// What is loaded for a lease: nothing more on a native runtime that was prepared; a Qwen model for a
/// Qwen provider, a Whisper model for a Whisper provider on macOS.
pub proof fn leases_load_the_model_of_their_provider<B>(
    wanted: &LocalAsrTarget,
    model: &Option<LocalAsrModel>,
    provider_type: &str,
    provider: GenericProvider<B>,
    prepared: bool,
    target: TargetOs,
    r: Result<PreloadPlan<B>, BackendError>,
)
    requires
        call_ensures(
            preload_for_lease::<B>,
            (wanted, model, provider_type, provider, prepared, target),
            r,
        ),
    ensures
        !(wanted.runtime is Generic) ==> (r is Ok <==> target is Windows && prepared),
        !(wanted.runtime is Generic) && r is Ok ==> r->Ok_0 is AlreadyLoaded,
        !(wanted.runtime is Generic) && !(target is Windows) ==> (r->Err_0).code is Unsupported && (
        r->Err_0).message@ == "Foundry and Sherpa are only available on Windows"@,
        !(wanted.runtime is Generic) && target is Windows && !prepared ==> (r->Err_0).code
            is InvalidState && (r->Err_0).message@
            == "prepare the selected native ASR model before preload"@,
        wanted.runtime is Generic && !(target is Macos || target is Linux) ==> (r->Err_0).code
            is Unsupported && (r->Err_0).message@ == "generic local ASR provider is unavailable: "@
            + provider_type@,
        wanted.runtime is Generic && (target is Macos || target is Linux) && *model is None ==> (
        r->Err_0).code is InvalidArgument && (r->Err_0).message@
            == "unknown generic local ASR model: "@ + wanted.model_id@,
        wanted.runtime is Generic && r is Ok ==> (target is Macos || target is Linux) && *model
            is Some,
        wanted.runtime is Generic && (target is Macos || target is Linux) && *model is Some
            && provider.is_qwen ==> {
            &&& r is Ok <==> provider.qwen_backend is Some && model->0.family is Qwen
            &&& r is Ok ==> r->Ok_0 is LoadQwen && r->Ok_0->backend == provider.qwen_backend->0
                && r->Ok_0->LoadQwen_model_id@ == model->0.id@
            &&& provider.qwen_backend is None ==> (r->Err_0).code is Unsupported && (
            r->Err_0).message@ == "Qwen backend is unavailable: "@ + provider_type@
            &&& provider.qwen_backend is Some && !(model->0.family is Qwen) ==> (r->Err_0).code
                is InvalidArgument && (r->Err_0).message@ == "Qwen provider requires a Qwen model"@
        },
        wanted.runtime is Generic && *model is Some && !provider.is_qwen ==> {
            &&& r is Ok <==> target is Macos && provider.is_whisper
            &&& r is Ok ==> r->Ok_0 is LoadWhisper && r->Ok_0->LoadWhisper_model_id@
                == wanted.model_id@
        },
{
}

} // verus!
