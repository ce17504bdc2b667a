//! Transcription by a local model: from the request to a running session, through its audio and
//! its partial texts, to the release of what it held.

use vstd::prelude::*;

use crate::errors::{self, BackendError, BackendErrorCode};
use crate::local_asr::{self, GenericProvider, LocalAsrRuntime, NativeGenerations};
use crate::platform::TargetOs;
use crate::preferences::{LocalAsrFamily, LocalAsrModel};
use crate::text;

verus! {

/// What a dictation asks of speech recognition.
#[derive(Debug, Clone, PartialEq, Eq)]
pub struct AsrRequest {
    pub provider_type: String,
    pub model: Option<String>,
    pub runtime: Option<String>,
    pub language: Option<String>,
    pub keep_loaded_secs: Option<u32>,
    pub working_languages: Vec<String>,
}

/// What the catalogs say of a request.
#[derive(Debug, Clone, PartialEq, Eq)]
pub struct AsrCatalog<B> {
    pub is_foundry: bool,
    pub is_sherpa: bool,
    pub generic: GenericProvider<B>,
    /// Whether the requested model is one of Foundry's.
    pub foundry_has_model: bool,
    /// Whether the requested model is one of sherpa's.
    pub sherpa_has_model: bool,
    /// The requested model, where the generic catalog knows it.
    pub generic_model: Option<LocalAsrModel>,
    pub foundry_default: String,
    pub sherpa_default: String,
    pub whisper_default: String,
}

/// The session that a request leads to.
#[derive(Debug, Clone, PartialEq, Eq)]
pub enum NativePlan<B> {
    Foundry { model: String, runtime_source: String, language: Option<String> },
    Sherpa { model: String, language: Option<String> },
    Qwen { backend: B, model_id: String },
    Whisper { model_id: String, language: String },
    /// `language` is the first of the working languages, from which the locale follows.
    AppleSpeech { language: Option<String> },
}

/// The model that is asked for where the catalog has it, else the default.
pub open spec fn model_or(asked: Option<String>, known: bool, default: Seq<char>) -> Seq<char> {
    match asked {
        Some(m) if known => m@,
        _ => default,
    }
}

/// The text, or `auto` where there is none.
pub open spec fn or_auto(value: Option<String>) -> Seq<char> {
    match value {
        Some(v) => v@,
        None => "auto"@,
    }
}

fn chosen_model(asked: &Option<String>, known: bool, default: &String) -> (r: String)
    ensures
        r@ == model_or(*asked, known, default@),
{
    match asked {
        Some(m) if known => m.clone(),
        _ => default.clone(),
    }
}

fn text_or_auto(value: &Option<String>) -> (r: String)
    ensures
        r@ == or_auto(*value),
{
    match value {
        Some(v) => v.clone(),
        None => "auto".to_owned(),
    }
}

fn copy_of(value: &Option<String>) -> (r: Option<String>)
    ensures
        r == *value,
{
    match value {
        Some(v) => Some(v.clone()),
        None => None,
    }
}

/// The first of the working languages.
pub open spec fn first_language(languages: Seq<String>) -> Option<String> {
    if languages.len() == 0 {
        None
    } else {
        Some(languages[0])
    }
}

fn provider_unavailable<B>(provider_type: &str) -> (r: Result<NativePlan<B>, BackendError>)
    ensures
        errors::fails(
            r,
            BackendErrorCode::Unsupported,
            "native ASR provider is unavailable: "@ + provider_type@,
        ),
{
    Err(
        BackendError::about(
            BackendErrorCode::Unsupported,
            "native ASR provider is unavailable: ",
            provider_type,
        ),
    )
}

/// The session that the request leads to on the platform, or why there is none.
pub fn plan_native_session<B>(request: &AsrRequest, catalog: AsrCatalog<B>, target: TargetOs) -> (r:
    Result<NativePlan<B>, BackendError>)
    requires
        target is Windows || target is Macos || target is Linux,
    ensures
        target is Windows && catalog.is_foundry ==> (r matches Ok(
            NativePlan::Foundry { model, runtime_source, language },
        ) && model@ == model_or(
            request.model,
            catalog.foundry_has_model,
            catalog.foundry_default@,
        ) && runtime_source@ == or_auto(request.runtime) && language == request.language),
        target is Windows && !catalog.is_foundry && catalog.is_sherpa ==> (r matches Ok(
            NativePlan::Sherpa { model, language },
        ) && model@ == model_or(request.model, catalog.sherpa_has_model, catalog.sherpa_default@)
            && language == request.language),
        !(target is Windows) && catalog.generic.is_qwen ==> if catalog.generic.qwen_backend
            is None {
            errors::fails(
                r,
                BackendErrorCode::Unsupported,
                "Qwen backend is unavailable: "@ + request.provider_type@,
            )
        } else if request.model is None || !local_asr::of_family(
            catalog.generic_model,
            LocalAsrFamily::Qwen,
        ) {
            errors::fails(r, BackendErrorCode::Provider, "local Qwen model is not configured"@)
        } else {
            r matches Ok(NativePlan::Qwen { backend, model_id }) && backend
                == catalog.generic.qwen_backend->0 && model_id@ == catalog.generic_model->0.id@
        },
        target is Macos && !catalog.generic.is_qwen && catalog.generic.is_whisper ==> (r matches Ok(
            NativePlan::Whisper { model_id, language },
        ) && model_id@ == model_or(
            request.model,
            local_asr::of_family(catalog.generic_model, LocalAsrFamily::Whisper),
            catalog.whisper_default@,
        ) && language@ == or_auto(request.language)),
        target is Macos && !catalog.generic.is_qwen && !catalog.generic.is_whisper
            && catalog.generic.is_apple_speech ==> (r matches Ok(
            NativePlan::AppleSpeech { language },
        ) && language == first_language(request.working_languages@)),
        (match target {
            TargetOs::Windows => !catalog.is_foundry && !catalog.is_sherpa,
            TargetOs::Macos => !catalog.generic.is_qwen && !catalog.generic.is_whisper
                && !catalog.generic.is_apple_speech,
            _ => !catalog.generic.is_qwen,
        }) ==> errors::fails(
            r,
            BackendErrorCode::Unsupported,
            "native ASR provider is unavailable: "@ + request.provider_type@,
        ),
{
    if target == TargetOs::Windows {
        if catalog.is_foundry {
            return Ok(
                NativePlan::Foundry {
                    model: chosen_model(
                        &request.model,
                        catalog.foundry_has_model,
                        &catalog.foundry_default,
                    ),
                    runtime_source: text_or_auto(&request.runtime),
                    language: copy_of(&request.language),
                },
            );
        }
        if catalog.is_sherpa {
            return Ok(
                NativePlan::Sherpa {
                    model: chosen_model(
                        &request.model,
                        catalog.sherpa_has_model,
                        &catalog.sherpa_default,
                    ),
                    language: copy_of(&request.language),
                },
            );
        }
        return provider_unavailable(request.provider_type.as_str());
    }
    if catalog.generic.is_qwen {
        let backend: B = match catalog.generic.qwen_backend {
            None => return Err(
                BackendError::about(
                    BackendErrorCode::Unsupported,
                    "Qwen backend is unavailable: ",
                    request.provider_type.as_str(),
                ),
            ),
            Some(backend) => backend,
        };
        if request.model.is_some() {
            match catalog.generic_model {
                Some(m) if m.family == LocalAsrFamily::Qwen => {
                    return Ok(NativePlan::Qwen { backend, model_id: m.id });
                },
                _ => {},
            }
        }
        return Err(
            BackendError::new(BackendErrorCode::Provider, "local Qwen model is not configured"),
        );
    }
    if target == TargetOs::Macos {
        if catalog.generic.is_whisper {
            let known: bool = match &catalog.generic_model {
                Some(m) => m.family == LocalAsrFamily::Whisper,
                None => false,
            };
            return Ok(
                NativePlan::Whisper {
                    model_id: chosen_model(&request.model, known, &catalog.whisper_default),
                    language: text_or_auto(&request.language),
                },
            );
        }
        if catalog.generic.is_apple_speech {
            let language: Option<String> = if request.working_languages.len() > 0 {
                Some(request.working_languages[0].clone())
            } else {
                None
            };
            return Ok(NativePlan::AppleSpeech { language });
        }
    }
    provider_unavailable(request.provider_type.as_str())
}

/// The ids under which the catalogs know the providers of local models.
#[derive(Debug, Clone, PartialEq, Eq)]
pub struct NativeProviderIds {
    pub foundry: String,
    pub sherpa: String,
    pub qwen: String,
    pub qwen_mlx: String,
    pub qwen_c: String,
    pub whisper: String,
    pub apple_speech: String,
}

/// The ids of the providers that native recognisers serve on the platform, each runtime of Windows
/// under its older ids too.
pub open spec fn served_providers(ids: NativeProviderIds, target: TargetOs) -> Seq<Seq<char>> {
    match target {
        TargetOs::Windows => seq![
            ids.foundry@,
            "foundry-local"@,
            "foundry-whisper"@,
            ids.sherpa@,
            "sherpa-onnx"@,
        ],
        TargetOs::Macos => seq![
            ids.qwen@,
            ids.qwen_mlx@,
            ids.qwen_c@,
            ids.whisper@,
            ids.apple_speech@,
        ],
        TargetOs::Linux => seq![ids.qwen@, ids.qwen_mlx@, ids.qwen_c@],
        _ => Seq::empty(),
    }
}

/// The ids of the providers that native recognisers serve on the platform, in the order in which
/// they are registered.
pub fn native_provider_types(ids: &NativeProviderIds, target: TargetOs) -> (r: Vec<String>)
    ensures
        text::texts(r@) == served_providers(*ids, target),
{
    let r: Vec<String> = match target {
        TargetOs::Windows => vec![
            ids.foundry.clone(),
            "foundry-local".to_owned(),
            "foundry-whisper".to_owned(),
            ids.sherpa.clone(),
            "sherpa-onnx".to_owned(),
        ],
        TargetOs::Macos => vec![
            ids.qwen.clone(),
            ids.qwen_mlx.clone(),
            ids.qwen_c.clone(),
            ids.whisper.clone(),
            ids.apple_speech.clone(),
        ],
        TargetOs::Linux => vec![ids.qwen.clone(), ids.qwen_mlx.clone(), ids.qwen_c.clone()],
        _ => Vec::new(),
    };
    assert(text::texts(r@) =~= served_providers(*ids, target));
    r
}

/// Counts a new session on Windows, and says which number it has. The two runtimes are counted
/// apart: a session on one leaves the releases of the other in force.
pub fn begin_generation(generations: &mut NativeGenerations, is_foundry: bool) -> (r: u64)
    ensures
        *final(generations) == old(generations).after_work_on(
            if is_foundry {
                LocalAsrRuntime::Foundry
            } else {
                LocalAsrRuntime::SherpaOnnx
            },
        ),
        r == (if is_foundry {
            final(generations).foundry
        } else {
            final(generations).sherpa
        }),
{
    if is_foundry {
        generations.invalidate_release(LocalAsrRuntime::Foundry);
        generations.foundry
    } else {
        generations.invalidate_release(LocalAsrRuntime::SherpaOnnx);
        generations.sherpa
    }
}

/// What kind of session it is.
#[derive(Debug, Clone, Copy, PartialEq, Eq, Structural)]
pub enum NativeSessionKind {
    Foundry,
    Sherpa,
    Qwen,
    Whisper,
    AppleSpeech,
}

impl NativeSessionKind {
    /// The model comes from the model store.
    pub open spec fn uses_store(self) -> bool {
        self is Sherpa || self is Qwen || self is Whisper
    }

    /// The session gathers its audio itself.
    pub open spec fn gathers_audio(self) -> bool {
        self is Qwen || self is Whisper
    }
}

impl<B> NativePlan<B> {
    /// The kind of the session.
    pub open spec fn kind_of(self) -> NativeSessionKind {
        match self {
            NativePlan::Foundry { .. } => NativeSessionKind::Foundry,
            NativePlan::Sherpa { .. } => NativeSessionKind::Sherpa,
            NativePlan::Qwen { .. } => NativeSessionKind::Qwen,
            NativePlan::Whisper { .. } => NativeSessionKind::Whisper,
            NativePlan::AppleSpeech { .. } => NativeSessionKind::AppleSpeech,
        }
    }

    /// The model that the call is labelled with.
    pub open spec fn label_of(self) -> Option<Seq<char>> {
        match self {
            NativePlan::Foundry { model, .. } => Some(model@),
            NativePlan::Sherpa { model, .. } => Some(model@),
            NativePlan::Qwen { model_id, .. } => Some(model_id@),
            NativePlan::Whisper { model_id, .. } => Some(model_id@),
            NativePlan::AppleSpeech { .. } => None,
        }
    }

    pub fn kind(&self) -> (r: NativeSessionKind)
        ensures
            r == self.kind_of(),
    {
        match self {
            NativePlan::Foundry { .. } => NativeSessionKind::Foundry,
            NativePlan::Sherpa { .. } => NativeSessionKind::Sherpa,
            NativePlan::Qwen { .. } => NativeSessionKind::Qwen,
            NativePlan::Whisper { .. } => NativeSessionKind::Whisper,
            NativePlan::AppleSpeech { .. } => NativeSessionKind::AppleSpeech,
        }
    }

    /// The model that the call is labelled with; Apple's recogniser has none.
    pub fn label_model(&self) -> (r: Option<String>)
        ensures
            text::optional_text(r) == self.label_of(),
    {
        match self {
            NativePlan::Foundry { model, .. } => Some(model.clone()),
            NativePlan::Sherpa { model, .. } => Some(model.clone()),
            NativePlan::Qwen { model_id, .. } => Some(model_id.clone()),
            NativePlan::Whisper { model_id, .. } => Some(model_id.clone()),
            NativePlan::AppleSpeech { .. } => None,
        }
    }
}

/// What is asked next on the way to a session.
#[derive(Debug, Clone, Copy, PartialEq, Eq, Structural)]
pub enum StartStage {
    /// Whether the model's id makes a target of its runtime.
    ParsingTarget,
    /// Whether there is a model store.
    FindingStore,
    /// Whether the store holds the model.
    CheckingInstalled,
    /// Where the model lies.
    FindingDirectory,
    /// Which file of that directory is Whisper's.
    FindingFile,
    /// To load the model.
    Loading,
    /// Nothing: the session can start.
    Ready,
}

/// The answer to what was asked.
#[derive(Debug, PartialEq, Eq)]
pub enum StartReply {
    Target(Result<(), BackendError>),
    Store(bool),
    Installed(Result<bool, BackendError>),
    Directory(Result<(), BackendError>),
    File(Result<(), String>),
    Loaded(Result<(), String>),
}

/// The reply answers what the stage asks.
pub open spec fn answers(reply: StartReply, stage: StartStage) -> bool {
    match reply {
        StartReply::Target(_) => stage is ParsingTarget,
        StartReply::Store(_) => stage is FindingStore,
        StartReply::Installed(_) => stage is CheckingInstalled,
        StartReply::Directory(_) => stage is FindingDirectory,
        StartReply::File(_) => stage is FindingFile,
        StartReply::Loaded(_) => stage is Loading,
    }
}

/// The reply lets the start go on.
pub open spec fn grants(reply: StartReply) -> bool {
    match reply {
        StartReply::Target(r) => r is Ok,
        StartReply::Store(there) => there,
        StartReply::Installed(r) => r matches Ok(installed) && installed,
        StartReply::Directory(r) => r is Ok,
        StartReply::File(r) => r is Ok,
        StartReply::Loaded(r) => r is Ok,
    }
}

/// What a session of this kind asks first.
pub open spec fn first_stage(kind: NativeSessionKind) -> StartStage {
    if kind.uses_store() {
        StartStage::ParsingTarget
    } else {
        StartStage::Ready
    }
}

/// What is asked once `stage` has been granted.
pub open spec fn stage_after(kind: NativeSessionKind, stage: StartStage) -> StartStage {
    match stage {
        StartStage::ParsingTarget => StartStage::FindingStore,
        StartStage::FindingStore => StartStage::CheckingInstalled,
        StartStage::CheckingInstalled => StartStage::FindingDirectory,
        StartStage::FindingDirectory => if kind is Whisper {
            StartStage::FindingFile
        } else {
            StartStage::Loading
        },
        StartStage::FindingFile => StartStage::Loading,
        _ => StartStage::Ready,
    }
}

/// The error of a reply that does not grant what was asked.
pub open spec fn start_error(kind: NativeSessionKind, reply: StartReply) -> errors::ErrorParts {
    match reply {
        StartReply::Target(Err(e)) => e@,
        StartReply::Directory(Err(e)) => e@,
        StartReply::Installed(Err(e)) => e@,
        StartReply::Store(_) => errors::plain_error(
            BackendErrorCode::Unsupported,
            "Core model store is unavailable"@,
        ),
        StartReply::Installed(_) => errors::plain_error(
            BackendErrorCode::InvalidState,
            match kind {
                NativeSessionKind::Sherpa => "Sherpa model is not downloaded"@,
                NativeSessionKind::Qwen => "local Qwen model is not downloaded"@,
                _ => "local Whisper model is not downloaded"@,
            },
        ),
        StartReply::File(Err(e)) => provider_failure(e@),
        StartReply::Loaded(Err(e)) => provider_failure(e@),
        _ => arbitrary(),
    }
}

/// The error for a failure inside a native recogniser.
pub open spec fn provider_failure(error: Seq<char>) -> errors::ErrorParts {
    errors::plain_error(BackendErrorCode::Provider, "native ASR provider failed: "@ + error)
}

/// The error for a failure inside a native recogniser, which `error` describes.
pub fn map_native_asr_error(error: &str) -> (r: BackendError)
    ensures
        r@ == provider_failure(error@),
{
    BackendError::about(BackendErrorCode::Provider, "native ASR provider failed: ", error)
}

/// A session on its way.
#[derive(Debug, Clone, PartialEq, Eq)]
pub struct NativeStart<B> {
    pub plan: NativePlan<B>,
    pub stage: StartStage,
}

impl<B> NativeStart<B> {
    /// The start of a session: one whose model comes from the model store has questions to ask.
    pub fn begin(plan: NativePlan<B>) -> (r: NativeStart<B>)
        ensures
            r.plan == plan,
            r.stage == first_stage(plan.kind_of()),
    {
        let stage: StartStage = match plan.kind() {
            NativeSessionKind::Foundry | NativeSessionKind::AppleSpeech => StartStage::Ready,
            _ => StartStage::ParsingTarget,
        };
        NativeStart { plan, stage }
    }

    /// Takes the answer to what the stage asks, and goes on or fails.
    pub fn answer(self, reply: StartReply) -> (r: Result<NativeStart<B>, BackendError>)
        requires
            answers(reply, self.stage),
            self.plan.kind_of().uses_store(),
            self.stage is FindingFile ==> self.plan.kind_of() is Whisper,
        ensures
            r is Ok <==> grants(reply),
            match r {
                Ok(next) => next.plan == self.plan && next.stage == stage_after(
                    self.plan.kind_of(),
                    self.stage,
                ),
                Err(e) => e@ == start_error(self.plan.kind_of(), reply),
            },
    {
        let kind: NativeSessionKind = self.plan.kind();
        let next: StartStage = match reply {
            StartReply::Target(Err(e)) => return Err(e),
            StartReply::Target(Ok(_)) => StartStage::FindingStore,
            StartReply::Store(false) => return Err(
                BackendError::new(
                    BackendErrorCode::Unsupported,
                    "Core model store is unavailable",
                ),
            ),
            StartReply::Store(true) => StartStage::CheckingInstalled,
            StartReply::Installed(Err(e)) => return Err(e),
            StartReply::Installed(Ok(false)) => {
                let message: &str = match kind {
                    NativeSessionKind::Sherpa => "Sherpa model is not downloaded",
                    NativeSessionKind::Qwen => "local Qwen model is not downloaded",
                    _ => "local Whisper model is not downloaded",
                };
                return Err(BackendError::new(BackendErrorCode::InvalidState, message));
            },
            StartReply::Installed(Ok(true)) => StartStage::FindingDirectory,
            StartReply::Directory(Err(e)) => return Err(e),
            StartReply::Directory(Ok(_)) => if kind == NativeSessionKind::Whisper {
                StartStage::FindingFile
            } else {
                StartStage::Loading
            },
            StartReply::File(Err(e)) => return Err(map_native_asr_error(e.as_str())),
            StartReply::File(Ok(_)) => StartStage::Loading,
            StartReply::Loaded(Err(e)) => return Err(map_native_asr_error(e.as_str())),
            StartReply::Loaded(Ok(_)) => StartStage::Ready,
        };
        Ok(NativeStart { plan: self.plan, stage: next })
    }

    /// The session, once nothing is left to ask. `generation` is its number on Windows.
    pub fn into_session(self, request: &AsrRequest, generation: u64) -> (r: NativeSession)
        requires
            self.stage is Ready,
        ensures
            r.kind == self.plan.kind_of(),
            r.label.provider_type@ == request.provider_type@,
            text::optional_text(r.label.model) == self.plan.label_of(),
            r.generation == generation,
            r.keep_loaded_secs == (match request.keep_loaded_secs {
                Some(secs) => secs,
                None => 0u32,
            }),
            r.next_offset == 0,
            r.pcm@.len() == 0,
            !r.cancelled,
            !r.released,
    {
        let keep_loaded_secs: u32 = match request.keep_loaded_secs {
            Some(secs) => secs,
            None => 0,
        };
        NativeSession {
            kind: self.plan.kind(),
            label: AsrCallLabel {
                provider_type: request.provider_type.clone(),
                model: self.plan.label_model(),
            },
            generation,
            keep_loaded_secs,
            next_offset: 0,
            pcm: Vec::new(),
            cancelled: false,
            released: false,
        }
    }
}

/// The stage that a start has reached after the replies; `None` once it has failed.
pub open spec fn stage_reached(kind: NativeSessionKind, replies: Seq<StartReply>) -> Option<
    StartStage,
>
    decreases replies.len(),
{
    if replies.len() == 0 {
        Some(first_stage(kind))
    } else {
        match stage_reached(kind, replies.drop_last()) {
            Some(stage) if answers(replies.last(), stage) && grants(replies.last()) => Some(
                stage_after(kind, stage),
            ),
            _ => None,
        }
    }
}

/// The stages at which the store has already said that it holds the model.
pub open spec fn past_the_store(stage: StartStage) -> bool {
    stage is FindingDirectory || stage is FindingFile || stage is Loading || stage is Ready
}

/// A model from the model store is loaded, and its session started, only after the store has said
/// that it holds the model.
pub proof fn models_are_loaded_only_when_installed(
    kind: NativeSessionKind,
    replies: Seq<StartReply>,
)
    requires
        kind.uses_store(),
        stage_reached(kind, replies) matches Some(stage) && past_the_store(stage),
    ensures
        replies.contains(StartReply::Installed(Ok(true))),
    decreases replies.len(),
{
    let before = replies.drop_last();
    let stage = stage_reached(kind, before)->0;
    if past_the_store(stage) {
        models_are_loaded_only_when_installed(kind, before);
        let i = choose|i: int| 0 <= i < before.len() && before[i] == StartReply::Installed(Ok(true));
        assert(replies[i] == StartReply::Installed(Ok(true)));
    } else {
        assert(replies[replies.len() - 1] == StartReply::Installed(Ok(true)));
    }
}

/// The provider and the model that a call of speech recognition is labelled with.
#[derive(Debug, Clone, PartialEq, Eq)]
pub struct AsrCallLabel {
    pub provider_type: String,
    pub model: Option<String>,
}

/// A running session.
#[derive(Debug, Clone, PartialEq, Eq)]
pub struct NativeSession {
    pub kind: NativeSessionKind,
    pub label: AsrCallLabel,
    pub generation: u64,
    pub keep_loaded_secs: u32,
    /// Where in the text the next partial result stands, in characters.
    pub next_offset: u64,
    /// The audio so far, where the session gathers it.
    pub pcm: Vec<u8>,
    pub cancelled: bool,
    /// What the session held has been handed to its release.
    pub released: bool,
}

/// The length of 16 kHz mono audio in 16 bit samples, in milliseconds.
pub open spec fn pcm_millis(bytes: nat) -> int {
    let scaled = (bytes / 2) * 1000;
    (if scaled > u64::MAX {
        u64::MAX as int
    } else {
        scaled as int
    }) / 16000
}

/// The length of 16 kHz mono audio in 16 bit samples, in milliseconds.
pub fn pcm_duration_ms(bytes: &[u8]) -> (r: u64)
    ensures
        r == pcm_millis(bytes@.len()),
{
    let samples: u64 = bytes.len() as u64 / 2;
    let scaled: u64 = match samples.checked_mul(1000) {
        Some(scaled) => scaled,
        None => u64::MAX,
    };
    scaled / 16000
}

/// How a native recogniser is cancelled.
#[derive(Debug, Clone, Copy, PartialEq, Eq, Structural)]
pub enum NativeCancel {
    /// The provider is told.
    Provider,
    /// The engine is told which of its operations to drop.
    EngineOperation,
    /// Nobody: the engine cannot be interrupted, its result is thrown away.
    Nothing,
}

/// How what a session held is released.
#[derive(Debug, Clone, Copy, PartialEq, Eq, Structural)]
pub enum NativeRelease {
    Foundry,
    Sherpa,
    /// The engine goes back to its cache, or is thrown away; one that goes back is released when it
    /// has idled long enough.
    Cache { discard: bool },
    Nothing,
}

/// How the transcription of a session ended.
#[derive(Debug, Clone, PartialEq, Eq)]
pub enum Transcription {
    Finished { text: String, duration_ms: u64 },
    /// Foundry has no fallback left.
    FallbackExhausted,
    Failed { error: String },
    TimedOut,
}

/// The text of a session.
#[derive(Debug, Clone, PartialEq, Eq)]
pub struct TranscriptOutput {
    pub text: String,
    pub duration_ms: u64,
}

/// What the end of a session asks of the host.
#[derive(Debug, Clone, Copy, PartialEq, Eq, Structural)]
pub struct SessionEnd {
    pub cancel: Option<NativeCancel>,
    pub release: Option<NativeRelease>,
}

/// What is handed to the recogniser when a session ends.
#[derive(Debug, Clone, PartialEq, Eq)]
pub struct FinishRequest {
    /// The rule that the time limit follows.
    pub timeout_rule: &'static str,
    /// The audio and its length, where the session has gathered it.
    pub gathered: Option<(Vec<u8>, u64)>,
}

/// The rule that the time limit of a session follows.
pub open spec fn timeout_rule_of(kind: NativeSessionKind) -> Seq<char> {
    match kind {
        NativeSessionKind::Foundry => "foundry-local-whisper"@,
        NativeSessionKind::Sherpa => "sherpa-onnx-local"@,
        NativeSessionKind::Qwen => "local-qwen3"@,
        NativeSessionKind::Whisper => "local-whisper"@,
        NativeSessionKind::AppleSpeech => "apple-speech"@,
    }
}

/// The transcription can end this way in a session of this kind: only Foundry falls back, and the
/// sessions with a provider of their own keep their own time.
pub open spec fn can_end(kind: NativeSessionKind, t: Transcription) -> bool {
    match t {
        Transcription::FallbackExhausted => kind is Foundry,
        Transcription::TimedOut => !(kind is Foundry) && !(kind is Sherpa),
        _ => true,
    }
}

/// The error of a transcription, where it is one; `user_message` says that Foundry has no fallback
/// left.
pub open spec fn transcription_error(
    kind: NativeSessionKind,
    cancelled: bool,
    t: Transcription,
    user_message: Seq<char>,
) -> Option<errors::ErrorParts> {
    match t {
        Transcription::Finished { .. } => if kind.gathers_audio() && cancelled {
            Some(
                errors::plain_error(
                    BackendErrorCode::Cancelled,
                    "native ASR request cancelled"@,
                ),
            )
        } else {
            None
        },
        Transcription::FallbackExhausted => Some(
            errors::ErrorParts {
                code: BackendErrorCode::Provider,
                message: user_message,
                retryable: false,
                terminal: Some("foundry_fallback"@),
            },
        ),
        Transcription::Failed { error } => Some(
            if kind is Foundry {
                errors::worth_retrying(provider_failure(error@))
            } else {
                provider_failure(error@)
            },
        ),
        Transcription::TimedOut => Some(
            errors::worth_retrying(
                errors::plain_error(
                    BackendErrorCode::Provider,
                    "native ASR transcription timed out"@,
                ),
            ),
        ),
    }
}

/// The error of a transcription that took too long.
pub fn transcription_timed_out() -> (r: BackendError)
    ensures
        r@ == errors::worth_retrying(
            errors::plain_error(BackendErrorCode::Provider, "native ASR transcription timed out"@),
        ),
{
    BackendError::new(
        BackendErrorCode::Provider,
        "native ASR transcription timed out",
    ).worth_another_try()
}

impl NativeSession {
    /// The session after it was cancelled: one that gathers audio drops it and remembers.
    pub open spec fn after_cancel(self) -> NativeSessionState {
        let state = self@;
        if self.kind.gathers_audio() {
            NativeSessionState { pcm: Seq::empty(), cancelled: true, ..state }
        } else {
            state
        }
    }

    /// How a session of this kind is cancelled.
    pub open spec fn cancel_of(self) -> NativeCancel {
        match self.kind {
            NativeSessionKind::Qwen => NativeCancel::EngineOperation,
            NativeSessionKind::Whisper => NativeCancel::Nothing,
            _ => NativeCancel::Provider,
        }
    }

    /// What the session releases now: nothing where it has done so.
    pub open spec fn release_of(self, discard: bool) -> Option<NativeRelease> {
        if self.released {
            None
        } else {
            Some(
                match self.kind {
                    NativeSessionKind::Foundry => NativeRelease::Foundry,
                    NativeSessionKind::Sherpa => NativeRelease::Sherpa,
                    NativeSessionKind::AppleSpeech => NativeRelease::Nothing,
                    _ => NativeRelease::Cache { discard },
                },
            )
        }
    }

    /// Takes audio in: gathers it, or says that it goes to the provider.
    pub fn consume_pcm_chunk(&mut self, pcm: &[u8]) -> (to_provider: bool)
        ensures
            to_provider == !old(self).kind.gathers_audio(),
            final(self)@ == (if to_provider {
                old(self)@
            } else {
                (NativeSessionState { pcm: old(self).pcm@ + pcm@, ..old(self)@ })
            }),
    {
        match self.kind {
            NativeSessionKind::Qwen | NativeSessionKind::Whisper => {
                self.pcm.extend_from_slice(pcm);
                proof {
                    assert(self.pcm@ =~= old(self).pcm@ + pcm@);
                }
                false
            },
            _ => true,
        }
    }

    /// The next partial text: where it stands, or `None` where it is not published, because the
    /// session was cancelled.
    pub fn publish_piece(&mut self, piece: &str) -> (r: Option<u64>)
        requires
            old(self).kind is Qwen || old(self).kind is Sherpa,
        ensures
            if old(self).kind is Qwen && old(self).cancelled {
                r is None && final(self)@ == old(self)@
            } else {
                r == Some(old(self).next_offset) && final(self)@ == (NativeSessionState {
                    next_offset: offset_after(old(self).next_offset, piece@.len()),
                    ..old(self)@
                })
            },
    {
        if self.kind == NativeSessionKind::Qwen && self.cancelled {
            return None;
        }
        let offset: u64 = self.next_offset;
        let count: u64 = piece.unicode_len() as u64;
        self.next_offset = offset.wrapping_add(count);
        Some(offset)
    }

    /// Whether a notice of Foundry's still reaches the user.
    pub fn shows_notices(&self, backend_alive: bool) -> (r: bool)
        ensures
            r == (!self.released && backend_alive),
    {
        !self.released && backend_alive
    }

    /// What the recogniser is handed when the session ends. The gathered audio leaves the session.
    pub fn begin_finish(&mut self) -> (r: FinishRequest)
        ensures
            r.timeout_rule@ == timeout_rule_of(old(self).kind),
            if old(self).kind.gathers_audio() {
                &&& r.gathered matches Some((audio, ms))
                &&& audio@ == old(self).pcm@
                &&& ms == pcm_millis(old(self).pcm@.len())
                &&& final(self)@ == (NativeSessionState { pcm: Seq::empty(), ..old(self)@ })
            } else {
                r.gathered is None && final(self)@ == old(self)@
            },
    {
        let timeout_rule: &'static str = match self.kind {
            NativeSessionKind::Foundry => "foundry-local-whisper",
            NativeSessionKind::Sherpa => "sherpa-onnx-local",
            NativeSessionKind::Qwen => "local-qwen3",
            NativeSessionKind::Whisper => "local-whisper",
            NativeSessionKind::AppleSpeech => "apple-speech",
        };
        match self.kind {
            NativeSessionKind::Qwen | NativeSessionKind::Whisper => {
                let mut audio: Vec<u8> = Vec::new();
                std::mem::swap(&mut audio, &mut self.pcm);
                let ms: u64 = pcm_duration_ms(audio.as_slice());
                assert(self.pcm@ =~= Seq::<u8>::empty());
                FinishRequest { timeout_rule, gathered: Some((audio, ms)) }
            },
            _ => FinishRequest { timeout_rule, gathered: None },
        }
    }

    fn cancel_native(&mut self) -> (r: NativeCancel)
        ensures
            r == old(self).cancel_of(),
            final(self)@ == old(self).after_cancel(),
    {
        match self.kind {
            NativeSessionKind::Qwen => {
                self.cancelled = true;
                self.pcm.clear();
                assert(self.pcm@ =~= Seq::<u8>::empty());
                NativeCancel::EngineOperation
            },
            NativeSessionKind::Whisper => {
                self.cancelled = true;
                self.pcm.clear();
                assert(self.pcm@ =~= Seq::<u8>::empty());
                NativeCancel::Nothing
            },
            _ => NativeCancel::Provider,
        }
    }

    fn release_native(&mut self, discard: bool) -> (r: Option<NativeRelease>)
        ensures
            r == old(self).release_of(discard),
            final(self)@ == (NativeSessionState { released: true, ..old(self)@ }),
    {
        if self.released {
            return None;
        }
        self.released = true;
        Some(
            match self.kind {
                NativeSessionKind::Foundry => NativeRelease::Foundry,
                NativeSessionKind::Sherpa => NativeRelease::Sherpa,
                NativeSessionKind::AppleSpeech => NativeRelease::Nothing,
                _ => NativeRelease::Cache { discard },
            },
        )
    }

    /// The session's text, or its error. A failed session is cancelled, and every session releases
    /// what it held unless that was done already; after a failure nothing of it is kept for reuse.
    pub fn conclude(&mut self, ended: Transcription, user_message: &str) -> (r: (
        Result<TranscriptOutput, BackendError>,
        SessionEnd,
    ))
        requires
            can_end(old(self).kind, ended),
        ensures
            match transcription_error(old(self).kind, old(self).cancelled, ended, user_message@) {
                Some(error) => {
                    &&& r.0 matches Err(e) && e@ == error
                    &&& r.1.cancel == Some(old(self).cancel_of())
                    &&& r.1.release == old(self).release_of(true)
                    &&& final(self)@ == (NativeSessionState {
                        released: true,
                        ..old(self).after_cancel()
                    })
                },
                None => {
                    &&& r.0 matches Ok(output) && ended == (Transcription::Finished {
                        text: output.text,
                        duration_ms: output.duration_ms,
                    })
                    &&& r.1.cancel is None
                    &&& r.1.release == old(self).release_of(false)
                    &&& final(self)@ == (NativeSessionState { released: true, ..old(self)@ })
                },
            },
    {
        let gathers: bool = match self.kind {
            NativeSessionKind::Qwen | NativeSessionKind::Whisper => true,
            _ => false,
        };
        let result: Result<TranscriptOutput, BackendError> = match ended {
            Transcription::Finished { text, duration_ms } => if gathers && self.cancelled {
                Err(BackendError::new(BackendErrorCode::Cancelled, "native ASR request cancelled"))
            } else {
                Ok(TranscriptOutput { text, duration_ms })
            },
            Transcription::FallbackExhausted => Err(
                BackendError {
                    code: BackendErrorCode::Provider,
                    message: user_message.to_owned(),
                    retryable: false,
                    terminal: Some("foundry_fallback".to_owned()),
                },
            ),
            Transcription::Failed { error } => {
                let failure: BackendError = map_native_asr_error(error.as_str());
                if self.kind == NativeSessionKind::Foundry {
                    Err(failure.worth_another_try())
                } else {
                    Err(failure)
                }
            },
            Transcription::TimedOut => Err(transcription_timed_out()),
        };
        if result.is_err() {
            let cancel: NativeCancel = self.cancel_native();
            let release: Option<NativeRelease> = self.release_native(true);
            (result, SessionEnd { cancel: Some(cancel), release })
        } else {
            let release: Option<NativeRelease> = self.release_native(false);
            (result, SessionEnd { cancel: None, release })
        }
    }

    /// Cancels the session, and releases what it held unless that was done already.
    pub fn cancel(&mut self) -> (r: SessionEnd)
        ensures
            r.cancel == Some(old(self).cancel_of()),
            r.release == old(self).release_of(true),
            final(self)@ == (NativeSessionState { released: true, ..old(self).after_cancel() }),
    {
        let cancel: NativeCancel = self.cancel_native();
        let release: Option<NativeRelease> = self.release_native(true);
        SessionEnd { cancel: Some(cancel), release }
    }
}

/// The state of a session.
#[verifier::ext_equal]
pub struct NativeSessionState {
    pub kind: NativeSessionKind,
    pub label: AsrCallLabel,
    pub generation: u64,
    pub keep_loaded_secs: u32,
    pub next_offset: u64,
    pub pcm: Seq<u8>,
    pub cancelled: bool,
    pub released: bool,
}

impl View for NativeSession {
    type V = NativeSessionState;

    open spec fn view(&self) -> NativeSessionState {
        NativeSessionState {
            kind: self.kind,
            label: self.label,
            generation: self.generation,
            keep_loaded_secs: self.keep_loaded_secs,
            next_offset: self.next_offset,
            pcm: self.pcm@,
            cancelled: self.cancelled,
            released: self.released,
        }
    }
}

/// Once a session has ended, however it ended and whatever happens to it later, it releases
/// nothing more: a cancellation and a regular end may meet, and what was held is released once.
pub proof fn sessions_release_once(ended: NativeSession, discard: bool)
    requires
        ended.released,
    ensures
        ended.release_of(discard) is None,
        ended.after_cancel().released,
{
}

/// Where the next partial text stands after one of `count` characters; the count wraps around.
pub open spec fn offset_after(offset: u64, count: nat) -> u64 {
    ((offset + count) % 0x1_0000_0000_0000_0000) as u64
}

/// The characters in the partial texts.
pub open spec fn total_chars(pieces: Seq<Seq<char>>) -> nat
    decreases pieces.len(),
{
    if pieces.len() == 0 {
        0
    } else {
        total_chars(pieces.drop_last()) + pieces.last().len()
    }
}

/// Where the next partial text stands after `pieces`, counted from the start of a session.
pub open spec fn offset_of_next(pieces: Seq<Seq<char>>) -> u64
    decreases pieces.len(),
{
    if pieces.len() == 0 {
        0
    } else {
        offset_after(offset_of_next(pieces.drop_last()), pieces.last().len())
    }
}

/// Partial texts leave no gap and do not overlap: each stands where the text before it ends.
pub proof fn pieces_follow_one_another(pieces: Seq<Seq<char>>)
    requires
        total_chars(pieces) <= u64::MAX,
    ensures
        offset_of_next(pieces) == total_chars(pieces),
    decreases pieces.len(),
{
    if pieces.len() > 0 {
        pieces_follow_one_another(pieces.drop_last());
    }
}

/// How far the release of a session has got.
#[derive(Debug, Clone, Copy, PartialEq, Eq, Structural)]
pub enum ReleaseStage {
    Ordered,
    /// The primary model was to be restored, and this is whether it was.
    Restored { primary: bool },
    /// The time for which the model is kept is over.
    Waited,
}

/// What the release of a session does next.
#[derive(Debug, Clone, Copy, PartialEq, Eq, Structural)]
pub enum ReleaseStep {
    Stop,
    RestorePrimary,
    /// Waits that long; not at all where it is zero.
    Wait { secs: u32 },
    /// Releases the model to which Foundry recovered.
    ReleasePrimary,
    /// Releases the runtime, unless its count moves on meanwhile.
    ReleaseGeneration,
}

/// What the release of a Foundry session does next. `recovered` says that the session ended on a
/// fallback, from which the primary model can be restored.
pub open spec fn next_foundry_release(
    stage: ReleaseStage,
    generation: u64,
    current: u64,
    recovered: bool,
    keep_loaded_secs: u32,
) -> ReleaseStep {
    match stage {
        ReleaseStage::Ordered => if current != generation {
            ReleaseStep::Stop
        } else if recovered && keep_loaded_secs > 0 {
            ReleaseStep::RestorePrimary
        } else {
            ReleaseStep::Wait { secs: keep_loaded_secs }
        },
        ReleaseStage::Restored { primary } => if primary {
            ReleaseStep::Wait { secs: keep_loaded_secs }
        } else {
            ReleaseStep::Stop
        },
        ReleaseStage::Waited => if current != generation {
            ReleaseStep::Stop
        } else if recovered {
            ReleaseStep::ReleasePrimary
        } else {
            ReleaseStep::ReleaseGeneration
        },
    }
}

/// What the release of a Foundry session does next.
pub fn foundry_release_step(
    stage: ReleaseStage,
    generation: u64,
    current: u64,
    recovered: bool,
    keep_loaded_secs: u32,
) -> (r: ReleaseStep)
    ensures
        r == next_foundry_release(stage, generation, current, recovered, keep_loaded_secs),
{
    match stage {
        ReleaseStage::Ordered => if current != generation {
            ReleaseStep::Stop
        } else if recovered && keep_loaded_secs > 0 {
            ReleaseStep::RestorePrimary
        } else {
            ReleaseStep::Wait { secs: keep_loaded_secs }
        },
        ReleaseStage::Restored { primary } => if primary {
            ReleaseStep::Wait { secs: keep_loaded_secs }
        } else {
            ReleaseStep::Stop
        },
        ReleaseStage::Waited => if current != generation {
            ReleaseStep::Stop
        } else if recovered {
            ReleaseStep::ReleasePrimary
        } else {
            ReleaseStep::ReleaseGeneration
        },
    }
}

/// What the release of a sherpa session does, once the model was kept for its time.
pub open spec fn next_sherpa_release(generation: u64, current: u64) -> ReleaseStep {
    if current == generation {
        ReleaseStep::ReleaseGeneration
    } else {
        ReleaseStep::Stop
    }
}

/// What the release of a sherpa session does, once the model was kept for its time.
pub fn sherpa_release_step(generation: u64, current: u64) -> (r: ReleaseStep)
    ensures
        r == next_sherpa_release(generation, current),
{
    if current == generation {
        ReleaseStep::ReleaseGeneration
    } else {
        ReleaseStep::Stop
    }
}

/// A session that new work on its runtime has outdated releases nothing: the model belongs to the
/// new work.
pub proof fn outdated_sessions_release_nothing(
    counts: NativeGenerations,
    recovered: bool,
    keep_loaded_secs: u32,
)
    ensures
        ({
            let foundry = counts.after_work_on(LocalAsrRuntime::Foundry).foundry;
            let sherpa = counts.after_work_on(LocalAsrRuntime::SherpaOnnx).sherpa;
            &&& next_foundry_release(
                ReleaseStage::Ordered,
                counts.foundry,
                foundry,
                recovered,
                keep_loaded_secs,
            ) is Stop
            &&& next_foundry_release(
                ReleaseStage::Waited,
                counts.foundry,
                foundry,
                recovered,
                keep_loaded_secs,
            ) is Stop
            &&& next_sherpa_release(counts.sherpa, sherpa) is Stop
        }),
{
}

/// A session on one native runtime is still released in its time after work on the other.
pub proof fn work_elsewhere_keeps_a_release_in_force(
    counts: NativeGenerations,
    keep_loaded_secs: u32,
)
    ensures
        next_foundry_release(
            ReleaseStage::Waited,
            counts.foundry,
            counts.after_work_on(LocalAsrRuntime::SherpaOnnx).foundry,
            false,
            keep_loaded_secs,
        ) is ReleaseGeneration,
        next_sherpa_release(
            counts.sherpa,
            counts.after_work_on(LocalAsrRuntime::Foundry).sherpa,
        ) is ReleaseGeneration,
{
}

proof fn lemma_gathered(
    calls: Seq<&mut NativeSession>,
    chunks: Seq<&[u8]>,
    to_provider: Seq<bool>,
    n: int,
)
    requires
        calls.len() == chunks.len() + 1,
        to_provider.len() == chunks.len(),
        0 <= n < calls.len(),
        calls[0].kind is Qwen || calls[0].kind is Whisper,
        calls[0].pcm@.len() == 0,
        forall|i: int|
            0 <= i < chunks.len() ==> call_ensures(
                NativeSession::consume_pcm_chunk,
                (#[trigger] calls[i], chunks[i]),
                to_provider[i],
            ),
        forall|i: int| 0 <= i < chunks.len() ==> *final(#[trigger] calls[i]) == *calls[i + 1],
    ensures
        calls[n].kind == calls[0].kind,
        calls[n].pcm@ == chunks.take(n).map_values(|c: &[u8]| c@).flatten_alt(),
        forall|i: int| 0 <= i < n ==> !#[trigger] to_provider[i],
    decreases n,
{
    let bytes = |c: &[u8]| c@;
    let all = chunks.take(n).map_values(bytes);
    if n == 0 {
        assert(all =~= Seq::<Seq<u8>>::empty());
        assert(calls[0].pcm@ =~= all.flatten_alt());
    } else {
        lemma_gathered(calls, chunks, to_provider, n - 1);
        assert(*final(calls[n - 1]) == *calls[n - 1 + 1]);
        assert(all.drop_last() =~= chunks.take(n - 1).map_values(bytes));
        assert(all.last() == chunks[n - 1]@);
    }
}

proof fn lemma_passed_on(
    calls: Seq<&mut NativeSession>,
    chunks: Seq<&[u8]>,
    to_provider: Seq<bool>,
    n: int,
)
    requires
        calls.len() == chunks.len() + 1,
        to_provider.len() == chunks.len(),
        0 <= n < calls.len(),
        calls[0].kind is Foundry || calls[0].kind is Sherpa || calls[0].kind is AppleSpeech,
        forall|i: int|
            0 <= i < chunks.len() ==> call_ensures(
                NativeSession::consume_pcm_chunk,
                (#[trigger] calls[i], chunks[i]),
                to_provider[i],
            ),
        forall|i: int| 0 <= i < chunks.len() ==> *final(#[trigger] calls[i]) == *calls[i + 1],
    ensures
        calls[n].kind == calls[0].kind,
        calls[n].pcm@ == calls[0].pcm@,
        forall|i: int| 0 <= i < n ==> #[trigger] to_provider[i],
    decreases n,
{
    if n > 0 {
        lemma_passed_on(calls, chunks, to_provider, n - 1);
        assert(*final(calls[n - 1]) == *calls[n - 1 + 1]);
    }
}

/// Qwen and Whisper gather the audio. `calls` are the calls on one session, each of which finds it
/// as the one before left it: one for each chunk, and the one that asks it to finish. None of the
/// chunks went to a provider, and the session hands over all of them in order, and is empty then.
pub proof fn qwen_and_whisper_hand_over_all_they_consumed(
    calls: Seq<&mut NativeSession>,
    chunks: Seq<&[u8]>,
    to_provider: Seq<bool>,
    request: FinishRequest,
)
    requires
        calls.len() == chunks.len() + 1,
        to_provider.len() == chunks.len(),
        calls[0].kind is Qwen || calls[0].kind is Whisper,
        calls[0].pcm@.len() == 0,
        forall|i: int|
            0 <= i < chunks.len() ==> call_ensures(
                NativeSession::consume_pcm_chunk,
                (#[trigger] calls[i], chunks[i]),
                to_provider[i],
            ),
        forall|i: int| 0 <= i < chunks.len() ==> *final(#[trigger] calls[i]) == *calls[i + 1],
        call_ensures(NativeSession::begin_finish, (calls.last(),), request),
    ensures
        forall|i: int| 0 <= i < chunks.len() ==> !#[trigger] to_provider[i],
        request.gathered matches Some((audio, _)) && audio@ == chunks.map_values(
            |c: &[u8]| c@,
        ).flatten_alt(),
        final(calls.last()).pcm@.len() == 0,
{
    lemma_gathered(calls, chunks, to_provider, chunks.len() as int);
    assert(chunks.take(chunks.len() as int) =~= chunks);
}

/// Foundry, Sherpa and Apple sessions pass every chunk to their provider and hand over no audio.
pub proof fn foundry_sherpa_and_apple_hand_over_nothing(
    calls: Seq<&mut NativeSession>,
    chunks: Seq<&[u8]>,
    to_provider: Seq<bool>,
    request: FinishRequest,
)
    requires
        calls.len() == chunks.len() + 1,
        to_provider.len() == chunks.len(),
        calls[0].kind is Foundry || calls[0].kind is Sherpa || calls[0].kind is AppleSpeech,
        forall|i: int|
            0 <= i < chunks.len() ==> call_ensures(
                NativeSession::consume_pcm_chunk,
                (#[trigger] calls[i], chunks[i]),
                to_provider[i],
            ),
        forall|i: int| 0 <= i < chunks.len() ==> *final(#[trigger] calls[i]) == *calls[i + 1],
        call_ensures(NativeSession::begin_finish, (calls.last(),), request),
    ensures
        forall|i: int| 0 <= i < chunks.len() ==> #[trigger] to_provider[i],
        request.gathered is None,
        final(calls.last()).pcm@ == calls[0].pcm@,
{
    lemma_passed_on(calls, chunks, to_provider, chunks.len() as int);
}

/// One of the calls that a session takes was made on it, and came back.
pub open spec fn was_called(session: &mut NativeSession) -> bool {
    ||| exists|pcm: &[u8], to_provider: bool| #[trigger]
        call_ensures(NativeSession::consume_pcm_chunk, (session, pcm), to_provider)
    ||| exists|piece: &str, offset: Option<u64>| #[trigger]
        call_ensures(NativeSession::publish_piece, (session, piece), offset)
    ||| exists|request: FinishRequest| #[trigger]
        call_ensures(NativeSession::begin_finish, (session,), request)
    ||| exists|end: SessionEnd| #[trigger] call_ensures(NativeSession::cancel, (session,), end)
    ||| exists|
        ended: Transcription,
        message: &str,
        r: (Result<TranscriptOutput, BackendError>, SessionEnd),
    | #[trigger] call_ensures(NativeSession::conclude, (session, ended, message), r)
}

/// Whatever is called, a session keeps its kind and what it was started with, and neither a
/// cancellation nor a release is taken back.
pub proof fn sessions_only_move_on(session: &mut NativeSession)
    requires
        was_called(session),
    ensures
        final(session).kind == old(session).kind,
        final(session).label == old(session).label,
        final(session).generation == old(session).generation,
        final(session).keep_loaded_secs == old(session).keep_loaded_secs,
        old(session).cancelled ==> final(session).cancelled,
        old(session).released ==> final(session).released,
{
}

proof fn lemma_stays_cancelled(calls: Seq<&mut NativeSession>, n: int)
    requires
        forall|i: int| 0 <= i < calls.len() ==> was_called(#[trigger] calls[i]),
        forall|i: int| 0 <= i < calls.len() - 1 ==> *final(#[trigger] calls[i]) == *calls[i + 1],
        0 <= n < calls.len(),
        calls[0].cancelled,
    ensures
        calls[n].cancelled,
        calls[n].kind == calls[0].kind,
    decreases n,
{
    if n > 0 {
        lemma_stays_cancelled(calls, n - 1);
        assert(*final(calls[n - 1]) == *calls[n - 1 + 1]);
        assert(was_called(calls[n - 1]));
        let before = calls[n - 1];
        assert(before.cancelled ==> final(before).cancelled);
    }
}

/// A Qwen or Whisper session that was cancelled never gives out a text, whatever was called on it
/// in between and however well its transcription ended. `calls` begin after the cancellation and
/// end with the conclusion.
pub proof fn cancelled_qwen_and_whisper_give_no_text(
    cancelled: &mut NativeSession,
    end: SessionEnd,
    calls: Seq<&mut NativeSession>,
    ended: Transcription,
    message: &str,
    r: (Result<TranscriptOutput, BackendError>, SessionEnd),
)
    requires
        cancelled.kind is Qwen || cancelled.kind is Whisper,
        call_ensures(NativeSession::cancel, (cancelled,), end),
        calls.len() > 0,
        *final(cancelled) == *calls[0],
        forall|i: int| 0 <= i < calls.len() ==> was_called(#[trigger] calls[i]),
        forall|i: int| 0 <= i < calls.len() - 1 ==> *final(#[trigger] calls[i]) == *calls[i + 1],
        call_ensures(NativeSession::conclude, (calls.last(), ended, message), r),
    ensures
        final(cancelled).pcm@.len() == 0,
        r.0 is Err,
        ended is Finished ==> (r.0->Err_0).code is Cancelled && (r.0->Err_0).message@
            == "native ASR request cancelled"@,
{
    lemma_stays_cancelled(calls, calls.len() - 1);
}

/// A transcription that finished gives its own text and duration and cancels nothing: for Foundry,
/// Sherpa and Apple always, for Qwen and Whisper where nobody cancelled the session. Nothing else
/// gives a text.
pub proof fn finished_texts_come_through(
    session: &mut NativeSession,
    ended: Transcription,
    message: &str,
    r: (Result<TranscriptOutput, BackendError>, SessionEnd),
)
    requires
        call_ensures(NativeSession::conclude, (session, ended, message), r),
    ensures
        r.0 is Ok <==> ended is Finished && !(old(session).cancelled && (old(session).kind is Qwen
            || old(session).kind is Whisper)),
        r.0 matches Ok(output) ==> output.text@ == ended->text@ && output.duration_ms
            == ended->duration_ms,
        r.1.cancel is None <==> r.0 is Ok,
        final(session).released,
{
}

/// Why a session gave no text: what went wrong, in which words, and whether another try may help.
pub proof fn failed_sessions_say_why(
    session: &mut NativeSession,
    ended: Transcription,
    message: &str,
    e: BackendError,
    end: SessionEnd,
)
    requires
        call_ensures(NativeSession::conclude, (session, ended, message), (Err(e), end)),
    ensures
        ended is TimedOut ==> e.code is Provider && e.message@
            == "native ASR transcription timed out"@ && e.retryable && e.terminal is None,
        ended is FallbackExhausted ==> e.code is Provider && e.message@ == message@ && !e.retryable
            && e.terminal is Some && e.terminal->0@ == "foundry_fallback"@,
        ended matches Transcription::Failed { error } ==> e.code is Provider && e.message@
            == "native ASR provider failed: "@ + error@ && e.retryable == (old(session).kind
            is Foundry) && e.terminal is None,
        ended is Finished ==> e.code is Cancelled && !e.retryable && e.terminal is None,
{
}

/// What the end of a session does to what it runs on. `cancelled` and `concluded` are two ends of
/// one state: a session that is cancelled or fails stops its work and discards a cached engine, a
/// session that gives its text keeps the engine, and what a session holds is given back once.
pub proof fn sessions_give_back_what_they_hold(
    cancelled: &mut NativeSession,
    end: SessionEnd,
    concluded: &mut NativeSession,
    ended: Transcription,
    message: &str,
    r: (Result<TranscriptOutput, BackendError>, SessionEnd),
)
    requires
        *old(cancelled) == *old(concluded),
        call_ensures(NativeSession::cancel, (cancelled,), end),
        call_ensures(NativeSession::conclude, (concluded, ended, message), r),
    ensures
        final(cancelled).released && final(concluded).released,
        old(cancelled).released ==> end.release is None && r.1.release is None,
        !old(cancelled).released ==> end.release is Some && r.1.release is Some,
        !old(cancelled).released && old(cancelled).kind is Foundry ==> end.release->0 is Foundry
            && r.1.release->0 is Foundry,
        !old(cancelled).released && old(cancelled).kind is Sherpa ==> end.release->0 is Sherpa
            && r.1.release->0 is Sherpa,
        !old(cancelled).released && old(cancelled).kind is AppleSpeech ==> end.release->0 is Nothing
            && r.1.release->0 is Nothing,
        !old(cancelled).released && (old(cancelled).kind is Qwen || old(cancelled).kind is Whisper)
            ==> end.release->0 == (NativeRelease::Cache { discard: true }) && r.1.release->0 == (
        NativeRelease::Cache { discard: r.0 is Err }),
        end.cancel is Some,
        old(cancelled).kind is Qwen ==> end.cancel->0 is EngineOperation,
        old(cancelled).kind is Whisper ==> end.cancel->0 is Nothing,
        old(cancelled).kind is Foundry || old(cancelled).kind is Sherpa || old(cancelled).kind
            is AppleSpeech ==> end.cancel->0 is Provider,
        r.0 is Err ==> r.1.cancel == end.cancel,
{
}

/// The length of the audio that is handed over is that of its samples: two bytes a sample, sixteen
/// samples a millisecond, the rest of a millisecond dropped.
pub proof fn audio_lasts_as_long_as_its_samples(
    bytes: &[u8],
    ms: u64,
    session: &mut NativeSession,
    request: FinishRequest,
)
    requires
        (bytes@.len() / 2) * 1000 <= u64::MAX,
        call_ensures(pcm_duration_ms, (bytes,), ms),
        call_ensures(NativeSession::begin_finish, (session,), request),
        old(session).pcm@ == bytes@,
    ensures
        32 * ms <= bytes@.len() < 32 * ms + 32,
        request.gathered matches Some((_, gathered_ms)) ==> gathered_ms == ms,
{
}

/// The rule for the waiting time at the end goes by the kind of the session alone.
pub proof fn every_kind_has_its_waiting_rule(session: &mut NativeSession, request: FinishRequest)
    requires
        call_ensures(NativeSession::begin_finish, (session,), request),
    ensures
        old(session).kind is Foundry ==> request.timeout_rule@ == "foundry-local-whisper"@,
        old(session).kind is Sherpa ==> request.timeout_rule@ == "sherpa-onnx-local"@,
        old(session).kind is Qwen ==> request.timeout_rule@ == "local-qwen3"@,
        old(session).kind is Whisper ==> request.timeout_rule@ == "local-whisper"@,
        old(session).kind is AppleSpeech ==> request.timeout_rule@ == "apple-speech"@,
{
}

/// Pieces of text follow one another without gaps: the second begins where the first ended. A
/// cancelled Qwen session publishes nothing; a Sherpa session goes on.
pub proof fn published_pieces_leave_no_gap(
    first: &mut NativeSession,
    piece: &str,
    first_at: Option<u64>,
    second: &mut NativeSession,
    next_piece: &str,
    second_at: Option<u64>,
)
    requires
        old(first).kind is Qwen || old(first).kind is Sherpa,
        call_ensures(NativeSession::publish_piece, (first, piece), first_at),
        *final(first) == *old(second),
        call_ensures(NativeSession::publish_piece, (second, next_piece), second_at),
    ensures
        old(first).kind is Qwen && old(first).cancelled ==> first_at is None && second_at is None
            && final(second).next_offset == old(first).next_offset,
        old(first).kind is Sherpa || !old(first).cancelled ==> first_at == Some(
            old(first).next_offset,
        ) && second_at is Some,
        (old(first).kind is Sherpa || !old(first).cancelled) && old(first).next_offset + piece@.len()
            <= u64::MAX ==> second_at == Some((old(first).next_offset + piece@.len()) as u64),
{
}

/// Notices are shown as long as the session holds its runtime and somebody is there to see them.
pub proof fn released_sessions_show_no_notices(session: &NativeSession, alive: bool, r: bool)
    requires
        call_ensures(NativeSession::shows_notices, (session, alive), r),
    ensures
        session.released ==> !r,
        !alive ==> !r,
        !session.released && alive ==> r,
{
}

/// Each kind of session has its systems: Foundry and Sherpa run on Windows, Whisper and Apple speech
/// on macOS, Qwen on macOS and Linux; and what a plan runs is what its provider was said to be.
pub proof fn plans_keep_to_their_system<B>(
    request: &AsrRequest,
    catalog: AsrCatalog<B>,
    target: TargetOs,
    plan: NativePlan<B>,
)
    requires
        target is Windows || target is Macos || target is Linux,
        call_ensures(plan_native_session::<B>, (request, catalog, target), Ok(plan)),
    ensures
        plan is Foundry ==> target is Windows && catalog.is_foundry,
        plan is Sherpa ==> target is Windows && catalog.is_sherpa,
        plan is Whisper ==> target is Macos && catalog.generic.is_whisper,
        plan is AppleSpeech ==> target is Macos && catalog.generic.is_apple_speech,
        plan is Qwen ==> (target is Macos || target is Linux) && catalog.generic.is_qwen
            && catalog.generic.qwen_backend == Some(plan->backend) && request.model is Some,
        target is Windows && catalog.is_foundry ==> plan is Foundry,
        !(target is Windows) && catalog.generic.is_qwen ==> plan is Qwen,
{
}

/// A session runs the model that was asked for where its provider has it, and the provider's own
/// default otherwise.
pub proof fn plans_run_the_model_asked_for<B>(
    request: &AsrRequest,
    catalog: AsrCatalog<B>,
    target: TargetOs,
    plan: NativePlan<B>,
)
    requires
        target is Windows || target is Macos || target is Linux,
        call_ensures(plan_native_session::<B>, (request, catalog, target), Ok(plan)),
    ensures
        plan matches NativePlan::Foundry { model, runtime_source, language } ==> {
            &&& request.model is Some && catalog.foundry_has_model ==> model@ == request.model->0@
            &&& request.model is None || !catalog.foundry_has_model ==> model@
                == catalog.foundry_default@
            &&& request.runtime is Some ==> runtime_source@ == request.runtime->0@
            &&& request.runtime is None ==> runtime_source@ == "auto"@
            &&& language == request.language
        },
        plan matches NativePlan::Sherpa { model, language } ==> {
            &&& request.model is Some && catalog.sherpa_has_model ==> model@ == request.model->0@
            &&& request.model is None || !catalog.sherpa_has_model ==> model@
                == catalog.sherpa_default@
            &&& language == request.language
        },
        plan matches NativePlan::Whisper { model_id, language } ==> {
            &&& request.model is None ==> model_id@ == catalog.whisper_default@
            &&& catalog.generic_model is None || !(catalog.generic_model->0.family is Whisper)
                ==> model_id@ == catalog.whisper_default@
            &&& request.model is Some && catalog.generic_model is Some
                && catalog.generic_model->0.family is Whisper ==> model_id@ == request.model->0@
            &&& request.language is Some ==> language@ == request.language->0@
            &&& request.language is None ==> language@ == "auto"@
        },
        plan matches NativePlan::Qwen { model_id, .. } ==> catalog.generic_model is Some
            && catalog.generic_model->0.family is Qwen && model_id@
            == catalog.generic_model->0.id@,
        plan matches NativePlan::AppleSpeech { language } ==> {
            &&& request.working_languages@.len() > 0 ==> language is Some && language->0@
                == request.working_languages@[0]@
            &&& request.working_languages@.len() == 0 ==> language is None
        },
{
}

/// A provider that no system serves is refused with its name; Qwen is refused where its backend or
/// its model is missing.
pub proof fn unserved_providers_are_refused<B>(
    request: &AsrRequest,
    catalog: AsrCatalog<B>,
    target: TargetOs,
    r: Result<NativePlan<B>, BackendError>,
)
    requires
        target is Windows || target is Macos || target is Linux,
        call_ensures(plan_native_session::<B>, (request, catalog, target), r),
    ensures
        target is Linux && !catalog.generic.is_qwen || target is Windows && !catalog.is_foundry
            && !catalog.is_sherpa || target is Macos && !catalog.generic.is_qwen
            && !catalog.generic.is_whisper && !catalog.generic.is_apple_speech ==> r is Err && (
        r->Err_0).code is Unsupported && (r->Err_0).message@
            == "native ASR provider is unavailable: "@ + request.provider_type@,
        !(target is Windows) && catalog.generic.is_qwen && catalog.generic.qwen_backend is None
            ==> r is Err && (r->Err_0).code is Unsupported && (r->Err_0).message@
            == "Qwen backend is unavailable: "@ + request.provider_type@,
        !(target is Windows) && catalog.generic.is_qwen && catalog.generic.qwen_backend is Some
            && request.model is None ==> r is Err && (r->Err_0).code is Provider && (
        r->Err_0).message@ == "local Qwen model is not configured"@,
{
}

/// The providers that a system serves, each under its ids, and none on any other system.
pub proof fn every_system_serves_its_own_providers(
    ids: &NativeProviderIds,
    on_windows: Vec<String>,
    on_macos: Vec<String>,
    on_linux: Vec<String>,
)
    requires
        call_ensures(native_provider_types, (ids, TargetOs::Windows), on_windows),
        call_ensures(native_provider_types, (ids, TargetOs::Macos), on_macos),
        call_ensures(native_provider_types, (ids, TargetOs::Linux), on_linux),
    ensures
        on_windows@.len() == 5,
        on_windows@[0]@ == ids.foundry@ && on_windows@[1]@ == "foundry-local"@ && on_windows@[2]@
            == "foundry-whisper"@,
        on_windows@[3]@ == ids.sherpa@ && on_windows@[4]@ == "sherpa-onnx"@,
        on_macos@.len() == 5,
        on_macos@[3]@ == ids.whisper@ && on_macos@[4]@ == ids.apple_speech@,
        on_linux@.len() == 3,
        on_linux@[0]@ == ids.qwen@ && on_linux@[1]@ == ids.qwen_mlx@ && on_linux@[2]@
            == ids.qwen_c@,
        forall|i: int| 0 <= i < 3 ==> (#[trigger] on_macos@[i])@ == on_linux@[i]@,
{
    let windows = text::texts(on_windows@);
    assert(windows.len() == on_windows@.len());
    assert forall|i: int| 0 <= i < windows.len() implies (#[trigger] on_windows@[i])@
        == windows[i] by {}
    let macos = text::texts(on_macos@);
    assert(macos.len() == on_macos@.len());
    assert forall|i: int| 0 <= i < macos.len() implies (#[trigger] on_macos@[i])@ == macos[i] by {}
    let linux = text::texts(on_linux@);
    assert(linux.len() == on_linux@.len());
    assert forall|i: int| 0 <= i < linux.len() implies (#[trigger] on_linux@[i])@ == linux[i] by {}
}

/// A new session outdates those before it on its own runtime, and only there.
pub proof fn new_sessions_outdate_older_ones(
    counts: &mut NativeGenerations,
    is_foundry: bool,
    r: u64,
)
    requires
        call_ensures(begin_generation, (counts, is_foundry), r),
    ensures
        is_foundry ==> r == final(counts).foundry && r != old(counts).foundry
            && final(counts).sherpa == old(counts).sherpa,
        is_foundry && old(counts).foundry < u64::MAX ==> r == old(counts).foundry + 1,
        !is_foundry && old(counts).sherpa < u64::MAX ==> r == old(counts).sherpa + 1,
        !is_foundry ==> r == final(counts).sherpa && r != old(counts).sherpa
            && final(counts).foundry == old(counts).foundry,
{
}

/// Foundry and Apple sessions are ready at once; Sherpa, Qwen and Whisper first find their model.
pub proof fn only_stored_models_are_looked_for<B>(plan: NativePlan<B>, r: NativeStart<B>)
    requires
        call_ensures(NativeStart::<B>::begin, (plan,), r),
    ensures
        r.plan == plan,
        plan is Foundry || plan is AppleSpeech ==> r.stage is Ready,
        plan is Sherpa || plan is Qwen || plan is Whisper ==> r.stage is ParsingTarget,
{
}

/// A start goes on with the next question where the last was answered well, and looks for a file
/// only for Whisper.
pub proof fn starts_ask_one_question_after_another<B>(
    start: NativeStart<B>,
    reply: StartReply,
    next: NativeStart<B>,
)
    requires
        call_ensures(NativeStart::<B>::answer, (start, reply), Ok(next)),
    ensures
        next.plan == start.plan,
        start.stage is ParsingTarget ==> next.stage is FindingStore,
        start.stage is FindingStore ==> next.stage is CheckingInstalled,
        start.stage is CheckingInstalled ==> next.stage is FindingDirectory,
        start.stage is FindingDirectory && start.plan is Whisper ==> next.stage is FindingFile,
        start.stage is FindingDirectory && !(start.plan is Whisper) ==> next.stage is Loading,
        start.stage is FindingFile ==> next.stage is Loading,
        start.stage is Loading ==> next.stage is Ready,
        !(reply matches StartReply::Store(false)),
        !(reply matches StartReply::Installed(Ok(false))),
        reply matches StartReply::Target(t) ==> t is Ok,
        reply matches StartReply::Installed(t) ==> t is Ok,
        reply matches StartReply::Directory(t) ==> t is Ok,
        reply matches StartReply::File(t) ==> t is Ok,
        reply matches StartReply::Loaded(t) ==> t is Ok,
{
}

/// A start that ends early says why: in the words of the store where it has some, that there is no
/// store, that the model is not downloaded, or what the provider said.
pub proof fn starts_say_what_is_missing<B>(
    start: NativeStart<B>,
    reply: StartReply,
    e: BackendError,
)
    requires
        call_ensures(NativeStart::<B>::answer, (start, reply), Err(e)),
    ensures
        !(reply matches StartReply::Store(true)),
        !(reply matches StartReply::Installed(Ok(true))),
        reply matches StartReply::Target(t) ==> t matches Err(f) && e@ == f@,
        reply matches StartReply::Directory(t) ==> t matches Err(f) && e@ == f@,
        reply matches StartReply::Installed(Err(f)) ==> e@ == f@,
        reply is Store ==> e.code is Unsupported && e.message@ == "Core model store is unavailable"@,
        reply matches StartReply::Installed(Ok(_)) ==> {
            &&& e.code is InvalidState
            &&& start.plan is Sherpa ==> e.message@ == "Sherpa model is not downloaded"@
            &&& start.plan is Qwen ==> e.message@ == "local Qwen model is not downloaded"@
            &&& start.plan is Whisper ==> e.message@ == "local Whisper model is not downloaded"@
        },
        reply matches StartReply::File(t) ==> t matches Err(words) && e.code is Provider
            && e.message@ == "native ASR provider failed: "@ + words@,
        reply matches StartReply::Loaded(t) ==> t matches Err(words) && e.code is Provider
            && e.message@ == "native ASR provider failed: "@ + words@,
{
}

/// A session begins with nothing said and nothing heard, under the name of what it runs.
pub proof fn sessions_begin_empty<B>(
    start: NativeStart<B>,
    request: &AsrRequest,
    generation: u64,
    r: NativeSession,
)
    requires
        call_ensures(NativeStart::<B>::into_session, (start, request, generation), r),
    ensures
        r.pcm@.len() == 0 && r.next_offset == 0 && !r.cancelled && !r.released,
        r.generation == generation,
        r.label.provider_type@ == request.provider_type@,
        request.keep_loaded_secs is Some ==> r.keep_loaded_secs == request.keep_loaded_secs->0,
        request.keep_loaded_secs is None ==> r.keep_loaded_secs == 0,
        start.plan matches NativePlan::Foundry { model, .. } ==> r.kind is Foundry && r.label.model
            is Some && r.label.model->0@ == model@,
        start.plan matches NativePlan::Sherpa { model, .. } ==> r.kind is Sherpa && r.label.model
            is Some && r.label.model->0@ == model@,
        start.plan matches NativePlan::Qwen { model_id, .. } ==> r.kind is Qwen && r.label.model
            is Some && r.label.model->0@ == model_id@,
        start.plan matches NativePlan::Whisper { model_id, .. } ==> r.kind is Whisper
            && r.label.model is Some && r.label.model->0@ == model_id@,
        start.plan is AppleSpeech ==> r.kind is AppleSpeech && r.label.model is None,
{
}

/// A release that was put off is dropped once a newer session runs. A runtime that had to recover
/// goes back to its primary device first, where its model is to be kept loaded at all; the wait is
/// as long as the model is to be kept.
pub proof fn releases_wait_and_look_again(
    stage: ReleaseStage,
    generation: u64,
    current: u64,
    recovered: bool,
    keep_loaded_secs: u32,
    foundry: ReleaseStep,
    sherpa: ReleaseStep,
)
    requires
        call_ensures(
            foundry_release_step,
            (stage, generation, current, recovered, keep_loaded_secs),
            foundry,
        ),
        call_ensures(sherpa_release_step, (generation, current), sherpa),
    ensures
        current != generation && !(stage is Restored) ==> foundry is Stop,
        current != generation ==> sherpa is Stop,
        current == generation ==> sherpa is ReleaseGeneration,
        current == generation && stage is Ordered ==> (foundry is RestorePrimary <==> recovered
            && keep_loaded_secs > 0),
        current == generation && stage is Ordered && (!recovered || keep_loaded_secs == 0)
            ==> foundry == (ReleaseStep::Wait { secs: keep_loaded_secs }),
        stage matches ReleaseStage::Restored { primary } ==> {
            &&& primary ==> foundry == (ReleaseStep::Wait { secs: keep_loaded_secs })
            &&& !primary ==> foundry is Stop
        },
        current == generation && stage is Waited && recovered ==> foundry is ReleasePrimary,
        current == generation && stage is Waited && !recovered ==> foundry is ReleaseGeneration,
{
}

/// A plan is of the kind that it runs, under the name of its model; the errors of a provider say what
/// it said, and a timeout is worth another try.
pub proof fn plans_are_named_by_what_they_run<B>(
    plan: NativePlan<B>,
    kind: NativeSessionKind,
    model: Option<String>,
    words: &str,
    failed: BackendError,
    timed_out: BackendError,
)
    requires
        call_ensures(NativePlan::<B>::kind, (&plan,), kind),
        call_ensures(NativePlan::<B>::label_model, (&plan,), model),
        call_ensures(map_native_asr_error, (words,), failed),
        call_ensures(transcription_timed_out, (), timed_out),
    ensures
        plan is Foundry <==> kind is Foundry,
        plan is Sherpa <==> kind is Sherpa,
        plan is Qwen <==> kind is Qwen,
        plan is Whisper <==> kind is Whisper,
        plan is AppleSpeech <==> kind is AppleSpeech,
        model is None <==> plan is AppleSpeech,
        plan is Foundry ==> model->0@ == plan->Foundry_model@,
        plan is Sherpa ==> model->0@ == plan->Sherpa_model@,
        plan is Qwen ==> model->0@ == plan->Qwen_model_id@,
        plan is Whisper ==> model->0@ == plan->Whisper_model_id@,
        failed.code is Provider && failed.message@ == "native ASR provider failed: "@ + words@
            && !failed.retryable,
        timed_out.code is Provider && timed_out.message@ == "native ASR transcription timed out"@
            && timed_out.retryable,
{
}

} // verus!
