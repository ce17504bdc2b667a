//! The plain values that every part of the application shares.

use vstd::prelude::*;

verus! {

/// How speech becomes text: recognition followed by a language model, or one multimodal model.
#[derive(Debug, Clone, Copy, PartialEq, Eq, Structural)]
pub enum PipelineMode {
    Traditional,
    Multimodal,
}

impl Default for PipelineMode {
    fn default() -> (r: PipelineMode)
        ensures
            r is Traditional,
    {
        PipelineMode::Traditional
    }
}

/// The script that Chinese output prefers.
#[derive(Debug, Clone, Copy, PartialEq, Eq, Structural)]
pub enum ChineseScriptPreference {
    Auto,
    Simplified,
    Traditional,
}

impl Default for ChineseScriptPreference {
    fn default() -> (r: ChineseScriptPreference)
        ensures
            r is Auto,
    {
        ChineseScriptPreference::Auto
    }
}

/// The language that output prefers.
#[derive(Debug, Clone, Copy, PartialEq, Eq, Structural)]
pub enum OutputLanguagePreference {
    Auto,
    ZhCn,
    ZhTw,
    En,
    Ja,
    Ko,
}

impl Default for OutputLanguagePreference {
    fn default() -> (r: OutputLanguagePreference)
        ensures
            r is Auto,
    {
        OutputLanguagePreference::Auto
    }
}

/// The keys pressed to simulate a paste on Windows and Linux. Some terminals take only
/// `Ctrl+Shift+V` or `Shift+Insert`.
#[derive(Debug, Clone, Copy, PartialEq, Eq, Structural)]
pub enum PasteShortcut {
    CtrlV,
    CtrlShiftV,
    ShiftInsert,
}

impl Default for PasteShortcut {
    fn default() -> (r: PasteShortcut)
        ensures
            r is CtrlV,
    {
        PasteShortcut::CtrlV
    }
}

/// How dictated text is inserted on Windows.
#[derive(Debug, Clone, Copy, PartialEq, Eq, Structural)]
pub enum WindowsInsertionMode {
    Tsf,
    SendInput,
    Paste,
}

impl Default for WindowsInsertionMode {
    fn default() -> (r: WindowsInsertionMode)
        ensures
            r is Tsf,
    {
        WindowsInsertionMode::Tsf
    }
}

/// How `SendInput` types a line break.
#[derive(Debug, Clone, Copy, PartialEq, Eq, Structural)]
pub enum WindowsSendInputNewlineMode {
    Enter,
    ShiftEnter,
    CrLf,
}

impl Default for WindowsSendInputNewlineMode {
    fn default() -> (r: WindowsSendInputNewlineMode)
        ensures
            r is Enter,
    {
        WindowsSendInputNewlineMode::Enter
    }
}

/// How a line break is typed on macOS while text streams in. `Auto` goes by the application that was
/// in front when the session began.
#[derive(Debug, Clone, Copy, PartialEq, Eq, Structural)]
pub enum MacosNewlineMode {
    Auto,
    ShiftReturn,
    LineFeed,
    Return,
}

impl Default for MacosNewlineMode {
    fn default() -> (r: MacosNewlineMode)
        ensures
            r is Auto,
    {
        MacosNewlineMode::Auto
    }
}

/// The channel of automatic updates.
#[derive(Debug, Clone, Copy, PartialEq, Eq, Structural)]
pub enum UpdateChannel {
    Stable,
    Beta,
}

impl Default for UpdateChannel {
    fn default() -> (r: UpdateChannel)
        ensures
            r is Stable,
    {
        UpdateChannel::Stable
    }
}

#[derive(Debug, Clone, Copy, PartialEq, Eq, Structural)]
pub enum ThemeMode {
    System,
    Light,
    Dark,
}

impl Default for ThemeMode {
    fn default() -> (r: ThemeMode)
        ensures
            r is System,
    {
        ThemeMode::System
    }
}

/// Whether a polished selection replaces the text at once or is confirmed in a preview.
#[derive(Debug, Clone, Copy, PartialEq, Eq, Structural)]
pub enum SelectionPolishOutputMode {
    DirectReplace,
    PreviewConfirm,
}

impl Default for SelectionPolishOutputMode {
    fn default() -> (r: SelectionPolishOutputMode)
        ensures
            r is DirectReplace,
    {
        SelectionPolishOutputMode::DirectReplace
    }
}

/// The look of the recording capsule.
#[derive(Debug, Clone, Copy, PartialEq, Eq, Structural)]
pub enum CapsuleStyle {
    Siri,
    Classic,
}

impl Default for CapsuleStyle {
    fn default() -> (r: CapsuleStyle)
        ensures
            r is Siri,
    {
        CapsuleStyle::Siri
    }
}

/// How strongly a dictation is polished.
#[derive(Debug, Clone, Copy, PartialEq, Eq, Structural)]
pub enum PolishMode {
    Raw,
    Light,
    Structured,
    Formal,
}

/// When the floating control is shown on Android.
#[derive(Debug, Clone, Copy, PartialEq, Eq, Structural)]
pub enum AndroidOverlayTrigger {
    Background,
    Keyboard,
    Always,
}

#[derive(Debug, Clone, Copy, PartialEq, Eq, Structural)]
pub enum CapsuleState {
    Idle,
    Recording,
    Transcribing,
    Polishing,
    Done,
    Cancelled,
    Error,
}

#[derive(Debug, Clone, Copy, PartialEq, Eq, Structural)]
pub enum WindowsImeInstallState {
    Installed,
    NotInstalled,
    RegistrationBroken,
    NotWindows,
}

/// The pipeline that runs: the multimodal one only where its experiment is switched on.
pub fn effective_pipeline_mode(enabled: bool, configured: PipelineMode) -> (r: PipelineMode)
    ensures
        r is Multimodal <==> enabled && configured is Multimodal,
{
    if enabled {
        configured
    } else {
        PipelineMode::Traditional
    }
}

/// Where an edit took place on the screen: the bits of IEEE 754 doubles, in logical points.
#[derive(Debug, Clone, Copy, PartialEq, Eq)]
pub struct EditAnchor {
    pub x_bits: u64,
    pub y_bits: u64,
    pub width_bits: u64,
    pub height_bits: u64,
}

/// A vocabulary suggestion that waits for the user. It lives in memory only.
#[derive(Debug, Clone, PartialEq)]
pub struct PendingCorrection {
    pub id: String,
    /// The wrong spelling, shown on the card and never stored.
    pub pattern: String,
    /// The word that enters the vocabulary once the user accepts.
    pub replacement: String,
    pub anchor: Option<EditAnchor>,
}

/// How many suggestions one card lists; the oldest give way.
pub const MAX_PENDING_CORRECTIONS: usize = 5;

/// Marks vocabulary entries that came out of an accepted suggestion.
pub const LEARNED_VOCAB_NOTE: &'static str = "从手改中自动收集";

/// What the card shows when text could not be inserted.
#[derive(Debug, Clone, PartialEq, Eq)]
pub struct InsertFallbackCardPayload {
    /// The whole text, though part of it may already stand on the screen.
    pub text: String,
    /// For the log only.
    pub reason: String,
    /// Counts the showings, so that a late size report of an old card does not resize a new one.
    pub presentation_id: u64,
}

/// Streaming into the target broke off half way.
pub const INSERT_FALLBACK_REASON_PARTIAL_STREAM: &'static str = "partialStream";

/// The insertion did not go through.
pub const INSERT_FALLBACK_REASON_INSERT_FAILED: &'static str = "insertFailed";

/// How long a vocabulary card stays.
pub const VOCAB_SUGGESTION_TTL_MS: u64 = 10_000;

/// What the settings page may know of the credentials: whether they are set.
#[derive(Debug, Clone, PartialEq, Eq)]
pub struct CredentialsStatus {
    pub active_asr_provider: String,
    pub active_llm_provider: String,
    pub pipeline_mode: PipelineMode,
    pub asr_configured: bool,
    pub llm_configured: bool,
    /// Of meaning only where `pipeline_mode` is `Multimodal`.
    pub omni_configured: bool,
    pub volcengine_configured: bool,
    pub ark_configured: bool,
}

impl Default for CredentialsStatus {
    fn default() -> (r: CredentialsStatus)
        ensures
            r.active_asr_provider@.len() == 0,
            r.active_llm_provider@.len() == 0,
            r.pipeline_mode is Traditional,
            !r.asr_configured,
            !r.llm_configured,
            !r.omni_configured,
            !r.volcengine_configured,
            !r.ark_configured,
    {
        CredentialsStatus {
            active_asr_provider: String::new(),
            active_llm_provider: String::new(),
            pipeline_mode: PipelineMode::Traditional,
            asr_configured: false,
            llm_configured: false,
            omni_configured: false,
            volcengine_configured: false,
            ark_configured: false,
        }
    }
}

/// The numbers of the day on the overview page.
#[derive(Debug, Clone)]
pub struct TodayMetrics {
    pub chars_today: u64,
    pub segments_today: u64,
    pub avg_latency_ms: u64,
    pub total_duration_ms: u64,
}

impl Default for TodayMetrics {
    fn default() -> (r: TodayMetrics)
        ensures
            r.chars_today == 0,
            r.segments_today == 0,
            r.avg_latency_ms == 0,
            r.total_duration_ms == 0,
    {
        TodayMetrics {
            chars_today: 0,
            segments_today: 0,
            avg_latency_ms: 0,
            total_duration_ms: 0,
        }
    }
}

/// One message of a conversation about a selection.
#[derive(Debug, Clone, PartialEq, Eq)]
pub struct QaChatMessage {
    /// `user` or `assistant`.
    pub role: String,
    pub content: String,
    /// The selection, for display; the language model reads `role` and `content` only.
    pub selection_text: Option<String>,
}

#[derive(Debug, Clone, PartialEq, Eq)]
pub struct WindowsImeStatus {
    pub state: WindowsImeInstallState,
    pub using_tsf_backend: bool,
    pub message: String,
    pub dll_path: Option<String>,
}

/// The multimodal pipeline runs where it is switched on and chosen, and nowhere else.
pub proof fn the_multimodal_pipeline_needs_both(
    enabled: bool,
    configured: PipelineMode,
    r: PipelineMode,
)
    requires
        call_ensures(effective_pipeline_mode, (enabled, configured), r),
    ensures
        enabled ==> r == configured,
        !enabled ==> r is Traditional,
{
}

/// What is chosen until the user chooses otherwise.
pub proof fn choices_have_defaults(
    pipeline: PipelineMode,
    script: ChineseScriptPreference,
    language: OutputLanguagePreference,
    paste: PasteShortcut,
    insertion: WindowsInsertionMode,
    windows_newline: WindowsSendInputNewlineMode,
    macos_newline: MacosNewlineMode,
    channel: UpdateChannel,
    theme: ThemeMode,
    output: SelectionPolishOutputMode,
    style: CapsuleStyle,
)
    requires
        call_ensures(<PipelineMode as Default>::default, (), pipeline),
        call_ensures(<ChineseScriptPreference as Default>::default, (), script),
        call_ensures(<OutputLanguagePreference as Default>::default, (), language),
        call_ensures(<PasteShortcut as Default>::default, (), paste),
        call_ensures(<WindowsInsertionMode as Default>::default, (), insertion),
        call_ensures(<WindowsSendInputNewlineMode as Default>::default, (), windows_newline),
        call_ensures(<MacosNewlineMode as Default>::default, (), macos_newline),
        call_ensures(<UpdateChannel as Default>::default, (), channel),
        call_ensures(<ThemeMode as Default>::default, (), theme),
        call_ensures(<SelectionPolishOutputMode as Default>::default, (), output),
        call_ensures(<CapsuleStyle as Default>::default, (), style),
    ensures
        pipeline is Traditional,
        script is Auto && language is Auto && macos_newline is Auto,
        paste is CtrlV && insertion is Tsf && windows_newline is Enter,
        channel is Stable && theme is System,
        output is DirectReplace && style is Siri,
{
}

/// Nothing is set up and nothing is counted before the first use.
pub proof fn counts_and_credentials_begin_empty(status: CredentialsStatus, metrics: TodayMetrics)
    requires
        call_ensures(<CredentialsStatus as Default>::default, (), status),
        call_ensures(<TodayMetrics as Default>::default, (), metrics),
    ensures
        status.active_asr_provider@.len() == 0 && status.active_llm_provider@.len() == 0,
        status.pipeline_mode is Traditional,
        !(status.asr_configured || status.llm_configured || status.omni_configured
            || status.volcengine_configured || status.ark_configured),
        metrics.chars_today == 0 && metrics.segments_today == 0 && metrics.avg_latency_ms == 0
            && metrics.total_duration_ms == 0,
{
}

} // verus!
