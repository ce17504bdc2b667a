//! The preferences of the user: their defaults, and how a stored record becomes preferences.

use vstd::prelude::*;

use crate::hotkeys::{
    self, default_app_shortcut_modifiers, ComboBinding, HotkeyBinding, HotkeyTrigger,
    ShortcutBinding, StylePackHotkey,
};
use crate::platform::TargetOs;
use crate::text::{self, blank, copied, equal_ignoring_ascii_case};
use crate::types::{
    AndroidOverlayTrigger, CapsuleStyle, ChineseScriptPreference, MacosNewlineMode,
    OutputLanguagePreference, PasteShortcut, PipelineMode, PolishMode, SelectionPolishOutputMode,
    ThemeMode, UpdateChannel, WindowsInsertionMode, WindowsSendInputNewlineMode,
};

verus! {

/// A prompt for each polish mode.
#[derive(Debug, Clone, PartialEq, Eq)]
pub struct StyleSystemPrompts {
    pub raw: String,
    pub light: String,
    pub structured: String,
    pub formal: String,
}

/// What the user adds to the prompt of each polish mode.
#[derive(Debug, Clone, PartialEq, Eq)]
pub struct CustomStylePrompts {
    pub raw: String,
    pub light: String,
    pub structured: String,
    pub formal: String,
}

impl CustomStylePrompts {
    /// Nothing is added in any mode.
    pub open spec fn is_empty(self) -> bool {
        &&& self.raw@.len() == 0
        &&& self.light@.len() == 0
        &&& self.structured@.len() == 0
        &&& self.formal@.len() == 0
    }

    fn copied(&self) -> (r: CustomStylePrompts)
        ensures
            r == *self,
    {
        CustomStylePrompts {
            raw: self.raw.clone(),
            light: self.light.clone(),
            structured: self.structured.clone(),
            formal: self.formal.clone(),
        }
    }
}

impl StyleSystemPrompts {
    fn copied(&self) -> (r: StyleSystemPrompts)
        ensures
            r == *self,
    {
        StyleSystemPrompts {
            raw: self.raw.clone(),
            light: self.light.clone(),
            structured: self.structured.clone(),
            formal: self.formal.clone(),
        }
    }
}

impl Default for CustomStylePrompts {
    fn default() -> (r: CustomStylePrompts)
        ensures
            r.is_empty(),
    {
        CustomStylePrompts {
            raw: String::new(),
            light: String::new(),
            structured: String::new(),
            formal: String::new(),
        }
    }
}

/// Every setting of the user.
#[derive(Debug, Clone)]
pub struct UserPreferences {
    pub hotkey: HotkeyBinding,
    pub dictation_hotkey: ShortcutBinding,
    pub default_mode: PolishMode,
    pub enabled_modes: Vec<PolishMode>,
    pub active_style_pack_id: String,
    pub style_system_prompts: StyleSystemPrompts,
    pub custom_style_prompts: CustomStylePrompts,
    pub launch_at_login: bool,
    pub show_capsule: bool,
    pub capsule_style: CapsuleStyle,
    /// Mutes the system output while recording.
    pub mute_during_recording: bool,
    /// Plays a cue when recording begins.
    pub audio_cue_on_record: bool,
    /// Ends a toggled recording after a pause.
    pub silence_auto_stop_enabled: bool,
    /// The pause that ends a recording, as the bits of an IEEE 754 single in seconds.
    pub silence_auto_stop_seconds_bits: u32,
    /// Empty for the default microphone of the system.
    pub microphone_device_name: String,
    pub active_asr_provider: String,
    pub active_llm_provider: String,
    pub pipeline_mode: PipelineMode,
    /// The switch of the multimodal experiment.
    pub multimodal_pipeline_enabled: bool,
    pub active_omni_provider: String,
    pub llm_thinking_enabled: bool,
    pub use_system_proxy: bool,
    pub restore_clipboard_after_paste: bool,
    pub paste_shortcut: PasteShortcut,
    /// Windows: whether a failed TSF insertion may fall back to other ways.
    pub allow_non_tsf_insertion_fallback: bool,
    pub windows_insertion_mode: WindowsInsertionMode,
    pub windows_sendinput_newline_mode: WindowsSendInputNewlineMode,
    pub macos_newline_mode: MacosNewlineMode,
    /// The older form of `windows_insertion_mode`: true stands for `SendInput`.
    pub windows_sendinput_insertion_only: bool,
    pub windows_show_openless_in_keyboard_list: bool,
    pub working_languages: Vec<String>,
    /// Empty where no translation is wanted.
    pub translation_target_language: String,
    pub chinese_script_preference: ChineseScriptPreference,
    pub output_language_preference: OutputLanguagePreference,
    /// `None` turns the feature off.
    pub qa_hotkey: Option<ShortcutBinding>,
    /// `None` turns the feature off.
    pub selection_polish_hotkey: Option<ShortcutBinding>,
    pub selection_polish_style_pack_id: String,
    pub selection_polish_output_mode: SelectionPolishOutputMode,
    pub selection_voice_enabled: bool,
    /// The stored name of the intent mode.
    pub selection_voice_intent_mode: String,
    /// The stored name of the manual intent.
    pub selection_voice_manual_intent: String,
    pub selection_voice_edit_keywords: Vec<String>,
    pub qa_save_history: bool,
    /// The combination recorded for a custom trigger.
    pub custom_combo_hotkey: Option<ComboBinding>,
    pub translation_hotkey: ShortcutBinding,
    /// `None` turns the feature off.
    pub switch_style_hotkey: Option<ShortcutBinding>,
    /// `None` turns the feature off.
    pub open_app_hotkey: Option<ShortcutBinding>,
    /// Shortcuts bound to style packs by id.
    pub style_pack_hotkeys: Vec<StylePackHotkey>,
    pub coding_agent_enabled: bool,
    pub coding_agent_provider: String,
    pub coding_agent_model: Option<String>,
    pub coding_agent_permission_mode: String,
    pub coding_agent_workdir: Option<String>,
    pub coding_agent_exe: Option<String>,
    pub coding_agent_voice_hotkey: Option<ShortcutBinding>,
    pub coding_agent_panel_hotkey: Option<ShortcutBinding>,
    pub coding_agent_quick_hotkey: Option<ShortcutBinding>,
    pub remote_input_enabled: bool,
    pub remote_input_port: u16,
    pub remote_input_pin: String,
    pub remote_input_default_mode: String,
    /// The id of the local Qwen model.
    pub local_asr_active_model: String,
    /// The id of the local Whisper model, kept apart from the Qwen one.
    pub local_whisper_active_model: String,
    pub local_asr_mirror: String,
    pub local_asr_keep_loaded_secs: u32,
    pub local_asr_models_base_dir: String,
    pub foundry_local_asr_model: String,
    pub foundry_local_runtime_source: String,
    pub foundry_local_asr_language_hint: String,
    pub foundry_local_asr_keep_loaded_secs: u32,
    pub sherpa_onnx_model: String,
    pub sherpa_onnx_language_hint: String,
    pub sherpa_onnx_keep_loaded_secs: u32,
    pub update_channel: UpdateChannel,
    /// Whether the user ever chose the channel.
    pub update_channel_explicit: bool,
    pub history_retention_days: u32,
    pub polish_context_window_minutes: u32,
    pub start_minimized: bool,
    pub theme_mode: ThemeMode,
    /// Types the polished text while it arrives.
    pub streaming_insert: bool,
    /// Set once `streaming_insert` holds a choice and not an old default.
    pub streaming_insert_default_migrated: bool,
    pub streaming_insert_save_clipboard: bool,
    /// Whether text around the cursor may be sent along. Off unless the user turns it on.
    pub cursor_context_enabled: bool,
    pub show_overview_activity_heatmap: bool,
    pub stacked_row_layout: bool,
    pub conservative_layout: bool,
    pub auto_update_check: bool,
    pub history_max_entries: Option<u32>,
    pub record_audio_for_debug: bool,
    pub audio_recording_max_entries: Option<u32>,
    pub marketplace_base_url: String,
    pub marketplace_dev_login: String,
    /// The stored name of the strategy.
    pub android_insert_strategy: String,
    pub android_overlay_trigger: AndroidOverlayTrigger,
    /// The stored name of the mode.
    pub android_overlay_activation_mode: String,
    /// The stored name of the action.
    pub android_overlay_left_swipe_action: String,
    /// The stored name of the direction.
    pub android_overlay_cancel_swipe_direction: String,
    pub android_overlay_size_dp: u32,
}

/// A stored record of the preferences, as it was read. An absent choice stays visible here:
/// `None` where the record lacks the field.
#[derive(Debug, Clone)]
pub struct UserPreferencesWire {
    pub hotkey: HotkeyBinding,
    pub dictation_hotkey: Option<ShortcutBinding>,
    pub default_mode: PolishMode,
    pub enabled_modes: Vec<PolishMode>,
    pub active_style_pack_id: Option<String>,
    pub style_system_prompts: StyleSystemPrompts,
    pub custom_style_prompts: CustomStylePrompts,
    pub launch_at_login: bool,
    pub show_capsule: bool,
    pub capsule_style: CapsuleStyle,
    pub mute_during_recording: bool,
    pub audio_cue_on_record: bool,
    pub silence_auto_stop_enabled: bool,
    pub silence_auto_stop_seconds_bits: u32,
    pub microphone_device_name: String,
    pub active_asr_provider: String,
    pub active_llm_provider: String,
    pub pipeline_mode: PipelineMode,
    pub multimodal_pipeline_enabled: bool,
    pub active_omni_provider: String,
    pub llm_thinking_enabled: bool,
    pub use_system_proxy: bool,
    pub restore_clipboard_after_paste: bool,
    pub paste_shortcut: PasteShortcut,
    pub allow_non_tsf_insertion_fallback: bool,
    pub windows_insertion_mode: WindowsInsertionMode,
    pub windows_sendinput_newline_mode: WindowsSendInputNewlineMode,
    pub macos_newline_mode: MacosNewlineMode,
    pub windows_sendinput_insertion_only: bool,
    pub windows_show_openless_in_keyboard_list: bool,
    pub working_languages: Vec<String>,
    pub translation_target_language: String,
    pub chinese_script_preference: ChineseScriptPreference,
    pub output_language_preference: OutputLanguagePreference,
    pub qa_hotkey: Option<ShortcutBinding>,
    /// `None` where the record lacks the field, `Some(None)` where the user turned the feature off.
    pub selection_polish_hotkey: Option<Option<ShortcutBinding>>,
    pub selection_polish_style_pack_id: String,
    pub selection_polish_output_mode: SelectionPolishOutputMode,
    pub selection_voice_enabled: bool,
    pub selection_voice_intent_mode: String,
    pub selection_voice_manual_intent: String,
    pub selection_voice_edit_keywords: Vec<String>,
    pub qa_save_history: bool,
    pub custom_combo_hotkey: Option<ComboBinding>,
    pub translation_hotkey: Option<ShortcutBinding>,
    pub switch_style_hotkey: Option<ShortcutBinding>,
    pub open_app_hotkey: Option<ShortcutBinding>,
    pub style_pack_hotkeys: Vec<StylePackHotkey>,
    pub coding_agent_enabled: bool,
    pub coding_agent_provider: String,
    pub coding_agent_model: Option<String>,
    pub coding_agent_permission_mode: String,
    pub coding_agent_workdir: Option<String>,
    pub coding_agent_exe: Option<String>,
    pub coding_agent_voice_hotkey: Option<ShortcutBinding>,
    pub coding_agent_panel_hotkey: Option<ShortcutBinding>,
    pub coding_agent_quick_hotkey: Option<ShortcutBinding>,
    pub remote_input_enabled: bool,
    pub remote_input_port: u16,
    pub remote_input_pin: String,
    pub remote_input_default_mode: String,
    pub local_asr_active_model: String,
    pub local_whisper_active_model: Option<String>,
    pub local_asr_mirror: String,
    pub local_asr_keep_loaded_secs: u32,
    pub local_asr_models_base_dir: String,
    pub foundry_local_asr_model: String,
    pub foundry_local_runtime_source: String,
    pub foundry_local_asr_language_hint: String,
    pub foundry_local_asr_keep_loaded_secs: u32,
    pub sherpa_onnx_model: String,
    pub sherpa_onnx_language_hint: String,
    pub sherpa_onnx_keep_loaded_secs: u32,
    pub update_channel: UpdateChannel,
    pub update_channel_explicit: Option<bool>,
    pub history_retention_days: u32,
    pub polish_context_window_minutes: u32,
    pub start_minimized: bool,
    pub theme_mode: ThemeMode,
    pub streaming_insert: bool,
    pub streaming_insert_default_migrated: bool,
    pub streaming_insert_save_clipboard: bool,
    pub cursor_context_enabled: bool,
    pub show_overview_activity_heatmap: bool,
    pub stacked_row_layout: bool,
    pub conservative_layout: bool,
    pub auto_update_check: bool,
    pub history_max_entries: Option<u32>,
    pub record_audio_for_debug: bool,
    pub audio_recording_max_entries: Option<u32>,
    pub marketplace_base_url: String,
    pub marketplace_dev_login: String,
    pub android_insert_strategy: String,
    pub android_overlay_trigger: AndroidOverlayTrigger,
    pub android_overlay_activation_mode: String,
    pub android_overlay_left_swipe_action: String,
    pub android_overlay_cancel_swipe_direction: String,
    pub android_overlay_size_dp: u32,
}

/// The values of a new installation that the catalogs of models, style packs and mobile settings
/// supply.
#[derive(Debug, Clone)]
pub struct CatalogDefaults {
    /// The binding of the default dictation trigger.
    pub trigger_binding: ShortcutBinding,
    pub style_pack_id: String,
    pub style_system_prompts: StyleSystemPrompts,
    pub foundry_provider_id: String,
    pub whisper_model_id: String,
    pub foundry_model_alias: String,
    pub sherpa_model_alias: String,
    pub selection_voice_intent_mode: String,
    pub selection_voice_manual_intent: String,
    /// The id of the coding agent that a new installation uses.
    pub coding_agent_provider: String,
    pub android_insert_strategy: String,
    pub android_overlay_trigger: AndroidOverlayTrigger,
    pub android_overlay_activation_mode: String,
    pub android_overlay_left_swipe_action: String,
    pub android_overlay_cancel_swipe_direction: String,
    pub android_overlay_size_dp: u32,
}

/// The family of a local speech model.
#[derive(Debug, Clone, Copy, PartialEq, Eq, Structural)]
pub enum LocalAsrFamily {
    Qwen,
    Whisper,
    Other,
}

/// A local speech model that the catalog knows, under the id that is stored.
#[derive(Debug, Clone, PartialEq, Eq)]
pub struct LocalAsrModel {
    pub id: String,
    pub family: LocalAsrFamily,
}

/// What the catalogs say of the values in one stored record.
#[derive(Debug, Clone)]
pub struct CatalogAnswers {
    /// The binding of the record's dictation trigger.
    pub trigger_binding: ShortcutBinding,
    /// Whether the default selection-polish shortcut and the record's dictation shortcut share
    /// keys, under whatever names.
    pub polish_default_overlaps_dictation: bool,
    /// The model that the record's shared model field names, where the catalog knows it.
    pub shared_model: Option<LocalAsrModel>,
    /// The model that the record's Whisper field names, where the catalog knows it.
    pub whisper_model: Option<LocalAsrModel>,
    pub default_whisper_model_id: String,
    /// The built-in pack of the record's polish mode.
    pub mode_style_pack_id: String,
    /// The record's prompts, with older additions merged in.
    pub style_system_prompts: StyleSystemPrompts,
    pub foundry_local_runtime_source: String,
    pub android_insert_strategy: String,
    pub android_overlay_trigger: AndroidOverlayTrigger,
    pub android_overlay_size_dp: u32,
}

/// The default selection-polish shortcut: right Alt on Windows, none elsewhere, where it could
/// take the dictation key.
pub open spec fn default_polish_keys(target: TargetOs) -> Option<hotkeys::KeyCombination> {
    if target is Windows {
        Some(hotkeys::lone_key("RightAlt"@))
    } else {
        None
    }
}

/// The default shortcut of the agent panel.
pub open spec fn panel_keys() -> hotkeys::KeyCombination {
    hotkeys::KeyCombination { primary: "Enter"@, modifiers: seq!["cmd"@, "shift"@] }
}

/// What holds of the preferences of a new user.
pub open spec fn are_defaults(p: UserPreferences, catalog: CatalogDefaults, target: TargetOs) -> bool {
    &&& p.hotkey.trigger == hotkeys::default_trigger(target)
    &&& p.hotkey.mode is Toggle
    &&& p.hotkey.keys is None
    &&& p.dictation_hotkey == catalog.trigger_binding
    &&& p.default_mode is Light
    &&& p.enabled_modes@ == seq![
        PolishMode::Raw,
        PolishMode::Light,
        PolishMode::Structured,
        PolishMode::Formal,
    ]
    &&& p.active_style_pack_id == catalog.style_pack_id
    &&& p.style_system_prompts == catalog.style_system_prompts
    &&& p.custom_style_prompts.is_empty()
    &&& !p.launch_at_login
    &&& p.show_capsule
    &&& p.capsule_style is Siri
    &&& !p.mute_during_recording
    &&& p.audio_cue_on_record
    &&& !p.silence_auto_stop_enabled
    &&& p.silence_auto_stop_seconds_bits == 0x4040_0000
    &&& p.microphone_device_name@ == Seq::<char>::empty()
    &&& p.active_asr_provider@ == (if target is Windows {
        catalog.foundry_provider_id@
    } else {
        "volcengine"@
    })
    &&& p.active_llm_provider@ == "ark"@
    &&& p.pipeline_mode is Traditional
    &&& !p.multimodal_pipeline_enabled
    &&& p.active_omni_provider@ == "custom"@
    &&& !p.llm_thinking_enabled
    &&& p.use_system_proxy
    &&& p.restore_clipboard_after_paste
    &&& p.paste_shortcut is CtrlV
    &&& p.allow_non_tsf_insertion_fallback
    &&& p.windows_insertion_mode is Tsf
    &&& p.windows_sendinput_newline_mode is Enter
    &&& p.macos_newline_mode is Auto
    &&& !p.windows_sendinput_insertion_only
    &&& p.windows_show_openless_in_keyboard_list
    &&& text::texts(p.working_languages@) == seq!["简体中文"@]
    &&& p.translation_target_language@ == Seq::<char>::empty()
    &&& p.chinese_script_preference is Auto
    &&& p.output_language_preference is Auto
    &&& hotkeys::optional_binding(p.qa_hotkey) == Some(hotkeys::app_shortcut(";"@, target))
    &&& hotkeys::optional_binding(p.selection_polish_hotkey) == default_polish_keys(target)
    &&& p.selection_polish_style_pack_id == catalog.style_pack_id
    &&& p.selection_polish_output_mode is DirectReplace
    &&& !p.selection_voice_enabled
    &&& p.selection_voice_intent_mode == catalog.selection_voice_intent_mode
    &&& p.selection_voice_manual_intent == catalog.selection_voice_manual_intent
    &&& p.selection_voice_edit_keywords@.len() == 0
    &&& !p.qa_save_history
    &&& p.custom_combo_hotkey is None
    &&& p.translation_hotkey@ == hotkeys::lone_key("Shift"@)
    &&& hotkeys::optional_binding(p.switch_style_hotkey) == Some(hotkeys::app_shortcut("S"@, target))
    &&& hotkeys::optional_binding(p.open_app_hotkey) == Some(hotkeys::app_shortcut("O"@, target))
    &&& p.style_pack_hotkeys@.len() == 0
    &&& !p.coding_agent_enabled
    &&& p.coding_agent_provider == catalog.coding_agent_provider
    &&& p.coding_agent_model is None
    &&& p.coding_agent_permission_mode@ == "acceptEdits"@
    &&& p.coding_agent_workdir is None
    &&& p.coding_agent_exe is None
    &&& hotkeys::optional_binding(p.coding_agent_voice_hotkey) == Some(hotkeys::lone_key("LeftControl"@))
    &&& hotkeys::optional_binding(p.coding_agent_panel_hotkey) == Some(panel_keys())
    &&& p.coding_agent_quick_hotkey is None
    &&& !p.remote_input_enabled
    &&& p.remote_input_port == 8443
    &&& p.remote_input_pin@ == Seq::<char>::empty()
    &&& p.remote_input_default_mode@ == "toggle"@
    &&& p.local_asr_active_model@ == "qwen3-asr-0.6b"@
    &&& p.local_whisper_active_model == catalog.whisper_model_id
    &&& p.local_asr_mirror@ == "huggingface"@
    &&& p.local_asr_keep_loaded_secs == 300
    &&& p.local_asr_models_base_dir@ == Seq::<char>::empty()
    &&& p.foundry_local_asr_model == catalog.foundry_model_alias
    &&& p.foundry_local_runtime_source@ == "auto"@
    &&& p.foundry_local_asr_language_hint@ == Seq::<char>::empty()
    &&& p.foundry_local_asr_keep_loaded_secs == 300
    &&& p.sherpa_onnx_model == catalog.sherpa_model_alias
    &&& p.sherpa_onnx_language_hint@ == Seq::<char>::empty()
    &&& p.sherpa_onnx_keep_loaded_secs == 300
    &&& p.update_channel is Stable
    &&& !p.update_channel_explicit
    &&& p.history_retention_days == 7
    &&& p.polish_context_window_minutes == 5
    &&& !p.start_minimized
    &&& p.theme_mode is System
    &&& p.streaming_insert
    &&& p.streaming_insert_default_migrated
    &&& p.streaming_insert_save_clipboard
    &&& !p.cursor_context_enabled
    &&& p.show_overview_activity_heatmap
    &&& !p.stacked_row_layout
    &&& !p.conservative_layout
    &&& p.auto_update_check
    &&& p.history_max_entries is None
    &&& !p.record_audio_for_debug
    &&& p.audio_recording_max_entries is None
    &&& p.marketplace_base_url@ == Seq::<char>::empty()
    &&& p.marketplace_dev_login@ == Seq::<char>::empty()
    &&& p.android_insert_strategy == catalog.android_insert_strategy
    &&& p.android_overlay_trigger == catalog.android_overlay_trigger
    &&& p.android_overlay_activation_mode == catalog.android_overlay_activation_mode
    &&& p.android_overlay_left_swipe_action == catalog.android_overlay_left_swipe_action
    &&& p.android_overlay_cancel_swipe_direction == catalog.android_overlay_cancel_swipe_direction
    &&& p.android_overlay_size_dp == catalog.android_overlay_size_dp
}

/// The settings that a record hands on as they are.
pub open spec fn hands_on(wire: UserPreferencesWire, p: UserPreferences) -> bool {
    &&& p.hotkey == wire.hotkey
    &&& p.default_mode == wire.default_mode
    &&& p.enabled_modes == wire.enabled_modes
    &&& p.custom_style_prompts == wire.custom_style_prompts
    &&& p.launch_at_login == wire.launch_at_login
    &&& p.show_capsule == wire.show_capsule
    &&& p.capsule_style == wire.capsule_style
    &&& p.mute_during_recording == wire.mute_during_recording
    &&& p.audio_cue_on_record == wire.audio_cue_on_record
    &&& p.silence_auto_stop_enabled == wire.silence_auto_stop_enabled
    &&& p.silence_auto_stop_seconds_bits == wire.silence_auto_stop_seconds_bits
    &&& p.microphone_device_name == wire.microphone_device_name
    &&& p.active_asr_provider == wire.active_asr_provider
    &&& p.active_llm_provider == wire.active_llm_provider
    &&& p.pipeline_mode == wire.pipeline_mode
    &&& p.multimodal_pipeline_enabled == wire.multimodal_pipeline_enabled
    &&& p.active_omni_provider == wire.active_omni_provider
    &&& p.llm_thinking_enabled == wire.llm_thinking_enabled
    &&& p.use_system_proxy == wire.use_system_proxy
    &&& p.restore_clipboard_after_paste == wire.restore_clipboard_after_paste
    &&& p.paste_shortcut == wire.paste_shortcut
    &&& p.allow_non_tsf_insertion_fallback == wire.allow_non_tsf_insertion_fallback
    &&& p.windows_sendinput_newline_mode == wire.windows_sendinput_newline_mode
    &&& p.macos_newline_mode == wire.macos_newline_mode
    &&& p.windows_show_openless_in_keyboard_list == wire.windows_show_openless_in_keyboard_list
    &&& p.working_languages == wire.working_languages
    &&& p.translation_target_language == wire.translation_target_language
    &&& p.chinese_script_preference == wire.chinese_script_preference
    &&& p.output_language_preference == wire.output_language_preference
    &&& p.qa_hotkey == wire.qa_hotkey
    &&& p.selection_polish_style_pack_id == wire.selection_polish_style_pack_id
    &&& p.selection_polish_output_mode == wire.selection_polish_output_mode
    &&& p.selection_voice_enabled == wire.selection_voice_enabled
    &&& p.selection_voice_intent_mode == wire.selection_voice_intent_mode
    &&& p.selection_voice_manual_intent == wire.selection_voice_manual_intent
    &&& p.selection_voice_edit_keywords == wire.selection_voice_edit_keywords
    &&& p.qa_save_history == wire.qa_save_history
    &&& p.custom_combo_hotkey == wire.custom_combo_hotkey
    &&& p.switch_style_hotkey == wire.switch_style_hotkey
    &&& p.open_app_hotkey == wire.open_app_hotkey
    &&& p.style_pack_hotkeys == wire.style_pack_hotkeys
    &&& p.coding_agent_enabled == wire.coding_agent_enabled
    &&& p.coding_agent_provider == wire.coding_agent_provider
    &&& p.coding_agent_model == wire.coding_agent_model
    &&& p.coding_agent_permission_mode == wire.coding_agent_permission_mode
    &&& p.coding_agent_workdir == wire.coding_agent_workdir
    &&& p.coding_agent_exe == wire.coding_agent_exe
    &&& p.coding_agent_voice_hotkey == wire.coding_agent_voice_hotkey
    &&& p.coding_agent_panel_hotkey == wire.coding_agent_panel_hotkey
    &&& p.coding_agent_quick_hotkey == wire.coding_agent_quick_hotkey
    &&& p.remote_input_enabled == wire.remote_input_enabled
    &&& p.remote_input_port == wire.remote_input_port
    &&& p.remote_input_pin == wire.remote_input_pin
    &&& p.remote_input_default_mode == wire.remote_input_default_mode
    &&& p.local_asr_mirror == wire.local_asr_mirror
    &&& p.local_asr_keep_loaded_secs == wire.local_asr_keep_loaded_secs
    &&& p.local_asr_models_base_dir == wire.local_asr_models_base_dir
    &&& p.foundry_local_asr_model == wire.foundry_local_asr_model
    &&& p.foundry_local_asr_language_hint == wire.foundry_local_asr_language_hint
    &&& p.foundry_local_asr_keep_loaded_secs == wire.foundry_local_asr_keep_loaded_secs
    &&& p.sherpa_onnx_model == wire.sherpa_onnx_model
    &&& p.sherpa_onnx_language_hint == wire.sherpa_onnx_language_hint
    &&& p.sherpa_onnx_keep_loaded_secs == wire.sherpa_onnx_keep_loaded_secs
    &&& p.update_channel == wire.update_channel
    &&& p.history_retention_days == wire.history_retention_days
    &&& p.polish_context_window_minutes == wire.polish_context_window_minutes
    &&& p.start_minimized == wire.start_minimized
    &&& p.theme_mode == wire.theme_mode
    &&& p.streaming_insert_save_clipboard == wire.streaming_insert_save_clipboard
    &&& p.cursor_context_enabled == wire.cursor_context_enabled
    &&& p.show_overview_activity_heatmap == wire.show_overview_activity_heatmap
    &&& p.stacked_row_layout == wire.stacked_row_layout
    &&& p.conservative_layout == wire.conservative_layout
    &&& p.auto_update_check == wire.auto_update_check
    &&& p.history_max_entries == wire.history_max_entries
    &&& p.record_audio_for_debug == wire.record_audio_for_debug
    &&& p.audio_recording_max_entries == wire.audio_recording_max_entries
    &&& p.marketplace_base_url == wire.marketplace_base_url
    &&& p.marketplace_dev_login == wire.marketplace_dev_login
    &&& p.android_overlay_activation_mode == wire.android_overlay_activation_mode
    &&& p.android_overlay_left_swipe_action == wire.android_overlay_left_swipe_action
    &&& p.android_overlay_cancel_swipe_direction == wire.android_overlay_cancel_swipe_direction
}

/// A record that holds nothing but the preferences `p`, every choice present.
pub open spec fn stores(wire: UserPreferencesWire, p: UserPreferences) -> bool {
    &&& wire.hotkey == p.hotkey
    &&& wire.dictation_hotkey == Some(p.dictation_hotkey)
    &&& wire.default_mode == p.default_mode
    &&& wire.enabled_modes == p.enabled_modes
    &&& wire.active_style_pack_id == Some(p.active_style_pack_id)
    &&& wire.style_system_prompts == p.style_system_prompts
    &&& wire.custom_style_prompts == p.custom_style_prompts
    &&& wire.launch_at_login == p.launch_at_login
    &&& wire.show_capsule == p.show_capsule
    &&& wire.capsule_style == p.capsule_style
    &&& wire.mute_during_recording == p.mute_during_recording
    &&& wire.audio_cue_on_record == p.audio_cue_on_record
    &&& wire.silence_auto_stop_enabled == p.silence_auto_stop_enabled
    &&& wire.silence_auto_stop_seconds_bits == p.silence_auto_stop_seconds_bits
    &&& wire.microphone_device_name == p.microphone_device_name
    &&& wire.active_asr_provider == p.active_asr_provider
    &&& wire.active_llm_provider == p.active_llm_provider
    &&& wire.pipeline_mode == p.pipeline_mode
    &&& wire.multimodal_pipeline_enabled == p.multimodal_pipeline_enabled
    &&& wire.active_omni_provider == p.active_omni_provider
    &&& wire.llm_thinking_enabled == p.llm_thinking_enabled
    &&& wire.use_system_proxy == p.use_system_proxy
    &&& wire.restore_clipboard_after_paste == p.restore_clipboard_after_paste
    &&& wire.paste_shortcut == p.paste_shortcut
    &&& wire.allow_non_tsf_insertion_fallback == p.allow_non_tsf_insertion_fallback
    &&& wire.windows_insertion_mode == p.windows_insertion_mode
    &&& wire.windows_sendinput_newline_mode == p.windows_sendinput_newline_mode
    &&& wire.macos_newline_mode == p.macos_newline_mode
    &&& wire.windows_sendinput_insertion_only == p.windows_sendinput_insertion_only
    &&& wire.windows_show_openless_in_keyboard_list == p.windows_show_openless_in_keyboard_list
    &&& wire.working_languages == p.working_languages
    &&& wire.translation_target_language == p.translation_target_language
    &&& wire.chinese_script_preference == p.chinese_script_preference
    &&& wire.output_language_preference == p.output_language_preference
    &&& wire.qa_hotkey == p.qa_hotkey
    &&& wire.selection_polish_hotkey == Some(p.selection_polish_hotkey)
    &&& wire.selection_polish_style_pack_id == p.selection_polish_style_pack_id
    &&& wire.selection_polish_output_mode == p.selection_polish_output_mode
    &&& wire.selection_voice_enabled == p.selection_voice_enabled
    &&& wire.selection_voice_intent_mode == p.selection_voice_intent_mode
    &&& wire.selection_voice_manual_intent == p.selection_voice_manual_intent
    &&& wire.selection_voice_edit_keywords == p.selection_voice_edit_keywords
    &&& wire.qa_save_history == p.qa_save_history
    &&& wire.custom_combo_hotkey == p.custom_combo_hotkey
    &&& wire.translation_hotkey == Some(p.translation_hotkey)
    &&& wire.switch_style_hotkey == p.switch_style_hotkey
    &&& wire.open_app_hotkey == p.open_app_hotkey
    &&& wire.style_pack_hotkeys == p.style_pack_hotkeys
    &&& wire.coding_agent_enabled == p.coding_agent_enabled
    &&& wire.coding_agent_provider == p.coding_agent_provider
    &&& wire.coding_agent_model == p.coding_agent_model
    &&& wire.coding_agent_permission_mode == p.coding_agent_permission_mode
    &&& wire.coding_agent_workdir == p.coding_agent_workdir
    &&& wire.coding_agent_exe == p.coding_agent_exe
    &&& wire.coding_agent_voice_hotkey == p.coding_agent_voice_hotkey
    &&& wire.coding_agent_panel_hotkey == p.coding_agent_panel_hotkey
    &&& wire.coding_agent_quick_hotkey == p.coding_agent_quick_hotkey
    &&& wire.remote_input_enabled == p.remote_input_enabled
    &&& wire.remote_input_port == p.remote_input_port
    &&& wire.remote_input_pin == p.remote_input_pin
    &&& wire.remote_input_default_mode == p.remote_input_default_mode
    &&& wire.local_asr_active_model == p.local_asr_active_model
    &&& wire.local_whisper_active_model == Some(p.local_whisper_active_model)
    &&& wire.local_asr_mirror == p.local_asr_mirror
    &&& wire.local_asr_keep_loaded_secs == p.local_asr_keep_loaded_secs
    &&& wire.local_asr_models_base_dir == p.local_asr_models_base_dir
    &&& wire.foundry_local_asr_model == p.foundry_local_asr_model
    &&& wire.foundry_local_runtime_source == p.foundry_local_runtime_source
    &&& wire.foundry_local_asr_language_hint == p.foundry_local_asr_language_hint
    &&& wire.foundry_local_asr_keep_loaded_secs == p.foundry_local_asr_keep_loaded_secs
    &&& wire.sherpa_onnx_model == p.sherpa_onnx_model
    &&& wire.sherpa_onnx_language_hint == p.sherpa_onnx_language_hint
    &&& wire.sherpa_onnx_keep_loaded_secs == p.sherpa_onnx_keep_loaded_secs
    &&& wire.update_channel == p.update_channel
    &&& wire.update_channel_explicit == Some(p.update_channel_explicit)
    &&& wire.history_retention_days == p.history_retention_days
    &&& wire.polish_context_window_minutes == p.polish_context_window_minutes
    &&& wire.start_minimized == p.start_minimized
    &&& wire.theme_mode == p.theme_mode
    &&& wire.streaming_insert == p.streaming_insert
    &&& wire.streaming_insert_default_migrated == p.streaming_insert_default_migrated
    &&& wire.streaming_insert_save_clipboard == p.streaming_insert_save_clipboard
    &&& wire.cursor_context_enabled == p.cursor_context_enabled
    &&& wire.show_overview_activity_heatmap == p.show_overview_activity_heatmap
    &&& wire.stacked_row_layout == p.stacked_row_layout
    &&& wire.conservative_layout == p.conservative_layout
    &&& wire.auto_update_check == p.auto_update_check
    &&& wire.history_max_entries == p.history_max_entries
    &&& wire.record_audio_for_debug == p.record_audio_for_debug
    &&& wire.audio_recording_max_entries == p.audio_recording_max_entries
    &&& wire.marketplace_base_url == p.marketplace_base_url
    &&& wire.marketplace_dev_login == p.marketplace_dev_login
    &&& wire.android_insert_strategy == p.android_insert_strategy
    &&& wire.android_overlay_trigger == p.android_overlay_trigger
    &&& wire.android_overlay_activation_mode == p.android_overlay_activation_mode
    &&& wire.android_overlay_left_swipe_action == p.android_overlay_left_swipe_action
    &&& wire.android_overlay_cancel_swipe_direction == p.android_overlay_cancel_swipe_direction
    &&& wire.android_overlay_size_dp == p.android_overlay_size_dp
}

/// A record made of the preferences `p`, with the choices left open that an older record may lack.
pub open spec fn leaves_open(wire: UserPreferencesWire, p: UserPreferences) -> bool {
    &&& wire.hotkey == p.hotkey
    &&& wire.dictation_hotkey is None
    &&& wire.default_mode == p.default_mode
    &&& wire.enabled_modes == p.enabled_modes
    &&& wire.active_style_pack_id == Some(p.active_style_pack_id)
    &&& wire.style_system_prompts == p.style_system_prompts
    &&& wire.custom_style_prompts == p.custom_style_prompts
    &&& wire.launch_at_login == p.launch_at_login
    &&& wire.show_capsule == p.show_capsule
    &&& wire.capsule_style == p.capsule_style
    &&& wire.mute_during_recording == p.mute_during_recording
    &&& wire.audio_cue_on_record == p.audio_cue_on_record
    &&& wire.silence_auto_stop_enabled == p.silence_auto_stop_enabled
    &&& wire.silence_auto_stop_seconds_bits == p.silence_auto_stop_seconds_bits
    &&& wire.microphone_device_name == p.microphone_device_name
    &&& wire.active_asr_provider == p.active_asr_provider
    &&& wire.active_llm_provider == p.active_llm_provider
    &&& wire.pipeline_mode == p.pipeline_mode
    &&& wire.multimodal_pipeline_enabled == p.multimodal_pipeline_enabled
    &&& wire.active_omni_provider == p.active_omni_provider
    &&& wire.llm_thinking_enabled == p.llm_thinking_enabled
    &&& wire.use_system_proxy == p.use_system_proxy
    &&& wire.restore_clipboard_after_paste == p.restore_clipboard_after_paste
    &&& wire.paste_shortcut == p.paste_shortcut
    &&& wire.allow_non_tsf_insertion_fallback == p.allow_non_tsf_insertion_fallback
    &&& wire.windows_insertion_mode == p.windows_insertion_mode
    &&& wire.windows_sendinput_newline_mode == p.windows_sendinput_newline_mode
    &&& wire.macos_newline_mode == p.macos_newline_mode
    &&& wire.windows_sendinput_insertion_only == p.windows_sendinput_insertion_only
    &&& wire.windows_show_openless_in_keyboard_list == p.windows_show_openless_in_keyboard_list
    &&& wire.working_languages == p.working_languages
    &&& wire.translation_target_language == p.translation_target_language
    &&& wire.chinese_script_preference == p.chinese_script_preference
    &&& wire.output_language_preference == p.output_language_preference
    &&& wire.qa_hotkey == p.qa_hotkey
    &&& wire.selection_polish_hotkey is None
    &&& wire.selection_polish_style_pack_id == p.selection_polish_style_pack_id
    &&& wire.selection_polish_output_mode == p.selection_polish_output_mode
    &&& wire.selection_voice_enabled == p.selection_voice_enabled
    &&& wire.selection_voice_intent_mode == p.selection_voice_intent_mode
    &&& wire.selection_voice_manual_intent == p.selection_voice_manual_intent
    &&& wire.selection_voice_edit_keywords == p.selection_voice_edit_keywords
    &&& wire.qa_save_history == p.qa_save_history
    &&& wire.custom_combo_hotkey == p.custom_combo_hotkey
    &&& wire.translation_hotkey is None
    &&& wire.switch_style_hotkey == p.switch_style_hotkey
    &&& wire.open_app_hotkey == p.open_app_hotkey
    &&& wire.style_pack_hotkeys == p.style_pack_hotkeys
    &&& wire.coding_agent_enabled == p.coding_agent_enabled
    &&& wire.coding_agent_provider == p.coding_agent_provider
    &&& wire.coding_agent_model == p.coding_agent_model
    &&& wire.coding_agent_permission_mode == p.coding_agent_permission_mode
    &&& wire.coding_agent_workdir == p.coding_agent_workdir
    &&& wire.coding_agent_exe == p.coding_agent_exe
    &&& wire.coding_agent_voice_hotkey == p.coding_agent_voice_hotkey
    &&& wire.coding_agent_panel_hotkey == p.coding_agent_panel_hotkey
    &&& wire.coding_agent_quick_hotkey == p.coding_agent_quick_hotkey
    &&& wire.remote_input_enabled == p.remote_input_enabled
    &&& wire.remote_input_port == p.remote_input_port
    &&& wire.remote_input_pin == p.remote_input_pin
    &&& wire.remote_input_default_mode == p.remote_input_default_mode
    &&& wire.local_asr_active_model == p.local_asr_active_model
    &&& wire.local_whisper_active_model is None
    &&& wire.local_asr_mirror == p.local_asr_mirror
    &&& wire.local_asr_keep_loaded_secs == p.local_asr_keep_loaded_secs
    &&& wire.local_asr_models_base_dir == p.local_asr_models_base_dir
    &&& wire.foundry_local_asr_model == p.foundry_local_asr_model
    &&& wire.foundry_local_runtime_source == p.foundry_local_runtime_source
    &&& wire.foundry_local_asr_language_hint == p.foundry_local_asr_language_hint
    &&& wire.foundry_local_asr_keep_loaded_secs == p.foundry_local_asr_keep_loaded_secs
    &&& wire.sherpa_onnx_model == p.sherpa_onnx_model
    &&& wire.sherpa_onnx_language_hint == p.sherpa_onnx_language_hint
    &&& wire.sherpa_onnx_keep_loaded_secs == p.sherpa_onnx_keep_loaded_secs
    &&& wire.update_channel == p.update_channel
    &&& wire.update_channel_explicit is None
    &&& wire.history_retention_days == p.history_retention_days
    &&& wire.polish_context_window_minutes == p.polish_context_window_minutes
    &&& wire.start_minimized == p.start_minimized
    &&& wire.theme_mode == p.theme_mode
    &&& wire.streaming_insert == p.streaming_insert
    &&& wire.streaming_insert_default_migrated == p.streaming_insert_default_migrated
    &&& wire.streaming_insert_save_clipboard == p.streaming_insert_save_clipboard
    &&& wire.cursor_context_enabled == p.cursor_context_enabled
    &&& wire.show_overview_activity_heatmap == p.show_overview_activity_heatmap
    &&& wire.stacked_row_layout == p.stacked_row_layout
    &&& wire.conservative_layout == p.conservative_layout
    &&& wire.auto_update_check == p.auto_update_check
    &&& wire.history_max_entries == p.history_max_entries
    &&& wire.record_audio_for_debug == p.record_audio_for_debug
    &&& wire.audio_recording_max_entries == p.audio_recording_max_entries
    &&& wire.marketplace_base_url == p.marketplace_base_url
    &&& wire.marketplace_dev_login == p.marketplace_dev_login
    &&& wire.android_insert_strategy == p.android_insert_strategy
    &&& wire.android_overlay_trigger == p.android_overlay_trigger
    &&& wire.android_overlay_activation_mode == p.android_overlay_activation_mode
    &&& wire.android_overlay_left_swipe_action == p.android_overlay_left_swipe_action
    &&& wire.android_overlay_cancel_swipe_direction == p.android_overlay_cancel_swipe_direction
    &&& wire.android_overlay_size_dp == p.android_overlay_size_dp
}

/// The style settings are the same.
pub open spec fn same_styles(a: UserPreferences, b: UserPreferences) -> bool {
    &&& a.default_mode == b.default_mode
    &&& a.enabled_modes@ == b.enabled_modes@
    &&& a.active_style_pack_id == b.active_style_pack_id
    &&& a.style_system_prompts == b.style_system_prompts
    &&& a.custom_style_prompts == b.custom_style_prompts
}

/// The settings beside the style settings are the same.
#[verifier::opaque]
pub open spec fn same_beside_styles(a: UserPreferences, b: UserPreferences) -> bool {
    &&& a.hotkey == b.hotkey
    &&& a.dictation_hotkey == b.dictation_hotkey
    &&& a.launch_at_login == b.launch_at_login
    &&& a.show_capsule == b.show_capsule
    &&& a.capsule_style == b.capsule_style
    &&& a.mute_during_recording == b.mute_during_recording
    &&& a.audio_cue_on_record == b.audio_cue_on_record
    &&& a.silence_auto_stop_enabled == b.silence_auto_stop_enabled
    &&& a.silence_auto_stop_seconds_bits == b.silence_auto_stop_seconds_bits
    &&& a.microphone_device_name == b.microphone_device_name
    &&& a.active_asr_provider == b.active_asr_provider
    &&& a.active_llm_provider == b.active_llm_provider
    &&& a.pipeline_mode == b.pipeline_mode
    &&& a.multimodal_pipeline_enabled == b.multimodal_pipeline_enabled
    &&& a.active_omni_provider == b.active_omni_provider
    &&& a.llm_thinking_enabled == b.llm_thinking_enabled
    &&& a.use_system_proxy == b.use_system_proxy
    &&& a.restore_clipboard_after_paste == b.restore_clipboard_after_paste
    &&& a.paste_shortcut == b.paste_shortcut
    &&& a.allow_non_tsf_insertion_fallback == b.allow_non_tsf_insertion_fallback
    &&& a.windows_insertion_mode == b.windows_insertion_mode
    &&& a.windows_sendinput_newline_mode == b.windows_sendinput_newline_mode
    &&& a.macos_newline_mode == b.macos_newline_mode
    &&& a.windows_sendinput_insertion_only == b.windows_sendinput_insertion_only
    &&& a.windows_show_openless_in_keyboard_list == b.windows_show_openless_in_keyboard_list
    &&& a.working_languages == b.working_languages
    &&& a.translation_target_language == b.translation_target_language
    &&& a.chinese_script_preference == b.chinese_script_preference
    &&& a.output_language_preference == b.output_language_preference
    &&& a.qa_hotkey == b.qa_hotkey
    &&& a.selection_polish_hotkey == b.selection_polish_hotkey
    &&& a.selection_polish_style_pack_id == b.selection_polish_style_pack_id
    &&& a.selection_polish_output_mode == b.selection_polish_output_mode
    &&& a.selection_voice_enabled == b.selection_voice_enabled
    &&& a.selection_voice_intent_mode == b.selection_voice_intent_mode
    &&& a.selection_voice_manual_intent == b.selection_voice_manual_intent
    &&& a.selection_voice_edit_keywords == b.selection_voice_edit_keywords
    &&& a.qa_save_history == b.qa_save_history
    &&& a.custom_combo_hotkey == b.custom_combo_hotkey
    &&& a.translation_hotkey == b.translation_hotkey
    &&& a.switch_style_hotkey == b.switch_style_hotkey
    &&& a.open_app_hotkey == b.open_app_hotkey
    &&& a.style_pack_hotkeys == b.style_pack_hotkeys
    &&& a.coding_agent_enabled == b.coding_agent_enabled
    &&& a.coding_agent_provider == b.coding_agent_provider
    &&& a.coding_agent_model == b.coding_agent_model
    &&& a.coding_agent_permission_mode == b.coding_agent_permission_mode
    &&& a.coding_agent_workdir == b.coding_agent_workdir
    &&& a.coding_agent_exe == b.coding_agent_exe
    &&& a.coding_agent_voice_hotkey == b.coding_agent_voice_hotkey
    &&& a.coding_agent_panel_hotkey == b.coding_agent_panel_hotkey
    &&& a.coding_agent_quick_hotkey == b.coding_agent_quick_hotkey
    &&& a.remote_input_enabled == b.remote_input_enabled
    &&& a.remote_input_port == b.remote_input_port
    &&& a.remote_input_pin == b.remote_input_pin
    &&& a.remote_input_default_mode == b.remote_input_default_mode
    &&& a.local_asr_active_model == b.local_asr_active_model
    &&& a.local_whisper_active_model == b.local_whisper_active_model
    &&& a.local_asr_mirror == b.local_asr_mirror
    &&& a.local_asr_keep_loaded_secs == b.local_asr_keep_loaded_secs
    &&& a.local_asr_models_base_dir == b.local_asr_models_base_dir
    &&& a.foundry_local_asr_model == b.foundry_local_asr_model
    &&& a.foundry_local_runtime_source == b.foundry_local_runtime_source
    &&& a.foundry_local_asr_language_hint == b.foundry_local_asr_language_hint
    &&& a.foundry_local_asr_keep_loaded_secs == b.foundry_local_asr_keep_loaded_secs
    &&& a.sherpa_onnx_model == b.sherpa_onnx_model
    &&& a.sherpa_onnx_language_hint == b.sherpa_onnx_language_hint
    &&& a.sherpa_onnx_keep_loaded_secs == b.sherpa_onnx_keep_loaded_secs
    &&& a.update_channel == b.update_channel
    &&& a.update_channel_explicit == b.update_channel_explicit
    &&& a.history_retention_days == b.history_retention_days
    &&& a.polish_context_window_minutes == b.polish_context_window_minutes
    &&& a.start_minimized == b.start_minimized
    &&& a.theme_mode == b.theme_mode
    &&& a.streaming_insert == b.streaming_insert
    &&& a.streaming_insert_default_migrated == b.streaming_insert_default_migrated
    &&& a.streaming_insert_save_clipboard == b.streaming_insert_save_clipboard
    &&& a.cursor_context_enabled == b.cursor_context_enabled
    &&& a.show_overview_activity_heatmap == b.show_overview_activity_heatmap
    &&& a.stacked_row_layout == b.stacked_row_layout
    &&& a.conservative_layout == b.conservative_layout
    &&& a.auto_update_check == b.auto_update_check
    &&& a.history_max_entries == b.history_max_entries
    &&& a.record_audio_for_debug == b.record_audio_for_debug
    &&& a.audio_recording_max_entries == b.audio_recording_max_entries
    &&& a.marketplace_base_url == b.marketplace_base_url
    &&& a.marketplace_dev_login == b.marketplace_dev_login
    &&& a.android_insert_strategy == b.android_insert_strategy
    &&& a.android_overlay_trigger == b.android_overlay_trigger
    &&& a.android_overlay_activation_mode == b.android_overlay_activation_mode
    &&& a.android_overlay_left_swipe_action == b.android_overlay_left_swipe_action
    &&& a.android_overlay_cancel_swipe_direction == b.android_overlay_cancel_swipe_direction
    &&& a.android_overlay_size_dp == b.android_overlay_size_dp
}

impl UserPreferences {
    /// The preferences of a new user.
    pub fn default_for(catalog: CatalogDefaults, target: TargetOs) -> (r: UserPreferences)
        ensures
            are_defaults(r, catalog, target),
    {
        UserPreferences {
            hotkey: HotkeyBinding::default_for(target),
            dictation_hotkey: catalog.trigger_binding,
            default_mode: PolishMode::Light,
            enabled_modes: vec![PolishMode::Raw, PolishMode::Light, PolishMode::Structured, PolishMode::Formal],
            active_style_pack_id: catalog.style_pack_id.clone(),
            style_system_prompts: catalog.style_system_prompts,
            custom_style_prompts: CustomStylePrompts::default(),
            launch_at_login: false,
            show_capsule: true,
            capsule_style: CapsuleStyle::Siri,
            mute_during_recording: false,
            audio_cue_on_record: true,
            silence_auto_stop_enabled: false,
            silence_auto_stop_seconds_bits: 0x4040_0000,
            microphone_device_name: String::new(),
            active_asr_provider: if target == TargetOs::Windows {
                catalog.foundry_provider_id
            } else {
                "volcengine".to_owned()
            },
            active_llm_provider: "ark".to_owned(),
            pipeline_mode: PipelineMode::Traditional,
            multimodal_pipeline_enabled: false,
            active_omni_provider: "custom".to_owned(),
            llm_thinking_enabled: false,
            use_system_proxy: true,
            restore_clipboard_after_paste: true,
            paste_shortcut: PasteShortcut::CtrlV,
            allow_non_tsf_insertion_fallback: true,
            windows_insertion_mode: WindowsInsertionMode::Tsf,
            windows_sendinput_newline_mode: WindowsSendInputNewlineMode::Enter,
            macos_newline_mode: MacosNewlineMode::Auto,
            windows_sendinput_insertion_only: false,
            windows_show_openless_in_keyboard_list: true,
            working_languages: default_working_languages(),
            translation_target_language: String::new(),
            chinese_script_preference: ChineseScriptPreference::Auto,
            output_language_preference: OutputLanguagePreference::Auto,
            qa_hotkey: Some(ShortcutBinding::default_qa(target)),
            selection_polish_hotkey: default_selection_polish_hotkey(target),
            selection_polish_style_pack_id: catalog.style_pack_id,
            selection_polish_output_mode: SelectionPolishOutputMode::DirectReplace,
            selection_voice_enabled: false,
            selection_voice_intent_mode: catalog.selection_voice_intent_mode,
            selection_voice_manual_intent: catalog.selection_voice_manual_intent,
            selection_voice_edit_keywords: Vec::new(),
            qa_save_history: false,
            custom_combo_hotkey: None,
            translation_hotkey: default_translation_hotkey(),
            switch_style_hotkey: Some(default_switch_style_hotkey(target)),
            open_app_hotkey: Some(default_open_app_hotkey(target)),
            style_pack_hotkeys: Vec::new(),
            coding_agent_enabled: false,
            coding_agent_provider: catalog.coding_agent_provider,
            coding_agent_model: None,
            coding_agent_permission_mode: "acceptEdits".to_owned(),
            coding_agent_workdir: None,
            coding_agent_exe: None,
            coding_agent_voice_hotkey: Some(default_coding_agent_voice_hotkey()),
            coding_agent_panel_hotkey: Some(default_coding_agent_panel_hotkey()),
            coding_agent_quick_hotkey: None,
            remote_input_enabled: false,
            remote_input_port: 8443,
            remote_input_pin: String::new(),
            remote_input_default_mode: "toggle".to_owned(),
            local_asr_active_model: "qwen3-asr-0.6b".to_owned(),
            local_whisper_active_model: catalog.whisper_model_id,
            local_asr_mirror: "huggingface".to_owned(),
            local_asr_keep_loaded_secs: 300,
            local_asr_models_base_dir: String::new(),
            foundry_local_asr_model: catalog.foundry_model_alias,
            foundry_local_runtime_source: "auto".to_owned(),
            foundry_local_asr_language_hint: String::new(),
            foundry_local_asr_keep_loaded_secs: 300,
            sherpa_onnx_model: catalog.sherpa_model_alias,
            sherpa_onnx_language_hint: String::new(),
            sherpa_onnx_keep_loaded_secs: 300,
            update_channel: UpdateChannel::Stable,
            update_channel_explicit: false,
            history_retention_days: 7,
            polish_context_window_minutes: 5,
            start_minimized: false,
            theme_mode: ThemeMode::System,
            streaming_insert: true,
            streaming_insert_default_migrated: true,
            streaming_insert_save_clipboard: true,
            cursor_context_enabled: false,
            show_overview_activity_heatmap: true,
            stacked_row_layout: false,
            conservative_layout: false,
            auto_update_check: true,
            history_max_entries: None,
            record_audio_for_debug: false,
            audio_recording_max_entries: None,
            marketplace_base_url: String::new(),
            marketplace_dev_login: String::new(),
            android_insert_strategy: catalog.android_insert_strategy,
            android_overlay_trigger: catalog.android_overlay_trigger,
            android_overlay_activation_mode: catalog.android_overlay_activation_mode,
            android_overlay_left_swipe_action: catalog.android_overlay_left_swipe_action,
            android_overlay_cancel_swipe_direction: catalog.android_overlay_cancel_swipe_direction,
            android_overlay_size_dp: catalog.android_overlay_size_dp,
        }
    }
}

impl UserPreferencesWire {
    /// The record whose fields stand in for those that a stored record lacks.
    pub fn default_from(prefs: UserPreferences) -> (r: UserPreferencesWire)
        ensures
            leaves_open(r, prefs),
    {
        UserPreferencesWire {
            hotkey: prefs.hotkey,
            dictation_hotkey: None,
            default_mode: prefs.default_mode,
            enabled_modes: prefs.enabled_modes,
            active_style_pack_id: Some(prefs.active_style_pack_id),
            style_system_prompts: prefs.style_system_prompts,
            custom_style_prompts: prefs.custom_style_prompts,
            launch_at_login: prefs.launch_at_login,
            show_capsule: prefs.show_capsule,
            capsule_style: prefs.capsule_style,
            mute_during_recording: prefs.mute_during_recording,
            audio_cue_on_record: prefs.audio_cue_on_record,
            silence_auto_stop_enabled: prefs.silence_auto_stop_enabled,
            silence_auto_stop_seconds_bits: prefs.silence_auto_stop_seconds_bits,
            microphone_device_name: prefs.microphone_device_name,
            active_asr_provider: prefs.active_asr_provider,
            active_llm_provider: prefs.active_llm_provider,
            pipeline_mode: prefs.pipeline_mode,
            multimodal_pipeline_enabled: prefs.multimodal_pipeline_enabled,
            active_omni_provider: prefs.active_omni_provider,
            llm_thinking_enabled: prefs.llm_thinking_enabled,
            use_system_proxy: prefs.use_system_proxy,
            restore_clipboard_after_paste: prefs.restore_clipboard_after_paste,
            paste_shortcut: prefs.paste_shortcut,
            allow_non_tsf_insertion_fallback: prefs.allow_non_tsf_insertion_fallback,
            windows_insertion_mode: prefs.windows_insertion_mode,
            windows_sendinput_newline_mode: prefs.windows_sendinput_newline_mode,
            macos_newline_mode: prefs.macos_newline_mode,
            windows_sendinput_insertion_only: prefs.windows_sendinput_insertion_only,
            windows_show_openless_in_keyboard_list: prefs.windows_show_openless_in_keyboard_list,
            working_languages: prefs.working_languages,
            translation_target_language: prefs.translation_target_language,
            chinese_script_preference: prefs.chinese_script_preference,
            output_language_preference: prefs.output_language_preference,
            qa_hotkey: prefs.qa_hotkey,
            selection_polish_hotkey: None,
            selection_polish_style_pack_id: prefs.selection_polish_style_pack_id,
            selection_polish_output_mode: prefs.selection_polish_output_mode,
            selection_voice_enabled: prefs.selection_voice_enabled,
            selection_voice_intent_mode: prefs.selection_voice_intent_mode,
            selection_voice_manual_intent: prefs.selection_voice_manual_intent,
            selection_voice_edit_keywords: prefs.selection_voice_edit_keywords,
            qa_save_history: prefs.qa_save_history,
            custom_combo_hotkey: prefs.custom_combo_hotkey,
            translation_hotkey: None,
            switch_style_hotkey: prefs.switch_style_hotkey,
            open_app_hotkey: prefs.open_app_hotkey,
            style_pack_hotkeys: prefs.style_pack_hotkeys,
            coding_agent_enabled: prefs.coding_agent_enabled,
            coding_agent_provider: prefs.coding_agent_provider,
            coding_agent_model: prefs.coding_agent_model,
            coding_agent_permission_mode: prefs.coding_agent_permission_mode,
            coding_agent_workdir: prefs.coding_agent_workdir,
            coding_agent_exe: prefs.coding_agent_exe,
            coding_agent_voice_hotkey: prefs.coding_agent_voice_hotkey,
            coding_agent_panel_hotkey: prefs.coding_agent_panel_hotkey,
            coding_agent_quick_hotkey: prefs.coding_agent_quick_hotkey,
            remote_input_enabled: prefs.remote_input_enabled,
            remote_input_port: prefs.remote_input_port,
            remote_input_pin: prefs.remote_input_pin,
            remote_input_default_mode: prefs.remote_input_default_mode,
            local_asr_active_model: prefs.local_asr_active_model,
            local_whisper_active_model: None,
            local_asr_mirror: prefs.local_asr_mirror,
            local_asr_keep_loaded_secs: prefs.local_asr_keep_loaded_secs,
            local_asr_models_base_dir: prefs.local_asr_models_base_dir,
            foundry_local_asr_model: prefs.foundry_local_asr_model,
            foundry_local_runtime_source: prefs.foundry_local_runtime_source,
            foundry_local_asr_language_hint: prefs.foundry_local_asr_language_hint,
            foundry_local_asr_keep_loaded_secs: prefs.foundry_local_asr_keep_loaded_secs,
            sherpa_onnx_model: prefs.sherpa_onnx_model,
            sherpa_onnx_language_hint: prefs.sherpa_onnx_language_hint,
            sherpa_onnx_keep_loaded_secs: prefs.sherpa_onnx_keep_loaded_secs,
            update_channel: prefs.update_channel,
            update_channel_explicit: None,
            history_retention_days: prefs.history_retention_days,
            polish_context_window_minutes: prefs.polish_context_window_minutes,
            start_minimized: prefs.start_minimized,
            theme_mode: prefs.theme_mode,
            streaming_insert: prefs.streaming_insert,
            streaming_insert_default_migrated: prefs.streaming_insert_default_migrated,
            streaming_insert_save_clipboard: prefs.streaming_insert_save_clipboard,
            cursor_context_enabled: prefs.cursor_context_enabled,
            show_overview_activity_heatmap: prefs.show_overview_activity_heatmap,
            stacked_row_layout: prefs.stacked_row_layout,
            conservative_layout: prefs.conservative_layout,
            auto_update_check: prefs.auto_update_check,
            history_max_entries: prefs.history_max_entries,
            record_audio_for_debug: prefs.record_audio_for_debug,
            audio_recording_max_entries: prefs.audio_recording_max_entries,
            marketplace_base_url: prefs.marketplace_base_url,
            marketplace_dev_login: prefs.marketplace_dev_login,
            android_insert_strategy: prefs.android_insert_strategy,
            android_overlay_trigger: prefs.android_overlay_trigger,
            android_overlay_activation_mode: prefs.android_overlay_activation_mode,
            android_overlay_left_swipe_action: prefs.android_overlay_left_swipe_action,
            android_overlay_cancel_swipe_direction: prefs.android_overlay_cancel_swipe_direction,
            android_overlay_size_dp: prefs.android_overlay_size_dp,
        }
    }
}

/// Right Control alone, the dictation key of the first Windows releases.
pub open spec fn is_lone_right_control(keys: hotkeys::KeyCombination) -> bool {
    keys.modifiers.len() == 0 && text::same_ignoring_ascii_case(keys.primary, "RightControl"@)
}

/// A record with a custom trigger and no combination to go with it.
pub open spec fn lacks_combination(wire: UserPreferencesWire) -> bool {
    &&& wire.dictation_hotkey is None
    &&& wire.hotkey.trigger is Custom
    &&& wire.custom_combo_hotkey is None
}

/// The dictation keys of a record: its own, or else those of its older trigger.
pub open spec fn dictation_keys(
    wire: UserPreferencesWire,
    trigger_binding: ShortcutBinding,
) -> hotkeys::KeyCombination {
    match wire.dictation_hotkey {
        Some(binding) => binding@,
        None => if wire.hotkey.trigger is Custom {
            wire.custom_combo_hotkey->0@
        } else {
            trigger_binding@
        },
    }
}

/// The selection-polish keys of a record that has none of its own. The default gives way to the
/// dictation key, and on Windows to the habit of those who dictate with right Control.
pub open spec fn introduced_polish_keys(
    dictation: hotkeys::KeyCombination,
    overlaps: bool,
    target: TargetOs,
) -> Option<hotkeys::KeyCombination> {
    if overlaps || is_lone_right_control(dictation) {
        None
    } else {
        default_polish_keys(target)
    }
}

/// The insertion mode that a mode and the older flag amount to.
pub open spec fn resolved_insertion_mode(
    mode: WindowsInsertionMode,
    legacy_sendinput_only: bool,
) -> WindowsInsertionMode {
    if mode is Tsf && legacy_sendinput_only {
        WindowsInsertionMode::SendInput
    } else {
        mode
    }
}

/// The id of `model` where it is known and of the family, else `fallback`.
pub open spec fn model_id_or(
    model: Option<LocalAsrModel>,
    family: LocalAsrFamily,
    fallback: Seq<char>,
) -> Seq<char> {
    match model {
        Some(m) => if m.family == family {
            m.id@
        } else {
            fallback
        },
        None => fallback,
    }
}

/// The preferences that a record and what the catalogs say of it amount to.
pub open spec fn migrates(
    wire: UserPreferencesWire,
    answers: CatalogAnswers,
    target: TargetOs,
    p: UserPreferences,
) -> bool {
    &&& hands_on(wire, p)
    &&& p.dictation_hotkey@ == dictation_keys(wire, answers.trigger_binding)
    &&& match wire.selection_polish_hotkey {
        Some(choice) => p.selection_polish_hotkey == choice,
        None => hotkeys::optional_binding(p.selection_polish_hotkey) == introduced_polish_keys(
            p.dictation_hotkey@,
            answers.polish_default_overlaps_dictation,
            target,
        ),
    }
    &&& p.streaming_insert == (wire.streaming_insert || !wire.streaming_insert_default_migrated)
    &&& p.streaming_insert_default_migrated
    &&& p.local_asr_active_model@ == model_id_or(
        answers.shared_model,
        LocalAsrFamily::Qwen,
        "qwen3-asr-0.6b"@,
    )
    &&& p.local_whisper_active_model@ == model_id_or(
        if wire.local_whisper_active_model is Some {
            answers.whisper_model
        } else {
            answers.shared_model
        },
        LocalAsrFamily::Whisper,
        answers.default_whisper_model_id@,
    )
    &&& p.update_channel_explicit == (match wire.update_channel_explicit {
        Some(explicit) => explicit,
        None => wire.update_channel is Beta,
    })
    &&& p.active_style_pack_id == (match wire.active_style_pack_id {
        Some(id) => if text::is_blank(id@) {
            answers.mode_style_pack_id
        } else {
            id
        },
        None => answers.mode_style_pack_id,
    })
    &&& p.style_system_prompts == answers.style_system_prompts
    &&& p.windows_insertion_mode == resolved_insertion_mode(
        wire.windows_insertion_mode,
        wire.windows_sendinput_insertion_only,
    )
    &&& p.windows_sendinput_insertion_only == (p.windows_insertion_mode is SendInput)
    &&& match wire.translation_hotkey {
        Some(binding) => p.translation_hotkey == binding,
        None => p.translation_hotkey@ == hotkeys::lone_key("Shift"@),
    }
    &&& p.foundry_local_runtime_source == answers.foundry_local_runtime_source
    &&& p.android_insert_strategy == answers.android_insert_strategy
    &&& p.android_overlay_trigger == answers.android_overlay_trigger
    &&& p.android_overlay_size_dp == answers.android_overlay_size_dp
}

/// The insertion mode that a mode and the older flag amount to.
pub fn resolve_windows_insertion_mode(
    mode: WindowsInsertionMode,
    legacy_sendinput_only: bool,
) -> (r: WindowsInsertionMode)
    ensures
        r == resolved_insertion_mode(mode, legacy_sendinput_only),
{
    if mode != WindowsInsertionMode::Tsf {
        mode
    } else if legacy_sendinput_only {
        WindowsInsertionMode::SendInput
    } else {
        WindowsInsertionMode::Tsf
    }
}

/// The older flag that a mode and the older flag amount to.
pub fn resolve_windows_sendinput_insertion_only_legacy(
    mode: WindowsInsertionMode,
    legacy_sendinput_only: bool,
) -> (r: bool)
    ensures
        r == (resolved_insertion_mode(mode, legacy_sendinput_only) is SendInput),
{
    resolve_windows_insertion_mode(mode, legacy_sendinput_only) == WindowsInsertionMode::SendInput
}

pub fn default_selection_polish_hotkey(target: TargetOs) -> (r: Option<ShortcutBinding>)
    ensures
        hotkeys::optional_binding(r) == default_polish_keys(target),
{
    if target == TargetOs::Windows {
        Some(ShortcutBinding::lone("RightAlt"))
    } else {
        None
    }
}

pub fn is_right_control_modifier_shortcut(binding: &ShortcutBinding) -> (r: bool)
    ensures
        r == is_lone_right_control(binding@),
{
    assert(text::texts(binding.modifiers@).len() == binding.modifiers.len());
    binding.modifiers.len() == 0 && equal_ignoring_ascii_case(
        binding.primary.as_str(),
        "RightControl",
    )
}

pub fn default_coding_agent_voice_hotkey() -> (r: ShortcutBinding)
    ensures
        r@ == hotkeys::lone_key("LeftControl"@),
{
    ShortcutBinding::lone("LeftControl")
}

pub fn default_coding_agent_panel_hotkey() -> (r: ShortcutBinding)
    ensures
        r@ == panel_keys(),
{
    let mut modifiers: Vec<String> = Vec::new();
    modifiers.push("cmd".to_owned());
    modifiers.push("shift".to_owned());
    assert(text::texts(modifiers@) =~= seq!["cmd"@, "shift"@]);
    ShortcutBinding { primary: "Enter".to_owned(), modifiers }
}

pub fn default_translation_hotkey() -> (r: ShortcutBinding)
    ensures
        r@ == hotkeys::lone_key("Shift"@),
{
    ShortcutBinding::lone("Shift")
}

pub fn default_switch_style_hotkey(target: TargetOs) -> (r: ShortcutBinding)
    ensures
        r@ == hotkeys::app_shortcut("S"@, target),
{
    ShortcutBinding {
        primary: "S".to_owned(),
        modifiers: default_app_shortcut_modifiers(target),
    }
}

pub fn default_open_app_hotkey(target: TargetOs) -> (r: ShortcutBinding)
    ensures
        r@ == hotkeys::app_shortcut("O"@, target),
{
    ShortcutBinding {
        primary: "O".to_owned(),
        modifiers: default_app_shortcut_modifiers(target),
    }
}

pub fn default_working_languages() -> (r: Vec<String>)
    ensures
        text::texts(r@) == seq!["简体中文"@],
{
    let mut r: Vec<String> = Vec::new();
    r.push("简体中文".to_owned());
    assert(text::texts(r@) =~= seq!["简体中文"@]);
    r
}

/// The dictation binding that the older trigger of a record stands for. `trigger_binding` is the
/// binding of that trigger where it is not a custom one.
pub fn default_dictation_hotkey_from_legacy(
    hotkey: &HotkeyBinding,
    custom_combo_hotkey: &Option<ComboBinding>,
    trigger_binding: &ShortcutBinding,
) -> (r: Result<ShortcutBinding, String>)
    ensures
        match r {
            Ok(binding) => {
                &&& !(hotkey.trigger is Custom && *custom_combo_hotkey is None)
                &&& binding@ == (if hotkey.trigger is Custom {
                    (*custom_combo_hotkey)->0@
                } else {
                    trigger_binding@
                })
            },
            Err(message) => {
                &&& hotkey.trigger is Custom
                &&& *custom_combo_hotkey is None
                &&& message@
                    == "hotkey.trigger is custom but dictationHotkey/customComboHotkey is missing"@
            },
        },
{
    if hotkey.trigger == HotkeyTrigger::Custom {
        match custom_combo_hotkey {
            Some(combo) => Ok(
                ShortcutBinding {
                    primary: combo.primary.clone(),
                    modifiers: copied(&combo.modifiers),
                },
            ),
            None => Err(
                "hotkey.trigger is custom but dictationHotkey/customComboHotkey is missing".to_owned(),
            ),
        }
    } else {
        Ok(trigger_binding.copy())
    }
}

/// The ids of the Qwen and the Whisper model that a record names. Both once shared one field, so a
/// name of the other family there is no choice for this one. `own_whisper` is `None` where the
/// record has no Whisper field of its own, and `Some(None)` where that field names no known model.
pub fn migrate_local_asr_models(
    shared: &Option<LocalAsrModel>,
    own_whisper: Option<&Option<LocalAsrModel>>,
    default_whisper_model_id: &str,
) -> (r: (String, String))
    ensures
        r.0@ == model_id_or(*shared, LocalAsrFamily::Qwen, "qwen3-asr-0.6b"@),
        r.1@ == model_id_or(
            match own_whisper {
                Some(model) => *model,
                None => *shared,
            },
            LocalAsrFamily::Whisper,
            default_whisper_model_id@,
        ),
{
    let qwen: String = model_id(shared, LocalAsrFamily::Qwen, "qwen3-asr-0.6b");
    let whisper: String = match own_whisper {
        Some(model) => model_id(model, LocalAsrFamily::Whisper, default_whisper_model_id),
        None => model_id(shared, LocalAsrFamily::Whisper, default_whisper_model_id),
    };
    (qwen, whisper)
}

fn model_id(model: &Option<LocalAsrModel>, family: LocalAsrFamily, fallback: &str) -> (r: String)
    ensures
        r@ == model_id_or(*model, family, fallback@),
{
    match model {
        Some(m) => if m.family == family {
            m.id.clone()
        } else {
            fallback.to_owned()
        },
        None => fallback.to_owned(),
    }
}

impl UserPreferencesWire {
    /// The dictation binding of the record.
    pub fn migrated_dictation_hotkey(&self, trigger_binding: &ShortcutBinding) -> (r: Result<
        ShortcutBinding,
        String,
    >)
        ensures
            match r {
                Ok(binding) => !lacks_combination(*self) && binding@ == dictation_keys(
                    *self,
                    *trigger_binding,
                ),
                Err(message) => lacks_combination(*self) && message@
                    == "hotkey.trigger is custom but dictationHotkey/customComboHotkey is missing"@,
            },
    {
        match &self.dictation_hotkey {
            Some(binding) => Ok(binding.copy()),
            None => default_dictation_hotkey_from_legacy(
                &self.hotkey,
                &self.custom_combo_hotkey,
                trigger_binding,
            ),
        }
    }
}

impl UserPreferences {
    /// Turns a stored record into preferences. A record is refused only where its trigger is a
    /// custom one and no combination goes with it.
    pub fn from_wire(
        wire: UserPreferencesWire,
        answers: CatalogAnswers,
        target: TargetOs,
    ) -> (r: Result<UserPreferences, String>)
        ensures
            match r {
                Ok(p) => !lacks_combination(wire) && migrates(wire, answers, target, p),
                Err(message) => lacks_combination(wire) && message@
                    == "hotkey.trigger is custom but dictationHotkey/customComboHotkey is missing"@,
            },
    {
        let dictation_hotkey: ShortcutBinding = match wire.migrated_dictation_hotkey(
            &answers.trigger_binding,
        ) {
            Ok(binding) => binding,
            Err(message) => {
                return Err(message);
            },
        };
        let selection_polish_hotkey: Option<ShortcutBinding> = match wire.selection_polish_hotkey {
            Some(choice) => choice,
            None => {
                let right_control_habit: bool = target == TargetOs::Windows
                    && is_right_control_modifier_shortcut(&dictation_hotkey);
                if right_control_habit || answers.polish_default_overlaps_dictation {
                    None
                } else {
                    default_selection_polish_hotkey(target)
                }
            },
        };
        let streaming_insert: bool = if wire.streaming_insert_default_migrated {
            wire.streaming_insert
        } else {
            true
        };
        let own_whisper: Option<&Option<LocalAsrModel>> = match &wire.local_whisper_active_model {
            Some(_) => Some(&answers.whisper_model),
            None => None,
        };
        let (local_asr_active_model, local_whisper_active_model) = migrate_local_asr_models(
            &answers.shared_model,
            own_whisper,
            answers.default_whisper_model_id.as_str(),
        );
        let update_channel_explicit: bool = match wire.update_channel_explicit {
            Some(explicit) => explicit,
            None => wire.update_channel == UpdateChannel::Beta,
        };
        let active_style_pack_id: String = match wire.active_style_pack_id {
            Some(id) => if blank(id.as_str()) {
                answers.mode_style_pack_id
            } else {
                id
            },
            None => answers.mode_style_pack_id,
        };
        let translation_hotkey: ShortcutBinding = match wire.translation_hotkey {
            Some(binding) => binding,
            None => default_translation_hotkey(),
        };
        Ok(UserPreferences {
            hotkey: wire.hotkey,
            dictation_hotkey,
            default_mode: wire.default_mode,
            enabled_modes: wire.enabled_modes,
            active_style_pack_id,
            style_system_prompts: answers.style_system_prompts,
            custom_style_prompts: wire.custom_style_prompts,
            launch_at_login: wire.launch_at_login,
            show_capsule: wire.show_capsule,
            capsule_style: wire.capsule_style,
            mute_during_recording: wire.mute_during_recording,
            audio_cue_on_record: wire.audio_cue_on_record,
            silence_auto_stop_enabled: wire.silence_auto_stop_enabled,
            silence_auto_stop_seconds_bits: wire.silence_auto_stop_seconds_bits,
            microphone_device_name: wire.microphone_device_name,
            active_asr_provider: wire.active_asr_provider,
            active_llm_provider: wire.active_llm_provider,
            pipeline_mode: wire.pipeline_mode,
            multimodal_pipeline_enabled: wire.multimodal_pipeline_enabled,
            active_omni_provider: wire.active_omni_provider,
            llm_thinking_enabled: wire.llm_thinking_enabled,
            use_system_proxy: wire.use_system_proxy,
            restore_clipboard_after_paste: wire.restore_clipboard_after_paste,
            paste_shortcut: wire.paste_shortcut,
            allow_non_tsf_insertion_fallback: wire.allow_non_tsf_insertion_fallback,
            windows_insertion_mode: resolve_windows_insertion_mode(
                wire.windows_insertion_mode,
                wire.windows_sendinput_insertion_only,
            ),
            windows_sendinput_newline_mode: wire.windows_sendinput_newline_mode,
            macos_newline_mode: wire.macos_newline_mode,
            windows_sendinput_insertion_only: resolve_windows_sendinput_insertion_only_legacy(
                wire.windows_insertion_mode,
                wire.windows_sendinput_insertion_only,
            ),
            windows_show_openless_in_keyboard_list: wire.windows_show_openless_in_keyboard_list,
            working_languages: wire.working_languages,
            translation_target_language: wire.translation_target_language,
            chinese_script_preference: wire.chinese_script_preference,
            output_language_preference: wire.output_language_preference,
            qa_hotkey: wire.qa_hotkey,
            selection_polish_hotkey,
            selection_polish_style_pack_id: wire.selection_polish_style_pack_id,
            selection_polish_output_mode: wire.selection_polish_output_mode,
            selection_voice_enabled: wire.selection_voice_enabled,
            selection_voice_intent_mode: wire.selection_voice_intent_mode,
            selection_voice_manual_intent: wire.selection_voice_manual_intent,
            selection_voice_edit_keywords: wire.selection_voice_edit_keywords,
            qa_save_history: wire.qa_save_history,
            custom_combo_hotkey: wire.custom_combo_hotkey,
            translation_hotkey,
            switch_style_hotkey: wire.switch_style_hotkey,
            open_app_hotkey: wire.open_app_hotkey,
            style_pack_hotkeys: wire.style_pack_hotkeys,
            coding_agent_enabled: wire.coding_agent_enabled,
            coding_agent_provider: wire.coding_agent_provider,
            coding_agent_model: wire.coding_agent_model,
            coding_agent_permission_mode: wire.coding_agent_permission_mode,
            coding_agent_workdir: wire.coding_agent_workdir,
            coding_agent_exe: wire.coding_agent_exe,
            coding_agent_voice_hotkey: wire.coding_agent_voice_hotkey,
            coding_agent_panel_hotkey: wire.coding_agent_panel_hotkey,
            coding_agent_quick_hotkey: wire.coding_agent_quick_hotkey,
            remote_input_enabled: wire.remote_input_enabled,
            remote_input_port: wire.remote_input_port,
            remote_input_pin: wire.remote_input_pin,
            remote_input_default_mode: wire.remote_input_default_mode,
            local_asr_active_model,
            local_whisper_active_model,
            local_asr_mirror: wire.local_asr_mirror,
            local_asr_keep_loaded_secs: wire.local_asr_keep_loaded_secs,
            local_asr_models_base_dir: wire.local_asr_models_base_dir,
            foundry_local_asr_model: wire.foundry_local_asr_model,
            foundry_local_runtime_source: answers.foundry_local_runtime_source,
            foundry_local_asr_language_hint: wire.foundry_local_asr_language_hint,
            foundry_local_asr_keep_loaded_secs: wire.foundry_local_asr_keep_loaded_secs,
            sherpa_onnx_model: wire.sherpa_onnx_model,
            sherpa_onnx_language_hint: wire.sherpa_onnx_language_hint,
            sherpa_onnx_keep_loaded_secs: wire.sherpa_onnx_keep_loaded_secs,
            update_channel: wire.update_channel,
            update_channel_explicit,
            history_retention_days: wire.history_retention_days,
            polish_context_window_minutes: wire.polish_context_window_minutes,
            start_minimized: wire.start_minimized,
            theme_mode: wire.theme_mode,
            streaming_insert,
            streaming_insert_default_migrated: true,
            streaming_insert_save_clipboard: wire.streaming_insert_save_clipboard,
            cursor_context_enabled: wire.cursor_context_enabled,
            show_overview_activity_heatmap: wire.show_overview_activity_heatmap,
            stacked_row_layout: wire.stacked_row_layout,
            conservative_layout: wire.conservative_layout,
            auto_update_check: wire.auto_update_check,
            history_max_entries: wire.history_max_entries,
            record_audio_for_debug: wire.record_audio_for_debug,
            audio_recording_max_entries: wire.audio_recording_max_entries,
            marketplace_base_url: wire.marketplace_base_url,
            marketplace_dev_login: wire.marketplace_dev_login,
            android_insert_strategy: answers.android_insert_strategy,
            android_overlay_trigger: answers.android_overlay_trigger,
            android_overlay_activation_mode: wire.android_overlay_activation_mode,
            android_overlay_left_swipe_action: wire.android_overlay_left_swipe_action,
            android_overlay_cancel_swipe_direction: wire.android_overlay_cancel_swipe_direction,
            android_overlay_size_dp: answers.android_overlay_size_dp,
        })
    }

    fn set_default_mode(&mut self, value: PolishMode)
        ensures
            final(self).default_mode == value,
            same_beside_styles(*final(self), *old(self)),
            final(self).enabled_modes == old(self).enabled_modes,
            final(self).active_style_pack_id == old(self).active_style_pack_id,
            final(self).style_system_prompts == old(self).style_system_prompts,
            final(self).custom_style_prompts == old(self).custom_style_prompts,
    {
        self.default_mode = value;
        proof {
            reveal(same_beside_styles);
        }
    }

    fn set_enabled_modes(&mut self, value: Vec<PolishMode>)
        ensures
            final(self).enabled_modes == value,
            same_beside_styles(*final(self), *old(self)),
            final(self).default_mode == old(self).default_mode,
            final(self).active_style_pack_id == old(self).active_style_pack_id,
            final(self).style_system_prompts == old(self).style_system_prompts,
            final(self).custom_style_prompts == old(self).custom_style_prompts,
    {
        self.enabled_modes = value;
        proof {
            reveal(same_beside_styles);
        }
    }

    fn set_active_style_pack_id(&mut self, value: String)
        ensures
            final(self).active_style_pack_id == value,
            same_beside_styles(*final(self), *old(self)),
            final(self).default_mode == old(self).default_mode,
            final(self).enabled_modes == old(self).enabled_modes,
            final(self).style_system_prompts == old(self).style_system_prompts,
            final(self).custom_style_prompts == old(self).custom_style_prompts,
    {
        self.active_style_pack_id = value;
        proof {
            reveal(same_beside_styles);
        }
    }

    fn set_style_system_prompts(&mut self, value: StyleSystemPrompts)
        ensures
            final(self).style_system_prompts == value,
            same_beside_styles(*final(self), *old(self)),
            final(self).default_mode == old(self).default_mode,
            final(self).enabled_modes == old(self).enabled_modes,
            final(self).active_style_pack_id == old(self).active_style_pack_id,
            final(self).custom_style_prompts == old(self).custom_style_prompts,
    {
        self.style_system_prompts = value;
        proof {
            reveal(same_beside_styles);
        }
    }

    fn set_custom_style_prompts(&mut self, value: CustomStylePrompts)
        ensures
            final(self).custom_style_prompts == value,
            same_beside_styles(*final(self), *old(self)),
            final(self).default_mode == old(self).default_mode,
            final(self).enabled_modes == old(self).enabled_modes,
            final(self).active_style_pack_id == old(self).active_style_pack_id,
            final(self).style_system_prompts == old(self).style_system_prompts,
    {
        self.custom_style_prompts = value;
        proof {
            reveal(same_beside_styles);
        }
    }

    /// Takes over the style settings of `current`, and nothing else.
    pub fn preserve_style_preferences_from(&mut self, current: &UserPreferences)
        ensures
            same_styles(*final(self), *current),
            same_beside_styles(*final(self), *old(self)),
    {
        self.set_default_mode(current.default_mode);
        let ghost first = *self;
        self.set_enabled_modes(copied_modes(&current.enabled_modes));
        let ghost second = *self;
        self.set_active_style_pack_id(current.active_style_pack_id.clone());
        let ghost third = *self;
        self.set_style_system_prompts(current.style_system_prompts.copied());
        let ghost fourth = *self;
        self.set_custom_style_prompts(current.custom_style_prompts.copied());
        proof {
            lemma_same_beside_styles(second, first, *old(self));
            lemma_same_beside_styles(third, second, *old(self));
            lemma_same_beside_styles(fourth, third, *old(self));
            lemma_same_beside_styles(*self, fourth, *old(self));
        }
    }
}

proof fn lemma_same_beside_styles(a: UserPreferences, b: UserPreferences, c: UserPreferences)
    requires
        same_beside_styles(a, b),
        same_beside_styles(b, c),
    ensures
        same_beside_styles(a, c),
{
    reveal(same_beside_styles);
}

fn copied_modes(modes: &Vec<PolishMode>) -> (r: Vec<PolishMode>)
    ensures
        r@ == modes@,
{
    let mut r: Vec<PolishMode> = Vec::new();
    let mut i: usize = 0;
    while i < modes.len()
        invariant
            i <= modes.len(),
            r@ == modes@.take(i as int),
        decreases modes.len() - i,
    {
        r.push(modes[i]);
        assert(r@ =~= modes@.take(i as int + 1));
        i += 1;
    }
    assert(r@ =~= modes@);
    r
}

/// Preferences whose two insertion settings agree and whose streaming setting is a choice.
pub open spec fn is_settled(p: UserPreferences) -> bool {
    &&& p.windows_sendinput_insertion_only == (p.windows_insertion_mode is SendInput)
    &&& p.streaming_insert_default_migrated
}

/// Answers of the catalogs that leave the values of `p` as they are.
pub open spec fn answers_keep(answers: CatalogAnswers, p: UserPreferences) -> bool {
    &&& answers.shared_model matches Some(m) && m.family is Qwen && m.id@
        == p.local_asr_active_model@
    &&& answers.whisper_model matches Some(m) && m.family is Whisper && m.id@
        == p.local_whisper_active_model@
    &&& answers.style_system_prompts == p.style_system_prompts
    &&& answers.foundry_local_runtime_source == p.foundry_local_runtime_source
    &&& answers.android_insert_strategy == p.android_insert_strategy
    &&& answers.android_overlay_trigger == p.android_overlay_trigger
    &&& answers.android_overlay_size_dp == p.android_overlay_size_dp
}

/// Every migrated record is settled: reading it again migrates nothing.
pub proof fn migrated_preferences_are_settled(
    wire: UserPreferencesWire,
    answers: CatalogAnswers,
    target: TargetOs,
    p: UserPreferences,
)
    requires
        migrates(wire, answers, target, p),
    ensures
        is_settled(p),
{
}

/// Settled preferences survive being stored and read: each setting comes back as it was, among
/// them every shortcut that the user turned off. (A blank style pack id does not, it stands for
/// the built-in pack.)
pub proof fn stored_preferences_read_back_unchanged(
    p: UserPreferences,
    wire: UserPreferencesWire,
    answers: CatalogAnswers,
    target: TargetOs,
    read: UserPreferences,
)
    requires
        is_settled(p),
        !text::is_blank(p.active_style_pack_id@),
        stores(wire, p),
        answers_keep(answers, p),
        migrates(wire, answers, target, read),
    ensures
        !lacks_combination(wire),
        read == (UserPreferences {
            dictation_hotkey: read.dictation_hotkey,
            local_asr_active_model: read.local_asr_active_model,
            local_whisper_active_model: read.local_whisper_active_model,
            ..p
        }),
        read.dictation_hotkey@ == p.dictation_hotkey@,
        read.local_asr_active_model@ == p.local_asr_active_model@,
        read.local_whisper_active_model@ == p.local_whisper_active_model@,
{
}

/// The catalogs, each as a function of what it is asked.
pub struct Catalogs {
    /// The model that an id names, where it is known: the id that is stored, and the family.
    pub model: spec_fn(Seq<char>) -> Option<(Seq<char>, LocalAsrFamily)>,
    pub default_whisper_model_id: Seq<char>,
    /// The built-in style pack of a polish mode.
    pub mode_style_pack_id: spec_fn(PolishMode) -> Seq<char>,
    /// The prompts with older additions merged in.
    pub style_system_prompts: spec_fn(StyleSystemPrompts, CustomStylePrompts) -> StyleSystemPrompts,
    pub foundry_local_runtime_source: spec_fn(String) -> String,
    pub android_insert_strategy: spec_fn(String) -> String,
    pub android_overlay_trigger: spec_fn(AndroidOverlayTrigger) -> AndroidOverlayTrigger,
    pub android_overlay_size_dp: spec_fn(u32) -> u32,
}

/// The id and the family of a model.
pub open spec fn known_model(model: Option<LocalAsrModel>) -> Option<(Seq<char>, LocalAsrFamily)> {
    match model {
        Some(m) => Some((m.id@, m.family)),
        None => None,
    }
}

impl Catalogs {
    /// The catalogs know their own answers: asked about one, they give it back. The default models
    /// are known, and no built-in style pack has a blank id.
    pub open spec fn know_their_answers(self) -> bool {
        &&& forall|id: Seq<char>| #[trigger]
            (self.model)(id) is Some ==> (self.model)(((self.model)(id)->0).0)
                == (self.model)(id)
        &&& (self.model)("qwen3-asr-0.6b"@) == Some(("qwen3-asr-0.6b"@, LocalAsrFamily::Qwen))
        &&& (self.model)(self.default_whisper_model_id) == Some(
            (self.default_whisper_model_id, LocalAsrFamily::Whisper),
        )
        &&& forall|mode: PolishMode| !text::is_blank(#[trigger] (self.mode_style_pack_id)(mode))
        &&& forall|prompts: StyleSystemPrompts, additions: CustomStylePrompts|
            (self.style_system_prompts)(
                #[trigger] (self.style_system_prompts)(prompts, additions),
                additions,
            ) == (self.style_system_prompts)(prompts, additions)
        &&& forall|source: String|
            (self.foundry_local_runtime_source)(
                #[trigger] (self.foundry_local_runtime_source)(source),
            ) == (self.foundry_local_runtime_source)(source)
        &&& forall|strategy: String|
            (self.android_insert_strategy)(#[trigger] (self.android_insert_strategy)(strategy))
                == (self.android_insert_strategy)(strategy)
        &&& forall|trigger: AndroidOverlayTrigger|
            (self.android_overlay_trigger)(#[trigger] (self.android_overlay_trigger)(trigger))
                == (self.android_overlay_trigger)(trigger)
        &&& forall|size: u32|
            (self.android_overlay_size_dp)(#[trigger] (self.android_overlay_size_dp)(size))
                == (self.android_overlay_size_dp)(size)
    }

    /// `answers` is what the catalogs say of the record.
    pub open spec fn answer(self, wire: UserPreferencesWire, answers: CatalogAnswers) -> bool {
        &&& known_model(answers.shared_model) == (self.model)(wire.local_asr_active_model@)
        &&& wire.local_whisper_active_model matches Some(id) ==> known_model(answers.whisper_model)
            == (self.model)(id@)
        &&& answers.default_whisper_model_id@ == self.default_whisper_model_id
        &&& answers.mode_style_pack_id@ == (self.mode_style_pack_id)(wire.default_mode)
        &&& answers.style_system_prompts == (self.style_system_prompts)(
            wire.style_system_prompts,
            wire.custom_style_prompts,
        )
        &&& answers.foundry_local_runtime_source == (self.foundry_local_runtime_source)(
            wire.foundry_local_runtime_source,
        )
        &&& answers.android_insert_strategy == (self.android_insert_strategy)(
            wire.android_insert_strategy,
        )
        &&& answers.android_overlay_trigger == (self.android_overlay_trigger)(
            wire.android_overlay_trigger,
        )
        &&& answers.android_overlay_size_dp == (self.android_overlay_size_dp)(
            wire.android_overlay_size_dp,
        )
    }
}

/// Whatever record they were read from, preferences are settled: the streaming setting is a
/// choice, the two insertion settings agree, a style pack is named, and each local speech model is
/// a known one of its family.
pub proof fn read_preferences_are_settled(
    catalogs: Catalogs,
    wire: UserPreferencesWire,
    answers: CatalogAnswers,
    target: TargetOs,
    p: UserPreferences,
)
    requires
        catalogs.know_their_answers(),
        catalogs.answer(wire, answers),
        migrates(wire, answers, target, p),
    ensures
        is_settled(p),
        !text::is_blank(p.active_style_pack_id@),
        (catalogs.model)(p.local_asr_active_model@) == Some(
            (p.local_asr_active_model@, LocalAsrFamily::Qwen),
        ),
        (catalogs.model)(p.local_whisper_active_model@) == Some(
            (p.local_whisper_active_model@, LocalAsrFamily::Whisper),
        ),
{
}

/// One reading migrates a record completely: whatever record preferences were read from, storing
/// them and reading them again changes nothing.
pub proof fn one_reading_migrates_completely(
    catalogs: Catalogs,
    first_wire: UserPreferencesWire,
    first_answers: CatalogAnswers,
    target: TargetOs,
    p: UserPreferences,
    wire: UserPreferencesWire,
    answers: CatalogAnswers,
    read: UserPreferences,
)
    requires
        catalogs.know_their_answers(),
        catalogs.answer(first_wire, first_answers),
        migrates(first_wire, first_answers, target, p),
        stores(wire, p),
        catalogs.answer(wire, answers),
        migrates(wire, answers, target, read),
    ensures
        !lacks_combination(wire),
        read == (UserPreferences {
            dictation_hotkey: read.dictation_hotkey,
            local_asr_active_model: read.local_asr_active_model,
            local_whisper_active_model: read.local_whisper_active_model,
            ..p
        }),
        read.dictation_hotkey@ == p.dictation_hotkey@,
        read.local_asr_active_model@ == p.local_asr_active_model@,
        read.local_whisper_active_model@ == p.local_whisper_active_model@,
{
    read_preferences_are_settled(catalogs, first_wire, first_answers, target, p);
    assert(answers_keep(answers, p)) by {
        assert(known_model(answers.shared_model) is Some);
        assert(known_model(answers.whisper_model) is Some);
    }
    stored_preferences_read_back_unchanged(p, wire, answers, target, read);
}

/// A record in which nothing is stored, read over the preferences `p` of a new user.
pub open spec fn is_empty_record(wire: UserPreferencesWire, p: UserPreferences) -> bool {
    &&& wire.active_style_pack_id is None
    &&& !wire.streaming_insert_default_migrated
    &&& leaves_open(
        UserPreferencesWire {
            active_style_pack_id: Some(p.active_style_pack_id),
            streaming_insert_default_migrated: p.streaming_insert_default_migrated,
            ..wire
        },
        p,
    )
}

/// An empty record reads as the preferences of a new user. On Windows the
/// selection-polish shortcut is the exception: a new user has right Alt, but someone who already
/// dictates with right Control keeps the feature off.
pub proof fn empty_records_read_as_defaults(
    p: UserPreferences,
    catalog: CatalogDefaults,
    wire: UserPreferencesWire,
    answers: CatalogAnswers,
    target: TargetOs,
    read: UserPreferences,
)
    requires
        are_defaults(p, catalog, target),
        is_empty_record(wire, p),
        answers.mode_style_pack_id == catalog.style_pack_id,
        answers.trigger_binding == catalog.trigger_binding,
        answers.default_whisper_model_id == catalog.whisper_model_id,
        answers.shared_model matches Some(m) && m.family is Qwen && m.id@ == "qwen3-asr-0.6b"@,
        answers.style_system_prompts == p.style_system_prompts,
        answers.foundry_local_runtime_source == p.foundry_local_runtime_source,
        answers.android_insert_strategy == p.android_insert_strategy,
        answers.android_overlay_trigger == p.android_overlay_trigger,
        answers.android_overlay_size_dp == p.android_overlay_size_dp,
        migrates(wire, answers, target, read),
    ensures
        !lacks_combination(wire),
        read == (UserPreferences {
            dictation_hotkey: read.dictation_hotkey,
            selection_polish_hotkey: read.selection_polish_hotkey,
            translation_hotkey: read.translation_hotkey,
            local_asr_active_model: read.local_asr_active_model,
            local_whisper_active_model: read.local_whisper_active_model,
            ..p
        }),
        read.dictation_hotkey@ == p.dictation_hotkey@,
        read.translation_hotkey@ == p.translation_hotkey@,
        read.local_asr_active_model@ == p.local_asr_active_model@,
        read.local_whisper_active_model@ == p.local_whisper_active_model@,
        !(target is Windows) ==> read.selection_polish_hotkey is None
            && p.selection_polish_hotkey is None,
        target is Windows && is_lone_right_control(catalog.trigger_binding@)
            ==> read.selection_polish_hotkey is None,
{
}

/// An upgrade never gives the selection-polish feature keys that dictation already has.
pub proof fn introduced_polish_keys_never_collide(
    wire: UserPreferencesWire,
    answers: CatalogAnswers,
    target: TargetOs,
    p: UserPreferences,
)
    requires
        migrates(wire, answers, target, p),
        wire.selection_polish_hotkey is None,
        answers.polish_default_overlaps_dictation,
    ensures
        p.selection_polish_hotkey is None,
{
}

/// The switches that are on until the user turns them off, and those that are off.
pub proof fn switches_begin_as_they_should(
    catalog: CatalogDefaults,
    target: TargetOs,
    r: UserPreferences,
)
    requires
        call_ensures(UserPreferences::default_for, (catalog, target), r),
    ensures
        r.show_capsule && r.audio_cue_on_record && r.use_system_proxy
            && r.restore_clipboard_after_paste && r.allow_non_tsf_insertion_fallback
            && r.windows_show_openless_in_keyboard_list,
        r.streaming_insert && r.streaming_insert_default_migrated
            && r.streaming_insert_save_clipboard && r.show_overview_activity_heatmap
            && r.auto_update_check,
        !(r.launch_at_login || r.mute_during_recording || r.silence_auto_stop_enabled
            || r.multimodal_pipeline_enabled || r.llm_thinking_enabled
            || r.windows_sendinput_insertion_only || r.selection_voice_enabled),
        !(r.qa_save_history || r.coding_agent_enabled || r.remote_input_enabled
            || r.update_channel_explicit || r.start_minimized || r.cursor_context_enabled
            || r.stacked_row_layout || r.conservative_layout || r.record_audio_for_debug),
        r.default_mode is Light && r.enabled_modes@ == seq![
            PolishMode::Raw,
            PolishMode::Light,
            PolishMode::Structured,
            PolishMode::Formal,
        ],
        r.capsule_style is Siri && r.pipeline_mode is Traditional && r.paste_shortcut is CtrlV
            && r.windows_insertion_mode is Tsf && r.windows_sendinput_newline_mode is Enter
            && r.macos_newline_mode is Auto,
        r.chinese_script_preference is Auto && r.output_language_preference is Auto
            && r.selection_polish_output_mode is DirectReplace && r.update_channel is Stable
            && r.theme_mode is System,
        r.silence_auto_stop_seconds_bits == 0x4040_0000 && r.remote_input_port == 8443
            && r.history_retention_days == 7 && r.polish_context_window_minutes == 5,
        r.local_asr_keep_loaded_secs == 300 && r.foundry_local_asr_keep_loaded_secs == 300
            && r.sherpa_onnx_keep_loaded_secs == 300,
        r.history_max_entries is None && r.audio_recording_max_entries is None,
{
}

/// The shortcuts that are there from the start.
pub proof fn shortcuts_begin_as_they_should(
    catalog: CatalogDefaults,
    target: TargetOs,
    qa: ShortcutBinding,
    polish: Option<ShortcutBinding>,
    translation: ShortcutBinding,
    switch_style: ShortcutBinding,
    open_app: ShortcutBinding,
    voice: ShortcutBinding,
    panel: ShortcutBinding,
    dictation: HotkeyBinding,
    r: UserPreferences,
)
    requires
        call_ensures(ShortcutBinding::default_qa, (target,), qa),
        call_ensures(default_selection_polish_hotkey, (target,), polish),
        call_ensures(default_translation_hotkey, (), translation),
        call_ensures(default_switch_style_hotkey, (target,), switch_style),
        call_ensures(default_open_app_hotkey, (target,), open_app),
        call_ensures(default_coding_agent_voice_hotkey, (), voice),
        call_ensures(default_coding_agent_panel_hotkey, (), panel),
        call_ensures(HotkeyBinding::default_for, (target,), dictation),
        call_ensures(UserPreferences::default_for, (catalog, target), r),
    ensures
        r.hotkey.trigger == dictation.trigger && r.hotkey.mode == dictation.mode && r.hotkey.keys
            is None,
        r.dictation_hotkey == catalog.trigger_binding,
        hotkeys::same_shortcut(r.qa_hotkey, Some(qa)),
        hotkeys::same_shortcut(r.selection_polish_hotkey, polish),
        hotkeys::same_keys(r.translation_hotkey, translation),
        hotkeys::same_shortcut(r.switch_style_hotkey, Some(switch_style)),
        hotkeys::same_shortcut(r.open_app_hotkey, Some(open_app)),
        hotkeys::same_shortcut(r.coding_agent_voice_hotkey, Some(voice)),
        hotkeys::same_shortcut(r.coding_agent_panel_hotkey, Some(panel)),
        r.coding_agent_quick_hotkey is None && r.custom_combo_hotkey is None,
        r.style_pack_hotkeys@.len() == 0,
{
    hotkeys::missing_shortcuts_are_told_apart(r.qa_hotkey, Some(qa));
    hotkeys::missing_shortcuts_are_told_apart(r.selection_polish_hotkey, polish);
    hotkeys::shortcuts_are_their_keys(r.translation_hotkey, translation);
    hotkeys::missing_shortcuts_are_told_apart(r.switch_style_hotkey, Some(switch_style));
    hotkeys::missing_shortcuts_are_told_apart(r.open_app_hotkey, Some(open_app));
    hotkeys::missing_shortcuts_are_told_apart(r.coding_agent_voice_hotkey, Some(voice));
    hotkeys::missing_shortcuts_are_told_apart(r.coding_agent_panel_hotkey, Some(panel));
}

/// The texts that are there from the start: the providers, the models and the languages.
pub proof fn texts_begin_as_they_should(
    catalog: CatalogDefaults,
    target: TargetOs,
    languages: Vec<String>,
    no_prompts: CustomStylePrompts,
    r: UserPreferences,
)
    requires
        call_ensures(default_working_languages, (), languages),
        call_ensures(<CustomStylePrompts as Default>::default, (), no_prompts),
        call_ensures(UserPreferences::default_for, (catalog, target), r),
    ensures
        languages@.len() == 1 && languages@[0]@ == "简体中文"@,
        no_prompts.raw@.len() == 0 && no_prompts.light@.len() == 0 && no_prompts.structured@.len()
            == 0 && no_prompts.formal@.len() == 0,
        r.working_languages@.len() == 1 && r.working_languages@[0]@ == languages@[0]@,
        target is Windows ==> r.active_asr_provider@ == catalog.foundry_provider_id@,
        !(target is Windows) ==> r.active_asr_provider@ == "volcengine"@,
        r.active_llm_provider@ == "ark"@ && r.active_omni_provider@ == "custom"@,
        r.local_asr_active_model@ == "qwen3-asr-0.6b"@ && r.local_asr_mirror@ == "huggingface"@,
        r.foundry_local_runtime_source@ == "auto"@ && r.remote_input_default_mode@ == "toggle"@,
        r.coding_agent_permission_mode@ == "acceptEdits"@,
        r.local_whisper_active_model == catalog.whisper_model_id && r.foundry_local_asr_model
            == catalog.foundry_model_alias && r.sherpa_onnx_model == catalog.sherpa_model_alias,
        r.active_style_pack_id == catalog.style_pack_id && r.selection_polish_style_pack_id
            == catalog.style_pack_id && r.style_system_prompts == catalog.style_system_prompts,
        r.selection_voice_intent_mode == catalog.selection_voice_intent_mode
            && r.selection_voice_manual_intent == catalog.selection_voice_manual_intent
            && r.coding_agent_provider == catalog.coding_agent_provider,
        r.android_insert_strategy == catalog.android_insert_strategy && r.android_overlay_trigger
            == catalog.android_overlay_trigger && r.android_overlay_size_dp
            == catalog.android_overlay_size_dp,
        r.android_overlay_activation_mode == catalog.android_overlay_activation_mode
            && r.android_overlay_left_swipe_action == catalog.android_overlay_left_swipe_action
            && r.android_overlay_cancel_swipe_direction
            == catalog.android_overlay_cancel_swipe_direction,
        r.microphone_device_name@.len() == 0 && r.translation_target_language@.len() == 0
            && r.remote_input_pin@.len() == 0 && r.local_asr_models_base_dir@.len() == 0
            && r.foundry_local_asr_language_hint@.len() == 0 && r.sherpa_onnx_language_hint@.len()
            == 0 && r.marketplace_base_url@.len() == 0 && r.marketplace_dev_login@.len() == 0,
        r.coding_agent_model is None && r.coding_agent_workdir is None && r.coding_agent_exe
            is None && r.selection_voice_edit_keywords@.len() == 0,
        r.custom_style_prompts.raw@.len() == 0 && r.custom_style_prompts.light@.len() == 0
            && r.custom_style_prompts.structured@.len() == 0
            && r.custom_style_prompts.formal@.len() == 0,
{
    let x = text::texts(languages@);
    assert(x.len() == languages@.len());
    assert(x[0] == languages@[0]@);
    let y = text::texts(r.working_languages@);
    assert(y.len() == r.working_languages@.len());
    assert(y[0] == r.working_languages@[0]@);
}

/// The single shortcuts that are there from the start.
pub proof fn default_shortcuts_are_these(
    target: TargetOs,
    modifiers: Vec<String>,
    polish: Option<ShortcutBinding>,
    translation: ShortcutBinding,
    switch_style: ShortcutBinding,
    open_app: ShortcutBinding,
    voice: ShortcutBinding,
    panel: ShortcutBinding,
)
    requires
        call_ensures(default_app_shortcut_modifiers, (target,), modifiers),
        call_ensures(default_selection_polish_hotkey, (target,), polish),
        call_ensures(default_translation_hotkey, (), translation),
        call_ensures(default_switch_style_hotkey, (target,), switch_style),
        call_ensures(default_open_app_hotkey, (target,), open_app),
        call_ensures(default_coding_agent_voice_hotkey, (), voice),
        call_ensures(default_coding_agent_panel_hotkey, (), panel),
    ensures
        polish is Some <==> target is Windows,
        polish is Some ==> polish->0.primary@ == "RightAlt"@ && polish->0.modifiers@.len() == 0,
        translation.primary@ == "Shift"@ && translation.modifiers@.len() == 0,
        switch_style.primary@ == "S"@ && open_app.primary@ == "O"@,
        switch_style.modifiers@.len() == 2 && open_app.modifiers@.len() == 2,
        forall|i: int|
            0 <= i < 2 ==> (#[trigger] switch_style.modifiers@[i])@ == modifiers@[i]@
                && open_app.modifiers@[i]@ == modifiers@[i]@,
        voice.primary@ == "LeftControl"@ && voice.modifiers@.len() == 0,
        panel.primary@ == "Enter"@ && panel.modifiers@.len() == 2 && panel.modifiers@[0]@ == "cmd"@
            && panel.modifiers@[1]@ == "shift"@,
{
    text::same_texts(switch_style.modifiers@, modifiers@);
    text::same_texts(open_app.modifiers@, modifiers@);
    assert(text::texts(modifiers@).len() == modifiers@.len());
    assert(text::texts(translation.modifiers@).len() == translation.modifiers@.len());
    assert(text::texts(voice.modifiers@).len() == voice.modifiers@.len());
    if polish is Some {
        assert(text::texts(polish->0.modifiers@).len() == polish->0.modifiers@.len());
    }
    let p = text::texts(panel.modifiers@);
    assert(p.len() == panel.modifiers@.len());
    assert(p[0] == panel.modifiers@[0]@ && p[1] == panel.modifiers@[1]@);
}

/// The insertion mode of Windows: the older switch counts only where the mode was never changed, and
/// the switch follows the mode from then on.
pub proof fn the_older_switch_counts_for_the_default_mode(
    mode: WindowsInsertionMode,
    legacy: bool,
    r: WindowsInsertionMode,
    only: bool,
)
    requires
        call_ensures(resolve_windows_insertion_mode, (mode, legacy), r),
        call_ensures(resolve_windows_sendinput_insertion_only_legacy, (mode, legacy), only),
    ensures
        mode is Tsf && legacy ==> r is SendInput,
        mode is Tsf && !legacy ==> r is Tsf,
        !(mode is Tsf) ==> r == mode,
        only <==> r is SendInput,
{
}

/// A model stays where it is of its family; else there is the default. Without a choice of its own,
/// Whisper takes the shared one.
pub proof fn models_keep_to_their_family(
    shared: &Option<LocalAsrModel>,
    own: &Option<LocalAsrModel>,
    default_whisper: &str,
    chosen: (String, String),
    unchosen: (String, String),
)
    requires
        call_ensures(migrate_local_asr_models, (shared, Some(own), default_whisper), chosen),
        call_ensures(migrate_local_asr_models, (shared, None, default_whisper), unchosen),
    ensures
        *shared is Some && shared->0.family is Qwen ==> chosen.0@ == shared->0.id@,
        *shared is None || !(shared->0.family is Qwen) ==> chosen.0@ == "qwen3-asr-0.6b"@,
        unchosen.0@ == chosen.0@,
        *own is Some && own->0.family is Whisper ==> chosen.1@ == own->0.id@,
        *own is None || !(own->0.family is Whisper) ==> chosen.1@ == default_whisper@,
        *shared is Some && shared->0.family is Whisper ==> unchosen.1@ == shared->0.id@,
        *shared is None || !(shared->0.family is Whisper) ==> unchosen.1@ == default_whisper@,
{
}

/// Dictation keys of an older file: those of its combination where the trigger is a custom one, else
/// those of the trigger. A custom trigger without a combination cannot be read.
pub proof fn older_dictation_keys_are_found(
    hotkey: &HotkeyBinding,
    combo: &Option<ComboBinding>,
    trigger_binding: &ShortcutBinding,
    r: Result<ShortcutBinding, String>,
    binding: &ShortcutBinding,
    right_control: bool,
)
    requires
        call_ensures(default_dictation_hotkey_from_legacy, (hotkey, combo, trigger_binding), r),
        call_ensures(is_right_control_modifier_shortcut, (binding,), right_control),
    ensures
        r is Err <==> hotkey.trigger is Custom && *combo is None,
        r is Err ==> r->Err_0@
            == "hotkey.trigger is custom but dictationHotkey/customComboHotkey is missing"@,
        r is Ok && !(hotkey.trigger is Custom) ==> hotkeys::same_keys(r->Ok_0, *trigger_binding),
        r is Ok && hotkey.trigger is Custom ==> r->Ok_0.primary@ == combo->0.primary@
            && r->Ok_0.modifiers@.len() == combo->0.modifiers@.len() && forall|i: int|
            0 <= i < combo->0.modifiers@.len() ==> (#[trigger] r->Ok_0.modifiers@[i])@
                == combo->0.modifiers@[i]@,
        right_control <==> binding.modifiers@.len() == 0 && text::same_ignoring_ascii_case(
            binding.primary@,
            "RightControl"@,
        ),
{
    if r is Ok {
        hotkeys::shortcuts_are_their_keys(r->Ok_0, *trigger_binding);
        if *combo is Some {
            text::same_texts(r->Ok_0.modifiers@, combo->0.modifiers@);
        }
    }
    assert(text::texts(binding.modifiers@).len() == binding.modifiers@.len());
}

/// How the settings that changed over time are read: the keys of dictation, the shortcut of selection
/// polish, streaming, the models, the update channel, the style pack, the insertion mode and the
/// translation key.
pub proof fn each_older_setting_is_read_by_its_rule(
    wire: UserPreferencesWire,
    answers: CatalogAnswers,
    target: TargetOs,
    dictation: Result<ShortcutBinding, String>,
    legacy: Result<ShortcutBinding, String>,
    mode: WindowsInsertionMode,
    r: Result<UserPreferences, String>,
)
    requires
        call_ensures(
            default_dictation_hotkey_from_legacy,
            (&wire.hotkey, &wire.custom_combo_hotkey, &answers.trigger_binding),
            legacy,
        ),
        call_ensures(
            UserPreferencesWire::migrated_dictation_hotkey,
            (&wire, &answers.trigger_binding),
            dictation,
        ),
        call_ensures(
            resolve_windows_insertion_mode,
            (wire.windows_insertion_mode, wire.windows_sendinput_insertion_only),
            mode,
        ),
        call_ensures(UserPreferences::from_wire, (wire, answers, target), r),
    ensures
        r is Err <==> wire.dictation_hotkey is None && wire.hotkey.trigger is Custom
            && wire.custom_combo_hotkey is None,
        r is Ok <==> dictation is Ok,
        r matches Ok(p) ==> {
            &&& hotkeys::same_keys(p.dictation_hotkey, dictation->Ok_0)
            &&& wire.dictation_hotkey is Some ==> hotkeys::same_keys(
                p.dictation_hotkey,
                wire.dictation_hotkey->0,
            )
            &&& wire.dictation_hotkey is None ==> legacy is Ok && hotkeys::same_keys(
                p.dictation_hotkey,
                legacy->Ok_0,
            )
            &&& wire.selection_polish_hotkey is Some ==> p.selection_polish_hotkey
                == wire.selection_polish_hotkey->0
            &&& p.streaming_insert <==> wire.streaming_insert
                || !wire.streaming_insert_default_migrated
            &&& p.streaming_insert_default_migrated
            &&& wire.update_channel_explicit is Some ==> p.update_channel_explicit
                == wire.update_channel_explicit->0
            &&& wire.update_channel_explicit is None ==> (p.update_channel_explicit
                <==> wire.update_channel is Beta)
            &&& wire.active_style_pack_id is Some && !text::is_blank(wire.active_style_pack_id->0@)
                ==> p.active_style_pack_id == wire.active_style_pack_id->0
            &&& wire.active_style_pack_id is None || text::is_blank(wire.active_style_pack_id->0@)
                ==> p.active_style_pack_id == answers.mode_style_pack_id
            &&& p.windows_insertion_mode == mode
            &&& p.windows_sendinput_insertion_only <==> mode is SendInput
            &&& wire.translation_hotkey is Some ==> p.translation_hotkey
                == wire.translation_hotkey->0
            &&& wire.translation_hotkey is None ==> p.translation_hotkey.primary@ == "Shift"@
                && p.translation_hotkey.modifiers@.len() == 0
        },
{
    if r is Ok {
        let p = r->Ok_0;
        hotkeys::shortcuts_are_their_keys(p.dictation_hotkey, dictation->Ok_0);
        if wire.dictation_hotkey is Some {
            hotkeys::shortcuts_are_their_keys(p.dictation_hotkey, wire.dictation_hotkey->0);
        } else {
            hotkeys::shortcuts_are_their_keys(p.dictation_hotkey, legacy->Ok_0);
        }
        assert(text::texts(p.translation_hotkey.modifiers@).len()
            == p.translation_hotkey.modifiers@.len());
    }
}

/// Selection polish gets its default shortcut in an older file on Windows alone, and only where it
/// does not get in the way of dictation. The models and what the catalogs say are taken over.
pub proof fn introduced_settings_take_what_is_free(
    wire: UserPreferencesWire,
    answers: CatalogAnswers,
    target: TargetOs,
    p: UserPreferences,
    right_control: bool,
)
    requires
        call_ensures(UserPreferences::from_wire, (wire, answers, target), Ok(p)),
        call_ensures(is_right_control_modifier_shortcut, (&p.dictation_hotkey,), right_control),
    ensures
        wire.selection_polish_hotkey is None ==> (p.selection_polish_hotkey is Some <==> target
            is Windows && !answers.polish_default_overlaps_dictation && !right_control),
        wire.selection_polish_hotkey is None && p.selection_polish_hotkey is Some
            ==> p.selection_polish_hotkey->0.primary@ == "RightAlt"@
            && p.selection_polish_hotkey->0.modifiers@.len() == 0,
        answers.shared_model is Some && answers.shared_model->0.family is Qwen
            ==> p.local_asr_active_model@ == answers.shared_model->0.id@,
        answers.shared_model is None || !(answers.shared_model->0.family is Qwen)
            ==> p.local_asr_active_model@ == "qwen3-asr-0.6b"@,
        wire.local_whisper_active_model is Some && answers.whisper_model is Some
            && answers.whisper_model->0.family is Whisper ==> p.local_whisper_active_model@
            == answers.whisper_model->0.id@,
        wire.local_whisper_active_model is Some && (answers.whisper_model is None || !(
        answers.whisper_model->0.family is Whisper)) ==> p.local_whisper_active_model@
            == answers.default_whisper_model_id@,
        wire.local_whisper_active_model is None && answers.shared_model is Some
            && answers.shared_model->0.family is Whisper ==> p.local_whisper_active_model@
            == answers.shared_model->0.id@,
        wire.local_whisper_active_model is None && (answers.shared_model is None || !(
        answers.shared_model->0.family is Whisper)) ==> p.local_whisper_active_model@
            == answers.default_whisper_model_id@,
        p.style_system_prompts == answers.style_system_prompts && p.foundry_local_runtime_source
            == answers.foundry_local_runtime_source,
        p.android_insert_strategy == answers.android_insert_strategy && p.android_overlay_trigger
            == answers.android_overlay_trigger && p.android_overlay_size_dp
            == answers.android_overlay_size_dp,
{
    if p.selection_polish_hotkey is Some {
        assert(text::texts(p.selection_polish_hotkey->0.modifiers@).len()
            == p.selection_polish_hotkey->0.modifiers@.len());
    }
}

/// Preferences that are stored and read again are the same, setting by setting.
pub proof fn stored_preferences_are_read_again(
    p: UserPreferences,
    wire: UserPreferencesWire,
    answers: CatalogAnswers,
    target: TargetOs,
    r: Result<UserPreferences, String>,
)
    requires
        p.windows_sendinput_insertion_only == (p.windows_insertion_mode is SendInput),
        p.streaming_insert_default_migrated,
        !text::is_blank(p.active_style_pack_id@),
        stores(wire, p),
        answers_keep(answers, p),
        call_ensures(UserPreferences::from_wire, (wire, answers, target), r),
    ensures
        r is Ok,
        r->Ok_0 == (UserPreferences {
            dictation_hotkey: r->Ok_0.dictation_hotkey,
            local_asr_active_model: r->Ok_0.local_asr_active_model,
            local_whisper_active_model: r->Ok_0.local_whisper_active_model,
            ..p
        }),
        hotkeys::same_keys(r->Ok_0.dictation_hotkey, p.dictation_hotkey),
        r->Ok_0.local_asr_active_model@ == p.local_asr_active_model@,
        r->Ok_0.local_whisper_active_model@ == p.local_whisper_active_model@,
{
    stored_preferences_read_back_unchanged(p, wire, answers, target, r->Ok_0);
    hotkeys::shortcuts_are_their_keys(r->Ok_0.dictation_hotkey, p.dictation_hotkey);
}

/// A record that stands for preferences leaves open what reading decides anew, and nothing else: read
/// again, it gives those preferences, setting by setting, but for what it left open.
pub proof fn default_records_leave_the_rest_as_it_is(
    p: UserPreferences,
    wire: UserPreferencesWire,
    answers: CatalogAnswers,
    target: TargetOs,
    r: Result<UserPreferences, String>,
)
    requires
        p.windows_sendinput_insertion_only == (p.windows_insertion_mode is SendInput),
        p.streaming_insert_default_migrated,
        !text::is_blank(p.active_style_pack_id@),
        !(p.hotkey.trigger is Custom),
        answers_keep(answers, p),
        call_ensures(UserPreferencesWire::default_from, (p,), wire),
        call_ensures(UserPreferences::from_wire, (wire, answers, target), r),
    ensures
        wire.dictation_hotkey is None && wire.selection_polish_hotkey is None
            && wire.translation_hotkey is None && wire.local_whisper_active_model is None
            && wire.update_channel_explicit is None,
        wire.local_asr_active_model == p.local_asr_active_model && wire.style_system_prompts
            == p.style_system_prompts && wire.foundry_local_runtime_source
            == p.foundry_local_runtime_source,
        wire.android_insert_strategy == p.android_insert_strategy && wire.android_overlay_trigger
            == p.android_overlay_trigger && wire.android_overlay_size_dp
            == p.android_overlay_size_dp,
        wire.active_style_pack_id == Some(p.active_style_pack_id) && wire.windows_insertion_mode
            == p.windows_insertion_mode && wire.windows_sendinput_insertion_only
            == p.windows_sendinput_insertion_only,
        wire.streaming_insert == p.streaming_insert && wire.streaming_insert_default_migrated
            == p.streaming_insert_default_migrated,
        r is Ok,
        r->Ok_0 == (UserPreferences {
            dictation_hotkey: r->Ok_0.dictation_hotkey,
            selection_polish_hotkey: r->Ok_0.selection_polish_hotkey,
            translation_hotkey: r->Ok_0.translation_hotkey,
            local_asr_active_model: r->Ok_0.local_asr_active_model,
            local_whisper_active_model: r->Ok_0.local_whisper_active_model,
            update_channel_explicit: r->Ok_0.update_channel_explicit,
            ..p
        }),
        r->Ok_0.local_asr_active_model@ == p.local_asr_active_model@,
{
}

proof fn lemma_styles_kept(after: UserPreferences, before: UserPreferences, current: UserPreferences)
    requires
        same_styles(after, current),
        same_beside_styles(after, before),
    ensures
        after == (UserPreferences {
            default_mode: current.default_mode,
            enabled_modes: after.enabled_modes,
            active_style_pack_id: current.active_style_pack_id,
            style_system_prompts: current.style_system_prompts,
            custom_style_prompts: current.custom_style_prompts,
            ..before
        }),
{
    reveal(same_beside_styles);
}

/// Keeping the styles of other preferences takes over these and changes nothing else.
pub proof fn styles_are_kept_and_nothing_else(
    prefs: &mut UserPreferences,
    current: &UserPreferences,
)
    requires
        call_ensures(UserPreferences::preserve_style_preferences_from, (prefs, current), ()),
    ensures
        *final(prefs) == (UserPreferences {
            default_mode: current.default_mode,
            enabled_modes: final(prefs).enabled_modes,
            active_style_pack_id: current.active_style_pack_id,
            style_system_prompts: current.style_system_prompts,
            custom_style_prompts: current.custom_style_prompts,
            ..*old(prefs)
        }),
        final(prefs).enabled_modes@ == current.enabled_modes@,
{
    lemma_styles_kept(*final(prefs), *old(prefs), *current);
}

} // verus!
