use openless::hotkeys::{
    ComboBinding, HotkeyBinding, HotkeyMode, HotkeyTrigger, ShortcutBinding, StylePackHotkey,
};
use openless::platform::TargetOs;
use openless::preference_record::PreferenceRecord;
use openless::preferences::{
    default_coding_agent_panel_hotkey, default_coding_agent_voice_hotkey,
    is_right_control_modifier_shortcut, migrate_local_asr_models, resolve_windows_insertion_mode,
    resolve_windows_sendinput_insertion_only_legacy, CatalogAnswers, CatalogDefaults,
    CustomStylePrompts, LocalAsrFamily, LocalAsrModel, StyleSystemPrompts, UserPreferences,
    UserPreferencesWire,
};
use openless::types::{
    AndroidOverlayTrigger, CapsuleStyle, MacosNewlineMode, PasteShortcut, PolishMode,
    UpdateChannel, WindowsInsertionMode, WindowsSendInputNewlineMode,
};
use serde_json::Value;

const WHISPER: &str = "whisper-large-v3-turbo";
const QWEN: &str = "qwen3-asr-0.6b";

fn lone(primary: &str) -> ShortcutBinding {
    ShortcutBinding { primary: primary.to_string(), modifiers: Vec::new() }
}

fn prompts() -> StyleSystemPrompts {
    StyleSystemPrompts {
        raw: "raw".to_string(),
        light: "light".to_string(),
        structured: "structured".to_string(),
        formal: "formal".to_string(),
    }
}

fn trigger_binding(trigger: HotkeyTrigger) -> ShortcutBinding {
    match trigger {
        HotkeyTrigger::RightControl => lone("RightControl"),
        HotkeyTrigger::RightAlt | HotkeyTrigger::RightOption => lone("RightOption"),
        _ => lone("LeftOption"),
    }
}

fn catalog(target: TargetOs) -> CatalogDefaults {
    CatalogDefaults {
        trigger_binding: if target == TargetOs::Windows {
            lone("RightControl")
        } else {
            lone("RightOption")
        },
        style_pack_id: "builtin.light".to_string(),
        style_system_prompts: prompts(),
        foundry_provider_id: "foundry-local-whisper".to_string(),
        whisper_model_id: WHISPER.to_string(),
        foundry_model_alias: "whisper-small".to_string(),
        sherpa_model_alias: "sense-voice".to_string(),
        selection_voice_intent_mode: "auto".to_string(),
        selection_voice_manual_intent: "edit".to_string(),
        coding_agent_provider: "agent".to_string(),
        android_insert_strategy: "auto".to_string(),
        android_overlay_trigger: AndroidOverlayTrigger::Background,
        android_overlay_activation_mode: "tap".to_string(),
        android_overlay_left_swipe_action: "cancel".to_string(),
        android_overlay_cancel_swipe_direction: "left".to_string(),
        android_overlay_size_dp: 56,
    }
}

fn defaults(target: TargetOs) -> UserPreferences {
    UserPreferences::default_for(catalog(target), target)
}

fn model(id: &str) -> Option<LocalAsrModel> {
    let family = match id {
        "qwen3-asr-0.6b" | "qwen3-asr-1.7b" => LocalAsrFamily::Qwen,
        "whisper-small" | "whisper-medium" | WHISPER => LocalAsrFamily::Whisper,
        _ => return None,
    };
    Some(LocalAsrModel { id: id.to_string(), family })
}

fn answers(wire: &UserPreferencesWire) -> CatalogAnswers {
    let dictation = match (&wire.dictation_hotkey, &wire.custom_combo_hotkey) {
        (Some(binding), _) => binding.primary.clone(),
        (None, _) => trigger_binding(wire.hotkey.trigger).primary,
    };
    CatalogAnswers {
        trigger_binding: trigger_binding(wire.hotkey.trigger),
        polish_default_overlaps_dictation: dictation == "RightAlt" || dictation == "RightOption",
        shared_model: model(&wire.local_asr_active_model),
        whisper_model: wire.local_whisper_active_model.as_deref().and_then(model),
        default_whisper_model_id: WHISPER.to_string(),
        mode_style_pack_id: match wire.default_mode {
            PolishMode::Raw => "builtin.raw".to_string(),
            PolishMode::Light => "builtin.light".to_string(),
            PolishMode::Structured => "builtin.structured".to_string(),
            PolishMode::Formal => "builtin.formal".to_string(),
        },
        style_system_prompts: wire.style_system_prompts.clone(),
        foundry_local_runtime_source: wire.foundry_local_runtime_source.clone(),
        android_insert_strategy: wire.android_insert_strategy.clone(),
        android_overlay_trigger: wire.android_overlay_trigger,
        android_overlay_size_dp: wire.android_overlay_size_dp,
    }
}

fn names(value: &Value) -> Option<Vec<String>> {
    value.as_array()?.iter().map(|name| Some(name.as_str()?.to_string())).collect()
}

fn binding(value: &Value) -> Option<ShortcutBinding> {
    Some(ShortcutBinding {
        primary: value.get("primary")?.as_str()?.to_string(),
        modifiers: names(value.get("modifiers")?)?,
    })
}

fn optional(value: &Value) -> Option<Option<ShortcutBinding>> {
    if value.is_null() {
        return Some(None);
    }
    binding(value).map(Some)
}

fn hotkey(value: &Value) -> Option<HotkeyBinding> {
    let trigger = match value.get("trigger")?.as_str()? {
        "rightControl" => HotkeyTrigger::RightControl,
        "rightAlt" => HotkeyTrigger::RightAlt,
        "custom" => HotkeyTrigger::Custom,
        _ => return None,
    };
    let mode = match value.get("mode")?.as_str()? {
        "toggle" => HotkeyMode::Toggle,
        "hold" => HotkeyMode::Hold,
        _ => return None,
    };
    Some(HotkeyBinding { trigger, mode, keys: None })
}

/// Puts one stored field into the record; `None` where the value is of another type.
fn set(wire: &mut UserPreferencesWire, key: &str, value: &Value) -> Option<()> {
    match key {
        "hotkey" => wire.hotkey = hotkey(value)?,
        "dictationHotkey" => wire.dictation_hotkey = optional(value)?,
        "customComboHotkey" => {
            wire.custom_combo_hotkey = optional(value)?
                .map(|b| ComboBinding { primary: b.primary, modifiers: b.modifiers })
        }
        "selectionPolishHotkey" => wire.selection_polish_hotkey = Some(optional(value)?),
        "switchStyleHotkey" => wire.switch_style_hotkey = optional(value)?,
        "openAppHotkey" => wire.open_app_hotkey = optional(value)?,
        "defaultMode" => {
            wire.default_mode = match value.as_str()? {
                "raw" => PolishMode::Raw,
                "light" => PolishMode::Light,
                "structured" => PolishMode::Structured,
                "formal" => PolishMode::Formal,
                _ => return None,
            }
        }
        "activeStylePackId" => wire.active_style_pack_id = Some(value.as_str()?.to_string()),
        "activeAsrProvider" => wire.active_asr_provider = value.as_str()?.to_string(),
        "localAsrActiveModel" => wire.local_asr_active_model = value.as_str()?.to_string(),
        "localWhisperActiveModel" => {
            wire.local_whisper_active_model = Some(value.as_str()?.to_string())
        }
        "customStylePrompts" => {
            wire.custom_style_prompts = CustomStylePrompts {
                raw: value.get("raw")?.as_str()?.to_string(),
                light: value.get("light")?.as_str()?.to_string(),
                structured: value.get("structured")?.as_str()?.to_string(),
                formal: value.get("formal")?.as_str()?.to_string(),
            }
        }
        "pasteShortcut" => {
            wire.paste_shortcut = match value.as_str()? {
                "ctrlV" => PasteShortcut::CtrlV,
                "ctrlShiftV" => PasteShortcut::CtrlShiftV,
                "shiftInsert" => PasteShortcut::ShiftInsert,
                _ => return None,
            }
        }
        "windowsInsertionMode" => {
            wire.windows_insertion_mode = match value.as_str()? {
                "tsf" => WindowsInsertionMode::Tsf,
                "sendInput" => WindowsInsertionMode::SendInput,
                "paste" => WindowsInsertionMode::Paste,
                _ => return None,
            }
        }
        "windowsSendInputInsertionOnly" | "windowsSendinputInsertionOnly" => {
            wire.windows_sendinput_insertion_only = value.as_bool()?
        }
        "windowsSendInputNewlineMode" | "windowsSendinputNewlineMode" => {
            wire.windows_sendinput_newline_mode = match value.as_str()? {
                "enter" => WindowsSendInputNewlineMode::Enter,
                "shiftEnter" => WindowsSendInputNewlineMode::ShiftEnter,
                "crLf" => WindowsSendInputNewlineMode::CrLf,
                _ => return None,
            }
        }
        "windowsShowOpenlessInKeyboardList" => {
            wire.windows_show_openless_in_keyboard_list = value.as_bool()?
        }
        "selectionVoiceEnabled" => wire.selection_voice_enabled = value.as_bool()?,
        "audioCueOnRecord" => wire.audio_cue_on_record = value.as_bool()?,
        "streamingInsert" => wire.streaming_insert = value.as_bool()?,
        "streamingInsertDefaultMigrated" => {
            wire.streaming_insert_default_migrated = value.as_bool()?
        }
        "streamingInsertSaveClipboard" => {
            wire.streaming_insert_save_clipboard = value.as_bool()?
        }
        "updateChannel" => {
            wire.update_channel = match value.as_str()? {
                "stable" => UpdateChannel::Stable,
                "beta" => UpdateChannel::Beta,
                _ => return None,
            }
        }
        "updateChannelExplicit" => wire.update_channel_explicit = Some(value.as_bool()?),
        _ => {}
    }
    Some(())
}

/// A record in which nothing is stored.
fn empty_record(target: TargetOs) -> UserPreferencesWire {
    let mut wire = UserPreferencesWire::default_from(defaults(target));
    wire.active_style_pack_id = None;
    wire.streaming_insert_default_migrated = false;
    wire
}

fn stored(fields: &[(String, Value)], target: TargetOs) -> Option<UserPreferencesWire> {
    let canonical = |key: &str| key.replace("Sendinput", "SendInput");
    let mut wire = empty_record(target);
    for (i, (key, value)) in fields.iter().enumerate() {
        if fields[..i].iter().any(|(other, _)| canonical(other) == canonical(key)) {
            return None;
        }
        set(&mut wire, key, value)?;
    }
    Some(wire)
}

fn read_for(json: &str, target: TargetOs) -> Result<UserPreferences, String> {
    let value: Value = serde_json::from_str(json).map_err(|error| error.to_string())?;
    let fields: Vec<(String, Value)> = value
        .as_object()
        .ok_or("no object")?
        .iter()
        .map(|(key, value)| (key.clone(), value.clone()))
        .collect();
    let wire = stored(&fields, target).ok_or("not a record")?;
    let said = answers(&wire);
    UserPreferences::from_wire(wire, said, target)
}

fn read(json: &str) -> UserPreferences {
    read_for(json, TargetOs::Linux).unwrap()
}

fn salvage(json: &[u8]) -> UserPreferences {
    let target = TargetOs::Linux;
    let parse = |json: &str| serde_json::from_str::<Value>(json).unwrap();
    UserPreferences::salvage_from_json_bytes(
        json,
        |key: &str, json: &str| set(&mut empty_record(target), key, &parse(json)).is_some(),
        |_key: &str, json: &str| binding(&parse(json)).is_some(),
        |record: &PreferenceRecord| {
            let fields: Vec<(String, Value)> = record
                .fields()
                .iter()
                .map(|field| (field.key.clone(), parse(&field.json)))
                .collect();
            let wire = stored(&fields, target)?;
            let said = answers(&wire);
            Some((wire, said))
        },
        defaults(target),
        target,
    )
}

#[test]
fn local_asr_model_preferences_migrate_without_cross_provider_overwrite() {
    let old_qwen = read(r#"{"localAsrActiveModel":"qwen3-asr-1.7b"}"#);
    assert_eq!(old_qwen.local_asr_active_model, "qwen3-asr-1.7b");
    assert_eq!(old_qwen.local_whisper_active_model, WHISPER);

    let old_whisper = read(r#"{"localAsrActiveModel":"whisper-small"}"#);
    assert_eq!(old_whisper.local_asr_active_model, QWEN);
    assert_eq!(old_whisper.local_whisper_active_model, "whisper-small");

    let separated = read(
        r#"{
            "localAsrActiveModel":"qwen3-asr-1.7b",
            "localWhisperActiveModel":"whisper-medium"
        }"#,
    );
    assert_eq!(separated.local_asr_active_model, "qwen3-asr-1.7b");
    assert_eq!(separated.local_whisper_active_model, "whisper-medium");
}

#[test]
fn salvage_preserves_valid_fields_when_one_value_is_invalid() {
    let json = r#"{
        "defaultMode": "totally-removed-mode",
        "dictationHotkey": { "primary": "LeftOption", "modifiers": [] },
        "activeAsrProvider": "bailian-qwen3-realtime"
    }"#;
    assert!(read_for(json, TargetOs::Linux).is_err());
    let salvaged = salvage(json.as_bytes());
    assert_eq!(salvaged.dictation_hotkey.primary, "LeftOption");
    assert_eq!(salvaged.active_asr_provider, "bailian-qwen3-realtime");
    assert_eq!(salvaged.default_mode, defaults(TargetOs::Linux).default_mode);
}

#[test]
fn salvage_normalizes_duplicate_legacy_aliases_without_resetting_other_fields() {
    let json = r#"{
        "windowsSendInputInsertionOnly": false,
        "windowsSendinputInsertionOnly": true,
        "windowsSendInputNewlineMode": "removed-mode",
        "windowsSendinputNewlineMode": "shiftEnter",
        "activeAsrProvider": "preserved-provider"
    }"#;
    assert!(read_for(json, TargetOs::Linux).is_err());
    let salvaged = salvage(json.as_bytes());
    assert!(!salvaged.windows_sendinput_insertion_only);
    assert_eq!(
        salvaged.windows_sendinput_newline_mode,
        WindowsSendInputNewlineMode::ShiftEnter
    );
    assert_eq!(salvaged.active_asr_provider, "preserved-provider");
}

#[test]
fn salvage_preserves_valid_fields_when_legacy_custom_hotkey_is_incomplete() {
    let json = r#"{
        "hotkey": { "trigger": "custom", "mode": "toggle", "keys": null },
        "activeAsrProvider": "preserved-provider"
    }"#;
    assert!(read_for(json, TargetOs::Linux).is_err());
    let salvaged = salvage(json.as_bytes());
    assert_eq!(salvaged.active_asr_provider, "preserved-provider");
    assert_eq!(salvaged.hotkey, defaults(TargetOs::Linux).hotkey);
}

#[test]
fn salvage_of_no_object_gives_the_defaults() {
    for json in ["", "[]", "7", "{", "null"] {
        let salvaged = salvage(json.as_bytes());
        assert_eq!(salvaged.active_asr_provider, "volcengine");
        assert_eq!(salvaged.hotkey, defaults(TargetOs::Linux).hotkey);
    }
}

#[test]
fn salvage_of_a_readable_file_gives_its_reading() {
    for json in [
        "{}",
        r#"{"activeAsrProvider":"kept","streamingInsert":false}"#,
        r#"{"windowsSendinputNewlineMode":"shiftEnter","windowsSendinputInsertionOnly":true}"#,
        r#"{"dictationHotkey":{"primary":"LeftOption","modifiers":[]},"unknown":[1]}"#,
    ] {
        assert_eq!(format!("{:?}", salvage(json.as_bytes())), format!("{:?}", read(json)));
    }
}

#[test]
fn salvage_takes_a_field_that_does_not_fit_as_absent() {
    for (with, without) in [
        (
            r#"{"activeAsrProvider":"kept","defaultMode":7}"#,
            r#"{"activeAsrProvider":"kept"}"#,
        ),
        (
            r#"{"windowsSendInputNewlineMode":7,"windowsSendinputNewlineMode":"shiftEnter"}"#,
            r#"{"windowsSendinputNewlineMode":"shiftEnter"}"#,
        ),
        (
            r#"{"windowsSendInputNewlineMode":"shiftEnter","windowsSendinputNewlineMode":7}"#,
            r#"{"windowsSendInputNewlineMode":"shiftEnter"}"#,
        ),
        (r#"{"windowsSendinputNewlineMode":7}"#, "{}"),
    ] {
        assert_eq!(
            format!("{:?}", salvage(with.as_bytes())),
            format!("{:?}", salvage(without.as_bytes()))
        );
    }
}

#[test]
fn salvage_keeps_a_custom_trigger_that_has_its_keys() {
    let salvaged = salvage(
        br#"{
            "hotkey": { "trigger": "custom", "mode": "toggle", "keys": null },
            "customComboHotkey": { "primary": "D", "modifiers": ["cmd"] },
            "defaultMode": 7
        }"#,
    );
    assert_eq!(salvaged.hotkey.trigger, HotkeyTrigger::Custom);
    assert_eq!(salvaged.dictation_hotkey.primary, "D");
}

#[test]
fn a_lone_outdated_name_is_read_under_its_present_name() {
    let mut record = PreferenceRecord::from_json(
        br#"{"windowsSendinputInsertionOnly": true, "windowsSendinputNewlineMode": "crLf"}"#,
    )
    .unwrap();
    record.normalize_preference_aliases(&|_key: &str, _json: &str| true);
    assert_eq!(record.get("windowsSendInputInsertionOnly"), Some("true"));
    assert_eq!(record.get("windowsSendInputNewlineMode"), Some("\"crLf\""));
    assert_eq!(record.fields().len(), 2);
}

#[test]
fn a_record_holds_each_member_once() {
    let record = PreferenceRecord::from_json(br#"{"a": 1, "b": {"c": [true, null]}, "a": 2}"#)
        .unwrap();
    assert_eq!(record.fields().len(), 2);
    assert_eq!(record.get("a"), Some("2"));
    assert_eq!(record.get("b"), Some(r#"{"c":[true,null]}"#));
    assert_eq!(record.get("c"), None);
    assert!(PreferenceRecord::from_json(b"[1]").is_none());
    assert!(PreferenceRecord::from_json(b"{").is_none());
    let kept = record.retain_fitting(&|key: &str, json: &str| key == "b" && json.len() > 2);
    assert_eq!(kept.fields().len(), 1);
    assert_eq!(kept.get("a"), None);
}

#[test]
fn a_record_can_be_written_field_by_field() {
    let mut record = PreferenceRecord::new();
    assert_eq!(record.get("a"), None);
    record.insert("a", "1".to_string());
    record.insert("b", "2".to_string());
    record.insert("a", "3".to_string());
    assert_eq!(record.get("a"), Some("3"));
    assert_eq!(record.remove("b"), Some("2".to_string()));
    assert_eq!(record.remove("b"), None);
    assert_eq!(record.fields().len(), 1);
}

#[test]
fn the_older_trigger_is_found_in_its_field() {
    let trigger = |json: &[u8]| PreferenceRecord::from_json(json).unwrap().legacy_trigger();
    assert_eq!(
        trigger(br#"{"hotkey": {"trigger": "custom"}}"#),
        Some("custom".to_string())
    );
    assert_eq!(trigger(br#"{"hotkey": {"trigger": 3}}"#), None);
    assert_eq!(trigger(br#"{"hotkey": "custom"}"#), None);
    assert_eq!(trigger(br#"{"other": {"trigger": "custom"}}"#), None);
    let with_trigger = || PreferenceRecord::from_json(br#"{"hotkey": {}, "a": 1}"#).unwrap();
    let rest =
        with_trigger().without_incomplete_legacy_hotkey(Some("custom"), false, false).unwrap();
    assert_eq!(rest.get("hotkey"), None);
    assert_eq!(rest.get("a"), Some("1"));
    for (trigger, dictation, combo) in
        [(None, false, false), (Some("fn"), false, false), (Some("custom"), true, false)]
    {
        assert!(with_trigger()
            .without_incomplete_legacy_hotkey(trigger, dictation, combo)
            .is_none());
    }
}

#[test]
fn non_tsf_insertion_fallback_defaults_to_enabled() {
    assert!(defaults(TargetOs::Windows).allow_non_tsf_insertion_fallback);
}

#[test]
fn missing_non_tsf_insertion_fallback_pref_defaults_to_enabled() {
    assert!(read("{}").allow_non_tsf_insertion_fallback);
}

#[test]
fn windows_sendinput_insertion_only_defaults_to_disabled() {
    let prefs = defaults(TargetOs::Windows);
    assert!(!prefs.windows_sendinput_insertion_only);
    assert_eq!(prefs.windows_insertion_mode, WindowsInsertionMode::Tsf);

    let prefs = read("{}");
    assert!(!prefs.windows_sendinput_insertion_only);
    assert_eq!(prefs.windows_insertion_mode, WindowsInsertionMode::Tsf);
}

#[test]
fn missing_selection_polish_hotkey_preserves_legacy_right_control_dictation() {
    let prefs = read_for(
        r#"{"dictationHotkey":{"primary":"RightControl","modifiers":[]}}"#,
        TargetOs::Windows,
    )
    .unwrap();
    assert!(prefs.selection_polish_hotkey.is_none());
    assert_eq!(prefs.dictation_hotkey.primary, "RightControl");
}

#[test]
fn legacy_right_alt_dictation_upgrade_disables_selection_polish_instead_of_colliding() {
    let prefs = read_for(
        r#"{
            "hotkey": { "trigger": "rightAlt", "mode": "hold", "keys": null },
            "dictationHotkey": { "primary": "RightAlt", "modifiers": [] }
        }"#,
        TargetOs::Windows,
    )
    .unwrap();
    assert!(prefs.selection_polish_hotkey.is_none());
    assert_eq!(prefs.dictation_hotkey.primary, "RightAlt");
}

#[test]
fn legacy_right_alt_trigger_upgrade_disables_selection_polish_by_overlap() {
    let prefs = read_for(
        r#"{
            "hotkey": { "trigger": "rightAlt", "mode": "hold", "keys": null }
        }"#,
        TargetOs::Windows,
    )
    .unwrap();
    assert!(prefs.selection_polish_hotkey.is_none());
    assert_eq!(prefs.dictation_hotkey.primary, "RightOption");
}

#[test]
fn new_preferences_keep_the_existing_dictation_default_and_use_right_alt_for_selection_polish() {
    let prefs = defaults(TargetOs::Windows);
    assert_eq!(prefs.dictation_hotkey.primary, "RightControl");
    assert_eq!(
        prefs.selection_polish_hotkey,
        Some(ShortcutBinding { primary: "RightAlt".into(), modifiers: Vec::new() })
    );
}

#[test]
fn explicit_selection_polish_setting_does_not_rewrite_dictation_binding() {
    let prefs = read_for(
        r#"{"dictationHotkey":{"primary":"RightControl","modifiers":[]},"selectionPolishHotkey":null}"#,
        TargetOs::Windows,
    )
    .unwrap();
    assert!(prefs.selection_polish_hotkey.is_none());
    assert_eq!(prefs.dictation_hotkey.primary, "RightControl");
}

#[test]
fn selection_polish_is_introduced_on_windows_alone() {
    let json = r#"{"dictationHotkey":{"primary":"F9","modifiers":[]}}"#;
    let prefs = read_for(json, TargetOs::Windows).unwrap();
    assert_eq!(prefs.selection_polish_hotkey, Some(lone("RightAlt")));
    for target in [TargetOs::Linux, TargetOs::Macos, TargetOs::Android] {
        assert_eq!(read_for(json, target).unwrap().selection_polish_hotkey, None);
    }
    assert!(is_right_control_modifier_shortcut(&lone("rightcontrol")));
    assert!(!is_right_control_modifier_shortcut(&lone("LeftControl")));
}

#[test]
fn windows_sendinput_insertion_only_deserializes_frontend_wire_key() {
    let prefs = read(r#"{"windowsSendInputInsertionOnly": true}"#);
    assert!(prefs.windows_sendinput_insertion_only);
    assert_eq!(prefs.windows_insertion_mode, WindowsInsertionMode::SendInput);
}

#[test]
fn windows_sendinput_insertion_only_deserializes_legacy_wrong_camel_key() {
    let prefs = read(r#"{"windowsSendinputInsertionOnly": true}"#);
    assert!(prefs.windows_sendinput_insertion_only);
    assert_eq!(prefs.windows_insertion_mode, WindowsInsertionMode::SendInput);
}

#[test]
fn windows_insertion_mode_deserializes_explicit_paste() {
    let prefs = read(r#"{"windowsInsertionMode":"paste"}"#);
    assert_eq!(prefs.windows_insertion_mode, WindowsInsertionMode::Paste);
    assert!(!prefs.windows_sendinput_insertion_only);
}

#[test]
fn the_older_insertion_flag_gives_way_to_a_chosen_mode() {
    let resolve = |mode, flag| resolve_windows_insertion_mode(mode, flag);
    assert_eq!(resolve(WindowsInsertionMode::Tsf, true), WindowsInsertionMode::SendInput);
    assert_eq!(resolve(WindowsInsertionMode::Tsf, false), WindowsInsertionMode::Tsf);
    assert_eq!(resolve(WindowsInsertionMode::Paste, true), WindowsInsertionMode::Paste);
    let flag = |mode, flag| resolve_windows_sendinput_insertion_only_legacy(mode, flag);
    assert!(flag(WindowsInsertionMode::SendInput, false));
    assert!(flag(WindowsInsertionMode::Tsf, true));
    assert!(!flag(WindowsInsertionMode::Paste, true));
}

#[test]
fn windows_sendinput_newline_mode_defaults_to_enter() {
    assert_eq!(read("{}").windows_sendinput_newline_mode, WindowsSendInputNewlineMode::Enter);
}

#[test]
fn windows_sendinput_newline_mode_deserializes_shift_enter() {
    let prefs = read(r#"{"windowsSendInputNewlineMode":"shiftEnter"}"#);
    assert_eq!(
        prefs.windows_sendinput_newline_mode,
        WindowsSendInputNewlineMode::ShiftEnter
    );
}

#[test]
fn windows_show_openless_in_keyboard_list_defaults_to_enabled() {
    assert!(defaults(TargetOs::Windows).windows_show_openless_in_keyboard_list);
    assert!(read("{}").windows_show_openless_in_keyboard_list);
}

#[test]
fn windows_show_openless_in_keyboard_list_deserializes_frontend_wire_key() {
    let prefs = read(r#"{"windowsShowOpenlessInKeyboardList": false}"#);
    assert!(!prefs.windows_show_openless_in_keyboard_list);
}

#[test]
fn missing_audio_cue_on_record_pref_defaults_to_enabled() {
    assert!(read("{}").audio_cue_on_record);
}

#[test]
fn a_cue_that_was_turned_off_stays_off() {
    assert!(!read(r#"{"audioCueOnRecord": false}"#).audio_cue_on_record);
    assert_eq!(read("{}").capsule_style, CapsuleStyle::Siri);
    assert_eq!(read("{}").macos_newline_mode, MacosNewlineMode::Auto);
    assert!(read(r#"{"selectionVoiceEnabled": true, "selectionVoiceHotkey": 3}"#)
        .selection_voice_enabled);
}

#[test]
fn action_hotkeys_default_to_enabled() {
    let prefs = defaults(TargetOs::Linux);
    assert!(prefs.switch_style_hotkey.is_some());
    assert!(prefs.open_app_hotkey.is_some());
}

#[test]
fn missing_action_hotkeys_default_to_enabled() {
    let prefs = read("{}");
    assert!(prefs.switch_style_hotkey.is_some());
    assert!(prefs.open_app_hotkey.is_some());
}

#[test]
fn action_hotkeys_that_were_turned_off_stay_off() {
    let restored = read(r#"{"switchStyleHotkey":null,"openAppHotkey":null}"#);
    assert!(restored.switch_style_hotkey.is_none());
    assert!(restored.open_app_hotkey.is_none());
}

#[test]
fn style_pack_hotkeys_are_handed_on() {
    assert!(read("{}").style_pack_hotkeys.is_empty());
    let configured =
        vec![StylePackHotkey { pack_id: "imported.demo".to_string(), binding: lone("1") }];
    let mut wire = empty_record(TargetOs::Linux);
    wire.style_pack_hotkeys = configured.clone();
    let said = answers(&wire);
    let prefs = UserPreferences::from_wire(wire, said, TargetOs::Linux).unwrap();
    assert_eq!(prefs.style_pack_hotkeys, configured);
}

#[test]
fn explicit_action_hotkey_binding_round_trips() {
    let prefs = read(r#"{"switchStyleHotkey":{"primary":"S","modifiers":["cmd","shift"]}}"#);
    let binding = prefs.switch_style_hotkey.expect("should stay bound");
    assert_eq!(binding.primary, "S");
    assert_eq!(binding.modifiers, vec!["cmd".to_string(), "shift".to_string()]);
}

#[test]
fn custom_prompts_are_empty_until_they_are_written() {
    assert_eq!(read("{}").custom_style_prompts, CustomStylePrompts::default());
    let prefs = read(
        r#"{
            "customStylePrompts": {
                "raw": "保留我的口头禅",
                "light": "更像微信消息",
                "structured": "按项目符号整理",
                "formal": "像正式周报"
            }
        }"#,
    );
    assert_eq!(prefs.custom_style_prompts.raw, "保留我的口头禅");
    assert_eq!(prefs.custom_style_prompts.light, "更像微信消息");
    assert_eq!(prefs.custom_style_prompts.structured, "按项目符号整理");
    assert_eq!(prefs.custom_style_prompts.formal, "像正式周报");
}

#[test]
fn missing_active_style_pack_id_uses_legacy_default_mode() {
    let prefs = read(
        r#"{
            "defaultMode": "structured"
        }"#,
    );
    assert_eq!(prefs.default_mode, PolishMode::Structured);
    assert_eq!(prefs.active_style_pack_id, "builtin.structured");
}

#[test]
fn explicit_active_style_pack_id_is_preserved() {
    let prefs = read(
        r#"{
            "defaultMode": "formal",
            "activeStylePackId": "custom.meeting"
        }"#,
    );
    assert_eq!(prefs.default_mode, PolishMode::Formal);
    assert_eq!(prefs.active_style_pack_id, "custom.meeting");
    assert_eq!(read(r#"{"activeStylePackId": " "}"#).active_style_pack_id, "builtin.light");
}

#[test]
fn paste_shortcut_defaults_to_ctrl_v() {
    assert_eq!(defaults(TargetOs::Linux).paste_shortcut, PasteShortcut::CtrlV);
    assert_eq!(read("{}").paste_shortcut, PasteShortcut::CtrlV);
}

#[test]
fn streaming_insert_defaults_to_enabled_for_missing_or_legacy_unmigrated_pref() {
    let prefs = defaults(TargetOs::Linux);
    assert!(prefs.streaming_insert);
    assert!(prefs.streaming_insert_default_migrated);
    assert!(prefs.streaming_insert_save_clipboard);

    let from_empty = read("{}");
    assert!(from_empty.streaming_insert);
    assert!(from_empty.streaming_insert_default_migrated);
    assert!(from_empty.streaming_insert_save_clipboard);

    let from_legacy_false = read(
        r#"{
            "streamingInsert": false,
            "streamingInsertSaveClipboard": true
        }"#,
    );
    assert!(from_legacy_false.streaming_insert);
    assert!(from_legacy_false.streaming_insert_default_migrated);
}

#[test]
fn streaming_insert_preserves_explicit_disabled_value() {
    let prefs = read(
        r#"{
            "streamingInsert": false,
            "streamingInsertDefaultMigrated": true,
            "streamingInsertSaveClipboard": false
        }"#,
    );
    assert!(!prefs.streaming_insert);
    assert!(prefs.streaming_insert_default_migrated);
    assert!(!prefs.streaming_insert_save_clipboard);
}

#[test]
fn update_channel_migration_preserves_only_explicit_legacy_beta_opt_in() {
    let legacy_stable = read(r#"{ "updateChannel": "stable" }"#);
    assert_eq!(legacy_stable.update_channel, UpdateChannel::Stable);
    assert!(!legacy_stable.update_channel_explicit);

    let legacy_beta = read(r#"{ "updateChannel": "beta" }"#);
    assert_eq!(legacy_beta.update_channel, UpdateChannel::Beta);
    assert!(legacy_beta.update_channel_explicit);

    let explicit_stable = read(
        r#"{
            "updateChannel": "stable",
            "updateChannelExplicit": true
        }"#,
    );
    assert!(explicit_stable.update_channel_explicit);

    let mut wire = UserPreferencesWire::default_from(explicit_stable.clone());
    wire.update_channel = explicit_stable.update_channel;
    wire.update_channel_explicit = Some(explicit_stable.update_channel_explicit);
    let said = answers(&wire);
    let round_trip = UserPreferences::from_wire(wire, said, TargetOs::Linux).unwrap();
    assert!(round_trip.update_channel_explicit);
}

#[test]
fn paste_shortcut_round_trips_explicit_values() {
    for (raw, expected) in [
        ("ctrlV", PasteShortcut::CtrlV),
        ("ctrlShiftV", PasteShortcut::CtrlShiftV),
        ("shiftInsert", PasteShortcut::ShiftInsert),
    ] {
        let json = format!(r#"{{ "pasteShortcut": "{raw}" }}"#);
        assert_eq!(read(&json).paste_shortcut, expected, "raw={raw}");
    }
}

#[test]
fn legacy_custom_hotkey_without_custom_binding_is_rejected() {
    let result = read_for(
        r#"{
            "hotkey": { "trigger": "custom", "mode": "toggle" }
        }"#,
        TargetOs::Linux,
    );
    assert_eq!(
        result.unwrap_err(),
        "hotkey.trigger is custom but dictationHotkey/customComboHotkey is missing"
    );
}

#[test]
fn legacy_custom_hotkey_uses_custom_combo_binding() {
    let prefs = read(
        r#"{
            "hotkey": { "trigger": "custom", "mode": "toggle" },
            "customComboHotkey": { "primary": "D", "modifiers": ["cmd", "shift"] }
        }"#,
    );
    assert_eq!(prefs.dictation_hotkey.primary, "D");
    assert_eq!(prefs.dictation_hotkey.modifiers, vec!["cmd", "shift"]);
}

#[test]
fn custom_hotkey_with_dictation_hotkey_preserves_dictation_binding() {
    let prefs = read(
        r#"{
            "hotkey": { "trigger": "custom", "mode": "toggle" },
            "dictationHotkey": { "primary": "Space", "modifiers": ["ctrl"] }
        }"#,
    );
    assert_eq!(prefs.dictation_hotkey.primary, "Space");
    assert_eq!(prefs.dictation_hotkey.modifiers, vec!["ctrl"]);
}

#[test]
fn an_empty_record_reads_as_the_defaults_of_a_new_user() {
    for target in [TargetOs::Linux, TargetOs::Macos] {
        let (prefs, read) = (defaults(target), read_for("{}", target).unwrap());
        assert_eq!(format!("{read:?}"), format!("{prefs:?}"));
    }
    let read = read_for("{}", TargetOs::Windows).unwrap();
    assert_eq!(read.selection_polish_hotkey, None);
}

#[test]
fn a_new_user_has_the_documented_defaults() {
    let prefs = defaults(TargetOs::Windows);
    assert_eq!(prefs.active_asr_provider, "foundry-local-whisper");
    assert_eq!(defaults(TargetOs::Linux).active_asr_provider, "volcengine");
    assert_eq!(prefs.active_llm_provider, "ark");
    assert_eq!(f32::from_bits(prefs.silence_auto_stop_seconds_bits), 3.0);
    assert_eq!(prefs.remote_input_port, 8443);
    assert_eq!(prefs.history_retention_days, 7);
    assert_eq!(prefs.polish_context_window_minutes, 5);
    assert_eq!(prefs.working_languages, vec!["简体中文"]);
    assert_eq!(prefs.local_asr_keep_loaded_secs, 300);
    assert_eq!(prefs.translation_hotkey, lone("Shift"));
    assert_eq!(prefs.coding_agent_provider, "agent");
    assert_eq!(prefs.coding_agent_voice_hotkey, Some(default_coding_agent_voice_hotkey()));
    assert_eq!(prefs.coding_agent_panel_hotkey, Some(default_coding_agent_panel_hotkey()));
    assert!(!prefs.cursor_context_enabled);
    assert_eq!(prefs.hotkey.trigger, HotkeyTrigger::RightControl);
}

#[test]
fn styles_are_taken_over_and_nothing_else() {
    let mut current = defaults(TargetOs::Linux);
    current.default_mode = PolishMode::Formal;
    current.enabled_modes = vec![PolishMode::Formal];
    current.active_style_pack_id = "custom.meeting".to_string();
    current.style_system_prompts.raw = "mine".to_string();
    current.custom_style_prompts.light = "shorter".to_string();
    current.launch_at_login = true;
    let mut prefs = defaults(TargetOs::Linux);
    prefs.preserve_style_preferences_from(&current);
    assert_eq!(prefs.default_mode, PolishMode::Formal);
    assert_eq!(prefs.enabled_modes, vec![PolishMode::Formal]);
    assert_eq!(prefs.active_style_pack_id, "custom.meeting");
    assert_eq!(prefs.style_system_prompts, current.style_system_prompts);
    assert_eq!(prefs.custom_style_prompts, current.custom_style_prompts);
    assert!(!prefs.launch_at_login);
}

#[test]
fn a_model_of_the_other_family_is_no_choice() {
    let other = LocalAsrModel { id: "other".to_string(), family: LocalAsrFamily::Other };
    assert_eq!(
        migrate_local_asr_models(&Some(other), None, WHISPER),
        (QWEN.to_string(), WHISPER.to_string())
    );
    assert_eq!(
        migrate_local_asr_models(&model("whisper-small"), Some(&None), WHISPER),
        (QWEN.to_string(), WHISPER.to_string())
    );
    assert_eq!(
        migrate_local_asr_models(&model("qwen3-asr-1.7b"), Some(&model("whisper-medium")), WHISPER),
        ("qwen3-asr-1.7b".to_string(), "whisper-medium".to_string())
    );
}
