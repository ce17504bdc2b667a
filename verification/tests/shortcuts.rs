use openless::hotkeys::{
    display_hotkey_code, display_primary, legacy_trigger_code, modifier_display, ComboBinding,
    HotkeyAdapterKind, HotkeyBinding, HotkeyInstallError, HotkeyKey, HotkeyMode, HotkeyStatus,
    HotkeyStatusState, HotkeyTrigger, QaHotkeyBinding, ShortcutBinding, StylePackHotkey,
};
use openless::platform::{HotkeyCapability, PlatformCapabilities, TargetOs};
use openless::routing::{
    escape_cancels, handle_window_hotkey_event, is_builtin_translation_shift,
    is_modifier_only_shortcut,
    is_unconfigured_shortcut, less_computer_modifier_binding, route_hotkey_event,
    selection_workspace_pressed, selection_workspace_released, validate_less_computer_hotkey,
    window_hotkey_fallback_enabled, window_key_matches_trigger, HotkeyEvent, HotkeyRoute,
    PressTracker, SelectionWorkspaceAction, WindowHotkeyRoute, WindowKeyEvent,
};
use openless::style_pack_hotkeys::{
    configured_style_pack_hotkeys, replace_style_pack_hotkey_registrations,
    style_pack_hotkey_registrations_match, RegistrationTable, StylePackHotkeyRegistration,
};

fn binding(primary: &str, modifiers: &[&str]) -> ShortcutBinding {
    ShortcutBinding {
        primary: primary.to_string(),
        modifiers: modifiers.iter().map(|m| m.to_string()).collect(),
    }
}

fn lone_trigger(primary: &str) -> Option<HotkeyTrigger> {
    match primary {
        "LeftControl" => Some(HotkeyTrigger::LeftControl),
        "RightControl" => Some(HotkeyTrigger::RightControl),
        "LeftOption" => Some(HotkeyTrigger::LeftOption),
        "RightOption" => Some(HotkeyTrigger::RightOption),
        "LeftShift" => Some(HotkeyTrigger::LeftShift),
        "RightShift" => Some(HotkeyTrigger::RightShift),
        "LeftCommand" => Some(HotkeyTrigger::LeftCommand),
        "RightCommand" => Some(HotkeyTrigger::RightCommand),
        "MediaPlayPause" => Some(HotkeyTrigger::MediaPlayPause),
        "Fn" => Some(HotkeyTrigger::Fn),
        _ => None,
    }
}

#[test]
fn agent_shortcuts_validate_real_windows_capabilities() {
    for primary in [
        "LeftControl",
        "RightControl",
        "LeftOption",
        "RightOption",
        "LeftShift",
        "RightShift",
        "LeftCommand",
        "RightCommand",
        "MediaPlayPause",
    ] {
        let trigger = lone_trigger(primary);
        assert!(trigger.is_some());
        validate_less_computer_hotkey(Ok(()), Ok(()), trigger, TargetOs::Windows).unwrap();
        let native = less_computer_modifier_binding(trigger).unwrap();
        assert_eq!(native.mode, HotkeyMode::Hold);
    }
    let combo = binding("J", &["ctrl", "shift"]);
    let trigger = lone_trigger(&combo.primary);
    validate_less_computer_hotkey(Ok(()), Ok(()), trigger, TargetOs::Windows).unwrap();
    assert!(less_computer_modifier_binding(trigger).is_none());
    assert!(
        validate_less_computer_hotkey(Ok(()), Ok(()), lone_trigger("Fn"), TargetOs::Windows)
            .unwrap_err()
            .contains("Windows 不支持 Fn")
    );
    let one_sided = Err("ctrl-left".to_string());
    assert!(validate_less_computer_hotkey(one_sided, Ok(()), None, TargetOs::Windows).is_err());
}

#[test]
fn the_first_objection_to_an_agent_shortcut_is_the_one_given() {
    assert_eq!(
        validate_less_computer_hotkey(
            Err("sides".to_string()),
            Err("form".to_string()),
            Some(HotkeyTrigger::Fn),
            TargetOs::Windows
        ),
        Err("sides".to_string())
    );
    assert_eq!(
        validate_less_computer_hotkey(
            Ok(()),
            Err("form".to_string()),
            Some(HotkeyTrigger::Fn),
            TargetOs::Windows
        ),
        Err("form".to_string())
    );
    assert_eq!(
        validate_less_computer_hotkey(Ok(()), Ok(()), Some(HotkeyTrigger::Fn), TargetOs::Macos),
        Ok(())
    );
}

fn style_hotkey(pack_id: &str, primary: &str) -> StylePackHotkey {
    StylePackHotkey { pack_id: pack_id.to_string(), binding: binding(primary, &["alt"]) }
}

#[test]
fn style_pack_hotkey_registration_failure_leaves_no_partial_table() {
    let entries = [style_hotkey("builtin.raw", "1"), style_hotkey("imported.x", "2")];
    let mut registrations: RegistrationTable<u8> = RegistrationTable::new();
    registrations.insert("old", 9);

    let result = replace_style_pack_hotkey_registrations(&entries, &mut registrations, |entry| {
        if entry.pack_id == "imported.x" {
            Err("register imported.x failed".to_string())
        } else {
            Ok(1)
        }
    });

    assert_eq!(result.unwrap_err(), "register imported.x failed");
    assert_eq!(registrations.len(), 0);
}

#[test]
fn style_pack_hotkey_registration_success_replaces_entire_table() {
    let entries = [style_hotkey("builtin.raw", "1"), style_hotkey("imported.x", "2")];
    let mut registrations: RegistrationTable<u8> = RegistrationTable::new();
    registrations.insert("old", 9);

    replace_style_pack_hotkey_registrations(&entries, &mut registrations, |entry| {
        Ok(if entry.pack_id == "builtin.raw" { 1 } else { 2 })
    })
    .unwrap();

    assert_eq!(registrations.len(), 2);
    assert_eq!(registrations.get("builtin.raw"), Some(&1));
    assert_eq!(registrations.get("imported.x"), Some(&2));
    assert!(registrations.get("old").is_none());
}

#[test]
fn the_first_failing_registration_ends_the_replacement() {
    let entries = [style_hotkey("a", "1"), style_hotkey("b", "2"), style_hotkey("c", "3")];
    let mut registrations: RegistrationTable<u8> = RegistrationTable::new();
    let asked = std::cell::RefCell::new(Vec::new());
    let result = replace_style_pack_hotkey_registrations(&entries, &mut registrations, |entry| {
        asked.borrow_mut().push(entry.pack_id.clone());
        if entry.pack_id == "a" {
            Ok(1)
        } else {
            Err(entry.pack_id.clone())
        }
    });
    assert_eq!(result, Err("b".to_string()));
    assert_eq!(*asked.borrow(), vec!["a", "b"]);
    assert_eq!(registrations.len(), 0);
}

#[test]
fn two_entries_of_one_pack_never_match() {
    let entries = [style_hotkey("a", "1"), style_hotkey("a", "1")];
    assert!(!style_pack_hotkey_registrations_match(&entries, &table(&entries)));
    assert_eq!(table(&entries).len(), 1);
}

fn table(entries: &[StylePackHotkey]) -> RegistrationTable<StylePackHotkeyRegistration<()>> {
    let mut table = RegistrationTable::new();
    for entry in entries {
        table.insert(
            &entry.pack_id,
            StylePackHotkeyRegistration { binding: entry.binding.clone(), monitor: () },
        );
    }
    table
}

#[test]
fn style_pack_hotkey_registration_state_matches_exact_bindings() {
    let desired = [style_hotkey("builtin.raw", "1"), style_hotkey("imported.x", "2")];
    let registrations = table(&desired);
    assert!(style_pack_hotkey_registrations_match(&desired, &registrations));
}

#[test]
fn style_pack_hotkey_registration_state_detects_changed_or_missing_bindings() {
    let desired = [style_hotkey("builtin.raw", "1"), style_hotkey("imported.x", "2")];
    let changed = table(&[style_hotkey("builtin.raw", "9"), style_hotkey("imported.x", "2")]);
    let partial = table(&[style_hotkey("builtin.raw", "1")]);

    assert!(!style_pack_hotkey_registrations_match(&desired, &changed));
    assert!(!style_pack_hotkey_registrations_match(&desired, &partial));
    assert!(style_pack_hotkey_registrations_match(&[], &table(&[])));
    assert!(!style_pack_hotkey_registrations_match(
        &[style_hotkey("builtin.raw", "1")],
        &table(&[])
    ));
}

#[test]
fn only_real_keys_are_registered_for_style_packs() {
    let entries = vec![
        style_hotkey("a", "1"),
        StylePackHotkey { pack_id: "b".to_string(), binding: binding("  ", &["alt"]) },
        StylePackHotkey { pack_id: "c".to_string(), binding: binding("Shift", &[]) },
        StylePackHotkey { pack_id: "d".to_string(), binding: binding("RightAlt", &[]) },
        style_hotkey("e", "2"),
    ];
    let triggers = vec![None, None, None, Some(HotkeyTrigger::RightAlt), None];
    let kept = configured_style_pack_hotkeys(&entries, &triggers);
    let ids: Vec<&str> = kept.iter().map(|e| e.pack_id.as_str()).collect();
    assert_eq!(ids, vec!["a", "e"]);
    assert_eq!(kept[1].binding, entries[4].binding);
}

#[test]
fn a_pack_is_registered_once() {
    let mut registrations: RegistrationTable<u8> = RegistrationTable::new();
    registrations.insert("a", 1);
    registrations.insert("b", 2);
    registrations.insert("a", 3);
    assert_eq!(registrations.len(), 2);
    assert_eq!(registrations.get("a"), Some(&3));
    registrations.clear();
    assert_eq!(registrations.len(), 0);
}

#[test]
fn legacy_hotkey_trigger_still_produces_effective_key_codes() {
    let binding = HotkeyBinding {
        trigger: HotkeyTrigger::RightControl,
        mode: HotkeyMode::Toggle,
        keys: None,
    };
    for target in [TargetOs::Macos, TargetOs::Windows, TargetOs::Linux] {
        assert_eq!(binding.effective_codes(target), vec!["ControlRight".to_string()]);
        assert_eq!(binding.display_label(target), "右 Control");
    }
}

#[test]
fn legacy_fn_trigger_uses_windows_control_right_alias() {
    let binding =
        HotkeyBinding { trigger: HotkeyTrigger::Fn, mode: HotkeyMode::Toggle, keys: None };
    assert_eq!(binding.effective_codes(TargetOs::Windows), vec!["ControlRight".to_string()]);
    assert_eq!(legacy_trigger_code(HotkeyTrigger::Fn, TargetOs::Windows), "ControlRight");
}

#[test]
fn hotkey_binding_supports_combo_side_keys_mouse_and_double_click_mode() {
    let binding = HotkeyBinding {
        trigger: HotkeyTrigger::RightControl,
        mode: HotkeyMode::DoubleClick,
        keys: Some(vec![
            HotkeyKey::new("ControlLeft"),
            HotkeyKey::new("AltLeft"),
            HotkeyKey::new("Mouse4"),
        ]),
    };
    assert_eq!(
        binding.effective_codes(TargetOs::Windows),
        vec!["ControlLeft".to_string(), "AltLeft".to_string(), "Mouse4".to_string()]
    );
    assert_eq!(binding.display_label(TargetOs::Windows), "左Ctrl+左Alt+Mouse4");
}

#[test]
fn explicit_empty_hotkey_keys_clear_the_binding() {
    let binding = HotkeyBinding {
        trigger: HotkeyTrigger::RightControl,
        mode: HotkeyMode::Toggle,
        keys: Some(vec![]),
    };
    assert!(binding.effective_codes(TargetOs::Windows).is_empty());
}

#[test]
fn labels_use_the_words_of_the_platform() {
    let qa = ShortcutBinding::default_qa(TargetOs::Macos);
    assert_eq!(qa.primary, ";");
    assert_eq!(qa.modifiers, vec!["cmd".to_string(), "shift".to_string()]);
    assert_eq!(QaHotkeyBinding::default_for(TargetOs::Windows).primary, ";");
    let combo = ComboBinding { primary: "d".to_string(), modifiers: vec!["ctrl".to_string()] };
    assert_eq!(
        combo.display_label(TargetOs::Windows),
        format!("{}+{}", modifier_display("ctrl", TargetOs::Windows), display_primary("d"))
    );
    assert_eq!(display_primary("d"), "D");
    assert_eq!(display_hotkey_code("KeyA"), "A");
    let copy = qa.copy();
    assert!(copy.same_as(&qa));
    assert!(!copy.same_as(&ShortcutBinding::lone("A")));
}

#[test]
fn a_failed_listener_says_what_is_wrong() {
    let error = HotkeyInstallError { code: "denied".to_string(), message: "no access".to_string() };
    assert_eq!(error.description(), "no access (denied)");
    let status = HotkeyStatus::default_for(TargetOs::Windows);
    assert_eq!(status.state, HotkeyStatusState::Starting);
    assert_eq!(status.last_error, None);
}

#[test]
fn each_platform_knows_its_adapter() {
    for (target, adapter) in [
        (TargetOs::Macos, HotkeyAdapterKind::MacEventTap),
        (TargetOs::Windows, HotkeyAdapterKind::WindowsLowLevel),
    ] {
        assert_eq!(HotkeyCapability::current(target).adapter, adapter);
    }
    assert!(!window_hotkey_fallback_enabled(TargetOs::Windows));
    let windows = PlatformCapabilities::current(TargetOs::Windows, false);
    assert_eq!(PlatformCapabilities::current(TargetOs::Windows, false), windows);
}

#[test]
fn shift_alone_is_the_translation_key() {
    assert!(is_builtin_translation_shift(&binding("SHIFT", &[])));
    assert!(!is_builtin_translation_shift(&binding("Shift", &["ctrl"])));
    assert!(is_modifier_only_shortcut(&binding("shift", &[]), None));
    assert!(is_modifier_only_shortcut(
        &binding("RightAlt", &[]),
        Some(HotkeyTrigger::RightAlt)
    ));
    assert!(!is_modifier_only_shortcut(&binding("D", &[]), None));
    assert!(is_unconfigured_shortcut(&binding(" ", &["ctrl"])));
    assert!(!is_unconfigured_shortcut(&binding("D", &[])));
}

#[test]
fn nothing_is_triggered_while_a_shortcut_is_recorded() {
    let shift = binding("Shift", &[]);
    for event in [
        HotkeyEvent::Pressed { press_id: 1, at: 2 },
        HotkeyEvent::Released { press_id: 1, at: 3 },
        HotkeyEvent::TranslationModifierPressed,
        HotkeyEvent::QaShortcutPressed,
        HotkeyEvent::SelectionPolishShortcutPressed,
        HotkeyEvent::SelectionPolishShortcutReleased,
    ] {
        assert_eq!(route_hotkey_event(true, event, &shift, None), HotkeyRoute::Ignore);
    }
    assert_eq!(
        route_hotkey_event(true, HotkeyEvent::FnRecordingPressed, &shift, None),
        HotkeyRoute::ReportFnKey
    );
    assert_eq!(
        route_hotkey_event(false, HotkeyEvent::FnRecordingPressed, &shift, None),
        HotkeyRoute::Ignore
    );
}

#[test]
fn events_reach_their_handlers() {
    let shift = binding("Shift", &[]);
    let own = binding("T", &["ctrl"]);
    assert_eq!(
        route_hotkey_event(false, HotkeyEvent::Pressed { press_id: 1, at: 2 }, &shift, None),
        HotkeyRoute::DictationPressed { press_id: 1, at: 2 }
    );
    assert_eq!(
        route_hotkey_event(false, HotkeyEvent::Released { press_id: 1, at: 3 }, &shift, None),
        HotkeyRoute::DictationReleased { press_id: 1, at: 3 }
    );
    let translation = HotkeyEvent::TranslationModifierPressed;
    assert_eq!(
        route_hotkey_event(false, translation, &shift, None),
        HotkeyRoute::ArmTranslation
    );
    assert_eq!(route_hotkey_event(false, translation, &own, None), HotkeyRoute::Ignore);
    assert_eq!(
        route_hotkey_event(false, translation, &own, Some(HotkeyTrigger::LeftShift)),
        HotkeyRoute::ArmTranslation
    );
    assert_eq!(
        route_hotkey_event(false, HotkeyEvent::QaShortcutPressed, &shift, None),
        HotkeyRoute::AskAboutSelection
    );
    assert_eq!(
        route_hotkey_event(false, HotkeyEvent::SelectionPolishShortcutPressed, &shift, None),
        HotkeyRoute::SelectionPressed
    );
    assert_eq!(
        route_hotkey_event(false, HotkeyEvent::SelectionPolishShortcutReleased, &shift, None),
        HotkeyRoute::SelectionReleased
    );
}

#[test]
fn the_selection_shortcut_can_take_a_spoken_instruction_on_windows() {
    assert_eq!(
        selection_workspace_pressed(true, TargetOs::Windows),
        SelectionWorkspaceAction::Voice
    );
    assert_eq!(
        selection_workspace_pressed(true, TargetOs::Macos),
        SelectionWorkspaceAction::Polish
    );
    assert_eq!(
        selection_workspace_pressed(false, TargetOs::Windows),
        SelectionWorkspaceAction::Polish
    );
    assert_eq!(
        selection_workspace_released(true, TargetOs::Windows),
        SelectionWorkspaceAction::Voice
    );
    assert_eq!(
        selection_workspace_released(false, TargetOs::Windows),
        SelectionWorkspaceAction::Nothing
    );
    assert_eq!(
        selection_workspace_released(true, TargetOs::Linux),
        SelectionWorkspaceAction::Nothing
    );
}

#[test]
fn a_release_ends_the_press_it_follows() {
    let mut tracker = PressTracker::new();
    tracker.pressed(47);
    assert_eq!(tracker.released(), 47);
    assert_eq!(tracker.released(), 0);
}

fn key_event(event_type: &str, key: &str, code: &str, repeat: bool) -> WindowKeyEvent {
    WindowKeyEvent {
        event_type: event_type.to_string(),
        key: key.to_string(),
        code: code.to_string(),
        repeat,
    }
}

#[test]
fn escape_closes_the_panel_before_it_cancels_dictation() {
    let escape = key_event("keydown", "Escape", "Escape", false);
    let route = |recording, visible, active| {
        handle_window_hotkey_event(
            &escape,
            recording,
            visible,
            active,
            TargetOs::Macos,
            false,
            None,
        )
    };
    assert_eq!(route(true, true, true), WindowHotkeyRoute::Ignore);
    assert_eq!(route(false, true, false), WindowHotkeyRoute::DismissQa);
    assert_eq!(route(false, false, true), WindowHotkeyRoute::DismissQa);
    assert_eq!(route(false, false, false), WindowHotkeyRoute::CancelDictation);
}

#[test]
fn windows_can_stand_in_for_the_listener() {
    let trigger = Some(HotkeyTrigger::RightControl);
    let route = |event: &WindowKeyEvent, target, fallback, trigger| {
        handle_window_hotkey_event(event, false, false, false, target, fallback, trigger)
    };
    let down = key_event("keydown", "Control", "ControlRight", false);
    let again = key_event("keydown", "Control", "ControlRight", true);
    let up = key_event("keyup", "Control", "ControlRight", false);
    let press = key_event("keypress", "Control", "ControlRight", false);
    assert_eq!(route(&down, TargetOs::Windows, true, trigger), WindowHotkeyRoute::Pressed);
    assert_eq!(route(&again, TargetOs::Windows, true, trigger), WindowHotkeyRoute::Ignore);
    assert_eq!(route(&up, TargetOs::Windows, true, trigger), WindowHotkeyRoute::Released);
    assert_eq!(route(&press, TargetOs::Windows, true, trigger), WindowHotkeyRoute::Ignore);
    assert_eq!(route(&down, TargetOs::Windows, false, trigger), WindowHotkeyRoute::Ignore);
    assert_eq!(route(&down, TargetOs::Linux, true, trigger), WindowHotkeyRoute::Ignore);
    assert_eq!(route(&down, TargetOs::Windows, true, None), WindowHotkeyRoute::Ignore);
    let left = key_event("keydown", "Control", "ControlLeft", false);
    assert_eq!(route(&left, TargetOs::Windows, true, trigger), WindowHotkeyRoute::Ignore);
    assert!(window_key_matches_trigger(HotkeyTrigger::RightAlt, "AltGraph", "AltRight"));
    assert!(!window_key_matches_trigger(HotkeyTrigger::Custom, "a", "KeyA"));
}

/// Whether a session is cancelled by these Escapes, each with whether a shortcut is being recorded
/// then.
fn cancelled_by(escapes: &[bool]) -> bool {
    let mut cancelled = false;
    for recording_shortcut in escapes {
        if escape_cancels(*recording_shortcut) {
            cancelled = true;
        }
    }
    cancelled
}

#[test]
fn esc_cancel_bridge_sets_cancelled_during_processing() {
    assert!(cancelled_by(&[false]), "取消信号应置 cancelled 旗标");
}

#[test]
fn esc_cancel_bridge_skips_while_shortcut_recording_active() {
    assert!(!cancelled_by(&[true]), "录制快捷键期间按 Esc 应被忽略");
    assert!(cancelled_by(&[true, false]), "录制结束后取消信号应恢复生效");
}

#[test]
fn esc_cancel_bridge_is_idempotent_on_repeat_signals() {
    assert!(cancelled_by(&[false, false, false]), "首个取消信号应置 cancelled 旗标");
    assert!(cancelled_by(&[false, false, false, false]));
}
