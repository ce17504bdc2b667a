use openless::hotkey_setup::{
    action_hotkey_binding, action_hotkey_bridge_thread_name, action_plan,
    apply_hotkey_runtime_change, combo_plan, hotkey_updates, main_listener_binding,
    modifier_shortcut_triggers, optional_shortcut_plan, registration_still_wanted,
    reset_shortcut_held_state, translation_plan, ActionHotkeyKind, CodingAgentPlan, ComboPlan,
    DisabledNotice, HotkeyRuntimeTarget, HotkeyUpdate, ListenerPlan,
};
use openless::hotkeys::{
    HotkeyAdapterKind, HotkeyInstallError, HotkeyMode, HotkeyStatus, HotkeyStatusState,
    HotkeyTrigger, ShortcutBinding, StylePackHotkey,
};
use openless::platform::TargetOs;
use openless::supervision::{
    after_attempt, attempt_is_logged, coding_agent_pause, combo_turn, ending_turn, main_turn,
    qa_turn, selection_polish_turn, style_pack_turn, AfterAttempt, ComboTurn, ListenerTurn, MainTurn, Pause, Registration,
    SupervisorKind,
};
use std::cell::RefCell;

fn binding(primary: &str, modifiers: &[&str]) -> ShortcutBinding {
    ShortcutBinding {
        primary: primary.to_string(),
        modifiers: modifiers.iter().map(|m| m.to_string()).collect(),
    }
}

fn target() -> HotkeyRuntimeTarget {
    HotkeyRuntimeTarget {
        dictation: binding("RightControl", &[]),
        dictation_mode: HotkeyMode::Toggle,
        qa: Some(binding(";", &["ctrl", "shift"])),
        selection_polish: Some(binding("RightAlt", &[])),
        translation: binding("Shift", &[]),
        switch_style: Some(binding("S", &["ctrl", "shift"])),
        open_app: None,
        style_packs: vec![],
        coding_agent_enabled: true,
        coding_agent_voice: Some(binding("LeftOption", &[])),
    }
}

#[test]
fn unchanged_shortcuts_ask_nothing_of_the_listeners() {
    assert_eq!(hotkey_updates(&target(), &target(), false), vec![]);
}

#[test]
fn a_change_of_everything_goes_through_every_step_in_order() {
    let next = HotkeyRuntimeTarget {
        dictation: binding("D", &["ctrl"]),
        dictation_mode: HotkeyMode::Hold,
        qa: None,
        selection_polish: None,
        translation: binding("T", &["ctrl"]),
        switch_style: None,
        open_app: Some(binding("O", &["ctrl"])),
        style_packs: vec![StylePackHotkey {
            pack_id: "a".to_string(),
            binding: binding("1", &["alt"]),
        }],
        coding_agent_enabled: false,
        coding_agent_voice: None,
    };
    let steps = vec![
        HotkeyUpdate::Translation,
        HotkeyUpdate::SelectionPolish,
        HotkeyUpdate::StylePacks,
        HotkeyUpdate::Dictation,
        HotkeyUpdate::Combination,
        HotkeyUpdate::Qa,
        HotkeyUpdate::SwitchStyle,
        HotkeyUpdate::OpenApp,
        HotkeyUpdate::CancelAgentCapture,
        HotkeyUpdate::CodingAgent,
    ];
    assert_eq!(hotkey_updates(&target(), &next, false), steps);
    assert_eq!(hotkey_updates(&next, &target(), false), steps);
    let mobile = hotkey_updates(&target(), &next, true);
    assert_eq!(mobile.len(), steps.len() - 1);
    assert!(!mobile.contains(&HotkeyUpdate::SelectionPolish));
}

#[test]
fn a_new_mode_alone_updates_the_main_listener() {
    let next = HotkeyRuntimeTarget { dictation_mode: HotkeyMode::Hold, ..target() };
    assert_eq!(hotkey_updates(&target(), &next, false), vec![HotkeyUpdate::Dictation]);
    assert!(!registration_still_wanted(&target(), &next));
    assert!(registration_still_wanted(&target(), &target()));
}

#[test]
fn a_step_that_can_be_taken_back_ends_the_change() {
    let next = HotkeyRuntimeTarget {
        translation: binding("T", &["ctrl"]),
        qa: None,
        coding_agent_enabled: false,
        ..target()
    };
    let done = RefCell::new(Vec::new());
    let result = apply_hotkey_runtime_change(&target(), &next, false, |step| {
        done.borrow_mut().push(step);
        if step == HotkeyUpdate::Qa {
            Err("left to the supervisor".to_string())
        } else {
            Ok(())
        }
    });
    assert_eq!(result, Ok(()));
    assert_eq!(
        *done.borrow(),
        vec![
            HotkeyUpdate::Translation,
            HotkeyUpdate::Qa,
            HotkeyUpdate::CancelAgentCapture,
            HotkeyUpdate::CodingAgent
        ]
    );
    done.borrow_mut().clear();
    let result = apply_hotkey_runtime_change(&target(), &next, false, |step| {
        done.borrow_mut().push(step);
        Err("refused".to_string())
    });
    assert_eq!(result, Err("refused".to_string()));
    assert_eq!(*done.borrow(), vec![HotkeyUpdate::Translation]);
    assert!(HotkeyUpdate::CodingAgent.is_transactional());
    assert!(!HotkeyUpdate::Dictation.is_transactional());
}

#[test]
fn each_shortcut_finds_its_listener() {
    let alt = Some(HotkeyTrigger::RightAlt);
    assert_eq!(combo_plan(&binding("RightAlt", &[]), alt, false), ComboPlan::Close);
    assert_eq!(combo_plan(&binding(" ", &["ctrl"]), None, true), ComboPlan::Close);
    assert_eq!(combo_plan(&binding("D", &["ctrl-left"]), None, true), ComboPlan::SideAware);
    assert_eq!(combo_plan(&binding("D", &["ctrl"]), None, false), ComboPlan::System);
    assert_eq!(optional_shortcut_plan(&None, None), ListenerPlan::Off);
    assert_eq!(
        optional_shortcut_plan(&Some(binding("RightAlt", &[])), alt),
        ListenerPlan::MainListener
    );
    assert_eq!(
        optional_shortcut_plan(&Some(binding("D", &["ctrl"])), None),
        ListenerPlan::Own
    );
    assert_eq!(translation_plan(&binding("shift", &[]), None), ListenerPlan::MainListener);
    assert_eq!(translation_plan(&binding("RightAlt", &[]), alt), ListenerPlan::MainListener);
    assert_eq!(translation_plan(&binding("T", &["ctrl"]), None), ListenerPlan::Own);
    assert_eq!(action_plan(&None, None), ListenerPlan::Off);
    assert_eq!(action_plan(&Some(binding("RightAlt", &[])), alt), ListenerPlan::Off);
    assert_eq!(action_plan(&Some(binding("S", &["ctrl"])), None), ListenerPlan::Own);
    assert_eq!(
        action_hotkey_bridge_thread_name(ActionHotkeyKind::SwitchStyle),
        "openless-switch-style-hotkey-bridge"
    );
    assert_eq!(
        action_hotkey_bridge_thread_name(ActionHotkeyKind::OpenApp),
        "openless-open-app-hotkey-bridge"
    );
    let shortcuts = target();
    assert_eq!(
        action_hotkey_binding(&shortcuts, ActionHotkeyKind::SwitchStyle),
        &shortcuts.switch_style
    );
    assert_eq!(action_hotkey_binding(&shortcuts, ActionHotkeyKind::OpenApp), &None);
}

#[test]
fn the_agent_key_is_announced_as_off_once() {
    let mut notice = DisabledNotice { announced: false };
    let off = HotkeyRuntimeTarget { coding_agent_voice: None, ..target() };
    let plan = |notice: &mut DisabledNotice, shortcuts: &HotkeyRuntimeTarget, os, validity| {
        notice.coding_agent_plan(shortcuts, os, Some(HotkeyTrigger::LeftOption), validity)
    };
    assert_eq!(
        plan(&mut notice, &off, TargetOs::Windows, Ok(())),
        CodingAgentPlan::Close { announce: true }
    );
    assert_eq!(
        plan(&mut notice, &off, TargetOs::Windows, Ok(())),
        CodingAgentPlan::Close { announce: false }
    );
    assert_eq!(
        plan(&mut notice, &target(), TargetOs::Linux, Ok(())),
        CodingAgentPlan::Close { announce: false }
    );
    assert_eq!(
        plan(&mut notice, &target(), TargetOs::Macos, Err("no".to_string())),
        CodingAgentPlan::Refuse("no".to_string())
    );
    match plan(&mut notice, &target(), TargetOs::Macos, Ok(())) {
        CodingAgentPlan::Modifier(binding) => {
            assert_eq!(binding.trigger, HotkeyTrigger::LeftOption);
            assert_eq!(binding.mode, HotkeyMode::Hold);
        }
        other => panic!("{other:?}"),
    }
    assert!(!notice.announced);
    assert_eq!(
        notice.coding_agent_plan(&target(), TargetOs::Macos, None, Ok(())),
        CodingAgentPlan::Combination
    );
    let disabled = HotkeyRuntimeTarget { coding_agent_enabled: false, ..target() };
    assert_eq!(
        plan(&mut notice, &disabled, TargetOs::Macos, Ok(())),
        CodingAgentPlan::Close { announce: false }
    );
}

#[test]
fn the_main_listener_watches_the_lone_modifiers() {
    let binding = main_listener_binding(None, HotkeyMode::Auto);
    assert_eq!((binding.trigger, binding.mode), (HotkeyTrigger::Custom, HotkeyMode::Auto));
    let binding = main_listener_binding(Some(HotkeyTrigger::Fn), HotkeyMode::Hold);
    assert_eq!(binding.trigger, HotkeyTrigger::Fn);
    let alt = Some(HotkeyTrigger::RightAlt);
    let triggers = modifier_shortcut_triggers(&target(), alt, alt, alt);
    assert_eq!(triggers.qa, alt);
    assert_eq!(triggers.selection_polish, alt);
    assert_eq!(triggers.translation, None);
    let none = HotkeyRuntimeTarget { qa: None, selection_polish: None, ..target() };
    let triggers = modifier_shortcut_triggers(&none, alt, alt, alt);
    assert_eq!((triggers.qa, triggers.selection_polish), (None, None));
    let reset = reset_shortcut_held_state(&target(), None, None, None, None);
    assert!(reset.qa && !reset.translation && reset.switch_style && !reset.open_app);
}

#[test]
fn the_status_follows_the_installation() {
    let adapter = HotkeyAdapterKind::WindowsLowLevel;
    let installing = HotkeyStatus::installing(adapter, 2);
    assert_eq!(installing.state, HotkeyStatusState::Starting);
    assert_eq!(
        installing.message.as_deref(),
        Some("正在安装全局快捷键监听（第 3 次）")
    );
    let installed = HotkeyStatus::installed(adapter);
    assert_eq!(installed.state, HotkeyStatusState::Installed);
    assert_eq!(installed.message.as_deref(), Some("Windows 低层键盘 hook 已安装"));
    let error = HotkeyInstallError { code: "c".to_string(), message: "m".to_string() };
    let failed = HotkeyStatus::failed(adapter, error.clone());
    assert_eq!(failed.state, HotkeyStatusState::Failed);
    assert_eq!(failed.message.as_deref(), Some("m"));
    assert_eq!(failed.last_error, Some(error));
    let plugin = HotkeyStatus::fcitx_unavailable(HotkeyAdapterKind::Fcitx5);
    assert_eq!(plugin.last_error.unwrap().code, "fcitx5_unavailable");
}

#[test]
fn the_log_hears_the_first_failures_and_then_every_tenth() {
    let logged: Vec<u32> = (1..=40).filter(|n| attempt_is_logged(*n)).collect();
    assert_eq!(logged, vec![1, 2, 3, 10, 20, 30, 40]);
}

#[test]
fn attempts_are_followed_up() {
    let installed = |kind| after_attempt(kind, 5, Registration::Installed).pause;
    assert_eq!(installed(SupervisorKind::Main), Pause::Done);
    assert_eq!(installed(SupervisorKind::SelectionPolish), Pause::Done);
    assert_eq!(installed(SupervisorKind::SideAware), Pause::Done);
    assert_eq!(installed(SupervisorKind::Combination), Pause::Done);
    assert_eq!(installed(SupervisorKind::Qa), Pause::Seconds(0));
    assert_eq!(installed(SupervisorKind::Translation), Pause::Seconds(0));
    assert_eq!(installed(SupervisorKind::Action), Pause::Seconds(0));
    assert_eq!(installed(SupervisorKind::StylePacks), Pause::Seconds(5));
    assert_eq!(
        after_attempt(SupervisorKind::Qa, 5, Registration::NoMainThread),
        AfterAttempt { attempts: 5, log: false, pause: Pause::Seconds(1) }
    );
    for kind in [SupervisorKind::SelectionPolish, SupervisorKind::StylePacks] {
        assert_eq!(
            after_attempt(kind, 5, Registration::NoMainThread),
            AfterAttempt { attempts: 6, log: false, pause: Pause::Seconds(3) }
        );
        assert_eq!(
            after_attempt(kind, 0, Registration::NoMainThread),
            AfterAttempt { attempts: 1, log: true, pause: Pause::Seconds(3) }
        );
    }
    assert_eq!(
        after_attempt(SupervisorKind::Main, 9, Registration::Refused),
        AfterAttempt { attempts: 10, log: true, pause: Pause::Seconds(3) }
    );
    assert_eq!(
        after_attempt(SupervisorKind::Translation, 0, Registration::TimedOut),
        AfterAttempt { attempts: 1, log: false, pause: Pause::Seconds(3) }
    );
    assert_eq!(
        after_attempt(SupervisorKind::Action, 0, Registration::TimedOut),
        AfterAttempt { attempts: 1, log: true, pause: Pause::Seconds(3) }
    );
}

#[test]
fn turns_do_what_the_shortcuts_ask() {
    assert_eq!(main_turn(true, false, false), MainTurn::Stop);
    assert_eq!(main_turn(false, true, true), MainTurn::Stop);
    assert_eq!(main_turn(false, false, true), MainTurn::AwaitPlugin);
    assert_eq!(main_turn(false, false, false), MainTurn::Install);
    assert_eq!(qa_turn(true, ListenerPlan::Own, false), ListenerTurn::Stop);
    assert_eq!(
        qa_turn(false, ListenerPlan::MainListener, true),
        ListenerTurn::Close { refresh: true, pause: Pause::Seconds(5) }
    );
    assert_eq!(
        qa_turn(false, ListenerPlan::Own, true),
        ListenerTurn::Rest(Pause::Seconds(5))
    );
    assert_eq!(qa_turn(false, ListenerPlan::Own, false), ListenerTurn::Register { refresh: false });
    assert_eq!(
        ending_turn(false, ListenerPlan::Off, true),
        ListenerTurn::Close { refresh: false, pause: Pause::Done }
    );
    assert_eq!(ending_turn(false, ListenerPlan::Own, true), ListenerTurn::Rest(Pause::Done));
    assert_eq!(combo_turn(true, ComboPlan::System, true, true, TargetOs::Windows), ComboTurn::Stop);
    assert_eq!(combo_turn(false, ComboPlan::Close, true, true, TargetOs::Windows), ComboTurn::CloseBoth);
    assert_eq!(
        combo_turn(false, ComboPlan::SideAware, true, false, TargetOs::Windows),
        ComboTurn::KeepSideAware
    );
    assert_eq!(
        combo_turn(false, ComboPlan::SideAware, false, true, TargetOs::Windows),
        ComboTurn::StartSideAware
    );
    assert_eq!(combo_turn(false, ComboPlan::System, false, true, TargetOs::Windows), ComboTurn::KeepSystem);
    assert_eq!(combo_turn(false, ComboPlan::System, true, false, TargetOs::Windows), ComboTurn::StartSystem { tell_plugin: false });
    assert_eq!(
        combo_turn(false, ComboPlan::System, true, false, TargetOs::Linux),
        ComboTurn::StartSystem { tell_plugin: true }
    );
    assert_eq!(style_pack_turn(true, false), ListenerTurn::Stop);
    assert_eq!(style_pack_turn(false, true), ListenerTurn::Rest(Pause::Seconds(5)));
    assert_eq!(style_pack_turn(false, false), ListenerTurn::Register { refresh: false });
}

#[test]
fn the_selection_polish_shortcut_is_bound_anew() {
    assert_eq!(selection_polish_turn(true, ListenerPlan::Own), ListenerTurn::Stop);
    for plan in [ListenerPlan::Off, ListenerPlan::MainListener] {
        assert_eq!(
            selection_polish_turn(false, plan),
            ListenerTurn::Close { refresh: true, pause: Pause::Done }
        );
    }
    assert_eq!(
        selection_polish_turn(false, ListenerPlan::Own),
        ListenerTurn::Register { refresh: true }
    );
}

#[test]
fn a_missing_plugin_is_logged_each_time() {
    assert_eq!(
        after_attempt(SupervisorKind::Main, 3, Registration::NoPlugin),
        AfterAttempt { attempts: 4, log: true, pause: Pause::Seconds(3) }
    );
}

#[test]
fn the_agents_key_is_watched_on_macos_and_windows() {
    for target in [TargetOs::Macos, TargetOs::Windows] {
        assert_eq!(coding_agent_pause(target), Pause::Seconds(5));
    }
    for target in [TargetOs::Linux, TargetOs::Android, TargetOs::Ios] {
        assert_eq!(coding_agent_pause(target), Pause::Done);
    }
}
