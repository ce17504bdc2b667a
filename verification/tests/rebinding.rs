use openless::hotkey_setup::{CodingAgentPlan, ComboPlan, ListenerPlan};
use openless::hotkeys::{HotkeyBinding, HotkeyMode, HotkeyTrigger};
use openless::platform::TargetOs;
use openless::rebinding::{
    custom_dictation_key_string, ensure_modifier_hotkey_monitor, register_agent_combination,
    registration_result, try_update_selection_polish_hotkey_binding,
    try_update_translation_hotkey_binding, update_action_hotkey_binding,
    update_coding_agent_hotkey_binding, update_combo_hotkey_binding, update_hotkey_binding,
    update_qa_hotkey_binding, AgentListenerUpdate, AwaitedShortcut, DictationStep, ListenerStep,
    MainListenerUpdate, MainThreadReply, PluginSync,
};

fn binding(trigger: HotkeyTrigger) -> HotkeyBinding {
    HotkeyBinding { trigger, mode: HotkeyMode::Hold, keys: None }
}

#[test]
fn one_combination_listener_runs_at_a_time() {
    for plan in [ComboPlan::Close, ComboPlan::SideAware, ComboPlan::System] {
        for (mut system, mut side_aware) in
            [(false, false), (true, false), (false, true), (true, true)]
        {
            for step in update_combo_hotkey_binding(plan, system, TargetOs::Linux) {
                match step {
                    ListenerStep::Close => system = false,
                    ListenerStep::CloseSideAware => side_aware = false,
                    ListenerStep::StartSideAware => side_aware = true,
                    ListenerStep::Start => system = true,
                    ListenerStep::Rebind => assert!(system),
                    ListenerStep::TellPlugin => assert!(system),
                    ListenerStep::RefreshModifiers => {}
                }
            }
            assert_eq!(
                (system, side_aware),
                (plan == ComboPlan::System, plan == ComboPlan::SideAware)
            );
        }
    }
}

#[test]
fn a_listener_that_runs_gets_the_new_keys() {
    for update in [
        update_qa_hotkey_binding,
        try_update_translation_hotkey_binding,
        try_update_selection_polish_hotkey_binding,
    ] {
        assert_eq!(
            update(ListenerPlan::Own, true),
            vec![ListenerStep::RefreshModifiers, ListenerStep::Rebind]
        );
        assert_eq!(
            update(ListenerPlan::Own, false),
            vec![ListenerStep::RefreshModifiers, ListenerStep::Start]
        );
        for plan in [ListenerPlan::Off, ListenerPlan::MainListener] {
            assert_eq!(
                update(plan, true),
                vec![ListenerStep::Close, ListenerStep::RefreshModifiers]
            );
        }
    }
    assert_eq!(update_action_hotkey_binding(ListenerPlan::Own, true), ListenerStep::Rebind);
    assert_eq!(update_action_hotkey_binding(ListenerPlan::Own, false), ListenerStep::Start);
    assert_eq!(update_action_hotkey_binding(ListenerPlan::Off, true), ListenerStep::Close);
}

#[test]
fn the_plugin_hears_of_new_dictation_keys_on_linux() {
    let update = |trigger, running, os| {
        let update = ensure_modifier_hotkey_monitor(&binding(trigger), running, os);
        (update.step, update.sync)
    };
    assert_eq!(
        update(HotkeyTrigger::Custom, true, TargetOs::Linux),
        (ListenerStep::Rebind, PluginSync::CustomKey)
    );
    assert_eq!(
        update(HotkeyTrigger::RightControl, false, TargetOs::Linux),
        (ListenerStep::Start, PluginSync::Trigger)
    );
    assert_eq!(
        update(HotkeyTrigger::Custom, true, TargetOs::Windows),
        (ListenerStep::Rebind, PluginSync::Nothing)
    );
    assert_eq!(custom_dictation_key_string(String::new()), None);
    assert_eq!(
        custom_dictation_key_string("Control+d".to_string()),
        Some("Control+d".to_string())
    );
}

#[test]
fn the_agent_key_has_one_listener_or_none() {
    let update = update_coding_agent_hotkey_binding;
    assert_eq!(
        update(CodingAgentPlan::Close { announce: true }, true),
        Ok(AgentListenerUpdate::CloseBoth { announce: true })
    );
    assert_eq!(
        update(CodingAgentPlan::Refuse("no".to_string()), true),
        Err("no".to_string())
    );
    assert_eq!(
        update(CodingAgentPlan::Modifier(binding(HotkeyTrigger::Fn)), true),
        Ok(AgentListenerUpdate::Modifier {
            binding: binding(HotkeyTrigger::Fn),
            step: ListenerStep::Rebind,
        })
    );
    assert_eq!(
        update(CodingAgentPlan::Combination, false),
        Ok(AgentListenerUpdate::RegisterCombination)
    );
    assert_eq!(register_agent_combination(true, false), Ok(ListenerStep::Start));
    assert_eq!(register_agent_combination(true, true), Ok(ListenerStep::Rebind));
    assert_eq!(
        register_agent_combination(false, true),
        Err("Less Computer hotkey target changed before registration".to_string())
    );
}

#[test]
fn a_registration_that_is_waited_for_can_fail() {
    let shortcut = AwaitedShortcut::Translation;
    assert_eq!(registration_result(shortcut, MainThreadReply::Answered(Ok(()))), Ok(()));
    assert_eq!(
        registration_result(shortcut, MainThreadReply::Answered(Err("taken".to_string()))),
        Err("taken".to_string())
    );
    assert_eq!(
        registration_result(shortcut, MainThreadReply::Unreachable("no host".to_string())),
        Err("no host".to_string())
    );
    for (shortcut, message) in [
        (AwaitedShortcut::Translation, "注册翻译快捷键超时"),
        (AwaitedShortcut::SelectionPolish, "Selection Polish hotkey registration timed out"),
        (AwaitedShortcut::StylePacks, "注册风格包快捷键超时"),
        (AwaitedShortcut::CodingAgent, "Less Computer hotkey registration timed out"),
    ] {
        assert_eq!(
            registration_result(shortcut, MainThreadReply::TimedOut),
            Err(message.to_string())
        );
    }
}

#[test]
fn the_plugin_hears_of_a_combination_that_starts() {
    assert_eq!(
        update_combo_hotkey_binding(ComboPlan::System, false, TargetOs::Linux),
        vec![ListenerStep::CloseSideAware, ListenerStep::Start, ListenerStep::TellPlugin]
    );
    assert_eq!(
        update_combo_hotkey_binding(ComboPlan::System, true, TargetOs::Linux),
        vec![ListenerStep::CloseSideAware, ListenerStep::Rebind]
    );
    assert_eq!(
        update_combo_hotkey_binding(ComboPlan::System, false, TargetOs::Windows),
        vec![ListenerStep::CloseSideAware, ListenerStep::Start]
    );
}

#[test]
fn a_changed_dictation_shortcut_reaches_every_listener_in_turn() {
    let main = |trigger, step, sync| DictationStep::Main {
        binding: binding(trigger),
        update: MainListenerUpdate { step, sync },
    };
    assert_eq!(
        update_hotkey_binding(
            Some(HotkeyTrigger::RightOption),
            HotkeyMode::Hold,
            ComboPlan::Close,
            true,
            true,
            TargetOs::Macos,
        ),
        vec![
            DictationStep::Combination(ListenerStep::Close),
            main(HotkeyTrigger::RightOption, ListenerStep::Rebind, PluginSync::Nothing),
            DictationStep::RefreshModifiers,
        ]
    );
    assert_eq!(
        update_hotkey_binding(
            None,
            HotkeyMode::Hold,
            ComboPlan::System,
            true,
            false,
            TargetOs::Linux,
        ),
        vec![
            DictationStep::Combination(ListenerStep::CloseSideAware),
            DictationStep::Combination(ListenerStep::Rebind),
            main(HotkeyTrigger::Custom, ListenerStep::Start, PluginSync::CustomKey),
            DictationStep::RefreshModifiers,
        ]
    );
}
