//! What happens to the listeners when a shortcut changes while the application runs.

use vstd::prelude::*;

use crate::hotkey_setup::{main_listener_binding, CodingAgentPlan, ComboPlan, ListenerPlan};
use crate::hotkeys::{HotkeyBinding, HotkeyMode, HotkeyTrigger};
use crate::platform::TargetOs;

verus! {

/// One step of a change to the listeners of a shortcut.
#[derive(Debug, Clone, Copy, PartialEq, Eq, Structural)]
pub enum ListenerStep {
    /// Closes the shortcut's own listener, if it runs.
    Close,
    /// Closes the listener that tells left from right modifiers, if it runs.
    CloseSideAware,
    StartSideAware,
    /// Tells the main listener which lone modifiers to watch.
    RefreshModifiers,
    /// Gives the new keys to the shortcut's own listener, which runs.
    Rebind,
    /// Starts a listener of the shortcut's own.
    Start,
    /// Tells the input method plugin the keys of the combination, once its listener has started.
    TellPlugin,
}

/// New keys go to a listener that runs, or else to a new one.
pub open spec fn rebind_or_start(running: bool) -> ListenerStep {
    if running {
        ListenerStep::Rebind
    } else {
        ListenerStep::Start
    }
}

fn rebound_or_started(running: bool) -> (r: ListenerStep)
    ensures
        r == rebind_or_start(running),
{
    if running {
        ListenerStep::Rebind
    } else {
        ListenerStep::Start
    }
}

/// The steps for the dictation combination.
pub open spec fn combo_steps(plan: ComboPlan, running: bool, target: TargetOs) -> Seq<
    ListenerStep,
> {
    match plan {
        ComboPlan::Close => seq![ListenerStep::Close, ListenerStep::CloseSideAware],
        ComboPlan::SideAware => seq![
            ListenerStep::Close,
            ListenerStep::CloseSideAware,
            ListenerStep::StartSideAware,
        ],
        ComboPlan::System => if target is Linux && !running {
            seq![ListenerStep::CloseSideAware, ListenerStep::Start, ListenerStep::TellPlugin]
        } else {
            seq![ListenerStep::CloseSideAware, rebind_or_start(running)]
        },
    }
}

/// What is done when the dictation combination changes; `running` says whether its system-wide
/// listener runs. A listener that tells left from right is always started anew. On Linux the input
/// method plugin hears of the keys once their listener has started.
pub fn update_combo_hotkey_binding(plan: ComboPlan, running: bool, target: TargetOs) -> (r: Vec<
    ListenerStep,
>)
    ensures
        r@ == combo_steps(plan, running, target),
{
    match plan {
        ComboPlan::Close => vec![ListenerStep::Close, ListenerStep::CloseSideAware],
        ComboPlan::SideAware => vec![
            ListenerStep::Close,
            ListenerStep::CloseSideAware,
            ListenerStep::StartSideAware,
        ],
        ComboPlan::System => if target == TargetOs::Linux && !running {
            vec![ListenerStep::CloseSideAware, ListenerStep::Start, ListenerStep::TellPlugin]
        } else {
            vec![ListenerStep::CloseSideAware, rebound_or_started(running)]
        },
    }
}

/// The steps for a shortcut that the main listener may watch.
pub open spec fn shortcut_steps(plan: ListenerPlan, running: bool) -> Seq<ListenerStep> {
    if plan is Own {
        seq![ListenerStep::RefreshModifiers, rebind_or_start(running)]
    } else {
        seq![ListenerStep::Close, ListenerStep::RefreshModifiers]
    }
}

fn shortcut_update(plan: ListenerPlan, running: bool) -> (r: Vec<ListenerStep>)
    ensures
        r@ == shortcut_steps(plan, running),
{
    if plan == ListenerPlan::Own {
        vec![ListenerStep::RefreshModifiers, rebound_or_started(running)]
    } else {
        vec![ListenerStep::Close, ListenerStep::RefreshModifiers]
    }
}

/// What is done when the shortcut of the question panel changes; `running` says whether it has a
/// listener of its own.
pub fn update_qa_hotkey_binding(plan: ListenerPlan, running: bool) -> (r: Vec<ListenerStep>)
    ensures
        r@ == shortcut_steps(plan, running),
{
    shortcut_update(plan, running)
}

/// What is done when the translation shortcut changes; `running` says whether it has a listener of
/// its own.
pub fn try_update_translation_hotkey_binding(plan: ListenerPlan, running: bool) -> (r: Vec<
    ListenerStep,
>)
    ensures
        r@ == shortcut_steps(plan, running),
{
    shortcut_update(plan, running)
}

/// What is done when the shortcut of selection polish changes; `running` says whether it has a
/// listener of its own.
pub fn try_update_selection_polish_hotkey_binding(plan: ListenerPlan, running: bool) -> (r: Vec<
    ListenerStep,
>)
    ensures
        r@ == shortcut_steps(plan, running),
{
    shortcut_update(plan, running)
}

/// What is done when the shortcut of an action changes; `running` says whether it has a listener.
/// The main listener never watches such a shortcut.
pub fn update_action_hotkey_binding(plan: ListenerPlan, running: bool) -> (r: ListenerStep)
    ensures
        r == (if plan is Own {
            rebind_or_start(running)
        } else {
            ListenerStep::Close
        }),
{
    if plan == ListenerPlan::Own {
        rebound_or_started(running)
    } else {
        ListenerStep::Close
    }
}

/// The listeners for the dictation combination that run.
pub struct ComboListeners {
    pub system: bool,
    pub side_aware: bool,
}

impl ComboListeners {
    /// The listeners after one step; `started` says whether a listener that was to start did.
    pub open spec fn after_step(self, step: ListenerStep, started: bool) -> ComboListeners {
        match step {
            ListenerStep::Close => ComboListeners { system: false, ..self },
            ListenerStep::CloseSideAware => ComboListeners { side_aware: false, ..self },
            ListenerStep::StartSideAware => ComboListeners { side_aware: started, ..self },
            ListenerStep::Start => ComboListeners { system: started, ..self },
            ListenerStep::Rebind | ListenerStep::RefreshModifiers | ListenerStep::TellPlugin => self,
        }
    }

    /// The listeners after the steps.
    pub open spec fn after_steps(self, steps: Seq<ListenerStep>, started: bool) -> ComboListeners
        decreases steps.len(),
    {
        if steps.len() == 0 {
            self
        } else {
            self.after_steps(steps.drop_last(), started).after_step(steps.last(), started)
        }
    }
}

/// A press of the dictation combination is never heard twice: whatever ran before, and whether or
/// not a new listener starts, at most one of the two listeners runs after a change, and none where
/// the combination is off.
pub proof fn one_listener_hears_the_combination(
    before: ComboListeners,
    plan: ComboPlan,
    target: TargetOs,
    started: bool,
)
    ensures
        ({
            let after = before.after_steps(combo_steps(plan, before.system, target), started);
            &&& !(after.system && after.side_aware)
            &&& plan is Close ==> !after.system && !after.side_aware
            &&& plan is System && started ==> after.system
            &&& plan is SideAware && started ==> after.side_aware
        }),
{
    reveal_with_fuel(ComboListeners::after_steps, 4);
    let steps = combo_steps(plan, before.system, target);
    match plan {
        ComboPlan::Close => {
            assert(steps.drop_last() =~= seq![ListenerStep::Close]);
            assert(steps.drop_last().drop_last() =~= Seq::<ListenerStep>::empty());
        },
        ComboPlan::SideAware => {
            assert(steps.drop_last() =~= seq![ListenerStep::Close, ListenerStep::CloseSideAware]);
            assert(steps.drop_last().drop_last() =~= seq![ListenerStep::Close]);
            assert(steps.drop_last().drop_last().drop_last() =~= Seq::<ListenerStep>::empty());
        },
        ComboPlan::System => {
            if target is Linux && !before.system {
                let first = seq![ListenerStep::CloseSideAware, ListenerStep::Start];
                assert(steps.drop_last() =~= first);
                assert(first.drop_last() =~= seq![ListenerStep::CloseSideAware]);
                assert(first.drop_last().drop_last() =~= Seq::<ListenerStep>::empty());
            } else {
                assert(steps.drop_last() =~= seq![ListenerStep::CloseSideAware]);
                assert(steps.drop_last().drop_last() =~= Seq::<ListenerStep>::empty());
            }
        },
    }
}

/// What the input method plugin is told of a new dictation shortcut.
#[derive(Debug, Clone, Copy, PartialEq, Eq, Structural)]
pub enum PluginSync {
    Nothing,
    /// The keys of the combination.
    CustomKey,
    /// The lone modifier.
    Trigger,
}

/// What becomes of the main listener when the dictation shortcut changes.
#[derive(Debug, Clone, Copy, PartialEq, Eq, Structural)]
pub struct MainListenerUpdate {
    pub step: ListenerStep,
    /// What the plugin is told, once the listener runs.
    pub sync: PluginSync,
}

/// What becomes of the main listener when the dictation shortcut changes; `running` says whether
/// it runs. On Linux the input method plugin hears of the new keys too.
pub fn ensure_modifier_hotkey_monitor(binding: &HotkeyBinding, running: bool, target: TargetOs) -> (
    r: MainListenerUpdate)
    ensures
        r.step == rebind_or_start(running),
        r.sync == (if !(target is Linux) {
            PluginSync::Nothing
        } else if binding.trigger is Custom {
            PluginSync::CustomKey
        } else {
            PluginSync::Trigger
        }),
{
    let sync: PluginSync = if target != TargetOs::Linux {
        PluginSync::Nothing
    } else if binding.trigger == HotkeyTrigger::Custom {
        PluginSync::CustomKey
    } else {
        PluginSync::Trigger
    };
    MainListenerUpdate { step: rebound_or_started(running), sync }
}

/// One step of a change of the dictation shortcut.
#[derive(Debug, Clone, PartialEq, Eq)]
pub enum DictationStep {
    /// For the listeners of the combination.
    Combination(ListenerStep),
    /// Gives the binding to the main listener.
    Main { binding: HotkeyBinding, update: MainListenerUpdate },
    /// Tells the main listener which other lone modifiers to watch, where it runs.
    RefreshModifiers,
}

/// What becomes of the main listener for a trigger; a combination stands as a custom one.
pub open spec fn main_update(
    trigger: Option<HotkeyTrigger>,
    running: bool,
    target: TargetOs,
) -> MainListenerUpdate {
    MainListenerUpdate {
        step: rebind_or_start(running),
        sync: if !(target is Linux) {
            PluginSync::Nothing
        } else if trigger is None || trigger == Some(HotkeyTrigger::Custom) {
            PluginSync::CustomKey
        } else {
            PluginSync::Trigger
        },
    }
}

/// The listeners of the combination, first of all: a lone modifier closes the system-wide one, and
/// leaves the one that tells left from right to the change of the combination itself.
pub open spec fn dictation_combo_steps(
    trigger: Option<HotkeyTrigger>,
    plan: ComboPlan,
    combo_running: bool,
    target: TargetOs,
) -> Seq<ListenerStep> {
    if trigger is Some {
        seq![ListenerStep::Close]
    } else {
        combo_steps(plan, combo_running, target)
    }
}

/// The steps of a change of the dictation shortcut.
pub open spec fn dictation_steps(
    trigger: Option<HotkeyTrigger>,
    mode: HotkeyMode,
    plan: ComboPlan,
    combo_running: bool,
    main_running: bool,
    target: TargetOs,
) -> Seq<DictationStep> {
    dictation_combo_steps(trigger, plan, combo_running, target).map_values(
        |step: ListenerStep| DictationStep::Combination(step),
    ) + seq![
        DictationStep::Main {
            binding: HotkeyBinding {
                trigger: match trigger {
                    Some(t) => t,
                    None => HotkeyTrigger::Custom,
                },
                mode,
                keys: None,
            },
            update: main_update(trigger, main_running, target),
        },
        DictationStep::RefreshModifiers,
    ]
}

/// What is done when the dictation shortcut or its mode changes. `trigger` is the lone modifier
/// that the shortcut stands for, if any, and `plan` what a combination needs; `combo_running` and
/// `main_running` say whether the system-wide listener of the combination and the main listener
/// run.
pub fn update_hotkey_binding(
    trigger: Option<HotkeyTrigger>,
    mode: HotkeyMode,
    plan: ComboPlan,
    combo_running: bool,
    main_running: bool,
    target: TargetOs,
) -> (r: Vec<DictationStep>)
    ensures
        r@ == dictation_steps(trigger, mode, plan, combo_running, main_running, target),
{
    let combination: Vec<ListenerStep> = if trigger.is_some() {
        vec![ListenerStep::Close]
    } else {
        update_combo_hotkey_binding(plan, combo_running, target)
    };
    let ghost first = dictation_combo_steps(trigger, plan, combo_running, target);
    assert(combination@ =~= first);
    let mut steps: Vec<DictationStep> = Vec::new();
    let mut i: usize = 0;
    while i < combination.len()
        invariant
            i <= combination.len(),
            combination@ == first,
            steps@ == first.take(i as int).map_values(
                |step: ListenerStep| DictationStep::Combination(step),
            ),
        decreases combination.len() - i,
    {
        steps.push(DictationStep::Combination(combination[i]));
        i += 1;
        assert(steps@ =~= first.take(i as int).map_values(
            |step: ListenerStep| DictationStep::Combination(step),
        ));
    }
    assert(first.take(i as int) =~= first);
    let binding: HotkeyBinding = main_listener_binding(trigger, mode);
    let update: MainListenerUpdate = ensure_modifier_hotkey_monitor(&binding, main_running, target);
    steps.push(DictationStep::Main { binding, update });
    steps.push(DictationStep::RefreshModifiers);
    assert(steps@ =~= dictation_steps(trigger, mode, plan, combo_running, main_running, target));
    steps
}

/// The keys of the combination as the plugin is told them; none where they have no name there.
pub fn custom_dictation_key_string(key_string: String) -> (r: Option<String>)
    ensures
        r == (if key_string@.len() == 0 {
            None::<String>
        } else {
            Some(key_string)
        }),
{
    if key_string.as_str().is_empty() {
        None
    } else {
        Some(key_string)
    }
}

/// What becomes of the listeners for the agent's voice key: one for a lone modifier, one for a
/// combination.
#[derive(Debug, Clone, PartialEq, Eq)]
pub enum AgentListenerUpdate {
    CloseBoth { announce: bool },
    /// Closes the combination's listener, and gives the modifier to its own.
    Modifier { binding: HotkeyBinding, step: ListenerStep },
    /// Closes the modifier's listener, and asks the main thread to register the combination.
    RegisterCombination,
}

/// What is done when the agent's voice key changes; `modifier_running` says whether the listener
/// for a lone modifier runs. A key that may not be used is refused before any listener is touched.
pub fn update_coding_agent_hotkey_binding(plan: CodingAgentPlan, modifier_running: bool) -> (r:
    Result<AgentListenerUpdate, String>)
    ensures
        r == (match plan {
            CodingAgentPlan::Close { announce } => Ok::<AgentListenerUpdate, String>(
                AgentListenerUpdate::CloseBoth { announce },
            ),
            CodingAgentPlan::Refuse(error) => Err(error),
            CodingAgentPlan::Modifier(binding) => Ok(
                AgentListenerUpdate::Modifier { binding, step: rebind_or_start(modifier_running) },
            ),
            CodingAgentPlan::Combination => Ok(AgentListenerUpdate::RegisterCombination),
        }),
{
    match plan {
        CodingAgentPlan::Close { announce } => Ok(AgentListenerUpdate::CloseBoth { announce }),
        CodingAgentPlan::Refuse(error) => Err(error),
        CodingAgentPlan::Modifier(binding) => Ok(
            AgentListenerUpdate::Modifier { binding, step: rebound_or_started(modifier_running) },
        ),
        CodingAgentPlan::Combination => Ok(AgentListenerUpdate::RegisterCombination),
    }
}

/// How the main thread registers the agent's combination when its turn comes; `still_wanted` is
/// what `registration_still_wanted` says then.
pub fn register_agent_combination(still_wanted: bool, running: bool) -> (r: Result<
    ListenerStep,
    String,
>)
    ensures
        match r {
            Ok(step) => still_wanted && step == rebind_or_start(running),
            Err(message) => !still_wanted && message@
                == "Less Computer hotkey target changed before registration"@,
        },
{
    if still_wanted {
        Ok(rebound_or_started(running))
    } else {
        Err("Less Computer hotkey target changed before registration".to_owned())
    }
}

/// The shortcuts whose registration is waited for, so that a failure can be taken back.
#[derive(Debug, Clone, Copy, PartialEq, Eq, Structural)]
pub enum AwaitedShortcut {
    Translation,
    SelectionPolish,
    StylePacks,
    CodingAgent,
}

/// What came of a registration on the main thread.
#[derive(Debug, PartialEq, Eq)]
pub enum MainThreadReply {
    /// The main thread could not be asked.
    Unreachable(String),
    Answered(Result<(), String>),
    /// It did not answer in time.
    TimedOut,
}

/// The message for a registration that takes too long.
pub open spec fn timeout_message(shortcut: AwaitedShortcut) -> Seq<char> {
    match shortcut {
        AwaitedShortcut::Translation => "注册翻译快捷键超时"@,
        AwaitedShortcut::SelectionPolish => "Selection Polish hotkey registration timed out"@,
        AwaitedShortcut::StylePacks => "注册风格包快捷键超时"@,
        AwaitedShortcut::CodingAgent => "Less Computer hotkey registration timed out"@,
    }
}

/// What a registration that was waited for amounts to.
pub fn registration_result(shortcut: AwaitedShortcut, reply: MainThreadReply) -> (r: Result<
    (),
    String,
>)
    ensures
        match reply {
            MainThreadReply::Unreachable(error) => r == Err::<(), String>(error),
            MainThreadReply::Answered(answer) => r == answer,
            MainThreadReply::TimedOut => r matches Err(message) && message@ == timeout_message(
                shortcut,
            ),
        },
{
    match reply {
        MainThreadReply::Unreachable(error) => Err(error),
        MainThreadReply::Answered(answer) => answer,
        MainThreadReply::TimedOut => {
            let message: &str = match shortcut {
                AwaitedShortcut::Translation => "注册翻译快捷键超时",
                AwaitedShortcut::SelectionPolish => "Selection Polish hotkey registration timed out",
                AwaitedShortcut::StylePacks => "注册风格包快捷键超时",
                AwaitedShortcut::CodingAgent => "Less Computer hotkey registration timed out",
            };
            Err(message.to_owned())
        },
    }
}

/// What an update of the combination does to the listeners, whatever ran before: at most one listens
/// after it, the one that is planned where it could be started, and none where none is planned. A
/// listener that runs is rebound, not started again, and the plugin is told of a new one on Linux.
pub proof fn combinations_end_with_the_listener_planned(
    before: ComboListeners,
    plan: ComboPlan,
    target: TargetOs,
    started: bool,
    r: Vec<ListenerStep>,
)
    requires
        call_ensures(update_combo_hotkey_binding, (plan, before.system, target), r),
    ensures
        before.after_steps(r@, started).system <==> plan is System && (before.system || started),
        before.after_steps(r@, started).side_aware <==> plan is SideAware && started,
        r@.contains(ListenerStep::Rebind) <==> plan is System && before.system,
        r@.contains(ListenerStep::Start) <==> plan is System && !before.system,
        r@.contains(ListenerStep::StartSideAware) <==> plan is SideAware,
        r@.contains(ListenerStep::TellPlugin) <==> plan is System && !before.system && target
            is Linux,
        r@.contains(ListenerStep::CloseSideAware),
        !r@.contains(ListenerStep::RefreshModifiers),
{
    reveal_with_fuel(ComboListeners::after_steps, 4);
    let steps = r@;
    assert(steps.len() > 0);
    if steps.len() == 2 {
        assert(steps =~= seq![steps[0], steps[1]]);
        assert(steps.drop_last() =~= seq![steps[0]]);
        assert(steps.drop_last().drop_last() =~= Seq::<ListenerStep>::empty());
    } else {
        assert(steps =~= seq![steps[0], steps[1], steps[2]]);
        assert(steps.drop_last() =~= seq![steps[0], steps[1]]);
        assert(steps.drop_last().drop_last() =~= seq![steps[0]]);
        assert(steps.drop_last().drop_last().drop_last() =~= Seq::<ListenerStep>::empty());
    }
}

/// A shortcut with a listener of its own gets it rebound or started after the main listener was
/// told; any other is closed first. Questions, translation and selection polish are updated alike.
pub proof fn shortcuts_are_updated_alike(
    plan: ListenerPlan,
    running: bool,
    qa: Vec<ListenerStep>,
    translation: Vec<ListenerStep>,
    polish: Vec<ListenerStep>,
    action: ListenerStep,
)
    requires
        call_ensures(update_qa_hotkey_binding, (plan, running), qa),
        call_ensures(try_update_translation_hotkey_binding, (plan, running), translation),
        call_ensures(try_update_selection_polish_hotkey_binding, (plan, running), polish),
        call_ensures(update_action_hotkey_binding, (plan, running), action),
    ensures
        qa@ == translation@ && qa@ == polish@,
        plan is Own && running ==> qa@ == seq![
            ListenerStep::RefreshModifiers,
            ListenerStep::Rebind,
        ] && action is Rebind,
        plan is Own && !running ==> qa@ == seq![ListenerStep::RefreshModifiers, ListenerStep::Start]
            && action is Start,
        plan is Off || plan is MainListener ==> qa@ == seq![
            ListenerStep::Close,
            ListenerStep::RefreshModifiers,
        ] && action is Close,
{
}

/// The main listener is rebound where it runs and started where it does not; on Linux, and only
/// there, the plugin is told the trigger, or that the key is a custom one.
pub proof fn the_main_listener_tells_the_plugin_on_linux(
    binding: &HotkeyBinding,
    running: bool,
    target: TargetOs,
    r: MainListenerUpdate,
)
    requires
        call_ensures(ensure_modifier_hotkey_monitor, (binding, running, target), r),
    ensures
        running ==> r.step is Rebind,
        !running ==> r.step is Start,
        r.sync is Nothing <==> !(target is Linux),
        target is Linux && binding.trigger is Custom ==> r.sync is CustomKey,
        target is Linux && !(binding.trigger is Custom) ==> r.sync is Trigger,
{
}

/// An update of dictation ends with the main listener, which gets the trigger and the mode, and with
/// the modifiers. Before that the combination is closed where dictation has a trigger, and updated as
/// planned where it has none.
pub proof fn dictation_updates_the_combination_before_the_main_listener(
    trigger: Option<HotkeyTrigger>,
    mode: HotkeyMode,
    plan: ComboPlan,
    combo_running: bool,
    main_running: bool,
    target: TargetOs,
    combo: Vec<ListenerStep>,
    binding: HotkeyBinding,
    main: MainListenerUpdate,
    r: Vec<DictationStep>,
)
    requires
        call_ensures(update_combo_hotkey_binding, (plan, combo_running, target), combo),
        call_ensures(crate::hotkey_setup::main_listener_binding, (trigger, mode), binding),
        call_ensures(ensure_modifier_hotkey_monitor, (&binding, main_running, target), main),
        call_ensures(
            update_hotkey_binding,
            (trigger, mode, plan, combo_running, main_running, target),
            r,
        ),
    ensures
        r@.len() >= 3,
        r@.last() is RefreshModifiers,
        r@[r@.len() - 2] matches DictationStep::Main { binding: b, update } && b.trigger
            == binding.trigger && b.mode == mode && b.keys is None && update == main,
        trigger is Some ==> r@.len() == 3 && r@[0] == DictationStep::Combination(
            ListenerStep::Close,
        ),
        trigger is None ==> r@.len() == combo@.len() + 2 && forall|i: int|
            0 <= i < combo@.len() ==> r@[i] == DictationStep::Combination(#[trigger] combo@[i]),
{
}

/// An empty key string means that there is no custom key.
pub proof fn empty_key_strings_are_none(key_string: String, r: Option<String>)
    requires
        call_ensures(custom_dictation_key_string, (key_string,), r),
    ensures
        r is None <==> key_string@.len() == 0,
        r is Some ==> r->0@ == key_string@,
{
}

/// What a plan of the coding agent does: both listeners are closed, with an announcement where the
/// plan has one, a plan that was refused fails in its own words, a lone modifier is rebound or
/// started, and a combination is registered, if it is still wanted by then.
pub proof fn agent_plans_become_listeners(
    plan: CodingAgentPlan,
    running: bool,
    r: Result<AgentListenerUpdate, String>,
    still_wanted: bool,
    registered: Result<ListenerStep, String>,
)
    requires
        call_ensures(update_coding_agent_hotkey_binding, (plan, running), r),
        call_ensures(register_agent_combination, (still_wanted, running), registered),
    ensures
        r is Err <==> plan is Refuse,
        plan matches CodingAgentPlan::Refuse(error) ==> r->Err_0 == error,
        plan matches CodingAgentPlan::Close { announce } ==> r->Ok_0 == (
        AgentListenerUpdate::CloseBoth { announce }),
        plan matches CodingAgentPlan::Modifier(binding) ==> r->Ok_0 == (
        AgentListenerUpdate::Modifier {
            binding,
            step: if running {
                ListenerStep::Rebind
            } else {
                ListenerStep::Start
            },
        }),
        plan is Combination ==> r->Ok_0 is RegisterCombination,
        registered is Ok <==> still_wanted,
        still_wanted && running ==> registered->Ok_0 is Rebind,
        still_wanted && !running ==> registered->Ok_0 is Start,
        !still_wanted ==> registered->Err_0@
            == "Less Computer hotkey target changed before registration"@,
{
}

/// The result of a registration is what the main thread answered, that it could not be reached, or
/// that it did not answer in time; the last is said for each shortcut in its own words.
pub proof fn registrations_answer_or_time_out(
    shortcut: AwaitedShortcut,
    reply: MainThreadReply,
    r: Result<(), String>,
)
    requires
        call_ensures(registration_result, (shortcut, reply), r),
    ensures
        reply matches MainThreadReply::Answered(answer) ==> r == answer,
        reply matches MainThreadReply::Unreachable(error) ==> r is Err && r->Err_0 == error,
        reply is TimedOut ==> r is Err,
        reply is TimedOut && shortcut is Translation ==> r->Err_0@ == "注册翻译快捷键超时"@,
        reply is TimedOut && shortcut is SelectionPolish ==> r->Err_0@
            == "Selection Polish hotkey registration timed out"@,
        reply is TimedOut && shortcut is StylePacks ==> r->Err_0@ == "注册风格包快捷键超时"@,
        reply is TimedOut && shortcut is CodingAgent ==> r->Err_0@
            == "Less Computer hotkey registration timed out"@,
{
}

} // verus!
