//! Which listener a shortcut needs, and what a change of the shortcuts asks of the listeners.

use vstd::prelude::*;

use crate::hotkeys::{
    self, HotkeyAdapterKind, HotkeyBinding, HotkeyInstallError, HotkeyMode, HotkeyStatus,
    HotkeyStatusState, HotkeyTrigger, ShortcutBinding, StylePackHotkey,
};
use crate::platform::TargetOs;
use crate::routing::{
    self, is_builtin_translation_shift, is_modifier_only_shortcut, is_unconfigured_shortcut,
    less_computer_modifier_binding,
};
use crate::style_pack_hotkeys;
use crate::text::{self, to_decimal};

verus! {

/// The shortcuts that the listeners are to follow.
#[derive(Debug, Clone, PartialEq, Eq)]
pub struct HotkeyRuntimeTarget {
    pub dictation: ShortcutBinding,
    pub dictation_mode: HotkeyMode,
    pub qa: Option<ShortcutBinding>,
    pub selection_polish: Option<ShortcutBinding>,
    pub translation: ShortcutBinding,
    pub switch_style: Option<ShortcutBinding>,
    pub open_app: Option<ShortcutBinding>,
    pub style_packs: Vec<StylePackHotkey>,
    pub coding_agent_enabled: bool,
    pub coding_agent_voice: Option<ShortcutBinding>,
}

/// A step that brings a listener in line with the shortcuts.
#[derive(Debug, Clone, Copy, PartialEq, Eq, Structural)]
pub enum HotkeyUpdate {
    Translation,
    SelectionPolish,
    StylePacks,
    Dictation,
    Combination,
    Qa,
    SwitchStyle,
    OpenApp,
    /// Cancel the agent's capture: its key will report no release any more.
    CancelAgentCapture,
    CodingAgent,
}

impl HotkeyUpdate {
    /// Whether a failure of the step ends the change, so that it can be taken back. The other steps
    /// are tried again by their supervisors.
    pub open spec fn ends_on_failure(self) -> bool {
        self is Translation || self is SelectionPolish || self is StylePacks || self is CodingAgent
    }

    pub fn is_transactional(self) -> (r: bool)
        ensures
            r == self.ends_on_failure(),
    {
        match self {
            HotkeyUpdate::Translation | HotkeyUpdate::SelectionPolish | HotkeyUpdate::StylePacks
            | HotkeyUpdate::CodingAgent => true,
            _ => false,
        }
    }
}

/// The step where its shortcut changed, else nothing.
pub open spec fn step_if(changed: bool, step: HotkeyUpdate) -> Seq<HotkeyUpdate> {
    if changed {
        seq![step]
    } else {
        Seq::empty()
    }
}

/// The steps from `previous` to `next`, in their order.
pub open spec fn update_steps(
    previous: HotkeyRuntimeTarget,
    next: HotkeyRuntimeTarget,
    mobile: bool,
) -> Seq<HotkeyUpdate> {
    let dictation = previous.dictation@ != next.dictation@;
    let agent = previous.coding_agent_enabled != next.coding_agent_enabled
        || hotkeys::optional_binding(previous.coding_agent_voice) != hotkeys::optional_binding(
        next.coding_agent_voice,
    );
    step_if(previous.translation@ != next.translation@, HotkeyUpdate::Translation) + step_if(
        !mobile && hotkeys::optional_binding(previous.selection_polish)
            != hotkeys::optional_binding(next.selection_polish),
        HotkeyUpdate::SelectionPolish,
    ) + step_if(
        style_pack_hotkeys::entry_views(previous.style_packs@) != style_pack_hotkeys::entry_views(
            next.style_packs@,
        ),
        HotkeyUpdate::StylePacks,
    ) + step_if(
        dictation || previous.dictation_mode != next.dictation_mode,
        HotkeyUpdate::Dictation,
    ) + step_if(dictation, HotkeyUpdate::Combination) + step_if(
        hotkeys::optional_binding(previous.qa) != hotkeys::optional_binding(next.qa),
        HotkeyUpdate::Qa,
    ) + step_if(
        hotkeys::optional_binding(previous.switch_style) != hotkeys::optional_binding(
            next.switch_style,
        ),
        HotkeyUpdate::SwitchStyle,
    ) + step_if(
        hotkeys::optional_binding(previous.open_app) != hotkeys::optional_binding(next.open_app),
        HotkeyUpdate::OpenApp,
    ) + step_if(agent, HotkeyUpdate::CancelAgentCapture) + step_if(
        agent,
        HotkeyUpdate::CodingAgent,
    )
}

fn same_optional(a: &Option<ShortcutBinding>, b: &Option<ShortcutBinding>) -> (r: bool)
    ensures
        r == (hotkeys::optional_binding(*a) == hotkeys::optional_binding(*b)),
{
    match (a, b) {
        (Some(x), Some(y)) => x.same_as(y),
        (None, None) => true,
        _ => false,
    }
}

fn same_entries(a: &Vec<StylePackHotkey>, b: &Vec<StylePackHotkey>) -> (r: bool)
    ensures
        r == (style_pack_hotkeys::entry_views(a@) == style_pack_hotkeys::entry_views(b@)),
{
    let ghost left = style_pack_hotkeys::entry_views(a@);
    let ghost right = style_pack_hotkeys::entry_views(b@);
    if a.len() != b.len() {
        assert(left.len() != right.len());
        return false;
    }
    let mut i: usize = 0;
    while i < a.len()
        invariant
            i <= a.len(),
            a.len() == b.len(),
            left == style_pack_hotkeys::entry_views(a@),
            right == style_pack_hotkeys::entry_views(b@),
            forall|j: int| 0 <= j < i ==> #[trigger] left[j] == right[j],
        decreases a.len() - i,
    {
        if a[i].pack_id != b[i].pack_id || !a[i].binding.same_as(&b[i].binding) {
            assert(left[i as int] != right[i as int]);
            return false;
        }
        assert(left[i as int] == right[i as int]);
        i += 1;
    }
    assert(left =~= right);
    true
}

fn push_step(steps: &mut Vec<HotkeyUpdate>, changed: bool, step: HotkeyUpdate)
    ensures
        final(steps)@ == old(steps)@ + step_if(changed, step),
{
    if changed {
        steps.push(step);
    }
    assert(steps@ =~= old(steps)@ + step_if(changed, step));
}

/// The steps from `previous` to `next`.
pub fn hotkey_updates(
    previous: &HotkeyRuntimeTarget,
    next: &HotkeyRuntimeTarget,
    mobile: bool,
) -> (r: Vec<HotkeyUpdate>)
    ensures
        r@ == update_steps(*previous, *next, mobile),
{
    let dictation: bool = !previous.dictation.same_as(&next.dictation);
    let agent: bool = previous.coding_agent_enabled != next.coding_agent_enabled
        || !same_optional(&previous.coding_agent_voice, &next.coding_agent_voice);
    let mut steps: Vec<HotkeyUpdate> = Vec::new();
    push_step(
        &mut steps,
        !previous.translation.same_as(&next.translation),
        HotkeyUpdate::Translation,
    );
    push_step(
        &mut steps,
        !mobile && !same_optional(&previous.selection_polish, &next.selection_polish),
        HotkeyUpdate::SelectionPolish,
    );
    push_step(
        &mut steps,
        !same_entries(&previous.style_packs, &next.style_packs),
        HotkeyUpdate::StylePacks,
    );
    push_step(
        &mut steps,
        dictation || previous.dictation_mode != next.dictation_mode,
        HotkeyUpdate::Dictation,
    );
    push_step(&mut steps, dictation, HotkeyUpdate::Combination);
    push_step(&mut steps, !same_optional(&previous.qa, &next.qa), HotkeyUpdate::Qa);
    push_step(
        &mut steps,
        !same_optional(&previous.switch_style, &next.switch_style),
        HotkeyUpdate::SwitchStyle,
    );
    push_step(
        &mut steps,
        !same_optional(&previous.open_app, &next.open_app),
        HotkeyUpdate::OpenApp,
    );
    push_step(&mut steps, agent, HotkeyUpdate::CancelAgentCapture);
    push_step(&mut steps, agent, HotkeyUpdate::CodingAgent);
    assert(steps@ =~= update_steps(*previous, *next, mobile));
    steps
}

/// `perform` may run on `step` without ending the change.
pub open spec fn goes_on<F: Fn(HotkeyUpdate) -> Result<(), String>>(
    perform: F,
    step: HotkeyUpdate,
) -> bool {
    exists|outcome: Result<(), String>| #[trigger]
        call_ensures(perform, (step,), outcome) && (outcome is Ok || !step.ends_on_failure())
}

/// `perform` ran on the first `n` steps, and none of them ended the change.
pub open spec fn went_through<F: Fn(HotkeyUpdate) -> Result<(), String>>(
    perform: F,
    steps: Seq<HotkeyUpdate>,
    n: int,
) -> bool {
    forall|i: int| 0 <= i < n ==> goes_on(perform, #[trigger] steps[i])
}

/// Performs the steps from `previous` to `next`. The first step that fails ends the change where it
/// is one that can be taken back; what a failing step of the others says is left to its
/// supervisor.
pub fn apply_hotkey_runtime_change<F: Fn(HotkeyUpdate) -> Result<(), String>>(
    previous: &HotkeyRuntimeTarget,
    next: &HotkeyRuntimeTarget,
    mobile: bool,
    perform: F,
) -> (r: Result<(), String>)
    requires
        forall|n: int|
            0 <= n < update_steps(*previous, *next, mobile).len() && went_through(
                perform,
                update_steps(*previous, *next, mobile),
                n,
            ) ==> call_requires(
                perform,
                (#[trigger] update_steps(*previous, *next, mobile)[n],),
            ),
    ensures
        match r {
            Ok(_) => went_through(
                perform,
                update_steps(*previous, *next, mobile),
                update_steps(*previous, *next, mobile).len() as int,
            ),
            Err(error) => exists|n: int|
                {
                    &&& 0 <= n < update_steps(*previous, *next, mobile).len()
                    &&& went_through(perform, update_steps(*previous, *next, mobile), n)
                    &&& (#[trigger] update_steps(*previous, *next, mobile)[n]).ends_on_failure()
                    &&& call_ensures(
                        perform,
                        (update_steps(*previous, *next, mobile)[n],),
                        Err::<(), String>(error),
                    )
                },
        },
{
    let steps: Vec<HotkeyUpdate> = hotkey_updates(previous, next, mobile);
    run_steps(&steps, perform)
}

fn run_steps<F: Fn(HotkeyUpdate) -> Result<(), String>>(steps: &Vec<HotkeyUpdate>, perform: F) -> (r:
    Result<(), String>)
    requires
        forall|n: int|
            0 <= n < steps@.len() && went_through(perform, steps@, n) ==> call_requires(
                perform,
                (#[trigger] steps@[n],),
            ),
    ensures
        match r {
            Ok(_) => went_through(perform, steps@, steps@.len() as int),
            Err(error) => exists|n: int|
                {
                    &&& 0 <= n < steps@.len()
                    &&& went_through(perform, steps@, n)
                    &&& (#[trigger] steps@[n]).ends_on_failure()
                    &&& call_ensures(perform, (steps@[n],), Err::<(), String>(error))
                },
        },
{
    let mut i: usize = 0;
    while i < steps.len()
        invariant
            i <= steps.len(),
            went_through(perform, steps@, i as int),
            forall|n: int|
                0 <= n < steps@.len() && went_through(perform, steps@, n) ==> call_requires(
                    perform,
                    (#[trigger] steps@[n],),
                ),
        decreases steps.len() - i,
    {
        let step: HotkeyUpdate = steps[i];
        let outcome: Result<(), String> = perform(step);
        assert(outcome is Ok || !step.ends_on_failure() ==> goes_on(perform, step));
        match outcome {
            Ok(()) => {},
            Err(error) => {
                if step.is_transactional() {
                    return Err(error);
                }
            },
        }
        i += 1;
    }
    Ok(())
}

/// Taking a change back runs the very steps that made it, so that a half-made change is undone.
pub proof fn taking_back_runs_the_same_steps(
    previous: HotkeyRuntimeTarget,
    next: HotkeyRuntimeTarget,
    mobile: bool,
)
    ensures
        update_steps(previous, next, mobile) == update_steps(next, previous, mobile),
{
}

/// Nothing is touched where no shortcut changed.
pub proof fn unchanged_shortcuts_touch_no_listener(
    previous: HotkeyRuntimeTarget,
    next: HotkeyRuntimeTarget,
    mobile: bool,
)
    requires
        previous.dictation@ == next.dictation@,
        previous.dictation_mode == next.dictation_mode,
        hotkeys::optional_binding(previous.qa) == hotkeys::optional_binding(next.qa),
        hotkeys::optional_binding(previous.selection_polish) == hotkeys::optional_binding(
            next.selection_polish,
        ),
        previous.translation@ == next.translation@,
        hotkeys::optional_binding(previous.switch_style) == hotkeys::optional_binding(
            next.switch_style,
        ),
        hotkeys::optional_binding(previous.open_app) == hotkeys::optional_binding(next.open_app),
        style_pack_hotkeys::entry_views(previous.style_packs@) == style_pack_hotkeys::entry_views(
            next.style_packs@,
        ),
        previous.coding_agent_enabled == next.coding_agent_enabled,
        hotkeys::optional_binding(previous.coding_agent_voice) == hotkeys::optional_binding(
            next.coding_agent_voice,
        ),
    ensures
        update_steps(previous, next, mobile) == Seq::<HotkeyUpdate>::empty(),
{
    assert(update_steps(previous, next, mobile) =~= Seq::<HotkeyUpdate>::empty());
}

/// Which listener a combination for dictation needs.
#[derive(Debug, Clone, Copy, PartialEq, Eq, Structural)]
pub enum ComboPlan {
    /// None: the key is a lone modifier, or there is none. Both listeners close.
    Close,
    /// The one that tells left from right modifiers; the other closes.
    SideAware,
    /// The one of the system; the side aware one closes.
    System,
}

/// `trigger` is the trigger that the binding stands for, if any; `side_aware` tells whether the
/// binding names a side.
pub fn combo_plan(
    dictation: &ShortcutBinding,
    trigger: Option<HotkeyTrigger>,
    side_aware: bool,
) -> (r: ComboPlan)
    ensures
        r == (if trigger is Some || routing::is_unconfigured(dictation@) {
            ComboPlan::Close
        } else if side_aware {
            ComboPlan::SideAware
        } else {
            ComboPlan::System
        }),
{
    if trigger.is_some() || is_unconfigured_shortcut(dictation) {
        ComboPlan::Close
    } else if side_aware {
        ComboPlan::SideAware
    } else {
        ComboPlan::System
    }
}

/// Who listens for a shortcut.
#[derive(Debug, Clone, Copy, PartialEq, Eq, Structural)]
pub enum ListenerPlan {
    /// Nobody: the feature is off.
    Off,
    /// The main listener, as the shortcut is a lone modifier.
    MainListener,
    /// A listener of its own.
    Own,
}

/// Who listens for the shortcut of the question panel or of selection polish. `trigger` is the
/// trigger that the binding stands for, if any.
pub fn optional_shortcut_plan(
    binding: &Option<ShortcutBinding>,
    trigger: Option<HotkeyTrigger>,
) -> (r: ListenerPlan)
    ensures
        r == (if *binding is None {
            ListenerPlan::Off
        } else if trigger is Some {
            ListenerPlan::MainListener
        } else {
            ListenerPlan::Own
        }),
{
    if binding.is_none() {
        ListenerPlan::Off
    } else if trigger.is_some() {
        ListenerPlan::MainListener
    } else {
        ListenerPlan::Own
    }
}

/// Who listens for the translation shortcut.
pub fn translation_plan(binding: &ShortcutBinding, trigger: Option<HotkeyTrigger>) -> (r:
    ListenerPlan)
    ensures
        r == (if routing::listens_for_translation(binding@, trigger) {
            ListenerPlan::MainListener
        } else {
            ListenerPlan::Own
        }),
{
    if is_builtin_translation_shift(binding) || trigger.is_some() {
        ListenerPlan::MainListener
    } else {
        ListenerPlan::Own
    }
}

/// The shortcuts with an action of their own.
#[derive(Debug, Clone, Copy, PartialEq, Eq, Structural)]
pub enum ActionHotkeyKind {
    SwitchStyle,
    OpenApp,
}

/// The thread that hands on the presses of an action's shortcut.
pub fn action_hotkey_bridge_thread_name(kind: ActionHotkeyKind) -> (r: &'static str)
    ensures
        r@ == (match kind {
            ActionHotkeyKind::SwitchStyle => "openless-switch-style-hotkey-bridge"@,
            ActionHotkeyKind::OpenApp => "openless-open-app-hotkey-bridge"@,
        }),
{
    match kind {
        ActionHotkeyKind::SwitchStyle => "openless-switch-style-hotkey-bridge",
        ActionHotkeyKind::OpenApp => "openless-open-app-hotkey-bridge",
    }
}

/// The binding of an action.
pub fn action_hotkey_binding(target: &HotkeyRuntimeTarget, kind: ActionHotkeyKind) -> (r: &Option<
    ShortcutBinding,
>)
    ensures
        *r == (match kind {
            ActionHotkeyKind::SwitchStyle => target.switch_style,
            ActionHotkeyKind::OpenApp => target.open_app,
        }),
{
    match kind {
        ActionHotkeyKind::SwitchStyle => &target.switch_style,
        ActionHotkeyKind::OpenApp => &target.open_app,
    }
}

/// Who listens for an action's shortcut. A lone modifier is not supported there.
pub fn action_plan(binding: &Option<ShortcutBinding>, trigger: Option<HotkeyTrigger>) -> (r:
    ListenerPlan)
    ensures
        r == (match *binding {
            Some(b) => if routing::is_modifier_only(b@, trigger) {
                ListenerPlan::Off
            } else {
                ListenerPlan::Own
            },
            None => ListenerPlan::Off,
        }),
{
    match binding {
        Some(b) => if is_modifier_only_shortcut(b, trigger) {
            ListenerPlan::Off
        } else {
            ListenerPlan::Own
        },
        None => ListenerPlan::Off,
    }
}

/// What becomes of the listeners for the agent's voice key.
#[derive(Debug, Clone, PartialEq, Eq)]
pub enum CodingAgentPlan {
    /// Close them; `announce` asks for a line in the log.
    Close { announce: bool },
    /// Refuse the binding.
    Refuse(String),
    /// Listen for a lone modifier; the combination listener closes.
    Modifier(HotkeyBinding),
    /// Listen for a combination; the modifier listener closes.
    Combination,
}

/// Remembers whether the log already says that the agent's voice key is off.
#[derive(Debug, Clone, Copy, PartialEq, Eq)]
pub struct DisabledNotice {
    pub announced: bool,
}

impl DisabledNotice {
    /// What becomes of the listeners for the agent's voice key. `trigger` is the trigger that the
    /// binding stands for, if any, and `validity` what `validate_less_computer_hotkey` said of it.
    /// The log says once that the key is off, until a key is set again.
    pub fn coding_agent_plan(
        &mut self,
        target: &HotkeyRuntimeTarget,
        os: TargetOs,
        trigger: Option<HotkeyTrigger>,
        validity: Result<(), String>,
    ) -> (r: CodingAgentPlan)
        ensures
            if !(os is Macos || os is Windows) {
                r == (CodingAgentPlan::Close { announce: false }) && *final(self) == *old(self)
            } else if target.coding_agent_voice is None {
                r == (CodingAgentPlan::Close { announce: !old(self).announced })
                    && final(self).announced
            } else if !target.coding_agent_enabled || routing::is_unconfigured(
                target.coding_agent_voice->0@,
            ) {
                r == (CodingAgentPlan::Close { announce: false }) && *final(self) == *old(self)
            } else if validity is Err {
                r == CodingAgentPlan::Refuse(validity->Err_0) && *final(self) == *old(self)
            } else {
                &&& !final(self).announced
                &&& match trigger {
                    Some(t) => r matches CodingAgentPlan::Modifier(binding) && binding.trigger == t
                        && binding.mode is Hold && binding.keys is None,
                    None => r is Combination,
                }
            },
    {
        if os != TargetOs::Macos && os != TargetOs::Windows {
            return CodingAgentPlan::Close { announce: false };
        }
        let binding: &ShortcutBinding = match &target.coding_agent_voice {
            Some(binding) => binding,
            None => {
                let announce: bool = !self.announced;
                self.announced = true;
                return CodingAgentPlan::Close { announce };
            },
        };
        if !target.coding_agent_enabled || is_unconfigured_shortcut(binding) {
            return CodingAgentPlan::Close { announce: false };
        }
        match validity {
            Err(error) => {
                return CodingAgentPlan::Refuse(error);
            },
            Ok(_) => {},
        }
        self.announced = false;
        match less_computer_modifier_binding(trigger) {
            Some(binding) => CodingAgentPlan::Modifier(binding),
            None => CodingAgentPlan::Combination,
        }
    }
}

/// Whether a registration that waited for the main thread may still go ahead: only where the
/// shortcuts are those that it was asked for. A change, or the taking back of one, voids it.
pub fn registration_still_wanted(asked: &HotkeyRuntimeTarget, current: &HotkeyRuntimeTarget) -> (r:
    bool)
    ensures
        r == (asked.dictation@ == current.dictation@ && asked.dictation_mode
            == current.dictation_mode && hotkeys::optional_binding(asked.qa)
            == hotkeys::optional_binding(current.qa) && hotkeys::optional_binding(
            asked.selection_polish,
        ) == hotkeys::optional_binding(current.selection_polish) && asked.translation@
            == current.translation@ && hotkeys::optional_binding(asked.switch_style)
            == hotkeys::optional_binding(current.switch_style) && hotkeys::optional_binding(
            asked.open_app,
        ) == hotkeys::optional_binding(current.open_app) && style_pack_hotkeys::entry_views(
            asked.style_packs@,
        ) == style_pack_hotkeys::entry_views(current.style_packs@) && asked.coding_agent_enabled
            == current.coding_agent_enabled && hotkeys::optional_binding(asked.coding_agent_voice)
            == hotkeys::optional_binding(current.coding_agent_voice)),
{
    asked.dictation.same_as(&current.dictation) && asked.dictation_mode == current.dictation_mode
        && same_optional(&asked.qa, &current.qa) && same_optional(
        &asked.selection_polish,
        &current.selection_polish,
    ) && asked.translation.same_as(&current.translation) && same_optional(
        &asked.switch_style,
        &current.switch_style,
    ) && same_optional(&asked.open_app, &current.open_app) && same_entries(
        &asked.style_packs,
        &current.style_packs,
    ) && asked.coding_agent_enabled == current.coding_agent_enabled && same_optional(
        &asked.coding_agent_voice,
        &current.coding_agent_voice,
    )
}

/// What the main listener listens for. `trigger` is the trigger that the dictation binding stands
/// for; a combination is left to the combination listener.
pub fn main_listener_binding(trigger: Option<HotkeyTrigger>, mode: HotkeyMode) -> (r: HotkeyBinding)
    ensures
        r.trigger == (match trigger {
            Some(t) => t,
            None => HotkeyTrigger::Custom,
        }),
        r.mode == mode,
        r.keys is None,
{
    HotkeyBinding {
        trigger: match trigger {
            Some(t) => t,
            None => HotkeyTrigger::Custom,
        },
        mode,
        keys: None,
    }
}

/// The lone modifiers that the main listener watches beside the dictation trigger.
#[derive(Debug, Clone, Copy, PartialEq, Eq, Structural)]
pub struct ModifierTriggers {
    pub qa: Option<HotkeyTrigger>,
    pub selection_polish: Option<HotkeyTrigger>,
    pub translation: Option<HotkeyTrigger>,
}

/// `qa`, `selection_polish` and `translation` are the triggers that the bindings stand for, if any.
/// Plain Shift is always watched for translation and is no trigger of its own.
pub fn modifier_shortcut_triggers(
    target: &HotkeyRuntimeTarget,
    qa: Option<HotkeyTrigger>,
    selection_polish: Option<HotkeyTrigger>,
    translation: Option<HotkeyTrigger>,
) -> (r: ModifierTriggers)
    ensures
        r.qa == (if target.qa is Some {
            qa
        } else {
            None
        }),
        r.selection_polish == (if target.selection_polish is Some {
            selection_polish
        } else {
            None
        }),
        r.translation == (if routing::is_translation_shift(target.translation@) {
            None
        } else {
            translation
        }),
{
    ModifierTriggers {
        qa: if target.qa.is_some() {
            qa
        } else {
            None
        },
        selection_polish: if target.selection_polish.is_some() {
            selection_polish
        } else {
            None
        },
        translation: if is_builtin_translation_shift(&target.translation) {
            None
        } else {
            translation
        },
    }
}

/// The own listeners to be bound anew, so that none believes its key to be down.
#[derive(Debug, Clone, Copy, PartialEq, Eq, Structural)]
pub struct HeldKeyReset {
    pub qa: bool,
    pub translation: bool,
    pub switch_style: bool,
    pub open_app: bool,
}

/// The own listeners to be bound anew when a shortcut is about to be recorded. The triggers are
/// those that the bindings stand for, if any.
pub fn reset_shortcut_held_state(
    target: &HotkeyRuntimeTarget,
    qa: Option<HotkeyTrigger>,
    translation: Option<HotkeyTrigger>,
    switch_style: Option<HotkeyTrigger>,
    open_app: Option<HotkeyTrigger>,
) -> (r: HeldKeyReset)
    ensures
        r.qa == (target.qa is Some && qa is None),
        r.translation == !routing::listens_for_translation(target.translation@, translation),
        r.switch_style == (target.switch_style matches Some(b) && !routing::is_modifier_only(
            b@,
            switch_style,
        )),
        r.open_app == (target.open_app matches Some(b) && !routing::is_modifier_only(b@, open_app)),
{
    HeldKeyReset {
        qa: target.qa.is_some() && qa.is_none(),
        translation: !is_builtin_translation_shift(&target.translation) && translation.is_none(),
        switch_style: action_plan(&target.switch_style, switch_style) == ListenerPlan::Own,
        open_app: action_plan(&target.open_app, open_app) == ListenerPlan::Own,
    }
}

impl HotkeyStatus {
    /// The main listener is being installed, after `attempts` failed attempts.
    pub fn installing(adapter: HotkeyAdapterKind, attempts: u32) -> (r: HotkeyStatus)
        ensures
            r.adapter == adapter,
            r.state is Starting,
            text::optional_text(r.message) == Some(
                "正在安装全局快捷键监听（第 "@ + text::decimal((attempts + 1) as nat) + " 次）"@,
            ),
            r.last_error is None,
    {
        let mut message: String = "正在安装全局快捷键监听（第 ".to_owned();
        message.append(to_decimal(attempts as u64 + 1).as_str());
        message.append(" 次）");
        HotkeyStatus {
            adapter,
            state: HotkeyStatusState::Starting,
            message: Some(message),
            last_error: None,
        }
    }

    /// The main listener is there.
    pub fn installed(adapter: HotkeyAdapterKind) -> (r: HotkeyStatus)
        ensures
            r.adapter == adapter,
            r.state is Installed,
            text::optional_text(r.message) == Some(adapter.shown_name() + " 已安装"@),
            r.last_error is None,
    {
        let mut message: String = adapter.display_name().to_owned();
        message.append(" 已安装");
        HotkeyStatus {
            adapter,
            state: HotkeyStatusState::Installed,
            message: Some(message),
            last_error: None,
        }
    }

    /// The main listener could not be installed.
    pub fn failed(adapter: HotkeyAdapterKind, error: HotkeyInstallError) -> (r: HotkeyStatus)
        ensures
            r.adapter == adapter,
            r.state is Failed,
            text::optional_text(r.message) == Some(error.message@),
            r.last_error == Some(error),
    {
        HotkeyStatus {
            adapter,
            state: HotkeyStatusState::Failed,
            message: Some(error.message.clone()),
            last_error: Some(error),
        }
    }

    /// The input method plugin that listens on Linux does not answer.
    pub fn fcitx_unavailable(adapter: HotkeyAdapterKind) -> (r: HotkeyStatus)
        ensures
            r.adapter == adapter,
            r.state is Failed,
            text::optional_text(r.message) == Some(
                "fcitx5 插件不可用 — 请确保 fcitx5 已安装且在运行"@,
            ),
            r.last_error matches Some(error) && error.code@ == "fcitx5_unavailable"@
                && error.message@ == "fcitx5 插件 DBus 接口无响应"@,
    {
        HotkeyStatus {
            adapter,
            state: HotkeyStatusState::Failed,
            message: Some("fcitx5 插件不可用 — 请确保 fcitx5 已安装且在运行".to_owned()),
            last_error: Some(
                HotkeyInstallError {
                    code: "fcitx5_unavailable".to_owned(),
                    message: "fcitx5 插件 DBus 接口无响应".to_owned(),
                },
            ),
        }
    }
}

/// Two lists of style pack shortcuts are the same: the same packs with the same keys, in the same
/// order.
pub open spec fn same_packs(a: Seq<StylePackHotkey>, b: Seq<StylePackHotkey>) -> bool {
    &&& a.len() == b.len()
    &&& forall|i: int|
        0 <= i < a.len() ==> (#[trigger] a[i]).pack_id@ == b[i].pack_id@ && hotkeys::same_keys(
            a[i].binding,
            b[i].binding,
        )
}

proof fn lemma_same_packs(a: Seq<StylePackHotkey>, b: Seq<StylePackHotkey>)
    ensures
        style_pack_hotkeys::entry_views(a) == style_pack_hotkeys::entry_views(b) <==> same_packs(
            a,
            b,
        ),
{
    let x = style_pack_hotkeys::entry_views(a);
    let y = style_pack_hotkeys::entry_views(b);
    assert(x.len() == a.len() && y.len() == b.len());
    assert forall|i: int| 0 <= i < a.len() && i < b.len() implies (#[trigger] x[i] == y[i]) == (
    a[i].pack_id@ == b[i].pack_id@ && hotkeys::same_keys(a[i].binding, b[i].binding)) by {
        hotkeys::shortcuts_are_their_keys(a[i].binding, b[i].binding);
    }
    if same_packs(a, b) {
        assert forall|i: int| 0 <= i < x.len() implies x[i] == y[i] by {
            assert(a[i].pack_id@ == b[i].pack_id@);
        }
        assert(x =~= y);
    }
    if x == y {
        assert forall|i: int| 0 <= i < a.len() implies (#[trigger] a[i]).pack_id@ == b[i].pack_id@
            && hotkeys::same_keys(a[i].binding, b[i].binding) by {
            assert(x[i] == y[i]);
        }
    }
}

/// The place of a step among all steps, in the order in which they are taken.
pub open spec fn place_of(step: HotkeyUpdate) -> int {
    match step {
        HotkeyUpdate::Translation => 0,
        HotkeyUpdate::SelectionPolish => 1,
        HotkeyUpdate::StylePacks => 2,
        HotkeyUpdate::Dictation => 3,
        HotkeyUpdate::Combination => 4,
        HotkeyUpdate::Qa => 5,
        HotkeyUpdate::SwitchStyle => 6,
        HotkeyUpdate::OpenApp => 7,
        HotkeyUpdate::CancelAgentCapture => 8,
        HotkeyUpdate::CodingAgent => 9,
    }
}

#[verifier::opaque]
spec fn in_order(steps: Seq<HotkeyUpdate>, below: int) -> bool {
    &&& forall|i: int| 0 <= i < steps.len() ==> place_of(#[trigger] steps[i]) < below
    &&& forall|i: int, j: int|
        0 <= i < j < steps.len() ==> place_of(#[trigger] steps[i]) < place_of(#[trigger] steps[j])
}

proof fn lemma_one_more(steps: Seq<HotkeyUpdate>, changed: bool, step: HotkeyUpdate)
    requires
        in_order(steps, place_of(step)),
    ensures
        in_order(steps + step_if(changed, step), place_of(step) + 1),
        forall|other: HotkeyUpdate| #[trigger]
            (steps + step_if(changed, step)).contains(other) <==> steps.contains(other) || changed
                && other == step,
{
    reveal(in_order);
    let more = steps + step_if(changed, step);
    assert forall|other: HotkeyUpdate| #[trigger] more.contains(other) <==> steps.contains(other)
        || changed && other == step by {
        if more.contains(other) {
            let i = choose|i: int| 0 <= i < more.len() && more[i] == other;
            if i < steps.len() {
                assert(steps[i] == other);
            }
        }
        if steps.contains(other) {
            let i = choose|i: int| 0 <= i < steps.len() && steps[i] == other;
            assert(more[i] == other);
        }
        if changed && other == step {
            assert(more[steps.len() as int] == step);
        }
    }
}

/// The listeners that are updated are those whose shortcut differs, for each shortcut by itself:
/// each step is there if and only if the keys that it is about differ, and the steps come in a fixed
/// order, none of them twice.
pub proof fn listeners_are_updated_where_their_shortcut_differs(
    previous: &HotkeyRuntimeTarget,
    next: &HotkeyRuntimeTarget,
    mobile: bool,
    r: Vec<HotkeyUpdate>,
)
    requires
        call_ensures(hotkey_updates, (previous, next, mobile), r),
    ensures
        r@.contains(HotkeyUpdate::Translation) <==> !hotkeys::same_keys(
            previous.translation,
            next.translation,
        ),
        r@.contains(HotkeyUpdate::SelectionPolish) <==> !mobile && !hotkeys::same_shortcut(
            previous.selection_polish,
            next.selection_polish,
        ),
        r@.contains(HotkeyUpdate::StylePacks) <==> !same_packs(
            previous.style_packs@,
            next.style_packs@,
        ),
        r@.contains(HotkeyUpdate::Dictation) <==> !hotkeys::same_keys(
            previous.dictation,
            next.dictation,
        ) || previous.dictation_mode != next.dictation_mode,
        r@.contains(HotkeyUpdate::Combination) <==> !hotkeys::same_keys(
            previous.dictation,
            next.dictation,
        ),
        r@.contains(HotkeyUpdate::Qa) <==> !hotkeys::same_shortcut(previous.qa, next.qa),
        r@.contains(HotkeyUpdate::SwitchStyle) <==> !hotkeys::same_shortcut(
            previous.switch_style,
            next.switch_style,
        ),
        r@.contains(HotkeyUpdate::OpenApp) <==> !hotkeys::same_shortcut(
            previous.open_app,
            next.open_app,
        ),
        r@.contains(HotkeyUpdate::CodingAgent) <==> previous.coding_agent_enabled
            != next.coding_agent_enabled || !hotkeys::same_shortcut(
            previous.coding_agent_voice,
            next.coding_agent_voice,
        ),
        r@.contains(HotkeyUpdate::CancelAgentCapture) <==> r@.contains(HotkeyUpdate::CodingAgent),
        forall|i: int, j: int|
            0 <= i < j < r@.len() ==> place_of(#[trigger] r@[i]) < place_of(#[trigger] r@[j]),
{
    hotkeys::shortcuts_are_their_keys(previous.translation, next.translation);
    hotkeys::shortcuts_are_their_keys(previous.dictation, next.dictation);
    hotkeys::missing_shortcuts_are_told_apart(previous.selection_polish, next.selection_polish);
    hotkeys::missing_shortcuts_are_told_apart(previous.qa, next.qa);
    hotkeys::missing_shortcuts_are_told_apart(previous.switch_style, next.switch_style);
    hotkeys::missing_shortcuts_are_told_apart(previous.open_app, next.open_app);
    hotkeys::missing_shortcuts_are_told_apart(previous.coding_agent_voice, next.coding_agent_voice);
    lemma_same_packs(previous.style_packs@, next.style_packs@);
    lemma_steps(*previous, *next, mobile);
    reveal(in_order);
}

proof fn lemma_steps(previous: HotkeyRuntimeTarget, next: HotkeyRuntimeTarget, mobile: bool)
    ensures
        ({
            let steps = update_steps(previous, next, mobile);
            let dictation = previous.dictation@ != next.dictation@;
            let agent = previous.coding_agent_enabled != next.coding_agent_enabled
                || hotkeys::optional_binding(previous.coding_agent_voice)
                != hotkeys::optional_binding(next.coding_agent_voice);
            &&& in_order(steps, 10)
            &&& steps.contains(HotkeyUpdate::Translation) <==> previous.translation@
                != next.translation@
            &&& steps.contains(HotkeyUpdate::SelectionPolish) <==> !mobile
                && hotkeys::optional_binding(previous.selection_polish)
                != hotkeys::optional_binding(next.selection_polish)
            &&& steps.contains(HotkeyUpdate::StylePacks) <==> style_pack_hotkeys::entry_views(
                previous.style_packs@,
            ) != style_pack_hotkeys::entry_views(next.style_packs@)
            &&& steps.contains(HotkeyUpdate::Dictation) <==> dictation || previous.dictation_mode
                != next.dictation_mode
            &&& steps.contains(HotkeyUpdate::Combination) <==> dictation
            &&& steps.contains(HotkeyUpdate::Qa) <==> hotkeys::optional_binding(previous.qa)
                != hotkeys::optional_binding(next.qa)
            &&& steps.contains(HotkeyUpdate::SwitchStyle) <==> hotkeys::optional_binding(
                previous.switch_style,
            ) != hotkeys::optional_binding(next.switch_style)
            &&& steps.contains(HotkeyUpdate::OpenApp) <==> hotkeys::optional_binding(
                previous.open_app,
            ) != hotkeys::optional_binding(next.open_app)
            &&& steps.contains(HotkeyUpdate::CancelAgentCapture) <==> agent
            &&& steps.contains(HotkeyUpdate::CodingAgent) <==> agent
        }),
{
    let dictation = previous.dictation@ != next.dictation@;
    let agent = previous.coding_agent_enabled != next.coding_agent_enabled
        || hotkeys::optional_binding(previous.coding_agent_voice) != hotkeys::optional_binding(
        next.coding_agent_voice,
    );
    let translation = previous.translation@ != next.translation@;
    let polish = !mobile && hotkeys::optional_binding(previous.selection_polish)
        != hotkeys::optional_binding(next.selection_polish);
    let packs = style_pack_hotkeys::entry_views(previous.style_packs@)
        != style_pack_hotkeys::entry_views(next.style_packs@);
    let qa = hotkeys::optional_binding(previous.qa) != hotkeys::optional_binding(next.qa);
    let style = hotkeys::optional_binding(previous.switch_style) != hotkeys::optional_binding(
        next.switch_style,
    );
    let app = hotkeys::optional_binding(previous.open_app) != hotkeys::optional_binding(
        next.open_app,
    );
    let mode = dictation || previous.dictation_mode != next.dictation_mode;
    let none = Seq::<HotkeyUpdate>::empty();
    assert(in_order(none, 0)) by {
        reveal(in_order);
    }
    lemma_one_more(none, translation, HotkeyUpdate::Translation);
    let s0 = step_if(translation, HotkeyUpdate::Translation);
    assert(none + s0 =~= s0);
    lemma_one_more(s0, polish, HotkeyUpdate::SelectionPolish);
    let s1 = s0 + step_if(polish, HotkeyUpdate::SelectionPolish);
    lemma_one_more(s1, packs, HotkeyUpdate::StylePacks);
    let s2 = s1 + step_if(packs, HotkeyUpdate::StylePacks);
    lemma_one_more(s2, mode, HotkeyUpdate::Dictation);
    let s3 = s2 + step_if(mode, HotkeyUpdate::Dictation);
    lemma_one_more(s3, dictation, HotkeyUpdate::Combination);
    let s4 = s3 + step_if(dictation, HotkeyUpdate::Combination);
    lemma_one_more(s4, qa, HotkeyUpdate::Qa);
    let s5 = s4 + step_if(qa, HotkeyUpdate::Qa);
    lemma_one_more(s5, style, HotkeyUpdate::SwitchStyle);
    let s6 = s5 + step_if(style, HotkeyUpdate::SwitchStyle);
    lemma_one_more(s6, app, HotkeyUpdate::OpenApp);
    let s7 = s6 + step_if(app, HotkeyUpdate::OpenApp);
    lemma_one_more(s7, agent, HotkeyUpdate::CancelAgentCapture);
    let s8 = s7 + step_if(agent, HotkeyUpdate::CancelAgentCapture);
    lemma_one_more(s8, agent, HotkeyUpdate::CodingAgent);
    let s9 = s8 + step_if(agent, HotkeyUpdate::CodingAgent);
    assert(update_steps(previous, next, mobile) == s9);
}

/// A registration is still wanted where no listener would have to be updated.
pub proof fn registrations_are_wanted_while_nothing_differs(
    asked: &HotkeyRuntimeTarget,
    current: &HotkeyRuntimeTarget,
    wanted: bool,
    steps: Vec<HotkeyUpdate>,
)
    requires
        call_ensures(registration_still_wanted, (asked, current), wanted),
        call_ensures(hotkey_updates, (asked, current, false), steps),
    ensures
        wanted <==> steps@.len() == 0,
{
    lemma_steps(*asked, *current, false);
    if !wanted && steps@.len() == 0 {
        assert(!steps@.contains(HotkeyUpdate::Dictation));
        assert(!steps@.contains(HotkeyUpdate::Translation));
        assert(!steps@.contains(HotkeyUpdate::SelectionPolish));
        assert(!steps@.contains(HotkeyUpdate::StylePacks));
        assert(!steps@.contains(HotkeyUpdate::Qa));
        assert(!steps@.contains(HotkeyUpdate::SwitchStyle));
        assert(!steps@.contains(HotkeyUpdate::OpenApp));
        assert(!steps@.contains(HotkeyUpdate::CodingAgent));
    }
    if wanted {
        unchanged_shortcuts_touch_no_listener(*asked, *current, false);
    }
}

/// A failure ends the change at the translation key, selection polish, the style packs and the
/// coding agent; at every other step it goes on.
pub proof fn four_steps_end_on_failure(step: HotkeyUpdate, r: bool)
    requires
        call_ensures(HotkeyUpdate::is_transactional, (step,), r),
    ensures
        step is Translation || step is SelectionPolish || step is StylePacks || step is CodingAgent
            ==> r,
        step is Dictation || step is Combination || step is Qa || step is SwitchStyle || step
            is OpenApp || step is CancelAgentCapture ==> !r,
{
}

/// A change of the shortcuts takes every step that there is, where each succeeds; and it fails only
/// where a step that ends on failure did, with the error of that step.
pub proof fn changes_fail_with_their_step<F: Fn(HotkeyUpdate) -> Result<(), String>>(
    previous: &HotkeyRuntimeTarget,
    next: &HotkeyRuntimeTarget,
    mobile: bool,
    perform: F,
    steps: Vec<HotkeyUpdate>,
    r: Result<(), String>,
)
    requires
        call_ensures(hotkey_updates, (previous, next, mobile), steps),
        call_ensures(
            apply_hotkey_runtime_change::<F>,
            (previous, next, mobile, perform),
            r,
        ),
    ensures
        r is Ok ==> forall|step: HotkeyUpdate| #[trigger]
            steps@.contains(step) ==> exists|outcome: Result<(), String>| #[trigger]
                call_ensures(perform, (step,), outcome) && (outcome is Ok || !(step is Translation
                    || step is SelectionPolish || step is StylePacks || step is CodingAgent)),
        r matches Err(error) ==> exists|i: int|
            {
                &&& 0 <= i < steps@.len()
                &&& #[trigger] steps@[i] is Translation || steps@[i] is SelectionPolish || steps@[i]
                    is StylePacks || steps@[i] is CodingAgent
                &&& call_ensures(perform, (steps@[i],), Err::<(), String>(error))
            },
{
    if r is Ok {
        assert forall|step: HotkeyUpdate| #[trigger] steps@.contains(step) implies exists|
            outcome: Result<(), String>,
        | #[trigger]
            call_ensures(perform, (step,), outcome) && (outcome is Ok || !(step is Translation
                || step is SelectionPolish || step is StylePacks || step is CodingAgent)) by {
            let i = choose|i: int| 0 <= i < steps@.len() && steps@[i] == step;
            assert(goes_on(perform, update_steps(*previous, *next, mobile)[i]));
        }
    }
}

/// A dictation shortcut that stands for a trigger is left to the main listener, and so is one that
/// is not set; another one is listened for by itself, side by side where sides matter.
pub proof fn combinations_are_listened_for_by_themselves(
    dictation: &ShortcutBinding,
    trigger: Option<HotkeyTrigger>,
    side_aware: bool,
    unset: bool,
    r: ComboPlan,
)
    requires
        call_ensures(is_unconfigured_shortcut, (dictation,), unset),
        call_ensures(combo_plan, (dictation, trigger, side_aware), r),
    ensures
        r is Close <==> trigger is Some || unset,
        trigger is None && !unset ==> (r is SideAware <==> side_aware),
        trigger is None && !unset ==> (r is System <==> !side_aware),
{
}

/// A shortcut that may be missing is off then, left to the main listener where it stands for a
/// trigger, and has a listener of its own otherwise. Shift alone as translation key is the main
/// listener's too. A shortcut for an action is no lone modifier.
pub proof fn shortcuts_have_one_listener(
    binding: ShortcutBinding,
    trigger: Option<HotkeyTrigger>,
    shift: bool,
    alone: bool,
    missing: ListenerPlan,
    there: ListenerPlan,
    translation: ListenerPlan,
    no_action: ListenerPlan,
    action: ListenerPlan,
)
    requires
        call_ensures(is_builtin_translation_shift, (&binding,), shift),
        call_ensures(is_modifier_only_shortcut, (&binding, trigger), alone),
        call_ensures(optional_shortcut_plan, (&None, trigger), missing),
        call_ensures(optional_shortcut_plan, (&Some(binding), trigger), there),
        call_ensures(translation_plan, (&binding, trigger), translation),
        call_ensures(action_plan, (&None, trigger), no_action),
        call_ensures(action_plan, (&Some(binding), trigger), action),
    ensures
        missing is Off && no_action is Off,
        there is MainListener <==> trigger is Some,
        there is Own <==> trigger is None,
        translation is MainListener <==> shift || trigger is Some,
        translation is Own <==> !shift && trigger is None,
        action is Off <==> alone,
        action is Own <==> !alone,
{
}

/// The two actions have a shortcut and a thread name each.
pub proof fn actions_keep_to_their_own_shortcut(
    target: &HotkeyRuntimeTarget,
    switch_style: &Option<ShortcutBinding>,
    open_app: &Option<ShortcutBinding>,
    switch_thread: &'static str,
    app_thread: &'static str,
)
    requires
        call_ensures(action_hotkey_binding, (target, ActionHotkeyKind::SwitchStyle), switch_style),
        call_ensures(action_hotkey_binding, (target, ActionHotkeyKind::OpenApp), open_app),
        call_ensures(
            action_hotkey_bridge_thread_name,
            (ActionHotkeyKind::SwitchStyle,),
            switch_thread,
        ),
        call_ensures(action_hotkey_bridge_thread_name, (ActionHotkeyKind::OpenApp,), app_thread),
    ensures
        *switch_style == target.switch_style,
        *open_app == target.open_app,
        switch_thread@ == "openless-switch-style-hotkey-bridge"@,
        app_thread@ == "openless-open-app-hotkey-bridge"@,
{
}

/// The coding agent listens on macOS and Windows, where it is switched on and has a valid key. That
/// it has none is announced once; an invalid key is refused with what is wrong with it.
pub proof fn the_coding_agent_listens_where_it_can(
    first: &mut DisabledNotice,
    second: &mut DisabledNotice,
    target: &HotkeyRuntimeTarget,
    os: TargetOs,
    trigger: Option<HotkeyTrigger>,
    validity: Result<(), String>,
    r: CodingAgentPlan,
    again: CodingAgentPlan,
)
    requires
        call_ensures(
            DisabledNotice::coding_agent_plan,
            (first, target, os, trigger, validity),
            r,
        ),
        *old(second) == *final(first),
        call_ensures(
            DisabledNotice::coding_agent_plan,
            (second, target, os, trigger, validity),
            again,
        ),
    ensures
        r is Modifier || r is Combination ==> (os is Macos || os is Windows)
            && target.coding_agent_enabled && target.coding_agent_voice is Some && validity is Ok
            && !text::is_blank(target.coding_agent_voice->0.primary@) && !final(first).announced,
        (os is Macos || os is Windows) && target.coding_agent_enabled && target.coding_agent_voice
            is Some && validity is Ok && !text::is_blank(target.coding_agent_voice->0.primary@) ==> (
        r is Modifier <==> trigger is Some) && (r is Combination <==> trigger is None),
        r matches CodingAgentPlan::Modifier(binding) ==> binding.trigger == trigger->0
            && binding.mode is Hold && binding.keys is None,
        r matches CodingAgentPlan::Refuse(error) ==> validity is Err && error@ == validity->Err_0@
            && target.coding_agent_enabled,
        (os is Macos || os is Windows) && target.coding_agent_voice is None ==> r == (
        CodingAgentPlan::Close { announce: !old(first).announced }) && again == (
        CodingAgentPlan::Close { announce: false }),
        r == (CodingAgentPlan::Close { announce: true }) ==> target.coding_agent_voice is None,
        (os is Macos || os is Windows) && target.coding_agent_enabled && target.coding_agent_voice
            is Some && validity is Err && !text::is_blank(target.coding_agent_voice->0.primary@)
            ==> r is Refuse,
        !(os is Macos || os is Windows) ==> r is Close,
        target.coding_agent_voice is Some && (!target.coding_agent_enabled || text::is_blank(
            target.coding_agent_voice->0.primary@,
        )) ==> r is Close,
{
}

/// The main listener listens for the trigger of dictation, or for a custom key where dictation has
/// none, in the mode of dictation.
pub proof fn the_main_listener_keeps_the_mode(
    trigger: HotkeyTrigger,
    mode: HotkeyMode,
    some: HotkeyBinding,
    none: HotkeyBinding,
)
    requires
        call_ensures(main_listener_binding, (Some(trigger), mode), some),
        call_ensures(main_listener_binding, (None, mode), none),
    ensures
        some.trigger == trigger && none.trigger is Custom,
        some.mode == mode && none.mode == mode,
        some.keys is None && none.keys is None,
{
}

/// The main listener is told the triggers of the shortcuts that are set; Shift alone, which it
/// watches anyway, is not among them. Held keys are forgotten for the shortcuts that have a listener
/// of their own.
pub proof fn triggers_and_held_keys_go_by_listener(
    target: &HotkeyRuntimeTarget,
    qa: Option<HotkeyTrigger>,
    polish: Option<HotkeyTrigger>,
    translation: Option<HotkeyTrigger>,
    switch_style: Option<HotkeyTrigger>,
    open_app: Option<HotkeyTrigger>,
    shift: bool,
    qa_plan: ListenerPlan,
    translation_plan_now: ListenerPlan,
    style_plan: ListenerPlan,
    app_plan: ListenerPlan,
    triggers: ModifierTriggers,
    reset: HeldKeyReset,
)
    requires
        call_ensures(is_builtin_translation_shift, (&target.translation,), shift),
        call_ensures(optional_shortcut_plan, (&target.qa, qa), qa_plan),
        call_ensures(translation_plan, (&target.translation, translation), translation_plan_now),
        call_ensures(action_plan, (&target.switch_style, switch_style), style_plan),
        call_ensures(action_plan, (&target.open_app, open_app), app_plan),
        call_ensures(modifier_shortcut_triggers, (target, qa, polish, translation), triggers),
        call_ensures(
            reset_shortcut_held_state,
            (target, qa, translation, switch_style, open_app),
            reset,
        ),
    ensures
        target.qa is Some ==> triggers.qa == qa,
        target.qa is None ==> triggers.qa is None,
        target.selection_polish is Some ==> triggers.selection_polish == polish,
        target.selection_polish is None ==> triggers.selection_polish is None,
        shift ==> triggers.translation is None,
        !shift ==> triggers.translation == translation,
        reset.qa <==> qa_plan is Own,
        reset.translation <==> translation_plan_now is Own,
        reset.switch_style <==> style_plan is Own,
        reset.open_app <==> app_plan is Own,
{
}

/// The status of an installation: under way with the number of the attempt, done with the name of
/// the adapter, or failed with the error.
pub proof fn statuses_tell_how_the_installation_stands(
    adapter: HotkeyAdapterKind,
    attempts: u32,
    number: String,
    name: &'static str,
    error: HotkeyInstallError,
    installing: HotkeyStatus,
    installed: HotkeyStatus,
    failed: HotkeyStatus,
    unavailable: HotkeyStatus,
)
    requires
        call_ensures(text::to_decimal, ((attempts + 1) as u64,), number),
        call_ensures(HotkeyAdapterKind::display_name, (&adapter,), name),
        call_ensures(HotkeyStatus::installing, (adapter, attempts), installing),
        call_ensures(HotkeyStatus::installed, (adapter,), installed),
        call_ensures(HotkeyStatus::failed, (adapter, error), failed),
        call_ensures(HotkeyStatus::fcitx_unavailable, (adapter,), unavailable),
    ensures
        installing.adapter == adapter && installing.state is Starting && installing.last_error
            is None,
        installing.message is Some && installing.message->0@ == "正在安装全局快捷键监听（第 "@ + number@
            + " 次）"@,
        installed.adapter == adapter && installed.state is Installed && installed.last_error is None,
        installed.message is Some && installed.message->0@ == name@ + " 已安装"@,
        failed.adapter == adapter && failed.state is Failed && failed.last_error == Some(error),
        failed.message is Some && failed.message->0@ == error.message@,
        unavailable.adapter == adapter && unavailable.state is Failed && unavailable.last_error
            is Some && unavailable.last_error->0.code@ == "fcitx5_unavailable"@
            && unavailable.last_error->0.message@ == "fcitx5 插件 DBus 接口无响应"@,
        unavailable.message is Some && unavailable.message->0@
            == "fcitx5 插件不可用 — 请确保 fcitx5 已安装且在运行"@,
{
}

} // verus!
