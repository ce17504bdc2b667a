//! Where a key event goes.

use vstd::prelude::*;

use crate::hotkeys::{self, HotkeyBinding, HotkeyMode, HotkeyTrigger, ShortcutBinding};
use crate::platform::{HotkeyCapability, TargetOs};
use crate::text::{self, blank, equal_ignoring_ascii_case, same, trim};

verus! {

/// Shift alone, which the main listener watches for translation.
pub open spec fn is_translation_shift(keys: hotkeys::KeyCombination) -> bool {
    keys.modifiers.len() == 0 && text::same_ignoring_ascii_case(keys.primary, "shift"@)
}

/// A lone modifier. `trigger` is the trigger that the binding stands for, if any.
pub open spec fn is_modifier_only(
    keys: hotkeys::KeyCombination,
    trigger: Option<HotkeyTrigger>,
) -> bool {
    keys.modifiers.len() == 0 && (text::same_ignoring_ascii_case(keys.primary, "shift"@)
        || trigger is Some)
}

/// No key was chosen.
pub open spec fn is_unconfigured(keys: hotkeys::KeyCombination) -> bool {
    text::is_blank(keys.primary)
}

pub fn is_builtin_translation_shift(binding: &ShortcutBinding) -> (r: bool)
    ensures
        r == is_translation_shift(binding@),
{
    assert(text::texts(binding.modifiers@).len() == binding.modifiers.len());
    binding.modifiers.len() == 0 && equal_ignoring_ascii_case(binding.primary.as_str(), "shift")
}

/// Whether the binding is a lone modifier. `trigger` is the trigger that it stands for, if any.
pub fn is_modifier_only_shortcut(binding: &ShortcutBinding, trigger: Option<HotkeyTrigger>) -> (r:
    bool)
    ensures
        r == is_modifier_only(binding@, trigger),
{
    assert(text::texts(binding.modifiers@).len() == binding.modifiers.len());
    binding.modifiers.len() == 0 && (equal_ignoring_ascii_case(binding.primary.as_str(), "shift")
        || trigger.is_some())
}

pub fn is_unconfigured_shortcut(binding: &ShortcutBinding) -> (r: bool)
    ensures
        r == is_unconfigured(binding@),
{
    blank(binding.primary.as_str())
}

/// What the main listener reports.
#[derive(Debug, Clone, Copy, PartialEq, Eq, Structural)]
pub enum HotkeyEvent {
    Pressed { press_id: u64, at: u64 },
    Released { press_id: u64, at: u64 },
    TranslationModifierPressed,
    QaShortcutPressed,
    SelectionPolishShortcutPressed,
    SelectionPolishShortcutReleased,
    /// Fn went down while the settings page records a shortcut.
    FnRecordingPressed,
}

/// Who handles an event of the main listener.
#[derive(Debug, Clone, Copy, PartialEq, Eq, Structural)]
pub enum HotkeyRoute {
    Ignore,
    ReportFnKey,
    DictationPressed { press_id: u64, at: u64 },
    DictationReleased { press_id: u64, at: u64 },
    ArmTranslation,
    AskAboutSelection,
    SelectionPressed,
    SelectionReleased,
}

/// Whether the main listener watches the translation key.
pub open spec fn listens_for_translation(
    translation: hotkeys::KeyCombination,
    trigger: Option<HotkeyTrigger>,
) -> bool {
    is_translation_shift(translation) || trigger is Some
}

/// Who handles an event. While the settings page records a shortcut, nothing but the Fn key is
/// reported and nothing is triggered.
pub open spec fn route_of(
    recording_shortcut: bool,
    event: HotkeyEvent,
    translation: hotkeys::KeyCombination,
    translation_trigger: Option<HotkeyTrigger>,
) -> HotkeyRoute {
    if recording_shortcut {
        if event is FnRecordingPressed {
            HotkeyRoute::ReportFnKey
        } else {
            HotkeyRoute::Ignore
        }
    } else {
        match event {
            HotkeyEvent::Pressed { press_id, at } => HotkeyRoute::DictationPressed { press_id, at },
            HotkeyEvent::Released { press_id, at } => HotkeyRoute::DictationReleased {
                press_id,
                at,
            },
            HotkeyEvent::TranslationModifierPressed => if listens_for_translation(
                translation,
                translation_trigger,
            ) {
                HotkeyRoute::ArmTranslation
            } else {
                HotkeyRoute::Ignore
            },
            HotkeyEvent::QaShortcutPressed => HotkeyRoute::AskAboutSelection,
            HotkeyEvent::SelectionPolishShortcutPressed => HotkeyRoute::SelectionPressed,
            HotkeyEvent::SelectionPolishShortcutReleased => HotkeyRoute::SelectionReleased,
            HotkeyEvent::FnRecordingPressed => HotkeyRoute::Ignore,
        }
    }
}

/// Who handles an event of the main listener. `translation_trigger` is the trigger that the
/// translation binding stands for, if any.
pub fn route_hotkey_event(
    recording_shortcut: bool,
    event: HotkeyEvent,
    translation: &ShortcutBinding,
    translation_trigger: Option<HotkeyTrigger>,
) -> (r: HotkeyRoute)
    ensures
        r == route_of(recording_shortcut, event, translation@, translation_trigger),
{
    if recording_shortcut {
        return match event {
            HotkeyEvent::FnRecordingPressed => HotkeyRoute::ReportFnKey,
            _ => HotkeyRoute::Ignore,
        };
    }
    match event {
        HotkeyEvent::Pressed { press_id, at } => HotkeyRoute::DictationPressed { press_id, at },
        HotkeyEvent::Released { press_id, at } => HotkeyRoute::DictationReleased { press_id, at },
        HotkeyEvent::TranslationModifierPressed => if is_builtin_translation_shift(translation)
            || translation_trigger.is_some() {
            HotkeyRoute::ArmTranslation
        } else {
            HotkeyRoute::Ignore
        },
        HotkeyEvent::QaShortcutPressed => HotkeyRoute::AskAboutSelection,
        HotkeyEvent::SelectionPolishShortcutPressed => HotkeyRoute::SelectionPressed,
        HotkeyEvent::SelectionPolishShortcutReleased => HotkeyRoute::SelectionReleased,
        HotkeyEvent::FnRecordingPressed => HotkeyRoute::Ignore,
    }
}

/// While a shortcut is being recorded no event triggers anything.
pub proof fn recording_a_shortcut_triggers_nothing(
    event: HotkeyEvent,
    translation: hotkeys::KeyCombination,
    translation_trigger: Option<HotkeyTrigger>,
)
    ensures
        route_of(true, event, translation, translation_trigger) is Ignore || route_of(
            true,
            event,
            translation,
            translation_trigger,
        ) is ReportFnKey,
{
}

/// Pairs a press with its release.
#[derive(Debug, Clone, Copy, PartialEq, Eq)]
pub struct PressTracker {
    /// The press that is down; zero for none.
    pub current: u64,
}

impl PressTracker {
    pub fn new() -> (r: PressTracker)
        ensures
            r.current == 0,
    {
        PressTracker { current: 0 }
    }

    pub fn pressed(&mut self, press_id: u64)
        ensures
            final(self).current == press_id,
    {
        self.current = press_id;
    }

    /// The press that ends now. It is handed out once; a stray release gets zero.
    pub fn released(&mut self) -> (r: u64)
        ensures
            r == old(self).current,
            final(self).current == 0,
    {
        let press_id: u64 = self.current;
        self.current = 0;
        press_id
    }
}

/// Who handles a key event of a window.
#[derive(Debug, Clone, Copy, PartialEq, Eq, Structural)]
pub enum WindowHotkeyRoute {
    Ignore,
    DismissQa,
    CancelDictation,
    Pressed,
    Released,
}

/// The names under which a browser reports the key of a trigger.
pub open spec fn is_window_key(trigger: HotkeyTrigger, key: Seq<char>, code: Seq<char>) -> bool {
    match trigger {
        HotkeyTrigger::RightControl | HotkeyTrigger::Fn => key == "Control"@ && code
            == "ControlRight"@,
        HotkeyTrigger::LeftControl => key == "Control"@ && code == "ControlLeft"@,
        HotkeyTrigger::RightOption | HotkeyTrigger::RightAlt => (key == "Alt"@ || key
            == "AltGraph"@) && code == "AltRight"@,
        HotkeyTrigger::LeftOption => (key == "Alt"@ || key == "AltGraph"@) && code == "AltLeft"@,
        HotkeyTrigger::RightCommand => key == "Meta"@ && code == "MetaRight"@,
        HotkeyTrigger::LeftCommand => key == "Meta"@ && code == "MetaLeft"@,
        HotkeyTrigger::LeftShift => key == "Shift"@ && code == "ShiftLeft"@,
        HotkeyTrigger::RightShift => key == "Shift"@ && code == "ShiftRight"@,
        HotkeyTrigger::MediaPlayPause | HotkeyTrigger::Custom => false,
    }
}

pub fn window_key_matches_trigger(trigger: HotkeyTrigger, key: &str, code: &str) -> (r: bool)
    ensures
        r == is_window_key(trigger, key@, code@),
{
    match trigger {
        HotkeyTrigger::RightControl | HotkeyTrigger::Fn => same(key, "Control") && same(
            code,
            "ControlRight",
        ),
        HotkeyTrigger::LeftControl => same(key, "Control") && same(code, "ControlLeft"),
        HotkeyTrigger::RightOption | HotkeyTrigger::RightAlt => (same(key, "Alt") || same(
            key,
            "AltGraph",
        )) && same(code, "AltRight"),
        HotkeyTrigger::LeftOption => (same(key, "Alt") || same(key, "AltGraph")) && same(
            code,
            "AltLeft",
        ),
        HotkeyTrigger::RightCommand => same(key, "Meta") && same(code, "MetaRight"),
        HotkeyTrigger::LeftCommand => same(key, "Meta") && same(code, "MetaLeft"),
        HotkeyTrigger::LeftShift => same(key, "Shift") && same(code, "ShiftLeft"),
        HotkeyTrigger::RightShift => same(key, "Shift") && same(code, "ShiftRight"),
        HotkeyTrigger::MediaPlayPause | HotkeyTrigger::Custom => false,
    }
}

/// Whether windows stand in for the global listener.
pub fn window_hotkey_fallback_enabled(target: TargetOs) -> (r: bool)
    ensures
        !r,
{
    HotkeyCapability::current(target).explicit_fallback_available
}

/// Whether Escape cancels the session that runs: not while a shortcut is being recorded, where it
/// is a key like any other.
pub fn escape_cancels(recording_shortcut: bool) -> (r: bool)
    ensures
        r == !recording_shortcut,
{
    !recording_shortcut
}

/// A key event of a window.
#[derive(Debug, Clone, PartialEq, Eq)]
pub struct WindowKeyEvent {
    /// `keydown` or `keyup`.
    pub event_type: String,
    pub key: String,
    pub code: String,
    pub repeat: bool,
}

/// Who handles a key event of a window, where windows stand in for the global listener or not.
/// Escape first closes the question panel; only without one does it cancel dictation.
pub open spec fn window_route(
    event: WindowKeyEvent,
    recording_shortcut: bool,
    qa_open: bool,
    stands_in: bool,
    dictation_trigger: Option<HotkeyTrigger>,
) -> WindowHotkeyRoute {
    if recording_shortcut {
        WindowHotkeyRoute::Ignore
    } else if event.event_type@ == "keydown"@ && event.key@ == "Escape"@ {
        if qa_open {
            WindowHotkeyRoute::DismissQa
        } else {
            WindowHotkeyRoute::CancelDictation
        }
    } else if !stands_in || !(dictation_trigger is Some && is_window_key(
        dictation_trigger->0,
        event.key@,
        event.code@,
    )) {
        WindowHotkeyRoute::Ignore
    } else if event.event_type@ == "keydown"@ {
        if event.repeat {
            WindowHotkeyRoute::Ignore
        } else {
            WindowHotkeyRoute::Pressed
        }
    } else if event.event_type@ == "keyup"@ {
        WindowHotkeyRoute::Released
    } else {
        WindowHotkeyRoute::Ignore
    }
}

/// Who handles a key event of a window. `fallback` tells whether windows stand in for the global
/// listener, which only Windows has; `dictation_trigger` is the trigger that the dictation binding
/// stands for, if any.
pub fn handle_window_hotkey_event(
    event: &WindowKeyEvent,
    recording_shortcut: bool,
    qa_panel_visible: bool,
    qa_active: bool,
    target: TargetOs,
    fallback: bool,
    dictation_trigger: Option<HotkeyTrigger>,
) -> (r: WindowHotkeyRoute)
    ensures
        r == window_route(
            *event,
            recording_shortcut,
            qa_panel_visible || qa_active,
            target is Windows && fallback,
            dictation_trigger,
        ),
{
    if recording_shortcut {
        return WindowHotkeyRoute::Ignore;
    }
    let down: bool = same(event.event_type.as_str(), "keydown");
    if down && same(event.key.as_str(), "Escape") {
        return if qa_panel_visible || qa_active {
            WindowHotkeyRoute::DismissQa
        } else {
            WindowHotkeyRoute::CancelDictation
        };
    }
    if target != TargetOs::Windows || !fallback {
        return WindowHotkeyRoute::Ignore;
    }
    let trigger: HotkeyTrigger = match dictation_trigger {
        Some(trigger) => trigger,
        None => {
            return WindowHotkeyRoute::Ignore;
        },
    };
    if !window_key_matches_trigger(trigger, event.key.as_str(), event.code.as_str()) {
        return WindowHotkeyRoute::Ignore;
    }
    if down {
        if event.repeat {
            WindowHotkeyRoute::Ignore
        } else {
            WindowHotkeyRoute::Pressed
        }
    } else if same(event.event_type.as_str(), "keyup") {
        WindowHotkeyRoute::Released
    } else {
        WindowHotkeyRoute::Ignore
    }
}

/// Escape never cancels dictation while a question panel is open.
pub proof fn escape_closes_the_question_panel_first(
    event: WindowKeyEvent,
    recording_shortcut: bool,
    stands_in: bool,
    dictation_trigger: Option<HotkeyTrigger>,
)
    ensures
        !(window_route(event, recording_shortcut, true, stands_in, dictation_trigger)
            is CancelDictation),
{
}

/// The stages of a dictation.
#[derive(Debug, Clone, Copy, PartialEq, Eq, Structural)]
pub enum DictationPhase {
    Idle,
    Starting,
    Recording,
    Processing,
}

/// Whether a press of the translation key still reaches the dictation: only before its recording
/// ends.
pub fn translation_request_accepted(phase: DictationPhase) -> (r: bool)
    ensures
        r == (phase is Starting || phase is Recording),
{
    match phase {
        DictationPhase::Starting | DictationPhase::Recording => true,
        _ => false,
    }
}

/// Whether a dictation is translated: translation was asked for, a target language is set, and it
/// is not the only language that the user works in.
pub open spec fn translates(
    requested: bool,
    target: Seq<char>,
    working: Seq<Seq<char>>,
) -> bool {
    &&& requested
    &&& !text::is_blank(target)
    &&& !(working.len() == 1 && working[0] == text::trimmed(target))
}

pub fn translation_effective(
    requested: bool,
    target_language: &str,
    working_languages: &[String],
) -> (r: bool)
    ensures
        r == translates(requested, target_language@, text::texts(working_languages@)),
{
    let language: &str = trim(target_language);
    if !requested || language.is_empty() {
        return false;
    }
    assert(text::texts(working_languages@).len() == working_languages@.len());
    if working_languages.len() == 1 {
        assert(text::texts(working_languages@)[0] == working_languages@[0]@);
        !same(working_languages[0].as_str(), language)
    } else {
        true
    }
}

/// What the shortcut of selection polish does.
#[derive(Debug, Clone, Copy, PartialEq, Eq, Structural)]
pub enum SelectionWorkspaceAction {
    Nothing,
    /// Polishes the selection.
    Polish,
    /// Starts or ends a spoken instruction for the selection.
    Voice,
}

/// What a press of the shortcut of selection polish does. On Windows it can start a spoken
/// instruction instead.
pub fn selection_workspace_pressed(voice_enabled: bool, target: TargetOs) -> (r:
    SelectionWorkspaceAction)
    ensures
        r == (if target is Windows && voice_enabled {
            SelectionWorkspaceAction::Voice
        } else {
            SelectionWorkspaceAction::Polish
        }),
{
    if target == TargetOs::Windows && voice_enabled {
        SelectionWorkspaceAction::Voice
    } else {
        SelectionWorkspaceAction::Polish
    }
}

/// What a release of the shortcut of selection polish does: it ends a spoken instruction.
pub fn selection_workspace_released(voice_enabled: bool, target: TargetOs) -> (r:
    SelectionWorkspaceAction)
    ensures
        r == (if target is Windows && voice_enabled {
            SelectionWorkspaceAction::Voice
        } else {
            SelectionWorkspaceAction::Nothing
        }),
{
    if target == TargetOs::Windows && voice_enabled {
        SelectionWorkspaceAction::Voice
    } else {
        SelectionWorkspaceAction::Nothing
    }
}

/// Less Computer listens for a lone modifier as for a held key.
pub fn less_computer_modifier_binding(trigger: Option<HotkeyTrigger>) -> (r: Option<HotkeyBinding>)
    ensures
        match trigger {
            Some(t) => r matches Some(binding) && binding.trigger == t && binding.mode is Hold
                && binding.keys is None,
            None => r is None,
        },
{
    match trigger {
        Some(trigger) => Some(HotkeyBinding { trigger, mode: HotkeyMode::Hold, keys: None }),
        None => None,
    }
}

/// Whether a binding may trigger Less Computer. `sides` and `form` are what the checks of side
/// specific modifiers and of the binding's form said; `trigger` is the trigger that the binding
/// stands for, if any. On a PC keyboard Fn never reaches the system.
pub fn validate_less_computer_hotkey(
    sides: Result<(), String>,
    form: Result<(), String>,
    trigger: Option<HotkeyTrigger>,
    target: TargetOs,
) -> (r: Result<(), String>)
    ensures
        match r {
            Ok(_) => sides is Ok && form is Ok && !(target is Windows && trigger == Some(
                HotkeyTrigger::Fn,
            )),
            Err(message) => match (sides, form) {
                (Err(error), _) => message == error,
                (Ok(_), Err(error)) => message == error,
                (Ok(_), Ok(_)) => {
                    &&& target is Windows
                    &&& trigger == Some(HotkeyTrigger::Fn)
                    &&& message@
                        == "Windows 不支持 Fn 作为 Less Computer 快捷键，请使用 Ctrl、Alt、Shift、Win 或组合键"@
                },
            },
        },
{
    match sides {
        Err(error) => {
            return Err(error);
        },
        Ok(_) => {},
    }
    match form {
        Err(error) => {
            return Err(error);
        },
        Ok(_) => {},
    }
    let is_fn: bool = match trigger {
        Some(HotkeyTrigger::Fn) => true,
        _ => false,
    };
    if target == TargetOs::Windows && is_fn {
        return Err(
            "Windows 不支持 Fn 作为 Less Computer 快捷键，请使用 Ctrl、Alt、Shift、Win 或组合键".to_owned(),
        );
    }
    Ok(())
}

/// Where translation is asked for and a target is set, any number of working languages but one
/// leads to a translation, whatever they are. With one working language there is a translation
/// unless that language is the target. Otherwise there is none.
pub proof fn only_a_sole_working_language_rules_translation_out(
    requested: bool,
    target_language: &str,
    working_languages: &[String],
    r: bool,
)
    requires
        call_ensures(translation_effective, (requested, target_language, working_languages), r),
    ensures
        requested && !text::is_blank(target_language@) && working_languages@.len() != 1 ==> r,
        requested && !text::is_blank(target_language@) && working_languages@.len() == 1 ==> (r
            <==> working_languages@[0]@ != text::trimmed(target_language@)),
        !requested || text::is_blank(target_language@) ==> !r,
{
    let working = text::texts(working_languages@);
    assert(working.len() == working_languages@.len());
    if working.len() == 1 {
        assert(working[0] == working_languages@[0]@);
    }
}

/// The order of the working languages does not matter, and neither does white space around the
/// target.
pub proof fn translation_ignores_the_order_of_languages(
    requested: bool,
    target_language: &str,
    working_languages: &[String],
    other_target: &str,
    permuted: &[String],
    r: bool,
    s: bool,
)
    requires
        working_languages@.map_values(|l: String| l@).to_multiset() == permuted@.map_values(
            |l: String| l@,
        ).to_multiset(),
        text::trimmed(target_language@) == text::trimmed(other_target@),
        call_ensures(translation_effective, (requested, target_language, working_languages), r),
        call_ensures(translation_effective, (requested, other_target, permuted), s),
    ensures
        r == s,
{
    let a = working_languages@.map_values(|l: String| l@);
    let b = permuted@.map_values(|l: String| l@);
    a.to_multiset_ensures();
    b.to_multiset_ensures();
    assert(a.len() == b.len());
    assert(text::texts(working_languages@) =~= a);
    assert(text::texts(permuted@) =~= b);
    if a.len() == 1 {
        assert(a.contains(a[0]));
        assert(a.to_multiset().count(a[0]) > 0);
        assert(b.to_multiset().count(a[0]) > 0);
        assert(b.contains(a[0]));
    }
    text::trimming_takes_all_white_space_at_the_ends(target_language@);
    text::trimming_takes_all_white_space_at_the_ends(other_target@);
}

/// The translation key is Shift alone in any case; a lone modifier is Shift alone or a key that
/// stands for a trigger; a shortcut without a key is not configured.
pub proof fn lone_keys_have_no_modifiers(
    binding: &ShortcutBinding,
    trigger: Option<HotkeyTrigger>,
    shift: bool,
    alone: bool,
    unconfigured: bool,
)
    requires
        call_ensures(is_builtin_translation_shift, (binding,), shift),
        call_ensures(is_modifier_only_shortcut, (binding, trigger), alone),
        call_ensures(is_unconfigured_shortcut, (binding,), unconfigured),
    ensures
        shift <==> binding.modifiers@.len() == 0 && binding.primary@.len() == 5 && forall|i: int|
            0 <= i < 5 ==> text::same_letter(#[trigger] binding.primary@[i], "shift"@[i]),
        alone <==> binding.modifiers@.len() == 0 && (shift || trigger is Some),
        unconfigured <==> forall|i: int|
            0 <= i < binding.primary@.len() ==> text::is_white_space(#[trigger] binding.primary@[i]),
{
    assert(text::texts(binding.modifiers@).len() == binding.modifiers@.len());
    text::same_letters(binding.primary@, "shift"@);
    assert("shift"@.len() == 5) by {
        reveal_strlit("shift");
    }
    text::trimming_takes_all_white_space_at_the_ends(binding.primary@);
}

/// While a shortcut is recorded, the Fn key is reported and nothing else happens. Otherwise a press
/// and a release keep their id and time, the translation key arms translation where the main
/// listener watches it, and every other event goes to the one who handles it.
pub proof fn events_go_to_their_handlers(
    recording: bool,
    event: HotkeyEvent,
    translation: &ShortcutBinding,
    trigger: Option<HotkeyTrigger>,
    shift: bool,
    r: HotkeyRoute,
)
    requires
        call_ensures(is_builtin_translation_shift, (translation,), shift),
        call_ensures(route_hotkey_event, (recording, event, translation, trigger), r),
    ensures
        recording && event is FnRecordingPressed ==> r is ReportFnKey,
        recording && !(event is FnRecordingPressed) ==> r is Ignore,
        !recording && event is FnRecordingPressed ==> r is Ignore,
        !recording ==> {
            &&& event matches HotkeyEvent::Pressed { press_id, at } ==> r == (
            HotkeyRoute::DictationPressed { press_id, at })
            &&& event matches HotkeyEvent::Released { press_id, at } ==> r == (
            HotkeyRoute::DictationReleased { press_id, at })
            &&& event is TranslationModifierPressed && (shift || trigger is Some) ==> r
                is ArmTranslation
            &&& event is TranslationModifierPressed && !shift && trigger is None ==> r is Ignore
            &&& event is QaShortcutPressed ==> r is AskAboutSelection
            &&& event is SelectionPolishShortcutPressed ==> r is SelectionPressed
            &&& event is SelectionPolishShortcutReleased ==> r is SelectionReleased
        },
{
}

/// A release gets the id of the press before it, once: a second release gets zero, and so does one
/// without a press.
pub proof fn releases_are_paired_with_presses(
    fresh: PressTracker,
    pressed: &mut PressTracker,
    press_id: u64,
    first: &mut PressTracker,
    first_id: u64,
    second: &mut PressTracker,
    second_id: u64,
)
    requires
        call_ensures(PressTracker::new, (), fresh),
        call_ensures(PressTracker::pressed, (pressed, press_id), ()),
        *old(first) == *final(pressed) || *old(first) == fresh,
        call_ensures(PressTracker::released, (first,), first_id),
        *old(second) == *final(first),
        call_ensures(PressTracker::released, (second,), second_id),
    ensures
        *old(first) == *final(pressed) ==> first_id == press_id,
        *old(first) == fresh ==> first_id == 0,
        second_id == 0,
{
}

/// The keys of a browser that stand for a trigger: the side is told by the code, the modifier by the
/// key, Fn goes by the right Control key, and no key stands for the media key or a custom shortcut.
pub proof fn window_keys_are_told_by_side(trigger: HotkeyTrigger, key: &str, code: &str, r: bool)
    requires
        call_ensures(window_key_matches_trigger, (trigger, key, code), r),
    ensures
        trigger is MediaPlayPause || trigger is Custom ==> !r,
        trigger is RightControl || trigger is Fn ==> (r <==> key@ == "Control"@ && code@
            == "ControlRight"@),
        trigger is LeftControl ==> (r <==> key@ == "Control"@ && code@ == "ControlLeft"@),
        trigger is RightOption || trigger is RightAlt ==> (r <==> (key@ == "Alt"@ || key@
            == "AltGraph"@) && code@ == "AltRight"@),
        trigger is LeftOption ==> (r <==> (key@ == "Alt"@ || key@ == "AltGraph"@) && code@
            == "AltLeft"@),
        trigger is RightCommand ==> (r <==> key@ == "Meta"@ && code@ == "MetaRight"@),
        trigger is LeftCommand ==> (r <==> key@ == "Meta"@ && code@ == "MetaLeft"@),
        trigger is LeftShift ==> (r <==> key@ == "Shift"@ && code@ == "ShiftLeft"@),
        trigger is RightShift ==> (r <==> key@ == "Shift"@ && code@ == "ShiftRight"@),
{
}

/// Escape closes an open question panel, else it cancels dictation. Windows stand in for the global
/// listener on Windows alone: there the keys of the dictation trigger press and release, and a key
/// that repeats does nothing. While a shortcut is recorded nothing happens at all.
pub proof fn window_events_go_to_their_handlers(
    event: &WindowKeyEvent,
    recording: bool,
    panel_visible: bool,
    qa_active: bool,
    target: TargetOs,
    fallback: bool,
    trigger: HotkeyTrigger,
    key: &str,
    code: &str,
    matches: bool,
    r: WindowHotkeyRoute,
    untriggered: WindowHotkeyRoute,
)
    requires
        key@ == event.key@ && code@ == event.code@,
        call_ensures(window_key_matches_trigger, (trigger, key, code), matches),
        call_ensures(
            handle_window_hotkey_event,
            (event, recording, panel_visible, qa_active, target, fallback, Some(trigger)),
            r,
        ),
        call_ensures(
            handle_window_hotkey_event,
            (event, recording, panel_visible, qa_active, target, fallback, None),
            untriggered,
        ),
    ensures
        recording ==> r is Ignore && untriggered is Ignore,
        !recording && event.event_type@ == "keydown"@ && event.key@ == "Escape"@ ==> {
            &&& panel_visible || qa_active ==> r is DismissQa && untriggered is DismissQa
            &&& !panel_visible && !qa_active ==> r is CancelDictation && untriggered
                is CancelDictation
        },
        r is DismissQa || r is CancelDictation ==> event.event_type@ == "keydown"@ && event.key@
            == "Escape"@,
        r is Pressed <==> !recording && target == TargetOs::Windows && fallback && matches
            && event.event_type@ == "keydown"@ && !event.repeat && event.key@ != "Escape"@,
        r is Released <==> !recording && target == TargetOs::Windows && fallback && matches
            && event.event_type@ == "keyup"@,
        untriggered is Ignore || untriggered is DismissQa || untriggered is CancelDictation,
{
    assert("keyup"@ != "keydown"@) by {
        reveal_strlit("keyup");
        reveal_strlit("keydown");
        assert("keyup"@.len() != "keydown"@.len());
    }
}

/// Windows never stand in for the global listener by themselves, Escape cancels but while a
/// shortcut is recorded, and the translation key counts from the start of a dictation to the end of
/// its recording.
pub proof fn keys_count_at_their_time(
    target: TargetOs,
    recording: bool,
    phase: DictationPhase,
    stands_in: bool,
    cancels: bool,
    accepted: bool,
)
    requires
        call_ensures(window_hotkey_fallback_enabled, (target,), stands_in),
        call_ensures(escape_cancels, (recording,), cancels),
        call_ensures(translation_request_accepted, (phase,), accepted),
    ensures
        !stands_in,
        cancels != recording,
        phase is Idle || phase is Processing ==> !accepted,
        phase is Starting || phase is Recording ==> accepted,
{
}

/// A spoken instruction begins with a press and ends with the release, on Windows alone and where it
/// is switched on. Otherwise the press polishes and the release does nothing.
pub proof fn spoken_instructions_last_while_the_key_is_held(
    voice_enabled: bool,
    target: TargetOs,
    pressed: SelectionWorkspaceAction,
    released: SelectionWorkspaceAction,
)
    requires
        call_ensures(selection_workspace_pressed, (voice_enabled, target), pressed),
        call_ensures(selection_workspace_released, (voice_enabled, target), released),
    ensures
        pressed is Voice <==> target == TargetOs::Windows && voice_enabled,
        released is Voice <==> pressed is Voice,
        pressed is Polish || pressed is Voice,
        released is Nothing || released is Voice,
{
}

/// Less Computer holds a lone modifier; without a trigger it listens for none.
pub proof fn less_computer_holds_its_modifier(
    trigger: HotkeyTrigger,
    some: Option<HotkeyBinding>,
    none: Option<HotkeyBinding>,
)
    requires
        call_ensures(less_computer_modifier_binding, (Some(trigger),), some),
        call_ensures(less_computer_modifier_binding, (None,), none),
    ensures
        some is Some && some->0.trigger == trigger && some->0.mode is Hold && some->0.keys is None,
        none is None,
{
}

/// A binding may trigger Less Computer where both checks passed and it is not Fn on Windows; the
/// error is that of the first check that failed.
pub proof fn less_computer_takes_all_valid_keys_but_fn_on_windows(
    sides: Result<(), String>,
    form: Result<(), String>,
    trigger: Option<HotkeyTrigger>,
    target: TargetOs,
    r: Result<(), String>,
)
    requires
        call_ensures(validate_less_computer_hotkey, (sides, form, trigger, target), r),
    ensures
        r is Ok <==> sides is Ok && form is Ok && (target != TargetOs::Windows || trigger != Some(
            HotkeyTrigger::Fn,
        )),
        sides is Err ==> r->Err_0@ == sides->Err_0@,
        sides is Ok && form is Err ==> r->Err_0@ == form->Err_0@,
        sides is Ok && form is Ok && r is Err ==> r->Err_0@
            == "Windows 不支持 Fn 作为 Less Computer 快捷键，请使用 Ctrl、Alt、Shift、Win 或组合键"@,
{
}

} // verus!
