//! Shortcut bindings and how they are shown.

use vstd::prelude::*;

use crate::platform::{self, HotkeyCapability, TargetOs};
use crate::text::{self, copied, equal_ignoring_ascii_case, join, same, same_list, trim};

verus! {

#[derive(Debug, Clone, Copy, PartialEq, Eq, Structural)]
pub enum HotkeyTrigger {
    RightOption,
    LeftOption,
    RightControl,
    LeftControl,
    RightCommand,
    LeftCommand,
    LeftShift,
    RightShift,
    Fn,
    /// The Windows name of `RightOption`.
    RightAlt,
    MediaPlayPause,
    Custom,
}

#[derive(Debug, Clone, Copy, PartialEq, Eq, Structural)]
pub enum HotkeyMode {
    Toggle,
    Hold,
    DoubleClick,
    /// A short press latches like `Toggle`, a long press ends on release like `Hold`.
    Auto,
}

#[derive(Debug, Clone, Copy, PartialEq, Eq, Structural)]
pub enum HotkeyAdapterKind {
    MacEventTap,
    WindowsLowLevel,
    Fcitx5,
    /// Mobile systems have no adapter for global shortcuts.
    Unavailable,
}

impl HotkeyTrigger {
    /// The name of the trigger as the settings page shows it.
    pub open spec fn shown_name(self) -> Seq<char> {
        match self {
            HotkeyTrigger::RightOption => "右 Option"@,
            HotkeyTrigger::LeftOption => "左 Option"@,
            HotkeyTrigger::RightControl => "右 Control"@,
            HotkeyTrigger::LeftControl => "左 Control"@,
            HotkeyTrigger::RightCommand => "右 Command"@,
            HotkeyTrigger::LeftCommand => "左 Command"@,
            HotkeyTrigger::LeftShift => "左 Shift"@,
            HotkeyTrigger::RightShift => "右 Shift"@,
            HotkeyTrigger::Fn => "Fn (地球键)"@,
            HotkeyTrigger::RightAlt => "右 Alt"@,
            HotkeyTrigger::MediaPlayPause => "⏯ Media 播放/暂停"@,
            HotkeyTrigger::Custom => "自定义组合键"@,
        }
    }

    pub fn display_name(&self) -> (r: &'static str)
        ensures
            r@ == self.shown_name(),
    {
        match self {
            HotkeyTrigger::RightOption => "右 Option",
            HotkeyTrigger::LeftOption => "左 Option",
            HotkeyTrigger::RightControl => "右 Control",
            HotkeyTrigger::LeftControl => "左 Control",
            HotkeyTrigger::RightCommand => "右 Command",
            HotkeyTrigger::LeftCommand => "左 Command",
            HotkeyTrigger::LeftShift => "左 Shift",
            HotkeyTrigger::RightShift => "右 Shift",
            HotkeyTrigger::Fn => "Fn (地球键)",
            HotkeyTrigger::RightAlt => "右 Alt",
            HotkeyTrigger::MediaPlayPause => "⏯ Media 播放/暂停",
            HotkeyTrigger::Custom => "自定义组合键",
        }
    }
}

impl HotkeyAdapterKind {
    /// The name of the adapter as the settings page shows it.
    pub open spec fn shown_name(self) -> Seq<char> {
        match self {
            HotkeyAdapterKind::MacEventTap => "macOS Event Tap"@,
            HotkeyAdapterKind::WindowsLowLevel => "Windows 低层键盘 hook"@,
            HotkeyAdapterKind::Fcitx5 => "fcitx5 输入法插件"@,
            HotkeyAdapterKind::Unavailable => "不可用"@,
        }
    }

    pub fn display_name(&self) -> (r: &'static str)
        ensures
            r@ == self.shown_name(),
    {
        match self {
            HotkeyAdapterKind::MacEventTap => "macOS Event Tap",
            HotkeyAdapterKind::WindowsLowLevel => "Windows 低层键盘 hook",
            HotkeyAdapterKind::Fcitx5 => "fcitx5 输入法插件",
            HotkeyAdapterKind::Unavailable => "不可用",
        }
    }
}

/// A main key with modifiers, as characters.
#[verifier::ext_equal]
pub struct KeyCombination {
    pub primary: Seq<char>,
    pub modifiers: Seq<Seq<char>>,
}

/// A main key and the modifiers held with it.
#[derive(Debug, Clone, PartialEq, Eq)]
pub struct ShortcutBinding {
    pub primary: String,
    pub modifiers: Vec<String>,
}

/// The shortcut of the voice question panel. `modifiers` holds names out of `cmd`, `ctrl`, `alt`,
/// `shift` and `super`.
#[derive(Debug, Clone, PartialEq, Eq)]
pub struct QaHotkeyBinding {
    pub primary: String,
    pub modifiers: Vec<String>,
}

/// The combination recorded for dictation, in the form of [`QaHotkeyBinding`].
#[derive(Debug, Clone, PartialEq, Eq)]
pub struct ComboBinding {
    pub primary: String,
    pub modifiers: Vec<String>,
}

/// A shortcut that activates the style pack `pack_id`.
#[derive(Debug, Clone, PartialEq, Eq)]
pub struct StylePackHotkey {
    pub pack_id: String,
    pub binding: ShortcutBinding,
}

impl View for ShortcutBinding {
    type V = KeyCombination;

    open spec fn view(&self) -> KeyCombination {
        KeyCombination { primary: self.primary@, modifiers: text::texts(self.modifiers@) }
    }
}

impl View for QaHotkeyBinding {
    type V = KeyCombination;

    open spec fn view(&self) -> KeyCombination {
        KeyCombination { primary: self.primary@, modifiers: text::texts(self.modifiers@) }
    }
}

impl View for ComboBinding {
    type V = KeyCombination;

    open spec fn view(&self) -> KeyCombination {
        KeyCombination { primary: self.primary@, modifiers: text::texts(self.modifiers@) }
    }
}

/// The view of an optional binding.
pub open spec fn optional_binding(binding: Option<ShortcutBinding>) -> Option<KeyCombination> {
    match binding {
        Some(b) => Some(b@),
        None => None,
    }
}

/// A key without modifiers.
pub open spec fn lone_key(primary: Seq<char>) -> KeyCombination {
    KeyCombination { primary, modifiers: Seq::empty() }
}

/// The main modifier of the application's own shortcuts.
pub open spec fn app_modifier(target: TargetOs) -> Seq<char> {
    if target is Macos {
        "cmd"@
    } else {
        "ctrl"@
    }
}

/// A key held with the modifiers of the application's own shortcuts.
pub open spec fn app_shortcut(primary: Seq<char>, target: TargetOs) -> KeyCombination {
    KeyCombination { primary, modifiers: seq![app_modifier(target), "shift"@] }
}

/// The name under which a modifier is shown.
pub open spec fn modifier_label(tag: Seq<char>, target: TargetOs) -> Seq<char> {
    if tag == "cmd"@ {
        match target {
            TargetOs::Macos => "Cmd"@,
            TargetOs::Windows => "Ctrl"@,
            _ => "Super"@,
        }
    } else if tag == "ctrl"@ {
        "Ctrl"@
    } else if tag == "alt"@ {
        if target is Macos {
            "Option"@
        } else {
            "Alt"@
        }
    } else if tag == "shift"@ {
        "Shift"@
    } else if tag == "super"@ {
        "Super"@
    } else {
        ""@
    }
}

pub open spec fn is_ascii_letter(c: char) -> bool {
    0x41 <= c as u32 <= 0x5A || 0x61 <= c as u32 <= 0x7A
}

pub open spec fn ascii_upper(c: char) -> char {
    if 0x61 <= c as u32 <= 0x7A {
        (c as u32 - 0x20) as char
    } else {
        c
    }
}

/// The name under which a main key is shown: a lone letter in upper case, `?` for none.
pub open spec fn primary_label(primary: Seq<char>) -> Seq<char> {
    let key = text::trimmed(primary);
    if key.len() == 0 {
        "?"@
    } else if key.len() == 1 && is_ascii_letter(key[0]) {
        seq![ascii_upper(key[0])]
    } else {
        key
    }
}

/// Whether `tag` is among the modifiers, up to ASCII case.
pub open spec fn holds(modifiers: Seq<Seq<char>>, tag: Seq<char>) -> bool {
    exists|i: int|
        0 <= i < modifiers.len() && text::same_ignoring_ascii_case(#[trigger] modifiers[i], tag)
}

/// The label of `tag` where it is held, else nothing.
pub open spec fn modifier_part(
    modifiers: Seq<Seq<char>>,
    tag: Seq<char>,
    target: TargetOs,
) -> Seq<Seq<char>> {
    if holds(modifiers, tag) {
        seq![modifier_label(tag, target)]
    } else {
        Seq::empty()
    }
}

/// A combination as it is shown: its modifiers in a fixed order, each once, then its main key.
pub open spec fn combination_label(keys: KeyCombination, target: TargetOs) -> Seq<char> {
    let parts = modifier_part(keys.modifiers, "cmd"@, target) + modifier_part(
        keys.modifiers,
        "ctrl"@,
        target,
    ) + modifier_part(keys.modifiers, "alt"@, target) + modifier_part(
        keys.modifiers,
        "shift"@,
        target,
    ) + modifier_part(keys.modifiers, "super"@, target);
    text::joined(parts.push(primary_label(keys.primary)), "+"@)
}

/// The name under which a modifier is shown.
pub fn modifier_display(tag: &str, target: TargetOs) -> (r: &'static str)
    ensures
        r@ == modifier_label(tag@, target),
{
    if same(tag, "cmd") {
        match target {
            TargetOs::Macos => "Cmd",
            TargetOs::Windows => "Ctrl",
            _ => "Super",
        }
    } else if same(tag, "ctrl") {
        "Ctrl"
    } else if same(tag, "alt") {
        if target == TargetOs::Macos {
            "Option"
        } else {
            "Alt"
        }
    } else if same(tag, "shift") {
        "Shift"
    } else if same(tag, "super") {
        "Super"
    } else {
        ""
    }
}

fn upper_letter(c: char) -> (r: String)
    requires
        is_ascii_letter(c),
    ensures
        r@ == seq![ascii_upper(c)],
{
    proof {
        reveal_strlit("ABCDEFGHIJKLMNOPQRSTUVWXYZ");
    }
    let letters: &str = "ABCDEFGHIJKLMNOPQRSTUVWXYZ";
    let n: u32 = c as u32;
    let i: usize = if n >= 0x61 {
        (n - 0x61) as usize
    } else {
        (n - 0x41) as usize
    };
    let r: String = letters.substring_char(i, i + 1).to_owned();
    assert(r@ =~= seq![ascii_upper(c)]);
    r
}

/// The name under which a main key is shown.
pub fn display_primary(primary: &str) -> (r: String)
    ensures
        r@ == primary_label(primary@),
{
    let key: &str = trim(primary);
    if key.is_empty() {
        return "?".to_owned();
    }
    if key.unicode_len() == 1 {
        let c: char = key.get_char(0);
        let n: u32 = c as u32;
        if (0x41 <= n && n <= 0x5A) || (0x61 <= n && n <= 0x7A) {
            return upper_letter(c);
        }
    }
    key.to_owned()
}

fn push_modifier(parts: &mut Vec<String>, modifiers: &Vec<String>, tag: &str, target: TargetOs)
    ensures
        text::texts(final(parts)@) == text::texts(old(parts)@) + modifier_part(
            text::texts(modifiers@),
            tag@,
            target,
        ),
{
    let mut i: usize = 0;
    while i < modifiers.len()
        invariant
            i <= modifiers.len(),
            *parts == *old(parts),
            forall|j: int|
                0 <= j < i ==> !text::same_ignoring_ascii_case(
                    #[trigger] text::texts(modifiers@)[j],
                    tag@,
                ),
        decreases modifiers.len() - i,
    {
        if equal_ignoring_ascii_case(modifiers[i].as_str(), tag) {
            assert(text::same_ignoring_ascii_case(text::texts(modifiers@)[i as int], tag@));
            assert(holds(text::texts(modifiers@), tag@));
            parts.push(modifier_display(tag, target).to_owned());
            assert(text::texts(parts@) =~= text::texts(old(parts)@).push(
                modifier_label(tag@, target),
            ));
            assert(text::texts(parts@) =~= text::texts(old(parts)@) + modifier_part(
                text::texts(modifiers@),
                tag@,
                target,
            ));
            return;
        }
        i += 1;
    }
    assert(!holds(text::texts(modifiers@), tag@));
    assert(text::texts(parts@) =~= text::texts(old(parts)@) + Seq::<Seq<char>>::empty());
}

fn label_of(primary: &str, modifiers: &Vec<String>, target: TargetOs) -> (r: String)
    ensures
        r@ == combination_label(
            KeyCombination { primary: primary@, modifiers: text::texts(modifiers@) },
            target,
        ),
{
    let mut parts: Vec<String> = Vec::new();
    assert(text::texts(parts@) =~= Seq::<Seq<char>>::empty());
    push_modifier(&mut parts, modifiers, "cmd", target);
    push_modifier(&mut parts, modifiers, "ctrl", target);
    push_modifier(&mut parts, modifiers, "alt", target);
    push_modifier(&mut parts, modifiers, "shift", target);
    push_modifier(&mut parts, modifiers, "super", target);
    let ghost before = text::texts(parts@);
    parts.push(display_primary(primary));
    proof {
        let m = text::texts(modifiers@);
        assert(text::texts(parts@) =~= before.push(primary_label(primary@)));
        assert(before =~= modifier_part(m, "cmd"@, target) + modifier_part(m, "ctrl"@, target)
            + modifier_part(m, "alt"@, target) + modifier_part(m, "shift"@, target)
            + modifier_part(m, "super"@, target));
    }
    join(&parts, "+")
}

/// The modifiers of the application's own shortcuts.
pub fn default_app_shortcut_modifiers(target: TargetOs) -> (r: Vec<String>)
    ensures
        text::texts(r@) == seq![app_modifier(target), "shift"@],
{
    let main: &str = if target == TargetOs::Macos {
        "cmd"
    } else {
        "ctrl"
    };
    let mut r: Vec<String> = Vec::new();
    r.push(main.to_owned());
    r.push("shift".to_owned());
    assert(text::texts(r@) =~= seq![app_modifier(target), "shift"@]);
    r
}

impl ShortcutBinding {
    /// The shortcut of the voice question panel until the user picks another.
    pub fn default_qa(target: TargetOs) -> (r: ShortcutBinding)
        ensures
            r@ == app_shortcut(";"@, target),
    {
        ShortcutBinding {
            primary: ";".to_owned(),
            modifiers: default_app_shortcut_modifiers(target),
        }
    }

    /// A key without modifiers.
    pub fn lone(primary: &str) -> (r: ShortcutBinding)
        ensures
            r@ == lone_key(primary@),
    {
        let r = ShortcutBinding { primary: primary.to_owned(), modifiers: Vec::new() };
        assert(r@ =~= lone_key(primary@));
        r
    }

    /// The binding as it is shown.
    pub fn display_label(&self, target: TargetOs) -> (r: String)
        ensures
            r@ == combination_label(self@, target),
    {
        label_of(self.primary.as_str(), &self.modifiers, target)
    }

    /// Whether both bindings name the same keys in the same way.
    pub fn same_as(&self, other: &ShortcutBinding) -> (r: bool)
        ensures
            r == (self@ == other@),
    {
        self.primary == other.primary && same_list(&self.modifiers, &other.modifiers)
    }

    /// An own copy.
    pub fn copy(&self) -> (r: ShortcutBinding)
        ensures
            r@ == self@,
    {
        ShortcutBinding { primary: self.primary.clone(), modifiers: copied(&self.modifiers) }
    }
}

impl QaHotkeyBinding {
    /// The shortcut of the voice question panel until the user picks another.
    pub fn default_for(target: TargetOs) -> (r: QaHotkeyBinding)
        ensures
            r@ == app_shortcut(";"@, target),
    {
        QaHotkeyBinding {
            primary: ";".to_owned(),
            modifiers: default_app_shortcut_modifiers(target),
        }
    }

    /// The binding as it is shown, such as `Cmd+Shift+;` or `Ctrl+Alt+Shift+.`.
    pub fn display_label(&self, target: TargetOs) -> (r: String)
        ensures
            r@ == combination_label(self@, target),
    {
        label_of(self.primary.as_str(), &self.modifiers, target)
    }
}

impl ComboBinding {
    /// The binding as it is shown.
    pub fn display_label(&self, target: TargetOs) -> (r: String)
        ensures
            r@ == combination_label(self@, target),
    {
        label_of(self.primary.as_str(), &self.modifiers, target)
    }
}

#[derive(Debug, Clone, PartialEq, Eq)]
pub struct HotkeyKey {
    pub code: String,
}

impl HotkeyKey {
    pub fn new(code: &str) -> (r: HotkeyKey)
        ensures
            r.code@ == code@,
    {
        HotkeyKey { code: code.to_owned() }
    }
}

/// The dictation trigger. `keys`, where it is there, overrides `trigger`.
#[derive(Debug, Clone, PartialEq, Eq)]
pub struct HotkeyBinding {
    pub trigger: HotkeyTrigger,
    pub mode: HotkeyMode,
    pub keys: Option<Vec<HotkeyKey>>,
}

/// The key code that a trigger stands for; empty for a custom combination.
pub open spec fn trigger_code(trigger: HotkeyTrigger, target: TargetOs) -> Seq<char> {
    match trigger {
        HotkeyTrigger::RightOption | HotkeyTrigger::RightAlt => "AltRight"@,
        HotkeyTrigger::LeftOption => "AltLeft"@,
        HotkeyTrigger::RightControl => "ControlRight"@,
        HotkeyTrigger::LeftControl => "ControlLeft"@,
        HotkeyTrigger::RightCommand => "MetaRight"@,
        HotkeyTrigger::LeftCommand => "MetaLeft"@,
        HotkeyTrigger::LeftShift => "ShiftLeft"@,
        HotkeyTrigger::RightShift => "ShiftRight"@,
        HotkeyTrigger::Fn => if target is Windows {
            "ControlRight"@
        } else {
            "Fn"@
        },
        HotkeyTrigger::MediaPlayPause => "MediaPlayPause"@,
        HotkeyTrigger::Custom => Seq::empty(),
    }
}

/// The trimmed codes of the keys, blank ones left out.
pub open spec fn key_codes(keys: Seq<HotkeyKey>) -> Seq<Seq<char>>
    decreases keys.len(),
{
    if keys.len() == 0 {
        Seq::empty()
    } else {
        let code = text::trimmed(keys.last().code@);
        if code.len() == 0 {
            key_codes(keys.drop_last())
        } else {
            key_codes(keys.drop_last()).push(code)
        }
    }
}

impl HotkeyBinding {
    /// The codes that the binding listens for.
    pub open spec fn codes(self, target: TargetOs) -> Seq<Seq<char>> {
        match self.keys {
            Some(keys) => key_codes(keys@),
            None => if self.trigger is Custom {
                Seq::empty()
            } else {
                seq![trigger_code(self.trigger, target)]
            },
        }
    }
}

/// The short name of a key code that has one.
pub open spec fn named_key(code: Seq<char>) -> Option<Seq<char>> {
    if code == "ControlLeft"@ {
        Some("左Ctrl"@)
    } else if code == "ControlRight"@ {
        Some("右 Control"@)
    } else if code == "AltLeft"@ {
        Some("左Alt"@)
    } else if code == "AltRight"@ {
        Some("右Alt"@)
    } else if code == "ShiftLeft"@ {
        Some("左Shift"@)
    } else if code == "ShiftRight"@ {
        Some("右Shift"@)
    } else if code == "MetaLeft"@ || code == "OSLeft"@ {
        Some("左Win"@)
    } else if code == "MetaRight"@ || code == "OSRight"@ {
        Some("右Win"@)
    } else if code == "ScrollLock"@ {
        Some("ScrLock"@)
    } else if code == "PrintScreen"@ {
        Some("PrtSc"@)
    } else if code == "ArrowUp"@ {
        Some("Up"@)
    } else if code == "ArrowDown"@ {
        Some("Down"@)
    } else if code == "ArrowLeft"@ {
        Some("Left"@)
    } else if code == "ArrowRight"@ {
        Some("Right"@)
    } else if code == "NumpadAdd"@ {
        Some("Num+"@)
    } else if code == "NumpadSubtract"@ {
        Some("Num-"@)
    } else if code == "NumpadMultiply"@ {
        Some("Num*"@)
    } else if code == "NumpadDivide"@ {
        Some("Num/"@)
    } else if code == "NumpadDecimal"@ {
        Some("Num."@)
    } else if code == "NumpadEnter"@ {
        Some("NumEnter"@)
    } else if code == "Backquote"@ {
        Some("`"@)
    } else if code == "Minus"@ {
        Some("-"@)
    } else if code == "Equal"@ {
        Some("="@)
    } else if code == "BracketLeft"@ {
        Some("["@)
    } else if code == "BracketRight"@ {
        Some("]"@)
    } else if code == "Backslash"@ {
        Some("\\"@)
    } else if code == "Semicolon"@ {
        Some(";"@)
    } else if code == "Quote"@ {
        Some("'"@)
    } else if code == "Comma"@ {
        Some(","@)
    } else if code == "Period"@ {
        Some("."@)
    } else if code == "Slash"@ {
        Some("/"@)
    } else {
        None
    }
}

/// `prefix` followed by a single ASCII character.
pub open spec fn is_prefixed_ascii(code: Seq<char>, prefix: Seq<char>) -> bool {
    &&& code.len() == prefix.len() + 1
    &&& code.take(prefix.len() as int) == prefix
    &&& (code.last() as u32) < 0x80
}

/// The name under which a key code is shown. Codes such as `Tab` or `Mouse4` are shown as they
/// are.
pub open spec fn code_label(code: Seq<char>) -> Seq<char> {
    match named_key(code) {
        Some(label) => label,
        None => if is_prefixed_ascii(code, "Key"@) || is_prefixed_ascii(code, "Digit"@) {
            seq![code.last()]
        } else if is_prefixed_ascii(code, "Numpad"@) && 0x30 <= code.last() as u32 <= 0x39 {
            "Num"@.push(code.last())
        } else {
            code
        },
    }
}

/// The codes as they are shown.
pub open spec fn codes_label(codes: Seq<Seq<char>>) -> Seq<char> {
    if codes.len() == 0 {
        "未设置"@
    } else {
        text::joined(codes.map_values(|code: Seq<char>| code_label(code)), "+"@)
    }
}

pub fn legacy_trigger_code(trigger: HotkeyTrigger, target: TargetOs) -> (r: &'static str)
    ensures
        r@ == trigger_code(trigger, target),
{
    proof {
        reveal_strlit("");
    }
    match trigger {
        HotkeyTrigger::RightOption | HotkeyTrigger::RightAlt => "AltRight",
        HotkeyTrigger::LeftOption => "AltLeft",
        HotkeyTrigger::RightControl => "ControlRight",
        HotkeyTrigger::LeftControl => "ControlLeft",
        HotkeyTrigger::RightCommand => "MetaRight",
        HotkeyTrigger::LeftCommand => "MetaLeft",
        HotkeyTrigger::LeftShift => "ShiftLeft",
        HotkeyTrigger::RightShift => "ShiftRight",
        HotkeyTrigger::Fn => if target == TargetOs::Windows {
            "ControlRight"
        } else {
            "Fn"
        },
        HotkeyTrigger::MediaPlayPause => "MediaPlayPause",
        HotkeyTrigger::Custom => {
            assert(""@ =~= Seq::<char>::empty());
            ""
        },
    }
}

fn prefixed_ascii(code: &str, prefix: &str) -> (r: bool)
    ensures
        r == is_prefixed_ascii(code@, prefix@),
{
    let n: usize = prefix.unicode_len();
    let m: usize = code.unicode_len();
    if m == 0 || m - 1 != n {
        return false;
    }
    assert(code@.subrange(0, n as int) =~= code@.take(n as int));
    same(code.substring_char(0, n), prefix) && (code.get_char(n) as u32) < 0x80
}

fn named_key_label(code: &str) -> (r: Option<&'static str>)
    ensures
        match r {
            Some(label) => named_key(code@) == Some(label@),
            None => named_key(code@) is None,
        },
{
    if same(code, "ControlLeft") {
        Some("左Ctrl")
    } else if same(code, "ControlRight") {
        Some("右 Control")
    } else if same(code, "AltLeft") {
        Some("左Alt")
    } else if same(code, "AltRight") {
        Some("右Alt")
    } else if same(code, "ShiftLeft") {
        Some("左Shift")
    } else if same(code, "ShiftRight") {
        Some("右Shift")
    } else if same(code, "MetaLeft") || same(code, "OSLeft") {
        Some("左Win")
    } else if same(code, "MetaRight") || same(code, "OSRight") {
        Some("右Win")
    } else if same(code, "ScrollLock") {
        Some("ScrLock")
    } else if same(code, "PrintScreen") {
        Some("PrtSc")
    } else if same(code, "ArrowUp") {
        Some("Up")
    } else if same(code, "ArrowDown") {
        Some("Down")
    } else if same(code, "ArrowLeft") {
        Some("Left")
    } else if same(code, "ArrowRight") {
        Some("Right")
    } else if same(code, "NumpadAdd") {
        Some("Num+")
    } else if same(code, "NumpadSubtract") {
        Some("Num-")
    } else if same(code, "NumpadMultiply") {
        Some("Num*")
    } else if same(code, "NumpadDivide") {
        Some("Num/")
    } else if same(code, "NumpadDecimal") {
        Some("Num.")
    } else if same(code, "NumpadEnter") {
        Some("NumEnter")
    } else if same(code, "Backquote") {
        Some("`")
    } else if same(code, "Minus") {
        Some("-")
    } else if same(code, "Equal") {
        Some("=")
    } else if same(code, "BracketLeft") {
        Some("[")
    } else if same(code, "BracketRight") {
        Some("]")
    } else if same(code, "Backslash") {
        Some("\\")
    } else if same(code, "Semicolon") {
        Some(";")
    } else if same(code, "Quote") {
        Some("'")
    } else if same(code, "Comma") {
        Some(",")
    } else if same(code, "Period") {
        Some(".")
    } else if same(code, "Slash") {
        Some("/")
    } else {
        None
    }
}

/// The name under which a key code is shown.
pub fn display_hotkey_code(code: &str) -> (r: String)
    ensures
        r@ == code_label(code@),
{
    if let Some(label) = named_key_label(code) {
        return label.to_owned();
    }
    let n: usize = code.unicode_len();
    if prefixed_ascii(code, "Key") || prefixed_ascii(code, "Digit") {
        let r: String = code.substring_char(n - 1, n).to_owned();
        assert(r@ =~= seq![code@.last()]);
        return r;
    }
    if prefixed_ascii(code, "Numpad") {
        let last: u32 = code.get_char(n - 1) as u32;
        if 0x30 <= last && last <= 0x39 {
            let mut r: String = "Num".to_owned();
            r.append(code.substring_char(n - 1, n));
            assert(r@ =~= "Num"@.push(code@.last()));
            return r;
        }
    }
    code.to_owned()
}

impl HotkeyBinding {
    /// The dictation trigger until the user picks another. `keys` stays absent, so that a stored
    /// record with a trigger and no keys follows its trigger.
    pub fn default_for(target: TargetOs) -> (r: HotkeyBinding)
        ensures
            r.trigger == default_trigger(target),
            r.mode is Toggle,
            r.keys is None,
    {
        HotkeyBinding {
            trigger: if target == TargetOs::Windows {
                HotkeyTrigger::RightControl
            } else {
                HotkeyTrigger::RightOption
            },
            mode: HotkeyMode::Toggle,
            keys: None,
        }
    }

    /// The codes that the binding listens for.
    pub fn effective_codes(&self, target: TargetOs) -> (r: Vec<String>)
        ensures
            text::texts(r@) == self.codes(target),
    {
        let mut r: Vec<String> = Vec::new();
        assert(text::texts(r@) =~= Seq::<Seq<char>>::empty());
        match &self.keys {
            None => {
                if self.trigger != HotkeyTrigger::Custom {
                    r.push(legacy_trigger_code(self.trigger, target).to_owned());
                    assert(text::texts(r@) =~= seq![trigger_code(self.trigger, target)]);
                }
            },
            Some(keys) => {
                let mut i: usize = 0;
                while i < keys.len()
                    invariant
                        i <= keys.len(),
                        text::texts(r@) == key_codes(keys@.take(i as int)),
                    decreases keys.len() - i,
                {
                    let code: &str = trim(keys[i].code.as_str());
                    let ghost before = r@;
                    if !code.is_empty() {
                        r.push(code.to_owned());
                        assert(text::texts(r@) =~= text::texts(before).push(code@));
                    }
                    assert(keys@.take(i as int + 1).drop_last() =~= keys@.take(i as int));
                    i += 1;
                }
                assert(keys@.take(i as int) =~= keys@);
            },
        }
        r
    }

    /// The binding as it is shown.
    pub fn display_label(&self, target: TargetOs) -> (r: String)
        ensures
            r@ == codes_label(self.codes(target)),
    {
        let codes: Vec<String> = self.effective_codes(target);
        let ghost all = self.codes(target);
        assert(all.len() == codes.len());
        if codes.len() == 0 {
            return "未设置".to_owned();
        }
        let mut labels: Vec<String> = Vec::new();
        let mut i: usize = 0;
        while i < codes.len()
            invariant
                i <= codes.len(),
                labels.len() == i,
                text::texts(codes@) == all,
                forall|j: int| 0 <= j < i ==> labels@[j]@ == code_label(#[trigger] all[j]),
            decreases codes.len() - i,
        {
            assert(all[i as int] == codes@[i as int]@);
            labels.push(display_hotkey_code(codes[i].as_str()));
            i += 1;
        }
        assert(text::texts(labels@) =~= all.map_values(|code: Seq<char>| code_label(code)));
        join(&labels, "+")
    }
}

/// The dictation trigger until the user picks another.
pub open spec fn default_trigger(target: TargetOs) -> HotkeyTrigger {
    if target is Windows {
        HotkeyTrigger::RightControl
    } else {
        HotkeyTrigger::RightOption
    }
}

#[derive(Debug, Clone, PartialEq, Eq)]
pub struct HotkeyInstallError {
    pub code: String,
    pub message: String,
}

impl HotkeyInstallError {
    /// The message with the code in brackets.
    pub fn description(&self) -> (r: String)
        ensures
            r@ == self.message@ + " ("@ + self.code@ + ")"@,
    {
        let mut r: String = self.message.clone();
        r.append(" (");
        r.append(self.code.as_str());
        r.append(")");
        r
    }
}

#[derive(Debug, Clone, Copy, PartialEq, Eq, Structural)]
pub enum HotkeyStatusState {
    Starting,
    Installed,
    Failed,
}

#[derive(Debug, Clone, PartialEq, Eq)]
pub struct HotkeyStatus {
    pub adapter: HotkeyAdapterKind,
    pub state: HotkeyStatusState,
    pub message: Option<String>,
    pub last_error: Option<HotkeyInstallError>,
}

impl HotkeyStatus {
    /// The status before the listener is installed.
    pub fn default_for(target: TargetOs) -> (r: HotkeyStatus)
        ensures
            r.adapter == platform::adapter_of(target),
            r.state is Starting,
            text::optional_text(r.message) == Some("正在安装全局快捷键监听"@),
            r.last_error is None,
    {
        HotkeyStatus {
            adapter: HotkeyCapability::current(target).adapter,
            state: HotkeyStatusState::Starting,
            message: Some("正在安装全局快捷键监听".to_owned()),
            last_error: None,
        }
    }
}

/// Two shortcuts have the same keys: the same key, and the same modifiers in the same order.
pub open spec fn same_keys(a: ShortcutBinding, b: ShortcutBinding) -> bool {
    &&& a.primary@ == b.primary@
    &&& a.modifiers@.len() == b.modifiers@.len()
    &&& forall|i: int|
        0 <= i < a.modifiers@.len() ==> (#[trigger] a.modifiers@[i])@ == b.modifiers@[i]@
}

/// Two shortcuts that may be missing are both missing, or have the same keys.
pub open spec fn same_shortcut(a: Option<ShortcutBinding>, b: Option<ShortcutBinding>) -> bool {
    match (a, b) {
        (Some(x), Some(y)) => same_keys(x, y),
        (None, None) => true,
        _ => false,
    }
}

/// Shortcuts are told apart by every one of their keys.
pub proof fn shortcuts_are_their_keys(a: ShortcutBinding, b: ShortcutBinding)
    ensures
        a@ == b@ <==> same_keys(a, b),
        a@.primary == a.primary@,
        a@.modifiers.len() == a.modifiers@.len(),
        forall|i: int|
            0 <= i < a.modifiers@.len() ==> a@.modifiers[i] == (#[trigger] a.modifiers@[i])@,
{
    text::same_texts(a.modifiers@, b.modifiers@);
    assert(text::texts(a.modifiers@).len() == a.modifiers@.len());
}

/// The same where a shortcut may be missing.
pub proof fn missing_shortcuts_are_told_apart(
    a: Option<ShortcutBinding>,
    b: Option<ShortcutBinding>,
)
    ensures
        optional_binding(a) == optional_binding(b) <==> same_shortcut(a, b),
{
    if a is Some && b is Some {
        shortcuts_are_their_keys(a->0, b->0);
    }
}

/// Comparing goes by all keys, and a copy has them all.
pub proof fn shortcuts_compare_key_by_key(
    a: &ShortcutBinding,
    b: &ShortcutBinding,
    same: bool,
    copy: ShortcutBinding,
)
    requires
        call_ensures(ShortcutBinding::same_as, (a, b), same),
        call_ensures(ShortcutBinding::copy, (a,), copy),
    ensures
        same <==> same_keys(*a, *b),
        same_keys(copy, *a),
{
    shortcuts_are_their_keys(*a, *b);
    shortcuts_are_their_keys(copy, *a);
}

/// Each of the parts, with the separator after it.
pub open spec fn led_by(parts: Seq<Seq<char>>, separator: Seq<char>) -> Seq<char>
    decreases parts.len(),
{
    if parts.len() == 0 {
        Seq::empty()
    } else {
        led_by(parts.drop_last(), separator) + parts.last() + separator
    }
}

proof fn lemma_led_by(parts: Seq<Seq<char>>, last: Seq<char>, separator: Seq<char>)
    ensures
        text::joined(parts.push(last), separator) == led_by(parts, separator) + last,
    decreases parts.len(),
{
    let all = parts.push(last);
    assert(all.drop_last() =~= parts);
    if parts.len() == 0 {
        assert(text::joined(all, separator) =~= led_by(parts, separator) + last);
    } else {
        lemma_led_by(parts.drop_last(), parts.last(), separator);
        assert(parts.drop_last().push(parts.last()) =~= parts);
        assert(text::joined(all, separator) =~= led_by(parts, separator) + last);
    }
}

proof fn lemma_led_by_more(parts: Seq<Seq<char>>, part: Seq<Seq<char>>, separator: Seq<char>)
    requires
        part.len() <= 1,
    ensures
        led_by(parts + part, separator) == led_by(parts, separator) + (if part.len() == 1 {
            part[0] + separator
        } else {
            Seq::empty()
        }),
{
    if part.len() == 1 {
        assert((parts + part).drop_last() =~= parts);
        assert((parts + part).last() == part[0]);
        assert(led_by(parts + part, separator) =~= led_by(parts, separator) + (part[0]
            + separator));
    } else {
        assert(parts + part =~= parts);
        assert(led_by(parts, separator) =~= led_by(parts, separator) + Seq::<char>::empty());
    }
}

/// What a modifier adds in front of a label: its name and a plus sign, where the shortcut has it in
/// any case and anywhere among its modifiers, and nothing otherwise.
pub open spec fn shown_before(
    modifiers: Seq<String>,
    tag: Seq<char>,
    shown: Seq<char>,
) -> Seq<char> {
    if exists|i: int|
        0 <= i < modifiers.len() && text::same_ignoring_ascii_case(
            (#[trigger] modifiers[i])@,
            tag,
        ) {
        shown + "+"@
    } else {
        Seq::empty()
    }
}

proof fn lemma_label(
    primary: Seq<char>,
    modifiers: Seq<String>,
    target: TargetOs,
)
    ensures
        combination_label(
            KeyCombination { primary, modifiers: text::texts(modifiers) },
            target,
        ) == shown_before(modifiers, "cmd"@, modifier_label("cmd"@, target)) + shown_before(
            modifiers,
            "ctrl"@,
            modifier_label("ctrl"@, target),
        ) + shown_before(modifiers, "alt"@, modifier_label("alt"@, target)) + shown_before(
            modifiers,
            "shift"@,
            modifier_label("shift"@, target),
        ) + shown_before(modifiers, "super"@, modifier_label("super"@, target)) + primary_label(
            primary,
        ),
{
    let all = text::texts(modifiers);
    assert(all.len() == modifiers.len());
    assert forall|i: int| 0 <= i < all.len() implies #[trigger] all[i] == modifiers[i]@ by {}
    assert forall|tag: Seq<char>| #[trigger]
        holds(all, tag) == exists|i: int|
            0 <= i < modifiers.len() && text::same_ignoring_ascii_case(
                (#[trigger] modifiers[i])@,
                tag,
            ) by {
        if holds(all, tag) {
            let i = choose|i: int|
                0 <= i < all.len() && text::same_ignoring_ascii_case(#[trigger] all[i], tag);
            assert(text::same_ignoring_ascii_case(modifiers[i]@, tag));
        }
        if exists|i: int|
            0 <= i < modifiers.len() && text::same_ignoring_ascii_case(
                (#[trigger] modifiers[i])@,
                tag,
            ) {
            let i = choose|i: int|
                0 <= i < modifiers.len() && text::same_ignoring_ascii_case(
                    (#[trigger] modifiers[i])@,
                    tag,
                );
            assert(text::same_ignoring_ascii_case(all[i], tag));
        }
    }
    let plus = "+"@;
    let cmd = modifier_part(all, "cmd"@, target);
    let ctrl = modifier_part(all, "ctrl"@, target);
    let alt = modifier_part(all, "alt"@, target);
    let shift = modifier_part(all, "shift"@, target);
    let sup = modifier_part(all, "super"@, target);
    lemma_led_by_more(Seq::empty(), cmd, plus);
    assert(Seq::<Seq<char>>::empty() + cmd =~= cmd);
    lemma_led_by_more(cmd, ctrl, plus);
    lemma_led_by_more(cmd + ctrl, alt, plus);
    lemma_led_by_more(cmd + ctrl + alt, shift, plus);
    lemma_led_by_more(cmd + ctrl + alt + shift, sup, plus);
    lemma_led_by(cmd + ctrl + alt + shift + sup, primary_label(primary), plus);
    assert(led_by(Seq::empty(), plus) =~= Seq::<char>::empty());
    assert(led_by(cmd, plus) =~= shown_before(modifiers, "cmd"@, modifier_label("cmd"@, target)));
}

/// The label of a shortcut: its modifiers in a fixed order, each once whatever the order and case in
/// which it was given, and the key last.
pub proof fn labels_list_each_modifier_once(
    binding: &ShortcutBinding,
    qa: &QaHotkeyBinding,
    combo: &ComboBinding,
    target: TargetOs,
    primary: &str,
    key: String,
    cmd: &'static str,
    ctrl: &'static str,
    alt: &'static str,
    shift: &'static str,
    sup: &'static str,
    r: String,
    qa_label: String,
    combo_label: String,
)
    requires
        binding.primary@ == primary@ && qa.primary@ == primary@ && combo.primary@ == primary@,
        qa.modifiers@ == binding.modifiers@ && combo.modifiers@ == binding.modifiers@,
        call_ensures(display_primary, (primary,), key),
        call_ensures(modifier_display, ("cmd", target), cmd),
        call_ensures(modifier_display, ("ctrl", target), ctrl),
        call_ensures(modifier_display, ("alt", target), alt),
        call_ensures(modifier_display, ("shift", target), shift),
        call_ensures(modifier_display, ("super", target), sup),
        call_ensures(ShortcutBinding::display_label, (binding, target), r),
        call_ensures(QaHotkeyBinding::display_label, (qa, target), qa_label),
        call_ensures(ComboBinding::display_label, (combo, target), combo_label),
    ensures
        r@ == shown_before(binding.modifiers@, "cmd"@, cmd@) + shown_before(
            binding.modifiers@,
            "ctrl"@,
            ctrl@,
        ) + shown_before(binding.modifiers@, "alt"@, alt@) + shown_before(
            binding.modifiers@,
            "shift"@,
            shift@,
        ) + shown_before(binding.modifiers@, "super"@, sup@) + key@,
        qa_label@ == r@,
        combo_label@ == r@,
{
    lemma_label(binding.primary@, binding.modifiers@, target);
}

/// The names of the modifiers on each system; a tag that is no modifier has none.
pub proof fn modifiers_are_named_as_on_the_keyboard(tag: &str, target: TargetOs, r: &'static str)
    requires
        call_ensures(modifier_display, (tag, target), r),
    ensures
        tag@ == "cmd"@ && target is Macos ==> r@ == "Cmd"@,
        tag@ == "cmd"@ && target is Windows ==> r@ == "Ctrl"@,
        tag@ == "cmd"@ && !(target is Macos) && !(target is Windows) ==> r@ == "Super"@,
        tag@ == "ctrl"@ ==> r@ == "Ctrl"@,
        tag@ == "alt"@ && target is Macos ==> r@ == "Option"@,
        tag@ == "alt"@ && !(target is Macos) ==> r@ == "Alt"@,
        tag@ == "shift"@ ==> r@ == "Shift"@,
        tag@ == "super"@ ==> r@ == "Super"@,
        tag@ != "cmd"@ && tag@ != "ctrl"@ && tag@ != "alt"@ && tag@ != "shift"@ && tag@ != "super"@
            ==> r@ == ""@,
{
    reveal_strlit("cmd");
    reveal_strlit("ctrl");
    reveal_strlit("alt");
    reveal_strlit("shift");
    reveal_strlit("super");
    assert("cmd"@.len() == 3 && "alt"@.len() == 3 && "ctrl"@.len() == 4);
    assert("shift"@.len() == 5 && "super"@.len() == 5);
    assert("cmd"@[0] != "alt"@[0]);
    assert("shift"@[1] != "super"@[1]);
}

proof fn lemma_upper(c: char)
    ensures
        'a' <= c <= 'z' ==> ascii_upper(c) as int == c as int - 32,
        !('a' <= c <= 'z') ==> ascii_upper(c) == c,
{
}

/// A key is shown without the white space around it, a single letter as a capital, and no key as a
/// question mark.
pub proof fn letters_are_shown_as_capitals(primary: &str, r: String)
    requires
        call_ensures(display_primary, (primary,), r),
    ensures
        text::is_blank(primary@) ==> r@ == "?"@,
        !text::is_blank(primary@) ==> r@.len() == text::trimmed(primary@).len(),
        text::trimmed(primary@).len() > 1 ==> r@ == text::trimmed(primary@),
        text::trimmed(primary@).len() == 1 ==> {
            let c = text::trimmed(primary@)[0];
            &&& 'a' <= c <= 'z' ==> r@[0] as int == c as int - 32
            &&& !('a' <= c <= 'z') ==> r@[0] == c
        },
{
    text::trimming_takes_all_white_space_at_the_ends(primary@);
    if text::trimmed(primary@).len() == 1 {
        let key = text::trimmed(primary@);
        assert(key =~= seq![key[0]]);
        lemma_upper(key[0]);
    }
}

/// The shortcuts that are there from the start: the modifier of the system and Shift, and for
/// questions the semicolon.
pub proof fn default_shortcuts_use_the_modifier_of_the_system(
    target: TargetOs,
    modifiers: Vec<String>,
    qa: ShortcutBinding,
    qa_hotkey: QaHotkeyBinding,
    primary: &str,
    lone: ShortcutBinding,
    key: HotkeyKey,
    dictation: HotkeyBinding,
)
    requires
        call_ensures(default_app_shortcut_modifiers, (target,), modifiers),
        call_ensures(ShortcutBinding::default_qa, (target,), qa),
        call_ensures(QaHotkeyBinding::default_for, (target,), qa_hotkey),
        call_ensures(ShortcutBinding::lone, (primary,), lone),
        call_ensures(HotkeyKey::new, (primary,), key),
        call_ensures(HotkeyBinding::default_for, (target,), dictation),
    ensures
        modifiers@.len() == 2,
        target is Macos ==> modifiers@[0]@ == "cmd"@,
        !(target is Macos) ==> modifiers@[0]@ == "ctrl"@,
        modifiers@[1]@ == "shift"@,
        qa.primary@ == ";"@ && qa_hotkey.primary@ == ";"@,
        qa.modifiers@.len() == 2 && qa_hotkey.modifiers@.len() == 2,
        forall|i: int|
            0 <= i < 2 ==> (#[trigger] qa.modifiers@[i])@ == modifiers@[i]@,
        forall|i: int|
            0 <= i < 2 ==> (#[trigger] qa_hotkey.modifiers@[i])@ == modifiers@[i]@,
        lone.primary@ == primary@ && lone.modifiers@.len() == 0,
        key.code@ == primary@,
        target is Windows ==> dictation.trigger is RightControl,
        !(target is Windows) ==> dictation.trigger is RightOption,
        dictation.mode is Toggle && dictation.keys is None,
{
    let all = text::texts(modifiers@);
    assert(all.len() == modifiers@.len());
    assert(all[0] == modifiers@[0]@ && all[1] == modifiers@[1]@);
    text::same_texts(qa.modifiers@, modifiers@);
    text::same_texts(qa_hotkey.modifiers@, modifiers@);
    assert(text::texts(lone.modifiers@).len() == lone.modifiers@.len());
}

proof fn lemma_key_codes(keys: Seq<HotkeyKey>)
    ensures
        key_codes(keys) == keys.map_values(|k: HotkeyKey| text::trimmed(k.code@)).filter(
            |code: Seq<char>| code.len() > 0,
        ),
    decreases keys.len(),
{
    reveal(Seq::filter);
    let codes = keys.map_values(|k: HotkeyKey| text::trimmed(k.code@));
    if keys.len() > 0 {
        lemma_key_codes(keys.drop_last());
        assert(codes.drop_last() =~= keys.drop_last().map_values(
            |k: HotkeyKey| text::trimmed(k.code@),
        ));
        assert(codes.last() == text::trimmed(keys.last().code@));
    }
}

/// The keys of a binding: those that were recorded, without white space around them and without
/// blank ones, in their order; or the key of the trigger; or none for a custom trigger.
pub proof fn bindings_have_the_keys_recorded(
    binding: &HotkeyBinding,
    target: TargetOs,
    of_trigger: &'static str,
    r: Vec<String>,
)
    requires
        call_ensures(legacy_trigger_code, (binding.trigger, target), of_trigger),
        call_ensures(HotkeyBinding::effective_codes, (binding, target), r),
    ensures
        binding.keys matches Some(keys) ==> r@.map_values(|code: String| code@) == keys@.map_values(
            |k: HotkeyKey| text::trimmed(k.code@),
        ).filter(|code: Seq<char>| code.len() > 0),
        binding.keys is None && binding.trigger is Custom ==> r@.len() == 0,
        binding.keys is None && !(binding.trigger is Custom) ==> r@.len() == 1 && r@[0]@
            == of_trigger@,
{
    let codes = text::texts(r@);
    assert(codes =~= r@.map_values(|code: String| code@));
    assert(codes.len() == r@.len());
    if binding.keys is Some {
        lemma_key_codes(binding.keys->0@);
    } else if !(binding.trigger is Custom) {
        assert(codes[0] == r@[0]@);
    }
}

/// The key that a trigger stands for, under the name that browsers give it. Fn does not reach
/// Windows, where it is the right Control key.
pub proof fn triggers_stand_for_keys(trigger: HotkeyTrigger, target: TargetOs, r: &'static str)
    requires
        call_ensures(legacy_trigger_code, (trigger, target), r),
    ensures
        trigger is RightOption || trigger is RightAlt ==> r@ == "AltRight"@,
        trigger is LeftOption ==> r@ == "AltLeft"@,
        trigger is RightControl ==> r@ == "ControlRight"@,
        trigger is LeftControl ==> r@ == "ControlLeft"@,
        trigger is RightCommand ==> r@ == "MetaRight"@,
        trigger is LeftCommand ==> r@ == "MetaLeft"@,
        trigger is LeftShift ==> r@ == "ShiftLeft"@,
        trigger is RightShift ==> r@ == "ShiftRight"@,
        trigger is Fn && target is Windows ==> r@ == "ControlRight"@,
        trigger is Fn && !(target is Windows) ==> r@ == "Fn"@,
        trigger is MediaPlayPause ==> r@ == "MediaPlayPause"@,
        trigger is Custom ==> r@.len() == 0,
{
}

/// The names of triggers and adapters on the settings page.
pub proof fn triggers_and_adapters_are_shown_by_name(
    trigger: &HotkeyTrigger,
    name: &'static str,
    adapter: &HotkeyAdapterKind,
    adapter_name: &'static str,
)
    requires
        call_ensures(HotkeyTrigger::display_name, (trigger,), name),
        call_ensures(HotkeyAdapterKind::display_name, (adapter,), adapter_name),
    ensures
        trigger is RightOption ==> name@ == "右 Option"@,
        trigger is LeftOption ==> name@ == "左 Option"@,
        trigger is RightControl ==> name@ == "右 Control"@,
        trigger is LeftControl ==> name@ == "左 Control"@,
        trigger is RightCommand ==> name@ == "右 Command"@,
        trigger is LeftCommand ==> name@ == "左 Command"@,
        trigger is LeftShift ==> name@ == "左 Shift"@,
        trigger is RightShift ==> name@ == "右 Shift"@,
        trigger is Fn ==> name@ == "Fn (地球键)"@,
        trigger is RightAlt ==> name@ == "右 Alt"@,
        trigger is MediaPlayPause ==> name@ == "⏯ Media 播放/暂停"@,
        trigger is Custom ==> name@ == "自定义组合键"@,
        adapter is MacEventTap ==> adapter_name@ == "macOS Event Tap"@,
        adapter is WindowsLowLevel ==> adapter_name@ == "Windows 低层键盘 hook"@,
        adapter is Fcitx5 ==> adapter_name@ == "fcitx5 输入法插件"@,
        adapter is Unavailable ==> adapter_name@ == "不可用"@,
{
}

/// A binding without keys says that it is not set; one with keys shows each of them, with plus signs
/// between.
pub proof fn bindings_show_each_of_their_keys(
    binding: &HotkeyBinding,
    target: TargetOs,
    codes: Vec<String>,
    shown: Vec<String>,
    joined: String,
    label: String,
)
    requires
        call_ensures(HotkeyBinding::effective_codes, (binding, target), codes),
        shown@.len() == codes@.len(),
        forall|i: int|
            0 <= i < codes@.len() ==> exists|code: &str|
                code@ == (#[trigger] codes@[i])@ && #[trigger] call_ensures(
                    display_hotkey_code,
                    (code,),
                    shown@[i],
                ),
        call_ensures(text::join, (&shown, "+"), joined),
        call_ensures(HotkeyBinding::display_label, (binding, target), label),
    ensures
        codes@.len() == 0 ==> label@ == "未设置"@,
        codes@.len() > 0 ==> label@ == joined@,
{
    let all = text::texts(codes@);
    assert(all.len() == codes@.len());
    assert forall|i: int| 0 <= i < codes@.len() implies text::texts(shown@)[i] == all.map_values(
        |code: Seq<char>| code_label(code),
    )[i] by {
        assert(all[i] == codes@[i]@);
        assert(text::texts(shown@)[i] == shown@[i]@);
    }
    assert(text::texts(shown@) =~= all.map_values(|code: Seq<char>| code_label(code)));
}

/// An error of the installation shows its message and, in brackets, its code; the status before the
/// installation says that it has begun.
pub proof fn installations_report_what_happened(
    error: &HotkeyInstallError,
    description: String,
    target: TargetOs,
    status: HotkeyStatus,
)
    requires
        call_ensures(HotkeyInstallError::description, (error,), description),
        call_ensures(HotkeyStatus::default_for, (target,), status),
    ensures
        description@ == error.message@ + " ("@ + error.code@ + ")"@,
        status.state is Starting && status.last_error is None,
        status.message is Some && status.message->0@ == "正在安装全局快捷键监听"@,
        target is Macos ==> status.adapter is MacEventTap,
        target is Windows ==> status.adapter is WindowsLowLevel,
        target is Linux || target is Other ==> status.adapter is Fcitx5,
        target is Android || target is Ios ==> status.adapter is Unavailable,
{
}

/// The keys that have a name of their own are shown by it.
pub proof fn named_keys_are_shown_by_name(code: &str, r: String)
    requires
        call_ensures(display_hotkey_code, (code,), r),
    ensures
        code@ == "ControlLeft"@ ==> r@ == "左Ctrl"@,
        code@ == "ControlRight"@ ==> r@ == "右 Control"@,
        code@ == "AltLeft"@ ==> r@ == "左Alt"@,
        code@ == "AltRight"@ ==> r@ == "右Alt"@,
        code@ == "ShiftLeft"@ ==> r@ == "左Shift"@,
        code@ == "ShiftRight"@ ==> r@ == "右Shift"@,
        code@ == "MetaLeft"@ || code@ == "OSLeft"@ ==> r@ == "左Win"@,
        code@ == "MetaRight"@ || code@ == "OSRight"@ ==> r@ == "右Win"@,
        code@ == "ScrollLock"@ ==> r@ == "ScrLock"@,
        code@ == "PrintScreen"@ ==> r@ == "PrtSc"@,
        code@ == "ArrowUp"@ ==> r@ == "Up"@,
        code@ == "ArrowDown"@ ==> r@ == "Down"@,
        code@ == "ArrowLeft"@ ==> r@ == "Left"@,
        code@ == "ArrowRight"@ ==> r@ == "Right"@,
        code@ == "NumpadAdd"@ ==> r@ == "Num+"@,
        code@ == "NumpadSubtract"@ ==> r@ == "Num-"@,
        code@ == "NumpadMultiply"@ ==> r@ == "Num*"@,
        code@ == "NumpadDivide"@ ==> r@ == "Num/"@,
        code@ == "NumpadDecimal"@ ==> r@ == "Num."@,
        code@ == "NumpadEnter"@ ==> r@ == "NumEnter"@,
        code@ == "Backquote"@ ==> r@ == "`"@,
        code@ == "Minus"@ ==> r@ == "-"@,
        code@ == "Equal"@ ==> r@ == "="@,
        code@ == "BracketLeft"@ ==> r@ == "["@,
        code@ == "BracketRight"@ ==> r@ == "]"@,
        code@ == "Backslash"@ ==> r@ == "\\"@,
        code@ == "Semicolon"@ ==> r@ == ";"@,
        code@ == "Quote"@ ==> r@ == "'"@,
        code@ == "Comma"@ ==> r@ == ","@,
        code@ == "Period"@ ==> r@ == "."@,
        code@ == "Slash"@ ==> r@ == "/"@,
{
    reveal_strlit("ControlLeft");
    assert("ControlLeft"@.len() == 11 && "ControlLeft"@[0] == 'C');
    reveal_strlit("ControlRight");
    assert("ControlRight"@.len() == 12 && "ControlRight"@[0] == 'C');
    reveal_strlit("AltLeft");
    assert("AltLeft"@.len() == 7 && "AltLeft"@[1] == 'l');
    reveal_strlit("AltRight");
    assert("AltRight"@.len() == 8 && "AltRight"@[0] == 'A');
    reveal_strlit("ShiftLeft");
    assert("ShiftLeft"@.len() == 9 && "ShiftLeft"@[0] == 'S' && "ShiftLeft"@[5] == 'L');
    reveal_strlit("ShiftRight");
    assert("ShiftRight"@.len() == 10 && "ShiftRight"@[1] == 'h');
    reveal_strlit("MetaLeft");
    assert("MetaLeft"@.len() == 8 && "MetaLeft"@[0] == 'M');
    reveal_strlit("OSLeft");
    assert("OSLeft"@.len() == 6 && "OSLeft"@[0] == 'O');
    reveal_strlit("MetaRight");
    assert("MetaRight"@.len() == 9 && "MetaRight"@[0] == 'M' && "MetaRight"@[5] == 'i');
    reveal_strlit("OSRight");
    assert("OSRight"@.len() == 7 && "OSRight"@[1] == 'S');
    reveal_strlit("ScrollLock");
    assert("ScrollLock"@.len() == 10 && "ScrollLock"@[1] == 'c');
    reveal_strlit("PrintScreen");
    assert("PrintScreen"@.len() == 11 && "PrintScreen"@[0] == 'P');
    reveal_strlit("ArrowUp");
    assert("ArrowUp"@.len() == 7 && "ArrowUp"@[1] == 'r');
    reveal_strlit("ArrowDown");
    assert("ArrowDown"@.len() == 9 && "ArrowDown"@[0] == 'A' && "ArrowDown"@[5] == 'D');
    reveal_strlit("ArrowLeft");
    assert("ArrowLeft"@.len() == 9 && "ArrowLeft"@[0] == 'A' && "ArrowLeft"@[5] == 'L');
    reveal_strlit("ArrowRight");
    assert("ArrowRight"@.len() == 10 && "ArrowRight"@[1] == 'r');
    reveal_strlit("NumpadAdd");
    assert("NumpadAdd"@.len() == 9 && "NumpadAdd"@[0] == 'N' && "NumpadAdd"@[5] == 'd');
    reveal_strlit("NumpadSubtract");
    assert("NumpadSubtract"@.len() == 14 && "NumpadSubtract"@[6] == 'S');
    reveal_strlit("NumpadMultiply");
    assert("NumpadMultiply"@.len() == 14 && "NumpadMultiply"@[6] == 'M');
    reveal_strlit("NumpadDivide");
    assert("NumpadDivide"@.len() == 12 && "NumpadDivide"@[0] == 'N');
    reveal_strlit("NumpadDecimal");
    assert("NumpadDecimal"@.len() == 13);
    reveal_strlit("NumpadEnter");
    assert("NumpadEnter"@.len() == 11 && "NumpadEnter"@[0] == 'N');
    reveal_strlit("Backquote");
    assert("Backquote"@.len() == 9 && "Backquote"@[0] == 'B' && "Backquote"@[5] == 'u');
    reveal_strlit("Minus");
    assert("Minus"@.len() == 5 && "Minus"@[0] == 'M');
    reveal_strlit("Equal");
    assert("Equal"@.len() == 5 && "Equal"@[0] == 'E');
    reveal_strlit("BracketLeft");
    assert("BracketLeft"@.len() == 11 && "BracketLeft"@[0] == 'B');
    reveal_strlit("BracketRight");
    assert("BracketRight"@.len() == 12 && "BracketRight"@[0] == 'B');
    reveal_strlit("Backslash");
    assert("Backslash"@.len() == 9 && "Backslash"@[0] == 'B' && "Backslash"@[5] == 'l');
    reveal_strlit("Semicolon");
    assert("Semicolon"@.len() == 9 && "Semicolon"@[0] == 'S' && "Semicolon"@[5] == 'o');
    reveal_strlit("Quote");
    assert("Quote"@.len() == 5 && "Quote"@[0] == 'Q');
    reveal_strlit("Comma");
    assert("Comma"@.len() == 5 && "Comma"@[0] == 'C');
    reveal_strlit("Period");
    assert("Period"@.len() == 6 && "Period"@[0] == 'P');
    reveal_strlit("Slash");
    assert("Slash"@.len() == 5 && "Slash"@[0] == 'S');
}

/// A letter or digit key is shown by its letter or digit, a digit of the number pad with `Num`
/// before it.
pub proof fn letter_and_digit_keys_are_shown_by_their_character(code: &str, c: char, r: String)
    requires
        code@ == "Key"@.push(c) || code@ == "Digit"@.push(c) || code@ == "Numpad"@.push(c),
        'A' <= c <= 'Z' || '0' <= c <= '9',
        code@ == "Numpad"@.push(c) ==> '0' <= c <= '9',
        call_ensures(display_hotkey_code, (code,), r),
    ensures
        code@ == "Key"@.push(c) || code@ == "Digit"@.push(c) ==> r@ == seq![c],
        code@ == "Numpad"@.push(c) ==> r@ == "Num"@ + seq![c],
{
    lemma_not_named(code@, c);
}

proof fn lemma_not_named(code: Seq<char>, c: char)
    requires
        code == "Key"@.push(c) || code == "Digit"@.push(c) || code == "Numpad"@.push(c),
        'A' <= c <= 'Z' || '0' <= c <= '9',
    ensures
        named_key(code) is None,
        code == "Key"@.push(c) || code == "Digit"@.push(c) ==> code_label(code) == seq![c],
        code == "Numpad"@.push(c) && '0' <= c <= '9' ==> code_label(code) == "Num"@.push(c),
{
    reveal_strlit("Key");
    reveal_strlit("Digit");
    reveal_strlit("Numpad");
    reveal_strlit("ControlLeft");
    assert("ControlLeft"@.len() == 11);
    assert("ControlLeft"@.last() == 't');
    reveal_strlit("ControlRight");
    assert("ControlRight"@.len() == 12);
    assert("ControlRight"@.last() == 't');
    reveal_strlit("AltLeft");
    assert("AltLeft"@.len() == 7);
    assert("AltLeft"@.last() == 't');
    reveal_strlit("AltRight");
    assert("AltRight"@.len() == 8);
    assert("AltRight"@.last() == 't');
    reveal_strlit("ShiftLeft");
    assert("ShiftLeft"@.len() == 9);
    assert("ShiftLeft"@.last() == 't');
    reveal_strlit("ShiftRight");
    assert("ShiftRight"@.len() == 10);
    assert("ShiftRight"@.last() == 't');
    reveal_strlit("MetaLeft");
    assert("MetaLeft"@.len() == 8);
    assert("MetaLeft"@.last() == 't');
    reveal_strlit("OSLeft");
    assert("OSLeft"@.len() == 6);
    assert("OSLeft"@.last() == 't');
    reveal_strlit("MetaRight");
    assert("MetaRight"@.len() == 9);
    assert("MetaRight"@.last() == 't');
    reveal_strlit("OSRight");
    assert("OSRight"@.len() == 7);
    assert("OSRight"@.last() == 't');
    reveal_strlit("ScrollLock");
    assert("ScrollLock"@.len() == 10);
    assert("ScrollLock"@.last() == 'k');
    reveal_strlit("PrintScreen");
    assert("PrintScreen"@.len() == 11);
    assert("PrintScreen"@.last() == 'n');
    reveal_strlit("ArrowUp");
    assert("ArrowUp"@.len() == 7);
    assert("ArrowUp"@.last() == 'p');
    reveal_strlit("ArrowDown");
    assert("ArrowDown"@.len() == 9);
    assert("ArrowDown"@.last() == 'n');
    reveal_strlit("ArrowLeft");
    assert("ArrowLeft"@.len() == 9);
    assert("ArrowLeft"@.last() == 't');
    reveal_strlit("ArrowRight");
    assert("ArrowRight"@.len() == 10);
    assert("ArrowRight"@.last() == 't');
    reveal_strlit("NumpadAdd");
    assert("NumpadAdd"@.len() == 9);
    assert("NumpadAdd"@.last() == 'd');
    reveal_strlit("NumpadSubtract");
    assert("NumpadSubtract"@.len() == 14);
    assert("NumpadSubtract"@.last() == 't');
    reveal_strlit("NumpadMultiply");
    assert("NumpadMultiply"@.len() == 14);
    assert("NumpadMultiply"@.last() == 'y');
    reveal_strlit("NumpadDivide");
    assert("NumpadDivide"@.len() == 12);
    assert("NumpadDivide"@.last() == 'e');
    reveal_strlit("NumpadDecimal");
    assert("NumpadDecimal"@.len() == 13);
    assert("NumpadDecimal"@.last() == 'l');
    reveal_strlit("NumpadEnter");
    assert("NumpadEnter"@.len() == 11);
    assert("NumpadEnter"@.last() == 'r');
    reveal_strlit("Backquote");
    assert("Backquote"@.len() == 9);
    assert("Backquote"@.last() == 'e');
    reveal_strlit("Minus");
    assert("Minus"@.len() == 5);
    assert("Minus"@.last() == 's');
    reveal_strlit("Equal");
    assert("Equal"@.len() == 5);
    assert("Equal"@.last() == 'l');
    reveal_strlit("BracketLeft");
    assert("BracketLeft"@.len() == 11);
    assert("BracketLeft"@.last() == 't');
    reveal_strlit("BracketRight");
    assert("BracketRight"@.len() == 12);
    assert("BracketRight"@.last() == 't');
    reveal_strlit("Backslash");
    assert("Backslash"@.len() == 9);
    assert("Backslash"@.last() == 'h');
    reveal_strlit("Semicolon");
    assert("Semicolon"@.len() == 9);
    assert("Semicolon"@.last() == 'n');
    reveal_strlit("Quote");
    assert("Quote"@.len() == 5);
    assert("Quote"@.last() == 'e');
    reveal_strlit("Comma");
    assert("Comma"@.len() == 5);
    assert("Comma"@.last() == 'a');
    reveal_strlit("Period");
    assert("Period"@.len() == 6);
    assert("Period"@.last() == 'd');
    reveal_strlit("Slash");
    assert("Slash"@.len() == 5);
    assert("Slash"@.last() == 'h');
    assert("Key"@.len() == 3 && "Digit"@.len() == 5 && "Numpad"@.len() == 6);
    assert(code.last() == c);
    assert(code.take(3) =~= "Key"@ || code.take(5) =~= "Digit"@ || code.take(6) =~= "Numpad"@);
}

} // verus!
