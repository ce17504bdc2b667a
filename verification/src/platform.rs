//! The systems the application is built for, and what each of them offers.

use vstd::prelude::*;

use crate::hotkeys::{HotkeyAdapterKind, HotkeyTrigger};
use crate::text;

verus! {

/// The operating system of a build.
#[derive(Debug, Clone, Copy, PartialEq, Eq, Structural)]
pub enum TargetOs {
    Macos,
    Windows,
    Linux,
    Android,
    Ios,
    Other,
}

/// Android and iOS: no desktop, no global shortcuts.
pub open spec fn is_mobile(target: TargetOs) -> bool {
    target is Android || target is Ios
}

#[derive(Debug, Clone, PartialEq, Eq)]
pub struct HotkeyCapability {
    pub adapter: HotkeyAdapterKind,
    pub available_triggers: Vec<HotkeyTrigger>,
    pub requires_accessibility_permission: bool,
    pub supports_modifier_only_trigger: bool,
    pub supports_side_specific_modifiers: bool,
    pub explicit_fallback_available: bool,
    pub status_hint: Option<String>,
}

/// The adapter that listens for global shortcuts.
pub open spec fn adapter_of(target: TargetOs) -> HotkeyAdapterKind {
    match target {
        TargetOs::Macos => HotkeyAdapterKind::MacEventTap,
        TargetOs::Windows => HotkeyAdapterKind::WindowsLowLevel,
        TargetOs::Android | TargetOs::Ios => HotkeyAdapterKind::Unavailable,
        TargetOs::Linux | TargetOs::Other => HotkeyAdapterKind::Fcitx5,
    }
}

/// The triggers that the settings page offers, in its order.
pub open spec fn triggers_of(target: TargetOs) -> Seq<HotkeyTrigger> {
    match target {
        TargetOs::Macos => seq![
            HotkeyTrigger::RightOption,
            HotkeyTrigger::LeftOption,
            HotkeyTrigger::RightControl,
            HotkeyTrigger::LeftControl,
            HotkeyTrigger::RightCommand,
            HotkeyTrigger::LeftCommand,
            HotkeyTrigger::LeftShift,
            HotkeyTrigger::RightShift,
            HotkeyTrigger::Fn,
            HotkeyTrigger::Custom,
        ],
        TargetOs::Windows => seq![
            HotkeyTrigger::RightControl,
            HotkeyTrigger::RightAlt,
            HotkeyTrigger::LeftControl,
            HotkeyTrigger::LeftShift,
            HotkeyTrigger::RightShift,
            HotkeyTrigger::MediaPlayPause,
            HotkeyTrigger::Custom,
        ],
        TargetOs::Android | TargetOs::Ios => Seq::empty(),
        TargetOs::Linux | TargetOs::Other => seq![
            HotkeyTrigger::RightAlt,
            HotkeyTrigger::RightControl,
            HotkeyTrigger::LeftControl,
            HotkeyTrigger::LeftCommand,
            HotkeyTrigger::LeftShift,
            HotkeyTrigger::RightShift,
            HotkeyTrigger::Custom,
        ],
    }
}

/// The hint shown beside the shortcut settings.
pub open spec fn hint_of(target: TargetOs) -> Seq<char> {
    match target {
        TargetOs::Macos => "授权辅助功能后，通常需要完全退出并重新打开 OpenLess。"@,
        TargetOs::Windows =>
            "默认建议使用“右Ctrl + 单击”；若更习惯按住说话，可在录音设置里切回“按住”。若无响应，可在权限页查看 hook 安装状态。"@,
        TargetOs::Android | TargetOs::Ios =>
            "移动端不支持全局热键；请使用应用内录音按钮或悬浮窗（需授权）。"@,
        TargetOs::Linux | TargetOs::Other =>
            "Linux 使用 fcitx5 插件监听热键和提交文字。鼠标/侧别组合键需 evdev 读取 /dev/input/event*；若无权限请将用户加入 input 组（sudo usermod -aG input $USER）后重新登录。"@,
    }
}

impl HotkeyCapability {
    /// What `target` offers for global shortcuts.
    pub fn current(target: TargetOs) -> (r: HotkeyCapability)
        ensures
            r.adapter == adapter_of(target),
            r.available_triggers@ == triggers_of(target),
            r.requires_accessibility_permission == (target is Macos),
            r.supports_modifier_only_trigger == !is_mobile(target),
            r.supports_side_specific_modifiers == !is_mobile(target),
            !r.explicit_fallback_available,
            text::optional_text(r.status_hint) == Some(hint_of(target)),
    {
        match target {
            TargetOs::Android | TargetOs::Ios => HotkeyCapability {
                adapter: HotkeyAdapterKind::Unavailable,
                available_triggers: Vec::new(),
                requires_accessibility_permission: false,
                supports_modifier_only_trigger: false,
                supports_side_specific_modifiers: false,
                explicit_fallback_available: false,
                status_hint: Some(
                    "移动端不支持全局热键；请使用应用内录音按钮或悬浮窗（需授权）。".to_owned(),
                ),
            },
            TargetOs::Macos => HotkeyCapability {
                adapter: HotkeyAdapterKind::MacEventTap,
                available_triggers: vec![
                    HotkeyTrigger::RightOption,
                    HotkeyTrigger::LeftOption,
                    HotkeyTrigger::RightControl,
                    HotkeyTrigger::LeftControl,
                    HotkeyTrigger::RightCommand,
                    HotkeyTrigger::LeftCommand,
                    HotkeyTrigger::LeftShift,
                    HotkeyTrigger::RightShift,
                    HotkeyTrigger::Fn,
                    HotkeyTrigger::Custom,
                ],
                requires_accessibility_permission: true,
                supports_modifier_only_trigger: true,
                supports_side_specific_modifiers: true,
                explicit_fallback_available: false,
                status_hint: Some(
                    "授权辅助功能后，通常需要完全退出并重新打开 OpenLess。".to_owned(),
                ),
            },
            // There is no Command key on Windows, and a lone press of the Windows key opens the
            // start menu, so neither Command trigger is offered there.
            TargetOs::Windows => HotkeyCapability {
                adapter: HotkeyAdapterKind::WindowsLowLevel,
                available_triggers: vec![
                    HotkeyTrigger::RightControl,
                    HotkeyTrigger::RightAlt,
                    HotkeyTrigger::LeftControl,
                    HotkeyTrigger::LeftShift,
                    HotkeyTrigger::RightShift,
                    HotkeyTrigger::MediaPlayPause,
                    HotkeyTrigger::Custom,
                ],
                requires_accessibility_permission: false,
                supports_modifier_only_trigger: true,
                supports_side_specific_modifiers: true,
                explicit_fallback_available: false,
                status_hint: Some(
                    "默认建议使用“右Ctrl + 单击”；若更习惯按住说话，可在录音设置里切回“按住”。若无响应，可在权限页查看 hook 安装状态。".to_owned(),
                ),
            },
            TargetOs::Linux | TargetOs::Other => HotkeyCapability {
                adapter: HotkeyAdapterKind::Fcitx5,
                available_triggers: vec![
                    HotkeyTrigger::RightAlt,
                    HotkeyTrigger::RightControl,
                    HotkeyTrigger::LeftControl,
                    HotkeyTrigger::LeftCommand,
                    HotkeyTrigger::LeftShift,
                    HotkeyTrigger::RightShift,
                    HotkeyTrigger::Custom,
                ],
                requires_accessibility_permission: false,
                supports_modifier_only_trigger: true,
                supports_side_specific_modifiers: true,
                explicit_fallback_available: false,
                status_hint: Some(
                    "Linux 使用 fcitx5 插件监听热键和提交文字。鼠标/侧别组合键需 evdev 读取 /dev/input/event*；若无权限请将用户加入 input 组（sudo usermod -aG input $USER）后重新登录。".to_owned(),
                ),
            },
        }
    }
}

#[derive(Debug, Clone, PartialEq, Eq)]
pub struct PlatformCapabilities {
    pub platform: String,
    pub supports_ime_input: bool,
    pub supports_overlay: bool,
    pub supports_desktop_hotkey: bool,
    pub supports_tray: bool,
    pub supports_local_asr: bool,
    pub supports_local_qwen3_mlx: bool,
    pub supports_in_app_dictation: bool,
    pub supports_auto_update: bool,
}

/// The name of the family that `target` belongs to.
pub open spec fn platform_name(target: TargetOs) -> Seq<char> {
    match target {
        TargetOs::Android => "android"@,
        TargetOs::Ios => "mobile"@,
        _ => "desktop"@,
    }
}

impl PlatformCapabilities {
    /// What a build for `target` supports; `aarch64` tells the processor.
    pub fn current(target: TargetOs, aarch64: bool) -> (r: PlatformCapabilities)
        ensures
            r.platform@ == platform_name(target),
            r.supports_ime_input == (target is Windows),
            r.supports_overlay == !(target is Ios),
            r.supports_desktop_hotkey == !is_mobile(target),
            r.supports_tray == !is_mobile(target),
            r.supports_local_asr == (target is Macos || target is Linux || target is Windows),
            r.supports_local_qwen3_mlx == (target is Macos && aarch64),
            r.supports_in_app_dictation == (target is Android),
            r.supports_auto_update == !(target is Ios),
    {
        match target {
            TargetOs::Android => PlatformCapabilities {
                platform: "android".to_owned(),
                supports_ime_input: false,
                supports_overlay: true,
                supports_desktop_hotkey: false,
                supports_tray: false,
                supports_local_asr: false,
                supports_local_qwen3_mlx: false,
                supports_in_app_dictation: true,
                supports_auto_update: true,
            },
            TargetOs::Ios => PlatformCapabilities {
                platform: "mobile".to_owned(),
                supports_ime_input: false,
                supports_overlay: false,
                supports_desktop_hotkey: false,
                supports_tray: false,
                supports_local_asr: false,
                supports_local_qwen3_mlx: false,
                supports_in_app_dictation: false,
                supports_auto_update: false,
            },
            _ => PlatformCapabilities {
                platform: "desktop".to_owned(),
                supports_ime_input: target == TargetOs::Windows,
                supports_overlay: true,
                supports_desktop_hotkey: true,
                supports_tray: true,
                supports_local_asr: target == TargetOs::Macos || target == TargetOs::Linux || target
                    == TargetOs::Windows,
                supports_local_qwen3_mlx: target == TargetOs::Macos && aarch64,
                supports_in_app_dictation: false,
                supports_auto_update: true,
            },
        }
    }
}

impl Default for PlatformCapabilities {
    fn default() -> (r: PlatformCapabilities)
        ensures
            r.platform@ == "unknown"@,
            !r.supports_ime_input,
            !r.supports_overlay,
            !r.supports_desktop_hotkey,
            !r.supports_tray,
            !r.supports_local_asr,
            !r.supports_local_qwen3_mlx,
            !r.supports_in_app_dictation,
            !r.supports_auto_update,
    {
        PlatformCapabilities {
            platform: "unknown".to_owned(),
            supports_ime_input: false,
            supports_overlay: false,
            supports_desktop_hotkey: false,
            supports_tray: false,
            supports_local_asr: false,
            supports_local_qwen3_mlx: false,
            supports_in_app_dictation: false,
            supports_auto_update: false,
        }
    }
}

/// The triggers that each system offers, and what its listener can do.
pub proof fn systems_offer_their_own_triggers(target: TargetOs, r: HotkeyCapability)
    requires
        call_ensures(HotkeyCapability::current, (target,), r),
    ensures
        target is Macos ==> r.adapter is MacEventTap && r.available_triggers@ == seq![
            HotkeyTrigger::RightOption,
            HotkeyTrigger::LeftOption,
            HotkeyTrigger::RightControl,
            HotkeyTrigger::LeftControl,
            HotkeyTrigger::RightCommand,
            HotkeyTrigger::LeftCommand,
            HotkeyTrigger::LeftShift,
            HotkeyTrigger::RightShift,
            HotkeyTrigger::Fn,
            HotkeyTrigger::Custom,
        ],
        target is Windows ==> r.adapter is WindowsLowLevel && r.available_triggers@ == seq![
            HotkeyTrigger::RightControl,
            HotkeyTrigger::RightAlt,
            HotkeyTrigger::LeftControl,
            HotkeyTrigger::LeftShift,
            HotkeyTrigger::RightShift,
            HotkeyTrigger::MediaPlayPause,
            HotkeyTrigger::Custom,
        ],
        target is Linux || target is Other ==> r.adapter is Fcitx5 && r.available_triggers@ == seq![
            HotkeyTrigger::RightAlt,
            HotkeyTrigger::RightControl,
            HotkeyTrigger::LeftControl,
            HotkeyTrigger::LeftCommand,
            HotkeyTrigger::LeftShift,
            HotkeyTrigger::RightShift,
            HotkeyTrigger::Custom,
        ],
        target is Android || target is Ios ==> r.adapter is Unavailable
            && r.available_triggers@.len() == 0,
        r.requires_accessibility_permission <==> target is Macos,
        r.supports_modifier_only_trigger <==> !(target is Android || target is Ios),
        r.supports_side_specific_modifiers <==> !(target is Android || target is Ios),
        !r.explicit_fallback_available,
        r.status_hint is Some,
        target is Macos ==> r.status_hint->0@
            == "授权辅助功能后，通常需要完全退出并重新打开 OpenLess。"@,
        target is Windows ==> r.status_hint->0@
            == "默认建议使用“右Ctrl + 单击”；若更习惯按住说话，可在录音设置里切回“按住”。若无响应，可在权限页查看 hook 安装状态。"@,
        target is Android || target is Ios ==> r.status_hint->0@
            == "移动端不支持全局热键；请使用应用内录音按钮或悬浮窗（需授权）。"@,
        target is Linux || target is Other ==> r.status_hint->0@
            == "Linux 使用 fcitx5 插件监听热键和提交文字。鼠标/侧别组合键需 evdev 读取 /dev/input/event*；若无权限请将用户加入 input 组（sudo usermod -aG input $USER）后重新登录。"@,
{
}

/// What each system can do; a system that is not known can do nothing.
pub proof fn systems_can_do_what_they_can(
    target: TargetOs,
    aarch64: bool,
    r: PlatformCapabilities,
    unknown: PlatformCapabilities,
)
    requires
        call_ensures(PlatformCapabilities::current, (target, aarch64), r),
        call_ensures(<PlatformCapabilities as Default>::default, (), unknown),
    ensures
        target is Android ==> r.platform@ == "android"@,
        target is Ios ==> r.platform@ == "mobile"@,
        target is Macos || target is Windows || target is Linux || target is Other ==> r.platform@
            == "desktop"@,
        r.supports_ime_input <==> target is Windows,
        r.supports_overlay <==> !(target is Ios),
        r.supports_desktop_hotkey <==> !(target is Android || target is Ios),
        r.supports_tray <==> r.supports_desktop_hotkey,
        r.supports_local_asr <==> target is Macos || target is Linux || target is Windows,
        r.supports_local_qwen3_mlx <==> target is Macos && aarch64,
        r.supports_in_app_dictation <==> target is Android,
        r.supports_auto_update <==> !(target is Ios),
        unknown.platform@ == "unknown"@,
        !(unknown.supports_ime_input || unknown.supports_overlay || unknown.supports_desktop_hotkey
            || unknown.supports_tray || unknown.supports_local_asr
            || unknown.supports_local_qwen3_mlx || unknown.supports_in_app_dictation
            || unknown.supports_auto_update),
{
}

} // verus!
