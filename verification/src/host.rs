//! What the host application does for the rest: permissions, devices, and its windows.

use vstd::prelude::*;

use crate::errors::{self, BackendError, BackendErrorCode};
use crate::hotkeys::{HotkeyAdapterKind, HotkeyInstallError, HotkeyStatus, HotkeyStatusState};

verus! {

/// What the system says of a permission.
#[derive(Debug, Clone, Copy, PartialEq, Eq, Structural)]
pub enum PermissionStatus {
    Granted,
    Denied,
    NotDetermined,
    Restricted,
    NotApplicable,
    NoDevice,
}

/// What the rest of the application is told of it.
#[derive(Debug, Clone, Copy, PartialEq, Eq, Structural)]
pub enum PermissionState {
    Granted,
    Denied,
    Unknown,
    Restricted,
    Unsupported,
    NoDevice,
}

/// What the rest of the application is told of a permission.
pub open spec fn permission_state(status: PermissionStatus) -> PermissionState {
    match status {
        PermissionStatus::Granted => PermissionState::Granted,
        PermissionStatus::Denied => PermissionState::Denied,
        PermissionStatus::NotDetermined => PermissionState::Unknown,
        PermissionStatus::Restricted => PermissionState::Restricted,
        PermissionStatus::NotApplicable => PermissionState::Unsupported,
        PermissionStatus::NoDevice => PermissionState::NoDevice,
    }
}

/// What the rest of the application is told of a permission.
pub fn map_permission_state(status: PermissionStatus) -> (r: PermissionState)
    ensures
        r == permission_state(status),
{
    match status {
        PermissionStatus::Granted => PermissionState::Granted,
        PermissionStatus::Denied => PermissionState::Denied,
        PermissionStatus::NotDetermined => PermissionState::Unknown,
        PermissionStatus::Restricted => PermissionState::Restricted,
        PermissionStatus::NotApplicable => PermissionState::Unsupported,
        PermissionStatus::NoDevice => PermissionState::NoDevice,
    }
}

/// No two answers of the system are told as the same.
pub proof fn permission_states_are_told_apart(a: PermissionStatus, b: PermissionStatus)
    ensures
        permission_state(a) == permission_state(b) <==> a == b,
{
}

/// Both permissions that dictation needs.
#[derive(Debug, Clone, Copy, PartialEq, Eq, Structural)]
pub struct PermissionSnapshot {
    pub microphone: PermissionState,
    pub accessibility: PermissionState,
}

/// Both permissions that dictation needs, from what the system says.
pub fn current_permission_snapshot(
    microphone: PermissionStatus,
    accessibility: PermissionStatus,
) -> (r: PermissionSnapshot)
    ensures
        r.microphone == permission_state(microphone),
        r.accessibility == permission_state(accessibility),
{
    PermissionSnapshot {
        microphone: map_permission_state(microphone),
        accessibility: map_permission_state(accessibility),
    }
}

/// An input device as the system names it.
#[derive(Debug, Clone, PartialEq, Eq)]
pub struct InputDevice {
    pub name: String,
    pub is_default: bool,
}

/// A microphone to choose from. It is known by its name.
#[derive(Debug, Clone, PartialEq, Eq)]
pub struct MicrophoneDevice {
    pub id: String,
    pub name: String,
    pub is_default: bool,
}

/// The microphones to choose from, in the order of the system. The mobile systems offer no choice.
pub fn microphone_devices(devices: &Vec<InputDevice>, mobile: bool) -> (r: Vec<MicrophoneDevice>)
    ensures
        mobile ==> r@.len() == 0,
        !mobile ==> r@.len() == devices@.len() && forall|i: int|
            0 <= i < r@.len() ==> {
                &&& (#[trigger] r@[i]).id@ == devices@[i].name@
                &&& r@[i].name@ == devices@[i].name@
                &&& r@[i].is_default == devices@[i].is_default
            },
{
    let mut r: Vec<MicrophoneDevice> = Vec::new();
    if mobile {
        return r;
    }
    let mut i: usize = 0;
    while i < devices.len()
        invariant
            i <= devices.len(),
            r@.len() == i,
            forall|j: int|
                0 <= j < i ==> {
                    &&& (#[trigger] r@[j]).id@ == devices@[j].name@
                    &&& r@[j].name@ == devices@[j].name@
                    &&& r@[j].is_default == devices@[j].is_default
                },
        decreases devices.len() - i,
    {
        r.push(
            MicrophoneDevice {
                id: devices[i].name.clone(),
                name: devices[i].name.clone(),
                is_default: devices[i].is_default,
            },
        );
        i += 1;
    }
    r
}

/// The state of the shortcuts on a mobile system, which has none.
pub fn mobile_hotkey_status() -> (r: HotkeyStatus)
    ensures
        r.adapter is Unavailable,
        r.state is Failed,
        r.message matches Some(message) && message@ == "移动端不支持全局热键"@,
        r.last_error matches Some(error) && error.code@ == "unavailable"@ && error.message@
            == "Global hotkeys are not available on mobile"@,
{
    HotkeyStatus {
        adapter: HotkeyAdapterKind::Unavailable,
        state: HotkeyStatusState::Failed,
        message: Some("移动端不支持全局热键".to_owned()),
        last_error: Some(
            HotkeyInstallError {
                code: "unavailable".to_owned(),
                message: "Global hotkeys are not available on mobile".to_owned(),
            },
        ),
    }
}

/// What the host is asked to do; `P` is a page of the system's settings.
#[derive(Debug, Clone, PartialEq, Eq)]
pub enum HostAction<P> {
    ShowMain,
    FocusMain,
    ShowDictationFeedback,
    HideDictationFeedback,
    ShowSelectionPreview,
    HideSelectionPreview,
    ShowQa,
    HideQa,
    ShowLessComputer,
    OpenExternalUrl(String),
    OpenSystemSettings(P),
    RequestRestart,
    Notify(String),
}

/// What the host does.
#[derive(Debug, Clone, PartialEq, Eq)]
pub enum HostEffect<P> {
    /// Nothing: the capsule follows the state of the dictation by itself.
    Nothing,
    ShowMainWindow,
    ShowSelectionPreview,
    HideSelectionPreview,
    /// Takes the selection for the question before the panel takes the focus.
    ShowQuestionPanel,
    /// Forgets the selection with the panel.
    HideQuestionPanel,
    ShowLessComputer,
    OpenUrl(String),
    OpenSystemSettings(P),
    Restart,
    Notify(String),
}

/// What the host does when it is asked.
pub open spec fn effect_of<P>(action: HostAction<P>) -> HostEffect<P> {
    match action {
        HostAction::ShowMain | HostAction::FocusMain => HostEffect::ShowMainWindow,
        HostAction::ShowDictationFeedback | HostAction::HideDictationFeedback =>
            HostEffect::Nothing,
        HostAction::ShowSelectionPreview => HostEffect::ShowSelectionPreview,
        HostAction::HideSelectionPreview => HostEffect::HideSelectionPreview,
        HostAction::ShowQa => HostEffect::ShowQuestionPanel,
        HostAction::HideQa => HostEffect::HideQuestionPanel,
        HostAction::ShowLessComputer => HostEffect::ShowLessComputer,
        HostAction::OpenExternalUrl(url) => HostEffect::OpenUrl(url),
        HostAction::OpenSystemSettings(page) => HostEffect::OpenSystemSettings(page),
        HostAction::RequestRestart => HostEffect::Restart,
        HostAction::Notify(message) => HostEffect::Notify(message),
    }
}

/// What the host does when it is asked, once it is running.
pub fn request<P>(action: HostAction<P>, app_bound: bool) -> (r: Result<
    HostEffect<P>,
    BackendError,
>)
    ensures
        if app_bound {
            r == Ok::<HostEffect<P>, BackendError>(effect_of(action))
        } else {
            errors::fails(r, BackendErrorCode::InvalidState, "Tauri AppHandle is not bound yet"@)
        },
{
    if !app_bound {
        return Err(
            BackendError::new(BackendErrorCode::InvalidState, "Tauri AppHandle is not bound yet"),
        );
    }
    Ok(
        match action {
            HostAction::ShowMain | HostAction::FocusMain => HostEffect::ShowMainWindow,
            HostAction::ShowDictationFeedback | HostAction::HideDictationFeedback =>
                HostEffect::Nothing,
            HostAction::ShowSelectionPreview => HostEffect::ShowSelectionPreview,
            HostAction::HideSelectionPreview => HostEffect::HideSelectionPreview,
            HostAction::ShowQa => HostEffect::ShowQuestionPanel,
            HostAction::HideQa => HostEffect::HideQuestionPanel,
            HostAction::ShowLessComputer => HostEffect::ShowLessComputer,
            HostAction::OpenExternalUrl(url) => HostEffect::OpenUrl(url),
            HostAction::OpenSystemSettings(page) => HostEffect::OpenSystemSettings(page),
            HostAction::RequestRestart => HostEffect::Restart,
            HostAction::Notify(message) => HostEffect::Notify(message),
        },
    )
}

/// The error for a pairing code that cannot be kept.
pub fn map_pairing_error(error: &str) -> (r: BackendError)
    ensures
        r@ == errors::plain_error(
            BackendErrorCode::Persistence,
            "persist pairing PIN failed: "@ + error@,
        ),
{
    BackendError::about(BackendErrorCode::Persistence, "persist pairing PIN failed: ", error)
}

/// The core, where the host has it; else the error that the host is not ready. The host must be
/// running before it can have the core.
pub fn backend_state(app_bound: bool, core_present: bool) -> (r: Result<(), BackendError>)
    ensures
        r is Ok <==> app_bound && core_present,
        !app_bound ==> errors::fails(
            r,
            BackendErrorCode::InvalidState,
            "Tauri app handle is not available"@,
        ),
        app_bound && !core_present ==> errors::fails(
            r,
            BackendErrorCode::InvalidState,
            "core backend state is unavailable"@,
        ),
{
    if !app_bound {
        Err(BackendError::new(BackendErrorCode::InvalidState, "Tauri app handle is not available"))
    } else if !core_present {
        Err(BackendError::new(BackendErrorCode::InvalidState, "core backend state is unavailable"))
    } else {
        Ok(())
    }
}

/// The state of a permission, as the system gives it.
pub proof fn permissions_keep_their_state(
    microphone: PermissionStatus,
    accessibility: PermissionStatus,
    state: PermissionState,
    other: PermissionState,
    r: PermissionSnapshot,
)
    requires
        call_ensures(map_permission_state, (microphone,), state),
        call_ensures(map_permission_state, (accessibility,), other),
        call_ensures(current_permission_snapshot, (microphone, accessibility), r),
    ensures
        microphone is Granted <==> state is Granted,
        microphone is Denied <==> state is Denied,
        microphone is NotDetermined <==> state is Unknown,
        microphone is Restricted <==> state is Restricted,
        microphone is NotApplicable <==> state is Unsupported,
        microphone is NoDevice <==> state is NoDevice,
        r.microphone == state,
        r.accessibility == other,
{
}

/// Every device is listed under its name, in order, but on mobile systems, which list none.
pub proof fn devices_are_listed_by_name(
    devices: &Vec<InputDevice>,
    listed: Vec<MicrophoneDevice>,
    on_mobile: Vec<MicrophoneDevice>,
    status: HotkeyStatus,
)
    requires
        call_ensures(microphone_devices, (devices, false), listed),
        call_ensures(microphone_devices, (devices, true), on_mobile),
        call_ensures(mobile_hotkey_status, (), status),
    ensures
        on_mobile@.len() == 0,
        listed@.len() == devices@.len(),
        forall|i: int|
            0 <= i < devices@.len() ==> (#[trigger] listed@[i]).id@ == devices@[i].name@
                && listed@[i].name@ == devices@[i].name@ && listed@[i].is_default
                == devices@[i].is_default,
        status.adapter is Unavailable && status.state is Failed,
        status.message is Some && status.message->0@ == "移动端不支持全局热键"@,
        status.last_error is Some && status.last_error->0.code@ == "unavailable"@
            && status.last_error->0.message@ == "Global hotkeys are not available on mobile"@,
{
}

/// What the host is asked is done where the application is there; showing and focusing the main
/// window are the same, and feedback on dictation is shown elsewhere.
pub proof fn requests_to_the_host_are_carried_out<P>(
    action: HostAction<P>,
    app_bound: bool,
    r: Result<HostEffect<P>, BackendError>,
)
    requires
        call_ensures(request::<P>, (action, app_bound), r),
    ensures
        r is Ok <==> app_bound,
        r matches Err(e) ==> e.code is InvalidState && e.message@
            == "Tauri AppHandle is not bound yet"@,
        app_bound && (action is ShowMain || action is FocusMain) ==> r->Ok_0 is ShowMainWindow,
        app_bound && (action is ShowDictationFeedback || action is HideDictationFeedback)
            ==> r->Ok_0 is Nothing,
        app_bound && action is ShowSelectionPreview ==> r->Ok_0 is ShowSelectionPreview,
        app_bound && action is HideSelectionPreview ==> r->Ok_0 is HideSelectionPreview,
        app_bound && action is ShowQa ==> r->Ok_0 is ShowQuestionPanel,
        app_bound && action is HideQa ==> r->Ok_0 is HideQuestionPanel,
        app_bound && action is ShowLessComputer ==> r->Ok_0 is ShowLessComputer,
        app_bound && action is OpenExternalUrl ==> r->Ok_0 == HostEffect::<P>::OpenUrl(
            action->OpenExternalUrl_0,
        ),
        app_bound && action is OpenSystemSettings ==> r->Ok_0 == HostEffect::OpenSystemSettings(
            action->OpenSystemSettings_0,
        ),
        app_bound && action is RequestRestart ==> r->Ok_0 is Restart,
        app_bound && action is Notify ==> r->Ok_0 == HostEffect::<P>::Notify(action->Notify_0),
{
}

/// The backend needs the application and its core, and says which is missing.
pub proof fn the_backend_needs_application_and_core(
    app_bound: bool,
    core_present: bool,
    r: Result<(), BackendError>,
    error: &str,
    pairing: BackendError,
)
    requires
        call_ensures(backend_state, (app_bound, core_present), r),
        call_ensures(map_pairing_error, (error,), pairing),
    ensures
        r is Ok <==> app_bound && core_present,
        r matches Err(e) ==> e.code is InvalidState,
        !app_bound ==> (r->Err_0).message@ == "Tauri app handle is not available"@,
        app_bound && !core_present ==> (r->Err_0).message@ == "core backend state is unavailable"@,
        pairing.code is Persistence && pairing.message@ == "persist pairing PIN failed: "@ + error@,
{
}

} // verus!
