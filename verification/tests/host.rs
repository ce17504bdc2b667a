use openless::errors::BackendErrorCode;
use openless::host::{
    backend_state, current_permission_snapshot, map_pairing_error, map_permission_state,
    microphone_devices, mobile_hotkey_status, request, HostAction, HostEffect, InputDevice,
    PermissionState, PermissionStatus,
};
use openless::hotkeys::{HotkeyAdapterKind, HotkeyStatusState};

#[test]
fn platform_permission_mapping_preserves_every_legacy_state() {
    let cases = [
        (PermissionStatus::Granted, PermissionState::Granted),
        (PermissionStatus::Denied, PermissionState::Denied),
        (PermissionStatus::NotDetermined, PermissionState::Unknown),
        (PermissionStatus::Restricted, PermissionState::Restricted),
        (PermissionStatus::NotApplicable, PermissionState::Unsupported),
        (PermissionStatus::NoDevice, PermissionState::NoDevice),
    ];
    for (legacy, core) in cases {
        assert_eq!(map_permission_state(legacy), core);
    }
}

#[test]
fn both_permissions_are_told() {
    let both =
        current_permission_snapshot(PermissionStatus::NoDevice, PermissionStatus::NotDetermined);
    assert_eq!(both.microphone, PermissionState::NoDevice);
    assert_eq!(both.accessibility, PermissionState::Unknown);
}

#[test]
fn microphones_are_known_by_their_names() {
    let devices = vec![
        InputDevice { name: "Built-in".to_string(), is_default: true },
        InputDevice { name: "Headset".to_string(), is_default: false },
    ];
    let offered = microphone_devices(&devices, false);
    assert_eq!(offered.len(), 2);
    assert_eq!((offered[1].id.as_str(), offered[1].name.as_str()), ("Headset", "Headset"));
    assert!(offered[0].is_default && !offered[1].is_default);
    assert!(microphone_devices(&devices, true).is_empty());
}

#[test]
fn mobile_systems_have_no_shortcuts() {
    let status = mobile_hotkey_status();
    assert_eq!(status.adapter, HotkeyAdapterKind::Unavailable);
    assert_eq!(status.state, HotkeyStatusState::Failed);
    assert_eq!(status.message.as_deref(), Some("移动端不支持全局热键"));
    let error = status.last_error.unwrap();
    assert_eq!(error.code, "unavailable");
    assert_eq!(error.message, "Global hotkeys are not available on mobile");
}

#[test]
fn the_host_does_what_it_is_asked_once_it_runs() {
    for (action, effect) in [
        (HostAction::ShowMain, HostEffect::ShowMainWindow),
        (HostAction::FocusMain, HostEffect::ShowMainWindow),
        (HostAction::ShowDictationFeedback, HostEffect::Nothing),
        (HostAction::HideDictationFeedback, HostEffect::Nothing),
        (HostAction::ShowSelectionPreview, HostEffect::ShowSelectionPreview),
        (HostAction::HideSelectionPreview, HostEffect::HideSelectionPreview),
        (HostAction::ShowQa, HostEffect::ShowQuestionPanel),
        (HostAction::HideQa, HostEffect::HideQuestionPanel),
        (HostAction::ShowLessComputer, HostEffect::ShowLessComputer),
        (
            HostAction::OpenExternalUrl("https://example.com".to_string()),
            HostEffect::OpenUrl("https://example.com".to_string()),
        ),
        (HostAction::OpenSystemSettings(3), HostEffect::OpenSystemSettings(3)),
        (HostAction::RequestRestart, HostEffect::Restart),
        (
            HostAction::Notify("done".to_string()),
            HostEffect::Notify("done".to_string()),
        ),
    ] {
        assert_eq!(request(action.clone(), true), Ok(effect));
        let error = request(action, false).unwrap_err();
        assert_eq!(error.code, BackendErrorCode::InvalidState);
        assert_eq!(error.message, "Tauri AppHandle is not bound yet");
    }
}

#[test]
fn the_core_needs_a_running_host() {
    assert_eq!(backend_state(true, true), Ok(()));
    assert_eq!(
        backend_state(false, true).unwrap_err().message,
        "Tauri app handle is not available"
    );
    assert_eq!(
        backend_state(true, false).unwrap_err().message,
        "core backend state is unavailable"
    );
    assert_eq!(map_pairing_error("disk full").message, "persist pairing PIN failed: disk full");
}
