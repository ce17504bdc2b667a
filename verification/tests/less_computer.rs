use openless::less_computer::{
    attach_less_computer_recording, take_less_computer_capture, take_less_computer_host_capture,
    CancelEffect, ComboOwnership, DismissEffect, HotkeyCombinedEdge, LessComputer,
    LessComputerHostCapture, LessComputerHotkeyAction, LessComputerRecordingControl,
    LessComputerVoiceSession, PressEffect, RecordingControlAction, StartupEffect, StopEffect,
};

fn session(session_id: u64) -> LessComputerVoiceSession<&'static str> {
    LessComputerVoiceSession { session_id, handle: "microphone" }
}

fn recording(state: &mut LessComputer<&'static str>, press_id: u64, session_id: u64) -> bool {
    if !state.accept_press(true, press_id) {
        return false;
    }
    if state.handle_less_computer_pressed(LessComputerHotkeyAction::Start, press_id, session_id)
        != PressEffect::Start(session_id)
    {
        return false;
    }
    let mut control = LessComputerRecordingControl::new();
    state.startup_finished(session_id, Some(session(session_id)), &mut control)
        == StartupEffect::Running(vec![])
}

#[test]
fn escape_after_toggle_release_allows_the_next_less_recording() {
    let mut state = LessComputer::new();
    assert!(recording(&mut state, 1, 101));
    assert!(state.accept_release(Some(101), 1));
    assert_eq!(
        state.cancel_active_less_computer(None),
        DismissEffect::Capture(LessComputerHostCapture::Recording(session(101)))
    );
    assert!(!state.accept_release(Some(101), 1));
    assert!(recording(&mut state, 2, 102));
}

#[test]
fn cli_cancel_releases_less_capture_and_allows_recording_again() {
    let mut state = LessComputer::new();
    assert!(recording(&mut state, 1, 101));
    assert_eq!(
        state.cancel_less_computer_capture(None),
        CancelEffect::Cancel(Some(LessComputerHostCapture::Recording(session(101))))
    );
    assert_eq!(state.press_generation, 0);
    assert!(recording(&mut state, 2, 102));
}

#[test]
fn dismiss_less_window_stops_capture_and_allows_reopening() {
    let mut state = LessComputer::new();
    assert!(recording(&mut state, 1, 101));
    assert_eq!(
        state.cancel_active_less_computer(Some(101)),
        DismissEffect::Capture(LessComputerHostCapture::Recording(session(101)))
    );
    assert_eq!(state.cancel_active_less_computer(None), DismissEffect::Nothing);
    assert_eq!(state.cancel_active_less_computer(Some(7)), DismissEffect::Session(7));
    assert!(recording(&mut state, 2, 102));
}

#[test]
fn recording_control_stop_is_delivered_once_on_both_sides_of_handoff() {
    for before_handoff in [true, false] {
        let mut slot = Some(LessComputerHostCapture::Starting(5));
        let mut control = LessComputerRecordingControl::new();
        let mut delivered = Vec::new();
        if before_handoff {
            assert_eq!(control.request(&slot, 5, RecordingControlAction::Stop), None);
        }
        assert!(attach_less_computer_recording(&mut slot, session(5)).is_ok());
        if !before_handoff {
            delivered.extend(control.request(&slot, 5, RecordingControlAction::Stop));
        }
        delivered.extend(control.flush(5));
        delivered.extend(control.flush(5));
        assert_eq!(delivered, vec![RecordingControlAction::Stop]);
    }
}

#[test]
fn requests_for_other_sessions_wait_on() {
    let slot: Option<LessComputerHostCapture<&str>> = None;
    let mut control = LessComputerRecordingControl::new();
    control.request(&slot, 5, RecordingControlAction::Stop);
    control.request(&slot, 6, RecordingControlAction::Cancel);
    control.request(&slot, 5, RecordingControlAction::Cancel);
    assert_eq!(
        control.flush(5),
        vec![RecordingControlAction::Stop, RecordingControlAction::Cancel]
    );
    assert_eq!(control.flush(6), vec![RecordingControlAction::Cancel]);
    assert_eq!(control.flush(6), vec![]);
}

#[test]
fn capsule_stop_during_starting_waits_for_one_native_handoff() {
    let mut state = LessComputer::new();
    let mut control = LessComputerRecordingControl::new();
    assert!(state.accept_press(true, 1));
    assert_eq!(
        state.handle_less_computer_pressed(LessComputerHotkeyAction::Start, 1, 101),
        PressEffect::Start(101)
    );
    assert_eq!(state.stop_less_computer_recording(&mut control), StopEffect::Queued);
    assert_eq!(
        state.startup_finished(101, Some(session(101)), &mut control),
        StartupEffect::Running(vec![RecordingControlAction::Stop])
    );
    assert_eq!(
        state.stop_less_computer_recording(&mut control),
        StopEffect::Finish(session(101))
    );
    assert_eq!(state.stop_less_computer_recording(&mut control), StopEffect::Nothing);
}

#[test]
fn rebind_cancels_only_the_owned_starting_or_recording_capture() {
    let pending = 1;
    let mut slot = Some(LessComputerHostCapture::Starting(pending));
    assert_eq!(
        take_less_computer_host_capture(&mut slot, None),
        Some(LessComputerHostCapture::Starting(pending))
    );
    assert_eq!(slot, None);

    let recording_id = 2;
    slot = Some(LessComputerHostCapture::Recording(session(recording_id)));
    assert_eq!(take_less_computer_host_capture(&mut slot, Some(pending)), None);
    assert_eq!(slot.as_ref().map(LessComputerHostCapture::session_id), Some(recording_id));
    assert_eq!(
        take_less_computer_host_capture(&mut slot, None),
        Some(LessComputerHostCapture::Recording(session(recording_id)))
    );

    let late_id = 3;
    let new_owner = 4;
    slot = Some(LessComputerHostCapture::Starting(new_owner));
    assert_eq!(
        attach_less_computer_recording(&mut slot, session(late_id)).unwrap_err(),
        session(late_id)
    );
    assert_eq!(slot.as_ref().map(LessComputerHostCapture::session_id), Some(new_owner));
    slot = None;
    assert_eq!(take_less_computer_host_capture(&mut slot, None), None);
}

#[test]
fn a_starting_capture_is_not_taken_for_a_recording() {
    let mut slot = Some(LessComputerHostCapture::Starting(1));
    assert_eq!(take_less_computer_capture::<&str>(&mut slot, Some(1)), None);
    assert_eq!(slot, Some(LessComputerHostCapture::Starting(1)));
    slot = Some(LessComputerHostCapture::Recording(session(1)));
    assert_eq!(take_less_computer_capture(&mut slot, Some(2)), None);
    assert_eq!(take_less_computer_capture(&mut slot, Some(1)), Some(session(1)));
    assert_eq!(slot, None);
}

#[test]
fn a_combined_key_cancels_only_the_press_it_belongs_to() {
    let mut state: LessComputer<&str> = LessComputer::new();
    assert!(state.modifier_pressed(7));
    assert_eq!(
        state.handle_less_computer_pressed(LessComputerHotkeyAction::Start, 7, 101),
        PressEffect::Start(101)
    );
    let late = HotkeyCombinedEdge { press_id: 6, at: 10 };
    assert_eq!(state.cancel_less_computer_press(late), None);
    let own = HotkeyCombinedEdge { press_id: 7, at: 11 };
    assert_eq!(state.cancel_less_computer_press(own), Some(101));
    assert_eq!(
        state.cancel_less_computer_press(HotkeyCombinedEdge { press_id: 0, at: 12 }),
        None
    );
    assert_eq!(state.take_pending_less_combined(8), None);
    assert_eq!(state.take_pending_less_combined(7), Some(own));
    assert_eq!(state.take_pending_less_combined(7), None);
}

#[test]
fn a_press_that_was_combined_already_starts_nothing() {
    let mut state: LessComputer<&str> = LessComputer::new();
    assert_eq!(
        state.cancel_less_computer_press(HotkeyCombinedEdge { press_id: 9, at: 1 }),
        None
    );
    assert!(!state.modifier_pressed(9));
    assert!(state.modifier_pressed(9));
}

#[test]
fn presses_follow_their_interpreter() {
    let mut state: LessComputer<&str> = LessComputer::new();
    assert!(!state.accept_press(false, 1));
    assert!(state.accept_press(true, 1));
    assert_eq!(
        state.handle_less_computer_pressed(LessComputerHotkeyAction::Noop, 1, 101),
        PressEffect::Nothing
    );
    assert_eq!(
        state.handle_less_computer_pressed(LessComputerHotkeyAction::Finish, 1, 101),
        PressEffect::Finish
    );
    assert_eq!(
        state.handle_less_computer_pressed(LessComputerHotkeyAction::Cancel, 1, 101),
        PressEffect::Nothing
    );
    assert_eq!(
        state.handle_less_computer_pressed(LessComputerHotkeyAction::Start, 1, 101),
        PressEffect::Start(101)
    );
    assert_eq!(
        state.handle_less_computer_pressed(LessComputerHotkeyAction::Start, 1, 102),
        PressEffect::Nothing
    );
    assert_eq!(
        state.handle_less_computer_pressed(LessComputerHotkeyAction::Cancel, 1, 102),
        PressEffect::Cancel(101)
    );
    assert_eq!(state.combined_cancels(2, Some(101)), None);
    let mut control = LessComputerRecordingControl::new();
    assert_eq!(state.startup_finished(101, None, &mut control), StartupEffect::Failed);
    assert_eq!(state.slot, None);
    assert_eq!(
        state.startup_finished(101, Some(session(101)), &mut control),
        StartupEffect::Release(session(101))
    );
    assert_eq!(state.cancel_less_computer_capture(Some(101)), CancelEffect::Stale);
}

#[test]
fn a_recording_of_another_session_does_not_take_the_slot() {
    let mut state = LessComputer::new();
    assert!(state.accept_press(true, 1));
    assert_eq!(
        state.handle_less_computer_pressed(LessComputerHotkeyAction::Start, 1, 101),
        PressEffect::Start(101)
    );
    let mut control = LessComputerRecordingControl::new();
    assert_eq!(
        state.startup_finished(101, Some(session(102)), &mut control),
        StartupEffect::Release(session(102))
    );
    assert_eq!(state.slot, Some(LessComputerHostCapture::Starting(101)));
}

#[test]
fn only_the_expected_running_session_is_finished() {
    let mut state = LessComputer::new();
    assert_eq!(state.finish_less_computer_voice_session(None), None);
    assert!(state.accept_press(true, 1));
    state.handle_less_computer_pressed(LessComputerHotkeyAction::Start, 1, 101);
    assert_eq!(state.finish_less_computer_voice_session(None), None);
    assert_eq!(state.slot, Some(LessComputerHostCapture::Starting(101)));
    let mut control = LessComputerRecordingControl::new();
    state.startup_finished(101, Some(session(101)), &mut control);
    assert_eq!(state.finish_less_computer_voice_session(Some(102)), None);
    assert_eq!(state.finish_less_computer_voice_session(Some(101)), Some(session(101)));
    assert_eq!(state.slot, None);
}

#[test]
fn a_combination_hands_its_session_from_press_to_release() {
    let mut owner = ComboOwnership::new();
    assert_eq!(owner.released(), None);
    owner.pressed(Some(101), 3);
    assert_eq!(owner.released(), Some((101, 3)));
    assert_eq!(owner.released(), None);
    owner.pressed(Some(101), 3);
    owner.pressed(None, 4);
    assert_eq!(owner.released(), None);
}
