//! The capture of a spoken command for the computer agent: who owns the one recording slot, which
//! key press a capture belongs to, and what becomes of stop requests that come too early.
//!
//! A capture first is `Starting`, while the native recorder comes up, then `Recording`. Requests,
//! key edges and cancellations name the session that they mean, so that a late one never touches
//! the session that took the slot in the meantime.

use vstd::prelude::*;

verus! {

/// A running native recording.
#[derive(Debug, PartialEq, Eq)]
pub struct LessComputerVoiceSession<H> {
    pub session_id: u64,
    pub handle: H,
}

/// What holds the recording slot.
#[derive(Debug, PartialEq, Eq)]
pub enum LessComputerHostCapture<H> {
    /// The recorder is coming up; only the session id is known.
    Starting(u64),
    Recording(LessComputerVoiceSession<H>),
}

impl<H> LessComputerHostCapture<H> {
    /// The session that the capture belongs to.
    pub open spec fn id(self) -> u64 {
        match self {
            LessComputerHostCapture::Starting(session_id) => session_id,
            LessComputerHostCapture::Recording(session) => session.session_id,
        }
    }

    pub fn session_id(&self) -> (r: u64)
        ensures
            r == self.id(),
    {
        match self {
            LessComputerHostCapture::Starting(session_id) => *session_id,
            LessComputerHostCapture::Recording(session) => session.session_id,
        }
    }
}

/// The session in the slot.
pub open spec fn owner<H>(slot: Option<LessComputerHostCapture<H>>) -> Option<u64> {
    match slot {
        Some(capture) => Some(capture.id()),
        None => None,
    }
}

/// Whether a request for `expected` means the session in the slot; `None` means whichever is
/// there.
pub open spec fn is_meant<H>(
    slot: Option<LessComputerHostCapture<H>>,
    expected: Option<u64>,
) -> bool {
    expected is None || owner(slot) == expected
}

/// The slot holds a running recording of `session_id`.
pub open spec fn is_recording<H>(
    slot: Option<LessComputerHostCapture<H>>,
    session_id: u64,
) -> bool {
    slot matches Some(LessComputerHostCapture::Recording(session)) && session.session_id
        == session_id
}

fn slot_owner<H>(slot: &Option<LessComputerHostCapture<H>>) -> (r: Option<u64>)
    ensures
        r == owner(*slot),
{
    match slot {
        Some(capture) => Some(capture.session_id()),
        None => None,
    }
}

fn meant<H>(slot: &Option<LessComputerHostCapture<H>>, expected: Option<u64>) -> (r: bool)
    ensures
        r == is_meant(*slot, expected),
{
    match expected {
        Some(id) => match slot {
            Some(capture) => capture.session_id() == id,
            None => false,
        },
        None => true,
    }
}

/// Takes the capture out of the slot where it is the expected one.
pub fn take_less_computer_host_capture<H>(
    slot: &mut Option<LessComputerHostCapture<H>>,
    expected: Option<u64>,
) -> (r: Option<LessComputerHostCapture<H>>)
    ensures
        is_meant(*old(slot), expected) ==> r == *old(slot) && *final(slot) is None,
        !is_meant(*old(slot), expected) ==> r is None && *final(slot) == *old(slot),
{
    if meant(slot, expected) {
        slot.take()
    } else {
        None
    }
}

/// Takes a running recording out of the slot where it is the expected one. A capture that is
/// still starting stays.
pub fn take_less_computer_capture<H>(
    slot: &mut Option<LessComputerHostCapture<H>>,
    expected: Option<u64>,
) -> (r: Option<LessComputerVoiceSession<H>>)
    ensures
        match r {
            Some(session) => {
                &&& is_meant(*old(slot), expected)
                &&& *old(slot) == Some(LessComputerHostCapture::Recording(session))
                &&& *final(slot) is None
            },
            None => {
                &&& !(is_meant(*old(slot), expected) && *old(slot) matches Some(
                    LessComputerHostCapture::Recording(_),
                ))
                &&& *final(slot) == *old(slot)
            },
        },
{
    if !meant(slot, expected) {
        return None;
    }
    match slot.take() {
        Some(LessComputerHostCapture::Recording(session)) => Some(session),
        Some(LessComputerHostCapture::Starting(session_id)) => {
            *slot = Some(LessComputerHostCapture::Starting(session_id));
            None
        },
        None => None,
    }
}

/// Puts the recording that came up into the slot. Where its start was cancelled or replaced in
/// the meantime the recording is handed back, to be released and nothing more.
pub fn attach_less_computer_recording<H>(
    slot: &mut Option<LessComputerHostCapture<H>>,
    session: LessComputerVoiceSession<H>,
) -> (r: Result<(), LessComputerVoiceSession<H>>)
    ensures
        match r {
            Ok(_) => {
                &&& *old(slot) == Some(LessComputerHostCapture::<H>::Starting(session.session_id))
                &&& *final(slot) == Some(LessComputerHostCapture::Recording(session))
            },
            Err(late) => {
                &&& *old(slot) != Some(LessComputerHostCapture::<H>::Starting(session.session_id))
                &&& late == session
                &&& *final(slot) == *old(slot)
            },
        },
{
    let own_start: bool = match slot {
        Some(LessComputerHostCapture::Starting(id)) => *id == session.session_id,
        _ => false,
    };
    if own_start {
        *slot = Some(LessComputerHostCapture::Recording(session));
        Ok(())
    } else {
        Err(session)
    }
}

#[derive(Debug, Clone, Copy, PartialEq, Eq, Structural)]
pub enum RecordingControlAction {
    Stop,
    Cancel,
}

/// The requests that wait for the recording that they are meant for.
#[derive(Debug, PartialEq, Eq)]
pub struct LessComputerRecordingControl {
    pending: Vec<(u64, RecordingControlAction)>,
}

/// The requests for `session_id`, in their order.
pub open spec fn requests_of(
    pending: Seq<(u64, RecordingControlAction)>,
    session_id: u64,
) -> Seq<RecordingControlAction>
    decreases pending.len(),
{
    if pending.len() == 0 {
        Seq::empty()
    } else {
        let rest = requests_of(pending.drop_last(), session_id);
        if pending.last().0 == session_id {
            rest.push(pending.last().1)
        } else {
            rest
        }
    }
}

/// The requests for other sessions than `session_id`, in their order.
pub open spec fn requests_beside(
    pending: Seq<(u64, RecordingControlAction)>,
    session_id: u64,
) -> Seq<(u64, RecordingControlAction)>
    decreases pending.len(),
{
    if pending.len() == 0 {
        Seq::empty()
    } else {
        let rest = requests_beside(pending.drop_last(), session_id);
        if pending.last().0 == session_id {
            rest
        } else {
            rest.push(pending.last())
        }
    }
}

impl View for LessComputerRecordingControl {
    type V = Seq<(u64, RecordingControlAction)>;

    closed spec fn view(&self) -> Seq<(u64, RecordingControlAction)> {
        self.pending@
    }
}

impl LessComputerRecordingControl {
    pub fn new() -> (r: LessComputerRecordingControl)
        ensures
            r@ == Seq::<(u64, RecordingControlAction)>::empty(),
    {
        LessComputerRecordingControl { pending: Vec::new() }
    }

    /// Takes a request. It is handed back, to be applied at once, where its recording runs;
    /// otherwise it waits.
    pub fn request<H>(
        &mut self,
        slot: &Option<LessComputerHostCapture<H>>,
        session_id: u64,
        action: RecordingControlAction,
    ) -> (r: Option<RecordingControlAction>)
        ensures
            is_recording(*slot, session_id) ==> r == Some(action) && final(self)@ == old(self)@,
            !is_recording(*slot, session_id) ==> r is None && final(self)@ == old(self)@.push(
                (session_id, action),
            ),
    {
        let ready: bool = match slot {
            Some(LessComputerHostCapture::Recording(session)) => session.session_id == session_id,
            _ => false,
        };
        if ready {
            Some(action)
        } else {
            self.pending.push((session_id, action));
            None
        }
    }

    /// Hands out the requests that waited for `session_id`, each once.
    pub fn flush(&mut self, session_id: u64) -> (r: Vec<RecordingControlAction>)
        ensures
            r@ == requests_of(old(self)@, session_id),
            final(self)@ == requests_beside(old(self)@, session_id),
    {
        let mut requests: Vec<RecordingControlAction> = Vec::new();
        let mut kept: Vec<(u64, RecordingControlAction)> = Vec::new();
        let mut i: usize = 0;
        while i < self.pending.len()
            invariant
                i <= self.pending.len(),
                self.pending@ == old(self).pending@,
                requests@ == requests_of(self.pending@.take(i as int), session_id),
                kept@ == requests_beside(self.pending@.take(i as int), session_id),
            decreases self.pending.len() - i,
        {
            proof {
                assert(self.pending@.take(i as int + 1).drop_last() =~= self.pending@.take(i as int));
            }
            let (id, action) = self.pending[i];
            if id == session_id {
                requests.push(action);
            } else {
                kept.push((id, action));
            }
            i += 1;
        }
        assert(self.pending@.take(i as int) =~= self.pending@);
        self.pending = kept;
        requests
    }
}

/// A trigger key that turned out to be held as a modifier of another key.
#[derive(Debug, Clone, Copy, PartialEq, Eq, Structural)]
pub struct HotkeyCombinedEdge {
    pub press_id: u64,
    /// When it happened, on the clock of the listener.
    pub at: u64,
}

/// What the interpreter of key edges decides.
#[derive(Debug, Clone, Copy, PartialEq, Eq, Structural)]
pub enum LessComputerHotkeyAction {
    Noop,
    Start,
    Finish,
    Cancel,
}

/// What is to be done after a press.
#[derive(Debug, Clone, Copy, PartialEq, Eq, Structural)]
pub enum PressEffect {
    Nothing,
    /// End whatever recording runs.
    Finish,
    /// Cancel the session.
    Cancel(u64),
    /// Start the recorder for the session, which holds the slot now.
    Start(u64),
}

/// What is to be done when the recorder came up, or did not.
#[derive(Debug, PartialEq, Eq)]
pub enum StartupEffect<H> {
    /// The recording runs: show it, then apply what waited for it.
    Running(Vec<RecordingControlAction>),
    /// The start was cancelled in the meantime: release the recording.
    Release(LessComputerVoiceSession<H>),
    Failed,
}

/// What is to be done about a cancellation.
#[derive(Debug, PartialEq, Eq)]
pub enum CancelEffect<H> {
    /// It meant a session that is gone.
    Stale,
    /// Cancel what was in the slot, if anything was.
    Cancel(Option<LessComputerHostCapture<H>>),
}

/// What is to be done about a click on stop.
#[derive(Debug, PartialEq, Eq)]
pub enum StopEffect<H> {
    /// Nothing is being recorded.
    Nothing,
    /// The stop waits for the recording that is starting.
    Queued,
    Finish(LessComputerVoiceSession<H>),
}

/// What is to be done about Escape or a closed panel.
#[derive(Debug, PartialEq, Eq)]
pub enum DismissEffect<H> {
    /// No session runs.
    Nothing,
    Capture(LessComputerHostCapture<H>),
    /// No capture is held here, but the session runs.
    Session(u64),
}

/// The one recording slot and the key press that it goes back to.
#[derive(Debug, PartialEq, Eq)]
pub struct LessComputer<H> {
    pub slot: Option<LessComputerHostCapture<H>>,
    /// The press that the current capture goes back to; zero for none.
    pub press_generation: u64,
    /// A combined edge that came before the press that it belongs to was handled.
    pub pending_combined: Option<HotkeyCombinedEdge>,
}

impl<H> LessComputer<H> {
    pub fn new() -> (r: LessComputer<H>)
        ensures
            r.slot is None,
            r.press_generation == 0,
            r.pending_combined is None,
    {
        LessComputer { slot: None, press_generation: 0, pending_combined: None }
    }

    /// Takes the combined edge that waits for `press_id`; one for another press stays.
    pub fn take_pending_less_combined(&mut self, press_id: u64) -> (r: Option<HotkeyCombinedEdge>)
        ensures
            match old(self).pending_combined {
                Some(edge) => if edge.press_id == press_id {
                    r == Some(edge) && final(self).pending_combined is None
                } else {
                    r is None && final(self).pending_combined == old(self).pending_combined
                },
                None => r is None && final(self).pending_combined is None,
            },
            final(self).slot == old(self).slot,
            final(self).press_generation == old(self).press_generation,
    {
        match self.pending_combined {
            Some(edge) => if edge.press_id == press_id {
                self.pending_combined = None;
                Some(edge)
            } else {
                None
            },
            None => None,
        }
    }

    /// A lone modifier went down. Whether the press is to be handled: not where it already turned
    /// out to be held with another key.
    pub fn modifier_pressed(&mut self, press_id: u64) -> (r: bool)
        ensures
            r == !(old(self).pending_combined matches Some(edge) && edge.press_id == press_id),
            r ==> final(self).pending_combined == old(self).pending_combined,
            !r ==> final(self).pending_combined is None,
            final(self).press_generation == press_id,
            final(self).slot == old(self).slot,
    {
        self.press_generation = press_id;
        self.take_pending_less_combined(press_id).is_none()
    }

    /// The session to cancel because the press `press_id` turned out to be part of a combination.
    /// The session is the one that the press started; a later press protects its own.
    pub fn combined_cancels(&self, press_id: u64, session_id: Option<u64>) -> (r: Option<u64>)
        ensures
            r == (if self.press_generation == press_id {
                session_id
            } else {
                None
            }),
    {
        if self.press_generation == press_id {
            session_id
        } else {
            None
        }
    }

    /// A press turned out to be part of a combination. The edge is kept, for a press that is still
    /// being handled; the session to cancel is handed out.
    pub fn cancel_less_computer_press(&mut self, edge: HotkeyCombinedEdge) -> (r: Option<u64>)
        ensures
            edge.press_id == 0 ==> r is None && *final(self) == *old(self),
            edge.press_id != 0 ==> {
                &&& final(self).pending_combined == Some(edge)
                &&& final(self).slot == old(self).slot
                &&& final(self).press_generation == old(self).press_generation
                &&& r == (if old(self).press_generation == edge.press_id {
                    owner(old(self).slot)
                } else {
                    None
                })
            },
    {
        if edge.press_id == 0 {
            return None;
        }
        self.pending_combined = Some(edge);
        let session_id: Option<u64> = slot_owner(&self.slot);
        self.combined_cancels(edge.press_id, session_id)
    }

    /// A trigger went down. Whether the edge goes on to its interpreter.
    pub fn accept_press(&mut self, enabled: bool, press_id: u64) -> (r: bool)
        ensures
            r == enabled,
            final(self).press_generation == (if enabled {
                press_id
            } else {
                old(self).press_generation
            }),
            final(self).slot == old(self).slot,
            final(self).pending_combined == old(self).pending_combined,
    {
        if enabled {
            self.press_generation = press_id;
        }
        enabled
    }

    /// Acts on what the interpreter made of a press. `session_id` is fresh; it takes the slot
    /// where a capture is to start and the slot is free.
    pub fn handle_less_computer_pressed(
        &mut self,
        action: LessComputerHotkeyAction,
        press_id: u64,
        session_id: u64,
    ) -> (r: PressEffect)
        ensures
            r == (match action {
                LessComputerHotkeyAction::Noop => PressEffect::Nothing,
                LessComputerHotkeyAction::Finish => PressEffect::Finish,
                LessComputerHotkeyAction::Cancel => match owner(old(self).slot) {
                    Some(id) => if old(self).press_generation == press_id {
                        PressEffect::Cancel(id)
                    } else {
                        PressEffect::Nothing
                    },
                    None => PressEffect::Nothing,
                },
                LessComputerHotkeyAction::Start => if old(self).slot is None {
                    PressEffect::Start(session_id)
                } else {
                    PressEffect::Nothing
                },
            }),
            final(self).slot == (if r is Start {
                Some(LessComputerHostCapture::<H>::Starting(session_id))
            } else {
                old(self).slot
            }),
            final(self).press_generation == old(self).press_generation,
            final(self).pending_combined == old(self).pending_combined,
    {
        match action {
            LessComputerHotkeyAction::Noop => PressEffect::Nothing,
            LessComputerHotkeyAction::Finish => PressEffect::Finish,
            LessComputerHotkeyAction::Cancel => {
                let current: Option<u64> = slot_owner(&self.slot);
                match self.combined_cancels(press_id, current) {
                    Some(id) => PressEffect::Cancel(id),
                    None => PressEffect::Nothing,
                }
            },
            LessComputerHotkeyAction::Start => if self.slot.is_some() {
                PressEffect::Nothing
            } else {
                self.slot = Some(LessComputerHostCapture::Starting(session_id));
                PressEffect::Start(session_id)
            },
        }
    }

    /// The recorder for `session_id` came up, or did not. A slot that has another owner by now is
    /// left alone either way.
    pub fn startup_finished(
        &mut self,
        session_id: u64,
        started: Option<LessComputerVoiceSession<H>>,
        control: &mut LessComputerRecordingControl,
    ) -> (r: StartupEffect<H>)
        ensures
            final(self).press_generation == old(self).press_generation,
            final(self).pending_combined == old(self).pending_combined,
            match started {
                Some(session) => if old(self).slot == Some(
                    LessComputerHostCapture::<H>::Starting(session.session_id),
                ) {
                    &&& r matches StartupEffect::Running(waited) && waited@ == requests_of(
                        old(control)@,
                        session_id,
                    )
                    &&& final(control)@ == requests_beside(old(control)@, session_id)
                    &&& final(self).slot == Some(LessComputerHostCapture::Recording(session))
                } else {
                    &&& r == StartupEffect::Release(session)
                    &&& final(control)@ == old(control)@
                    &&& final(self).slot == old(self).slot
                },
                None => {
                    &&& r is Failed
                    &&& final(control)@ == old(control)@
                    &&& final(self).slot == (if old(self).slot == Some(
                        LessComputerHostCapture::<H>::Starting(session_id),
                    ) {
                        None
                    } else {
                        old(self).slot
                    })
                },
            },
    {
        match started {
            Some(session) => match attach_less_computer_recording(&mut self.slot, session) {
                Ok(_) => StartupEffect::Running(control.flush(session_id)),
                Err(late) => StartupEffect::Release(late),
            },
            None => {
                let own_start: bool = match &self.slot {
                    Some(LessComputerHostCapture::Starting(id)) => *id == session_id,
                    _ => false,
                };
                if own_start {
                    self.slot = None;
                }
                StartupEffect::Failed
            },
        }
    }

    /// A trigger went up. Whether the edge goes on to its interpreter: only where the release
    /// belongs to the current press and `expected` still holds the slot.
    pub fn accept_release(&self, expected: Option<u64>, press_id: u64) -> (r: bool)
        ensures
            r == (expected is Some && self.press_generation == press_id && owner(self.slot)
                == expected),
    {
        match expected {
            Some(id) => self.press_generation == press_id && meant(&self.slot, Some(id)),
            None => false,
        }
    }

    /// Cancels the expected capture. A request for a session that is gone is ignored.
    pub fn cancel_less_computer_capture(&mut self, expected: Option<u64>) -> (r: CancelEffect<H>)
        ensures
            final(self).pending_combined == old(self).pending_combined,
            if expected is Some && owner(old(self).slot) != expected {
                r is Stale && *final(self) == *old(self)
            } else {
                &&& r == CancelEffect::Cancel(old(self).slot)
                &&& final(self).slot is None
                &&& final(self).press_generation == 0
            },
    {
        let taken: Option<LessComputerHostCapture<H>> = take_less_computer_host_capture(
            &mut self.slot,
            expected,
        );
        if taken.is_none() && expected.is_some() {
            return CancelEffect::Stale;
        }
        self.press_generation = 0;
        CancelEffect::Cancel(taken)
    }

    /// Ends the expected recording, or whichever runs where none is expected: it is taken out of the
    /// slot to be finished. A capture that is still starting stays.
    pub fn finish_less_computer_voice_session(&mut self, expected: Option<u64>) -> (r: Option<
        LessComputerVoiceSession<H>,
    >)
        ensures
            final(self).press_generation == old(self).press_generation,
            final(self).pending_combined == old(self).pending_combined,
            match old(self).slot {
                Some(LessComputerHostCapture::Recording(session)) => if is_meant(
                    old(self).slot,
                    expected,
                ) {
                    r == Some(session) && final(self).slot is None
                } else {
                    r is None && final(self).slot == old(self).slot
                },
                _ => r is None && final(self).slot == old(self).slot,
            },
    {
        take_less_computer_capture(&mut self.slot, expected)
    }

    /// Stop was clicked. A recording that is still starting is stopped once it runs, so that a
    /// click during a slow start is not lost. `control` is the queue of the capture in the slot.
    pub fn stop_less_computer_recording(&mut self, control: &mut LessComputerRecordingControl) -> (r:
        StopEffect<H>)
        ensures
            final(self).press_generation == old(self).press_generation,
            final(self).pending_combined == old(self).pending_combined,
            match old(self).slot {
                Some(LessComputerHostCapture::Starting(id)) => {
                    &&& r is Queued
                    &&& final(self).slot == old(self).slot
                    &&& final(control)@ == old(control)@.push((id, RecordingControlAction::Stop))
                },
                Some(LessComputerHostCapture::Recording(session)) => {
                    &&& r == StopEffect::Finish(session)
                    &&& final(self).slot is None
                    &&& final(control)@ == old(control)@
                },
                None => {
                    &&& r is Nothing
                    &&& final(self).slot is None
                    &&& final(control)@ == old(control)@
                },
            },
    {
        let starting: Option<u64> = match &self.slot {
            Some(LessComputerHostCapture::Starting(id)) => Some(*id),
            _ => None,
        };
        if let Some(id) = starting {
            let now: Option<RecordingControlAction> = control.request(
                &self.slot,
                id,
                RecordingControlAction::Stop,
            );
            return StopEffect::Queued;
        }
        match self.finish_less_computer_voice_session(None) {
            Some(session) => StopEffect::Finish(session),
            None => StopEffect::Nothing,
        }
    }

    /// Escape was pressed, or the panel closed. The slot is freed before anything is awaited.
    /// `active` is the session that runs elsewhere, if one does.
    pub fn cancel_active_less_computer(&mut self, active: Option<u64>) -> (r: DismissEffect<H>)
        ensures
            r == (match old(self).slot {
                Some(capture) => DismissEffect::Capture(capture),
                None => match active {
                    Some(id) => DismissEffect::Session(id),
                    None => DismissEffect::Nothing,
                },
            }),
            final(self).slot is None,
            r is Nothing ==> *final(self) == *old(self),
            !(r is Nothing) ==> final(self).press_generation == 0
                && final(self).pending_combined is None,
    {
        let capture: Option<LessComputerHostCapture<H>> = take_less_computer_host_capture(
            &mut self.slot,
            None,
        );
        match capture {
            Some(capture) => {
                self.press_generation = 0;
                self.pending_combined = None;
                DismissEffect::Capture(capture)
            },
            None => match active {
                Some(id) => {
                    self.press_generation = 0;
                    self.pending_combined = None;
                    DismissEffect::Session(id)
                },
                None => DismissEffect::Nothing,
            },
        }
    }
}

/// The combination trigger hands its session and press from the press to the release.
#[derive(Debug, PartialEq, Eq)]
pub struct ComboOwnership {
    /// The session and the press that started it.
    pub owned: Option<(u64, u64)>,
}

impl ComboOwnership {
    pub fn new() -> (r: ComboOwnership)
        ensures
            r.owned is None,
    {
        ComboOwnership { owned: None }
    }

    /// The combination went down and `session_id`, if any, was started by it.
    pub fn pressed(&mut self, session_id: Option<u64>, press_id: u64)
        ensures
            final(self).owned == (match session_id {
                Some(id) => Some((id, press_id)),
                None => None,
            }),
    {
        self.owned = match session_id {
            Some(id) => Some((id, press_id)),
            None => None,
        };
    }

    /// The combination went up. What it owned is handed out once.
    pub fn released(&mut self) -> (r: Option<(u64, u64)>)
        ensures
            r == old(self).owned,
            final(self).owned is None,
    {
        self.owned.take()
    }
}

proof fn lemma_requests_beside(pending: Seq<(u64, RecordingControlAction)>, session_id: u64)
    ensures
        requests_of(requests_beside(pending, session_id), session_id).len() == 0,
        forall|other: u64|
            other != session_id ==> #[trigger] requests_of(
                requests_beside(pending, session_id),
                other,
            ) == requests_of(pending, other),
    decreases pending.len(),
{
    if pending.len() > 0 {
        let rest = pending.drop_last();
        lemma_requests_beside(rest, session_id);
        if pending.last().0 != session_id {
            assert(requests_beside(pending, session_id).drop_last() =~= requests_beside(
                rest,
                session_id,
            ));
        }
        assert forall|other: u64| other != session_id implies #[trigger] requests_of(
            requests_beside(pending, session_id),
            other,
        ) == requests_of(pending, other) by {
            assert(requests_of(requests_beside(rest, session_id), other) == requests_of(
                rest,
                other,
            ));
        }
    }
}

/// What was flushed is never handed out again, and flushing for one session loses nothing that
/// waits for another.
pub proof fn requests_are_delivered_once(
    pending: Seq<(u64, RecordingControlAction)>,
    session_id: u64,
    other: u64,
)
    ensures
        requests_of(requests_beside(pending, session_id), session_id) == Seq::<
            RecordingControlAction,
        >::empty(),
        other != session_id ==> requests_of(requests_beside(pending, session_id), other)
            == requests_of(pending, other),
{
    lemma_requests_beside(pending, session_id);
}

/// A request that comes before its recording runs is the last thing handed out when the recording
/// does; one that comes after is handed out at once. Either way it is delivered exactly once.
pub proof fn early_requests_wait_for_the_handoff(
    pending: Seq<(u64, RecordingControlAction)>,
    session_id: u64,
    action: RecordingControlAction,
)
    ensures
        requests_of(pending.push((session_id, action)), session_id) == requests_of(
            pending,
            session_id,
        ).push(action),
        requests_of(
            requests_beside(pending.push((session_id, action)), session_id),
            session_id,
        ) == Seq::<RecordingControlAction>::empty(),
{
    assert(pending.push((session_id, action)).drop_last() =~= pending);
    lemma_requests_beside(pending.push((session_id, action)), session_id);
}

/// A capture belongs to the session that it was started for, before and while it records.
pub proof fn captures_know_their_session<H>(
    capture: LessComputerHostCapture<H>,
    r: u64,
)
    requires
        call_ensures(LessComputerHostCapture::<H>::session_id, (&capture,), r),
    ensures
        capture matches LessComputerHostCapture::Starting(id) ==> r == id,
        capture matches LessComputerHostCapture::Recording(session) ==> r == session.session_id,
        owner(Some(capture)) == Some(r),
        owner(None::<LessComputerHostCapture<H>>) is None,
{
}

/// A capture is taken by the session that it belongs to, or by anyone who names no session. A voice
/// session is taken only from a capture that records.
pub proof fn captures_are_taken_by_their_session<H>(
    slot: &mut Option<LessComputerHostCapture<H>>,
    expected: Option<u64>,
    r: Option<LessComputerHostCapture<H>>,
    voice_slot: &mut Option<LessComputerHostCapture<H>>,
    voice: Option<LessComputerVoiceSession<H>>,
)
    requires
        call_ensures(take_less_computer_host_capture::<H>, (slot, expected), r),
        *old(voice_slot) == *old(slot),
        call_ensures(take_less_computer_capture::<H>, (voice_slot, expected), voice),
    ensures
        expected is None || owner(*old(slot)) == expected ==> r == *old(slot) && *final(slot)
            is None,
        expected is Some && owner(*old(slot)) != expected ==> r is None && *final(slot) == *old(
            slot,
        ) && voice is None,
        voice is Some <==> r is Some && r->0 is Recording,
        voice is Some ==> r->0 == LessComputerHostCapture::Recording(voice->0) && *final(voice_slot)
            is None,
        voice is None ==> *final(voice_slot) == *old(voice_slot),
{
}

/// A recording is attached where its session is still starting; a recording that comes too late, or
/// for another session, is given back and changes nothing.
pub proof fn late_recordings_are_given_back<H>(
    slot: &mut Option<LessComputerHostCapture<H>>,
    session: LessComputerVoiceSession<H>,
    r: Result<(), LessComputerVoiceSession<H>>,
)
    requires
        call_ensures(attach_less_computer_recording::<H>, (slot, session), r),
    ensures
        r is Ok <==> *old(slot) is Some && old(slot)->0 is Starting && owner(*old(slot)) == Some(
            session.session_id,
        ),
        r is Ok ==> *final(slot) == Some(LessComputerHostCapture::Recording(session)),
        r is Err ==> r->Err_0 == session && *final(slot) == *old(slot),
{
}

proof fn lemma_requests_filtered(
    pending: Seq<(u64, RecordingControlAction)>,
    session_id: u64,
)
    ensures
        requests_of(pending, session_id) == pending.filter(
            |p: (u64, RecordingControlAction)| p.0 == session_id,
        ).map_values(|p: (u64, RecordingControlAction)| p.1),
        requests_beside(pending, session_id) == pending.filter(
            |p: (u64, RecordingControlAction)| p.0 != session_id,
        ),
    decreases pending.len(),
{
    reveal(Seq::filter);
    let mine = |p: (u64, RecordingControlAction)| p.0 == session_id;
    let action = |p: (u64, RecordingControlAction)| p.1;
    if pending.len() > 0 {
        lemma_requests_filtered(pending.drop_last(), session_id);
        assert(requests_of(pending, session_id) =~= pending.filter(mine).map_values(action));
    } else {
        assert(requests_of(pending, session_id) =~= pending.filter(mine).map_values(action));
    }
}

/// A request to a session that records is carried out at once; one that comes earlier waits. When a
/// session is asked for its requests it gets all of them, in order, and those of others stay.
pub proof fn requests_wait_until_the_session_records<H>(
    fresh: LessComputerRecordingControl,
    control: &mut LessComputerRecordingControl,
    slot: &Option<LessComputerHostCapture<H>>,
    session_id: u64,
    action: RecordingControlAction,
    r: Option<RecordingControlAction>,
    flushed: &mut LessComputerRecordingControl,
    asked: u64,
    waited: Vec<RecordingControlAction>,
)
    requires
        call_ensures(LessComputerRecordingControl::new, (), fresh),
        call_ensures(
            LessComputerRecordingControl::request::<H>,
            (control, slot, session_id, action),
            r,
        ),
        *old(flushed) == *final(control),
        call_ensures(LessComputerRecordingControl::flush, (flushed, asked), waited),
    ensures
        fresh@.len() == 0,
        r is Some <==> *slot is Some && slot->0 is Recording && owner(*slot) == Some(session_id),
        r is Some ==> r->0 == action && final(control)@ == old(control)@,
        r is None ==> final(control)@ == old(control)@.push((session_id, action)),
        waited@ == final(control)@.filter(
            |p: (u64, RecordingControlAction)| p.0 == asked,
        ).map_values(|p: (u64, RecordingControlAction)| p.1),
        final(flushed)@ == final(control)@.filter(
            |p: (u64, RecordingControlAction)| p.0 != asked,
        ),
        r is None && asked == session_id ==> waited@.len() > 0 && waited@.last() == action,
{
    lemma_requests_filtered(final(control)@, asked);
    if r is None {
        early_requests_wait_for_the_handoff(old(control)@, session_id, action);
    }
}

/// A press that was combined with another key is remembered until the key with its number is pressed,
/// which then does nothing; another number leaves it.
pub proof fn combined_presses_start_nothing<H>(
    fresh: LessComputer<H>,
    taken: &mut LessComputer<H>,
    press_id: u64,
    edge: Option<HotkeyCombinedEdge>,
    pressed: &mut LessComputer<H>,
    goes_on: bool,
)
    requires
        call_ensures(LessComputer::<H>::new, (), fresh),
        call_ensures(LessComputer::<H>::take_pending_less_combined, (taken, press_id), edge),
        *old(pressed) == *old(taken),
        call_ensures(LessComputer::<H>::modifier_pressed, (pressed, press_id), goes_on),
    ensures
        fresh.slot is None && fresh.press_generation == 0 && fresh.pending_combined is None,
        edge is Some <==> old(taken).pending_combined is Some
            && old(taken).pending_combined->0.press_id == press_id,
        edge is Some ==> edge == old(taken).pending_combined && final(taken).pending_combined
            is None,
        edge is None ==> final(taken).pending_combined == old(taken).pending_combined,
        goes_on <==> edge is None,
        final(pressed).press_generation == press_id,
        final(pressed).pending_combined == final(taken).pending_combined,
        final(pressed).slot == old(pressed).slot && final(taken).slot == old(taken).slot,
        final(taken).press_generation == old(taken).press_generation,
{
}

/// A combination cancels the session of the press that it belongs to; a press without a number is
/// none.
pub proof fn combinations_cancel_their_own_press<H>(
    computer: &LessComputer<H>,
    press_id: u64,
    session_id: Option<u64>,
    cancels: Option<u64>,
    state: &mut LessComputer<H>,
    edge: HotkeyCombinedEdge,
    r: Option<u64>,
)
    requires
        call_ensures(LessComputer::<H>::combined_cancels, (computer, press_id, session_id), cancels),
        call_ensures(LessComputer::<H>::cancel_less_computer_press, (state, edge), r),
    ensures
        computer.press_generation == press_id ==> cancels == session_id,
        computer.press_generation != press_id ==> cancels is None,
        edge.press_id == 0 ==> r is None && *final(state) == *old(state),
        edge.press_id != 0 ==> final(state).pending_combined == Some(edge),
        edge.press_id != 0 && old(state).press_generation == edge.press_id ==> r == owner(
            old(state).slot,
        ),
        old(state).press_generation != edge.press_id ==> r is None,
        final(state).slot == old(state).slot,
        final(state).press_generation == old(state).press_generation,
{
}

/// What a press does: it starts a session where there is none, and never a second one; it cancels the
/// session of its own press; it finishes or does nothing as told. A press counts where Less Computer
/// is switched on.
pub proof fn presses_start_at_most_one_session<H>(
    accepted_state: &mut LessComputer<H>,
    enabled: bool,
    press_id: u64,
    accepted: bool,
    state: &mut LessComputer<H>,
    action: LessComputerHotkeyAction,
    session_id: u64,
    r: PressEffect,
)
    requires
        call_ensures(LessComputer::<H>::accept_press, (accepted_state, enabled, press_id), accepted),
        call_ensures(
            LessComputer::<H>::handle_less_computer_pressed,
            (state, action, press_id, session_id),
            r,
        ),
    ensures
        accepted == enabled,
        enabled ==> final(accepted_state).press_generation == press_id,
        !enabled ==> *final(accepted_state) == *old(accepted_state),
        final(accepted_state).slot == old(accepted_state).slot,
        r is Start <==> action is Start && old(state).slot is None,
        r is Start ==> r == PressEffect::Start(session_id) && final(state).slot == Some(
            LessComputerHostCapture::<H>::Starting(session_id),
        ),
        !(r is Start) ==> final(state).slot == old(state).slot,
        action is Noop ==> r is Nothing,
        action is Finish ==> r is Finish,
        r is Cancel <==> action is Cancel && old(state).slot is Some && old(state).press_generation
            == press_id,
        r matches PressEffect::Cancel(id) ==> owner(old(state).slot) == Some(id),
        final(state).press_generation == old(state).press_generation,
        final(state).pending_combined == old(state).pending_combined,
        final(accepted_state).pending_combined == old(accepted_state).pending_combined,
{
}

/// A session that started in time runs, and gets the requests that waited for it. One that comes too
/// late is released. One that failed leaves the slot empty, unless another session has it.
pub proof fn startups_run_or_are_released<H>(
    state: &mut LessComputer<H>,
    session_id: u64,
    started: Option<LessComputerVoiceSession<H>>,
    control: &mut LessComputerRecordingControl,
    r: StartupEffect<H>,
)
    requires
        started is Some ==> started->0.session_id == session_id,
        call_ensures(
            LessComputer::<H>::startup_finished,
            (state, session_id, started, control),
            r,
        ),
    ensures
        r is Failed <==> started is None,
        r is Running <==> started is Some && old(state).slot is Some && old(state).slot->0
            is Starting && owner(old(state).slot) == Some(session_id),
        r is Running ==> final(state).slot == Some(LessComputerHostCapture::Recording(started->0)),
        r matches StartupEffect::Running(waited) ==> waited@ == old(control)@.filter(
            |p: (u64, RecordingControlAction)| p.0 == session_id,
        ).map_values(|p: (u64, RecordingControlAction)| p.1),
        r matches StartupEffect::Running(_) ==> final(control)@ == old(control)@.filter(
            |p: (u64, RecordingControlAction)| p.0 != session_id,
        ),
        r matches StartupEffect::Release(session) ==> session == started->0 && final(state).slot
            == old(state).slot,
        !(r is Running) ==> final(control)@ == old(control)@,
        r is Failed && old(state).slot is Some && old(state).slot->0 is Starting && owner(
            old(state).slot,
        ) == Some(session_id) ==> final(state).slot is None,
        r is Failed && !(old(state).slot is Some && old(state).slot->0 is Starting && owner(
            old(state).slot,
        ) == Some(session_id)) ==> final(state).slot == old(state).slot,
        final(state).press_generation == old(state).press_generation,
        final(state).pending_combined == old(state).pending_combined,
{
    lemma_requests_filtered(old(control)@, session_id);
}

/// A release counts where it is that of the last press and the session has the slot.
pub proof fn releases_belong_to_the_last_press<H>(
    state: &LessComputer<H>,
    expected: Option<u64>,
    press_id: u64,
    r: bool,
)
    requires
        call_ensures(LessComputer::<H>::accept_release, (state, expected, press_id), r),
    ensures
        r <==> expected is Some && state.press_generation == press_id && owner(state.slot)
            == expected,
{
}

/// A cancellation for a session that no longer has the slot is stale and changes nothing; any other
/// empties the slot and ends the press. Only a session that records can be finished.
pub proof fn cancellations_and_ends_keep_to_their_session<H>(
    cancelled: &mut LessComputer<H>,
    expected: Option<u64>,
    r: CancelEffect<H>,
    finished: &mut LessComputer<H>,
    session: Option<LessComputerVoiceSession<H>>,
)
    requires
        call_ensures(LessComputer::<H>::cancel_less_computer_capture, (cancelled, expected), r),
        *old(finished) == *old(cancelled),
        call_ensures(
            LessComputer::<H>::finish_less_computer_voice_session,
            (finished, expected),
            session,
        ),
    ensures
        r is Stale <==> expected is Some && owner(old(cancelled).slot) != expected,
        r is Stale ==> *final(cancelled) == *old(cancelled),
        !(r is Stale) ==> r == CancelEffect::Cancel(old(cancelled).slot) && final(cancelled).slot
            is None && final(cancelled).press_generation == 0,
        session is Some <==> old(finished).slot is Some && old(finished).slot->0 is Recording && !(r
            is Stale),
        session is Some ==> old(finished).slot == Some(
            LessComputerHostCapture::Recording(session->0),
        ) && final(finished).slot is None,
        session is None ==> final(finished).slot == old(finished).slot,
        final(finished).press_generation == old(finished).press_generation,
        final(finished).pending_combined == old(finished).pending_combined,
        final(cancelled).pending_combined == old(cancelled).pending_combined,
{
}

/// Stopping finishes a session that records, and waits for one that is starting. Dismissing takes
/// whatever is there: the capture, else the session that is active.
pub proof fn stops_wait_for_sessions_that_start<H>(
    stopped: &mut LessComputer<H>,
    control: &mut LessComputerRecordingControl,
    r: StopEffect<H>,
    dismissed: &mut LessComputer<H>,
    active: Option<u64>,
    effect: DismissEffect<H>,
)
    requires
        call_ensures(LessComputer::<H>::stop_less_computer_recording, (stopped, control), r),
        *old(dismissed) == *old(stopped),
        call_ensures(LessComputer::<H>::cancel_active_less_computer, (dismissed, active), effect),
    ensures
        r is Queued <==> old(stopped).slot is Some && old(stopped).slot->0 is Starting,
        r is Queued ==> final(control)@ == old(control)@.push(
            (owner(old(stopped).slot)->0, RecordingControlAction::Stop),
        ) && final(stopped).slot == old(stopped).slot,
        r is Finish <==> old(stopped).slot is Some && old(stopped).slot->0 is Recording,
        r matches StopEffect::Finish(session) ==> old(stopped).slot == Some(
            LessComputerHostCapture::Recording(session),
        ) && final(stopped).slot is None && final(control)@ == old(control)@,
        r is Nothing <==> old(stopped).slot is None,
        r is Nothing ==> final(stopped).slot is None && final(control)@ == old(control)@,
        final(stopped).press_generation == old(stopped).press_generation,
        final(stopped).pending_combined == old(stopped).pending_combined,
        effect is Capture <==> old(dismissed).slot is Some,
        effect matches DismissEffect::Capture(capture) ==> old(dismissed).slot == Some(capture),
        old(dismissed).slot is None && active is Some ==> effect == DismissEffect::<H>::Session(
            active->0,
        ),
        old(dismissed).slot is None && active is None ==> effect is Nothing && *final(dismissed)
            == *old(dismissed),
        !(effect is Nothing) ==> final(dismissed).slot is None && final(dismissed).press_generation
            == 0 && final(dismissed).pending_combined is None,
{
}

/// A combination that is held is released with the session and the press that it was pressed with,
/// once.
pub proof fn combinations_are_released_once(
    fresh: ComboOwnership,
    pressed: &mut ComboOwnership,
    session_id: Option<u64>,
    press_id: u64,
    first: &mut ComboOwnership,
    owned: Option<(u64, u64)>,
    second: &mut ComboOwnership,
    again: Option<(u64, u64)>,
)
    requires
        call_ensures(ComboOwnership::new, (), fresh),
        call_ensures(ComboOwnership::pressed, (pressed, session_id, press_id), ()),
        *old(first) == *final(pressed),
        call_ensures(ComboOwnership::released, (first,), owned),
        *old(second) == *final(first),
        call_ensures(ComboOwnership::released, (second,), again),
    ensures
        fresh.owned is None,
        session_id is Some ==> owned == Some((session_id->0, press_id)),
        session_id is None ==> owned is None,
        again is None,
{
}

} // verus!
