//! The selection that a polish works on: captured for one session, replaced or reverted for that
//! session only, and given up with it.

use vstd::prelude::*;

use crate::errors::{self, BackendError, BackendErrorCode};
use crate::insertion::{self, map_insert_status, InsertOutcome, InsertStatus};
use crate::platform::TargetOs;
use crate::selection::SelectionContext;
use crate::selection_target::{
    self, selection_insertion_target_is_captured, SelectionInsertionTarget,
    SelectionInsertionTargetValidation,
};

verus! {

/// The captured selection, where it can be replaced later; else why the polish does not start.
pub fn captured_selection(
    selection: Option<SelectionContext>,
    at: SelectionInsertionTarget,
    target: TargetOs,
) -> (r: Result<(SelectionContext, SelectionInsertionTarget), BackendError>)
    ensures
        match selection {
            None => errors::fails(
                r,
                BackendErrorCode::InvalidArgument,
                "selectionPolishNoSelection"@,
            ),
            Some(s) => if selection_target::is_captured(at, target) {
                r == Ok::<(SelectionContext, SelectionInsertionTarget), BackendError>((s, at))
            } else {
                errors::fails(r, BackendErrorCode::Platform, "selectionPolishTargetUnavailable"@)
            },
        },
{
    match selection {
        None => Err(
            BackendError::new(BackendErrorCode::InvalidArgument, "selectionPolishNoSelection"),
        ),
        Some(s) => if selection_insertion_target_is_captured(&at, target) {
            Ok((s, at))
        } else {
            Err(BackendError::new(BackendErrorCode::Platform, "selectionPolishTargetUnavailable"))
        },
    }
}

/// What is asked next on the way to replacing a selection.
#[derive(Debug, Clone, Copy, PartialEq, Eq, Structural)]
pub enum ApplyStage {
    /// That the preview gives up the keyboard, on macOS.
    ResigningKey,
    /// That the application comes back to the front.
    Reactivating,
    /// Whether the target and the selection are what they were.
    Validating,
    /// Whether the application is still in front, on macOS.
    CheckingFront,
    /// How the text is pasted.
    ReadingPreferences,
    /// To insert the text.
    Inserting,
}

/// The answer to what was asked.
#[derive(Debug, PartialEq, Eq)]
pub enum ApplyReply {
    /// `None` where the application is not running yet.
    Resigned(Option<bool>),
    Reactivated(bool),
    Validated(SelectionInsertionTargetValidation),
    StillFront(bool),
    Preferences(Result<(), BackendError>),
    Inserted(InsertStatus),
}

/// How the replacement goes on.
#[derive(Debug, PartialEq, Eq)]
pub enum ApplyStep {
    Ask(ApplyStage),
    Done(Result<InsertOutcome, BackendError>),
}

/// What is asked first: a preview has taken the focus, which goes back before anything is checked.
pub open spec fn first_apply_stage(reactivate: bool, target: TargetOs) -> ApplyStage {
    if !reactivate {
        ApplyStage::Validating
    } else if target is Macos {
        ApplyStage::ResigningKey
    } else {
        ApplyStage::Reactivating
    }
}

/// What is asked first.
pub fn begin_apply(reactivate: bool, target: TargetOs) -> (r: ApplyStage)
    ensures
        r == first_apply_stage(reactivate, target),
{
    if !reactivate {
        ApplyStage::Validating
    } else if target == TargetOs::Macos {
        ApplyStage::ResigningKey
    } else {
        ApplyStage::Reactivating
    }
}

/// The reply answers what the stage asks.
pub open spec fn answers(reply: ApplyReply, stage: ApplyStage) -> bool {
    match reply {
        ApplyReply::Resigned(_) => stage is ResigningKey,
        ApplyReply::Reactivated(_) => stage is Reactivating,
        ApplyReply::Validated(_) => stage is Validating,
        ApplyReply::StillFront(_) => stage is CheckingFront,
        ApplyReply::Preferences(_) => stage is ReadingPreferences,
        ApplyReply::Inserted(_) => stage is Inserting,
    }
}

/// The error of a reply that ends the replacement before the text is inserted.
pub open spec fn apply_error(reply: ApplyReply) -> Option<errors::ErrorParts> {
    match reply {
        ApplyReply::Resigned(None) => Some(
            errors::plain_error(
                BackendErrorCode::InvalidState,
                "Tauri AppHandle is not bound yet"@,
            ),
        ),
        ApplyReply::Resigned(Some(false)) | ApplyReply::Reactivated(false) => Some(
            errors::plain_error(BackendErrorCode::Platform, "selectionPolishTargetUnavailable"@),
        ),
        ApplyReply::Validated(validation) => match validation.code() {
            None => None,
            Some(code) => Some(
                errors::plain_error(
                    if validation is TargetUnavailable {
                        BackendErrorCode::Platform
                    } else {
                        BackendErrorCode::Cancelled
                    },
                    code,
                ),
            ),
        },
        ApplyReply::StillFront(false) => Some(
            errors::plain_error(BackendErrorCode::Cancelled, "selectionPolishTargetChanged"@),
        ),
        ApplyReply::Preferences(Err(e)) => Some(e@),
        _ => None,
    }
}

/// What is asked after `stage` was answered well.
pub open spec fn apply_stage_after(stage: ApplyStage, target: TargetOs) -> ApplyStage {
    match stage {
        ApplyStage::ResigningKey => ApplyStage::Reactivating,
        ApplyStage::Reactivating => ApplyStage::Validating,
        ApplyStage::Validating => if target is Macos {
            ApplyStage::CheckingFront
        } else {
            ApplyStage::ReadingPreferences
        },
        ApplyStage::CheckingFront => ApplyStage::ReadingPreferences,
        _ => ApplyStage::Inserting,
    }
}

/// Takes the answer to what the stage asks, and goes on, fails, or is done.
pub fn apply_step(stage: ApplyStage, reply: ApplyReply, target: TargetOs) -> (r: ApplyStep)
    requires
        answers(reply, stage),
    ensures
        match reply {
            ApplyReply::Inserted(status) => r matches ApplyStep::Done(result) && insertion::reports(
                result,
                status,
            ),
            _ => match apply_error(reply) {
                Some(error) => r matches ApplyStep::Done(Err(e)) && e@ == error,
                None => r == ApplyStep::Ask(apply_stage_after(stage, target)),
            },
        },
{
    match reply {
        ApplyReply::Resigned(None) => ApplyStep::Done(
            Err(
                BackendError::new(
                    BackendErrorCode::InvalidState,
                    "Tauri AppHandle is not bound yet",
                ),
            ),
        ),
        ApplyReply::Resigned(Some(false)) | ApplyReply::Reactivated(false) => ApplyStep::Done(
            Err(BackendError::new(BackendErrorCode::Platform, "selectionPolishTargetUnavailable")),
        ),
        ApplyReply::Resigned(Some(true)) => ApplyStep::Ask(ApplyStage::Reactivating),
        ApplyReply::Reactivated(true) => ApplyStep::Ask(ApplyStage::Validating),
        ApplyReply::Validated(validation) => match validation.error_code() {
            Some(code) => {
                let kind: BackendErrorCode = match validation {
                    SelectionInsertionTargetValidation::TargetUnavailable =>
                        BackendErrorCode::Platform,
                    _ => BackendErrorCode::Cancelled,
                };
                ApplyStep::Done(Err(BackendError::new(kind, code)))
            },
            None => if target == TargetOs::Macos {
                ApplyStep::Ask(ApplyStage::CheckingFront)
            } else {
                ApplyStep::Ask(ApplyStage::ReadingPreferences)
            },
        },
        ApplyReply::StillFront(false) => ApplyStep::Done(
            Err(BackendError::new(BackendErrorCode::Cancelled, "selectionPolishTargetChanged")),
        ),
        ApplyReply::StillFront(true) => ApplyStep::Ask(ApplyStage::ReadingPreferences),
        ApplyReply::Preferences(Err(e)) => ApplyStep::Done(Err(e)),
        ApplyReply::Preferences(Ok(_)) => ApplyStep::Ask(ApplyStage::Inserting),
        ApplyReply::Inserted(status) => ApplyStep::Done(map_insert_status(status)),
    }
}

/// The stage that a replacement has reached after the replies; `None` once it has ended.
pub open spec fn apply_stage_reached(
    reactivate: bool,
    target: TargetOs,
    replies: Seq<ApplyReply>,
) -> Option<ApplyStage>
    decreases replies.len(),
{
    if replies.len() == 0 {
        Some(first_apply_stage(reactivate, target))
    } else {
        match apply_stage_reached(reactivate, target, replies.drop_last()) {
            Some(stage) if answers(replies.last(), stage) && !(stage is Inserting) && apply_error(
                replies.last(),
            ) is None => Some(apply_stage_after(stage, target)),
            _ => None,
        }
    }
}

/// The stages at which the target and the selection have been found to be what they were.
pub open spec fn past_validation(stage: ApplyStage) -> bool {
    stage is CheckingFront || stage is ReadingPreferences || stage is Inserting
}

/// No text is inserted unless the target was found valid, and on macOS found in front again after
/// that.
pub proof fn text_is_inserted_only_into_a_valid_target(
    reactivate: bool,
    target: TargetOs,
    replies: Seq<ApplyReply>,
)
    requires
        apply_stage_reached(reactivate, target, replies) matches Some(stage) && past_validation(
            stage,
        ),
    ensures
        replies.contains(ApplyReply::Validated(SelectionInsertionTargetValidation::Valid)),
        apply_stage_reached(reactivate, target, replies) is Some && target is Macos && !(
        apply_stage_reached(reactivate, target, replies)->0 is CheckingFront) ==> replies.contains(
            ApplyReply::StillFront(true),
        ),
    decreases replies.len(),
{
    let before = replies.drop_last();
    let valid = ApplyReply::Validated(SelectionInsertionTargetValidation::Valid);
    let front = ApplyReply::StillFront(true);
    let stage = apply_stage_reached(reactivate, target, before)->0;
    if past_validation(stage) {
        text_is_inserted_only_into_a_valid_target(reactivate, target, before);
        let i = choose|i: int| 0 <= i < before.len() && before[i] == valid;
        assert(replies[i] == valid);
        if target is Macos {
            if stage is CheckingFront {
                assert(replies[replies.len() - 1] == front);
            } else {
                let j = choose|j: int| 0 <= j < before.len() && before[j] == front;
                assert(replies[j] == front);
            }
        }
    } else {
        assert(replies[replies.len() - 1] == valid);
    }
}

/// The selection of a session.
#[derive(Debug, Clone, PartialEq, Eq)]
pub struct ActiveSelection<T> {
    pub session_id: u64,
    pub target: T,
    /// The polish shows a preview, which takes the focus from the selection.
    pub preview: bool,
}

/// The selection that is being polished; there is one at most.
#[derive(Debug, Clone, PartialEq, Eq)]
pub struct SelectionRuntime<T> {
    pub active: Option<ActiveSelection<T>>,
}

/// The error for a session whose selection has been given up.
pub open spec fn no_longer_active() -> errors::ErrorParts {
    errors::plain_error(BackendErrorCode::Cancelled, "selection target is no longer active"@)
}

fn inactive() -> (r: BackendError)
    ensures
        r@ == no_longer_active(),
{
    BackendError::new(BackendErrorCode::Cancelled, "selection target is no longer active")
}

/// Whether a capture may start: a text that is handed in is not taken.
pub fn accepts_capture(supplied_text: &Option<String>) -> (r: Result<(), BackendError>)
    ensures
        r is Ok <==> *supplied_text is None,
        r is Err ==> errors::fails(
            r,
            BackendErrorCode::Unsupported,
            "Tauri selection capture does not accept injected text"@,
        ),
{
    match supplied_text {
        None => Ok(()),
        Some(_) => Err(
            BackendError::new(
                BackendErrorCode::Unsupported,
                "Tauri selection capture does not accept injected text",
            ),
        ),
    }
}

impl<T> SelectionRuntime<T> {
    pub fn new() -> (r: SelectionRuntime<T>)
        ensures
            r.active is None,
    {
        SelectionRuntime { active: None }
    }

    /// The selection of the session.
    pub open spec fn of(self, session_id: u64) -> Option<ActiveSelection<T>> {
        match self.active {
            Some(a) if a.session_id == session_id => Some(a),
            _ => None,
        }
    }

    /// Takes a capture for a session, in place of the selection of any other. A session that has
    /// one keeps it.
    pub fn capture<C>(&mut self, session_id: u64, captured: Result<(C, T), BackendError>) -> (r:
        Result<C, BackendError>)
        ensures
            match captured {
                Err(e) => r == Err::<C, BackendError>(e) && *final(self) == *old(self),
                Ok((capture, target)) => {
                    &&& *final(self) == old(self).after_capture(session_id, target)
                    &&& if old(self).of(session_id) is Some {
                        errors::fails(
                            r,
                            BackendErrorCode::Busy,
                            "selection target is already registered for this session"@,
                        )
                    } else {
                        r == Ok::<C, BackendError>(capture)
                    }
                },
            },
    {
        let (capture, target) = match captured {
            Err(e) => return Err(e),
            Ok(both) => both,
        };
        let registered: bool = match &self.active {
            Some(a) => a.session_id == session_id,
            None => false,
        };
        if registered {
            return Err(
                BackendError::new(
                    BackendErrorCode::Busy,
                    "selection target is already registered for this session",
                ),
            );
        }
        self.active = Some(ActiveSelection { session_id, target, preview: false });
        Ok(capture)
    }

    fn find(&self, session_id: u64) -> (r: Option<&ActiveSelection<T>>)
        ensures
            match r {
                Some(a) => self.of(session_id) == Some(*a),
                None => self.of(session_id) is None,
            },
    {
        match &self.active {
            Some(a) => if a.session_id == session_id {
                Some(a)
            } else {
                None
            },
            None => None,
        }
    }

    /// Replaces the selection of the session through `bridge`, which is told whether a preview has
    /// taken the focus. A session without a selection reaches no application.
    pub fn apply<F: FnOnce(&T, &str, &str, bool) -> Result<InsertOutcome, BackendError>>(
        &self,
        session_id: u64,
        source_text: &str,
        replacement_text: &str,
        bridge: F,
    ) -> (r: Result<InsertOutcome, BackendError>)
        requires
            self.of(session_id) matches Some(a) ==> call_requires(
                bridge,
                (&a.target, source_text, replacement_text, a.preview),
            ),
        ensures
            match self.of(session_id) {
                Some(a) => call_ensures(
                    bridge,
                    (&a.target, source_text, replacement_text, a.preview),
                    r,
                ),
                None => r matches Err(e) && e@ == no_longer_active(),
            },
    {
        match self.find(session_id) {
            Some(a) => bridge(&a.target, source_text, replacement_text, a.preview),
            None => Err(inactive()),
        }
    }

    /// Marks the session as one with a preview.
    pub fn prepare_preview(&mut self, session_id: u64) -> (r: Result<(), BackendError>)
        ensures
            match old(self).of(session_id) {
                Some(a) => r is Ok && final(self).active == Some(
                    ActiveSelection { preview: true, ..a },
                ),
                None => (r matches Err(e) && e@ == no_longer_active()) && *final(self)
                    == *old(self),
            },
    {
        match self.active.take() {
            Some(a) => {
                if a.session_id == session_id {
                    self.active = Some(
                        ActiveSelection { session_id: a.session_id, target: a.target, preview: true },
                    );
                    Ok(())
                } else {
                    self.active = Some(a);
                    Err(inactive())
                }
            },
            None => Err(inactive()),
        }
    }

    /// Takes back the replacement of the session through `bridge`.
    pub fn revert<F: FnOnce(&T) -> Result<InsertOutcome, BackendError>>(
        &self,
        session_id: u64,
        bridge: F,
    ) -> (r: Result<InsertOutcome, BackendError>)
        requires
            self.of(session_id) matches Some(a) ==> call_requires(bridge, (&a.target,)),
        ensures
            match self.of(session_id) {
                Some(a) => call_ensures(bridge, (&a.target,), r),
                None => r matches Err(e) && e@ == no_longer_active(),
            },
    {
        match self.find(session_id) {
            Some(a) => bridge(&a.target),
            None => Err(inactive()),
        }
    }

    /// Gives up the selection of the session.
    pub fn cancel(&mut self, session_id: u64)
        ensures
            *final(self) == old(self).after_cancel(session_id),
    {
        let registered: bool = match &self.active {
            Some(a) => a.session_id == session_id,
            None => false,
        };
        if registered {
            self.active = None;
        }
    }

    /// The state after the session was given up.
    pub open spec fn after_cancel(self, session_id: u64) -> SelectionRuntime<T> {
        SelectionRuntime {
            active: if self.of(session_id) is Some {
                None
            } else {
                self.active
            },
        }
    }

    /// The state after a capture for the session that went well.
    pub open spec fn after_capture(self, session_id: u64, target: T) -> SelectionRuntime<T> {
        if self.of(session_id) is Some {
            self
        } else {
            SelectionRuntime { active: Some(ActiveSelection { session_id, target, preview: false }) }
        }
    }
}

/// A platform that cannot take a replacement back says so.
pub fn cannot_revert() -> (r: BackendError)
    ensures
        r@ == errors::plain_error(
            BackendErrorCode::Unsupported,
            "selection replacement cannot be reverted by this platform adapter"@,
        ),
{
    BackendError::new(
        BackendErrorCode::Unsupported,
        "selection replacement cannot be reverted by this platform adapter",
    )
}

/// Once a session was given up it has no selection, giving it up again changes nothing, and other
/// sessions keep theirs.
pub proof fn cancelled_sessions_have_no_selection<T>(
    runtime: SelectionRuntime<T>,
    session_id: u64,
    other: u64,
)
    requires
        other != session_id,
    ensures
        runtime.after_cancel(session_id).of(session_id) is None,
        runtime.after_cancel(session_id).after_cancel(session_id) == runtime.after_cancel(
            session_id,
        ),
        runtime.after_cancel(session_id).of(other) == runtime.of(other),
{
}

/// A capture for a new session takes the selection from every other session, and starts without a
/// preview. One for a session that has a selection changes nothing.
pub proof fn a_new_capture_replaces_the_previous_one<T>(
    runtime: SelectionRuntime<T>,
    session_id: u64,
    target: T,
    other: u64,
)
    ensures
        runtime.of(session_id) is None ==> {
            let after = runtime.after_capture(session_id, target);
            &&& after.of(session_id) == Some(ActiveSelection { session_id, target, preview: false })
            &&& other != session_id ==> after.of(other) is None
        },
        runtime.of(session_id) is Some ==> runtime.after_capture(session_id, target) == runtime,
{
}

/// What the state of a selection polish says.
#[derive(Debug, Clone, PartialEq, Eq)]
pub struct SelectionSnapshot {
    pub session_id: Option<u64>,
    pub source_text: Option<String>,
    pub preview_text: Option<String>,
}

/// What the preview window shows.
#[derive(Debug, Clone, PartialEq, Eq)]
pub struct SelectionPolishPreviewPayload {
    pub text: String,
    pub source_text: String,
}

/// What the preview window shows: nothing unless there is both a text and what it replaces.
pub fn map_selection_preview(snapshot: SelectionSnapshot) -> (r: Option<
    SelectionPolishPreviewPayload,
>)
    ensures
        match (snapshot.preview_text, snapshot.source_text) {
            (Some(text), Some(source_text)) => r == Some(
                SelectionPolishPreviewPayload { text, source_text },
            ),
            _ => r is None,
        },
{
    match (snapshot.preview_text, snapshot.source_text) {
        (Some(text), Some(source_text)) => Some(
            SelectionPolishPreviewPayload { text, source_text },
        ),
        _ => None,
    }
}

/// The session that a confirmed preview belongs to.
pub fn previewed_session(snapshot: &SelectionSnapshot) -> (r: Result<u64, String>)
    ensures
        match snapshot.session_id {
            Some(id) => r == Ok::<u64, String>(id),
            None => r matches Err(message) && message@ == "selection preview is not active"@,
        },
{
    match snapshot.session_id {
        Some(id) => Ok(id),
        None => Err("selection preview is not active".to_owned()),
    }
}

/// A selection is taken where there is one and its target is known; what is missing is said.
pub proof fn selections_need_a_text_and_a_target(
    selection: Option<SelectionContext>,
    at: SelectionInsertionTarget,
    target: TargetOs,
    known: bool,
    r: Result<(SelectionContext, SelectionInsertionTarget), BackendError>,
    supplied: &Option<String>,
    accepted: Result<(), BackendError>,
)
    requires
        call_ensures(selection_insertion_target_is_captured, (&at, target), known),
        call_ensures(captured_selection, (selection, at, target), r),
        call_ensures(accepts_capture, (supplied,), accepted),
    ensures
        r is Ok <==> selection is Some && known,
        r is Ok ==> r->Ok_0 == (selection->0, at),
        selection is None ==> (r->Err_0).code is InvalidArgument && (r->Err_0).message@
            == "selectionPolishNoSelection"@,
        selection is Some && !known ==> (r->Err_0).code is Platform && (r->Err_0).message@
            == "selectionPolishTargetUnavailable"@,
        accepted is Ok <==> *supplied is None,
        accepted matches Err(e) ==> e.code is Unsupported && e.message@
            == "Tauri selection capture does not accept injected text"@,
{
}

/// A replacement that has to bring its target back begins with that, on macOS after giving up the
/// keys; any other begins with the validation.
pub proof fn replacements_begin_with_their_target(reactivate: bool, target: TargetOs, r: ApplyStage)
    requires
        call_ensures(begin_apply, (reactivate, target), r),
    ensures
        !reactivate ==> r is Validating,
        reactivate && target is Macos ==> r is ResigningKey,
        reactivate && !(target is Macos) ==> r is Reactivating,
{
}

/// One step of a replacement. Each question that is answered well leads to the next, on macOS with
/// one more look at the application in front; each that is not ends the replacement, with its reason.
pub proof fn replacements_go_step_by_step(
    stage: ApplyStage,
    reply: ApplyReply,
    target: TargetOs,
    r: ApplyStep,
)
    requires
        call_ensures(apply_step, (stage, reply, target), r),
    ensures
        reply == ApplyReply::Resigned(Some(true)) && stage is ResigningKey ==> r == ApplyStep::Ask(
            ApplyStage::Reactivating,
        ),
        reply == ApplyReply::Reactivated(true) && stage is Reactivating ==> r == ApplyStep::Ask(
            ApplyStage::Validating,
        ),
        reply == ApplyReply::Validated(SelectionInsertionTargetValidation::Valid) && stage
            is Validating && target is Macos ==> r == ApplyStep::Ask(ApplyStage::CheckingFront),
        reply == ApplyReply::Validated(SelectionInsertionTargetValidation::Valid) && stage
            is Validating && !(target is Macos) ==> r == ApplyStep::Ask(
            ApplyStage::ReadingPreferences,
        ),
        reply == ApplyReply::StillFront(true) && stage is CheckingFront ==> r == ApplyStep::Ask(
            ApplyStage::ReadingPreferences,
        ),
        reply is Preferences && reply->Preferences_0 is Ok && stage is ReadingPreferences ==> r
            == ApplyStep::Ask(ApplyStage::Inserting),
        reply == ApplyReply::Resigned(None) ==> r is Done && r->Done_0 is Err && (
        r->Done_0->Err_0).code is InvalidState && (r->Done_0->Err_0).message@
            == "Tauri AppHandle is not bound yet"@,
        reply == ApplyReply::Resigned(Some(false)) || reply == ApplyReply::Reactivated(false) ==> r
            is Done && r->Done_0 is Err && (r->Done_0->Err_0).code is Platform && (
        r->Done_0->Err_0).message@ == "selectionPolishTargetUnavailable"@,
        reply == ApplyReply::Validated(SelectionInsertionTargetValidation::TargetUnavailable) ==> r
            is Done && r->Done_0 is Err && (r->Done_0->Err_0).code is Platform && (
        r->Done_0->Err_0).message@ == "selectionPolishTargetUnavailable"@,
        reply == ApplyReply::Validated(SelectionInsertionTargetValidation::TargetChanged) || reply
            == ApplyReply::StillFront(false) ==> r is Done && r->Done_0 is Err && (
        r->Done_0->Err_0).code is Cancelled && (r->Done_0->Err_0).message@
            == "selectionPolishTargetChanged"@,
        reply == ApplyReply::Validated(SelectionInsertionTargetValidation::SelectionChanged) ==> r
            is Done && r->Done_0 is Err && (r->Done_0->Err_0).code is Cancelled && (
        r->Done_0->Err_0).message@ == "selectionPolishSelectionChanged"@,
        reply matches ApplyReply::Preferences(Err(e)) ==> r is Done && r->Done_0 is Err && (
        r->Done_0->Err_0)@ == e@,
        reply matches ApplyReply::Inserted(status) ==> r is Done && (r->Done_0 is Ok <==> status
            is Inserted || status is PasteSent || status is CopiedFallback),
        reply == ApplyReply::Inserted(InsertStatus::Inserted) ==> r->Done_0->Ok_0 is Inserted,
        reply == ApplyReply::Inserted(InsertStatus::PasteSent) ==> r->Done_0->Ok_0 is PasteSent,
        reply == ApplyReply::Inserted(InsertStatus::CopiedFallback) ==> r->Done_0->Ok_0
            is CopiedFallback,
{
}

/// A session that captured a selection has it until it is cancelled or another session captures one;
/// a second capture of the same session is refused, and one that failed changes nothing.
pub proof fn captures_belong_to_their_session<T, C>(
    fresh: SelectionRuntime<T>,
    runtime: &mut SelectionRuntime<T>,
    session_id: u64,
    captured: Result<(C, T), BackendError>,
    r: Result<C, BackendError>,
)
    requires
        call_ensures(SelectionRuntime::<T>::new, (), fresh),
        call_ensures(SelectionRuntime::<T>::capture::<C>, (runtime, session_id, captured), r),
    ensures
        fresh.active is None,
        captured is Err ==> r is Err && r->Err_0 == captured->Err_0 && *final(runtime) == *old(
            runtime,
        ),
        captured is Ok && (old(runtime).active is None || old(runtime).active->0.session_id
            != session_id) ==> {
            &&& r is Ok && r->Ok_0 == (captured->Ok_0).0
            &&& final(runtime).active is Some
            &&& final(runtime).active->0.session_id == session_id
            &&& final(runtime).active->0.target == (captured->Ok_0).1
            &&& !final(runtime).active->0.preview
        },
        captured is Ok && old(runtime).active is Some && old(runtime).active->0.session_id
            == session_id ==> r is Err && (r->Err_0).code is Busy && (r->Err_0).message@
            == "selection target is already registered for this session"@ && *final(runtime)
            == *old(runtime),
{
}

/// A selection is applied and reverted by the session that has it, on its own target and with what
/// it was asked to insert; any other session is told that its target is gone.
pub proof fn only_the_session_that_captured_applies<
    T,
    F: FnOnce(&T, &str, &str, bool) -> Result<InsertOutcome, BackendError>,
    G: FnOnce(&T) -> Result<InsertOutcome, BackendError>,
>(
    runtime: &SelectionRuntime<T>,
    session_id: u64,
    source_text: &str,
    replacement_text: &str,
    bridge: F,
    r: Result<InsertOutcome, BackendError>,
    undo: G,
    reverted: Result<InsertOutcome, BackendError>,
)
    requires
        call_ensures(
            SelectionRuntime::<T>::apply::<F>,
            (runtime, session_id, source_text, replacement_text, bridge),
            r,
        ),
        call_ensures(SelectionRuntime::<T>::revert::<G>, (runtime, session_id, undo), reverted),
    ensures
        runtime.active is Some && runtime.active->0.session_id == session_id ==> call_ensures(
            bridge,
            (&runtime.active->0.target, source_text, replacement_text, runtime.active->0.preview),
            r,
        ) && call_ensures(undo, (&runtime.active->0.target,), reverted),
        runtime.active is None || runtime.active->0.session_id != session_id ==> {
            &&& r is Err && (r->Err_0).code is Cancelled
            &&& (r->Err_0).message@ == "selection target is no longer active"@
            &&& reverted is Err && (reverted->Err_0).code is Cancelled
        },
{
}

/// A preview is marked for the session that has the selection, and for no other; cancelling a session
/// drops its selection and leaves that of another.
pub proof fn previews_and_cancellations_keep_to_their_session<T>(
    previewed: &mut SelectionRuntime<T>,
    session_id: u64,
    r: Result<(), BackendError>,
    cancelled: &mut SelectionRuntime<T>,
)
    requires
        call_ensures(SelectionRuntime::<T>::prepare_preview, (previewed, session_id), r),
        *old(cancelled) == *old(previewed),
        call_ensures(SelectionRuntime::<T>::cancel, (cancelled, session_id), ()),
    ensures
        r is Ok <==> old(previewed).active is Some && old(previewed).active->0.session_id
            == session_id,
        r is Ok ==> {
            &&& final(previewed).active is Some && final(previewed).active->0.preview
            &&& final(previewed).active->0.target == old(previewed).active->0.target
            &&& final(previewed).active->0.session_id == session_id
            &&& final(cancelled).active is None
        },
        r is Err ==> {
            &&& (r->Err_0).code is Cancelled
            &&& (r->Err_0).message@ == "selection target is no longer active"@
            &&& *final(previewed) == *old(previewed)
            &&& final(cancelled).active == old(cancelled).active
        },
{
}

/// A preview is shown where there is both a text and its source; the session is told where one is
/// previewed.
pub proof fn previews_show_text_and_source(
    snapshot: SelectionSnapshot,
    r: Option<SelectionPolishPreviewPayload>,
    session: Result<u64, String>,
    irrevertible: BackendError,
)
    requires
        call_ensures(map_selection_preview, (snapshot,), r),
        call_ensures(previewed_session, (&snapshot,), session),
        call_ensures(cannot_revert, (), irrevertible),
    ensures
        r is Some <==> snapshot.preview_text is Some && snapshot.source_text is Some,
        r is Some ==> r->0.text@ == snapshot.preview_text->0@ && r->0.source_text@
            == snapshot.source_text->0@,
        session is Ok <==> snapshot.session_id is Some,
        session is Ok ==> session->Ok_0 == snapshot.session_id->0,
        session is Err ==> session->Err_0@ == "selection preview is not active"@,
        irrevertible.code is Unsupported && irrevertible.message@
            == "selection replacement cannot be reverted by this platform adapter"@,
{
}

} // verus!
