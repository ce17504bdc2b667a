//! Putting the final text into the application that was dictated to: the ways that each platform
//! has, what falls back on what, and how a session of it is opened and closed.

use vstd::prelude::*;

use crate::errors::{self, BackendError, BackendErrorCode};
use crate::platform::TargetOs;
use crate::types::WindowsInsertionMode;

verus! {

/// What became of a text that was to be inserted.
#[derive(Debug, Clone, Copy, PartialEq, Eq, Structural)]
pub enum InsertOutcome {
    Inserted,
    PasteSent,
    CopiedFallback,
}

/// What one way of inserting a text reports.
#[derive(Debug, Clone, Copy, PartialEq, Eq, Structural)]
pub enum InsertStatus {
    Inserted,
    PasteSent,
    CopiedFallback,
    Failed,
    NotRequested,
}

/// The outcome that a report stands for; `None` for a failure.
pub open spec fn outcome_of(status: InsertStatus) -> Option<InsertOutcome> {
    match status {
        InsertStatus::Inserted => Some(InsertOutcome::Inserted),
        InsertStatus::PasteSent => Some(InsertOutcome::PasteSent),
        InsertStatus::CopiedFallback => Some(InsertOutcome::CopiedFallback),
        InsertStatus::Failed | InsertStatus::NotRequested => None,
    }
}

/// The result is the outcome that the report stands for, or the error for a failure.
pub open spec fn reports(r: Result<InsertOutcome, BackendError>, status: InsertStatus) -> bool {
    match outcome_of(status) {
        Some(outcome) => r == Ok::<InsertOutcome, BackendError>(outcome),
        None => errors::fails(r, BackendErrorCode::Platform, "Tauri text insertion failed"@),
    }
}

/// The outcome that a report stands for, or the error for a failure.
pub fn map_insert_status(status: InsertStatus) -> (r: Result<InsertOutcome, BackendError>)
    ensures
        reports(r, status),
{
    match status {
        InsertStatus::Inserted => Ok(InsertOutcome::Inserted),
        InsertStatus::PasteSent => Ok(InsertOutcome::PasteSent),
        InsertStatus::CopiedFallback => Ok(InsertOutcome::CopiedFallback),
        InsertStatus::Failed | InsertStatus::NotRequested => Err(
            BackendError::new(BackendErrorCode::Platform, "Tauri text insertion failed"),
        ),
    }
}

/// What the user has chosen for insertion.
#[derive(Debug, Clone, Copy, PartialEq, Eq, Structural)]
pub struct InsertionOptions {
    pub windows_insertion_mode: WindowsInsertionMode,
    pub allow_non_tsf_fallback: bool,
}

/// What is readied before a session of insertion starts.
#[derive(Debug, Clone, Copy, PartialEq, Eq, Structural)]
pub struct BeginPlan {
    /// The input method of Windows.
    pub prepare_ime: bool,
    /// The input source of macOS.
    pub switch_input_source: bool,
}

/// What is readied before a session of insertion starts. `app_bound` says that the application is
/// running, `streams` that the text will arrive in pieces.
pub fn begin_plan(
    options: InsertionOptions,
    app_bound: bool,
    streams: bool,
    target: TargetOs,
) -> (r: Result<BeginPlan, BackendError>)
    ensures
        if target is Macos && !app_bound {
            errors::fails(r, BackendErrorCode::InvalidState, "Tauri AppHandle is not bound yet"@)
        } else {
            r == Ok::<BeginPlan, BackendError>(
                BeginPlan {
                    prepare_ime: target is Windows && options.windows_insertion_mode is Tsf,
                    switch_input_source: target is Macos && streams,
                },
            )
        },
{
    if target == TargetOs::Macos && !app_bound {
        return Err(
            BackendError::new(BackendErrorCode::InvalidState, "Tauri AppHandle is not bound yet"),
        );
    }
    Ok(
        BeginPlan {
            prepare_ime: target == TargetOs::Windows && options.windows_insertion_mode
                == WindowsInsertionMode::Tsf,
            switch_input_source: target == TargetOs::Macos && streams,
        },
    )
}

/// The input source was switched, and this is what came of it: the one before, or no streaming.
pub open spec fn source_switched<T, F: FnOnce() -> Result<Option<T>, String>>(
    switch: F,
    r: (Option<T>, bool),
) -> bool {
    exists|outcome: Result<Option<T>, String>| #[trigger]
        call_ensures(switch, (), outcome) && r == (match outcome {
            Ok(previous) => (previous, true),
            Err(_) => (None, false),
        })
}

/// Readies the input source for text that arrives in pieces, and says whether it can. Text that
/// arrives at once needs none; where it cannot be switched the text is inserted at once instead.
pub fn prepare_streaming_input_source<T, F: FnOnce() -> Result<Option<T>, String>>(
    streaming: bool,
    switch: F,
) -> (r: (Option<T>, bool))
    requires
        streaming ==> call_requires(switch, ()),
    ensures
        if streaming {
            source_switched(switch, r)
        } else {
            r == (None::<T>, false)
        },
{
    if !streaming {
        return (None, false);
    }
    let outcome: Result<Option<T>, String> = switch();
    let ghost said = outcome;
    let r: (Option<T>, bool) = match outcome {
        Ok(previous) => (previous, true),
        Err(_) => (None, false),
    };
    assert(call_ensures(switch, (), said));
    r
}

/// What happens next to the final text.
#[derive(Debug, PartialEq, Eq)]
pub enum InsertStep<P> {
    /// It is given to the input method that was readied.
    Submit(P),
    /// It is typed.
    TypeKeys,
    Paste,
    /// It is put on the clipboard, and the user is told.
    Copy,
    /// Android inserts it.
    AndroidInsert,
    Done(Result<InsertOutcome, BackendError>),
}

/// What the input method of Windows says of a text.
#[derive(Debug, PartialEq, Eq)]
pub enum SubmitOutcome {
    Answered(InsertStatus),
    /// It cannot be told whether the text arrived.
    Unknown { error: String },
    Failed,
}

/// The input method is known not to have inserted the text.
pub open spec fn submit_failed(outcome: SubmitOutcome) -> bool {
    match outcome {
        SubmitOutcome::Answered(status) => status is Failed,
        SubmitOutcome::Unknown { .. } => false,
        SubmitOutcome::Failed => true,
    }
}

/// The text is typed after the input method has been given it.
pub open spec fn types_after_submit(options: InsertionOptions, outcome: SubmitOutcome) -> bool {
    options.allow_non_tsf_fallback && submit_failed(outcome)
}

/// The text is copied after it has been typed.
pub open spec fn copies_after_typing(options: InsertionOptions, status: InsertStatus) -> bool {
    options.allow_non_tsf_fallback && !(status is Inserted)
}

/// What happens after the input method has been given the text: it arrived, or it is typed where
/// that is allowed.
pub fn after_submit<P>(options: InsertionOptions, outcome: SubmitOutcome) -> (r: InsertStep<P>)
    ensures
        if types_after_submit(options, outcome) {
            r is TypeKeys
        } else {
            r matches InsertStep::Done(result) && match outcome {
                SubmitOutcome::Unknown { error } => errors::fails(
                    result,
                    BackendErrorCode::OutcomeUnknown,
                    error@,
                ),
                SubmitOutcome::Answered(status) => reports(result, status),
                SubmitOutcome::Failed => reports(result, InsertStatus::Failed),
            }
        },
{
    let status: InsertStatus = match outcome {
        SubmitOutcome::Unknown { error } => return InsertStep::Done(
            Err(BackendError::new(BackendErrorCode::OutcomeUnknown, error.as_str())),
        ),
        SubmitOutcome::Answered(status) => status,
        SubmitOutcome::Failed => InsertStatus::Failed,
    };
    if status == InsertStatus::Failed && options.allow_non_tsf_fallback {
        InsertStep::TypeKeys
    } else {
        InsertStep::Done(map_insert_status(status))
    }
}

/// What happens after the text has been typed: it arrived, or it is copied where that is allowed.
pub fn after_typing<P>(options: InsertionOptions, status: InsertStatus) -> (r: InsertStep<P>)
    ensures
        if copies_after_typing(options, status) {
            r is Copy
        } else {
            r matches InsertStep::Done(result) && reports(result, status)
        },
{
    if status == InsertStatus::Inserted || !options.allow_non_tsf_fallback {
        InsertStep::Done(map_insert_status(status))
    } else {
        InsertStep::Copy
    }
}

/// What happens after a paste, a copy or an insertion by Android: nothing.
pub fn after_insert<P>(status: InsertStatus) -> (r: InsertStep<P>)
    ensures
        r matches InsertStep::Done(result) && reports(result, status),
{
    InsertStep::Done(map_insert_status(status))
}

/// Where the user allows it, a text that the input method is known not to have inserted and that
/// cannot be typed ends on the clipboard: it is not lost.
pub proof fn failed_insertions_end_on_the_clipboard(
    options: InsertionOptions,
    submitted: SubmitOutcome,
    typed: InsertStatus,
)
    requires
        options.allow_non_tsf_fallback,
        submit_failed(submitted),
        !(typed is Inserted),
    ensures
        types_after_submit(options, submitted),
        copies_after_typing(options, typed),
{
}

/// A text that may have arrived is never inserted a second time.
pub proof fn unknown_outcomes_are_not_tried_again(options: InsertionOptions, error: String)
    ensures
        !types_after_submit(options, SubmitOutcome::Unknown { error }),
{
}

/// The error for a target that cannot be brought back.
pub open spec fn target_gone() -> errors::ErrorParts {
    errors::plain_error(
        BackendErrorCode::Platform,
        "original text insertion target is unavailable"@,
    )
}

/// Whether the target was brought back, or the error that it was not.
pub fn restore_insertion_target(reactivated: bool) -> (r: Result<(), BackendError>)
    ensures
        r is Ok <==> reactivated,
        r matches Err(e) ==> e@ == target_gone(),
{
    if reactivated {
        Ok(())
    } else {
        Err(
            BackendError::new(
                BackendErrorCode::Platform,
                "original text insertion target is unavailable",
            ),
        )
    }
}

/// What a session gives back to the platform when it ends.
#[derive(Debug, PartialEq, Eq)]
pub struct PlatformState<P, S> {
    /// The input method that was readied on Windows and not used.
    pub prepared: Option<P>,
    /// The input source before the session, where one is to be restored on macOS.
    pub input_source: Option<Option<S>>,
}

/// How a session that is asked to finish goes on.
#[derive(Debug, PartialEq, Eq)]
pub enum FinishStep {
    /// There is nothing to insert.
    Done(InsertOutcome),
    Insert,
}

/// A session of insertion: `P` is the input method that was readied, `S` the input source before.
#[derive(Debug, PartialEq, Eq)]
pub struct InsertionSession<P, S> {
    pub options: InsertionOptions,
    pub finished: bool,
    pub prepared: Option<P>,
    pub previous_input_source: Option<S>,
    pub streaming_ready: bool,
}

impl<P, S> InsertionSession<P, S> {
    pub fn new(
        options: InsertionOptions,
        prepared: Option<P>,
        previous_input_source: Option<S>,
        streaming_ready: bool,
    ) -> (r: InsertionSession<P, S>)
        ensures
            r == (InsertionSession {
                options,
                finished: false,
                prepared,
                previous_input_source,
                streaming_ready,
            }),
    {
        InsertionSession {
            options,
            finished: false,
            prepared,
            previous_input_source,
            streaming_ready,
        }
    }

    /// Whether text can arrive in pieces: on macOS where the input source was readied, else on
    /// every desktop.
    pub fn supports_streaming(&self, target: TargetOs) -> (r: bool)
        ensures
            r == (match target {
                TargetOs::Macos => self.streaming_ready,
                TargetOs::Windows | TargetOs::Linux => true,
                _ => false,
            }),
    {
        match target {
            TargetOs::Macos => self.streaming_ready,
            TargetOs::Windows | TargetOs::Linux => true,
            _ => false,
        }
    }

    /// Whether a piece of text is still taken.
    pub fn write(&self) -> (r: Result<(), BackendError>)
        ensures
            r is Ok <==> !self.finished,
            r is Err ==> errors::fails(
                r,
                BackendErrorCode::Cancelled,
                "text insertion session is closed"@,
            ),
    {
        if self.finished {
            Err(BackendError::new(BackendErrorCode::Cancelled, "text insertion session is closed"))
        } else {
            Ok(())
        }
    }

    /// Whether a piece of text is typed now. The session may have been closed meanwhile: then
    /// nothing of it is typed.
    pub fn write_chunk(&self, reactivated: bool, target: TargetOs) -> (r: Result<
        bool,
        BackendError,
    >)
        ensures
            if !reactivated {
                r matches Err(e) && e@ == target_gone()
            } else if target is Windows || target is Macos || target is Linux {
                r == Ok::<bool, BackendError>(!self.finished)
            } else {
                errors::fails(
                    r,
                    BackendErrorCode::Unsupported,
                    "streaming insertion is unavailable on this platform"@,
                )
            },
    {
        match restore_insertion_target(reactivated) {
            Err(e) => return Err(e),
            Ok(_) => {},
        }
        match target {
            TargetOs::Windows | TargetOs::Macos | TargetOs::Linux => Ok(!self.finished),
            _ => Err(
                BackendError::new(
                    BackendErrorCode::Unsupported,
                    "streaming insertion is unavailable on this platform",
                ),
            ),
        }
    }

    /// What happens to the final text first. Where the target cannot be brought back the text is
    /// copied at most: nothing is typed or pasted into what happens to have the focus.
    pub fn insert_final(&mut self, reactivated: bool, target: TargetOs) -> (r: InsertStep<P>)
        ensures
            if !reactivated {
                &&& *final(self) == *old(self)
                &&& if target is Windows && old(self).options.allow_non_tsf_fallback {
                    r is Copy
                } else {
                    r matches InsertStep::Done(Err(e)) && e@ == target_gone()
                }
            } else if target is Windows && old(self).options.windows_insertion_mode is Tsf {
                &&& *final(self) == (InsertionSession { prepared: None, ..*old(self) })
                &&& match old(self).prepared {
                    Some(prepared) => r == InsertStep::Submit(prepared),
                    None => r matches InsertStep::Done(result) && errors::fails(
                        result,
                        BackendErrorCode::InvalidState,
                        "prepared Windows IME session is unavailable"@,
                    ),
                }
            } else {
                &&& *final(self) == *old(self)
                &&& match target {
                    TargetOs::Windows => if old(self).options.windows_insertion_mode is SendInput {
                        r is TypeKeys
                    } else {
                        r is Paste
                    },
                    TargetOs::Android => r is AndroidInsert,
                    _ => r is Paste,
                }
            },
    {
        match restore_insertion_target(reactivated) {
            Err(e) => {
                if target == TargetOs::Windows && self.options.allow_non_tsf_fallback {
                    return InsertStep::Copy;
                }
                return InsertStep::Done(Err(e));
            },
            Ok(_) => {},
        }
        match target {
            TargetOs::Windows => match self.options.windows_insertion_mode {
                WindowsInsertionMode::Tsf => match self.prepared.take() {
                    Some(prepared) => InsertStep::Submit(prepared),
                    None => InsertStep::Done(
                        Err(
                            BackendError::new(
                                BackendErrorCode::InvalidState,
                                "prepared Windows IME session is unavailable",
                            ),
                        ),
                    ),
                },
                WindowsInsertionMode::SendInput => InsertStep::TypeKeys,
                WindowsInsertionMode::Paste => InsertStep::Paste,
            },
            TargetOs::Android => InsertStep::AndroidInsert,
            _ => InsertStep::Paste,
        }
    }

    /// Closes the session with its final text. A second time is an error.
    pub fn finish(&mut self, final_text: &str) -> (r: Result<FinishStep, BackendError>)
        ensures
            *final(self) == (InsertionSession { finished: true, ..*old(self) }),
            if old(self).finished {
                errors::fails(
                    r,
                    BackendErrorCode::InvalidState,
                    "text insertion session is already closed"@,
                )
            } else if final_text@.len() == 0 {
                r == Ok::<FinishStep, BackendError>(FinishStep::Done(InsertOutcome::Inserted))
            } else {
                r == Ok::<FinishStep, BackendError>(FinishStep::Insert)
            },
    {
        if self.finished {
            return Err(
                BackendError::new(
                    BackendErrorCode::InvalidState,
                    "text insertion session is already closed",
                ),
            );
        }
        self.finished = true;
        if final_text.is_empty() {
            Ok(FinishStep::Done(InsertOutcome::Inserted))
        } else {
            Ok(FinishStep::Insert)
        }
    }

    /// Closes the session without a text. Says whether it was open, and the platform is to be put
    /// back in order.
    pub fn cancel(&mut self) -> (was_open: bool)
        ensures
            *final(self) == (InsertionSession { finished: true, ..*old(self) }),
            was_open == !old(self).finished,
    {
        let was_open: bool = !self.finished;
        self.finished = true;
        was_open
    }

    /// What the platform gets back at the end. Nothing is given back twice.
    pub fn restore_platform_state(&mut self, target: TargetOs) -> (r: PlatformState<P, S>)
        ensures
            final(self).options == old(self).options,
            final(self).finished == old(self).finished,
            final(self).streaming_ready == old(self).streaming_ready,
            if target is Windows {
                &&& r.prepared == old(self).prepared
                &&& final(self).prepared is None
            } else {
                &&& r.prepared is None
                &&& final(self).prepared == old(self).prepared
            },
            if target is Macos {
                &&& r.input_source == Some(old(self).previous_input_source)
                &&& final(self).previous_input_source is None
            } else {
                &&& r.input_source is None
                &&& final(self).previous_input_source == old(self).previous_input_source
            },
    {
        let prepared: Option<P> = if target == TargetOs::Windows {
            self.prepared.take()
        } else {
            None
        };
        let input_source: Option<Option<S>> = if target == TargetOs::Macos {
            Some(self.previous_input_source.take())
        } else {
            None
        };
        PlatformState { prepared, input_source }
    }
}

/// What a cancelled insertion answers once the platform was put back in order, or was not. (An
/// insertion with a text answers how the text fared: it cannot be taken back.)
pub fn cancel_result(restored: Result<(), String>) -> (r: Result<(), BackendError>)
    ensures
        match restored {
            Ok(_) => r is Ok,
            Err(error) => errors::fails(r, BackendErrorCode::Platform, error@),
        },
{
    match restored {
        Ok(()) => Ok(()),
        Err(error) => Err(errors::map_platform_error(error.as_str())),
    }
}

/// How many characters arrived: those that were typed, also where typing failed half way.
pub fn written_chars(typed: Result<usize, usize>) -> (r: usize)
    ensures
        r == (match typed {
            Ok(n) => n,
            Err(n) => n,
        }),
{
    match typed {
        Ok(n) => n,
        Err(n) => n,
    }
}

/// An insertion succeeded where it reported how: as inserted, as a paste that was sent, or as a copy
/// on the clipboard. A failed insertion, and one that nobody asked for, is an error.
pub proof fn insertions_report_how_they_went<P>(
    status: InsertStatus,
    r: Result<InsertOutcome, BackendError>,
    step: InsertStep<P>,
)
    requires
        call_ensures(map_insert_status, (status,), r),
        call_ensures(after_insert::<P>, (status,), step),
    ensures
        status is Inserted <==> (r is Ok && r->Ok_0 is Inserted),
        status is PasteSent <==> (r is Ok && r->Ok_0 is PasteSent),
        status is CopiedFallback <==> (r is Ok && r->Ok_0 is CopiedFallback),
        r matches Err(e) ==> e.code is Platform && e.message@ == "Tauri text insertion failed"@,
        step is Done,
        step->Done_0 is Ok <==> r is Ok,
        r is Ok ==> step->Done_0->Ok_0 == r->Ok_0,
{
}

/// What is made ready: the input method on Windows, in its mode, and the input source on macOS, for
/// text that streams in. macOS needs the application for it.
pub proof fn insertion_prepares_what_its_system_needs(
    options: InsertionOptions,
    app_bound: bool,
    streams: bool,
    target: TargetOs,
    r: Result<BeginPlan, BackendError>,
)
    requires
        call_ensures(begin_plan, (options, app_bound, streams, target), r),
    ensures
        r is Err <==> target is Macos && !app_bound,
        r matches Err(e) ==> e.code is InvalidState && e.message@
            == "Tauri AppHandle is not bound yet"@,
        r matches Ok(plan) ==> {
            &&& plan.prepare_ime <==> target is Windows && options.windows_insertion_mode is Tsf
            &&& plan.switch_input_source <==> target is Macos && streams
        },
{
}

/// The input source is switched for streaming alone. Where that succeeds the session streams and
/// knows what to go back to, where it fails it does not stream.
pub proof fn sessions_stream_where_the_input_source_was_switched<
    T,
    F: FnOnce() -> Result<Option<T>, String>,
>(
    streaming: bool,
    switch: F,
    outcome: Result<Option<T>, String>,
    r: (Option<T>, bool),
)
    requires
        forall|x: Result<Option<T>, String>| #[trigger] call_ensures(switch, (), x) ==> x == outcome,
        call_ensures(prepare_streaming_input_source::<T, F>, (streaming, switch), r),
    ensures
        r.1 <==> streaming && outcome is Ok,
        r.1 ==> r.0 == outcome->Ok_0,
        !r.1 ==> r.0 is None,
{
}

/// What comes after the input method was asked: keys are typed where it failed and the session may
/// fall back; otherwise its answer is the result, and an unknown outcome is never tried again.
pub proof fn typing_follows_a_failed_submit<P>(
    options: InsertionOptions,
    outcome: SubmitOutcome,
    reported: Result<InsertOutcome, BackendError>,
    r: InsertStep<P>,
)
    requires
        outcome is Answered ==> call_ensures(map_insert_status, (outcome->Answered_0,), reported),
        call_ensures(after_submit::<P>, (options, outcome), r),
    ensures
        r is TypeKeys || r is Done,
        r is TypeKeys <==> options.allow_non_tsf_fallback && (outcome is Failed || outcome
            == SubmitOutcome::Answered(InsertStatus::Failed)),
        outcome matches SubmitOutcome::Unknown { error } ==> r is Done && r->Done_0 is Err && (
        r->Done_0->Err_0).code is OutcomeUnknown && (r->Done_0->Err_0).message@ == error@,
        outcome is Answered && r is Done ==> (r->Done_0 is Ok <==> reported is Ok) && (reported
            is Ok ==> r->Done_0->Ok_0 == reported->Ok_0) && (reported is Err ==> (
        r->Done_0->Err_0)@ == (reported->Err_0)@),
        outcome is Failed && !options.allow_non_tsf_fallback ==> r is Done && r->Done_0 is Err && (
        r->Done_0->Err_0).code is Platform,
{
}

/// What comes after typing: the text is copied where it was not inserted and the session may fall
/// back; otherwise what was reported is the result.
pub proof fn a_copy_follows_typing_that_failed<P>(
    options: InsertionOptions,
    status: InsertStatus,
    reported: Result<InsertOutcome, BackendError>,
    r: InsertStep<P>,
)
    requires
        call_ensures(map_insert_status, (status,), reported),
        call_ensures(after_typing::<P>, (options, status), r),
    ensures
        r is Copy <==> options.allow_non_tsf_fallback && !(status is Inserted),
        !(r is Copy) ==> r is Done && (r->Done_0 is Ok <==> reported is Ok),
        r is Done && reported is Ok ==> r->Done_0->Ok_0 == reported->Ok_0,
{
}

/// A target that could not be brought back is an error.
pub proof fn lost_targets_are_errors(
    reactivated: bool,
    r: Result<(), BackendError>,
    restored: Result<(), String>,
    cancelled: Result<(), BackendError>,
)
    requires
        call_ensures(restore_insertion_target, (reactivated,), r),
        call_ensures(cancel_result, (restored,), cancelled),
    ensures
        r is Ok <==> reactivated,
        r matches Err(e) ==> e.code is Platform && e.message@
            == "original text insertion target is unavailable"@,
        cancelled is Ok <==> restored is Ok,
        restored matches Err(words) ==> (cancelled->Err_0).code is Platform && (
        cancelled->Err_0).message@ == words@,
{
}

/// Text streams on Windows and Linux always, on macOS where the input source was switched, and
/// nowhere else.
pub proof fn streaming_goes_by_system<P, S>(
    options: InsertionOptions,
    prepared: Option<P>,
    source: Option<S>,
    ready: bool,
    fresh: InsertionSession<P, S>,
    session: &InsertionSession<P, S>,
    target: TargetOs,
    r: bool,
)
    requires
        call_ensures(InsertionSession::<P, S>::new, (options, prepared, source, ready), fresh),
        call_ensures(InsertionSession::<P, S>::supports_streaming, (session, target), r),
    ensures
        fresh.options == options && !fresh.finished && fresh.prepared == prepared
            && fresh.previous_input_source == source && fresh.streaming_ready == ready,
        target is Windows || target is Linux ==> r,
        target is Macos ==> r == session.streaming_ready,
        target is Android || target is Ios || target is Other ==> !r,
{
}

/// A session that is closed takes no text; an open one types a chunk where its target is back, on the
/// systems that can.
pub proof fn closed_sessions_take_no_text<P, S>(
    session: &InsertionSession<P, S>,
    reactivated: bool,
    target: TargetOs,
    written: Result<(), BackendError>,
    chunk: Result<bool, BackendError>,
)
    requires
        call_ensures(InsertionSession::<P, S>::write, (session,), written),
        call_ensures(InsertionSession::<P, S>::write_chunk, (session, reactivated, target), chunk),
    ensures
        written is Ok <==> !session.finished,
        written matches Err(e) ==> e.code is Cancelled && e.message@
            == "text insertion session is closed"@,
        chunk is Ok <==> reactivated && (target is Windows || target is Macos || target is Linux),
        chunk matches Ok(types) ==> types == !session.finished,
        !reactivated ==> (chunk->Err_0).code is Platform && (chunk->Err_0).message@
            == "original text insertion target is unavailable"@,
        reactivated && chunk is Err ==> (chunk->Err_0).code is Unsupported && (
        chunk->Err_0).message@ == "streaming insertion is unavailable on this platform"@,
{
}

/// The final text goes in by the way of its system and mode. On Windows the prepared input method is
/// used up; a target that is not back leads to a copy where the session may fall back, on Windows,
/// and to an error elsewhere.
pub proof fn final_texts_go_in_by_their_way<P, S>(
    session: &mut InsertionSession<P, S>,
    reactivated: bool,
    target: TargetOs,
    r: InsertStep<P>,
)
    requires
        call_ensures(InsertionSession::<P, S>::insert_final, (session, reactivated, target), r),
    ensures
        final(session).finished == old(session).finished,
        final(session).options == old(session).options,
        final(session).previous_input_source == old(session).previous_input_source,
        final(session).streaming_ready == old(session).streaming_ready,
        !(reactivated && target is Windows && old(session).options.windows_insertion_mode is Tsf)
            ==> final(session).prepared == old(session).prepared,
        !reactivated && target is Windows && old(session).options.allow_non_tsf_fallback ==> r
            is Copy,
        !reactivated && !(target is Windows && old(session).options.allow_non_tsf_fallback) ==> r
            is Done && r->Done_0 is Err && (r->Done_0->Err_0).code is Platform && (
        r->Done_0->Err_0).message@ == "original text insertion target is unavailable"@,
        !reactivated ==> final(session).prepared == old(session).prepared,
        reactivated && target is Windows && old(session).options.windows_insertion_mode is Tsf ==> {
            &&& final(session).prepared is None
            &&& old(session).prepared is Some ==> r == InsertStep::Submit(old(session).prepared->0)
            &&& old(session).prepared is None ==> r is Done && r->Done_0 is Err && (
            r->Done_0->Err_0).code is InvalidState && (r->Done_0->Err_0).message@
                == "prepared Windows IME session is unavailable"@
        },
        reactivated && target is Windows && old(session).options.windows_insertion_mode is SendInput
            ==> r is TypeKeys,
        reactivated && target is Windows && old(session).options.windows_insertion_mode is Paste
            ==> r is Paste,
        reactivated && target is Android ==> r is AndroidInsert,
        reactivated && !(target is Windows) && !(target is Android) ==> r is Paste,
{
}

/// A session is finished once: a text that is left is inserted, an empty one is already in, and a
/// second finish fails. Cancelling closes too, and says whether the session was still open.
pub proof fn sessions_are_finished_once<P, S>(
    first: &mut InsertionSession<P, S>,
    text: &str,
    r: Result<FinishStep, BackendError>,
    second: &mut InsertionSession<P, S>,
    again: Result<FinishStep, BackendError>,
    cancelled: &mut InsertionSession<P, S>,
    was_open: bool,
)
    requires
        call_ensures(InsertionSession::<P, S>::finish, (first, text), r),
        *old(second) == *final(first),
        call_ensures(InsertionSession::<P, S>::finish, (second, text), again),
        *old(cancelled) == *old(first),
        call_ensures(InsertionSession::<P, S>::cancel, (cancelled,), was_open),
    ensures
        final(first).finished && final(cancelled).finished,
        r is Ok <==> !old(first).finished,
        r is Ok && text@.len() == 0 ==> r->Ok_0 == FinishStep::Done(InsertOutcome::Inserted),
        r is Ok && text@.len() > 0 ==> r->Ok_0 is Insert,
        again is Err && (again->Err_0).code is InvalidState && (again->Err_0).message@
            == "text insertion session is already closed"@,
        was_open <==> r is Ok,
        final(first).prepared == old(first).prepared && final(first).previous_input_source
            == old(first).previous_input_source && final(first).options == old(first).options
            && final(first).streaming_ready == old(first).streaming_ready,
        final(cancelled).prepared == old(first).prepared && final(cancelled).previous_input_source
            == old(first).previous_input_source && final(cancelled).options == old(first).options
            && final(cancelled).streaming_ready == old(first).streaming_ready,
{
}

/// What a session changed is put back once: the input method on Windows, the input source on macOS.
pub proof fn platform_state_is_put_back_once<P, S>(
    first: &mut InsertionSession<P, S>,
    target: TargetOs,
    r: PlatformState<P, S>,
    second: &mut InsertionSession<P, S>,
    again: PlatformState<P, S>,
)
    requires
        call_ensures(InsertionSession::<P, S>::restore_platform_state, (first, target), r),
        *old(second) == *final(first),
        call_ensures(InsertionSession::<P, S>::restore_platform_state, (second, target), again),
    ensures
        target is Windows ==> r.prepared == old(first).prepared && again.prepared is None,
        !(target is Windows) ==> r.prepared is None,
        target is Macos ==> r.input_source == Some(old(first).previous_input_source)
            && again.input_source == Some(None::<S>),
        !(target is Macos) ==> r.input_source is None,
        final(second).finished == old(first).finished && final(second).options == old(first).options
            && final(second).streaming_ready == old(first).streaming_ready,
        !(target is Windows) ==> final(second).prepared == old(first).prepared,
        !(target is Macos) ==> final(second).previous_input_source
            == old(first).previous_input_source,
{
}

/// What was typed counts, also where typing ended early.
pub proof fn typed_characters_count(n: usize, whole: usize, part: usize)
    requires
        call_ensures(written_chars, (Ok(n),), whole),
        call_ensures(written_chars, (Err(n),), part),
    ensures
        whole == n && part == n,
{
}

} // verus!
