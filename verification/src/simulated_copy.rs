//! Reading the selection through a simulated copy, step by step: what the clipboard holds is
//! remembered, a sentinel is put in its place, the copy is sent, and whatever comes of it, the
//! clipboard gets back what it held.

use vstd::prelude::*;

use crate::platform::TargetOs;
use crate::selection::{
    self, classify_simulated_copy_result, clipboard_sentinel, restored_clipboard, ClipboardPoll,
    ClipboardSettle, SelectionCaptureMissReason,
};

verus! {

/// How long to pause between two looks at a clipboard that settles, in milliseconds.
pub const SETTLE_STEP_MS: u64 = 10;

/// How long to pause between two looks for the copy on Windows, in milliseconds.
pub const POLL_STEP_MS: u64 = 25;

/// How long the copy is waited for on macOS, in milliseconds.
pub const COPY_WAIT_MS: u64 = 80;

/// What the clipboard held, and what stands there instead while the copy is under way.
#[derive(Debug, Clone, PartialEq, Eq)]
pub struct CopyBackup {
    /// `None` where it held no text.
    pub original: Option<String>,
    pub sentinel: String,
}

/// What is asked next on the way to the selected text.
#[derive(Debug, PartialEq, Eq)]
pub enum CopyStage {
    /// To open the clipboard.
    Opening,
    /// What the clipboard holds, and the time.
    ReadingOriginal,
    /// To write the sentinel to the clipboard.
    WritingSentinel(CopyBackup),
    /// How often the clipboard has changed, on Windows. The wait for it to settle begins.
    CountingChanges(CopyBackup),
    /// After a pause, how long the wait for the clipboard to settle has taken.
    TimingSettle { backup: CopyBackup, settle: ClipboardSettle, pause_ms: u64 },
    /// Whether nobody holds the clipboard, and how often it has changed.
    LookingAtClipboard { backup: CopyBackup, settle: ClipboardSettle },
    /// To press the shortcut for copying. The wait for the copy begins then.
    Posting(CopyBackup),
    /// After a pause, how long the wait for the copy has taken, on Windows.
    TimingPoll { backup: CopyBackup, poll: ClipboardPoll, pause_ms: u64 },
    /// After a pause, what the clipboard holds.
    ReadingCopy { backup: CopyBackup, poll: ClipboardPoll, pause_ms: u64 },
    /// How long the wait for the copy has taken by now, on Windows.
    TimingResend { backup: CopyBackup, poll: ClipboardPoll },
    /// To press the shortcut once more.
    Resending { backup: CopyBackup, poll: ClipboardPoll },
    /// To write the text to the clipboard; the result is settled.
    Restoring { text: String, result: Result<String, SelectionCaptureMissReason> },
}

/// The answer to what was asked.
#[derive(Debug, Clone, PartialEq, Eq)]
pub enum CopyReply {
    /// Whether the clipboard could be opened.
    Opened(bool),
    /// The text on the clipboard, where there is one, and the time in nanoseconds.
    Original { text: Option<String>, nanos: u128 },
    /// Whether the text could be written.
    Written(bool),
    Changes(u32),
    /// In milliseconds, since the wait began.
    Elapsed(u64),
    Look { is_free: bool, changes: u32 },
    /// Whether the shortcut could be pressed.
    Posted(bool),
    /// The text on the clipboard, `None` where it cannot be read.
    Text(Option<String>),
}

/// How the reading goes on.
#[derive(Debug, PartialEq, Eq)]
pub enum CopyStep {
    Ask(CopyStage),
    Done(Result<String, SelectionCaptureMissReason>),
}

/// The reply answers what the stage asks.
pub open spec fn answers(reply: CopyReply, stage: CopyStage) -> bool {
    match stage {
        CopyStage::Opening => reply is Opened,
        CopyStage::ReadingOriginal => reply is Original,
        CopyStage::WritingSentinel(_) | CopyStage::Restoring { .. } => reply is Written,
        CopyStage::CountingChanges(_) => reply is Changes,
        CopyStage::TimingSettle { .. } | CopyStage::TimingPoll { .. } | CopyStage::TimingResend {
            ..
        } => reply is Elapsed,
        CopyStage::LookingAtClipboard { .. } => reply is Look,
        CopyStage::Posting(_) | CopyStage::Resending { .. } => reply is Posted,
        CopyStage::ReadingCopy { .. } => reply is Text,
    }
}

/// A clipboard that has settled is not looked at any more.
pub open spec fn is_sound(stage: CopyStage) -> bool {
    stage matches CopyStage::LookingAtClipboard { settle, .. } ==> settle.stable_rounds
        < selection::CLIPBOARD_SETTLE_ROUNDS
}

/// What the clipboard is set to at the end: what it held, or nothing.
pub open spec fn restored_text(original: Option<String>) -> Seq<char> {
    match original {
        Some(t) => t@,
        None => Seq::empty(),
    }
}

/// The stage asks for the clipboard to be put back, and the result is what was captured.
pub open spec fn restores(backup: CopyBackup, poll: ClipboardPoll, r: CopyStep) -> bool {
    r matches CopyStep::Ask(CopyStage::Restoring { text, result }) && text@ == restored_text(
        backup.original,
    ) && result == selection::copied_text(poll.post_ok, poll.captured, backup.sentinel@)
}

/// `r` is what follows the reply to what the stage asks.
pub open spec fn follows(stage: CopyStage, reply: CopyReply, target: TargetOs, r: CopyStep) -> bool {
    match (stage, reply) {
        (CopyStage::Opening, CopyReply::Opened(ok)) => r == (if ok {
            CopyStep::Ask(CopyStage::ReadingOriginal)
        } else {
            CopyStep::Done(Err(SelectionCaptureMissReason::ClipboardInitFailed))
        }),
        (CopyStage::ReadingOriginal, CopyReply::Original { text, nanos }) => {
            r matches CopyStep::Ask(CopyStage::WritingSentinel(backup)) && backup.original == text
                && backup.sentinel@ == "__openless_qa_sentinel_"@ + selection::lower_hex(
                nanos as nat,
            ) + "__"@
        },
        (CopyStage::WritingSentinel(backup), CopyReply::Written(ok)) => r == (if !ok {
            CopyStep::Done(Err(SelectionCaptureMissReason::ClipboardSentinelWriteFailed))
        } else if target is Windows {
            CopyStep::Ask(CopyStage::CountingChanges(backup))
        } else {
            CopyStep::Ask(CopyStage::Posting(backup))
        }),
        (CopyStage::CountingChanges(backup), CopyReply::Changes(changes)) => r == CopyStep::Ask(
            CopyStage::TimingSettle {
                backup,
                settle: ClipboardSettle { last_seq: changes, stable_rounds: 0 },
                pause_ms: 0,
            },
        ),
        (CopyStage::TimingSettle { backup, settle, .. }, CopyReply::Elapsed(ms)) => r == (if ms
            < selection::CLIPBOARD_SETTLE_MAX_MS && settle.stable_rounds
            < selection::CLIPBOARD_SETTLE_ROUNDS {
            CopyStep::Ask(CopyStage::LookingAtClipboard { backup, settle })
        } else {
            CopyStep::Ask(CopyStage::Posting(backup))
        }),
        (CopyStage::LookingAtClipboard { backup, settle }, CopyReply::Look { is_free, changes }) => r
            == (if settle.after(is_free, changes).stable_rounds
            >= selection::CLIPBOARD_SETTLE_ROUNDS {
            CopyStep::Ask(CopyStage::Posting(backup))
        } else {
            CopyStep::Ask(
                CopyStage::TimingSettle {
                    backup,
                    settle: settle.after(is_free, changes),
                    pause_ms: SETTLE_STEP_MS,
                },
            )
        }),
        (CopyStage::Posting(backup), CopyReply::Posted(post_ok)) => {
            let poll = ClipboardPoll { captured: None, resent: false, post_ok };
            r == (if target is Windows {
                CopyStep::Ask(CopyStage::TimingPoll { backup, poll, pause_ms: 0 })
            } else {
                CopyStep::Ask(CopyStage::ReadingCopy { backup, poll, pause_ms: COPY_WAIT_MS })
            })
        },
        (CopyStage::TimingPoll { backup, poll, .. }, CopyReply::Elapsed(ms)) => if ms
            < selection::CLIPBOARD_POLL_MAX_MS {
            r == CopyStep::Ask(CopyStage::ReadingCopy { backup, poll, pause_ms: 0 })
        } else {
            restores(backup, poll, r)
        },
        (CopyStage::ReadingCopy { backup, poll, .. }, CopyReply::Text(read)) => {
            let now = ClipboardPoll { captured: read, ..poll };
            if !(target is Windows) || (read matches Some(t) && t@ != backup.sentinel@) {
                restores(backup, now, r)
            } else if poll.resent {
                r == CopyStep::Ask(
                    CopyStage::TimingPoll { backup, poll: now, pause_ms: POLL_STEP_MS },
                )
            } else {
                r == CopyStep::Ask(CopyStage::TimingResend { backup, poll: now })
            }
        },
        (CopyStage::TimingResend { backup, poll }, CopyReply::Elapsed(ms)) => r == (if !poll.resent
            && ms >= selection::CLIPBOARD_RESEND_AFTER_MS {
            CopyStep::Ask(CopyStage::Resending { backup, poll })
        } else {
            CopyStep::Ask(CopyStage::TimingPoll { backup, poll, pause_ms: POLL_STEP_MS })
        }),
        (CopyStage::Resending { backup, poll }, CopyReply::Posted(ok)) => r == CopyStep::Ask(
            CopyStage::TimingPoll {
                backup,
                poll: ClipboardPoll {
                    resent: poll.resent || ok,
                    post_ok: poll.post_ok || ok,
                    ..poll
                },
                pause_ms: POLL_STEP_MS,
            },
        ),
        (CopyStage::Restoring { result, .. }, CopyReply::Written(_)) => r == CopyStep::Done(result),
        _ => false,
    }
}

fn restoring(backup: CopyBackup, poll: ClipboardPoll) -> (r: CopyStep)
    ensures
        restores(backup, poll, r),
{
    let result: Result<String, SelectionCaptureMissReason> = classify_simulated_copy_result(
        poll.post_ok,
        poll.captured,
        backup.sentinel.as_str(),
    );
    let text: String = restored_clipboard(backup.original);
    assert(text@ =~= restored_text(backup.original));
    CopyStep::Ask(CopyStage::Restoring { text, result })
}

/// Takes the answer to what the stage asks, and goes on, fails, or is done. A clipboard that cannot
/// be put back does not change the result.
pub fn copy_step(stage: CopyStage, reply: CopyReply, target: TargetOs) -> (r: CopyStep)
    requires
        answers(reply, stage),
        is_sound(stage),
    ensures
        follows(stage, reply, target, r),
        r matches CopyStep::Ask(next) ==> is_sound(next),
{
    match (stage, reply) {
        (CopyStage::Opening, CopyReply::Opened(ok)) => if ok {
            CopyStep::Ask(CopyStage::ReadingOriginal)
        } else {
            CopyStep::Done(Err(SelectionCaptureMissReason::ClipboardInitFailed))
        },
        (CopyStage::ReadingOriginal, CopyReply::Original { text, nanos }) => CopyStep::Ask(
            CopyStage::WritingSentinel(
                CopyBackup { original: text, sentinel: clipboard_sentinel(nanos) },
            ),
        ),
        (CopyStage::WritingSentinel(backup), CopyReply::Written(ok)) => if !ok {
            CopyStep::Done(Err(SelectionCaptureMissReason::ClipboardSentinelWriteFailed))
        } else if target == TargetOs::Windows {
            CopyStep::Ask(CopyStage::CountingChanges(backup))
        } else {
            CopyStep::Ask(CopyStage::Posting(backup))
        },
        (CopyStage::CountingChanges(backup), CopyReply::Changes(changes)) => CopyStep::Ask(
            CopyStage::TimingSettle { backup, settle: ClipboardSettle::new(changes), pause_ms: 0 },
        ),
        (CopyStage::TimingSettle { backup, settle, pause_ms: _ }, CopyReply::Elapsed(ms)) => {
            if settle.goes_on(ms) {
                CopyStep::Ask(CopyStage::LookingAtClipboard { backup, settle })
            } else {
                CopyStep::Ask(CopyStage::Posting(backup))
            }
        },
        (CopyStage::LookingAtClipboard { backup, settle }, CopyReply::Look { is_free, changes }) => {
            let mut settle: ClipboardSettle = settle;
            if settle.observe(is_free, changes) {
                CopyStep::Ask(CopyStage::Posting(backup))
            } else {
                CopyStep::Ask(
                    CopyStage::TimingSettle { backup, settle, pause_ms: SETTLE_STEP_MS },
                )
            }
        },
        (CopyStage::Posting(backup), CopyReply::Posted(ok)) => {
            let poll: ClipboardPoll = ClipboardPoll::new(ok);
            if target == TargetOs::Windows {
                CopyStep::Ask(CopyStage::TimingPoll { backup, poll, pause_ms: 0 })
            } else {
                CopyStep::Ask(CopyStage::ReadingCopy { backup, poll, pause_ms: COPY_WAIT_MS })
            }
        },
        (CopyStage::TimingPoll { backup, poll, pause_ms: _ }, CopyReply::Elapsed(ms)) => {
            if poll.goes_on(ms) {
                CopyStep::Ask(CopyStage::ReadingCopy { backup, poll, pause_ms: 0 })
            } else {
                restoring(backup, poll)
            }
        },
        (CopyStage::ReadingCopy { backup, poll, pause_ms: _ }, CopyReply::Text(read)) => {
            let mut poll: ClipboardPoll = poll;
            let done: bool = poll.observe(read, backup.sentinel.as_str());
            if target != TargetOs::Windows || done {
                restoring(backup, poll)
            } else if poll.resent {
                CopyStep::Ask(CopyStage::TimingPoll { backup, poll, pause_ms: POLL_STEP_MS })
            } else {
                CopyStep::Ask(CopyStage::TimingResend { backup, poll })
            }
        },
        (CopyStage::TimingResend { backup, poll }, CopyReply::Elapsed(ms)) => {
            if poll.resends(ms) {
                CopyStep::Ask(CopyStage::Resending { backup, poll })
            } else {
                CopyStep::Ask(CopyStage::TimingPoll { backup, poll, pause_ms: POLL_STEP_MS })
            }
        },
        (CopyStage::Resending { backup, poll }, CopyReply::Posted(ok)) => {
            let mut poll: ClipboardPoll = poll;
            poll.sent_again(ok);
            CopyStep::Ask(CopyStage::TimingPoll { backup, poll, pause_ms: POLL_STEP_MS })
        },
        (CopyStage::Restoring { text: _, result }, CopyReply::Written(_)) => CopyStep::Done(result),
        _ => vstd::pervasive::unreached(),
    }
}

/// A run from the start: each stage follows from the one before it and its reply, and the reply to
/// the last one ends it.
pub open spec fn is_run(
    stages: Seq<CopyStage>,
    replies: Seq<CopyReply>,
    target: TargetOs,
    result: Result<String, SelectionCaptureMissReason>,
) -> bool {
    &&& stages.len() > 0
    &&& replies.len() == stages.len()
    &&& stages[0] is Opening
    &&& forall|i: int|
        0 <= i < stages.len() - 1 ==> follows(
            #[trigger] stages[i],
            replies[i],
            target,
            CopyStep::Ask(stages[i + 1]),
        )
    &&& follows(stages.last(), replies.last(), target, CopyStep::Done(result))
}

/// What the clipboard held when the stage is reached, once the sentinel is written: either the
/// stage remembers it, or it asks for just that to be written.
pub open spec fn keeps(stage: CopyStage, original: Option<String>) -> bool {
    match stage {
        CopyStage::Opening | CopyStage::ReadingOriginal | CopyStage::WritingSentinel(_) => false,
        CopyStage::CountingChanges(backup) | CopyStage::Posting(backup) => backup.original
            == original,
        CopyStage::TimingSettle { backup, .. } | CopyStage::LookingAtClipboard { backup, .. }
        | CopyStage::TimingPoll { backup, .. } | CopyStage::ReadingCopy { backup, .. }
        | CopyStage::TimingResend { backup, .. } | CopyStage::Resending { backup, .. } =>
            backup.original == original,
        CopyStage::Restoring { text, .. } => text@ == restored_text(original),
    }
}

proof fn lemma_kept(
    stages: Seq<CopyStage>,
    replies: Seq<CopyReply>,
    target: TargetOs,
    result: Result<String, SelectionCaptureMissReason>,
    from: int,
    to: int,
    original: Option<String>,
)
    requires
        is_run(stages, replies, target, result),
        0 <= from <= to < stages.len(),
        keeps(stages[from], original),
    ensures
        keeps(stages[to], original),
    decreases to - from,
{
    if from < to {
        assert(follows(stages[from], replies[from], target, CopyStep::Ask(stages[from + 1])));
        lemma_kept(stages, replies, target, result, from + 1, to, original);
    }
}

/// The user's clipboard is put back: every run that has written the sentinel asks, as the last
/// thing before it is done, for what the clipboard held to be written, and nothing else where it
/// held no text.
pub proof fn the_clipboard_is_put_back(
    stages: Seq<CopyStage>,
    replies: Seq<CopyReply>,
    target: TargetOs,
    result: Result<String, SelectionCaptureMissReason>,
    i: int,
)
    requires
        is_run(stages, replies, target, result),
        0 <= i < stages.len(),
        stages[i] is WritingSentinel,
        replies[i] == CopyReply::Written(true),
    ensures
        stages.last() matches CopyStage::Restoring { text, .. } && text@ == restored_text(
            stages[i]->WritingSentinel_0.original,
        ),
        i >= 1,
        replies[i - 1] matches CopyReply::Original { text, .. } && text
            == stages[i]->WritingSentinel_0.original,
{
    let original = stages[i]->WritingSentinel_0.original;
    assert(i < stages.len() - 1);
    assert(follows(stages[i], replies[i], target, CopyStep::Ask(stages[i + 1])));
    lemma_kept(stages, replies, target, result, i + 1, stages.len() - 1, original);
    assert(follows(stages[i - 1], replies[i - 1], target, CopyStep::Ask(stages[i])));
}

/// The text was on the clipboard before the stage at `i` was reached.
pub open spec fn was_read(replies: Seq<CopyReply>, i: int, text: String) -> bool {
    exists|j: int| 0 <= j < i && #[trigger] replies[j] == CopyReply::Text(Some(text))
}

/// What the stage holds of the copy was read from the clipboard.
spec fn holds_what_was_read(stage: CopyStage, replies: Seq<CopyReply>, i: int) -> bool {
    match stage {
        CopyStage::TimingPoll { poll, .. } | CopyStage::ReadingCopy { poll, .. }
        | CopyStage::TimingResend { poll, .. } | CopyStage::Resending { poll, .. } =>
            poll.captured matches Some(t) ==> was_read(replies, i, t),
        CopyStage::Restoring { result, .. } => result matches Ok(t) ==> was_read(replies, i, t),
        _ => true,
    }
}

proof fn lemma_was_read(
    stages: Seq<CopyStage>,
    replies: Seq<CopyReply>,
    target: TargetOs,
    result: Result<String, SelectionCaptureMissReason>,
    i: int,
)
    requires
        is_run(stages, replies, target, result),
        0 <= i < stages.len(),
    ensures
        holds_what_was_read(stages[i], replies, i),
    decreases i,
{
    if i > 0 {
        lemma_was_read(stages, replies, target, result, i - 1);
        assert(follows(stages[i - 1], replies[i - 1], target, CopyStep::Ask(stages[i])));
        assert forall|t: String| was_read(replies, i - 1, t) implies #[trigger] was_read(
            replies,
            i,
            t,
        ) by {
            let j = choose|j: int|
                0 <= j < i - 1 && #[trigger] replies[j] == CopyReply::Text(Some(t));
            assert(replies[j] == CopyReply::Text(Some(t)));
        }
    }
}

/// A selection that comes of a run was read from the clipboard.
pub proof fn what_comes_of_a_run_was_copied(
    stages: Seq<CopyStage>,
    replies: Seq<CopyReply>,
    target: TargetOs,
    result: Result<String, SelectionCaptureMissReason>,
)
    requires
        is_run(stages, replies, target, result),
    ensures
        result matches Ok(text) ==> text@.len() > 0 && was_read(replies, stages.len() as int, text),
{
    let last = stages.len() - 1;
    lemma_was_read(stages, replies, target, result, last);
    if let Ok(text) = result {
        assert(stages[last] is Restoring);
        assert(follows(stages[last - 1], replies[last - 1], target, CopyStep::Ask(stages[last])));
        let j = choose|j: int|
            0 <= j < last && #[trigger] replies[j] == CopyReply::Text(Some(text));
        assert(replies[j] == CopyReply::Text(Some(text)));
    }
}

/// A run that fails to open the clipboard, or to write the sentinel, ends there, with the error
/// that says so and with nothing written.
pub proof fn a_clipboard_that_was_not_written_is_left_alone(
    stages: Seq<CopyStage>,
    replies: Seq<CopyReply>,
    target: TargetOs,
    result: Result<String, SelectionCaptureMissReason>,
)
    requires
        is_run(stages, replies, target, result),
        forall|i: int|
            0 <= i < stages.len() && (#[trigger] stages[i]) is WritingSentinel ==> replies[i]
                != CopyReply::Written(true),
    ensures
        forall|i: int| 0 <= i < stages.len() ==> !((#[trigger] stages[i]) is Restoring),
        result == (if stages.last() is Opening {
            Err::<String, SelectionCaptureMissReason>(
                SelectionCaptureMissReason::ClipboardInitFailed,
            )
        } else {
            Err(SelectionCaptureMissReason::ClipboardSentinelWriteFailed)
        }),
{
    assert forall|i: int| 0 <= i < stages.len() implies (#[trigger] stages[i]) is Opening
        || stages[i] is ReadingOriginal || stages[i] is WritingSentinel by {
        lemma_begins(stages, replies, target, result, i);
    }
}

proof fn lemma_begins(
    stages: Seq<CopyStage>,
    replies: Seq<CopyReply>,
    target: TargetOs,
    result: Result<String, SelectionCaptureMissReason>,
    i: int,
)
    requires
        is_run(stages, replies, target, result),
        0 <= i < stages.len(),
        forall|i: int|
            0 <= i < stages.len() && (#[trigger] stages[i]) is WritingSentinel ==> replies[i]
                != CopyReply::Written(true),
    ensures
        stages[i] is Opening || stages[i] is ReadingOriginal || stages[i] is WritingSentinel,
    decreases i,
{
    if i > 0 {
        lemma_begins(stages, replies, target, result, i - 1);
        assert(follows(stages[i - 1], replies[i - 1], target, CopyStep::Ask(stages[i])));
    }
}

/// A copy begins with the clipboard: where it cannot be opened, or the sentinel cannot be written,
/// the copy ends there; what the clipboard held is kept until the end.
pub proof fn copies_begin_with_a_backup(
    opened: bool,
    target: TargetOs,
    after_opening: CopyStep,
    text: Option<String>,
    nanos: u128,
    sentinel: String,
    after_reading: CopyStep,
    backup: CopyBackup,
    written: bool,
    after_writing: CopyStep,
)
    requires
        call_ensures(clipboard_sentinel, (nanos,), sentinel),
        call_ensures(
            copy_step,
            (CopyStage::Opening, CopyReply::Opened(opened), target),
            after_opening,
        ),
        call_ensures(
            copy_step,
            (CopyStage::ReadingOriginal, CopyReply::Original { text, nanos }, target),
            after_reading,
        ),
        call_ensures(
            copy_step,
            (CopyStage::WritingSentinel(backup), CopyReply::Written(written), target),
            after_writing,
        ),
    ensures
        opened ==> after_opening == CopyStep::Ask(CopyStage::ReadingOriginal),
        !opened ==> after_opening == CopyStep::Done(
            Err(SelectionCaptureMissReason::ClipboardInitFailed),
        ),
        after_reading matches CopyStep::Ask(CopyStage::WritingSentinel(b)) && b.original == text
            && b.sentinel@ == sentinel@,
        !written ==> after_writing == CopyStep::Done(
            Err(SelectionCaptureMissReason::ClipboardSentinelWriteFailed),
        ),
        written && target is Windows ==> after_writing == CopyStep::Ask(
            CopyStage::CountingChanges(backup),
        ),
        written && !(target is Windows) ==> after_writing == CopyStep::Ask(
            CopyStage::Posting(backup),
        ),
{
}

/// On Windows the clipboard is watched until it has been quiet three times or a quarter of a second
/// is over, with ten milliseconds between two looks, and then the keys are sent.
pub proof fn copies_wait_for_a_quiet_clipboard(
    backup: CopyBackup,
    changes: u32,
    target: TargetOs,
    after_counting: CopyStep,
    settle: ClipboardSettle,
    pause_ms: u64,
    elapsed: u64,
    after_timing: CopyStep,
    is_free: bool,
    seen: u32,
    after_looking: CopyStep,
)
    requires
        settle.stable_rounds < 3,
        call_ensures(
            copy_step,
            (CopyStage::CountingChanges(backup), CopyReply::Changes(changes), target),
            after_counting,
        ),
        call_ensures(
            copy_step,
            (
                CopyStage::TimingSettle { backup, settle, pause_ms },
                CopyReply::Elapsed(elapsed),
                target,
            ),
            after_timing,
        ),
        call_ensures(
            copy_step,
            (
                CopyStage::LookingAtClipboard { backup, settle },
                CopyReply::Look { is_free, changes: seen },
                target,
            ),
            after_looking,
        ),
    ensures
        after_counting == CopyStep::Ask(
            CopyStage::TimingSettle {
                backup,
                settle: ClipboardSettle { last_seq: changes, stable_rounds: 0 },
                pause_ms: 0,
            },
        ),
        elapsed < 250 ==> after_timing == CopyStep::Ask(
            CopyStage::LookingAtClipboard { backup, settle },
        ),
        elapsed >= 250 ==> after_timing == CopyStep::Ask(CopyStage::Posting(backup)),
        is_free && seen == settle.last_seq && settle.stable_rounds == 2 ==> after_looking
            == CopyStep::Ask(CopyStage::Posting(backup)),
        is_free && seen == settle.last_seq && settle.stable_rounds < 2 ==> after_looking
            == CopyStep::Ask(
            CopyStage::TimingSettle {
                backup,
                settle: ClipboardSettle {
                    last_seq: seen,
                    stable_rounds: (settle.stable_rounds + 1) as u32,
                },
                pause_ms: 10,
            },
        ),
        !is_free || seen != settle.last_seq ==> after_looking == CopyStep::Ask(
            CopyStage::TimingSettle {
                backup,
                settle: ClipboardSettle { last_seq: seen, stable_rounds: 0 },
                pause_ms: 10,
            },
        ),
{
}

/// After the keys were sent the clipboard is read: on Windows at once and again every 25
/// milliseconds, for less than 450, elsewhere once, after 80. The keys are sent a second time after
/// 150 milliseconds without a text.
pub proof fn copies_are_read_until_there_is_a_text(
    backup: CopyBackup,
    target: TargetOs,
    posted: bool,
    after_posting: CopyStep,
    poll: ClipboardPoll,
    pause_ms: u64,
    elapsed: u64,
    after_timing: CopyStep,
    read: Option<String>,
    after_read: CopyStep,
    after_resend_timing: CopyStep,
    sent: bool,
    after_resending: CopyStep,
)
    requires
        call_ensures(
            copy_step,
            (CopyStage::Posting(backup), CopyReply::Posted(posted), target),
            after_posting,
        ),
        call_ensures(
            copy_step,
            (
                CopyStage::TimingPoll { backup, poll, pause_ms },
                CopyReply::Elapsed(elapsed),
                target,
            ),
            after_timing,
        ),
        call_ensures(
            copy_step,
            (CopyStage::ReadingCopy { backup, poll, pause_ms }, CopyReply::Text(read), target),
            after_read,
        ),
        call_ensures(
            copy_step,
            (CopyStage::TimingResend { backup, poll }, CopyReply::Elapsed(elapsed), target),
            after_resend_timing,
        ),
        call_ensures(
            copy_step,
            (CopyStage::Resending { backup, poll }, CopyReply::Posted(sent), target),
            after_resending,
        ),
    ensures
        target is Windows ==> after_posting == CopyStep::Ask(
            CopyStage::TimingPoll {
                backup,
                poll: ClipboardPoll { captured: None, resent: false, post_ok: posted },
                pause_ms: 0,
            },
        ),
        !(target is Windows) ==> after_posting == CopyStep::Ask(
            CopyStage::ReadingCopy {
                backup,
                poll: ClipboardPoll { captured: None, resent: false, post_ok: posted },
                pause_ms: 80,
            },
        ),
        elapsed < 450 ==> after_timing == CopyStep::Ask(
            CopyStage::ReadingCopy { backup, poll, pause_ms: 0 },
        ),
        elapsed >= 450 ==> after_timing is Ask && after_timing->Ask_0 is Restoring,
        after_read is Ask,
        after_read->Ask_0 is Restoring <==> !(target is Windows) || read is Some && read->0@
            != backup.sentinel@,
        target is Windows && (read is None || read->0@ == backup.sentinel@) && !poll.resent
            ==> after_read == CopyStep::Ask(
            CopyStage::TimingResend { backup, poll: ClipboardPoll { captured: read, ..poll } },
        ),
        target is Windows && (read is None || read->0@ == backup.sentinel@) && poll.resent
            ==> after_read == CopyStep::Ask(
            CopyStage::TimingPoll {
                backup,
                poll: ClipboardPoll { captured: read, ..poll },
                pause_ms: 25,
            },
        ),
        !poll.resent && elapsed >= 150 ==> after_resend_timing == CopyStep::Ask(
            CopyStage::Resending { backup, poll },
        ),
        poll.resent || elapsed < 150 ==> after_resend_timing == CopyStep::Ask(
            CopyStage::TimingPoll { backup, poll, pause_ms: 25 },
        ),
        after_resending == CopyStep::Ask(
            CopyStage::TimingPoll {
                backup,
                poll: ClipboardPoll {
                    captured: poll.captured,
                    resent: poll.resent || sent,
                    post_ok: poll.post_ok || sent,
                },
                pause_ms: 25,
            },
        ),
{
}

/// At the end the clipboard gets back what it held, and the result is what was told of the text that
/// was read; it does not depend on whether the clipboard could be put back.
pub proof fn copies_end_with_the_clipboard_put_back(
    backup: CopyBackup,
    sentinel: &str,
    poll: ClipboardPoll,
    pause_ms: u64,
    read: Option<String>,
    target: TargetOs,
    original: String,
    told: Result<String, SelectionCaptureMissReason>,
    r: CopyStep,
    stage: CopyStage,
    written: bool,
    end: CopyStep,
    elapsed: u64,
    told_late: Result<String, SelectionCaptureMissReason>,
    late: CopyStep,
)
    requires
        !(target is Windows) || read is Some && read->0@ != backup.sentinel@,
        sentinel@ == backup.sentinel@,
        call_ensures(restored_clipboard, (backup.original,), original),
        call_ensures(classify_simulated_copy_result, (poll.post_ok, read, sentinel), told),
        call_ensures(
            copy_step,
            (CopyStage::ReadingCopy { backup, poll, pause_ms }, CopyReply::Text(read), target),
            r,
        ),
        stage is Restoring,
        call_ensures(copy_step, (stage, CopyReply::Written(written), target), end),
        elapsed >= 450,
        call_ensures(
            classify_simulated_copy_result,
            (poll.post_ok, poll.captured, sentinel),
            told_late,
        ),
        call_ensures(
            copy_step,
            (
                CopyStage::TimingPoll { backup, poll, pause_ms },
                CopyReply::Elapsed(elapsed),
                target,
            ),
            late,
        ),
    ensures
        late matches CopyStep::Ask(CopyStage::Restoring { text, result }) && text@ == original@
            && result == told_late,
        r matches CopyStep::Ask(CopyStage::Restoring { text, result }) && text@ == original@
            && result == told,
        end == CopyStep::Done(stage->Restoring_result),
{
}

} // verus!
