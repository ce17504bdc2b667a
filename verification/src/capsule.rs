//! The capsule window: what it says, how long it stays, and the cards that borrow it.

use vstd::prelude::*;

use crate::errors::BackendErrorCode;
use crate::hotkeys::{self, ShortcutBinding};
use crate::insertion::InsertOutcome;
use crate::platform::TargetOs;
use crate::routing::DictationPhase;
use crate::text::{self, blank, same};
use crate::types::{
    AndroidOverlayTrigger, CapsuleState, CapsuleStyle, EditAnchor, InsertFallbackCardPayload,
    PendingCorrection, INSERT_FALLBACK_REASON_INSERT_FAILED, INSERT_FALLBACK_REASON_PARTIAL_STREAM,
};

verus! {

/// How long a final state of the capsule stays, in milliseconds.
pub const CAPSULE_AUTO_HIDE_DELAY_MS: u64 = 2000;

/// The window that the events of the question panel go to.
pub fn qa_event_target(target: TargetOs) -> (r: &'static str)
    ensures
        r@ == (if target is Android {
            "main"@
        } else {
            "qa"@
        }),
{
    if target == TargetOs::Android {
        "main"
    } else {
        "qa"
    }
}

/// How long the capsule stays in a state before it hides, in milliseconds; `None` where it does
/// not hide by itself.
pub fn core_capsule_hide_delay(state: CapsuleState) -> (r: Option<u64>)
    ensures
        r == (match state {
            CapsuleState::Done | CapsuleState::Error => Some(2000u64),
            CapsuleState::Cancelled => Some(0u64),
            _ => None,
        }),
{
    match state {
        CapsuleState::Done | CapsuleState::Error => Some(CAPSULE_AUTO_HIDE_DELAY_MS),
        CapsuleState::Cancelled => Some(0),
        _ => None,
    }
}

/// Whether a timer that was set while the capsule showed `expected` may still hide it: not where
/// something else is shown by now.
pub fn idle_timer_applies(expected: Option<CapsuleState>, current: Option<CapsuleState>) -> (r: bool)
    ensures
        r == (expected == current),
{
    match (expected, current) {
        (Some(a), Some(b)) => a == b,
        (None, None) => true,
        _ => false,
    }
}

/// Whether a card may take the capsule window: only while nothing is being recorded, as it would
/// take the capsule away from the recording.
pub fn card_may_show(phase: DictationPhase, agent_session: Option<u64>) -> (r: bool)
    ensures
        r == (phase is Idle && agent_session is None),
{
    phase == DictationPhase::Idle && agent_session.is_none()
}

/// The vocabulary card to be shown.
#[derive(Debug, Clone, Copy, PartialEq, Eq)]
pub struct VocabCardRequest {
    /// How many suggestions the card lists.
    pub rows: usize,
    /// Where the last edit with a known place took place.
    pub anchor: Option<EditAnchor>,
}

/// The place of the last suggestion that has one.
pub open spec fn last_anchor(pending: Seq<PendingCorrection>) -> Option<EditAnchor>
    decreases pending.len(),
{
    if pending.len() == 0 {
        None
    } else if pending.last().anchor is Some {
        pending.last().anchor
    } else {
        last_anchor(pending.drop_last())
    }
}

/// The card for the waiting suggestions; `None` where none waits.
pub fn vocab_card_request(pending: &Vec<PendingCorrection>) -> (r: Option<VocabCardRequest>)
    ensures
        match r {
            Some(request) => {
                &&& pending@.len() > 0
                &&& request.rows == pending@.len()
                &&& request.anchor == last_anchor(pending@)
            },
            None => pending@.len() == 0,
        },
{
    if pending.len() == 0 {
        return None;
    }
    let mut n: usize = pending.len();
    assert(pending@.take(n as int) =~= pending@);
    while n > 0
        invariant
            n <= pending.len(),
            pending.len() > 0,
            last_anchor(pending@) == last_anchor(pending@.take(n as int)),
        decreases n,
    {
        proof {
            assert(pending@.take(n as int).drop_last() =~= pending@.take(n as int - 1));
        }
        if let Some(anchor) = pending[n - 1].anchor {
            return Some(VocabCardRequest { rows: pending.len(), anchor: Some(anchor) });
        }
        n -= 1;
    }
    Some(VocabCardRequest { rows: pending.len(), anchor: None })
}

/// Whether the vocabulary card holds the capsule window.
#[derive(Debug, Clone, Copy, PartialEq, Eq)]
pub struct VocabCard {
    pub visible: bool,
}

impl VocabCard {
    /// The card takes the window.
    pub fn claim(&mut self)
        ensures
            final(self).visible,
    {
        self.visible = true;
    }

    /// The card gives the window back. Whether it had it: without a card the window must not be
    /// touched, as the capsule may just be coming up in it.
    pub fn release(&mut self) -> (r: bool)
        ensures
            r == old(self).visible,
            !final(self).visible,
    {
        let visible: bool = self.visible;
        self.visible = false;
        visible
    }
}

/// Why the fallback card is shown, by the name that the card carries.
pub fn insert_fallback_reason(reason: &str) -> (r: &'static str)
    ensures
        r@ == (if reason@ == "partial_stream"@ {
            INSERT_FALLBACK_REASON_PARTIAL_STREAM@
        } else {
            INSERT_FALLBACK_REASON_INSERT_FAILED@
        }),
{
    if same(reason, "partial_stream") {
        INSERT_FALLBACK_REASON_PARTIAL_STREAM
    } else {
        INSERT_FALLBACK_REASON_INSERT_FAILED
    }
}

/// What the fallback card shows. A blank text needs no card.
pub fn insert_fallback_payload(text: String, reason: &str, presentation_id: u64) -> (r: Option<
    InsertFallbackCardPayload,
>)
    ensures
        match r {
            Some(payload) => {
                &&& !text::is_blank(text@)
                &&& payload.text == text
                &&& payload.reason@ == (if reason@ == "partial_stream"@ {
                    INSERT_FALLBACK_REASON_PARTIAL_STREAM@
                } else {
                    INSERT_FALLBACK_REASON_INSERT_FAILED@
                })
                &&& payload.presentation_id == presentation_id
            },
            None => text::is_blank(text@),
        },
{
    if blank(text.as_str()) {
        return None;
    }
    let reason: String = insert_fallback_reason(reason).to_owned();
    Some(InsertFallbackCardPayload { text, reason, presentation_id })
}

/// Whether a size report belongs to the card that is shown.
pub fn height_report_is_current(active: Option<u64>, presentation_id: u64) -> (r: bool)
    ensures
        r == (active == Some(presentation_id)),
{
    match active {
        Some(id) => id == presentation_id,
        None => false,
    }
}

/// How the capsule comes back once a card gave the window back.
#[derive(Debug, Clone, Copy, PartialEq, Eq, Structural)]
pub struct DeferredCapsule {
    pub show: bool,
    pub classic: bool,
}

/// `selection_polish` tells whether the state that waited belongs to selection polish, which is
/// shown even where the user hid the capsule.
pub fn deferred_capsule(
    selection_polish: bool,
    show_capsule: bool,
    style: CapsuleStyle,
) -> (r: DeferredCapsule)
    ensures
        r.show == (selection_polish || show_capsule),
        r.classic == (style is Classic),
{
    DeferredCapsule {
        show: selection_polish || show_capsule,
        classic: style == CapsuleStyle::Classic,
    }
}

/// The stage that a selection polish reached.
#[derive(Debug, Clone, Copy, PartialEq, Eq, Structural)]
pub enum SelectionPhase {
    Idle,
    Processing,
    Preview,
    Completed,
}

/// What the capsule says after a selection polish; `None` where it says nothing.
pub fn selection_polish_message(phase: SelectionPhase, outcome: Option<InsertOutcome>) -> (r: Option<
    &'static str,
>)
    ensures
        match phase {
            SelectionPhase::Preview => r matches Some(m) && m@
                == "capsule.selectionPolish.previewOpen"@,
            SelectionPhase::Completed => r matches Some(m) && m@ == (if outcome == Some(
                InsertOutcome::CopiedFallback,
            ) {
                "capsule.selectionPolish.copiedPaste"@
            } else {
                "capsule.selectionPolish.replaced"@
            }),
            _ => r is None,
        },
{
    match phase {
        SelectionPhase::Preview => Some("capsule.selectionPolish.previewOpen"),
        SelectionPhase::Completed => match outcome {
            Some(InsertOutcome::CopiedFallback) => Some("capsule.selectionPolish.copiedPaste"),
            _ => Some("capsule.selectionPolish.replaced"),
        },
        _ => None,
    }
}

/// What the capsule says of an error of selection polish.
pub open spec fn selection_error_message(message: Seq<char>, code: BackendErrorCode) -> Seq<char> {
    if message == "selectionPolishNoSelection"@ || message == "selected text must not be empty"@ {
        "capsule.selectionPolish.noSelection"@
    } else if message == "selectionPolishTargetUnavailable"@ {
        "capsule.selectionPolish.targetUnavailable"@
    } else if message == "selectionPolishTargetChanged"@ || message
        == "selectionPolishSelectionChanged"@ {
        "capsule.selectionPolish.selectionChanged"@
    } else if code is Busy {
        "capsule.selectionPolish.busy"@
    } else {
        "capsule.selectionPolish.failed"@
    }
}

/// What the capsule shows and says of an error of selection polish.
pub fn selection_polish_error(message: &str, code: BackendErrorCode) -> (r: (
    CapsuleState,
    &'static str,
))
    ensures
        r.0 == (if code is Cancelled || code is InvalidArgument {
            CapsuleState::Cancelled
        } else {
            CapsuleState::Error
        }),
        r.1@ == selection_error_message(message@, code),
{
    let says: &'static str = if same(message, "selectionPolishNoSelection") || same(
        message,
        "selected text must not be empty",
    ) {
        "capsule.selectionPolish.noSelection"
    } else if same(message, "selectionPolishTargetUnavailable") {
        "capsule.selectionPolish.targetUnavailable"
    } else if same(message, "selectionPolishTargetChanged") || same(
        message,
        "selectionPolishSelectionChanged",
    ) {
        "capsule.selectionPolish.selectionChanged"
    } else if code == BackendErrorCode::Busy {
        "capsule.selectionPolish.busy"
    } else {
        "capsule.selectionPolish.failed"
    };
    let state: CapsuleState = match code {
        BackendErrorCode::Cancelled | BackendErrorCode::InvalidArgument => CapsuleState::Cancelled,
        _ => CapsuleState::Error,
    };
    (state, says)
}

/// A byte that form encoding keeps: a letter, a digit, or one of `*`, `-`, `.` and `_`.
pub open spec fn is_kept_byte(b: u8) -> bool {
    ||| 0x30 <= b <= 0x39
    ||| 0x41 <= b <= 0x5A
    ||| 0x61 <= b <= 0x7A
    ||| b == 0x2A
    ||| b == 0x2D
    ||| b == 0x2E
    ||| b == 0x5F
}

/// A hexadecimal digit in upper case.
pub open spec fn hex_digit(n: u8) -> char {
    if n < 10 {
        (0x30 + n) as char
    } else {
        (0x37 + n) as char
    }
}

/// A byte in form encoding: kept, `+` for a space, else `%` and two hexadecimal digits.
pub open spec fn form_encoded_byte(b: u8) -> Seq<char> {
    if is_kept_byte(b) {
        seq![b as char]
    } else if b == 0x20 {
        seq!['+']
    } else {
        seq!['%', hex_digit(b / 16), hex_digit(b % 16)]
    }
}

/// Bytes in form encoding.
pub open spec fn form_encoded(bytes: Seq<u8>) -> Seq<char>
    decreases bytes.len(),
{
    if bytes.len() == 0 {
        Seq::empty()
    } else {
        form_encoded(bytes.drop_last()) + form_encoded_byte(bytes.last())
    }
}

/// `url::form_urlencoded::byte_serialize`, its pieces collected into one string. Believed: each
/// byte is kept, turned into `+`, or written as `%` and two upper case hexadecimal digits, in the
/// order of the bytes.
#[verifier::external_body]
fn form_encode(bytes: &[u8]) -> (r: String)
    ensures
        r@ == form_encoded(bytes@),
{
    url::form_urlencoded::byte_serialize(bytes).collect()
}

/// What the capsule says once the style pack `name` is active. The name is encoded, so that it can
/// be told from the key in front of it.
pub fn style_switched_message(name: &str) -> (r: String)
    ensures
        r@ == "capsule.styleSwitched|"@ + form_encoded(vstd::utf8::encode_utf8(name@)),
{
    let mut r: String = "capsule.styleSwitched|".to_owned();
    r.append(form_encode(name.as_bytes()).as_str());
    r
}

proof fn lemma_form_encoded_chars(bytes: Seq<u8>)
    ensures
        forall|i: int|
            0 <= i < form_encoded(bytes).len() ==> #[trigger] form_encoded(bytes)[i] != '|',
    decreases bytes.len(),
{
    if bytes.len() > 0 {
        lemma_form_encoded_chars(bytes.drop_last());
        let rest = form_encoded(bytes.drop_last());
        let last = form_encoded_byte(bytes.last());
        assert forall|i: int| 0 <= i < last.len() implies #[trigger] last[i] != '|' by {
            let b = bytes.last();
            assert(b / 16 < 16);
            assert(b % 16 < 16);
        }
        assert forall|i: int| 0 <= i < form_encoded(bytes).len() implies #[trigger] form_encoded(
            bytes,
        )[i] != '|' by {
            if i < rest.len() {
                assert(form_encoded(bytes)[i] == rest[i]);
            } else {
                assert(form_encoded(bytes)[i] == last[i - rest.len()]);
            }
        }
    }
}

/// Whatever a style pack is called, its message holds one `|`, between the key and the name.
pub proof fn style_names_never_hold_the_separator(bytes: Seq<u8>)
    ensures
        !form_encoded(bytes).contains('|'),
{
    lemma_form_encoded_chars(bytes);
}

/// The label of the question panel's shortcut; empty where the feature is off.
pub fn qa_hotkey_label(binding: &Option<ShortcutBinding>, target: TargetOs) -> (r: String)
    ensures
        r@ == (match *binding {
            Some(b) => hotkeys::combination_label(b@, target),
            None => Seq::empty(),
        }),
{
    match binding {
        Some(b) => b.display_label(target),
        None => String::new(),
    }
}

/// What becomes of the floating control on Android.
#[derive(Debug, Clone, Copy, PartialEq, Eq, Structural)]
pub enum OverlayAction {
    Leave,
    Show,
    Hide,
}

/// What becomes of the floating control when its trigger changes.
pub fn transition_android_overlay_trigger(
    from: AndroidOverlayTrigger,
    to: AndroidOverlayTrigger,
    target: TargetOs,
) -> (r: OverlayAction)
    ensures
        r == (if !(target is Android) || (from is Always) == (to is Always) {
            OverlayAction::Leave
        } else if to is Always {
            OverlayAction::Show
        } else {
            OverlayAction::Hide
        }),
{
    if target != TargetOs::Android {
        return OverlayAction::Leave;
    }
    match (from, to) {
        (
            AndroidOverlayTrigger::Background | AndroidOverlayTrigger::Keyboard,
            AndroidOverlayTrigger::Always,
        ) => OverlayAction::Show,
        (
            AndroidOverlayTrigger::Always,
            AndroidOverlayTrigger::Background | AndroidOverlayTrigger::Keyboard,
        ) => OverlayAction::Hide,
        _ => OverlayAction::Leave,
    }
}

/// What becomes of the floating control when the application starts.
pub fn apply_android_overlay_on_startup(trigger: AndroidOverlayTrigger, target: TargetOs) -> (r:
    OverlayAction)
    ensures
        r == (if !(target is Android) {
            OverlayAction::Leave
        } else if trigger is Always {
            OverlayAction::Show
        } else {
            OverlayAction::Hide
        }),
{
    if target != TargetOs::Android {
        return OverlayAction::Leave;
    }
    match trigger {
        AndroidOverlayTrigger::Always => OverlayAction::Show,
        AndroidOverlayTrigger::Background | AndroidOverlayTrigger::Keyboard => OverlayAction::Hide,
    }
}

/// The capsule hides two seconds after a result or an error, at once after a cancellation, and not by
/// itself otherwise. A timer counts for the state that it was set in.
pub proof fn capsules_hide_when_they_are_done(
    state: CapsuleState,
    r: Option<u64>,
    expected: Option<CapsuleState>,
    current: Option<CapsuleState>,
    applies: bool,
)
    requires
        call_ensures(core_capsule_hide_delay, (state,), r),
        call_ensures(idle_timer_applies, (expected, current), applies),
    ensures
        state is Done || state is Error ==> r == Some(2000u64),
        state is Cancelled ==> r == Some(0u64),
        state is Idle || state is Recording || state is Transcribing || state is Polishing ==> r
            is None,
        applies <==> expected == current,
{
}

/// Questions are shown in a window of their own but on Android; a card shows while neither dictation
/// nor the agent is at work.
pub proof fn windows_and_cards_have_their_place(
    target: TargetOs,
    window: &'static str,
    phase: DictationPhase,
    agent: Option<u64>,
    shows: bool,
    active: Option<u64>,
    presentation_id: u64,
    current: bool,
)
    requires
        call_ensures(qa_event_target, (target,), window),
        call_ensures(card_may_show, (phase, agent), shows),
        call_ensures(height_report_is_current, (active, presentation_id), current),
    ensures
        target is Android ==> window@ == "main"@,
        !(target is Android) ==> window@ == "qa"@,
        shows <==> phase is Idle && agent is None,
        current <==> active is Some && active->0 == presentation_id,
{
}

proof fn lemma_last_anchor(pending: Seq<PendingCorrection>)
    ensures
        last_anchor(pending) is None <==> forall|i: int|
            0 <= i < pending.len() ==> (#[trigger] pending[i]).anchor is None,
        last_anchor(pending) is Some ==> exists|i: int|
            0 <= i < pending.len() && (#[trigger] pending[i]).anchor == last_anchor(pending)
                && forall|j: int| i < j < pending.len() ==> (#[trigger] pending[j]).anchor is None,
    decreases pending.len(),
{
    if pending.len() > 0 {
        let rest = pending.drop_last();
        lemma_last_anchor(rest);
        assert forall|i: int| 0 <= i < rest.len() implies #[trigger] pending[i] == rest[i] by {}
        if pending.last().anchor is Some {
            assert(pending[pending.len() - 1].anchor == last_anchor(pending));
        } else {
            assert(pending[pending.len() - 1].anchor is None);
            if last_anchor(rest) is Some {
                let i = choose|i: int|
                    0 <= i < rest.len() && (#[trigger] rest[i]).anchor == last_anchor(rest)
                        && forall|j: int|
                        i < j < rest.len() ==> (#[trigger] rest[j]).anchor is None;
                assert(pending[i].anchor == last_anchor(pending));
                assert forall|j: int| i < j < pending.len() implies (
                #[trigger] pending[j]).anchor is None by {
                    if j < rest.len() {
                        assert(rest[j].anchor is None);
                    }
                }
            } else {
                assert forall|i: int| 0 <= i < pending.len() implies (
                #[trigger] pending[i]).anchor is None by {
                    if i < rest.len() {
                        assert(rest[i].anchor is None);
                    }
                }
            }
        }
    }
}

/// A card of corrections has a row for each and stands at the newest anchor that there is.
pub proof fn vocabulary_cards_stand_at_the_newest_anchor(
    pending: &Vec<PendingCorrection>,
    r: Option<VocabCardRequest>,
)
    requires
        call_ensures(vocab_card_request, (pending,), r),
    ensures
        r is Some <==> pending@.len() > 0,
        r is Some ==> r->0.rows == pending@.len(),
        r is Some && r->0.anchor is None ==> forall|i: int|
            0 <= i < pending@.len() ==> (#[trigger] pending@[i]).anchor is None,
        r is Some && r->0.anchor is Some ==> exists|i: int|
            0 <= i < pending@.len() && (#[trigger] pending@[i]).anchor == r->0.anchor && forall|
                j: int,
            |
                i < j < pending@.len() ==> (#[trigger] pending@[j]).anchor is None,
{
    lemma_last_anchor(pending@);
}

/// A card is released once.
pub proof fn cards_are_released_once(
    claimed: &mut VocabCard,
    first: &mut VocabCard,
    was_shown: bool,
    second: &mut VocabCard,
    still_shown: bool,
)
    requires
        call_ensures(VocabCard::claim, (claimed,), ()),
        *old(first) == *final(claimed),
        call_ensures(VocabCard::release, (first,), was_shown),
        *old(second) == *final(first),
        call_ensures(VocabCard::release, (second,), still_shown),
    ensures
        was_shown && !still_shown,
{
}

/// A text that could not be inserted is offered on a card, whole, unless it is blank, with the reason
/// that the page knows.
pub proof fn texts_that_were_not_inserted_are_offered(
    text: String,
    reason: &str,
    presentation_id: u64,
    shown_reason: &'static str,
    r: Option<InsertFallbackCardPayload>,
)
    requires
        call_ensures(insert_fallback_reason, (reason,), shown_reason),
        call_ensures(insert_fallback_payload, (text, reason, presentation_id), r),
    ensures
        reason@ == "partial_stream"@ ==> shown_reason@ == "partialStream"@,
        reason@ != "partial_stream"@ ==> shown_reason@ == "insertFailed"@,
        r is Some <==> !text::is_blank(text@),
        r is Some ==> r->0.text@ == text@ && r->0.reason@ == shown_reason@
            && r->0.presentation_id == presentation_id,
{
}

/// The capsule is shown for selection polish in any case, else where the user wants it.
pub proof fn polishing_always_shows_the_capsule(
    selection_polish: bool,
    show_capsule: bool,
    style: CapsuleStyle,
    r: DeferredCapsule,
)
    requires
        call_ensures(deferred_capsule, (selection_polish, show_capsule, style), r),
    ensures
        selection_polish ==> r.show,
        !selection_polish ==> r.show == show_capsule,
        r.classic <==> style is Classic,
{
}

/// What the capsule says of selection polish: that a preview is open, that the text was replaced or
/// copied, or nothing yet.
pub proof fn polishing_says_how_it_went(
    phase: SelectionPhase,
    outcome: Option<InsertOutcome>,
    r: Option<&'static str>,
)
    requires
        call_ensures(selection_polish_message, (phase, outcome), r),
    ensures
        phase is Idle || phase is Processing ==> r is None,
        phase is Preview ==> r is Some && r->0@ == "capsule.selectionPolish.previewOpen"@,
        phase is Completed && outcome == Some(InsertOutcome::CopiedFallback) ==> r is Some && r->0@
            == "capsule.selectionPolish.copiedPaste"@,
        phase is Completed && outcome != Some(InsertOutcome::CopiedFallback) ==> r is Some && r->0@
            == "capsule.selectionPolish.replaced"@,
{
}

/// An error of selection polish that the user brought about cancels, any other is shown as an error;
/// what is said goes by the reason first, and by the kind of error for the rest.
pub proof fn polishing_says_what_went_wrong(
    message: &str,
    code: BackendErrorCode,
    r: (CapsuleState, &'static str),
)
    requires
        call_ensures(selection_polish_error, (message, code), r),
    ensures
        r.0 is Cancelled <==> code is Cancelled || code is InvalidArgument,
        r.0 is Error <==> !(code is Cancelled || code is InvalidArgument),
        message@ == "selectionPolishNoSelection"@ || message@ == "selected text must not be empty"@
            ==> r.1@ == "capsule.selectionPolish.noSelection"@,
        message@ == "selectionPolishTargetUnavailable"@ ==> r.1@
            == "capsule.selectionPolish.targetUnavailable"@,
        message@ == "selectionPolishTargetChanged"@ || message@
            == "selectionPolishSelectionChanged"@ ==> r.1@
            == "capsule.selectionPolish.selectionChanged"@,
        message@ != "selectionPolishNoSelection"@ && message@ != "selected text must not be empty"@
            && message@ != "selectionPolishTargetUnavailable"@ && message@
            != "selectionPolishTargetChanged"@ && message@ != "selectionPolishSelectionChanged"@
            ==> r.1@ == (if code is Busy {
            "capsule.selectionPolish.busy"@
        } else {
            "capsule.selectionPolish.failed"@
        }),
{
    reveal_strlit("selectionPolishNoSelection");
    reveal_strlit("selected text must not be empty");
    reveal_strlit("selectionPolishTargetUnavailable");
    reveal_strlit("selectionPolishTargetChanged");
    reveal_strlit("selectionPolishSelectionChanged");
    assert("selectionPolishNoSelection"@.len() == 26);
    assert("selected text must not be empty"@.len() == 31);
    assert("selectionPolishTargetUnavailable"@.len() == 32);
    assert("selectionPolishTargetChanged"@.len() == 28);
    assert("selectionPolishSelectionChanged"@.len() == 31);
    assert("selectionPolishSelectionChanged"@[8] == 'n');
    assert("selected text must not be empty"@[8] == ' ');
}

/// The label of the question shortcut is that of its keys, and empty without a shortcut.
pub proof fn question_labels_are_those_of_the_shortcut(
    binding: ShortcutBinding,
    target: TargetOs,
    label: String,
    some: String,
    none: String,
)
    requires
        call_ensures(ShortcutBinding::display_label, (&binding, target), label),
        call_ensures(qa_hotkey_label, (&Some(binding), target), some),
        call_ensures(qa_hotkey_label, (&None, target), none),
    ensures
        some@ == label@,
        none@.len() == 0,
{
}

/// The overlay on Android is shown where it is always shown and hidden where it is not; a change
/// that makes no difference to that leaves it. Other systems have none.
pub proof fn overlays_follow_their_trigger(
    from: AndroidOverlayTrigger,
    to: AndroidOverlayTrigger,
    target: TargetOs,
    at_start: OverlayAction,
    r: OverlayAction,
)
    requires
        call_ensures(apply_android_overlay_on_startup, (to, target), at_start),
        call_ensures(transition_android_overlay_trigger, (from, to, target), r),
    ensures
        !(target is Android) ==> r is Leave && at_start is Leave,
        target is Android && to is Always ==> at_start is Show,
        target is Android && (to is Background || to is Keyboard) ==> at_start is Hide,
        target is Android && (from is Always <==> to is Always) ==> r is Leave,
        target is Android && !(from is Always <==> to is Always) ==> r == at_start,
{
}

/// The message of a switched style names it: the key, a separator, and the name with every byte that
/// is no letter, digit or one of `*-._` written otherwise, a space as a plus sign.
pub proof fn switched_styles_are_named(name: &str, r: String)
    requires
        call_ensures(style_switched_message, (name,), r),
    ensures
        "capsule.styleSwitched|"@.is_prefix_of(r@),
        forall|i: int|
            "capsule.styleSwitched|"@.len() <= i < r@.len() ==> {
                let c = #[trigger] r@[i];
                ||| 'a' <= c <= 'z' || 'A' <= c <= 'Z' || '0' <= c <= '9'
                ||| c == '*' || c == '-' || c == '.' || c == '_' || c == '+' || c == '%'
            },
{
    let opening = "capsule.styleSwitched|"@;
    let encoded = form_encoded(vstd::utf8::encode_utf8(name@));
    lemma_form_letters(vstd::utf8::encode_utf8(name@));
    assert(r@.subrange(0, opening.len() as int) =~= opening);
    assert forall|i: int| opening.len() <= i < r@.len() implies {
        let c = #[trigger] r@[i];
        ||| 'a' <= c <= 'z' || 'A' <= c <= 'Z' || '0' <= c <= '9'
        ||| c == '*' || c == '-' || c == '.' || c == '_' || c == '+' || c == '%'
    } by {
        assert(r@[i] == encoded[i - opening.len()]);
    }
}

proof fn lemma_form_letters(bytes: Seq<u8>)
    ensures
        forall|i: int|
            0 <= i < form_encoded(bytes).len() ==> {
                let c = #[trigger] form_encoded(bytes)[i];
                ||| 'a' <= c <= 'z' || 'A' <= c <= 'Z' || '0' <= c <= '9'
                ||| c == '*' || c == '-' || c == '.' || c == '_' || c == '+' || c == '%'
            },
    decreases bytes.len(),
{
    if bytes.len() > 0 {
        lemma_form_letters(bytes.drop_last());
        let rest = form_encoded(bytes.drop_last());
        let b = bytes.last();
        let last = form_encoded_byte(b);
        assert(b / 16 < 16);
        assert(b % 16 < 16);
        assert forall|i: int| 0 <= i < form_encoded(bytes).len() implies {
            let c = #[trigger] form_encoded(bytes)[i];
            ||| 'a' <= c <= 'z' || 'A' <= c <= 'Z' || '0' <= c <= '9'
            ||| c == '*' || c == '-' || c == '.' || c == '_' || c == '+' || c == '%'
        } by {
            if i < rest.len() {
                assert(form_encoded(bytes)[i] == rest[i]);
            } else {
                assert(form_encoded(bytes)[i] == last[i - rest.len()]);
            }
        }
    }
}

} // verus!
