//! The text that is selected in the front application: how it is read, cut to size, remembered,
//! and checked again before anything is pasted over it.

use vstd::prelude::*;

use crate::platform::TargetOs;
use crate::text::{self, same, to_decimal, trim};

verus! {

/// The longest selection that is kept whole, in characters.
pub const SELECTION_MAX_CHARS: usize = 4000;

/// How much of the beginning of a longer one is kept.
pub const SELECTION_TRUNCATE_HEAD: usize = 2000;

/// How much of its end is kept.
pub const SELECTION_TRUNCATE_TAIL: usize = 2000;

/// What stands for the part in between.
pub const SELECTION_TRUNCATED_MARKER: &'static str = "\n[…truncated…]\n";

/// A selection, cut to size, and the label of the application that it was read from.
#[derive(Debug, Clone, PartialEq, Eq)]
pub struct SelectionContext {
    pub text: String,
    pub source_app: Option<String>,
}

/// The selection cut to size: whole, or its beginning and its end.
pub open spec fn cut_to_size(text: Seq<char>) -> Seq<char> {
    if text.len() <= SELECTION_MAX_CHARS {
        text
    } else {
        text.take(SELECTION_TRUNCATE_HEAD as int) + SELECTION_TRUNCATED_MARKER@ + text.skip(
            text.len() - SELECTION_TRUNCATE_TAIL,
        )
    }
}

/// The selection cut to size: whole, or its beginning and its end.
pub fn truncate_selection(text: &str) -> (r: String)
    ensures
        r@ == cut_to_size(text@),
{
    let total: usize = text.unicode_len();
    if total <= SELECTION_MAX_CHARS {
        return text.to_owned();
    }
    let mut r: String = text.substring_char(0, SELECTION_TRUNCATE_HEAD).to_owned();
    r.append(SELECTION_TRUNCATED_MARKER);
    r.append(text.substring_char(total - SELECTION_TRUNCATE_TAIL, total));
    proof {
        assert(text@.subrange(0, SELECTION_TRUNCATE_HEAD as int) =~= text@.take(
            SELECTION_TRUNCATE_HEAD as int,
        ));
        assert(text@.subrange(total - SELECTION_TRUNCATE_TAIL, total as int) =~= text@.skip(
            total - SELECTION_TRUNCATE_TAIL,
        ));
    }
    r
}

/// A selection of up to the limit is kept as it is. Of a longer one the first and the last
/// characters are kept, with the marker in between, and what comes out is not much longer than the
/// limit.
pub proof fn selections_keep_both_ends(text: Seq<char>)
    ensures
        text.len() <= SELECTION_MAX_CHARS ==> cut_to_size(text) == text,
        cut_to_size(text).len() <= SELECTION_MAX_CHARS + SELECTION_TRUNCATED_MARKER@.len(),
        forall|i: int|
            0 <= i < SELECTION_TRUNCATE_HEAD && i < text.len() ==> #[trigger] cut_to_size(text)[i]
                == text[i],
        forall|i: int|
            1 <= i <= SELECTION_TRUNCATE_TAIL && i <= text.len() ==> cut_to_size(
                text,
            )[cut_to_size(text).len() - i] == #[trigger] text[text.len() - i],
{
    if text.len() > SELECTION_MAX_CHARS {
        let head = text.take(SELECTION_TRUNCATE_HEAD as int);
        let tail = text.skip(text.len() - SELECTION_TRUNCATE_TAIL);
        let r = cut_to_size(text);
        assert(r.len() == head.len() + SELECTION_TRUNCATED_MARKER@.len() + tail.len());
        assert forall|i: int| 1 <= i <= SELECTION_TRUNCATE_TAIL && i <= text.len() implies r[r.len()
            - i] == #[trigger] text[text.len() - i] by {
            assert(r[r.len() - i] == tail[tail.len() - i]);
        }
    }
}

/// A text that was read, as a selection: without the white space around it and cut to size, or
/// nothing where only white space was read.
pub open spec fn as_selection(text: Option<Seq<char>>) -> Option<Seq<char>> {
    match text {
        Some(t) if text::trimmed(t).len() > 0 => Some(cut_to_size(text::trimmed(t))),
        _ => None,
    }
}

/// A text that was read, as a selection.
pub fn normalized_selection(text: &Option<String>) -> (r: Option<String>)
    ensures
        text::optional_text(r) == as_selection(text::optional_text(*text)),
{
    match text {
        Some(t) => {
            let trimmed: &str = trim(t.as_str());
            if trimmed.is_empty() {
                None
            } else {
                Some(truncate_selection(trimmed))
            }
        },
        None => None,
    }
}

/// Why a selection was read, or was not.
#[derive(Debug, Clone, Copy, PartialEq, Eq, Structural)]
pub enum SelectionCaptureMissReason {
    Captured,
    PrefetchHit,
    PrefetchMissLiveOk,
    ClipboardInitFailed,
    ClipboardSentinelWriteFailed,
    CopyShortcutFailed,
    ClipboardUnchangedSentinel,
    ClipboardEmptyAfterCopy,
    ClipboardReadFailed,
    EmptyTrimmed,
    NoCapturePath,
}

impl SelectionCaptureMissReason {
    /// The reason as it stands in the log.
    pub open spec fn name(self) -> Seq<char> {
        match self {
            SelectionCaptureMissReason::Captured => "ok"@,
            SelectionCaptureMissReason::PrefetchHit => "prefetch_hit"@,
            SelectionCaptureMissReason::PrefetchMissLiveOk => "prefetch_miss_live_ok"@,
            SelectionCaptureMissReason::ClipboardInitFailed => "clipboard_init_failed"@,
            SelectionCaptureMissReason::ClipboardSentinelWriteFailed =>
                "clipboard_sentinel_write_failed"@,
            SelectionCaptureMissReason::CopyShortcutFailed => "copy_shortcut_failed"@,
            SelectionCaptureMissReason::ClipboardUnchangedSentinel =>
                "clipboard_unchanged_sentinel"@,
            SelectionCaptureMissReason::ClipboardEmptyAfterCopy => "clipboard_empty_after_copy"@,
            SelectionCaptureMissReason::ClipboardReadFailed => "clipboard_read_failed"@,
            SelectionCaptureMissReason::EmptyTrimmed => "empty_trimmed"@,
            SelectionCaptureMissReason::NoCapturePath => "no_capture_path"@,
        }
    }

    pub fn as_str(self) -> (r: &'static str)
        ensures
            r@ == self.name(),
    {
        match self {
            SelectionCaptureMissReason::Captured => "ok",
            SelectionCaptureMissReason::PrefetchHit => "prefetch_hit",
            SelectionCaptureMissReason::PrefetchMissLiveOk => "prefetch_miss_live_ok",
            SelectionCaptureMissReason::ClipboardInitFailed => "clipboard_init_failed",
            SelectionCaptureMissReason::ClipboardSentinelWriteFailed =>
                "clipboard_sentinel_write_failed",
            SelectionCaptureMissReason::CopyShortcutFailed => "copy_shortcut_failed",
            SelectionCaptureMissReason::ClipboardUnchangedSentinel =>
                "clipboard_unchanged_sentinel",
            SelectionCaptureMissReason::ClipboardEmptyAfterCopy => "clipboard_empty_after_copy",
            SelectionCaptureMissReason::ClipboardReadFailed => "clipboard_read_failed",
            SelectionCaptureMissReason::EmptyTrimmed => "empty_trimmed",
            SelectionCaptureMissReason::NoCapturePath => "no_capture_path",
        }
    }
}

/// What the log keeps of an attempt to read a selection. The text is not in it.
#[derive(Debug, Clone, PartialEq, Eq)]
pub struct SelectionCaptureDiag {
    pub reason: SelectionCaptureMissReason,
    pub front_app: Option<String>,
    pub used_prefetch: bool,
    pub target_captured: bool,
    pub char_count: Option<usize>,
}

/// `true` or `false`.
pub open spec fn bool_text(b: bool) -> Seq<char> {
    if b {
        "true"@
    } else {
        "false"@
    }
}

fn bool_str(b: bool) -> (r: &'static str)
    ensures
        r@ == bool_text(b),
{
    if b {
        "true"
    } else {
        "false"
    }
}

impl SelectionCaptureDiag {
    /// One line for the log.
    pub fn summary(&self) -> (r: String)
        ensures
            r@ == "reason="@ + self.reason.name() + " used_prefetch="@ + bool_text(
                self.used_prefetch,
            ) + " target_captured="@ + bool_text(self.target_captured) + " chars="@ + (
            match self.char_count {
                Some(n) => text::decimal(n as nat),
                None => "-"@,
            }) + " front_app="@ + (match self.front_app {
                Some(app) => app@,
                None => "-"@,
            }),
    {
        let mut r: String = "reason=".to_owned();
        r.append(self.reason.as_str());
        r.append(" used_prefetch=");
        r.append(bool_str(self.used_prefetch));
        r.append(" target_captured=");
        r.append(bool_str(self.target_captured));
        r.append(" chars=");
        match self.char_count {
            Some(n) => {
                r.append(to_decimal(n as u64).as_str());
            },
            None => {
                r.append("-");
            },
        }
        r.append(" front_app=");
        match &self.front_app {
            Some(app) => {
                r.append(app.as_str());
            },
            None => {
                r.append("-");
            },
        }
        r
    }
}

/// What the clipboard held after a simulated copy, told apart. `sentinel` was put there before.
pub open spec fn copied_text(
    post_ok: bool,
    captured: Option<String>,
    sentinel: Seq<char>,
) -> Result<String, SelectionCaptureMissReason> {
    if !post_ok {
        Err(SelectionCaptureMissReason::CopyShortcutFailed)
    } else {
        match captured {
            None => Err(SelectionCaptureMissReason::ClipboardReadFailed),
            Some(t) => if t@ == sentinel {
                Err(SelectionCaptureMissReason::ClipboardUnchangedSentinel)
            } else if t@.len() == 0 {
                Err(SelectionCaptureMissReason::ClipboardEmptyAfterCopy)
            } else {
                Ok(t)
            },
        }
    }
}

/// What the clipboard held after a simulated copy: the selection, or why it is none.
pub fn classify_simulated_copy_result(
    post_ok: bool,
    captured: Option<String>,
    sentinel: &str,
) -> (r: Result<String, SelectionCaptureMissReason>)
    ensures
        r == copied_text(post_ok, captured, sentinel@),
{
    if !post_ok {
        return Err(SelectionCaptureMissReason::CopyShortcutFailed);
    }
    match captured {
        None => Err(SelectionCaptureMissReason::ClipboardReadFailed),
        Some(t) => if same(t.as_str(), sentinel) {
            Err(SelectionCaptureMissReason::ClipboardUnchangedSentinel)
        } else if t.as_str().is_empty() {
            Err(SelectionCaptureMissReason::ClipboardEmptyAfterCopy)
        } else {
            Ok(t)
        },
    }
}

/// The sentinel never passes for a selection, nor does an empty clipboard.
pub proof fn the_sentinel_is_never_a_selection(
    post_ok: bool,
    captured: Option<String>,
    sentinel: Seq<char>,
)
    ensures
        copied_text(post_ok, captured, sentinel) matches Ok(t) ==> t@ != sentinel && t@.len() > 0,
{
}

/// A hexadecimal digit in lower case.
pub open spec fn lower_hex_digit(n: nat) -> char {
    if n < 10 {
        (0x30 + n) as char
    } else {
        (0x57 + n) as char
    }
}

/// `n` in hexadecimal, without leading zeros.
pub open spec fn lower_hex(n: nat) -> Seq<char>
    decreases n,
{
    if n < 16 {
        seq![lower_hex_digit(n)]
    } else {
        lower_hex(n / 16).push(lower_hex_digit(n % 16))
    }
}

fn hex_digit_text(n: u128) -> (r: &'static str)
    requires
        n < 16,
    ensures
        r@ == seq![lower_hex_digit(n as nat)],
{
    proof {
        reveal_strlit("0");
        reveal_strlit("1");
        reveal_strlit("2");
        reveal_strlit("3");
        reveal_strlit("4");
        reveal_strlit("5");
        reveal_strlit("6");
        reveal_strlit("7");
        reveal_strlit("8");
        reveal_strlit("9");
        reveal_strlit("a");
        reveal_strlit("b");
        reveal_strlit("c");
        reveal_strlit("d");
        reveal_strlit("e");
        reveal_strlit("f");
    }
    match n {
        0 => "0",
        1 => "1",
        2 => "2",
        3 => "3",
        4 => "4",
        5 => "5",
        6 => "6",
        7 => "7",
        8 => "8",
        9 => "9",
        10 => "a",
        11 => "b",
        12 => "c",
        13 => "d",
        14 => "e",
        _ => "f",
    }
}

/// `n` in hexadecimal.
pub fn uuid_like_token(n: u128) -> (r: String)
    ensures
        r@ == lower_hex(n as nat),
    decreases n,
{
    if n < 16 {
        hex_digit_text(n).to_owned()
    } else {
        let mut r: String = uuid_like_token(n / 16);
        r.append(hex_digit_text(n % 16));
        assert(r@ =~= lower_hex(n as nat));
        r
    }
}

/// The text that is put on the clipboard before a copy is simulated; `nanos` is the time.
pub fn clipboard_sentinel(nanos: u128) -> (r: String)
    ensures
        r@ == "__openless_qa_sentinel_"@ + lower_hex(nanos as nat) + "__"@,
{
    let mut r: String = "__openless_qa_sentinel_".to_owned();
    r.append(uuid_like_token(nanos).as_str());
    r.append("__");
    r
}

/// What the clipboard is set to once the copy has been read: what it held, or nothing.
pub fn restored_clipboard(original: Option<String>) -> (r: String)
    ensures
        match original {
            Some(t) => r == t,
            None => r@.len() == 0,
        },
{
    match original {
        Some(t) => t,
        None => String::new(),
    }
}

/// How often the clipboard was found free and unchanged before a copy on Windows. A history that
/// is being written holds the clipboard for a moment after each change.
#[derive(Debug, Clone, Copy, PartialEq, Eq, Structural)]
pub struct ClipboardSettle {
    pub last_seq: u32,
    pub stable_rounds: u32,
}

/// How long the clipboard may take to settle, in milliseconds.
pub const CLIPBOARD_SETTLE_MAX_MS: u64 = 250;

/// The rounds without a change after which it has settled.
pub const CLIPBOARD_SETTLE_ROUNDS: u32 = 3;

impl ClipboardSettle {
    pub fn new(seq: u32) -> (r: ClipboardSettle)
        ensures
            r.last_seq == seq,
            r.stable_rounds == 0,
    {
        ClipboardSettle { last_seq: seq, stable_rounds: 0 }
    }

    /// The state after a look at the clipboard.
    pub open spec fn after(self, is_free: bool, seq: u32) -> ClipboardSettle {
        if is_free && seq == self.last_seq {
            ClipboardSettle {
                last_seq: seq,
                stable_rounds: (self.stable_rounds + 1) as u32,
            }
        } else {
            ClipboardSettle { last_seq: seq, stable_rounds: 0 }
        }
    }

    /// Whether the waiting goes on, `elapsed_ms` after it began.
    pub fn goes_on(&self, elapsed_ms: u64) -> (r: bool)
        ensures
            r == (elapsed_ms < CLIPBOARD_SETTLE_MAX_MS && self.stable_rounds
                < CLIPBOARD_SETTLE_ROUNDS),
    {
        elapsed_ms < CLIPBOARD_SETTLE_MAX_MS && self.stable_rounds < CLIPBOARD_SETTLE_ROUNDS
    }

    /// Takes note of a look at the clipboard: whether nobody holds it, and how often it has
    /// changed. Says whether it has settled.
    pub fn observe(&mut self, is_free: bool, seq: u32) -> (settled: bool)
        requires
            old(self).stable_rounds < CLIPBOARD_SETTLE_ROUNDS,
        ensures
            *final(self) == old(self).after(is_free, seq),
            settled == (final(self).stable_rounds >= CLIPBOARD_SETTLE_ROUNDS),
    {
        if is_free && seq == self.last_seq {
            self.stable_rounds = self.stable_rounds + 1;
        } else {
            self.stable_rounds = 0;
            self.last_seq = seq;
        }
        self.stable_rounds >= CLIPBOARD_SETTLE_ROUNDS
    }
}

/// The state after looks at the clipboard, each with whether it was free and its change count.
pub open spec fn settle_after(start: u32, looks: Seq<(bool, u32)>) -> ClipboardSettle
    decreases looks.len(),
{
    if looks.len() == 0 {
        ClipboardSettle { last_seq: start, stable_rounds: 0 }
    } else {
        settle_after(start, looks.drop_last()).after(looks.last().0, looks.last().1)
    }
}

/// The clipboard counts as settled only when it was free in each of the last rounds, and did not
/// change from one to the next.
pub proof fn settling_takes_quiet_rounds(start: u32, looks: Seq<(bool, u32)>)
    requires
        looks.len() <= u32::MAX,
    ensures
        ({
            let rounds = settle_after(start, looks).stable_rounds;
            &&& rounds <= looks.len()
            &&& looks.len() > 0 ==> settle_after(start, looks).last_seq == looks.last().1
            &&& forall|i: int|
                looks.len() - rounds <= i < looks.len() ==> (#[trigger] looks[i]).0 && looks[i].1
                    == settle_after(start, looks).last_seq
        }),
    decreases looks.len(),
{
    if looks.len() > 0 {
        settling_takes_quiet_rounds(start, looks.drop_last());
        let before = settle_after(start, looks.drop_last());
        let now = settle_after(start, looks);
        assert forall|i: int| looks.len() - now.stable_rounds <= i < looks.len() implies (
        #[trigger] looks[i]).0 && looks[i].1 == now.last_seq by {
            if i < looks.len() - 1 {
                assert(looks.drop_last()[i] == looks[i]);
            }
        }
    }
}

/// How long a simulated copy may take to reach the clipboard on Windows, in milliseconds.
pub const CLIPBOARD_POLL_MAX_MS: u64 = 450;

/// When the copy is sent once more, in milliseconds.
pub const CLIPBOARD_RESEND_AFTER_MS: u64 = 150;

/// The wait for a simulated copy on Windows.
#[derive(Debug, Clone, PartialEq, Eq)]
pub struct ClipboardPoll {
    /// What the clipboard held when it was last read.
    pub captured: Option<String>,
    /// The copy was sent once more.
    pub resent: bool,
    /// A copy was sent.
    pub post_ok: bool,
}

impl ClipboardPoll {
    pub fn new(post_ok: bool) -> (r: ClipboardPoll)
        ensures
            r.captured is None,
            !r.resent,
            r.post_ok == post_ok,
    {
        ClipboardPoll { captured: None, resent: false, post_ok }
    }

    /// Whether the waiting goes on, `elapsed_ms` after it began.
    pub fn goes_on(&self, elapsed_ms: u64) -> (r: bool)
        ensures
            r == (elapsed_ms < CLIPBOARD_POLL_MAX_MS),
    {
        elapsed_ms < CLIPBOARD_POLL_MAX_MS
    }

    /// Takes note of what the clipboard holds, `None` where it cannot be read. Says whether the
    /// waiting is over: something else than the sentinel is there.
    pub fn observe(&mut self, read: Option<String>, sentinel: &str) -> (done: bool)
        ensures
            final(self).captured == read,
            final(self).resent == old(self).resent,
            final(self).post_ok == old(self).post_ok,
            done == (read matches Some(t) && t@ != sentinel@),
    {
        let done: bool = match &read {
            Some(t) => !same(t.as_str(), sentinel),
            None => false,
        };
        self.captured = read;
        done
    }

    /// Whether the copy is sent once more, `elapsed_ms` after the waiting began.
    pub fn resends(&self, elapsed_ms: u64) -> (r: bool)
        ensures
            r == (!self.resent && elapsed_ms >= CLIPBOARD_RESEND_AFTER_MS),
    {
        !self.resent && elapsed_ms >= CLIPBOARD_RESEND_AFTER_MS
    }

    /// Takes note of an attempt to send the copy once more. One that failed may be tried again.
    pub fn sent_again(&mut self, ok: bool)
        ensures
            final(self).captured == old(self).captured,
            final(self).resent == (old(self).resent || ok),
            final(self).post_ok == (old(self).post_ok || ok),
    {
        if ok {
            self.resent = true;
            self.post_ok = true;
        }
    }
}

/// What Linux has for a selection.
#[derive(Debug, PartialEq, Eq)]
pub enum LinuxSelectionRead {
    Text(String),
    NoSelection,
}

impl LinuxSelectionRead {
    /// The text, where there is one.
    pub open spec fn selected(self) -> Option<Seq<char>> {
        match self {
            LinuxSelectionRead::Text(t) => Some(t@),
            LinuxSelectionRead::NoSelection => None,
        }
    }
}

/// What the input method's answer holds: the text without the white space around it, where there
/// is any.
pub open spec fn selection_in_reply(reply: Result<String, String>) -> Option<Seq<char>> {
    match reply {
        Ok(t) if text::trimmed(t@).len() > 0 => Some(text::trimmed(t@)),
        _ => None,
    }
}

/// What the input method's answer holds. An error counts as no selection.
pub fn classify_selection_result(reply: Result<String, String>) -> (r: LinuxSelectionRead)
    ensures
        r.selected() == selection_in_reply(reply),
{
    match reply {
        Ok(t) => {
            let trimmed: &str = trim(t.as_str());
            if trimmed.is_empty() {
                LinuxSelectionRead::NoSelection
            } else {
                LinuxSelectionRead::Text(trimmed.to_owned())
            }
        },
        Err(_) => LinuxSelectionRead::NoSelection,
    }
}

/// Asks the input method for the primary selection.
pub fn read_selected_text<F: FnOnce() -> Result<String, String>>(ask: F) -> (r: LinuxSelectionRead)
    requires
        call_requires(ask, ()),
    ensures
        exists|reply: Result<String, String>| #[trigger]
            call_ensures(ask, (), reply) && r.selected() == selection_in_reply(reply),
{
    let reply: Result<String, String> = ask();
    let ghost said = reply;
    let r: LinuxSelectionRead = classify_selection_result(reply);
    assert(call_ensures(ask, (), said));
    r
}

/// What an attempt to read the selection came to.
#[derive(Debug, Clone, PartialEq, Eq)]
pub struct SelectionCaptureOutcome {
    pub selection: Option<SelectionContext>,
}

impl SelectionCaptureOutcome {
    /// The text, where one was read.
    pub open spec fn selected(self) -> Option<Seq<char>> {
        match self.selection {
            Some(s) => Some(s.text@),
            None => None,
        }
    }

    /// What was read, if anything, is said to be from `source_app`.
    pub open spec fn is_from(self, source_app: Option<String>) -> bool {
        self.selection matches Some(s) ==> s.source_app == source_app
    }
}

/// What a simulated copy comes to: the selection, and the reason for the log.
pub open spec fn capture_by_copy(copied: Result<String, SelectionCaptureMissReason>) -> (
    Option<Seq<char>>,
    SelectionCaptureMissReason,
) {
    match copied {
        Err(reason) => (None, reason),
        Ok(t) => match as_selection(Some(t@)) {
            Some(s) => (Some(s), SelectionCaptureMissReason::Captured),
            None => (None, SelectionCaptureMissReason::EmptyTrimmed),
        },
    }
}

/// What Linux's selection comes to.
pub open spec fn capture_on_linux(read: LinuxSelectionRead) -> (
    Option<Seq<char>>,
    SelectionCaptureMissReason,
) {
    match read {
        LinuxSelectionRead::Text(t) => (
            Some(cut_to_size(text::trimmed(t@))),
            SelectionCaptureMissReason::Captured,
        ),
        LinuxSelectionRead::NoSelection => (None, SelectionCaptureMissReason::EmptyTrimmed),
    }
}

/// The capture says this much, and for this application.
pub open spec fn captures(
    r: (SelectionCaptureOutcome, SelectionCaptureMissReason),
    source_app: Option<String>,
    expected: (Option<Seq<char>>, SelectionCaptureMissReason),
) -> bool {
    &&& r.0.selected() == expected.0
    &&& r.0.is_from(source_app)
    &&& r.1 == expected.1
}

fn found(text: String, source_app: Option<String>) -> (r: (
    SelectionCaptureOutcome,
    SelectionCaptureMissReason,
))
    ensures
        captures(r, source_app, (Some(text@), SelectionCaptureMissReason::Captured)),
{
    (
        SelectionCaptureOutcome { selection: Some(SelectionContext { text, source_app }) },
        SelectionCaptureMissReason::Captured,
    )
}

fn missed(source_app: Option<String>, reason: SelectionCaptureMissReason) -> (r: (
    SelectionCaptureOutcome,
    SelectionCaptureMissReason,
))
    ensures
        captures(r, source_app, (None, reason)),
{
    (SelectionCaptureOutcome { selection: None }, reason)
}

/// The selection that a simulated copy gives.
pub fn selection_from_copy(
    copied: Result<String, SelectionCaptureMissReason>,
    source_app: Option<String>,
) -> (r: (SelectionCaptureOutcome, SelectionCaptureMissReason))
    ensures
        captures(r, source_app, capture_by_copy(copied)),
{
    match copied {
        Err(reason) => missed(source_app, reason),
        Ok(t) => match normalized_selection(&Some(t)) {
            Some(s) => found(s, source_app),
            None => missed(source_app, SelectionCaptureMissReason::EmptyTrimmed),
        },
    }
}

/// The selection that Linux gives.
pub fn selection_on_linux(read: LinuxSelectionRead, source_app: Option<String>) -> (r: (
    SelectionCaptureOutcome,
    SelectionCaptureMissReason,
))
    ensures
        captures(r, source_app, capture_on_linux(read)),
{
    match read {
        LinuxSelectionRead::Text(t) => found(truncate_selection(trim(t.as_str())), source_app),
        LinuxSelectionRead::NoSelection => missed(
            source_app,
            SelectionCaptureMissReason::EmptyTrimmed,
        ),
    }
}

/// A copy was simulated, and this is what it came to.
pub open spec fn captured_by_copy<C: FnOnce() -> Result<String, SelectionCaptureMissReason>>(
    copy: C,
    source_app: Option<String>,
    r: (SelectionCaptureOutcome, SelectionCaptureMissReason),
) -> bool {
    exists|copied: Result<String, SelectionCaptureMissReason>| #[trigger]
        call_ensures(copy, (), copied) && captures(r, source_app, capture_by_copy(copied))
}

/// The accessibility interface was asked, and only where it had nothing was a copy simulated.
pub open spec fn captured_on_macos<
    A: FnOnce() -> Option<String>,
    C: FnOnce() -> Result<String, SelectionCaptureMissReason>,
>(
    accessible: A,
    copy: C,
    source_app: Option<String>,
    r: (SelectionCaptureOutcome, SelectionCaptureMissReason),
) -> bool {
    exists|direct: Option<String>| #[trigger]
        call_ensures(accessible, (), direct) && match as_selection(text::optional_text(direct)) {
            Some(s) => captures(r, source_app, (Some(s), SelectionCaptureMissReason::Captured)),
            None => captured_by_copy(copy, source_app, r),
        }
}

/// The primary selection was asked for, and this is what it came to.
pub open spec fn captured_on_linux<L: FnOnce() -> LinuxSelectionRead>(
    primary: L,
    source_app: Option<String>,
    r: (SelectionCaptureOutcome, SelectionCaptureMissReason),
) -> bool {
    exists|read: LinuxSelectionRead| #[trigger]
        call_ensures(primary, (), read) && captures(r, source_app, capture_on_linux(read))
}

/// What reading the selection comes to on the platform.
pub open spec fn captured_on<
    A: FnOnce() -> Option<String>,
    C: FnOnce() -> Result<String, SelectionCaptureMissReason>,
    L: FnOnce() -> LinuxSelectionRead,
>(
    target: TargetOs,
    accessible: A,
    copy: C,
    primary: L,
    source_app: Option<String>,
    r: (SelectionCaptureOutcome, SelectionCaptureMissReason),
) -> bool {
    match target {
        TargetOs::Macos => captured_on_macos(accessible, copy, source_app, r),
        TargetOs::Windows => captured_by_copy(copy, source_app, r),
        TargetOs::Linux => captured_on_linux(primary, source_app, r),
        _ => captures(r, source_app, (None, SelectionCaptureMissReason::NoCapturePath)),
    }
}

/// What may be asked of the platform: accessibility on macOS, the simulated copy on Windows and
/// where accessibility has given no selection, and the primary selection on Linux. A copy touches
/// the clipboard, so none is simulated where the selection can be had without.
pub open spec fn may_capture_on<
    A: FnOnce() -> Option<String>,
    C: FnOnce() -> Result<String, SelectionCaptureMissReason>,
    L: FnOnce() -> LinuxSelectionRead,
>(target: TargetOs, accessible: A, copy: C, primary: L) -> bool {
    match target {
        TargetOs::Macos => {
            &&& call_requires(accessible, ())
            &&& forall|direct: Option<String>| #[trigger]
                call_ensures(accessible, (), direct) && as_selection(
                    text::optional_text(direct),
                ) is None ==> call_requires(copy, ())
        },
        TargetOs::Windows => call_requires(copy, ()),
        TargetOs::Linux => call_requires(primary, ()),
        _ => true,
    }
}

/// Reads the selection of the front application, which `source_app` labels, and says how that
/// went. macOS asks the accessibility interface and falls back on a simulated copy, Windows has
/// the simulated copy, and Linux its primary selection.
pub fn capture_selection_with_status_diag<
    A: FnOnce() -> Option<String>,
    C: FnOnce() -> Result<String, SelectionCaptureMissReason>,
    L: FnOnce() -> LinuxSelectionRead,
>(
    source_app: Option<String>,
    target: TargetOs,
    accessible: A,
    copy: C,
    primary: L,
) -> (r: (SelectionCaptureOutcome, SelectionCaptureMissReason))
    requires
        may_capture_on(target, accessible, copy, primary),
    ensures
        captured_on(target, accessible, copy, primary, source_app, r),
{
    if target == TargetOs::Macos {
        let direct: Option<String> = accessible();
        if let Some(s) = normalized_selection(&direct) {
            return found(s, source_app);
        }
    }
    if target == TargetOs::Macos || target == TargetOs::Windows {
        let copied: Result<String, SelectionCaptureMissReason> = copy();
        return selection_from_copy(copied, source_app);
    }
    if target == TargetOs::Linux {
        let read: LinuxSelectionRead = primary();
        return selection_on_linux(read, source_app);
    }
    missed(source_app, SelectionCaptureMissReason::NoCapturePath)
}

/// Reads the selection of the front application, which `source_app` labels.
pub fn capture_selection_with_status<
    A: FnOnce() -> Option<String>,
    C: FnOnce() -> Result<String, SelectionCaptureMissReason>,
    L: FnOnce() -> LinuxSelectionRead,
>(
    source_app: Option<String>,
    target: TargetOs,
    accessible: A,
    copy: C,
    primary: L,
) -> (r: SelectionCaptureOutcome)
    requires
        may_capture_on(target, accessible, copy, primary),
    ensures
        exists|reason: SelectionCaptureMissReason| #[trigger]
            captured_on(target, accessible, copy, primary, source_app, (r, reason)),
{
    let captured: (SelectionCaptureOutcome, SelectionCaptureMissReason) =
        capture_selection_with_status_diag(source_app, target, accessible, copy, primary);
    proof {
        assert(captured == (captured.0, captured.1));
    }
    captured.0
}

/// A selection of up to four thousand characters is kept whole. Of a longer one the first and the
/// last two thousand are kept, with a mark between them.
pub proof fn long_selections_lose_their_middle(text: &str, r: String)
    requires
        call_ensures(truncate_selection, (text,), r),
    ensures
        text@.len() <= 4000 ==> r@ == text@,
        text@.len() > 4000 ==> r@ == text@.subrange(0, 2000) + "\n[…truncated…]\n"@ + text@.subrange(
            text@.len() - 2000,
            text@.len() as int,
        ),
{
}

/// What a text keeps when it becomes a selection: no white space at either end, nothing else taken
/// away from a text that is kept whole, and a blank text is no selection.
pub proof fn selections_begin_and_end_with_text(text: Option<Seq<char>>)
    ensures
        as_selection(text) matches Some(s) ==> s.len() > 0 && !text::is_white_space(s[0])
            && !text::is_white_space(s.last()),
        as_selection(text) is Some <==> (text is Some && exists|i: int|
            0 <= i < text->0.len() && !text::is_white_space(#[trigger] text->0[i])),
        as_selection(text) matches Some(s) ==> s.len() <= 4000 ==> text::is_core_of(s, text->0),
{
    if text is Some {
        reveal_strlit("\n[…truncated…]\n");
        let t = text->0;
        let core = text::trimmed(t);
        text::trimming_takes_all_white_space_at_the_ends(t);
        assert(core.len() > 0 ==> exists|i: int|
            0 <= i < t.len() && !text::is_white_space(#[trigger] t[i]));
        if core.len() > 0 {
            let s = cut_to_size(core);
            assert(s[0] == core[0]);
            assert(s.last() == core.last());
        }
    }
}

/// What a copy gave is a selection without the white space around it, and the application that it
/// was copied from goes with it. A copy that failed, or gave blank text, is none, and says why.
pub proof fn copied_selections_have_no_white_space_around_them(
    copied: Result<String, SelectionCaptureMissReason>,
    source_app: Option<String>,
    r: (SelectionCaptureOutcome, SelectionCaptureMissReason),
)
    requires
        call_ensures(selection_from_copy, (copied, source_app), r),
    ensures
        r.0.selection matches Some(s) ==> {
            &&& r.1 is Captured
            &&& s.source_app == source_app
            &&& s.text@.len() > 0
            &&& !text::is_white_space(s.text@[0]) && !text::is_white_space(s.text@.last())
            &&& copied is Ok
            &&& s.text@.len() <= 4000 ==> text::is_core_of(s.text@, copied->Ok_0@)
        },
        r.0.selection is None ==> match copied {
            Ok(t) => r.1 is EmptyTrimmed && forall|i: int|
                0 <= i < t@.len() ==> text::is_white_space(#[trigger] t@[i]),
            Err(reason) => r.1 == reason,
        },
{
    if copied is Ok {
        selections_begin_and_end_with_text(Some(copied->Ok_0@));
    }
}

/// A text that is already a selection stays as it is.
pub proof fn normalizing_trims_and_cuts(text: &Option<String>, r: Option<String>)
    requires
        call_ensures(normalized_selection, (text,), r),
    ensures
        text is None ==> r is None,
        r matches Some(s) ==> s@.len() > 0 && !text::is_white_space(s@[0]) && !text::is_white_space(
            s@.last(),
        ),
        text matches Some(t) ==> t@.len() <= 4000 && t@.len() > 0 && !text::is_white_space(t@[0])
            && !text::is_white_space(t@.last()) ==> r is Some && r->0@ == t@,
        text is Some ==> (r is None <==> forall|i: int|
            0 <= i < text->0@.len() ==> text::is_white_space(#[trigger] text->0@[i])),
        r is Some && r->0@.len() <= 4000 ==> text::is_core_of(r->0@, text->0@),
{
    selections_begin_and_end_with_text(text::optional_text(*text));
    if text is Some {
        let t = text->0@;
        if t.len() > 0 && !text::is_white_space(t[0]) && !text::is_white_space(t.last()) {
            text::lemma_nothing_to_trim(t);
        }
    }
}

/// The reply of the system on Linux is a selection without the white space around it; an error and
/// a blank reply are none.
pub proof fn linux_replies_are_trimmed(
    reply: Result<String, String>,
    read: LinuxSelectionRead,
    source_app: Option<String>,
    r: (SelectionCaptureOutcome, SelectionCaptureMissReason),
)
    requires
        call_ensures(classify_selection_result, (reply,), read),
        call_ensures(selection_on_linux, (read, source_app), r),
    ensures
        read matches LinuxSelectionRead::Text(t) ==> reply is Ok && t@.len() > 0
            && text::is_core_of(t@, reply->Ok_0@),
        read is NoSelection <==> (reply is Err || forall|i: int|
            0 <= i < reply->Ok_0@.len() ==> text::is_white_space(#[trigger] reply->Ok_0@[i])),
        r.0.selection is None <==> read is NoSelection,
        r.0.selection is None ==> r.1 is EmptyTrimmed,
        r.0.selection matches Some(s) ==> {
            &&& r.1 is Captured
            &&& s.source_app == source_app
            &&& s.text@.len() > 0
            &&& !text::is_white_space(s.text@[0]) && !text::is_white_space(s.text@.last())
            &&& s.text@.len() <= 4000 ==> text::is_core_of(s.text@, reply->Ok_0@)
        },
{
    if reply is Ok {
        text::trimming_takes_all_white_space_at_the_ends(reply->Ok_0@);
        selections_begin_and_end_with_text(Some(reply->Ok_0@));
    }
}

/// However a selection was captured, and on whichever system, it has no white space at its ends.
pub proof fn captured_selections_have_no_white_space_around_them<
    A: FnOnce() -> Option<String>,
    C: FnOnce() -> Result<String, SelectionCaptureMissReason>,
    L: FnOnce() -> LinuxSelectionRead,
>(
    source_app: Option<String>,
    target: TargetOs,
    accessible: A,
    copy: C,
    primary: L,
    r: (SelectionCaptureOutcome, SelectionCaptureMissReason),
)
    requires
        call_ensures(
            capture_selection_with_status_diag::<A, C, L>,
            (source_app, target, accessible, copy, primary),
            r,
        ),
    ensures
        r.0.selection matches Some(s) ==> {
            &&& s.source_app == source_app
            &&& r.1 is Captured
            &&& s.text@.len() > 0 ==> !text::is_white_space(s.text@[0]) && !text::is_white_space(
                s.text@.last(),
            )
            &&& target is Macos || target is Windows ==> s.text@.len() > 0
        },
        r.0.selection is Some ==> target is Macos || target is Windows || target is Linux,
        !(target is Macos || target is Windows || target is Linux) ==> r.1 is NoCapturePath,
{
    if r.0.selection is Some {
        let s = r.0.selection->0.text@;
        if captured_by_copy(copy, source_app, r) {
            let copied = choose|copied: Result<String, SelectionCaptureMissReason>| #[trigger]
                call_ensures(copy, (), copied) && captures(r, source_app, capture_by_copy(copied));
            selections_begin_and_end_with_text(Some(copied->Ok_0@));
        }
        if target is Macos {
            let direct = choose|direct: Option<String>| #[trigger]
                call_ensures(accessible, (), direct) && match as_selection(
                    text::optional_text(direct),
                ) {
                    Some(s) => captures(
                        r,
                        source_app,
                        (Some(s), SelectionCaptureMissReason::Captured),
                    ),
                    None => captured_by_copy(copy, source_app, r),
                };
            selections_begin_and_end_with_text(text::optional_text(direct));
        }
        if target is Linux {
            let read = choose|read: LinuxSelectionRead| #[trigger]
                call_ensures(primary, (), read) && captures(r, source_app, capture_on_linux(read));
            let t = read->Text_0@;
            text::trimming_takes_all_white_space_at_the_ends(t);
            let core = text::trimmed(t);
            assert(s == cut_to_size(core));
            assert(s.len() > 0 ==> core.len() > 0 && s[0] == core[0] && s.last() == core.last());
        }
    }
}

/// A simulated copy gave a text where the keys were sent and the clipboard holds something else than
/// the sentinel; otherwise the reason says what went wrong first.
pub proof fn copies_are_told_from_the_sentinel(
    post_ok: bool,
    captured: Option<String>,
    sentinel: &str,
    r: Result<String, SelectionCaptureMissReason>,
)
    requires
        call_ensures(classify_simulated_copy_result, (post_ok, captured, sentinel), r),
    ensures
        r is Ok <==> post_ok && captured is Some && captured->0@ != sentinel@ && captured->0@.len()
            > 0,
        r matches Ok(t) ==> captured == Some(t),
        !post_ok ==> r == Err::<String, SelectionCaptureMissReason>(
            SelectionCaptureMissReason::CopyShortcutFailed,
        ),
        post_ok && captured is None ==> r->Err_0 is ClipboardReadFailed,
        post_ok && captured is Some && captured->0@ == sentinel@ ==> r->Err_0
            is ClipboardUnchangedSentinel,
        post_ok && captured is Some && captured->0@ != sentinel@ && captured->0@.len() == 0
            ==> r->Err_0 is ClipboardEmptyAfterCopy,
{
}

/// The number that a text of lower-case hexadecimal digits stands for.
pub open spec fn number_in_hex(digits: Seq<char>) -> int {
    digits.fold_left(
        0int,
        |n: int, digit: char|
            16 * n + (if digit <= '9' {
                digit as int - '0' as int
            } else {
                digit as int - 'a' as int + 10
            }),
    )
}

proof fn lemma_lower_hex(n: nat)
    ensures
        lower_hex(n).len() > 0,
        forall|i: int|
            0 <= i < lower_hex(n).len() ==> '0' <= #[trigger] lower_hex(n)[i] <= '9' || 'a'
                <= lower_hex(n)[i] <= 'f',
        number_in_hex(lower_hex(n)) == n,
    decreases n,
{
    let step = |n: int, digit: char|
        16 * n + (if digit <= '9' {
            digit as int - '0' as int
        } else {
            digit as int - 'a' as int + 10
        });
    let s = lower_hex(n);
    if n < 16 {
        assert(s.drop_last() =~= Seq::<char>::empty());
        reveal_with_fuel(Seq::fold_left, 2);
        assert(s.last() == lower_hex_digit(n));
        assert(number_in_hex(s) == n);
    } else {
        lemma_lower_hex(n / 16);
        assert(s.drop_last() =~= lower_hex(n / 16));
        assert(s.last() == lower_hex_digit(n % 16));
        assert(s.fold_left(0int, step) == step(s.drop_last().fold_left(0int, step), s.last()));
    }
}

/// A token is a number in lower-case hexadecimal digits, and can be read back.
pub proof fn tokens_read_back(n: u128, r: String)
    requires
        call_ensures(uuid_like_token, (n,), r),
    ensures
        r@.len() > 0,
        forall|i: int| 0 <= i < r@.len() ==> '0' <= #[trigger] r@[i] <= '9' || 'a' <= r@[i] <= 'f',
        number_in_hex(r@) == n,
{
    lemma_lower_hex(n as nat);
}

/// Sentinels of different moments differ, and hold the token of their moment between fixed marks.
pub proof fn sentinels_differ_from_moment_to_moment(
    nanos: u128,
    later: u128,
    token: String,
    r: String,
    s: String,
)
    requires
        call_ensures(uuid_like_token, (nanos,), token),
        call_ensures(clipboard_sentinel, (nanos,), r),
        call_ensures(clipboard_sentinel, (later,), s),
    ensures
        r@ == "__openless_qa_sentinel_"@ + token@ + "__"@,
        nanos != later ==> r@ != s@,
{
    lemma_lower_hex(nanos as nat);
    lemma_lower_hex(later as nat);
    let opening = "__openless_qa_sentinel_"@;
    let a = lower_hex(nanos as nat);
    let b = lower_hex(later as nat);
    if r@ == s@ {
        assert(r@.len() == opening.len() + a.len() + "__"@.len());
        assert(s@.len() == opening.len() + b.len() + "__"@.len());
        assert(a.len() == b.len());
        assert forall|i: int| 0 <= i < a.len() implies a[i] == b[i] by {
            assert(r@[opening.len() + i] == a[i]);
            assert(s@[opening.len() + i] == b[i]);
        }
        assert(a =~= b);
    }
}

/// The clipboard gets back what it held, and is emptied where it held nothing.
pub proof fn clipboards_get_back_what_they_held(original: Option<String>, r: String)
    requires
        call_ensures(restored_clipboard, (original,), r),
    ensures
        original is Some ==> r@ == original->0@,
        original is None ==> r@.len() == 0,
{
}

/// The clipboard has settled once it was found free and unchanged three times in a row; a look at
/// which it is in use or has changed starts anew.
pub proof fn clipboards_settle_after_three_quiet_looks(
    first: &mut ClipboardSettle,
    second: &mut ClipboardSettle,
    third: &mut ClipboardSettle,
    free: (bool, bool, bool),
    seq: (u32, u32, u32),
    settled: (bool, bool, bool),
)
    requires
        old(first).stable_rounds == 0,
        call_ensures(ClipboardSettle::observe, (first, free.0, seq.0), settled.0),
        *final(first) == *old(second),
        call_ensures(ClipboardSettle::observe, (second, free.1, seq.1), settled.1),
        *final(second) == *old(third),
        call_ensures(ClipboardSettle::observe, (third, free.2, seq.2), settled.2),
    ensures
        !settled.0 && !settled.1,
        settled.2 <==> free.0 && free.1 && free.2 && seq.0 == old(first).last_seq && seq.1 == seq.0
            && seq.2 == seq.1,
        final(third).last_seq == seq.2,
        !free.2 || seq.2 != seq.1 ==> final(third).stable_rounds == 0,
{
}

/// The wait for the clipboard begins with no quiet look, and goes on for less than a quarter of a
/// second and until three quiet looks.
pub proof fn settling_is_not_waited_for_forever(
    seq: u32,
    fresh: ClipboardSettle,
    settle: &ClipboardSettle,
    elapsed_ms: u64,
    r: bool,
)
    requires
        call_ensures(ClipboardSettle::new, (seq,), fresh),
        call_ensures(ClipboardSettle::goes_on, (settle, elapsed_ms), r),
    ensures
        fresh.stable_rounds == 0 && fresh.last_seq == seq,
        r <==> elapsed_ms < 250 && settle.stable_rounds < 3,
{
}

/// A poll looks at the clipboard for less than 450 milliseconds, ends with the first text that is
/// not the sentinel, and sends the copy again once, after 150 milliseconds.
pub proof fn polls_send_the_copy_at_most_twice(
    post_ok: bool,
    fresh: ClipboardPoll,
    poll: &ClipboardPoll,
    elapsed_ms: u64,
    goes_on: bool,
    resends: bool,
    sent: &mut ClipboardPoll,
    ok: bool,
    looked: &mut ClipboardPoll,
    read: Option<String>,
    sentinel: &str,
    done: bool,
)
    requires
        call_ensures(ClipboardPoll::new, (post_ok,), fresh),
        call_ensures(ClipboardPoll::goes_on, (poll, elapsed_ms), goes_on),
        call_ensures(ClipboardPoll::resends, (poll, elapsed_ms), resends),
        call_ensures(ClipboardPoll::sent_again, (sent, ok), ()),
        call_ensures(ClipboardPoll::observe, (looked, read, sentinel), done),
    ensures
        fresh.captured is None && !fresh.resent && fresh.post_ok == post_ok,
        goes_on <==> elapsed_ms < 450,
        resends <==> !poll.resent && elapsed_ms >= 150,
        ok ==> final(sent).resent && final(sent).post_ok,
        !ok ==> final(sent).resent == old(sent).resent && final(sent).post_ok == old(sent).post_ok,
        final(sent).captured == old(sent).captured,
        done <==> read is Some && read->0@ != sentinel@,
        final(looked).captured == read,
        final(looked).resent == old(looked).resent && final(looked).post_ok == old(looked).post_ok,
{
}

/// The names of the reasons, as they stand in a log.
pub proof fn every_reason_has_its_name(reason: SelectionCaptureMissReason, r: &'static str)
    requires
        call_ensures(SelectionCaptureMissReason::as_str, (reason,), r),
    ensures
        reason is Captured ==> r@ == "ok"@,
        reason is PrefetchHit ==> r@ == "prefetch_hit"@,
        reason is PrefetchMissLiveOk ==> r@ == "prefetch_miss_live_ok"@,
        reason is ClipboardInitFailed ==> r@ == "clipboard_init_failed"@,
        reason is ClipboardSentinelWriteFailed ==> r@ == "clipboard_sentinel_write_failed"@,
        reason is CopyShortcutFailed ==> r@ == "copy_shortcut_failed"@,
        reason is ClipboardUnchangedSentinel ==> r@ == "clipboard_unchanged_sentinel"@,
        reason is ClipboardEmptyAfterCopy ==> r@ == "clipboard_empty_after_copy"@,
        reason is ClipboardReadFailed ==> r@ == "clipboard_read_failed"@,
        reason is EmptyTrimmed ==> r@ == "empty_trimmed"@,
        reason is NoCapturePath ==> r@ == "no_capture_path"@,
{
}

/// A summary names the reason, what was used, how many characters there were and where they came
/// from, with a dash for what is not known.
pub proof fn summaries_name_every_part(
    diag: &SelectionCaptureDiag,
    reason: &'static str,
    count: u64,
    chars: String,
    r: String,
)
    requires
        call_ensures(SelectionCaptureMissReason::as_str, (diag.reason,), reason),
        call_ensures(text::to_decimal, (count,), chars),
        call_ensures(SelectionCaptureDiag::summary, (diag,), r),
        diag.char_count is Some ==> diag.char_count->0 == count,
    ensures
        r@ == "reason="@ + reason@ + " used_prefetch="@ + (if diag.used_prefetch {
            "true"@
        } else {
            "false"@
        }) + " target_captured="@ + (if diag.target_captured {
            "true"@
        } else {
            "false"@
        }) + " chars="@ + (if diag.char_count is Some {
            chars@
        } else {
            "-"@
        }) + " front_app="@ + (if diag.front_app is Some {
            diag.front_app->0@
        } else {
            "-"@
        }),
{
}

/// What is captured is what the way of the system gives: on Windows the copy, on macOS what is
/// accessible, unless it is blank, and the copy then, on Linux the selection itself. The short form
/// captures the same.
pub proof fn selections_are_captured_by_the_way_of_the_system<
    A: FnOnce() -> Option<String>,
    C: FnOnce() -> Result<String, SelectionCaptureMissReason>,
    L: FnOnce() -> LinuxSelectionRead,
>(
    source_app: Option<String>,
    target: TargetOs,
    accessible: A,
    copy: C,
    primary: L,
    direct: Option<String>,
    normalized: Option<String>,
    copied: Result<String, SelectionCaptureMissReason>,
    by_copy: (SelectionCaptureOutcome, SelectionCaptureMissReason),
    read: LinuxSelectionRead,
    on_linux: (SelectionCaptureOutcome, SelectionCaptureMissReason),
    r: (SelectionCaptureOutcome, SelectionCaptureMissReason),
    short: SelectionCaptureOutcome,
)
    requires
        forall|x: Option<String>| #[trigger] call_ensures(accessible, (), x) ==> x == direct,
        forall|x: Result<String, SelectionCaptureMissReason>| #[trigger]
            call_ensures(copy, (), x) ==> x == copied,
        forall|x: LinuxSelectionRead| #[trigger] call_ensures(primary, (), x) ==> x == read,
        call_ensures(normalized_selection, (&direct,), normalized),
        call_ensures(selection_from_copy, (copied, source_app), by_copy),
        call_ensures(selection_on_linux, (read, source_app), on_linux),
        call_ensures(
            capture_selection_with_status_diag::<A, C, L>,
            (source_app, target, accessible, copy, primary),
            r,
        ),
        call_ensures(
            capture_selection_with_status::<A, C, L>,
            (source_app, target, accessible, copy, primary),
            short,
        ),
    ensures
        target is Windows || target is Macos && normalized is None ==> r.1 == by_copy.1 && (
        r.0.selection is Some <==> by_copy.0.selection is Some),
        (target is Windows || target is Macos && normalized is None) && r.0.selection is Some
            ==> r.0.selection->0.text@ == by_copy.0.selection->0.text@,
        target is Macos && normalized is Some ==> r.1 is Captured && r.0.selection is Some
            && r.0.selection->0.text@ == normalized->0@ && r.0.selection->0.source_app
            == source_app,
        target is Linux ==> r.1 == on_linux.1 && (r.0.selection is Some <==> on_linux.0.selection
            is Some),
        target is Linux && r.0.selection is Some ==> r.0.selection->0.text@
            == on_linux.0.selection->0.text@,
        short.selection is Some <==> r.0.selection is Some,
        short.selection is Some ==> short.selection->0.text@ == r.0.selection->0.text@
            && short.selection->0.source_app == source_app,
{
    let reason = choose|reason: SelectionCaptureMissReason| #[trigger]
        captured_on(target, accessible, copy, primary, source_app, (short, reason));
    assert(captured_on(target, accessible, copy, primary, source_app, r));
    if target is Windows || target is Macos && normalized is None {
        assert(captured_by_copy(copy, source_app, r));
        assert(captured_by_copy(copy, source_app, (short, reason)));
        assert(captures(r, source_app, capture_by_copy(copied)));
        assert(captures((short, reason), source_app, capture_by_copy(copied)));
    }
    assert(short.selected() == r.0.selected());
}

/// The selection on Linux is read from whatever was replied.
pub proof fn linux_selections_are_read_from_the_reply<F: FnOnce() -> Result<String, String>>(
    ask: F,
    reply: Result<String, String>,
    classified: LinuxSelectionRead,
    r: LinuxSelectionRead,
)
    requires
        forall|x: Result<String, String>| #[trigger] call_ensures(ask, (), x) ==> x == reply,
        call_ensures(classify_selection_result, (reply,), classified),
        call_ensures(read_selected_text::<F>, (ask,), r),
    ensures
        r is NoSelection <==> classified is NoSelection,
        r is Text ==> r->Text_0@ == classified->Text_0@,
{
    assert(r.selected() == classified.selected());
}

/// Whatever way a text came, its selection is the text without the white space around it, cut to
/// size.
pub proof fn selections_are_trimmed_before_they_are_cut(
    text: String,
    whole: &str,
    core: &str,
    cut: String,
    normalized: Option<String>,
    source_app: Option<String>,
    copied: (SelectionCaptureOutcome, SelectionCaptureMissReason),
    on_linux: (SelectionCaptureOutcome, SelectionCaptureMissReason),
)
    requires
        whole@ == text@,
        call_ensures(trim, (whole,), core),
        core@.len() > 0,
        call_ensures(truncate_selection, (core,), cut),
        call_ensures(normalized_selection, (&Some(text),), normalized),
        call_ensures(selection_from_copy, (Ok(text), source_app), copied),
        call_ensures(selection_on_linux, (LinuxSelectionRead::Text(text), source_app), on_linux),
    ensures
        normalized is Some && normalized->0@ == cut@,
        copied.1 is Captured && copied.0.selection is Some && copied.0.selection->0.text@ == cut@
            && copied.0.selection->0.source_app == source_app,
        on_linux.1 is Captured && on_linux.0.selection is Some && on_linux.0.selection->0.text@
            == cut@ && on_linux.0.selection->0.source_app == source_app,
{
}

} // verus!
