//! Where a selection was read, and whether it is safe to paste there: the target is remembered
//! when the selection is read, and looked at again before anything replaces it.

use vstd::prelude::*;

use crate::platform::TargetOs;
use crate::selection::{
    self, normalized_selection, LinuxSelectionRead, SelectionCaptureDiag,
    SelectionCaptureMissReason, SelectionContext,
};
use crate::text::{self, same};

verus! {

/// The window and the control that had the focus on Windows. Another pane of the same application
/// may share the window, so both are remembered, with the processes and threads they belong to.
#[derive(Debug, Clone, Copy, PartialEq, Eq, Structural)]
pub struct WindowsSelectionTarget {
    pub foreground_window: usize,
    pub focused_window: usize,
    pub foreground_process_id: u32,
    pub foreground_thread_id: u32,
    pub focused_process_id: u32,
    pub focused_thread_id: u32,
}

/// The application that was in front on macOS.
#[derive(Debug, Clone, PartialEq, Eq)]
pub struct MacosSelectionTarget {
    pub front_app: Option<String>,
    pub front_app_pid: Option<i32>,
}

/// Where a selection was read.
#[derive(Debug, Clone, PartialEq, Eq)]
pub struct SelectionInsertionTarget {
    pub windows: Option<WindowsSelectionTarget>,
    pub macos: Option<MacosSelectionTarget>,
}

impl Default for SelectionInsertionTarget {
    fn default() -> (r: SelectionInsertionTarget)
        ensures
            r.windows is None,
            r.macos is None,
    {
        SelectionInsertionTarget { windows: None, macos: None }
    }
}

/// The control that has the focus: the one that the window's thread names, else the window.
pub fn focused_or_foreground(foreground: usize, named_by_thread: Option<usize>) -> (r: usize)
    ensures
        r == (match named_by_thread {
            Some(window) if window != 0 => window,
            _ => foreground,
        }),
{
    match named_by_thread {
        Some(window) if window != 0 => window,
        _ => foreground,
    }
}

/// The target on Windows, from what the system says of the window and the control. Where it cannot
/// say to whom they belong there is none.
pub fn windows_selection_target(seen: WindowsSelectionTarget) -> (r: Option<
    WindowsSelectionTarget,
>)
    ensures
        r == (if seen.foreground_window == 0 || seen.foreground_process_id == 0
            || seen.foreground_thread_id == 0 || seen.focused_process_id == 0
            || seen.focused_thread_id == 0 {
            None
        } else {
            Some(seen)
        }),
{
    if seen.foreground_window == 0 || seen.foreground_process_id == 0 || seen.foreground_thread_id
        == 0 || seen.focused_process_id == 0 || seen.focused_thread_id == 0 {
        None
    } else {
        Some(seen)
    }
}

/// The target to remember on the platform; `windows` and `macos` are what the system says there.
pub fn capture_selection_insertion_target(
    windows: Option<WindowsSelectionTarget>,
    macos: MacosSelectionTarget,
    target: TargetOs,
) -> (r: SelectionInsertionTarget)
    ensures
        r.windows == (if target is Windows {
            windows
        } else {
            None
        }),
        r.macos == (if target is Macos {
            Some(macos)
        } else {
            None
        }),
{
    match target {
        TargetOs::Windows => SelectionInsertionTarget { windows, macos: None },
        TargetOs::Macos => SelectionInsertionTarget { windows: None, macos: Some(macos) },
        _ => SelectionInsertionTarget { windows: None, macos: None },
    }
}

/// Enough is known of the target to replace the selection there later. Linux and the mobile
/// systems compare the selection alone.
pub open spec fn is_captured(at: SelectionInsertionTarget, target: TargetOs) -> bool {
    match target {
        TargetOs::Windows => at.windows is Some,
        TargetOs::Macos => at.macos is Some,
        _ => true,
    }
}

/// Whether enough is known of the target to replace the selection there later.
pub fn selection_insertion_target_is_captured(at: &SelectionInsertionTarget, target: TargetOs) -> (
    r: bool)
    ensures
        r == is_captured(*at, target),
{
    match target {
        TargetOs::Windows => at.windows.is_some(),
        TargetOs::Macos => at.macos.is_some(),
        _ => true,
    }
}

/// Whether the target is still what it was.
#[derive(Debug, Clone, Copy, PartialEq, Eq, Structural)]
pub enum SelectionInsertionTargetValidation {
    Valid,
    TargetUnavailable,
    TargetChanged,
    SelectionChanged,
}

impl SelectionInsertionTargetValidation {
    /// What the capsule is told; nothing where the target is valid.
    pub open spec fn code(self) -> Option<Seq<char>> {
        match self {
            SelectionInsertionTargetValidation::Valid => None,
            SelectionInsertionTargetValidation::TargetUnavailable => Some(
                "selectionPolishTargetUnavailable"@,
            ),
            SelectionInsertionTargetValidation::TargetChanged => Some(
                "selectionPolishTargetChanged"@,
            ),
            SelectionInsertionTargetValidation::SelectionChanged => Some(
                "selectionPolishSelectionChanged"@,
            ),
        }
    }

    pub fn error_code(self) -> (r: Option<&'static str>)
        ensures
            match r {
                Some(code) => self.code() == Some(code@),
                None => self.code() is None,
            },
    {
        match self {
            SelectionInsertionTargetValidation::Valid => None,
            SelectionInsertionTargetValidation::TargetUnavailable => Some(
                "selectionPolishTargetUnavailable",
            ),
            SelectionInsertionTargetValidation::TargetChanged => Some(
                "selectionPolishTargetChanged",
            ),
            SelectionInsertionTargetValidation::SelectionChanged => Some(
                "selectionPolishSelectionChanged",
            ),
        }
    }
}

/// Whether the selection is still the text that was read.
pub fn selection_text_matches(expected: &str, actual: Option<&str>) -> (r: bool)
    ensures
        r == (actual matches Some(a) && a@ == expected@),
{
    match actual {
        Some(a) => same(a, expected),
        None => false,
    }
}

/// Whether the focus is still where it was, to the control.
pub fn windows_selection_targets_match(
    captured: WindowsSelectionTarget,
    current: WindowsSelectionTarget,
) -> (r: bool)
    ensures
        r == (captured == current),
{
    captured == current
}

/// The same text, where both are one.
fn same_label(expected: &str, actual: &Option<String>) -> (r: bool)
    ensures
        r == (text::optional_text(*actual) == Some(expected@)),
{
    match actual {
        Some(a) => same(a.as_str(), expected),
        None => false,
    }
}

/// What a look at the focus on Windows comes to, where nothing else is in doubt.
pub open spec fn window_verdict(
    captured: WindowsSelectionTarget,
    seen: Option<WindowsSelectionTarget>,
) -> SelectionInsertionTargetValidation {
    match seen {
        None => SelectionInsertionTargetValidation::TargetUnavailable,
        Some(s) => if s == captured {
            SelectionInsertionTargetValidation::Valid
        } else {
            SelectionInsertionTargetValidation::TargetChanged
        },
    }
}

/// What a look at the focus on Windows comes to, where nothing else is in doubt.
pub fn verdict_on_window(captured: WindowsSelectionTarget, seen: Option<WindowsSelectionTarget>) -> (
    r: SelectionInsertionTargetValidation)
    ensures
        r == window_verdict(captured, seen),
{
    match seen {
        None => SelectionInsertionTargetValidation::TargetUnavailable,
        Some(s) => if windows_selection_targets_match(captured, s) {
            SelectionInsertionTargetValidation::Valid
        } else {
            SelectionInsertionTargetValidation::TargetChanged
        },
    }
}

/// The application in front on macOS is not found to be another one than that which was there.
pub open spec fn front_app_unchanged(captured: MacosSelectionTarget, now: Option<String>) -> bool {
    captured.front_app is Some ==> text::optional_text(now) == text::optional_text(
        captured.front_app,
    )
}

/// The selection was read again, and it is the expected one or not.
pub open spec fn reread<S: FnOnce() -> Option<String>>(
    selected: S,
    expected: Seq<char>,
    same: bool,
) -> bool {
    exists|now: Option<String>| #[trigger]
        call_ensures(selected, (), now) && same == (text::optional_text(now) == Some(expected))
}

/// The focus was looked at, and this is the verdict.
pub open spec fn looked<W: FnOnce() -> Option<WindowsSelectionTarget>>(
    window: W,
    captured: WindowsSelectionTarget,
    verdict: SelectionInsertionTargetValidation,
) -> bool {
    exists|seen: Option<WindowsSelectionTarget>| #[trigger]
        call_ensures(window, (), seen) && verdict == window_verdict(captured, seen)
}

/// The verdict on Windows: `before` finds the focus where it was, `selected` then reads the
/// expected text, and `after` finds the focus where it was once more. What fails first decides.
pub open spec fn validated_on_windows<
    B: FnOnce() -> Option<WindowsSelectionTarget>,
    S: FnOnce() -> Option<String>,
    V: FnOnce() -> Option<WindowsSelectionTarget>,
>(
    captured: Option<WindowsSelectionTarget>,
    expected: Seq<char>,
    before: B,
    selected: S,
    after: V,
    r: SelectionInsertionTargetValidation,
) -> bool {
    match captured {
        None => r is TargetUnavailable,
        Some(c) => {
            ||| !(r is Valid) && looked(before, c, r)
            ||| {
                &&& looked(before, c, SelectionInsertionTargetValidation::Valid)
                &&& reread(selected, expected, false)
                &&& r is SelectionChanged
            }
            ||| {
                &&& looked(before, c, SelectionInsertionTargetValidation::Valid)
                &&& reread(selected, expected, true)
                &&& looked(after, c, r)
            }
        },
    }
}

/// The verdict on macOS: the application that was in front still is, where its name is known, and
/// the selection is the expected one.
pub open spec fn validated_on_macos<A: FnOnce() -> Option<String>, S: FnOnce() -> Option<String>>(
    captured: Option<MacosSelectionTarget>,
    expected: Seq<char>,
    front_app: A,
    selected: S,
    r: SelectionInsertionTargetValidation,
) -> bool {
    match captured {
        None => r is TargetUnavailable,
        Some(c) => exists|now: Option<String>| #[trigger]
            call_ensures(front_app, (), now) && if front_app_unchanged(c, now) {
                validated_by_text(expected, selected, r)
            } else {
                r is TargetChanged
            },
    }
}

/// The verdict where only the selection is compared.
pub open spec fn validated_by_text<S: FnOnce() -> Option<String>>(
    expected: Seq<char>,
    selected: S,
    r: SelectionInsertionTargetValidation,
) -> bool {
    ||| r is Valid && reread(selected, expected, true)
    ||| r is SelectionChanged && reread(selected, expected, false)
}

/// The verdict on the platform. The mobile systems have none.
pub open spec fn validated_on<
    B: FnOnce() -> Option<WindowsSelectionTarget>,
    A: FnOnce() -> Option<String>,
    S: FnOnce() -> Option<String>,
    V: FnOnce() -> Option<WindowsSelectionTarget>,
>(
    target: TargetOs,
    at: SelectionInsertionTarget,
    expected: Seq<char>,
    before: B,
    front_app: A,
    selected: S,
    after: V,
    r: SelectionInsertionTargetValidation,
) -> bool {
    match target {
        TargetOs::Windows => validated_on_windows(at.windows, expected, before, selected, after, r),
        TargetOs::Macos => validated_on_macos(at.macos, expected, front_app, selected, r),
        TargetOs::Linux => validated_by_text(expected, selected, r),
        _ => r is TargetUnavailable,
    }
}

/// Looks at the target and the selection again, right before something is pasted. `before`,
/// `front_app`, `selected` and `after` ask the system. Reading the selection may simulate a copy,
/// so it is asked for only once the target is found where it was, and on Windows a last look
/// follows it: the two looks fence the copy.
pub fn validate_selection_insertion_target<
    B: FnOnce() -> Option<WindowsSelectionTarget>,
    A: FnOnce() -> Option<String>,
    S: FnOnce() -> Option<String>,
    V: FnOnce() -> Option<WindowsSelectionTarget>,
>(
    at: &SelectionInsertionTarget,
    expected: &str,
    target: TargetOs,
    before: B,
    front_app: A,
    selected: S,
    after: V,
) -> (r: SelectionInsertionTargetValidation)
    requires
        target is Windows && at.windows is Some ==> call_requires(before, ()),
        target is Windows ==> forall|seen: Option<WindowsSelectionTarget>| #[trigger]
            call_ensures(before, (), seen) && at.windows is Some && seen == at.windows
                ==> call_requires(selected, ()),
        target is Windows ==> forall|seen: Option<WindowsSelectionTarget>, now: Option<String>|
            #![trigger call_ensures(before, (), seen), call_ensures(selected, (), now)]
            call_ensures(before, (), seen) && at.windows is Some && seen == at.windows
                && call_ensures(selected, (), now) && text::optional_text(now) == Some(expected@)
                ==> call_requires(after, ()),
        target is Macos && at.macos is Some ==> call_requires(front_app, ()),
        target is Macos ==> forall|now: Option<String>| #[trigger]
            call_ensures(front_app, (), now) && at.macos is Some && front_app_unchanged(
                at.macos->0,
                now,
            ) ==> call_requires(selected, ()),
        target is Linux ==> call_requires(selected, ()),
    ensures
        validated_on(target, *at, expected@, before, front_app, selected, after, r),
{
    match target {
        TargetOs::Windows => {
            let captured: WindowsSelectionTarget = match at.windows {
                Some(c) => c,
                None => return SelectionInsertionTargetValidation::TargetUnavailable,
            };
            let first: SelectionInsertionTargetValidation = verdict_on_window(captured, before());
            if first != SelectionInsertionTargetValidation::Valid {
                return first;
            }
            let now: Option<String> = selected();
            if !same_label(expected, &now) {
                return SelectionInsertionTargetValidation::SelectionChanged;
            }
            verdict_on_window(captured, after())
        },
        TargetOs::Macos => {
            let captured: &MacosSelectionTarget = match &at.macos {
                Some(c) => c,
                None => return SelectionInsertionTargetValidation::TargetUnavailable,
            };
            let front: Option<String> = front_app();
            if let Some(name) = &captured.front_app {
                if !same_label(name.as_str(), &front) {
                    return SelectionInsertionTargetValidation::TargetChanged;
                }
            }
            let now: Option<String> = selected();
            if same_label(expected, &now) {
                SelectionInsertionTargetValidation::Valid
            } else {
                SelectionInsertionTargetValidation::SelectionChanged
            }
        },
        TargetOs::Linux => {
            let now: Option<String> = selected();
            if same_label(expected, &now) {
                SelectionInsertionTargetValidation::Valid
            } else {
                SelectionInsertionTargetValidation::SelectionChanged
            }
        },
        _ => SelectionInsertionTargetValidation::TargetUnavailable,
    }
}

/// Nothing is pasted unless the selection, read again, was the expected text, and on Windows and
/// macOS unless the target was remembered. On Windows the focus was where it was both in the look
/// before the selection was read and in the look after it, and on macOS the application in front
/// was not found to be another one.
pub proof fn only_the_expected_selection_is_replaced<
    B: FnOnce() -> Option<WindowsSelectionTarget>,
    A: FnOnce() -> Option<String>,
    S: FnOnce() -> Option<String>,
    V: FnOnce() -> Option<WindowsSelectionTarget>,
>(
    target: TargetOs,
    at: SelectionInsertionTarget,
    expected: Seq<char>,
    before: B,
    front_app: A,
    selected: S,
    after: V,
    r: SelectionInsertionTargetValidation,
)
    requires
        validated_on(target, at, expected, before, front_app, selected, after, r),
        r is Valid,
    ensures
        reread(selected, expected, true),
        is_captured(at, target),
        target is Windows ==> call_ensures(before, (), at.windows) && call_ensures(
            after,
            (),
            at.windows,
        ),
        target is Macos ==> exists|now: Option<String>| #[trigger]
            call_ensures(front_app, (), now) && front_app_unchanged(at.macos->0, now),
{
}

/// The selection for the check on Windows: what a simulated copy gives.
pub fn selected_text_for_validation(copied: Result<String, SelectionCaptureMissReason>) -> (r:
    Option<String>)
    ensures
        text::optional_text(r) == selection::as_selection(
            match copied {
                Ok(t) => Some(t@),
                Err(_) => None,
            },
        ),
{
    match copied {
        Ok(t) => normalized_selection(&Some(t)),
        Err(_) => None,
    }
}

/// The selection for the check on Linux.
pub fn linux_text_for_validation(read: LinuxSelectionRead) -> (r: Option<String>)
    ensures
        text::optional_text(r) == selection::as_selection(read.selected()),
{
    match read {
        LinuxSelectionRead::Text(t) => normalized_selection(&Some(t)),
        LinuxSelectionRead::NoSelection => None,
    }
}

/// A copy gave this text.
pub open spec fn copy_gave<C: FnOnce() -> Result<String, SelectionCaptureMissReason>>(
    copy: C,
    text: Option<Seq<char>>,
) -> bool {
    exists|copied: Result<String, SelectionCaptureMissReason>| #[trigger]
        call_ensures(copy, (), copied) && text == (match copied {
            Ok(t) => Some(t@),
            Err(_) => None,
        })
}

/// A copy is simulated only where the accessibility interface has no selection, and once more only
/// where that fails.
pub open spec fn may_read_again<
    C: FnOnce() -> Result<String, SelectionCaptureMissReason>,
    D: FnOnce() -> Result<String, SelectionCaptureMissReason>,
>(direct: Option<String>, copy: C, retry: D) -> bool {
    selection::as_selection(text::optional_text(direct)) is None ==> {
        &&& call_requires(copy, ())
        &&& forall|copied: Result<String, SelectionCaptureMissReason>| #[trigger]
            call_ensures(copy, (), copied) && copied is Err ==> call_requires(retry, ())
    }
}

/// `r` is the selection that macOS gives.
pub open spec fn read_again<
    C: FnOnce() -> Result<String, SelectionCaptureMissReason>,
    D: FnOnce() -> Result<String, SelectionCaptureMissReason>,
>(direct: Option<String>, copy: C, retry: D, r: Option<String>) -> bool {
    match selection::as_selection(text::optional_text(direct)) {
        Some(s) => text::optional_text(r) == Some(s),
        None => {
            ||| exists|t: Seq<char>| #[trigger]
                copy_gave(copy, Some(t)) && text::optional_text(r) == selection::as_selection(
                    Some(t),
                )
            ||| copy_gave(copy, None) && exists|t: Option<Seq<char>>| #[trigger]
                copy_gave(retry, t) && text::optional_text(r) == selection::as_selection(t)
        },
    }
}

/// The selection for the check on macOS: what the accessibility interface has, else what a
/// simulated copy gives, tried again once where it fails.
pub fn read_selection_for_validation<
    C: FnOnce() -> Result<String, SelectionCaptureMissReason>,
    D: FnOnce() -> Result<String, SelectionCaptureMissReason>,
>(direct: Option<String>, copy: C, retry: D) -> (r: Option<String>)
    requires
        may_read_again(direct, copy, retry),
    ensures
        read_again(direct, copy, retry, r),
{
    if let Some(s) = normalized_selection(&direct) {
        return Some(s);
    }
    let copied: Result<String, SelectionCaptureMissReason> = copy();
    match copied {
        Ok(t) => {
            assert(copy_gave(copy, Some(t@)));
            normalized_selection(&Some(t))
        },
        Err(_) => {
            assert(copy_gave(copy, None));
            let again: Result<String, SelectionCaptureMissReason> = retry();
            match again {
                Ok(t) => {
                    assert(copy_gave(retry, Some(t@)));
                    normalized_selection(&Some(t))
                },
                Err(_) => {
                    assert(copy_gave(retry, None));
                    None
                },
            }
        },
    }
}

/// What may be asked of the platform for the selection, which is read again for the check.
pub open spec fn may_reread_on<
    A: FnOnce() -> Option<String>,
    C: FnOnce() -> Result<String, SelectionCaptureMissReason>,
    D: FnOnce() -> Result<String, SelectionCaptureMissReason>,
    L: FnOnce() -> LinuxSelectionRead,
>(target: TargetOs, accessible: A, copy: C, retry: D, primary: L) -> bool {
    match target {
        TargetOs::Windows => call_requires(copy, ()),
        TargetOs::Macos => call_requires(accessible, ()) && forall|direct: Option<String>|
            #[trigger] call_ensures(accessible, (), direct) ==> may_read_again(
                direct,
                copy,
                retry,
            ),
        TargetOs::Linux => call_requires(primary, ()),
        _ => true,
    }
}

/// `r` is the selection that the platform gives for the check.
pub open spec fn reread_on<
    A: FnOnce() -> Option<String>,
    C: FnOnce() -> Result<String, SelectionCaptureMissReason>,
    D: FnOnce() -> Result<String, SelectionCaptureMissReason>,
    L: FnOnce() -> LinuxSelectionRead,
>(target: TargetOs, accessible: A, copy: C, retry: D, primary: L, r: Option<String>) -> bool {
    match target {
        TargetOs::Windows => exists|t: Option<Seq<char>>| #[trigger]
            copy_gave(copy, t) && text::optional_text(r) == selection::as_selection(t),
        TargetOs::Macos => exists|direct: Option<String>| #[trigger]
            call_ensures(accessible, (), direct) && read_again(direct, copy, retry, r),
        TargetOs::Linux => exists|read: LinuxSelectionRead| #[trigger]
            call_ensures(primary, (), read) && text::optional_text(r) == selection::as_selection(
                read.selected(),
            ),
        _ => r is None,
    }
}

/// Reads the selection again, in the form in which it was read first.
pub fn reread_selection<
    A: FnOnce() -> Option<String>,
    C: FnOnce() -> Result<String, SelectionCaptureMissReason>,
    D: FnOnce() -> Result<String, SelectionCaptureMissReason>,
    L: FnOnce() -> LinuxSelectionRead,
>(target: TargetOs, accessible: A, copy: C, retry: D, primary: L) -> (r: Option<String>)
    requires
        may_reread_on(target, accessible, copy, retry, primary),
    ensures
        reread_on(target, accessible, copy, retry, primary, r),
{
    match target {
        TargetOs::Windows => {
            let copied: Result<String, SelectionCaptureMissReason> = copy();
            assert(copy_gave(
                copy,
                match copied {
                    Ok(t) => Some(t@),
                    Err(_) => None,
                },
            ));
            selected_text_for_validation(copied)
        },
        TargetOs::Macos => {
            let direct: Option<String> = accessible();
            read_selection_for_validation(direct, copy, retry)
        },
        TargetOs::Linux => linux_text_for_validation(primary()),
        _ => None,
    }
}

/// Whether the focus is back where it was on Windows, after the window was brought to the front.
/// Windows may refuse that, so only the very same target counts.
pub fn windows_target_is_back(
    captured: Option<WindowsSelectionTarget>,
    seen: Option<WindowsSelectionTarget>,
) -> (r: bool)
    ensures
        r == (captured is Some && seen == captured),
{
    match captured {
        None => false,
        Some(c) => match seen {
            Some(s) => s == c,
            None => false,
        },
    }
}

/// How often an application is asked to come to the front on macOS.
pub const REACTIVATE_ATTEMPTS: usize = 4;

/// What comes after an attempt to bring an application to the front on macOS.
#[derive(Debug, Clone, Copy, PartialEq, Eq, Structural)]
pub enum ReactivateStep {
    /// It is in front.
    Done,
    /// It is not, and was asked often enough.
    Failed,
    /// It is not, and is asked once more.
    Again,
}

/// What comes after the attempt that `tried` others came before, where `seen` is then in front.
pub open spec fn after_reactivate_attempt(tried: int, seen: Option<i32>, pid: i32) -> ReactivateStep {
    if seen == Some(pid) {
        ReactivateStep::Done
    } else if tried + 1 >= REACTIVATE_ATTEMPTS {
        ReactivateStep::Failed
    } else {
        ReactivateStep::Again
    }
}

/// What comes after the attempt that `tried` others came before, where `seen` is then in front.
pub fn reactivate_step(tried: usize, seen: Option<i32>, pid: i32) -> (r: ReactivateStep)
    ensures
        r == after_reactivate_attempt(tried as int, seen, pid),
{
    if let Some(front) = seen {
        if front == pid {
            return ReactivateStep::Done;
        }
    }
    if tried >= REACTIVATE_ATTEMPTS - 1 {
        ReactivateStep::Failed
    } else {
        ReactivateStep::Again
    }
}

/// The attempts to bring `pid` to the front, numbered from 0 on, and what each one saw: each but
/// the last asks for another one, and the last decides.
pub open spec fn reactivated<F: Fn(usize, i32) -> Option<i32>>(
    attempt: F,
    pid: i32,
    seen: Seq<Option<i32>>,
    r: bool,
) -> bool {
    &&& 1 <= seen.len() <= REACTIVATE_ATTEMPTS
    &&& forall|i: int|
        0 <= i < seen.len() ==> call_ensures(attempt, (i as usize, pid), #[trigger] seen[i])
    &&& forall|i: int|
        0 <= i < seen.len() - 1 ==> after_reactivate_attempt(i, #[trigger] seen[i], pid) is Again
    &&& after_reactivate_attempt(seen.len() - 1, seen.last(), pid) == (if r {
        ReactivateStep::Done
    } else {
        ReactivateStep::Failed
    })
}

/// The process of the application that was in front on macOS.
pub open spec fn remembered_pid(captured: Option<MacosSelectionTarget>) -> Option<i32> {
    match captured {
        Some(c) => c.front_app_pid,
        None => None,
    }
}

/// It is the turn of the attempt that `tried` others came before: it is the first one, or the one
/// before it asks for another.
pub open spec fn may_attempt<F: Fn(usize, i32) -> Option<i32>>(
    attempt: F,
    pid: i32,
    tried: usize,
) -> bool {
    tried == 0 || exists|seen: Option<i32>| #[trigger]
        call_ensures(attempt, ((tried - 1) as usize, pid), seen) && after_reactivate_attempt(
            tried - 1,
            seen,
            pid,
        ) is Again
}

/// Brings the application that was in front on macOS back there. `attempt` asks it to come, waits
/// a moment and says which application is in front; it is told how many attempts came before.
pub fn reactivate_on_macos<F: Fn(usize, i32) -> Option<i32>>(
    captured: &Option<MacosSelectionTarget>,
    attempt: F,
) -> (r: bool)
    requires
        forall|tried: usize, pid: i32|
            remembered_pid(*captured) == Some(pid) && may_attempt(attempt, pid, tried)
                ==> #[trigger] call_requires(attempt, (tried, pid)),
    ensures
        remembered_pid(*captured) is None ==> !r,
        remembered_pid(*captured) matches Some(pid) ==> exists|seen: Seq<Option<i32>>| #[trigger]
            reactivated(attempt, pid, seen, r),
{
    let pid: i32 = match captured {
        None => return false,
        Some(c) => match c.front_app_pid {
            None => return false,
            Some(pid) => pid,
        },
    };
    let ghost mut seen: Seq<Option<i32>> = Seq::empty();
    let mut tried: usize = 0;
    loop
        invariant
            tried < REACTIVATE_ATTEMPTS,
            seen.len() == tried,
            remembered_pid(*captured) == Some(pid),
            may_attempt(attempt, pid, tried),
            forall|t: usize, p: i32|
                remembered_pid(*captured) == Some(p) && may_attempt(attempt, p, t)
                    ==> #[trigger] call_requires(attempt, (t, p)),
            forall|i: int|
                0 <= i < seen.len() ==> call_ensures(attempt, (i as usize, pid), #[trigger] seen[i]),
            forall|i: int|
                0 <= i < seen.len() ==> after_reactivate_attempt(i, #[trigger] seen[i], pid) is Again,
        decreases REACTIVATE_ATTEMPTS - tried,
    {
        let front: Option<i32> = attempt(tried, pid);
        proof {
            seen = seen.push(front);
        }
        match reactivate_step(tried, front, pid) {
            ReactivateStep::Done => {
                assert(reactivated(attempt, remembered_pid(*captured)->0, seen, true));
                return true;
            },
            ReactivateStep::Failed => {
                assert(reactivated(attempt, remembered_pid(*captured)->0, seen, false));
                return false;
            },
            ReactivateStep::Again => {
                tried += 1;
            },
        }
    }
}

/// What may be asked of the platform to bring the target back to the front.
pub open spec fn may_reactivate_on<
    W: FnOnce(WindowsSelectionTarget) -> Option<WindowsSelectionTarget>,
    F: Fn(usize, i32) -> Option<i32>,
>(target: TargetOs, at: SelectionInsertionTarget, restore: W, attempt: F) -> bool {
    match target {
        TargetOs::Windows => at.windows matches Some(c) ==> call_requires(restore, (c,)),
        TargetOs::Macos => forall|tried: usize, pid: i32|
            remembered_pid(at.macos) == Some(pid) && may_attempt(attempt, pid, tried)
                ==> #[trigger] call_requires(attempt, (tried, pid)),
        _ => true,
    }
}

/// Brings the target of a selection back to the front, after a preview has taken the focus.
/// `restore` asks Windows for the window, waits a moment and says what has the focus then;
/// `attempt` does so for an application on macOS. Elsewhere the focus need not come back.
pub fn reactivate_selection_insertion_target<
    W: FnOnce(WindowsSelectionTarget) -> Option<WindowsSelectionTarget>,
    F: Fn(usize, i32) -> Option<i32>,
>(at: &SelectionInsertionTarget, target: TargetOs, restore: W, attempt: F) -> (r: bool)
    requires
        may_reactivate_on(target, *at, restore, attempt),
    ensures
        match target {
            TargetOs::Windows => match at.windows {
                Some(c) => exists|seen: Option<WindowsSelectionTarget>| #[trigger]
                    call_ensures(restore, (c,), seen) && r == (seen == Some(c)),
                None => !r,
            },
            TargetOs::Macos => match remembered_pid(at.macos) {
                Some(pid) => exists|seen: Seq<Option<i32>>| #[trigger]
                    reactivated(attempt, pid, seen, r),
                None => !r,
            },
            _ => r,
        },
{
    match target {
        TargetOs::Windows => match at.windows {
            Some(c) => windows_target_is_back(at.windows, restore(c)),
            None => false,
        },
        TargetOs::Macos => reactivate_on_macos(&at.macos, attempt),
        _ => true,
    }
}

/// Whether the application that was in front on macOS still is, by its process and, where it is
/// known, by its name.
pub fn selection_target_still_front(
    captured: &Option<MacosSelectionTarget>,
    pid_now: Option<i32>,
    app_now: &Option<String>,
) -> (r: bool)
    ensures
        r == (match *captured {
            Some(c) => c.front_app_pid is Some && pid_now == c.front_app_pid && (c.front_app is Some
                ==> text::optional_text(*app_now) == text::optional_text(c.front_app)),
            None => false,
        }),
{
    let c: &MacosSelectionTarget = match captured {
        None => return false,
        Some(c) => c,
    };
    match (c.front_app_pid, pid_now) {
        (Some(pid), Some(now)) => if pid != now {
            return false;
        },
        _ => return false,
    }
    match &c.front_app {
        Some(name) => same_label(name.as_str(), app_now),
        None => true,
    }
}

/// The selection that was read when a shortcut was pressed, before the application could lose it.
#[derive(Debug, Clone, PartialEq, Eq)]
pub struct PrefetchedSelection {
    pub kept: Option<(SelectionContext, SelectionInsertionTarget)>,
}

impl PrefetchedSelection {
    pub fn new() -> (r: PrefetchedSelection)
        ensures
            r.kept is None,
    {
        PrefetchedSelection { kept: None }
    }

    /// Keeps what was read when the shortcut was pressed, in place of what was kept before.
    pub fn prefetch(&mut self, selection: Option<SelectionContext>, at: SelectionInsertionTarget)
        ensures
            final(self).kept == (match selection {
                Some(s) => Some((s, at)),
                None => None,
            }),
    {
        self.kept = match selection {
            Some(s) => Some((s, at)),
            None => None,
        };
    }

    /// Hands out what was kept, once.
    pub fn take(&mut self) -> (r: Option<(SelectionContext, SelectionInsertionTarget)>)
        ensures
            r == old(self).kept,
            final(self).kept is None,
    {
        let mut r: Option<(SelectionContext, SelectionInsertionTarget)> = None;
        std::mem::swap(&mut r, &mut self.kept);
        r
    }
}

/// Whether the platform reads the selection ahead.
pub fn prefetches(target: TargetOs) -> (r: bool)
    ensures
        r == (target is Macos || target is Windows),
{
    target == TargetOs::Macos || target == TargetOs::Windows
}

fn copy_label(label: &Option<String>) -> (r: Option<String>)
    ensures
        r == *label,
{
    match label {
        Some(l) => Some(l.clone()),
        None => None,
    }
}

/// What the log keeps of a selection that was read ahead.
pub open spec fn is_prefetch_diag(
    diag: SelectionCaptureDiag,
    selection: SelectionContext,
    at: SelectionInsertionTarget,
    target: TargetOs,
) -> bool {
    &&& diag.reason is PrefetchHit
    &&& diag.front_app == selection.source_app
    &&& diag.used_prefetch
    &&& diag.target_captured == is_captured(at, target)
    &&& diag.char_count matches Some(n) && n == selection.text@.len()
}

/// What the log keeps of a selection that was read on demand.
pub open spec fn is_live_diag(
    diag: SelectionCaptureDiag,
    read: LiveSelection,
    target: TargetOs,
) -> bool {
    &&& !diag.used_prefetch
    &&& diag.target_captured == is_captured(read.at, target)
    &&& diag.reason == (if read.selection is Some && read.reason is Captured && (target is Macos
        || target is Windows) {
        SelectionCaptureMissReason::PrefetchMissLiveOk
    } else {
        read.reason
    })
    &&& match read.selection {
        Some(s) => diag.front_app == s.source_app && (diag.char_count matches Some(n) && n
            == s.text@.len()),
        None => diag.front_app == read.front_app && diag.char_count is None,
    }
}

fn prefetch_diag(selection: &SelectionContext, at: &SelectionInsertionTarget, target: TargetOs) -> (
    r: SelectionCaptureDiag)
    ensures
        is_prefetch_diag(r, *selection, *at, target),
{
    let count: usize = selection.text.as_str().unicode_len();
    SelectionCaptureDiag {
        reason: SelectionCaptureMissReason::PrefetchHit,
        front_app: copy_label(&selection.source_app),
        used_prefetch: true,
        target_captured: selection_insertion_target_is_captured(at, target),
        char_count: Some(count),
    }
}

fn live_diag(read: &LiveSelection, target: TargetOs) -> (r: SelectionCaptureDiag)
    ensures
        is_live_diag(r, *read, target),
{
    let reason: SelectionCaptureMissReason = if read.selection.is_some() && read.reason
        == SelectionCaptureMissReason::Captured && prefetches(target) {
        SelectionCaptureMissReason::PrefetchMissLiveOk
    } else {
        read.reason
    };
    let target_captured: bool = selection_insertion_target_is_captured(&read.at, target);
    match &read.selection {
        Some(s) => SelectionCaptureDiag {
            reason,
            front_app: copy_label(&s.source_app),
            used_prefetch: false,
            target_captured,
            char_count: Some(s.text.as_str().unicode_len()),
        },
        None => SelectionCaptureDiag {
            reason,
            front_app: copy_label(&read.front_app),
            used_prefetch: false,
            target_captured,
            char_count: None,
        },
    }
}

/// What was read on demand.
#[derive(Debug, Clone, PartialEq, Eq)]
pub struct LiveSelection {
    pub at: SelectionInsertionTarget,
    pub selection: Option<SelectionContext>,
    pub reason: SelectionCaptureMissReason,
    /// The label of the application, for where nothing was read.
    pub front_app: Option<String>,
}

/// The selection was read on demand, and this is what it came to.
pub open spec fn resolved_live<L: FnOnce() -> LiveSelection>(
    live: L,
    target: TargetOs,
    r: (Option<SelectionContext>, SelectionInsertionTarget, SelectionCaptureDiag),
) -> bool {
    exists|read: LiveSelection| #[trigger]
        call_ensures(live, (), read) && r.0 == read.selection && r.1 == read.at && is_live_diag(
            r.2,
            read,
            target,
        )
}

/// The selection to work on, with its target and a line for the log: the one that was read ahead,
/// which is then used up, else one that `live` reads now.
pub fn resolve_selection_workspace_capture_with_diag<L: FnOnce() -> LiveSelection>(
    prefetched: &mut PrefetchedSelection,
    target: TargetOs,
    live: L,
) -> (r: (Option<SelectionContext>, SelectionInsertionTarget, SelectionCaptureDiag))
    requires
        !(target is Macos || target is Windows) || old(prefetched).kept is None ==> call_requires(
            live,
            (),
        ),
    ensures
        target is Macos || target is Windows ==> match old(prefetched).kept {
            Some((selection, at)) => r.0 == Some(selection) && r.1 == at && is_prefetch_diag(
                r.2,
                selection,
                at,
                target,
            ),
            None => resolved_live(live, target, r),
        },
        !(target is Macos || target is Windows) ==> resolved_live(live, target, r),
        final(prefetched).kept == (if target is Macos || target is Windows {
            None
        } else {
            old(prefetched).kept
        }),
{
    if prefetches(target) {
        if let Some((selection, at)) = prefetched.take() {
            let diag: SelectionCaptureDiag = prefetch_diag(&selection, &at, target);
            return (Some(selection), at, diag);
        }
    }
    let read: LiveSelection = live();
    let ghost said = read;
    let diag: SelectionCaptureDiag = live_diag(&read, target);
    let r: (Option<SelectionContext>, SelectionInsertionTarget, SelectionCaptureDiag) = (
        read.selection,
        read.at,
        diag,
    );
    proof {
        assert(call_ensures(live, (), said));
    }
    r
}

/// The selection to work on, with its target.
pub fn resolve_selection_workspace_capture<L: FnOnce() -> LiveSelection>(
    prefetched: &mut PrefetchedSelection,
    target: TargetOs,
    live: L,
) -> (r: (Option<SelectionContext>, SelectionInsertionTarget))
    requires
        !(target is Macos || target is Windows) || old(prefetched).kept is None ==> call_requires(
            live,
            (),
        ),
    ensures
        (target is Macos || target is Windows) && old(prefetched).kept is Some ==> (
            r.0 == Some((old(prefetched).kept->0).0) && r.1 == (old(prefetched).kept->0).1),
        !(target is Macos || target is Windows) || old(prefetched).kept is None ==> exists|
            diag: SelectionCaptureDiag,
        | #[trigger]
            resolved_live(live, target, (r.0, r.1, diag)),
        final(prefetched).kept == (if target is Macos || target is Windows {
            None
        } else {
            old(prefetched).kept
        }),
{
    let resolved: (Option<SelectionContext>, SelectionInsertionTarget, SelectionCaptureDiag) =
        resolve_selection_workspace_capture_with_diag(prefetched, target, live);
    let ghost whole = resolved;
    let r: (Option<SelectionContext>, SelectionInsertionTarget) = (resolved.0, resolved.1);
    assert((r.0, r.1, whole.2) == whole);
    r
}

/// The text that is captured from what a copy gave is the text that is read from it later, when the
/// selection is looked at again, for everything that a copy can give.
pub proof fn copies_read_the_same_again(
    copied: Result<String, SelectionCaptureMissReason>,
    source_app: Option<String>,
    captured: (selection::SelectionCaptureOutcome, SelectionCaptureMissReason),
    again: Option<String>,
)
    requires
        call_ensures(selection::selection_from_copy, (copied, source_app), captured),
        call_ensures(selected_text_for_validation, (copied,), again),
    ensures
        captured.0.selection is Some <==> again is Some,
        again matches Some(t) ==> captured.0.selection->0.text@ == t@,
{
}

/// The same for what the system gave on Linux.
pub proof fn linux_replies_read_the_same_again(
    reply: Result<String, String>,
    read: LinuxSelectionRead,
    source_app: Option<String>,
    captured: (selection::SelectionCaptureOutcome, SelectionCaptureMissReason),
    again: Option<String>,
)
    requires
        call_ensures(selection::classify_selection_result, (reply,), read),
        call_ensures(selection::selection_on_linux, (read, source_app), captured),
        call_ensures(linux_text_for_validation, (read,), again),
    ensures
        captured.0.selection is Some <==> again is Some,
        again matches Some(t) ==> captured.0.selection->0.text@ == t@,
{
    if reply is Ok {
        text::trimming_takes_all_white_space_at_the_ends(reply->Ok_0@);
    }
}

/// Where the system gives the same replies, a selection is read again as it was captured, on every
/// system and by every way. On Linux the reply has been told apart already, and a copy on macOS has
/// not failed, which would lead to a second one.
pub proof fn selections_read_the_same_again<
    A: FnOnce() -> Option<String>,
    C: FnOnce() -> Result<String, SelectionCaptureMissReason>,
    D: FnOnce() -> Result<String, SelectionCaptureMissReason>,
    L: FnOnce() -> LinuxSelectionRead,
>(
    source_app: Option<String>,
    target: TargetOs,
    accessible: A,
    copy: C,
    retry: D,
    primary: L,
    direct: Option<String>,
    copied: Result<String, SelectionCaptureMissReason>,
    reply: Result<String, String>,
    read: LinuxSelectionRead,
    captured: (selection::SelectionCaptureOutcome, SelectionCaptureMissReason),
    again: Option<String>,
)
    requires
        forall|x: Option<String>| #[trigger] call_ensures(accessible, (), x) ==> x == direct,
        forall|x: Result<String, SelectionCaptureMissReason>| #[trigger]
            call_ensures(copy, (), x) ==> x == copied,
        forall|x: LinuxSelectionRead| #[trigger] call_ensures(primary, (), x) ==> x == read,
        call_ensures(selection::classify_selection_result, (reply,), read),
        target is Macos ==> copied is Ok,
        call_ensures(
            selection::capture_selection_with_status_diag::<A, C, L>,
            (source_app, target, accessible, copy, primary),
            captured,
        ),
        call_ensures(
            reread_selection::<A, C, D, L>,
            (target, accessible, copy, retry, primary),
            again,
        ),
    ensures
        captured.0.selection is Some <==> again is Some,
        again matches Some(t) ==> captured.0.selection->0.text@ == t@,
{
    if reply is Ok {
        text::trimming_takes_all_white_space_at_the_ends(reply->Ok_0@);
    }
    assert(text::optional_text(again) == captured.0.selected());
}

/// What is read again has no white space at its ends, and a copy that failed gives nothing.
pub proof fn what_is_read_again_is_trimmed(
    copied: Result<String, SelectionCaptureMissReason>,
    from_copy: Option<String>,
    read: LinuxSelectionRead,
    on_linux: Option<String>,
)
    requires
        call_ensures(selected_text_for_validation, (copied,), from_copy),
        call_ensures(linux_text_for_validation, (read,), on_linux),
    ensures
        from_copy matches Some(t) ==> copied is Ok && t@.len() > 0 && !text::is_white_space(t@[0])
            && !text::is_white_space(t@.last()),
        on_linux matches Some(t) ==> read is Text && t@.len() > 0 && !text::is_white_space(t@[0])
            && !text::is_white_space(t@.last()),
        copied is Ok && from_copy is None ==> forall|i: int|
            0 <= i < copied->Ok_0@.len() ==> text::is_white_space(#[trigger] copied->Ok_0@[i]),
{
    if copied is Ok {
        selection::selections_begin_and_end_with_text(Some(copied->Ok_0@));
    }
    selection::selections_begin_and_end_with_text(read.selected());
}

/// A Windows target is one where every part is known; the focused window is the one that the thread
/// names, or the window in front where it names none.
pub proof fn windows_targets_are_complete_or_missing(
    foreground: usize,
    named: Option<usize>,
    focused: usize,
    seen: WindowsSelectionTarget,
    r: Option<WindowsSelectionTarget>,
)
    requires
        call_ensures(focused_or_foreground, (foreground, named), focused),
        call_ensures(windows_selection_target, (seen,), r),
    ensures
        named is Some && named->0 != 0 ==> focused == named->0,
        named is None || named->0 == 0 ==> focused == foreground,
        r is Some <==> seen.foreground_window != 0 && seen.foreground_process_id != 0
            && seen.foreground_thread_id != 0 && seen.focused_process_id != 0
            && seen.focused_thread_id != 0,
        r is Some ==> r->0 == seen,
{
}

/// The target of a system is captured on that system alone, where it has one; on a system that has
/// no targets nothing is missing.
pub proof fn targets_are_captured_on_their_own_system(
    windows: Option<WindowsSelectionTarget>,
    macos: MacosSelectionTarget,
    target: TargetOs,
    at: SelectionInsertionTarget,
    captured: bool,
    nothing: SelectionInsertionTarget,
)
    requires
        call_ensures(capture_selection_insertion_target, (windows, macos, target), at),
        call_ensures(selection_insertion_target_is_captured, (&at, target), captured),
        call_ensures(<SelectionInsertionTarget as Default>::default, (), nothing),
    ensures
        target is Windows ==> at.windows == windows && at.macos is None && captured == (windows
            is Some),
        target is Macos ==> at.windows is None && at.macos == Some(macos) && captured,
        !(target is Windows || target is Macos) ==> at.windows is None && at.macos is None
            && captured,
        nothing.windows is None && nothing.macos is None,
{
}

/// Two Windows targets match where all their parts do, and a text where it is there and the same.
pub proof fn targets_and_texts_match_part_by_part(
    captured: WindowsSelectionTarget,
    current: WindowsSelectionTarget,
    same_target: bool,
    expected: &str,
    actual: Option<&str>,
    same_text: bool,
)
    requires
        call_ensures(windows_selection_targets_match, (captured, current), same_target),
        call_ensures(selection_text_matches, (expected, actual), same_text),
    ensures
        same_target <==> captured.foreground_window == current.foreground_window
            && captured.focused_window == current.focused_window && captured.foreground_process_id
            == current.foreground_process_id && captured.foreground_thread_id
            == current.foreground_thread_id && captured.focused_process_id
            == current.focused_process_id && captured.focused_thread_id
            == current.focused_thread_id,
        same_text <==> actual is Some && actual->0@ == expected@,
{
}

/// What a look at the window says: nothing seen, something else seen, or the same.
pub proof fn windows_are_seen_again_or_not(
    captured: WindowsSelectionTarget,
    seen: Option<WindowsSelectionTarget>,
    verdict: SelectionInsertionTargetValidation,
    back: bool,
    code: Option<&'static str>,
)
    requires
        call_ensures(verdict_on_window, (captured, seen), verdict),
        call_ensures(windows_target_is_back, (Some(captured), seen), back),
        call_ensures(SelectionInsertionTargetValidation::error_code, (verdict,), code),
    ensures
        seen is None <==> verdict is TargetUnavailable,
        seen == Some(captured) <==> verdict is Valid,
        seen is Some && seen != Some(captured) <==> verdict is TargetChanged,
        back <==> verdict is Valid,
        code is None <==> verdict is Valid,
        verdict is TargetUnavailable ==> code->0@ == "selectionPolishTargetUnavailable"@,
        verdict is TargetChanged ==> code->0@ == "selectionPolishTargetChanged"@,
{
}

/// A changed selection has its own code, and no window is back that was never captured.
pub proof fn changed_selections_have_their_own_code(
    code: Option<&'static str>,
    seen: Option<WindowsSelectionTarget>,
    back: bool,
)
    requires
        call_ensures(
            SelectionInsertionTargetValidation::error_code,
            (SelectionInsertionTargetValidation::SelectionChanged,),
            code,
        ),
        call_ensures(windows_target_is_back, (None, seen), back),
    ensures
        code is Some && code->0@ == "selectionPolishSelectionChanged"@,
        !back,
{
}

/// A selection may be replaced where its target is as it was before and after, and the selection
/// is the one that was captured. `window`, `app` and `now` are what the system says at each look.
pub proof fn selections_are_replaced_only_where_nothing_changed<
    B: FnOnce() -> Option<WindowsSelectionTarget>,
    A: FnOnce() -> Option<String>,
    S: FnOnce() -> Option<String>,
    V: FnOnce() -> Option<WindowsSelectionTarget>,
>(
    at: &SelectionInsertionTarget,
    expected: &str,
    target: TargetOs,
    before: B,
    front_app: A,
    selected: S,
    after: V,
    window: Option<WindowsSelectionTarget>,
    window_after: Option<WindowsSelectionTarget>,
    app: Option<String>,
    now: Option<String>,
    r: SelectionInsertionTargetValidation,
)
    requires
        forall|x: Option<WindowsSelectionTarget>| #[trigger]
            call_ensures(before, (), x) ==> x == window,
        forall|x: Option<WindowsSelectionTarget>| #[trigger]
            call_ensures(after, (), x) ==> x == window_after,
        forall|x: Option<String>| #[trigger] call_ensures(front_app, (), x) ==> x == app,
        forall|x: Option<String>| #[trigger] call_ensures(selected, (), x) ==> x == now,
        call_ensures(
            validate_selection_insertion_target::<B, A, S, V>,
            (at, expected, target, before, front_app, selected, after),
            r,
        ),
    ensures
        target is Windows ==> {
            &&& r is Valid <==> at.windows is Some && window == at.windows && window_after
                == at.windows && now is Some && now->0@ == expected@
            &&& at.windows is None || window is None ==> r is TargetUnavailable
            &&& at.windows is Some && window is Some && window != at.windows ==> r is TargetChanged
            &&& at.windows is Some && window == at.windows && (now is None || now->0@ != expected@)
                ==> r is SelectionChanged
            &&& at.windows is Some && window == at.windows && now is Some && now->0@ == expected@
                && window_after is None ==> r is TargetUnavailable
            &&& at.windows is Some && window == at.windows && now is Some && now->0@ == expected@
                && window_after is Some && window_after != at.windows ==> r is TargetChanged
        },
        target is Macos ==> {
            &&& at.macos is None ==> r is TargetUnavailable
            &&& at.macos is Some && at.macos->0.front_app is Some && (app is None || app->0@
                != at.macos->0.front_app->0@) ==> r is TargetChanged
            &&& at.macos is Some && (at.macos->0.front_app is None || app is Some && app->0@
                == at.macos->0.front_app->0@) ==> (if now is Some && now->0@ == expected@ {
                r is Valid
            } else {
                r is SelectionChanged
            })
        },
        target is Linux ==> (if now is Some && now->0@ == expected@ {
            r is Valid
        } else {
            r is SelectionChanged
        }),
        !(target is Windows || target is Macos || target is Linux) ==> r is TargetUnavailable,
{
}

/// The application in front on macOS is brought back in at most four attempts: it is back where it
/// was seen in front, and given up after the fourth attempt that did not show it.
pub proof fn reactivation_is_tried_four_times(
    tried: usize,
    seen: Option<i32>,
    pid: i32,
    r: ReactivateStep,
)
    requires
        call_ensures(reactivate_step, (tried, seen, pid), r),
    ensures
        r is Done <==> seen == Some(pid),
        seen != Some(pid) && tried < 3 ==> r is Again,
        seen != Some(pid) && tried >= 3 ==> r is Failed,
{
}

/// Bringing back the target of a selection succeeds where the system then shows it. Without a
/// captured target it fails; on a system without targets there is nothing to bring back.
pub proof fn targets_are_brought_back_or_not<
    W: FnOnce(WindowsSelectionTarget) -> Option<WindowsSelectionTarget>,
    F: Fn(usize, i32) -> Option<i32>,
>(
    at: &SelectionInsertionTarget,
    target: TargetOs,
    restore: W,
    attempt: F,
    window: Option<WindowsSelectionTarget>,
    app: Option<i32>,
    r: bool,
)
    requires
        forall|c: WindowsSelectionTarget, x: Option<WindowsSelectionTarget>| #[trigger]
            call_ensures(restore, (c,), x) ==> x == window,
        forall|tried: usize, pid: i32, x: Option<i32>| #[trigger]
            call_ensures(attempt, (tried, pid), x) ==> x == app,
        call_ensures(
            reactivate_selection_insertion_target::<W, F>,
            (at, target, restore, attempt),
            r,
        ),
    ensures
        target is Windows ==> (r <==> at.windows is Some && window == at.windows),
        target is Macos ==> (r <==> at.macos is Some && at.macos->0.front_app_pid is Some && app
            == at.macos->0.front_app_pid),
        !(target is Windows || target is Macos) ==> r,
{
    if target is Macos && remembered_pid(at.macos) is Some {
        let pid = remembered_pid(at.macos)->0;
        let seen = choose|seen: Seq<Option<i32>>| #[trigger] reactivated(attempt, pid, seen, r);
        assert(call_ensures(attempt, ((seen.len() - 1) as usize, pid), seen[seen.len() - 1]));
    }
}

/// A captured application is still in front where its process is, and its name where one was seen.
pub proof fn the_front_application_is_known_by_process_and_name(
    captured: &Option<MacosSelectionTarget>,
    pid_now: Option<i32>,
    app_now: &Option<String>,
    r: bool,
)
    requires
        call_ensures(selection_target_still_front, (captured, pid_now, app_now), r),
    ensures
        r <==> captured is Some && captured->0.front_app_pid is Some && pid_now
            == captured->0.front_app_pid && (captured->0.front_app is None || app_now is Some
            && app_now->0@ == captured->0.front_app->0@),
{
}

/// A prefetched selection is handed out once, with the target that it was found at; prefetching
/// nothing drops what was kept.
pub proof fn prefetched_selections_are_handed_out_once(
    fresh: PrefetchedSelection,
    prefetched: &mut PrefetchedSelection,
    selection: Option<SelectionContext>,
    at: SelectionInsertionTarget,
    first: &mut PrefetchedSelection,
    taken: Option<(SelectionContext, SelectionInsertionTarget)>,
    second: &mut PrefetchedSelection,
    taken_again: Option<(SelectionContext, SelectionInsertionTarget)>,
)
    requires
        call_ensures(PrefetchedSelection::new, (), fresh),
        call_ensures(PrefetchedSelection::prefetch, (prefetched, selection, at), ()),
        *old(first) == *final(prefetched),
        call_ensures(PrefetchedSelection::take, (first,), taken),
        *old(second) == *final(first),
        call_ensures(PrefetchedSelection::take, (second,), taken_again),
    ensures
        fresh.kept is None,
        selection is Some ==> taken == Some((selection->0, at)),
        selection is None ==> taken is None,
        taken_again is None,
{
}

/// Where a selection was prefetched, on macOS and Windows, it is used, and used up, and the log says
/// so. Otherwise the selection is read now, and what was kept elsewhere stays.
pub proof fn prefetched_selections_are_used_first<L: FnOnce() -> LiveSelection>(
    prefetched: &mut PrefetchedSelection,
    target: TargetOs,
    live: L,
    read: LiveSelection,
    prefetching: bool,
    r: (Option<SelectionContext>, SelectionInsertionTarget, SelectionCaptureDiag),
)
    requires
        forall|x: LiveSelection| #[trigger] call_ensures(live, (), x) ==> x == read,
        call_ensures(prefetches, (target,), prefetching),
        call_ensures(
            resolve_selection_workspace_capture_with_diag::<L>,
            (prefetched, target, live),
            r,
        ),
    ensures
        prefetching <==> target is Macos || target is Windows,
        prefetching && old(prefetched).kept is Some ==> {
            &&& r.0 == Some((old(prefetched).kept->0).0)
            &&& r.1 == (old(prefetched).kept->0).1
            &&& r.2.used_prefetch && r.2.reason is PrefetchHit
            &&& r.2.char_count is Some && r.2.char_count->0 == r.0->0.text@.len()
            &&& r.2.front_app == r.0->0.source_app
        },
        !prefetching || old(prefetched).kept is None ==> {
            &&& r.0 == read.selection && r.1 == read.at
            &&& !r.2.used_prefetch
            &&& prefetching && read.selection is Some && read.reason is Captured ==> r.2.reason
                is PrefetchMissLiveOk
            &&& !prefetching || read.selection is None || !(read.reason is Captured) ==> r.2.reason
                == read.reason
            &&& read.selection is Some ==> r.2.char_count is Some && r.2.char_count->0
                == read.selection->0.text@.len() && r.2.front_app == read.selection->0.source_app
            &&& read.selection is None ==> r.2.char_count is None && r.2.front_app
                == read.front_app
        },
        target is Windows ==> r.2.target_captured == (r.1.windows is Some),
        target is Macos ==> r.2.target_captured == (r.1.macos is Some),
        !prefetching ==> r.2.target_captured,
        prefetching ==> final(prefetched).kept is None,
        !prefetching ==> final(prefetched).kept == old(prefetched).kept,
{
}

/// On macOS a selection is read again from what is accessible, else from a copy, and from a second
/// copy where the first failed.
pub proof fn selections_are_read_again_with_one_more_try<
    C: FnOnce() -> Result<String, SelectionCaptureMissReason>,
    D: FnOnce() -> Result<String, SelectionCaptureMissReason>,
>(
    direct: Option<String>,
    normalized: Option<String>,
    copy: C,
    copied: Result<String, SelectionCaptureMissReason>,
    from_copy: Option<String>,
    retry: D,
    retried: Result<String, SelectionCaptureMissReason>,
    from_retry: Option<String>,
    r: Option<String>,
)
    requires
        forall|x: Result<String, SelectionCaptureMissReason>| #[trigger]
            call_ensures(copy, (), x) ==> x == copied,
        forall|x: Result<String, SelectionCaptureMissReason>| #[trigger]
            call_ensures(retry, (), x) ==> x == retried,
        call_ensures(normalized_selection, (&direct,), normalized),
        call_ensures(selected_text_for_validation, (copied,), from_copy),
        call_ensures(selected_text_for_validation, (retried,), from_retry),
        call_ensures(read_selection_for_validation::<C, D>, (direct, copy, retry), r),
    ensures
        normalized is Some ==> r is Some && r->0@ == normalized->0@,
        normalized is None && copied is Ok ==> (r is Some <==> from_copy is Some) && (r is Some
            ==> r->0@ == from_copy->0@),
        normalized is None && copied is Err ==> (r is Some <==> from_retry is Some) && (r is Some
            ==> r->0@ == from_retry->0@),
{
    if normalized is None {
        if copied is Ok {
            assert(text::optional_text(r) == text::optional_text(from_copy));
        } else {
            assert(text::optional_text(r) == text::optional_text(from_retry));
        }
    }
}

/// An application that was in front is back where an attempt shows it in front; without a captured
/// process there is nothing to bring back. The short form of a capture gives what the long one does.
pub proof fn applications_are_brought_back_by_process<
    F: Fn(usize, i32) -> Option<i32>,
    L: FnOnce() -> LiveSelection,
>(
    captured: &Option<MacosSelectionTarget>,
    attempt: F,
    app: Option<i32>,
    back: bool,
    long: &mut PrefetchedSelection,
    short: &mut PrefetchedSelection,
    target: TargetOs,
    live: L,
    read: LiveSelection,
    r: (Option<SelectionContext>, SelectionInsertionTarget, SelectionCaptureDiag),
    s: (Option<SelectionContext>, SelectionInsertionTarget),
)
    requires
        forall|tried: usize, pid: i32, x: Option<i32>| #[trigger]
            call_ensures(attempt, (tried, pid), x) ==> x == app,
        call_ensures(reactivate_on_macos::<F>, (captured, attempt), back),
        forall|x: LiveSelection| #[trigger] call_ensures(live, (), x) ==> x == read,
        *old(short) == *old(long),
        call_ensures(
            resolve_selection_workspace_capture_with_diag::<L>,
            (long, target, live),
            r,
        ),
        call_ensures(resolve_selection_workspace_capture::<L>, (short, target, live), s),
    ensures
        back <==> *captured is Some && captured->0.front_app_pid is Some && app
            == captured->0.front_app_pid,
        s.0 == r.0 && s.1 == r.1,
        final(short).kept == final(long).kept,
{
    if remembered_pid(*captured) is Some {
        let pid = remembered_pid(*captured)->0;
        let seen = choose|seen: Seq<Option<i32>>| #[trigger] reactivated(attempt, pid, seen, back);
        assert(call_ensures(attempt, ((seen.len() - 1) as usize, pid), seen[seen.len() - 1]));
    }
}

} // verus!
