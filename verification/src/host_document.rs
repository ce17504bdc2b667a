//! What may be read of the document that the user is writing: the guard that keeps passwords and
//! terminals out, and the text around the cursor.

use vstd::prelude::*;

use crate::platform::TargetOs;
use crate::text::{self, blank, equal_ignoring_ascii_case, opens_ignoring_ascii_case, to_decimal, trim};

verus! {

/// How much of the document is read, in characters.
pub const DEFAULT_BUDGET_CHARS: usize = 600;

/// How long the document may take to be read, in milliseconds.
pub const READ_TIMEOUT_MS: u64 = 1200;

/// How reading the document ended.
#[derive(Debug, Clone, Copy, PartialEq, Eq, Structural)]
pub enum HostDocumentStatus {
    /// It was read.
    Read,
    /// The guard kept it from being read.
    Blocked,
    /// The platform has no way to read it.
    Unsupported,
    /// There was nothing to read.
    Unavailable,
    /// The application did not answer.
    Timeout,
}

/// Why the guard keeps a document from being read.
#[derive(Debug, Clone, Copy, PartialEq, Eq, Structural)]
pub enum BlockReason {
    /// The system hides what is typed.
    SecureInput,
    /// The focus is on a password field.
    SecureTextField,
    /// The application is one for passwords or a terminal.
    BlockedApp,
}

impl BlockReason {
    /// The reason as programs read it.
    pub open spec fn name(self) -> Seq<char> {
        match self {
            BlockReason::SecureInput => "secure_input"@,
            BlockReason::SecureTextField => "secure_text_field"@,
            BlockReason::BlockedApp => "blocked_app"@,
        }
    }

    pub fn as_str(self) -> (r: &'static str)
        ensures
            r@ == self.name(),
    {
        match self {
            BlockReason::SecureInput => "secure_input",
            BlockReason::SecureTextField => "secure_text_field",
            BlockReason::BlockedApp => "blocked_app",
        }
    }
}

/// What the guard looks at.
#[derive(Debug, Clone, PartialEq, Eq)]
pub struct GateInputs {
    pub secure_input: bool,
    pub bundle_id: Option<String>,
    pub role: Option<String>,
    pub subrole: Option<String>,
}

impl Default for GateInputs {
    fn default() -> (r: GateInputs)
        ensures
            !r.secure_input,
            r.bundle_id is None,
            r.role is None,
            r.subrole is None,
    {
        GateInputs { secure_input: false, bundle_id: None, role: None, subrole: None }
    }
}

/// The role of a password field, up to case.
pub const AX_SECURE_TEXT_FIELD: &'static str = "axsecuretextfield";

/// How the bundle ids of password managers and keychains begin, up to case.
pub open spec fn is_sensitive_bundle(id: Seq<char>) -> bool {
    ||| text::starts_with_ignoring_ascii_case(id, "com.1password"@)
    ||| text::starts_with_ignoring_ascii_case(id, "com.agilebits.onepassword"@)
    ||| text::starts_with_ignoring_ascii_case(id, "com.apple.keychainaccess"@)
    ||| text::starts_with_ignoring_ascii_case(id, "com.bitwarden"@)
    ||| text::starts_with_ignoring_ascii_case(id, "com.lastpass"@)
    ||| text::starts_with_ignoring_ascii_case(id, "com.dashlane"@)
    ||| text::starts_with_ignoring_ascii_case(id, "org.keepassxc"@)
    ||| text::starts_with_ignoring_ascii_case(id, "com.kueh.keepassium"@)
    ||| text::starts_with_ignoring_ascii_case(id, "in.sinew.enpass"@)
    ||| text::starts_with_ignoring_ascii_case(id, "com.sinew.enpass"@)
    ||| text::starts_with_ignoring_ascii_case(id, "com.apple.passwords"@)
}

/// How the bundle ids of terminals begin, up to case.
pub open spec fn is_terminal_bundle(id: Seq<char>) -> bool {
    ||| text::starts_with_ignoring_ascii_case(id, "com.apple.terminal"@)
    ||| text::starts_with_ignoring_ascii_case(id, "com.googlecode.iterm2"@)
    ||| text::starts_with_ignoring_ascii_case(id, "dev.warp.warp"@)
    ||| text::starts_with_ignoring_ascii_case(id, "com.github.wez.wezterm"@)
    ||| text::starts_with_ignoring_ascii_case(id, "io.alacritty"@)
    ||| text::starts_with_ignoring_ascii_case(id, "org.alacritty"@)
    ||| text::starts_with_ignoring_ascii_case(id, "net.kovidgoyal.kitty"@)
    ||| text::starts_with_ignoring_ascii_case(id, "co.zeit.hyper"@)
    ||| text::starts_with_ignoring_ascii_case(id, "org.tabby"@)
    ||| text::starts_with_ignoring_ascii_case(id, "com.tabby"@)
    ||| text::starts_with_ignoring_ascii_case(id, "com.mitchellh.ghostty"@)
}

fn is_sensitive_bundle_id(id: &str) -> (r: bool)
    ensures
        r == is_sensitive_bundle(id@),
{
    opens_ignoring_ascii_case(id, "com.1password") || opens_ignoring_ascii_case(
        id,
        "com.agilebits.onepassword",
    ) || opens_ignoring_ascii_case(id, "com.apple.keychainaccess") || opens_ignoring_ascii_case(
        id,
        "com.bitwarden",
    ) || opens_ignoring_ascii_case(id, "com.lastpass") || opens_ignoring_ascii_case(
        id,
        "com.dashlane",
    ) || opens_ignoring_ascii_case(id, "org.keepassxc") || opens_ignoring_ascii_case(
        id,
        "com.kueh.keepassium",
    ) || opens_ignoring_ascii_case(id, "in.sinew.enpass") || opens_ignoring_ascii_case(
        id,
        "com.sinew.enpass",
    ) || opens_ignoring_ascii_case(id, "com.apple.passwords")
}

/// Whether the application is a terminal. Besides the guard, the choice of line breaks on macOS
/// goes by it.
pub fn is_terminal_bundle_id(id: &str) -> (r: bool)
    ensures
        r == is_terminal_bundle(id@),
{
    opens_ignoring_ascii_case(id, "com.apple.terminal") || opens_ignoring_ascii_case(
        id,
        "com.googlecode.iterm2",
    ) || opens_ignoring_ascii_case(id, "dev.warp.warp") || opens_ignoring_ascii_case(
        id,
        "com.github.wez.wezterm",
    ) || opens_ignoring_ascii_case(id, "io.alacritty") || opens_ignoring_ascii_case(
        id,
        "org.alacritty",
    ) || opens_ignoring_ascii_case(id, "net.kovidgoyal.kitty") || opens_ignoring_ascii_case(
        id,
        "co.zeit.hyper",
    ) || opens_ignoring_ascii_case(id, "org.tabby") || opens_ignoring_ascii_case(id, "com.tabby")
        || opens_ignoring_ascii_case(id, "com.mitchellh.ghostty")
}

/// The role is that of a password field, up to case and white space around it.
pub open spec fn is_secure_field(role: Option<String>) -> bool {
    role matches Some(r) && text::same_ignoring_ascii_case(
        text::trimmed(r@),
        AX_SECURE_TEXT_FIELD@,
    )
}

fn names_secure_field(role: &Option<String>) -> (r: bool)
    ensures
        r == is_secure_field(*role),
{
    match role {
        Some(value) => equal_ignoring_ascii_case(trim(value.as_str()), AX_SECURE_TEXT_FIELD),
        None => false,
    }
}

/// Why the guard keeps the document from being read; `None` where it lets it pass.
pub open spec fn gate_verdict(inputs: GateInputs) -> Option<BlockReason> {
    if inputs.secure_input {
        Some(BlockReason::SecureInput)
    } else if inputs.bundle_id matches Some(id) && (is_sensitive_bundle(id@) || is_terminal_bundle(
        id@,
    )) {
        Some(BlockReason::BlockedApp)
    } else if is_secure_field(inputs.role) || is_secure_field(inputs.subrole) {
        Some(BlockReason::SecureTextField)
    } else {
        None
    }
}

/// Why the guard keeps the document from being read; `None` where it lets it pass.
pub fn evaluate_gate(inputs: &GateInputs) -> (r: Option<BlockReason>)
    ensures
        r == gate_verdict(*inputs),
{
    if inputs.secure_input {
        return Some(BlockReason::SecureInput);
    }
    if let Some(id) = &inputs.bundle_id {
        if is_sensitive_bundle_id(id.as_str()) || is_terminal_bundle_id(id.as_str()) {
            return Some(BlockReason::BlockedApp);
        }
    }
    if names_secure_field(&inputs.role) || names_secure_field(&inputs.subrole) {
        return Some(BlockReason::SecureTextField);
    }
    None
}

/// Each of the warning signs alone closes the guard, and it opens only where there is none.
pub proof fn one_warning_sign_is_enough(inputs: GateInputs)
    ensures
        gate_verdict(inputs) is Some <==> {
            ||| inputs.secure_input
            ||| inputs.bundle_id matches Some(id) && is_sensitive_bundle(id@)
            ||| inputs.bundle_id matches Some(id) && is_terminal_bundle(id@)
            ||| is_secure_field(inputs.role)
            ||| is_secure_field(inputs.subrole)
        },
{
}

/// The guard as it stands before the focus is looked at closes no later than with the focus: what it
/// stops then is not asked for its focus at all.
pub proof fn the_first_look_is_never_overruled(inputs: GateInputs)
    ensures
        ({
            let first = GateInputs { role: None, subrole: None, ..inputs };
            gate_verdict(first) is Some ==> gate_verdict(inputs) == gate_verdict(first)
        }),
{
}

/// The text around the cursor, and where the cursor stands in it, in characters.
#[derive(Debug, Clone, PartialEq, Eq)]
pub struct DocumentWindow {
    pub text: String,
    pub cursor: usize,
}

impl DocumentWindow {
    /// How much of the text stands before the cursor.
    pub open spec fn split(self) -> int {
        if self.cursor <= self.text@.len() {
            self.cursor as int
        } else {
            self.text@.len() as int
        }
    }

    /// The text before the cursor.
    pub fn before(&self) -> (r: String)
        ensures
            r@ == self.text@.take(self.split()),
    {
        let n: usize = self.text.as_str().unicode_len();
        let at: usize = if self.cursor <= n {
            self.cursor
        } else {
            n
        };
        let r: &str = self.text.as_str().substring_char(0, at);
        assert(r@ =~= self.text@.take(self.split()));
        r.to_owned()
    }

    /// The text after the cursor.
    pub fn after(&self) -> (r: String)
        ensures
            r@ == self.text@.skip(self.split()),
    {
        let n: usize = self.text.as_str().unicode_len();
        let at: usize = if self.cursor <= n {
            self.cursor
        } else {
            n
        };
        let r: &str = self.text.as_str().substring_char(at, n);
        assert(r@ =~= self.text@.skip(self.split()));
        r.to_owned()
    }
}

/// The two sides of the cursor make up the whole text.
pub proof fn the_cursor_loses_nothing(window: DocumentWindow)
    ensures
        window.text@.take(window.split()) + window.text@.skip(window.split()) == window.text@,
{
    assert(window.text@.take(window.split()) + window.text@.skip(window.split()) =~= window.text@);
}

/// What reading the document came to.
#[derive(Debug, Clone, PartialEq, Eq)]
pub struct HostDocumentReadResult {
    pub status: HostDocumentStatus,
    /// Why the guard closed, or why there was nothing to read.
    pub reason: Option<String>,
    pub window: Option<DocumentWindow>,
    pub app_name: Option<String>,
    pub bundle_id: Option<String>,
    pub elapsed_ms: u64,
}

impl HostDocumentReadResult {
    pub fn new(status: HostDocumentStatus, reason: Option<String>) -> (r: HostDocumentReadResult)
        ensures
            r == (HostDocumentReadResult {
                status,
                reason,
                window: None,
                app_name: None,
                bundle_id: None,
                elapsed_ms: 0,
            }),
    {
        HostDocumentReadResult {
            status,
            reason,
            window: None,
            app_name: None,
            bundle_id: None,
            elapsed_ms: 0,
        }
    }
}

/// How an attempt to read the document ended.
#[derive(Debug, Clone, PartialEq, Eq)]
pub enum ReadOutcome {
    Window(DocumentWindow),
    Blocked(BlockReason),
    Unavailable { reason: String },
    /// The task that read it broke down.
    TaskFailed { error: String },
    TimedOut,
}

/// The status that an attempt to read the document ends in.
pub open spec fn status_of(outcome: ReadOutcome) -> HostDocumentStatus {
    match outcome {
        ReadOutcome::Window(_) => HostDocumentStatus::Read,
        ReadOutcome::Blocked(_) => HostDocumentStatus::Blocked,
        ReadOutcome::Unavailable { .. } | ReadOutcome::TaskFailed { .. } =>
            HostDocumentStatus::Unavailable,
        ReadOutcome::TimedOut => HostDocumentStatus::Timeout,
    }
}

/// The reason that is given with it.
pub open spec fn reason_of(outcome: ReadOutcome) -> Option<Seq<char>> {
    match outcome {
        ReadOutcome::Window(_) => None,
        ReadOutcome::Blocked(reason) => Some(reason.name()),
        ReadOutcome::Unavailable { reason } => Some(reason@),
        ReadOutcome::TaskFailed { error } => Some("blocking task failed: "@ + error@),
        ReadOutcome::TimedOut => Some(
            "no response within "@ + text::decimal(READ_TIMEOUT_MS as nat) + "ms"@,
        ),
    }
}

/// What an attempt to read the document of an application came to.
pub fn read_result(
    outcome: ReadOutcome,
    app_name: Option<String>,
    bundle_id: Option<String>,
    elapsed_ms: u64,
) -> (r: HostDocumentReadResult)
    ensures
        r.status == status_of(outcome),
        text::optional_text(r.reason) == reason_of(outcome),
        r.window == (match outcome {
            ReadOutcome::Window(window) => Some(window),
            _ => None,
        }),
        r.app_name == app_name,
        r.bundle_id == bundle_id,
        r.elapsed_ms == elapsed_ms,
{
    let mut window: Option<DocumentWindow> = None;
    let (status, reason): (HostDocumentStatus, Option<String>) = match outcome {
        ReadOutcome::Window(w) => {
            window = Some(w);
            (HostDocumentStatus::Read, None)
        },
        ReadOutcome::Blocked(why) => (HostDocumentStatus::Blocked, Some(why.as_str().to_owned())),
        ReadOutcome::Unavailable { reason } => (HostDocumentStatus::Unavailable, Some(reason)),
        ReadOutcome::TaskFailed { error } => {
            let mut reason: String = "blocking task failed: ".to_owned();
            reason.append(error.as_str());
            (HostDocumentStatus::Unavailable, Some(reason))
        },
        ReadOutcome::TimedOut => {
            let mut reason: String = "no response within ".to_owned();
            reason.append(to_decimal(READ_TIMEOUT_MS).as_str());
            reason.append("ms");
            (HostDocumentStatus::Timeout, Some(reason))
        },
    };
    HostDocumentReadResult { status, reason, window, app_name, bundle_id, elapsed_ms }
}

/// What the guard is asked about before the application is: neither role is known yet.
pub open spec fn first_gate(secure_input: bool, bundle_id: Option<String>) -> GateInputs {
    GateInputs { secure_input, bundle_id, role: None, subrole: None }
}

/// How an attempt to read the document ended. The guard may close before the application is asked
/// for anything.
pub open spec fn attempted<R: FnOnce(GateInputs) -> ReadOutcome>(
    read: R,
    gate: GateInputs,
    outcome: ReadOutcome,
) -> bool {
    match gate_verdict(gate) {
        Some(reason) => outcome == ReadOutcome::Blocked(reason),
        None => call_ensures(read, (gate,), outcome),
    }
}

/// `r` is what a look around the cursor comes to.
pub open spec fn probed<
    F: FnOnce() -> (Option<String>, Option<String>),
    S: FnOnce() -> bool,
    R: FnOnce(GateInputs) -> ReadOutcome,
    T: FnOnce() -> u64,
>(
    target: TargetOs,
    front_app: F,
    secure_input: S,
    read: R,
    elapsed_ms: T,
    r: HostDocumentReadResult,
) -> bool {
    if target is Macos {
        exists|front: (Option<String>, Option<String>), secure: bool, outcome: ReadOutcome|
            {
                &&& #[trigger] call_ensures(front_app, (), front)
                &&& #[trigger] call_ensures(secure_input, (), secure)
                &&& #[trigger] attempted(read, first_gate(secure, front.1), outcome)
                &&& call_ensures(elapsed_ms, (), r.elapsed_ms)
                &&& r.status == status_of(outcome)
                &&& text::optional_text(r.reason) == reason_of(outcome)
                &&& r.window == (match outcome {
                    ReadOutcome::Window(window) => Some(window),
                    _ => None,
                })
                &&& r.app_name == front.0
                &&& r.bundle_id == front.1
            }
    } else {
        &&& r.status is Unsupported
        &&& text::optional_text(r.reason) == Some("cursor context is macOS-only for now"@)
        &&& r.window is None
        &&& r.app_name is None
        &&& r.bundle_id is None
        &&& r.elapsed_ms == 0
    }
}

/// What a look around the cursor may ask: nothing but on macOS, and there the application itself
/// only where the guard is open.
pub open spec fn may_probe<
    F: FnOnce() -> (Option<String>, Option<String>),
    S: FnOnce() -> bool,
    R: FnOnce(GateInputs) -> ReadOutcome,
    T: FnOnce() -> u64,
>(target: TargetOs, front_app: F, secure_input: S, read: R, elapsed_ms: T) -> bool {
    target is Macos ==> {
        &&& call_requires(front_app, ())
        &&& call_requires(secure_input, ())
        &&& call_requires(elapsed_ms, ())
        &&& forall|front: (Option<String>, Option<String>), secure: bool|
            #![trigger call_ensures(front_app, (), front), call_ensures(secure_input, (), secure)]
            call_ensures(front_app, (), front) && call_ensures(secure_input, (), secure)
                && gate_verdict(first_gate(secure, front.1)) is None ==> call_requires(
                read,
                (first_gate(secure, front.1),),
            )
    }
}

/// Looks at the text around the cursor of the application in front. `front_app` gives its name and
/// its bundle id, `secure_input` tells whether the system guards the keyboard, `read` asks the
/// application behind the guard, and `elapsed_ms` tells how long all of it took.
pub fn probe_around_cursor<
    F: FnOnce() -> (Option<String>, Option<String>),
    S: FnOnce() -> bool,
    R: FnOnce(GateInputs) -> ReadOutcome,
    T: FnOnce() -> u64,
>(target: TargetOs, front_app: F, secure_input: S, read: R, elapsed_ms: T) -> (r:
    HostDocumentReadResult)
    requires
        may_probe(target, front_app, secure_input, read, elapsed_ms),
    ensures
        probed(target, front_app, secure_input, read, elapsed_ms, r),
{
    if target != TargetOs::Macos {
        return HostDocumentReadResult::new(
            HostDocumentStatus::Unsupported,
            Some("cursor context is macOS-only for now".to_owned()),
        );
    }
    let front: (Option<String>, Option<String>) = front_app();
    let secure: bool = secure_input();
    let gate: GateInputs = GateInputs {
        secure_input: secure,
        bundle_id: match &front.1 {
            Some(id) => Some(id.clone()),
            None => None,
        },
        role: None,
        subrole: None,
    };
    assert(gate == first_gate(secure, front.1));
    let outcome: ReadOutcome = match evaluate_gate(&gate) {
        Some(reason) => ReadOutcome::Blocked(reason),
        None => read(gate),
    };
    assert(attempted(read, first_gate(secure, front.1), outcome));
    let ms: u64 = elapsed_ms();
    let ghost said = front;
    assert(call_ensures(front_app, (), said) && call_ensures(secure_input, (), secure));
    read_result(outcome, front.0, front.1, ms)
}

/// The text around the cursor of the application in front, where it can be had.
pub fn read_around_cursor<
    F: FnOnce() -> (Option<String>, Option<String>),
    S: FnOnce() -> bool,
    R: FnOnce(GateInputs) -> ReadOutcome,
    T: FnOnce() -> u64,
>(target: TargetOs, front_app: F, secure_input: S, read: R, elapsed_ms: T) -> (r: Option<
    DocumentWindow,
>)
    requires
        may_probe(target, front_app, secure_input, read, elapsed_ms),
    ensures
        exists|result: HostDocumentReadResult| #[trigger]
            probed(target, front_app, secure_input, read, elapsed_ms, result) && r == result.window,
{
    let result: HostDocumentReadResult = probe_around_cursor(
        target,
        front_app,
        secure_input,
        read,
        elapsed_ms,
    );
    result.window
}

/// The watch for changes to a text that was just inserted.
#[derive(Debug, PartialEq, Eq)]
pub struct EditWatcher {
    pub stopped: bool,
}

impl EditWatcher {
    /// Ends the watch. It may have ended before.
    pub fn disarm(&mut self)
        ensures
            final(self).stopped,
    {
        self.stopped = true;
    }
}

/// Watches for changes to the text that was inserted, through `spawn`, which says whether it could
/// begin. Nothing is watched but a text with something in it, on macOS.
pub fn watch_for_edits<F: FnOnce(String) -> bool>(
    typed_text: String,
    target: TargetOs,
    spawn: F,
) -> (r: Option<EditWatcher>)
    requires
        target is Macos && !text::is_blank(typed_text@) ==> call_requires(spawn, (typed_text,)),
    ensures
        if target is Macos && !text::is_blank(typed_text@) {
            &&& call_ensures(spawn, (typed_text,), r is Some)
            &&& r matches Some(watcher) ==> !watcher.stopped
        } else {
            r is None
        },
{
    if target != TargetOs::Macos || blank(typed_text.as_str()) {
        return None;
    }
    if spawn(typed_text) {
        Some(EditWatcher { stopped: false })
    } else {
        None
    }
}

/// No document is read where the system hides the input, in a password manager or a terminal, known
/// by how its bundle id begins in any case, or in a field for passwords; and everywhere else it is.
pub proof fn secrets_are_never_read(
    inputs: &GateInputs,
    id: &str,
    r: Option<BlockReason>,
    is_terminal: bool,
)
    requires
        inputs.bundle_id is Some ==> inputs.bundle_id->0@ == id@,
        call_ensures(evaluate_gate, (inputs,), r),
        call_ensures(is_terminal_bundle_id, (id,), is_terminal),
    ensures
        inputs.secure_input <==> r == Some(BlockReason::SecureInput),
        is_terminal <==> {
            ||| text::starts_with_ignoring_ascii_case(id@, "com.apple.terminal"@)
            ||| text::starts_with_ignoring_ascii_case(id@, "com.googlecode.iterm2"@)
            ||| text::starts_with_ignoring_ascii_case(id@, "dev.warp.warp"@)
            ||| text::starts_with_ignoring_ascii_case(id@, "com.github.wez.wezterm"@)
            ||| text::starts_with_ignoring_ascii_case(id@, "io.alacritty"@)
            ||| text::starts_with_ignoring_ascii_case(id@, "org.alacritty"@)
            ||| text::starts_with_ignoring_ascii_case(id@, "net.kovidgoyal.kitty"@)
            ||| text::starts_with_ignoring_ascii_case(id@, "co.zeit.hyper"@)
            ||| text::starts_with_ignoring_ascii_case(id@, "org.tabby"@)
            ||| text::starts_with_ignoring_ascii_case(id@, "com.tabby"@)
            ||| text::starts_with_ignoring_ascii_case(id@, "com.mitchellh.ghostty"@)
        },
        !inputs.secure_input ==> (r == Some(BlockReason::BlockedApp) <==> inputs.bundle_id is Some
            && {
            ||| is_terminal
            ||| text::starts_with_ignoring_ascii_case(id@, "com.1password"@)
            ||| text::starts_with_ignoring_ascii_case(id@, "com.agilebits.onepassword"@)
            ||| text::starts_with_ignoring_ascii_case(id@, "com.apple.keychainaccess"@)
            ||| text::starts_with_ignoring_ascii_case(id@, "com.bitwarden"@)
            ||| text::starts_with_ignoring_ascii_case(id@, "com.lastpass"@)
            ||| text::starts_with_ignoring_ascii_case(id@, "com.dashlane"@)
            ||| text::starts_with_ignoring_ascii_case(id@, "org.keepassxc"@)
            ||| text::starts_with_ignoring_ascii_case(id@, "com.kueh.keepassium"@)
            ||| text::starts_with_ignoring_ascii_case(id@, "in.sinew.enpass"@)
            ||| text::starts_with_ignoring_ascii_case(id@, "com.sinew.enpass"@)
            ||| text::starts_with_ignoring_ascii_case(id@, "com.apple.passwords"@)
        }),
        inputs.role is Some && text::same_ignoring_ascii_case(
            text::trimmed(inputs.role->0@),
            "axsecuretextfield"@,
        ) ==> r is Some,
        inputs.subrole is Some && text::same_ignoring_ascii_case(
            text::trimmed(inputs.subrole->0@),
            "axsecuretextfield"@,
        ) ==> r is Some,
        r == Some(BlockReason::SecureTextField) ==> (inputs.role is Some
            && text::same_ignoring_ascii_case(
            text::trimmed(inputs.role->0@),
            "axsecuretextfield"@,
        )) || (inputs.subrole is Some && text::same_ignoring_ascii_case(
            text::trimmed(inputs.subrole->0@),
            "axsecuretextfield"@,
        )),
{
}

/// The names of the reasons; where nothing is known, nothing is blocked.
pub proof fn reasons_have_names(
    secure_input: &'static str,
    field: &'static str,
    app: &'static str,
    nothing_known: GateInputs,
    verdict: Option<BlockReason>,
)
    requires
        call_ensures(BlockReason::as_str, (BlockReason::SecureInput,), secure_input),
        call_ensures(BlockReason::as_str, (BlockReason::SecureTextField,), field),
        call_ensures(BlockReason::as_str, (BlockReason::BlockedApp,), app),
        call_ensures(<GateInputs as Default>::default, (), nothing_known),
        call_ensures(evaluate_gate, (&nothing_known,), verdict),
    ensures
        secure_input@ == "secure_input"@,
        field@ == "secure_text_field"@,
        app@ == "blocked_app"@,
        verdict is None,
{
}

/// What stands before the cursor and what stands after it make up the whole text, and what stands
/// before it is as long as the cursor says, where the text is that long.
pub proof fn the_cursor_parts_the_text(window: &DocumentWindow, before: String, after: String)
    requires
        call_ensures(DocumentWindow::before, (window,), before),
        call_ensures(DocumentWindow::after, (window,), after),
    ensures
        before@ + after@ == window.text@,
        window.cursor <= window.text@.len() ==> before@.len() == window.cursor,
        window.cursor > window.text@.len() ==> after@.len() == 0,
{
    the_cursor_loses_nothing(*window);
}

/// What became of a reading: its window where it was read, and the reason where it was not.
pub proof fn readings_give_a_window_or_a_reason(
    outcome: ReadOutcome,
    app_name: Option<String>,
    bundle_id: Option<String>,
    elapsed_ms: u64,
    reason: &'static str,
    limit: String,
    r: HostDocumentReadResult,
    status: HostDocumentStatus,
    why: Option<String>,
    fresh: HostDocumentReadResult,
)
    requires
        outcome is Blocked ==> call_ensures(
            BlockReason::as_str,
            (outcome->Blocked_0,),
            reason,
        ),
        call_ensures(text::to_decimal, (1200,), limit),
        call_ensures(read_result, (outcome, app_name, bundle_id, elapsed_ms), r),
        call_ensures(HostDocumentReadResult::new, (status, why), fresh),
    ensures
        r.window is Some <==> outcome is Window,
        outcome is Window ==> r.window == Some(outcome->Window_0) && r.status is Read && r.reason
            is None,
        outcome is Blocked ==> r.status is Blocked && r.reason is Some && r.reason->0@ == reason@,
        outcome matches ReadOutcome::Unavailable { reason: words } ==> r.status is Unavailable
            && r.reason is Some && r.reason->0@ == words@,
        outcome matches ReadOutcome::TaskFailed { error } ==> r.status is Unavailable && r.reason
            is Some && r.reason->0@ == "blocking task failed: "@ + error@,
        outcome is TimedOut ==> r.status is Timeout && r.reason is Some && r.reason->0@
            == "no response within "@ + limit@ + "ms"@,
        r.app_name == app_name && r.bundle_id == bundle_id && r.elapsed_ms == elapsed_ms,
        fresh.status == status && fresh.reason == why && fresh.window is None && fresh.elapsed_ms
            == 0,
{
}

/// A document is looked at on macOS alone, and not at all where the first look at the application
/// forbids it: it is blocked then, whatever a reading would have given.
pub proof fn closed_gates_read_nothing<
    F: FnOnce() -> (Option<String>, Option<String>),
    S: FnOnce() -> bool,
    R: FnOnce(GateInputs) -> ReadOutcome,
    T: FnOnce() -> u64,
>(
    target: TargetOs,
    front_app: F,
    secure_input: S,
    read: R,
    elapsed_ms: T,
    front: (Option<String>, Option<String>),
    secure: bool,
    gate: GateInputs,
    verdict: Option<BlockReason>,
    reason: &'static str,
    outcome: ReadOutcome,
    r: HostDocumentReadResult,
    window: Option<DocumentWindow>,
)
    requires
        forall|x: (Option<String>, Option<String>)| #[trigger]
            call_ensures(front_app, (), x) ==> x == front,
        forall|x: bool| #[trigger] call_ensures(secure_input, (), x) ==> x == secure,
        forall|g: GateInputs, x: ReadOutcome| #[trigger]
            call_ensures(read, (g,), x) ==> x == outcome,
        gate.secure_input == secure && gate.bundle_id == front.1 && gate.role is None
            && gate.subrole is None,
        call_ensures(evaluate_gate, (&gate,), verdict),
        verdict is Some ==> call_ensures(BlockReason::as_str, (verdict->0,), reason),
        call_ensures(
            probe_around_cursor::<F, S, R, T>,
            (target, front_app, secure_input, read, elapsed_ms),
            r,
        ),
        call_ensures(
            read_around_cursor::<F, S, R, T>,
            (target, front_app, secure_input, read, elapsed_ms),
            window,
        ),
    ensures
        !(target is Macos) ==> r.status is Unsupported && r.window is None && window is None
            && r.reason is Some && r.reason->0@ == "cursor context is macOS-only for now"@
            && r.app_name is None && r.bundle_id is None && r.elapsed_ms == 0,
        target is Macos && verdict is Some ==> r.status is Blocked && r.window is None && window
            is None && r.reason is Some && r.reason->0@ == reason@,
        target is Macos && verdict is None ==> {
            &&& r.window is Some <==> outcome is Window
            &&& outcome is Window ==> r.status is Read && r.window == Some(outcome->Window_0)
                && window == Some(outcome->Window_0)
            &&& !(outcome is Window) ==> window is None
        },
        target is Macos ==> r.app_name == front.0 && r.bundle_id == front.1,
{
    assert(gate == first_gate(secure, front.1));
}

/// Edits are watched on macOS, after a text that is not blank, where the watcher could be started; it
/// runs until it is disarmed.
pub proof fn edits_are_watched_until_disarmed<F: FnOnce(String) -> bool>(
    typed_text: String,
    target: TargetOs,
    spawn: F,
    started: bool,
    r: Option<EditWatcher>,
    watcher: &mut EditWatcher,
)
    requires
        forall|t: String, x: bool| #[trigger] call_ensures(spawn, (t,), x) ==> x == started,
        call_ensures(watch_for_edits::<F>, (typed_text, target, spawn), r),
        call_ensures(EditWatcher::disarm, (watcher,), ()),
    ensures
        r is Some <==> target is Macos && !text::is_blank(typed_text@) && started,
        r is Some ==> !r->0.stopped,
        final(watcher).stopped,
{
}

} // verus!
