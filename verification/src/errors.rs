//! The errors that the parts of the application answer with.

use vstd::prelude::*;

verus! {

/// What kind of failure an error reports.
#[derive(Debug, Clone, Copy, PartialEq, Eq, Structural)]
pub enum BackendErrorCode {
    Busy,
    Cancelled,
    Internal,
    InvalidArgument,
    InvalidState,
    OutcomeUnknown,
    PermissionDenied,
    Persistence,
    Platform,
    Provider,
    Unsupported,
}

/// An error, with the text that is shown or logged.
#[derive(Debug, Clone, PartialEq, Eq)]
pub struct BackendError {
    pub code: BackendErrorCode,
    pub message: String,
    /// Whether trying again may help.
    pub retryable: bool,
    /// The name of the fallback after which nothing is left to try.
    pub terminal: Option<String>,
}

/// What an error says.
pub struct ErrorParts {
    pub code: BackendErrorCode,
    pub message: Seq<char>,
    pub retryable: bool,
    pub terminal: Option<Seq<char>>,
}

impl View for BackendError {
    type V = ErrorParts;

    open spec fn view(&self) -> ErrorParts {
        ErrorParts {
            code: self.code,
            message: self.message@,
            retryable: self.retryable,
            terminal: crate::text::optional_text(self.terminal),
        }
    }
}

/// An error with nothing to say beyond its code and its message.
pub open spec fn plain_error(code: BackendErrorCode, message: Seq<char>) -> ErrorParts {
    ErrorParts { code, message, retryable: false, terminal: None }
}

/// The same error, marked as worth another try.
pub open spec fn worth_retrying(e: ErrorParts) -> ErrorParts {
    ErrorParts { code: e.code, message: e.message, retryable: true, terminal: e.terminal }
}

/// The result is the plain error with this code and message.
pub open spec fn fails<T>(
    r: Result<T, BackendError>,
    code: BackendErrorCode,
    message: Seq<char>,
) -> bool {
    r matches Err(e) && e@ == plain_error(code, message)
}

impl BackendError {
    pub fn new(code: BackendErrorCode, message: &str) -> (r: BackendError)
        ensures
            r@ == plain_error(code, message@),
    {
        BackendError { code, message: message.to_owned(), retryable: false, terminal: None }
    }

    /// An error whose message is `opening` followed by `detail`.
    pub fn about(code: BackendErrorCode, opening: &str, detail: &str) -> (r: BackendError)
        ensures
            r@ == plain_error(code, opening@ + detail@),
    {
        let mut message: String = opening.to_owned();
        message.append(detail);
        BackendError { code, message, retryable: false, terminal: None }
    }

    /// The same error, marked as worth another try.
    pub fn worth_another_try(self) -> (r: BackendError)
        ensures
            r@ == worth_retrying(self@),
    {
        BackendError { retryable: true, ..self }
    }
}

/// An error of the platform, in its own words.
pub fn map_platform_error(error: &str) -> (r: BackendError)
    ensures
        r@ == plain_error(BackendErrorCode::Platform, error@),
{
    BackendError::new(BackendErrorCode::Platform, error)
}

/// The error for work that was given to a task which did not end well; `task` says which.
pub fn map_join_error(task: &str, error: &str) -> (r: BackendError)
    ensures
        r@ == plain_error(BackendErrorCode::Internal, "join "@ + task@ + ": "@ + error@),
{
    let mut message: String = "join ".to_owned();
    message.append(task);
    message.append(": ");
    message.append(error);
    BackendError { code: BackendErrorCode::Internal, message, retryable: false, terminal: None }
}

/// What an error says is what is written in it.
pub proof fn errors_are_read_field_by_field(e: BackendError, f: BackendError)
    ensures
        e@.code == e.code,
        e@.message == e.message@,
        e@.retryable == e.retryable,
        e@ == f@ ==> e.code == f.code && e.message@ == f.message@ && e.retryable == f.retryable && (
        e.terminal is Some) == (f.terminal is Some) && (e.terminal is Some ==> e.terminal->0@
            == f.terminal->0@),
{
}

/// A new error is not worth another try and ends no chain of fallbacks; marking it as worth another
/// try changes nothing else.
pub proof fn errors_begin_plain(
    code: BackendErrorCode,
    message: &str,
    detail: &str,
    plain: BackendError,
    detailed: BackendError,
    given: BackendError,
    marked: BackendError,
)
    requires
        call_ensures(BackendError::new, (code, message), plain),
        call_ensures(BackendError::about, (code, message, detail), detailed),
        call_ensures(BackendError::worth_another_try, (given,), marked),
    ensures
        plain.code == code && plain.message@ == message@ && !plain.retryable && plain.terminal
            is None,
        detailed.code == code && detailed.message@ == message@ + detail@,
        !detailed.retryable && detailed.terminal is None,
        marked.retryable,
        marked.code == given.code && marked.message@ == given.message@,
        (marked.terminal is Some) == (given.terminal is Some),
        given.terminal is Some ==> marked.terminal->0@ == given.terminal->0@,
{
}

/// A platform error keeps the platform's own words; the error of a task names the task and says
/// what the task reported. Neither is worth another try.
pub proof fn outside_errors_keep_their_words(
    task: &str,
    error: &str,
    platform: BackendError,
    join: BackendError,
)
    requires
        call_ensures(map_platform_error, (error,), platform),
        call_ensures(map_join_error, (task, error), join),
    ensures
        platform.code is Platform && platform.message@ == error@,
        join.code is Internal && join.message@ == "join "@ + task@ + ": "@ + error@,
        !platform.retryable && !join.retryable,
        platform.terminal is None && join.terminal is None,
{
}

} // verus!
