//! Canonical exit codes and structured command-line errors.
//!
//! Every error carries a stable machine-readable code, a message and an
//! optional hint that is a runnable next command.

use vstd::prelude::*;

verus! {

/// Canonical process exit codes.
#[derive(Debug, Clone, Copy, PartialEq, Eq, Structural)]
pub enum ExitCode {
    Success,
    Failure,
    Usage,
    NotFound,
    Permission,
    Conflict,
}

/// The number a process exits with for each exit code.
pub open spec fn exit_number(e: ExitCode) -> i32 {
    match e {
        ExitCode::Success => 0,
        ExitCode::Failure => 1,
        ExitCode::Usage => 2,
        ExitCode::NotFound => 3,
        ExitCode::Permission => 4,
        ExitCode::Conflict => 5,
    }
}

impl ExitCode {
    /// The numeric code to pass to the process exit.
    pub fn code(self) -> (r: i32)
        ensures
            r == exit_number(self),
    {
        match self {
            ExitCode::Success => 0,
            ExitCode::Failure => 1,
            ExitCode::Usage => 2,
            ExitCode::NotFound => 3,
            ExitCode::Permission => 4,
            ExitCode::Conflict => 5,
        }
    }
}

/// Stable machine-readable error identifier.
#[derive(Debug, Clone, Copy, PartialEq, Eq, Structural)]
pub enum ErrorCode {
    Usage,
    NotFound,
    Permission,
    Conflict,
    Unavailable,
    Timeout,
    Internal,
}

/// The exit code paired with each error class.
pub open spec fn exit_for(c: ErrorCode) -> ExitCode {
    match c {
        ErrorCode::Usage => ExitCode::Usage,
        ErrorCode::NotFound => ExitCode::NotFound,
        ErrorCode::Permission => ExitCode::Permission,
        ErrorCode::Conflict => ExitCode::Conflict,
        ErrorCode::Unavailable => ExitCode::Failure,
        ErrorCode::Timeout => ExitCode::Failure,
        ErrorCode::Internal => ExitCode::Failure,
    }
}

/// The identifier an error code carries on the wire (screaming snake case).
pub open spec fn wire_name(c: ErrorCode) -> Seq<char> {
    match c {
        ErrorCode::Usage => "USAGE"@,
        ErrorCode::NotFound => "NOT_FOUND"@,
        ErrorCode::Permission => "PERMISSION"@,
        ErrorCode::Conflict => "CONFLICT"@,
        ErrorCode::Unavailable => "UNAVAILABLE"@,
        ErrorCode::Timeout => "TIMEOUT"@,
        ErrorCode::Internal => "INTERNAL"@,
    }
}

impl ErrorCode {
    /// The exit code paired with this error class.
    pub fn exit(self) -> (r: ExitCode)
        ensures
            r == exit_for(self),
    {
        match self {
            ErrorCode::Usage => ExitCode::Usage,
            ErrorCode::NotFound => ExitCode::NotFound,
            ErrorCode::Permission => ExitCode::Permission,
            ErrorCode::Conflict => ExitCode::Conflict,
            ErrorCode::Unavailable | ErrorCode::Timeout | ErrorCode::Internal => ExitCode::Failure,
        }
    }

    /// The identifier this code carries in the error envelope.
    pub fn wire(self) -> (r: &'static str)
        ensures
            r@ == wire_name(self),
    {
        match self {
            ErrorCode::Usage => "USAGE",
            ErrorCode::NotFound => "NOT_FOUND",
            ErrorCode::Permission => "PERMISSION",
            ErrorCode::Conflict => "CONFLICT",
            ErrorCode::Unavailable => "UNAVAILABLE",
            ErrorCode::Timeout => "TIMEOUT",
            ErrorCode::Internal => "INTERNAL",
        }
    }
}

/// A structured command-line error.
#[derive(Debug)]
pub struct AppError {
    pub code: ErrorCode,
    pub message: String,
    /// A runnable next command, never prose about one.
    pub hint: Option<String>,
}

/// The value of a structured error: its class, message and hint text.
pub struct ErrorV {
    pub code: ErrorCode,
    pub message: Seq<char>,
    pub hint: Option<Seq<char>>,
}

impl View for AppError {
    type V = ErrorV;

    open spec fn view(&self) -> ErrorV {
        ErrorV { code: self.code, message: self.message@, hint: opt_view(self.hint) }
    }
}

/// The value of a result whose error is structured.
pub open spec fn result_view<T>(r: Result<T, AppError>) -> Result<T, ErrorV> {
    match r {
        Ok(t) => Ok(t),
        Err(e) => Err(e@),
    }
}

/// The error value of class `code` with `message` and `hint`.
pub open spec fn error_v(code: ErrorCode, message: Seq<char>, hint: Option<Seq<char>>) -> ErrorV {
    ErrorV { code, message, hint }
}

/// The view of an optional string.
pub open spec fn opt_view(o: Option<String>) -> Option<Seq<char>> {
    match o {
        Some(s) => Some(s@),
        None => None,
    }
}

impl AppError {
    /// An error of class `code` with `message` and no hint.
    pub fn new(code: ErrorCode, message: &str) -> (r: AppError)
        ensures
            r.code == code,
            r.message@ == message@,
            r.hint is None,
    {
        AppError { code, message: message.to_string(), hint: None }
    }

    /// Attach a runnable hint command.
    pub fn with_hint(self, hint: &str) -> (r: AppError)
        ensures
            r.code == self.code,
            r.message@ == self.message@,
            opt_view(r.hint) == Some(hint@),
    {
        let mut e = self;
        e.hint = Some(hint.to_string());
        e
    }

    /// A not-found error.
    pub fn not_found(message: &str) -> (r: AppError)
        ensures
            r.code == ErrorCode::NotFound,
            r.message@ == message@,
            r.hint is None,
    {
        Self::new(ErrorCode::NotFound, message)
    }

    /// A usage error.
    pub fn usage(message: &str) -> (r: AppError)
        ensures
            r.code == ErrorCode::Usage,
            r.message@ == message@,
            r.hint is None,
    {
        Self::new(ErrorCode::Usage, message)
    }

    /// An unavailable-service error.
    pub fn unavailable(message: &str) -> (r: AppError)
        ensures
            r.code == ErrorCode::Unavailable,
            r.message@ == message@,
            r.hint is None,
    {
        Self::new(ErrorCode::Unavailable, message)
    }

    /// The human rendering: the message, then `hint: <command>` on a line
    /// of its own when there is a hint.
    pub fn render(&self) -> (r: String)
        ensures
            r@ == match opt_view(self.hint) {
                Some(h) => self.message@ + "\nhint: "@ + h,
                None => self.message@,
            },
    {
        let mut s = self.message.clone();
        match &self.hint {
            Some(h) => {
                s.append("\nhint: ");
                s.append(h.as_str());
            },
            None => {},
        }
        s
    }

    /// The exit code this error terminates the process with.
    pub fn exit_code(&self) -> (r: ExitCode)
        ensures
            r == exit_for(self.code),
    {
        self.code.exit()
    }
}

/// Exit-code laws: an error never exits with success; usage, not-found,
/// permission and conflict errors exit with codes of their own, and every
/// other failure exits 1.
pub proof fn error_exit_codes(c: ErrorCode)
    ensures
        1 <= exit_number(exit_for(c)) <= 5,
        exit_number(exit_for(c)) == 1 <==> (c is Unavailable || c is Timeout || c is Internal),
        c is Usage <==> exit_number(exit_for(c)) == 2,
        c is NotFound <==> exit_number(exit_for(c)) == 3,
        c is Permission <==> exit_number(exit_for(c)) == 4,
        c is Conflict <==> exit_number(exit_for(c)) == 5,
{
}

/// Distinct exit codes exit with distinct numbers.
pub proof fn exit_numbers_distinct(a: ExitCode, b: ExitCode)
    ensures
        a != b ==> exit_number(a) != exit_number(b),
{
}

} // verus!
