//! The single error type crossing the domain boundary, with its stable machine codes.

use vstd::prelude::*;
use vstd::string::*;

use crate::text::{i32_to_string, owned, signed_decimal};

verus! {

/// Errors returned by domain operations. Every variant maps to a stable [`CoreError::code`].
#[derive(Debug, Clone, PartialEq, Eq)]
pub enum CoreError {
    /// A code path that is scaffolded but not yet implemented.
    NotImplemented(&'static str),
    /// Failed to parse an external tool's output or a user-supplied string.
    Parse { what: &'static str, detail: String },
    /// A required resource was not found.
    NotFound { what: &'static str, name: String },
    /// A value was well-formed but not acceptable in context.
    Invalid { what: &'static str, detail: String },
    /// The host or configuration cannot support the requested operation.
    Unsupported(String),
    /// An external process exited non-zero.
    Process { program: String, code: i32, stderr: String },
    /// A download failed or failed verification.
    Download { url: String, detail: String },
    /// A filesystem operation failed.
    Fs { path: String, detail: String },
    /// The operation was cancelled.
    Cancelled,
}

/// The stable code of an error, as the frontend switches on it.
pub open spec fn code_of(e: CoreError) -> Seq<char> {
    match e {
        CoreError::NotImplemented(_) => "not_implemented"@,
        CoreError::Parse { .. } => "parse_error"@,
        CoreError::NotFound { .. } => "not_found"@,
        CoreError::Invalid { .. } => "invalid"@,
        CoreError::Unsupported(_) => "unsupported"@,
        CoreError::Process { .. } => "process_failed"@,
        CoreError::Download { .. } => "download_failed"@,
        CoreError::Fs { .. } => "fs_error"@,
        CoreError::Cancelled => "cancelled"@,
    }
}

/// The human-readable message of an error (what `Display` prints for it).
pub open spec fn message_of(e: CoreError) -> Seq<char> {
    match e {
        CoreError::NotImplemented(what) => "not implemented: "@ + what@,
        CoreError::Parse { what, detail } => "could not parse "@ + what@ + ": "@ + detail@,
        CoreError::NotFound { what, name } => what@ + " not found: "@ + name@,
        CoreError::Invalid { what, detail } => "invalid "@ + what@ + ": "@ + detail@,
        CoreError::Unsupported(detail) => "unsupported: "@ + detail@,
        CoreError::Process { program, code, stderr } => "`"@ + program@ + "` exited with "@
            + signed_decimal(code as int) + ": "@ + stderr@,
        CoreError::Download { url, detail } => "download of "@ + url@ + " failed: "@ + detail@,
        CoreError::Fs { path, detail } => "filesystem error at "@ + path@ + ": "@ + detail@,
        CoreError::Cancelled => "operation cancelled"@,
    }
}

/// `e` is a parse error about `what` with the message `detail`.
pub open spec fn is_parse_error(e: CoreError, what: Seq<char>, detail: Seq<char>) -> bool {
    match e {
        CoreError::Parse { what: w, detail: d } => w@ == what && d@ == detail,
        _ => false,
    }
}

/// `e` is an invalid-value error about `what` with the message `detail`.
pub open spec fn is_invalid_error(e: CoreError, what: Seq<char>, detail: Seq<char>) -> bool {
    match e {
        CoreError::Invalid { what: w, detail: d } => w@ == what && d@ == detail,
        _ => false,
    }
}

/// The result `r` of a parse is the outcome `o` that a specification gives: the same value, or
/// a parse error with the texts `o` names (`what`, then `detail`).
pub open spec fn parsed_as<T>(r: Result<T, CoreError>, o: Result<T, (Seq<char>, Seq<char>)>) -> bool {
    match r {
        Ok(v) => o == Ok::<T, (Seq<char>, Seq<char>)>(v),
        Err(e) => match o {
            Ok(_) => false,
            Err(wd) => is_parse_error(e, wd.0, wd.1),
        },
    }
}

/// The result `r` of a check is the outcome `o` that a specification gives: the same value, or
/// an invalid-value error with the texts `o` names (`what`, then `detail`).
pub open spec fn checked_as<T>(r: Result<T, CoreError>, o: Result<T, (Seq<char>, Seq<char>)>) -> bool {
    match r {
        Ok(v) => o == Ok::<T, (Seq<char>, Seq<char>)>(v),
        Err(e) => match o {
            Ok(_) => false,
            Err(wd) => is_invalid_error(e, wd.0, wd.1),
        },
    }
}

impl CoreError {
    /// Build a [`CoreError::Parse`].
    pub fn parse(what: &'static str, detail: &str) -> (e: CoreError)
        ensures
            e == (CoreError::Parse { what, detail: e->Parse_detail }),
            e->Parse_detail@ == detail@,
            is_parse_error(e, what@, detail@),
    {
        CoreError::Parse { what, detail: owned(detail) }
    }

    /// Build a [`CoreError::Invalid`].
    pub fn invalid(what: &'static str, detail: &str) -> (e: CoreError)
        ensures
            e == (CoreError::Invalid { what, detail: e->Invalid_detail }),
            e->Invalid_detail@ == detail@,
            is_invalid_error(e, what@, detail@),
    {
        CoreError::Invalid { what, detail: owned(detail) }
    }

    /// The human-readable message (the error's `Display` text).
    pub fn to_string(&self) -> (r: String)
        ensures
            r@ == message_of(*self),
    {
        match self {
            CoreError::NotImplemented(what) => {
                let mut s = owned("not implemented: ");
                s.append(what);
                s
            },
            CoreError::Parse { what, detail } => {
                let mut s = owned("could not parse ");
                s.append(what);
                s.append(": ");
                s.append(detail.as_str());
                s
            },
            CoreError::NotFound { what, name } => {
                let mut s = owned(what);
                s.append(" not found: ");
                s.append(name.as_str());
                s
            },
            CoreError::Invalid { what, detail } => {
                let mut s = owned("invalid ");
                s.append(what);
                s.append(": ");
                s.append(detail.as_str());
                s
            },
            CoreError::Unsupported(detail) => {
                let mut s = owned("unsupported: ");
                s.append(detail.as_str());
                s
            },
            CoreError::Process { program, code, stderr } => {
                let mut s = owned("`");
                s.append(program.as_str());
                s.append("` exited with ");
                let c = i32_to_string(*code);
                s.append(c.as_str());
                s.append(": ");
                s.append(stderr.as_str());
                s
            },
            CoreError::Download { url, detail } => {
                let mut s = owned("download of ");
                s.append(url.as_str());
                s.append(" failed: ");
                s.append(detail.as_str());
                s
            },
            CoreError::Fs { path, detail } => {
                let mut s = owned("filesystem error at ");
                s.append(path.as_str());
                s.append(": ");
                s.append(detail.as_str());
                s
            },
            CoreError::Cancelled => owned("operation cancelled"),
        }
    }

    /// Stable machine-readable code for the IPC error contract.
    pub fn code(&self) -> (r: &'static str)
        ensures
            r@ == code_of(*self),
    {
        match self {
            CoreError::NotImplemented(_) => "not_implemented",
            CoreError::Parse { .. } => "parse_error",
            CoreError::NotFound { .. } => "not_found",
            CoreError::Invalid { .. } => "invalid",
            CoreError::Unsupported(_) => "unsupported",
            CoreError::Process { .. } => "process_failed",
            CoreError::Download { .. } => "download_failed",
            CoreError::Fs { .. } => "fs_error",
            CoreError::Cancelled => "cancelled",
        }
    }
}

} // verus!
