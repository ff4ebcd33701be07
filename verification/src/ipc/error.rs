//! The single error type every app command returns across the IPC seam: a stable machine
//! `code` (the core error's code when it comes from one), a human `message`, and optional
//! structured context.

use vstd::prelude::*;

use crate::error::{code_of, message_of, CoreError};

verus! {

/// A serializable error surfaced to the frontend.
#[derive(Debug, Clone, PartialEq, Eq)]
pub struct IpcError {
    /// Stable machine-readable code, e.g. `not_found`, `process_failed`.
    pub code: String,
    /// What went wrong and, where possible, what to do.
    pub message: String,
    /// Optional structured context, as JSON text.
    pub details: Option<String>,
}

impl IpcError {
    /// An error from a code and a message, with no details.
    pub fn new(code: &str, message: &str) -> (r: IpcError)
        ensures
            r.code@ == code@,
            r.message@ == message@,
            r.details is None,
    {
        IpcError { code: code.to_owned(), message: message.to_owned(), details: None }
    }

    /// Attach structured context (JSON text).
    pub fn with_details(self, details: String) -> (r: IpcError)
        ensures
            r.code == self.code,
            r.message == self.message,
            r.details == Some(details),
    {
        IpcError { code: self.code, message: self.message, details: Some(details) }
    }

    /// The IPC form of a core error: its stable code and its message.
    pub fn from(err: CoreError) -> (r: IpcError)
        ensures
            r.code@ == code_of(err),
            r.message@ == message_of(err),
            r.details is None,
    {
        let message = err.to_string();
        IpcError { code: err.code().to_owned(), message, details: None }
    }

    /// The display text: `[code] message`.
    pub fn to_string(&self) -> (r: String)
        ensures
            r@ == "["@ + self.code@ + "] "@ + self.message@,
    {
        let mut s = crate::text::cat3("[", self.code.as_str(), "] ");
        s.append(self.message.as_str());
        s
    }
}

} // verus!
