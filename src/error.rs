//! The failures that the control layer reports.

use vstd::prelude::*;

verus! {

/// Why an operation on the supervisor failed.
#[derive(Debug)]
pub enum PmError {
    /// No candidate location held a pm2 executable that could be launched.
    NotFound,
    /// The operating system could not start pm2; holds its error text.
    Launch(String),
    /// pm2 ran and exited without success; holds its standard error.
    CommandFailed(String),
    /// The listing held no readable JSON array; holds the reason.
    Parse(String),
}

/// The text of the discovery failure.
pub open spec fn not_found_text() -> Seq<char> {
    "PM2 not found"@
}

/// The text of a launch failure with the operating system's `os_text`.
pub open spec fn launch_text(os_text: Seq<char>) -> Seq<char> {
    "Failed to execute pm2: "@ + os_text
}

/// The human-readable text of an error, as shown to the user.
pub open spec fn error_text(e: PmError) -> Seq<char> {
    match e {
        PmError::NotFound => not_found_text(),
        PmError::Launch(t) => launch_text(t@),
        PmError::CommandFailed(t) => t@,
        PmError::Parse(t) => t@,
    }
}

impl PmError {
    /// The message shown to the user for this error.
    pub fn message(&self) -> (r: String)
        ensures
            r@ == error_text(*self),
    {
        match self {
            PmError::NotFound => String::from_str("PM2 not found"),
            PmError::Launch(t) => {
                let mut s = String::from_str("Failed to execute pm2: ");
                s.append(t.as_str());
                s
            },
            PmError::CommandFailed(t) => t.clone(),
            PmError::Parse(t) => t.clone(),
        }
    }
}

} // verus!
