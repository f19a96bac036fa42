use vstd::prelude::*;

verus! {

/// The kinds of sandbox failure, as plain values.
pub enum ErrorView {
    OutOfMemory,
    Internal(Seq<char>),
    Timeout,
}

/// The single failure type that both the build path and the execution path
/// report to their callers.
#[derive(Debug)]
pub enum SandboxError {
    /// The guest asked for more linear memory than the ceiling allows.
    OOM,
    /// A platform fault; the message is for the server's logs only.
    Internal(String),
    /// The cooperative deadline stopped the guest.
    Timeout,
}

impl View for SandboxError {
    type V = ErrorView;

    open spec fn view(&self) -> ErrorView {
        match self {
            SandboxError::OOM => ErrorView::OutOfMemory,
            SandboxError::Internal(m) => ErrorView::Internal(m@),
            SandboxError::Timeout => ErrorView::Timeout,
        }
    }
}

/// The human-readable text of each kind of failure.
pub open spec fn error_text(e: ErrorView) -> Seq<char> {
    match e {
        ErrorView::OutOfMemory => "out of memory error"@,
        ErrorView::Internal(m) => "internal error: "@ + m,
        ErrorView::Timeout => "timeout error"@,
    }
}

impl SandboxError {
    /// The error's text, as it is written to logs.
    pub fn message(&self) -> (r: String)
        ensures
            r@ == error_text(self@),
    {
        match self {
            SandboxError::OOM => String::from_str("out of memory error"),
            SandboxError::Internal(m) => {
                let mut s = String::from_str("internal error: ");
                s.append(m.as_str());
                s
            },
            SandboxError::Timeout => String::from_str("timeout error"),
        }
    }
}

} // verus!
