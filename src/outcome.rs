use vstd::prelude::*;
use vstd::utf8::{decode_utf8, valid_utf8};

use crate::error::{ErrorView, SandboxError};
use crate::workspace::{executable_path_of, WorkspaceLayout};

verus! {

/// Message of the internal error raised when the compiler's diagnostics are
/// not UTF-8.
pub const COMMAND_OUTPUT_NOT_UTF8: &'static str = "failed to parse command output as utf-8";

/// Message of the internal error raised when the guest's captured output is
/// not UTF-8.
pub const CAPTURED_OUTPUT_NOT_UTF8: &'static str = "stream did not contain valid UTF-8";

/// Text that opens the trap message of a guest stopped by the epoch deadline.
pub const DEADLINE_MARKER: &'static str = "wasm trap: interrupt";

/// Relies on String::from_utf8: it succeeds exactly on valid UTF-8 and then
/// holds the characters that the bytes encode.
#[verifier::external_body]
fn utf8_to_string(bytes: Vec<u8>) -> (r: Option<String>)
    ensures
        r is Some <==> valid_utf8(bytes@),
        r matches Some(s) ==> s@ == decode_utf8(bytes@),
{
    String::from_utf8(bytes).ok()
}

/// What a run of the compiler produced, as plain values.
pub enum BuildView {
    Success { elapsed_nanos: u64, executable: Seq<char> },
    Failure(Seq<char>),
}

/// What a run of the compiler produced: the module's path and the time the
/// compile took, or the compiler's own diagnostic text.
#[derive(Debug)]
pub enum BuildOutcome {
    Success { elapsed_nanos: u64, executable: String },
    Failure(String),
}

impl View for BuildOutcome {
    type V = BuildView;

    open spec fn view(&self) -> BuildView {
        match self {
            BuildOutcome::Success { elapsed_nanos, executable } => BuildView::Success {
                elapsed_nanos: *elapsed_nanos,
                executable: executable@,
            },
            BuildOutcome::Failure(text) => BuildView::Failure(text@),
        }
    }
}

/// Text decoded from bytes, or the internal error with message `failure`
/// for bytes that are not UTF-8.
pub open spec fn decoded_text(bytes: Seq<u8>, failure: Seq<char>) -> Result<Seq<char>, ErrorView> {
    if valid_utf8(bytes) {
        Ok(decode_utf8(bytes))
    } else {
        Err(ErrorView::Internal(failure))
    }
}

/// Decodes bytes as text: `None` exactly when they are not UTF-8.
pub fn bytes_to_string(vec: Vec<u8>) -> (r: Option<String>)
    ensures
        r is Some <==> valid_utf8(vec@),
        r matches Some(s) ==> s@ == decode_utf8(vec@),
{
    utf8_to_string(vec)
}

/// Decodes bytes as text; bytes that are not UTF-8 are the internal error
/// with message `failure`.
fn decode_or_internal(vec: Vec<u8>, failure: &str) -> (r: Result<String, SandboxError>)
    ensures
        match r {
            Ok(s) => decoded_text(vec@, failure@) == Ok::<Seq<char>, ErrorView>(s@),
            Err(e) => decoded_text(vec@, failure@) == Err::<Seq<char>, ErrorView>(e@),
        },
{
    match bytes_to_string(vec) {
        Some(s) => Ok(s),
        None => Err(SandboxError::Internal(String::from_str(failure))),
    }
}

/// The outcome of one compiler run: exit status, standard error and the time
/// measured around it, in the workspace whose output directory is given.
pub open spec fn build_result_of(
    exit_success: bool,
    stderr: Seq<u8>,
    elapsed_nanos: u64,
    output_dir: Seq<char>,
) -> Result<BuildView, ErrorView> {
    if exit_success {
        Ok(BuildView::Success { elapsed_nanos, executable: executable_path_of(output_dir) })
    } else {
        match decoded_text(stderr, COMMAND_OUTPUT_NOT_UTF8@) {
            Ok(text) => Ok(BuildView::Failure(text)),
            Err(e) => Err(e),
        }
    }
}

/// Turns what the compiler process reported into a build outcome: success
/// points at the module in the output directory; a non-zero exit hands back
/// the diagnostic text verbatim.
pub fn build_outcome(
    ws: &WorkspaceLayout,
    exit_success: bool,
    stderr: Vec<u8>,
    elapsed_nanos: u64,
) -> (r: Result<BuildOutcome, SandboxError>)
    ensures
        match r {
            Ok(o) => build_result_of(exit_success, stderr@, elapsed_nanos, ws.output_dir@) == Ok::<
                BuildView,
                ErrorView,
            >(o@),
            Err(e) => build_result_of(exit_success, stderr@, elapsed_nanos, ws.output_dir@) == Err::<
                BuildView,
                ErrorView,
            >(e@),
        },
{
    if exit_success {
        return Ok(BuildOutcome::Success { elapsed_nanos, executable: ws.executable_path() });
    }
    match decode_or_internal(stderr, COMMAND_OUTPUT_NOT_UTF8) {
        Ok(text) => Ok(BuildOutcome::Failure(text)),
        Err(e) => Err(e),
    }
}

/// The trap text starts with the deadline marker.
pub open spec fn is_deadline_text(text: Seq<char>) -> bool {
    &&& text.len() >= DEADLINE_MARKER@.len()
    &&& text.subrange(0, DEADLINE_MARKER@.len() as int) == DEADLINE_MARKER@
}

/// Whether a trap's text says that the cooperative deadline fired.
pub fn is_deadline_error(text: &str) -> (r: bool)
    ensures
        r == is_deadline_text(text@),
{
    let n = DEADLINE_MARKER.unicode_len();
    if text.unicode_len() < n {
        return false;
    }
    let mut i: usize = 0;
    while i < n
        invariant
            n == DEADLINE_MARKER@.len(),
            n <= text@.len(),
            i <= n,
            forall|j: int| 0 <= j < i ==> text@[j] == DEADLINE_MARKER@[j],
        decreases n - i,
    {
        if text.get_char(i) != DEADLINE_MARKER.get_char(i) {
            assert(text@.subrange(0, n as int)[i as int] != DEADLINE_MARKER@[i as int]);
            return false;
        }
        i += 1;
    }
    assert(text@.subrange(0, n as int) =~= DEADLINE_MARKER@);
    true
}

/// How a trapped guest is classified: the deadline wins over the memory
/// ceiling, and any other trap is internal with its own text.
pub open spec fn trap_class(trap: Seq<char>, memory_limit_exceeded: bool) -> ErrorView {
    if is_deadline_text(trap) {
        ErrorView::Timeout
    } else if memory_limit_exceeded {
        ErrorView::OutOfMemory
    } else {
        ErrorView::Internal(trap)
    }
}

/// Classifies the end of a guest call: `None` when it returned normally.
pub fn classify_trap(trap: Option<String>, memory_limit_exceeded: bool) -> (r: Option<SandboxError>)
    ensures
        trap is None ==> r is None,
        trap matches Some(t) ==> r matches Some(e) && e@ == trap_class(t@, memory_limit_exceeded),
{
    match trap {
        None => None,
        Some(t) => {
            if is_deadline_error(t.as_str()) {
                Some(SandboxError::Timeout)
            } else if memory_limit_exceeded {
                Some(SandboxError::OOM)
            } else {
                Some(SandboxError::Internal(t))
            }
        },
    }
}

/// The outcome of one execution: the trap the guest call ended with, if any,
/// whether the limiter rejected a memory growth, and what the capture sink
/// holds.
pub open spec fn execution_result_of(
    trap: Option<Seq<char>>,
    memory_limit_exceeded: bool,
    captured: Seq<u8>,
) -> Result<Seq<char>, ErrorView> {
    match trap {
        Some(t) => Err(trap_class(t, memory_limit_exceeded)),
        None => decoded_text(captured, CAPTURED_OUTPUT_NOT_UTF8@),
    }
}

/// The characters of an optional string.
pub open spec fn opt_text(s: Option<String>) -> Option<Seq<char>> {
    match s {
        Some(t) => Some(t@),
        None => None,
    }
}

/// Turns the end of a guest call into the captured output or a sandbox error.
pub fn execution_outcome(
    trap: Option<String>,
    memory_limit_exceeded: bool,
    captured: Vec<u8>,
) -> (r: Result<String, SandboxError>)
    ensures
        match r {
            Ok(s) => execution_result_of(
                opt_text(trap),
                memory_limit_exceeded,
                captured@,
            ) == Ok::<Seq<char>, ErrorView>(s@),
            Err(e) => execution_result_of(
                opt_text(trap),
                memory_limit_exceeded,
                captured@,
            ) == Err::<Seq<char>, ErrorView>(e@),
        },
{
    match classify_trap(trap, memory_limit_exceeded) {
        Some(e) => Err(e),
        None => decode_or_internal(captured, CAPTURED_OUTPUT_NOT_UTF8),
    }
}

} // verus!
