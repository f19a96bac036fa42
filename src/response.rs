use vstd::prelude::*;
use vstd::utf8::{decode_utf8, valid_utf8};

use crate::error::{ErrorView, SandboxError};
use crate::outcome::{build_result_of, BuildOutcome, BuildView};

verus! {

/// Shown when the deadline stopped the guest.
pub const TIMEOUT_MESSAGE: &'static str =
    "RUNTIME ERROR: Your code took too long to execute and was interrupted";

/// Shown when the sandbox stopped the guest for any reason but the deadline.
pub const SANDBOX_VIOLATION_MESSAGE: &'static str =
    "RUNTIME ERROR: This could happen for the following reasons: \na) you tried to access filesystem and/or network which is not allowed in this playground or \nb) your code exceeded memory limit and was interrupted.";

/// A successful request: the compile time, and the program's output when it
/// was run.
#[derive(Debug)]
pub struct Success {
    pub elapsed_nanos: u64,
    pub output: Option<String>,
}

/// The body of a reply: success, or text for the user (a compiler diagnostic
/// or a runtime message).
#[derive(Debug)]
pub enum HandlerResponse {
    Success(Success),
    Error(String),
}

/// A reply body as plain values.
pub enum ResponseView {
    Success { elapsed_nanos: u64, output: Option<Seq<char>> },
    Error(Seq<char>),
}

impl View for HandlerResponse {
    type V = ResponseView;

    open spec fn view(&self) -> ResponseView {
        match self {
            HandlerResponse::Success(s) => ResponseView::Success {
                elapsed_nanos: s.elapsed_nanos,
                output: match s.output {
                    Some(o) => Some(o@),
                    None => None,
                },
            },
            HandlerResponse::Error(t) => ResponseView::Error(t@),
        }
    }
}

/// What goes back to the caller: a reply body, or an opaque failure that
/// carries nothing of the internal error.
#[derive(Debug)]
pub enum Reply {
    Respond(HandlerResponse),
    InternalServerError,
}

/// A reply as plain values.
pub enum ReplyView {
    Respond(ResponseView),
    InternalServerError,
}

impl View for Reply {
    type V = ReplyView;

    open spec fn view(&self) -> ReplyView {
        match self {
            Reply::Respond(r) => ReplyView::Respond(r@),
            Reply::InternalServerError => ReplyView::InternalServerError,
        }
    }
}

/// The reply body of a build-only request.
pub open spec fn build_response_of(b: BuildView) -> ResponseView {
    match b {
        BuildView::Success { elapsed_nanos, .. } => ResponseView::Success {
            elapsed_nanos,
            output: None,
        },
        BuildView::Failure(text) => ResponseView::Error(text),
    }
}

/// The reply body of a build-only request: the compile time, or the
/// compiler's diagnostic text as it came.
pub fn build_response(outcome: BuildOutcome) -> (r: HandlerResponse)
    ensures
        r@ == build_response_of(outcome@),
{
    match outcome {
        BuildOutcome::Success { elapsed_nanos, .. } => HandlerResponse::Success(
            Success { elapsed_nanos, output: None },
        ),
        BuildOutcome::Failure(text) => HandlerResponse::Error(text),
    }
}

/// The reply body of a run request whose module compiled in
/// `elapsed_nanos` and was executed.
pub fn run_response(elapsed_nanos: u64, executed: Result<String, SandboxError>) -> (r: Result<
    HandlerResponse,
    SandboxError,
>)
    ensures
        executed matches Ok(out) ==> r matches Ok(resp) && resp@ == (ResponseView::Success {
            elapsed_nanos,
            output: Some(out@),
        }),
        executed matches Err(e) ==> r matches Err(e2) && e2@ == e@,
{
    match executed {
        Ok(output) => Ok(HandlerResponse::Success(Success { elapsed_nanos, output: Some(output) })),
        Err(e) => Err(e),
    }
}

/// What the caller is told of a request's result: the body as it is; a
/// timeout with its own message; out of memory with the message shared by
/// every other stop by the sandbox; an internal error as an opaque failure.
pub open spec fn reply_of(r: Result<ResponseView, ErrorView>) -> ReplyView {
    match r {
        Ok(body) => ReplyView::Respond(body),
        Err(ErrorView::Timeout) => ReplyView::Respond(ResponseView::Error(TIMEOUT_MESSAGE@)),
        Err(ErrorView::OutOfMemory) => ReplyView::Respond(
            ResponseView::Error(SANDBOX_VIOLATION_MESSAGE@),
        ),
        Err(ErrorView::Internal(_)) => ReplyView::InternalServerError,
    }
}

/// Maps a request's result to what its caller is told.
pub fn reply(result: Result<HandlerResponse, SandboxError>) -> (r: Reply)
    ensures
        r@ == reply_of(
            match result {
                Ok(body) => Ok(body@),
                Err(e) => Err(e@),
            },
        ),
{
    match result {
        Ok(body) => Reply::Respond(body),
        Err(SandboxError::Timeout) => Reply::Respond(
            HandlerResponse::Error(String::from_str(TIMEOUT_MESSAGE)),
        ),
        Err(SandboxError::OOM) => Reply::Respond(
            HandlerResponse::Error(String::from_str(SANDBOX_VIOLATION_MESSAGE)),
        ),
        Err(SandboxError::Internal(_)) => Reply::InternalServerError,
    }
}

/// A compile that fails with a non-empty diagnostic is a normal outcome, never
/// a sandbox error: its text reaches the caller verbatim and non-empty.
pub proof fn lemma_compile_failure_is_diagnostic(
    stderr: Seq<u8>,
    elapsed_nanos: u64,
    output_dir: Seq<char>,
)
    requires
        valid_utf8(stderr),
        stderr.len() > 0,
    ensures
        build_result_of(false, stderr, elapsed_nanos, output_dir) == Ok::<BuildView, ErrorView>(
            BuildView::Failure(decode_utf8(stderr)),
        ),
        decode_utf8(stderr).len() > 0,
        reply_of(
            Ok(build_response_of(BuildView::Failure(decode_utf8(stderr)))),
        ) == ReplyView::Respond(ResponseView::Error(decode_utf8(stderr))),
{
}

/// Two builds whose compiler runs ended alike (same exit status, same
/// diagnostics) differ at most in the elapsed time: both succeed with the
/// same module path, both fail with the same text, or both are the same
/// internal error.
pub proof fn lemma_build_classification_ignores_time(
    exit_success: bool,
    stderr: Seq<u8>,
    elapsed1: u64,
    elapsed2: u64,
    output_dir: Seq<char>,
)
    ensures
        match (
            build_result_of(exit_success, stderr, elapsed1, output_dir),
            build_result_of(exit_success, stderr, elapsed2, output_dir),
        ) {
            (
                Ok(BuildView::Success { elapsed_nanos: e1, executable: x1 }),
                Ok(BuildView::Success { elapsed_nanos: e2, executable: x2 }),
            ) => e1 == elapsed1 && e2 == elapsed2 && x1 == x2,
            (Ok(BuildView::Failure(t1)), Ok(BuildView::Failure(t2))) => t1 == t2,
            (Err(a), Err(b)) => a == b,
            _ => false,
        },
{
}

} // verus!
