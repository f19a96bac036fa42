use typerust::error::SandboxError;
use typerust::limiter::MemoryLimiter;
use typerust::limits::{SandboxLimits, WASM_INSTANCE_MEMORY_LIMIT, WASM_MINIMUM_MEMORY_SIZE};
use typerust::outcome::{
    build_outcome, bytes_to_string, classify_trap, execution_outcome, is_deadline_error,
    BuildOutcome, CAPTURED_OUTPUT_NOT_UTF8, COMMAND_OUTPUT_NOT_UTF8,
};
use typerust::response::{
    build_response, reply, run_response, HandlerResponse, Reply, SANDBOX_VIOLATION_MESSAGE,
    TIMEOUT_MESSAGE,
};
use typerust::static_route::{static_lookup, StaticLookup};
use typerust::ticker::{TickAction, Ticker};
use typerust::workspace::WorkspaceLayout;

fn layout() -> WorkspaceLayout {
    WorkspaceLayout::new("/tmp/playground-abc")
}

#[test]
fn quiet_program_captures_empty_output() {
    let r = execution_outcome(None, false, vec![]);
    assert_eq!(r.unwrap(), "");
}

#[test]
fn captured_output_is_decoded() {
    let r = execution_outcome(None, false, "héllo\n".as_bytes().to_vec());
    assert_eq!(r.unwrap(), "héllo\n");
}

#[test]
fn non_utf8_output_is_internal() {
    let r = execution_outcome(None, false, vec![0xff, 0xfe]);
    assert!(matches!(r, Err(SandboxError::Internal(m)) if m == CAPTURED_OUTPUT_NOT_UTF8));
}

#[test]
fn syntax_error_is_a_compile_failure() {
    let stderr = b"error: expected one of `!` or `::`, found `<eof>`".to_vec();
    let r = build_outcome(&layout(), false, stderr, 7).unwrap();
    match r {
        BuildOutcome::Failure(text) => {
            assert!(!text.is_empty());
            assert_eq!(text, "error: expected one of `!` or `::`, found `<eof>`");
        }
        other => panic!("unexpected {:?}", other),
    }
}

#[test]
fn compile_failure_with_bad_utf8_is_internal() {
    let r = build_outcome(&layout(), false, vec![0xc3], 7);
    assert!(matches!(r, Err(SandboxError::Internal(m)) if m == "failed to parse command output as utf-8"));
    assert_eq!(COMMAND_OUTPUT_NOT_UTF8, "failed to parse command output as utf-8");
}

#[test]
fn successful_compile_points_into_output_dir() {
    let r = build_outcome(&layout(), true, vec![0xff], 42).unwrap();
    match r {
        BuildOutcome::Success { elapsed_nanos, executable } => {
            assert_eq!(elapsed_nanos, 42);
            assert_eq!(executable, "/tmp/playground-abc/out/playground.wasm");
        }
        other => panic!("unexpected {:?}", other),
    }
}

#[test]
fn build_twice_classifies_alike() {
    let a = build_outcome(&layout(), false, b"bad".to_vec(), 1).unwrap();
    let b = build_outcome(&layout(), false, b"bad".to_vec(), 99).unwrap();
    assert!(matches!((a, b), (BuildOutcome::Failure(x), BuildOutcome::Failure(y)) if x == y));
    let a = build_outcome(&layout(), true, vec![], 1).unwrap();
    let b = build_outcome(&layout(), true, vec![], 99).unwrap();
    match (a, b) {
        (
            BuildOutcome::Success { executable: x, elapsed_nanos: 1 },
            BuildOutcome::Success { executable: y, elapsed_nanos: 99 },
        ) => assert_eq!(x, y),
        other => panic!("unexpected {:?}", other),
    }
}

#[test]
fn workspace_layout_paths() {
    let w = layout();
    assert_eq!(w.root, "/tmp/playground-abc");
    assert_eq!(w.input_file, "/tmp/playground-abc/playground.rs");
    assert_eq!(w.output_dir, "/tmp/playground-abc/out");
    assert_eq!(
        w.compiler_args(),
        vec![
            "--out-dir".to_string(),
            "/tmp/playground-abc/out".to_string(),
            "--target".to_string(),
            "wasm32-wasi".to_string(),
            "/tmp/playground-abc/playground.rs".to_string(),
        ]
    );
}

#[test]
fn distinct_workspaces_share_no_path() {
    let a = WorkspaceLayout::new("/tmp/playground-aaaa");
    let b = WorkspaceLayout::new("/tmp/playground-bbbb");
    assert_ne!(a.input_file, b.input_file);
    assert_ne!(a.output_dir, b.output_dir);
    assert_ne!(a.executable_path(), b.executable_path());
}

#[test]
fn unbounded_allocation_is_out_of_memory() {
    let mut l = MemoryLimiter::new(WASM_INSTANCE_MEMORY_LIMIT as usize);
    let mut size = WASM_MINIMUM_MEMORY_SIZE as usize;
    loop {
        let desired = size + 65536;
        if !l.memory_growing(size, desired, None) {
            break;
        }
        size = desired;
    }
    assert!(size <= WASM_INSTANCE_MEMORY_LIMIT as usize);
    assert!(l.memory_limit_exceeded());
    let r = classify_trap(Some("wasm trap: wasm `unreachable` instruction executed".to_string()), l.memory_limit_exceeded());
    assert!(matches!(r, Some(SandboxError::OOM)));
}

#[test]
fn bounded_allocation_completes() {
    let mut l = MemoryLimiter::new(WASM_INSTANCE_MEMORY_LIMIT as usize);
    let start = WASM_MINIMUM_MEMORY_SIZE as usize;
    assert!(l.memory_growing(start, start + 65536, None));
    assert!(!l.memory_limit_exceeded());
    let r = execution_outcome(None, l.memory_limit_exceeded(), vec![]);
    assert!(r.is_ok());
}

#[test]
fn growth_beyond_declared_maximum_is_refused() {
    let mut l = MemoryLimiter::new(1 << 20);
    assert!(!l.memory_growing(0, 65536 * 2, Some(65536)));
    assert!(l.memory_limit_exceeded());
    assert!(l.table_growing(1, 10, None));
    assert!(!l.table_growing(1, 10, Some(5)));
}

#[test]
fn grow_failure_is_recorded() {
    let mut l = MemoryLimiter::new(1 << 20);
    l.memory_grow_failed();
    assert!(l.memory_limit_exceeded());
}

#[test]
fn infinite_loop_is_timeout() {
    let r = execution_outcome(Some("wasm trap: interrupt".to_string()), false, vec![]);
    assert!(matches!(r, Err(SandboxError::Timeout)));
}

#[test]
fn deadline_wins_over_memory() {
    let r = classify_trap(Some("wasm trap: interrupt".to_string()), true);
    assert!(matches!(r, Some(SandboxError::Timeout)));
}

#[test]
fn other_trap_is_internal_with_its_text() {
    let r = classify_trap(Some("wasm trap: integer divide by zero".to_string()), false);
    assert!(matches!(r, Some(SandboxError::Internal(m)) if m == "wasm trap: integer divide by zero"));
}

#[test]
fn deadline_marker_is_a_prefix() {
    assert!(is_deadline_error("wasm trap: interrupt"));
    assert!(is_deadline_error("wasm trap: interrupt at 0x1f"));
    assert!(!is_deadline_error("wasm trap: interrup"));
    assert!(!is_deadline_error("error: wasm trap: interrupt"));
    assert!(!is_deadline_error(""));
}

#[test]
fn ticker_advances_exactly_the_deadline() {
    let limits = SandboxLimits::standard();
    assert_eq!(limits.ticks_before_timeout, 5);
    assert_eq!(limits.tick_interval_millis, 1000);
    assert_eq!(limits.memory_ceiling_bytes, 1_114_112 + 100_000_000);
    let mut t = Ticker::new(limits.ticks_before_timeout);
    let mut advanced = 0;
    for _ in 0..20 {
        if let TickAction::AdvanceEpoch = t.on_tick() {
            advanced += 1;
        }
    }
    assert_eq!(advanced, 5);
    assert!(t.is_done());
    assert!(matches!(t.on_tick(), TickAction::Stop));
}

#[test]
fn bytes_to_string_decodes_multibyte() {
    assert_eq!(bytes_to_string(vec![0xe2, 0x82, 0xac]).unwrap(), "€");
    assert!(bytes_to_string(vec![0xe2, 0x82]).is_none());
    assert!(bytes_to_string(vec![0xed, 0xa0, 0x80]).is_none());
}

#[test]
fn error_messages() {
    assert_eq!(SandboxError::OOM.message(), "out of memory error");
    assert_eq!(SandboxError::Timeout.message(), "timeout error");
    assert_eq!(SandboxError::Internal("x".to_string()).message(), "internal error: x");
}

#[test]
fn replies_map_errors_asymmetrically() {
    assert!(matches!(reply(Err(SandboxError::Internal("secret".to_string()))), Reply::InternalServerError));
    assert!(matches!(reply(Err(SandboxError::Timeout)), Reply::Respond(HandlerResponse::Error(m)) if m == TIMEOUT_MESSAGE));
    assert!(matches!(reply(Err(SandboxError::OOM)), Reply::Respond(HandlerResponse::Error(m)) if m == SANDBOX_VIOLATION_MESSAGE));
    assert!(TIMEOUT_MESSAGE.starts_with("RUNTIME ERROR: Your code took too long"));
}

#[test]
fn run_and_build_responses() {
    let r = run_response(5, Ok("hi".to_string())).unwrap();
    assert!(matches!(r, HandlerResponse::Success(s) if s.elapsed_nanos == 5 && s.output.as_deref() == Some("hi")));
    assert!(matches!(run_response(5, Err(SandboxError::Timeout)), Err(SandboxError::Timeout)));
    let b = build_response(BuildOutcome::Failure("oops".to_string()));
    assert!(matches!(b, HandlerResponse::Error(t) if t == "oops"));
    let b = build_response(BuildOutcome::Success { elapsed_nanos: 3, executable: "x".to_string() });
    assert!(matches!(b, HandlerResponse::Success(s) if s.elapsed_nanos == 3 && s.output.is_none()));
    let r = reply(Ok(HandlerResponse::Error("diag".to_string())));
    assert!(matches!(r, Reply::Respond(HandlerResponse::Error(t)) if t == "diag"));
}

#[test]
fn static_lookup_routes() {
    assert!(matches!(static_lookup("/"), StaticLookup::File(f) if f == "index.html"));
    assert!(matches!(static_lookup(""), StaticLookup::File(f) if f == "index.html"));
    assert!(matches!(static_lookup("//app.js"), StaticLookup::File(f) if f == "app.js"));
    assert!(matches!(static_lookup("/docs/intro"), StaticLookup::Markdown(f) if f == "docs/intro.md"));
}

#[test]
fn sibling_workspaces_share_no_path() {
    let a = WorkspaceLayout::new("/tmp/playground-a");
    let b = WorkspaceLayout::new("/tmp/playground-ab");
    let pa = [a.input_file.clone(), a.output_dir.clone(), a.executable_path()];
    let pb = [b.input_file.clone(), b.output_dir.clone(), b.executable_path()];
    for x in pa.iter() {
        for y in pb.iter() {
            assert_ne!(x, y);
        }
    }
}
