use beam_driver::failure::{protocol_failure, spawn_failure, write_failure, CompileFailure, SpawnError};
use beam_driver::protocol::{classify_line, ProtocolLine};
use beam_driver::reader::{read_response, response_step, OutputSink, ReaderStep, ResponseEvent};
use beam_driver::supervisor::{
    ensure_decision, teardown_decision, EnsureAction, ProbeOutcome, TeardownAction,
};

#[test]
fn classify_recognizes_sentinels() {
    assert_eq!(classify_line("ok\n".to_string()), ProtocolLine::Success);
    assert_eq!(classify_line("ok".to_string()), ProtocolLine::Success);
    assert_eq!(classify_line("  ok \t\r\n".to_string()), ProtocolLine::Success);
    assert_eq!(classify_line("err\n".to_string()), ProtocolLine::Failure);
    assert_eq!(classify_line("err".to_string()), ProtocolLine::Failure);
}

#[test]
fn classify_passes_other_lines_through_verbatim() {
    assert_eq!(
        classify_line("compiling foo\n".to_string()),
        ProtocolLine::PassThrough("compiling foo\n".to_string())
    );
    assert_eq!(
        classify_line("okay\n".to_string()),
        ProtocolLine::PassThrough("okay\n".to_string())
    );
    assert_eq!(
        classify_line("ok ok\n".to_string()),
        ProtocolLine::PassThrough("ok ok\n".to_string())
    );
    assert_eq!(classify_line(String::new()), ProtocolLine::PassThrough(String::new()));
}

#[test]
fn response_with_diagnostics_then_ok_succeeds_and_forwards() {
    let lines = vec!["compiling foo\n".to_string(), "ok\n".to_string()];
    let (result, forwarded) = read_response(&lines, OutputSink::Forward);
    assert_eq!(result, Ok(()));
    assert_eq!(forwarded, vec!["compiling foo\n".to_string()]);
}

#[test]
fn response_err_fails_with_no_detail() {
    let lines = vec!["err\n".to_string()];
    let (result, forwarded) = read_response(&lines, OutputSink::Forward);
    assert_eq!(
        result,
        Err(CompileFailure::ShellCommand { program: "escript".to_string(), err: None })
    );
    assert!(forwarded.is_empty());
}

#[test]
fn stream_closed_without_sentinel_fails_like_err() {
    let lines = vec!["still working\n".to_string()];
    let (result, forwarded) = read_response(&lines, OutputSink::Forward);
    let explicit_err = read_response(&vec!["err\n".to_string()], OutputSink::Forward).0;
    // The two failures are indistinguishable: same kind, no detail payload.
    assert_eq!(result, explicit_err);
    assert_eq!(forwarded, vec!["still working\n".to_string()]);
}

#[test]
fn discarding_sink_forwards_nothing() {
    let lines = vec!["noise\n".to_string(), "more noise\n".to_string(), "ok\n".to_string()];
    let (result, forwarded) = read_response(&lines, OutputSink::Discard);
    assert_eq!(result, Ok(()));
    assert!(forwarded.is_empty());
}

#[test]
fn first_sentinel_decides() {
    let lines = vec!["ok\n".to_string(), "err\n".to_string()];
    let (result, forwarded) = read_response(&lines, OutputSink::Forward);
    assert_eq!(result, Ok(()));
    assert!(forwarded.is_empty());
}

#[test]
fn empty_stream_is_a_failure() {
    let lines: Vec<String> = Vec::new();
    let (result, _) = read_response(&lines, OutputSink::Forward);
    assert_eq!(result, Err(protocol_failure()));
}

#[test]
fn step_by_step_reading_matches_whole_stream() {
    assert_eq!(
        response_step(ResponseEvent::Line("ok\n".to_string()), OutputSink::Forward),
        ReaderStep::Done(Ok(()))
    );
    assert_eq!(
        response_step(ResponseEvent::Line("warn\n".to_string()), OutputSink::Forward),
        ReaderStep::Emit("warn\n".to_string())
    );
    assert_eq!(
        response_step(ResponseEvent::Line("warn\n".to_string()), OutputSink::Discard),
        ReaderStep::Quiet
    );
    assert_eq!(
        response_step(ResponseEvent::Closed, OutputSink::Discard),
        ReaderStep::Done(Err(protocol_failure()))
    );
}

#[test]
fn live_worker_is_reused() {
    assert_eq!(ensure_decision(Some(7), ProbeOutcome::Running), EnsureAction::Reuse(7));
}

#[test]
fn dead_or_unprobeable_worker_is_replaced() {
    assert_eq!(ensure_decision(Some(7), ProbeOutcome::Exited), EnsureAction::SpawnNew);
    assert_eq!(ensure_decision(Some(7), ProbeOutcome::ProbeFailed), EnsureAction::SpawnNew);
    assert_eq!(ensure_decision(None, ProbeOutcome::Running), EnsureAction::SpawnNew);
}

#[test]
fn teardown_kills_and_reaps_the_owned_worker() {
    assert_eq!(teardown_decision(Some(3)), TeardownAction::KillThenReap(3));
    assert_eq!(teardown_decision(None), TeardownAction::NoProcess);
}

#[test]
fn missing_executable_is_program_not_found() {
    let failure = spawn_failure(&SpawnError::NotFound);
    assert_eq!(failure, CompileFailure::ProgramNotFound { program: "escript".to_string() });
    assert!(!matches!(failure, CompileFailure::ShellCommand { .. }));
}

#[test]
fn other_spawn_failures_keep_the_os_error_code() {
    assert_eq!(
        spawn_failure(&SpawnError::Other(Some(13))),
        CompileFailure::ShellCommand { program: "escript".to_string(), err: Some(13) }
    );
    assert_eq!(
        spawn_failure(&SpawnError::Other(None)),
        CompileFailure::ShellCommand { program: "escript".to_string(), err: None }
    );
}

#[test]
fn write_failures_are_shell_command_errors() {
    assert_eq!(
        write_failure(Some(32)),
        CompileFailure::ShellCommand { program: "escript".to_string(), err: Some(32) }
    );
    assert_eq!(
        write_failure(None),
        CompileFailure::ShellCommand { program: "escript".to_string(), err: None }
    );
}
