use galpi::process::{
    absorb_line_bytes, cancelled, conclude, line_text, ProcessGroupGuard, StderrTail, MAX_LINE_BYTES,
};
use galpi::worker::{ProcessResult, WorkerOutcome};

#[test]
fn rejects_oversized_line_before_unbounded_growth() {
    // A reader hands out its buffer in pieces; none of them holds a newline.
    let bytes = vec![b'x'; MAX_LINE_BYTES + 1];
    let mut buffer = Vec::new();
    let mut rejected = false;
    for piece in bytes.chunks(8192) {
        match absorb_line_bytes(&mut buffer, piece) {
            Ok(absorbed) => assert_eq!(absorbed.consumed, piece.len()),
            Err(error) => {
                assert_eq!(error.code, "WORKER_PROTOCOL_ERROR");
                rejected = true;
                break;
            }
        }
    }
    assert!(rejected);
    assert!(buffer.len() <= MAX_LINE_BYTES);
}

#[test]
fn a_line_ends_at_the_first_newline() {
    let mut buffer = Vec::new();
    let absorbed = absorb_line_bytes(&mut buffer, b"{\"v\":1}\r\nnext");
    let absorbed = absorbed.map(|a| (a.consumed, a.complete));
    assert_eq!(absorbed, Ok((9, true)));
    assert_eq!(line_text(&buffer), Ok("{\"v\":1}".to_owned()));
}

#[test]
fn a_line_may_arrive_in_pieces() {
    let mut buffer = Vec::new();
    let first = absorb_line_bytes(&mut buffer, "정렬".as_bytes()).map(|a| (a.consumed, a.complete));
    assert_eq!(first, Ok((6, false)));
    let second = absorb_line_bytes(&mut buffer, " 중\n".as_bytes()).map(|a| (a.consumed, a.complete));
    assert_eq!(second, Ok((5, true)));
    assert_eq!(line_text(&buffer), Ok("정렬 중".to_owned()));
}

#[test]
fn a_line_that_is_not_utf8_is_a_protocol_error() {
    let buffer = vec![0xff, 0xfe, b'\n'];
    assert_eq!(line_text(&buffer).err().map(|e| e.code), Some("WORKER_PROTOCOL_ERROR".to_owned()));
}

#[test]
fn a_failing_child_reports_its_last_stderr_line() {
    let mut tail = StderrTail::new();
    tail.push("first".to_owned());
    tail.push("last".to_owned());
    assert_eq!(tail.failure_detail("exit status: 3"), "last");
    assert_eq!(StderrTail::new().failure_detail("exit status: 3"), "exit status exit status: 3");
}

#[test]
fn the_stderr_tail_keeps_the_last_twenty_lines() {
    let mut tail = StderrTail::new();
    for i in 0..25 {
        tail.push(format!("line {i}"));
    }
    assert_eq!(tail.lines.len(), 20);
    assert_eq!(tail.lines[0], "line 5");
    assert_eq!(tail.lines[19], "line 24");
}

#[test]
fn a_process_group_is_signalled_through_its_negated_id() {
    let mut guard = ProcessGroupGuard::new(4242);
    assert!(guard.armed);
    assert_eq!(guard.group_target(), Ok(-4242));
    guard.disarm();
    assert!(!guard.armed);
    let huge = ProcessGroupGuard::new(u32::MAX);
    assert_eq!(huge.group_target().err().map(|e| e.code), Some("PROCESS_ERROR".to_owned()));
}

#[test]
fn a_run_succeeds_with_its_result_or_fails_with_its_last_words() {
    let mut result = ProcessResult::new();
    assert!(result.accept(1, WorkerOutcome::Refined { minutes: "/m.md".to_owned() }).is_ok());
    let mut tail = StderrTail::new();
    assert_eq!(conclude(result.clone(), &tail, true, "exit status: 0"), Ok(result.clone()));
    tail.push("Traceback: boom".to_owned());
    let failed = conclude(result, &tail, false, "exit status: 1").err();
    assert_eq!(failed.clone().map(|e| e.code), Some("PROCESS_FAILED".to_owned()));
    assert_eq!(failed.map(|e| e.message), Some("Traceback: boom".to_owned()));
    assert_eq!(cancelled().code, "CANCELLED");
}

#[test]
fn events_in_another_protocol_version_are_refused() {
    let mut result = ProcessResult::new();
    let refused = result.accept(2, WorkerOutcome::Refined { minutes: "/m.md".to_owned() });
    assert_eq!(refused.clone().err().map(|e| e.code), Some("WORKER_PROTOCOL_ERROR".to_owned()));
    assert_eq!(refused.err().map(|e| e.message), Some("unsupported worker protocol version 2".to_owned()));
    assert_eq!(result.completed, None);
}
