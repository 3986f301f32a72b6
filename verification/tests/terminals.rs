use executors::acp::client::ClientError;
use executors::acp::terminal::{
    exit_status_lost, spawn_failed, terminal_exit_status, ExitWait, TerminalBuffer,
    TerminalExitStatus, Terminals, DEFAULT_TERMINAL_OUTPUT_BYTE_LIMIT,
};

#[test]
fn terminal_buffer_keeps_output_under_limit_untouched() {
    let mut buffer = TerminalBuffer::default();
    buffer.push(b"hello", 10);
    assert!(!buffer.truncated);
    assert_eq!(buffer.output, b"hello");
}

#[test]
fn terminal_buffer_truncates_from_the_front() {
    let mut buffer = TerminalBuffer::default();
    buffer.push("héllo wörld".as_bytes(), 5);
    assert!(buffer.truncated);
    assert_eq!(String::from_utf8(buffer.output).unwrap(), "örld");
}

#[test]
fn terminal_buffer_never_splits_multibyte_chars() {
    let mut buffer = TerminalBuffer::default();
    buffer.push("aé".as_bytes(), 1);
    assert!(buffer.truncated);
    assert!(buffer.output.is_empty());
}

#[test]
fn terminal_buffer_stays_within_its_limit_over_many_pieces() {
    let mut buffer = TerminalBuffer::default();
    for piece in ["方案 A", ", ", "é", "方案 B", ""] {
        buffer.push(piece.as_bytes(), 7);
        assert!(buffer.output.len() <= 7);
        assert!(String::from_utf8(buffer.output.clone()).is_ok());
    }
    assert_eq!(String::from_utf8(buffer.output).unwrap(), "案 B");
    assert!(buffer.truncated);
}

#[test]
fn how_output_is_cut_into_pieces_does_not_show() {
    let text = "naïve 方案 🦀 end".as_bytes();
    for limit in 4..20u64 {
        let mut at_once = TerminalBuffer::default();
        at_once.push(text, limit);
        for cut in 0..text.len() {
            let mut in_two = TerminalBuffer::default();
            in_two.push(&text[..cut], limit);
            in_two.push(&text[cut..], limit);
            assert_eq!(in_two.output, at_once.output);
            assert_eq!(in_two.truncated, at_once.truncated);
        }
        let mut by_bytes = TerminalBuffer::default();
        for byte in text {
            by_bytes.push(&[*byte], limit);
        }
        assert_eq!(by_bytes.output, at_once.output);
        assert_eq!(by_bytes.truncated, at_once.truncated);
    }
}

#[test]
fn terminal_buffer_stays_marked_as_cut() {
    let mut buffer = TerminalBuffer::default();
    buffer.push(b"abc", 2);
    buffer.push(b"", 10);
    assert!(buffer.truncated);
    assert_eq!(buffer.output, b"bc");
    buffer.push(b"d", 0);
    assert!(buffer.output.is_empty());
}

#[test]
fn exit_status_has_the_code_or_the_signal() {
    let exited = terminal_exit_status(Some(3), None);
    assert_eq!(exited.exit_code, Some(3));
    assert_eq!(exited.signal, None);
    let killed = terminal_exit_status(None, Some(9));
    assert_eq!(killed.exit_code, None);
    assert_eq!(killed.signal.as_deref(), Some("9"));
    let wrapped = terminal_exit_status(Some(-1), None);
    assert_eq!(wrapped.exit_code, Some(4_294_967_295));
}

#[test]
fn a_terminal_is_known_until_it_is_released() {
    let mut terminals = Terminals::new();
    let id = terminals.create_terminal(Some(4));
    assert!(id.starts_with("term-"));
    assert_eq!(id.len(), 41);

    terminals.push_output(&id, b"abcdef");
    let shown = terminals.terminal_output(&id).unwrap();
    assert_eq!(shown.output, "cdef");
    assert!(shown.truncated);
    assert!(shown.exit_status.is_none());
    assert!(matches!(terminals.wait_for_terminal_exit(&id), Ok(ExitWait::StillRunning)));
    assert!(terminals.kill_terminal_command(&id).is_ok());

    let status = TerminalExitStatus { exit_code: Some(0), signal: None };
    terminals.record_exit(&id, status);
    match terminals.wait_for_terminal_exit(&id) {
        Ok(ExitWait::Exited(status)) => assert_eq!(status.exit_code, Some(0)),
        other => panic!("expected an exit, got {other:?}"),
    }
    assert!(terminals.terminal_output(&id).unwrap().exit_status.is_some());

    assert!(terminals.release_terminal(&id));
    assert!(!terminals.release_terminal(&id));
    let unknown = ClientError::InvalidParams { data: "unknown terminal id".to_string() };
    assert_eq!(terminals.terminal_output(&id).unwrap_err(), unknown);
    let unknown = ClientError::InvalidParams { data: "unknown terminal id".to_string() };
    assert_eq!(terminals.kill_terminal_command(&id).unwrap_err(), unknown);
    assert!(terminals.wait_for_terminal_exit(&id).is_err());
    terminals.push_output(&id, b"late");
    terminals.record_exit(&id, TerminalExitStatus { exit_code: None, signal: None });
    assert!(terminals.terminal_output(&id).is_err());
}

#[test]
fn output_that_is_no_text_is_shown_with_marks() {
    let mut terminals = Terminals::new();
    let id = terminals.create_terminal(None);
    terminals.push_output(&id, &[b'a', 0xff, b'b']);
    let shown = terminals.terminal_output(&id).unwrap();
    assert_eq!(shown.output, "a\u{fffd}b");
    assert!(!shown.truncated);
}

#[test]
fn a_terminal_without_a_limit_keeps_a_mebibyte() {
    assert_eq!(DEFAULT_TERMINAL_OUTPUT_BYTE_LIMIT, 1024 * 1024);
    let mut terminals = Terminals::new();
    let id = terminals.create_terminal(None);
    let other = terminals.create_terminal(None);
    assert_ne!(id, other);
    let chunk = vec![b'x'; 700_000];
    terminals.push_output(&id, &chunk);
    assert!(!terminals.terminal_output(&id).unwrap().truncated);
    terminals.push_output(&id, &chunk);
    let shown = terminals.terminal_output(&id).unwrap();
    assert!(shown.truncated);
    assert_eq!(shown.output.len(), 1024 * 1024);
    assert_eq!(terminals.terminal_output(&other).unwrap().output, "");
}

#[test]
fn failures_say_what_happened() {
    assert_eq!(
        spawn_failed("ls", "no such file"),
        ClientError::InternalError { data: Some("failed to spawn `ls`: no such file".to_string()) }
    );
    assert_eq!(
        exit_status_lost(),
        ClientError::InternalError { data: Some("terminal exited without status".to_string()) }
    );
}
