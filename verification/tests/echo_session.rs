use echo_pool::echo::echo_is_done;
use echo_pool::echo::echo_start;
use echo_pool::echo::echo_step;
use echo_pool::echo::run_echo_session;
use echo_pool::EchoAction;
use echo_pool::EchoEvent;
use echo_pool::EchoState;

/// Drive one echo session over a script: the peer's bytes arrive as the
/// given reads, every echo write completes, and the peer then half-closes.
/// Returns the final state and everything the session wrote back.
fn run_session(chunks: Vec<Vec<u8>>) -> (EchoState, Vec<u8>) {
    let mut state = echo_start();
    let mut out: Vec<u8> = Vec::new();
    for chunk in chunks {
        assert_eq!(state, EchoState::Reading);
        let (next, action) = echo_step(state, EchoEvent::BytesRead(chunk.clone()));
        match action {
            EchoAction::Write(b) => {
                assert_eq!(b, chunk);
                out.extend_from_slice(&b);
            }
            other => panic!("expected a write, got {:?}", other),
        }
        state = next;
        let (next, action) = echo_step(state, EchoEvent::WroteAll);
        assert!(matches!(action, EchoAction::Read));
        state = next;
    }
    assert_eq!(state, EchoState::Reading);
    let (next, action) = echo_step(state, EchoEvent::Eof);
    assert!(matches!(action, EchoAction::Close));
    (next, out)
}

#[test]
fn echoes_one_chunk_exactly() {
    let (state, out) = run_session(vec![b"ping".to_vec()]);
    assert_eq!(state, EchoState::Closed);
    assert_eq!(out, b"ping".to_vec());
}

#[test]
fn echoes_empty_byte_sequence() {
    let (state, out) = run_session(vec![]);
    assert_eq!(state, EchoState::Closed);
    assert!(out.is_empty());
}

#[test]
fn echoes_large_sequence_over_multiple_reads() {
    // 2500 bytes, arriving as full 1024-byte reads and a 452-byte tail
    let whole: Vec<u8> = (0..2500u32).map(|i| (i % 251) as u8).collect();
    let chunks: Vec<Vec<u8>> = whole.chunks(1024).map(|c| c.to_vec()).collect();
    assert_eq!(chunks.len(), 3);
    let (state, out) = run_session(chunks);
    assert_eq!(state, EchoState::Closed);
    assert_eq!(out, whole);
}

#[test]
fn echoes_order_preserving() {
    let (state, out) = run_session(vec![b"hello".to_vec(), b" ".to_vec(), b"world".to_vec()]);
    assert_eq!(state, EchoState::Closed);
    assert_eq!(out, b"hello world".to_vec());
}

#[test]
fn timeout_terminates_and_closes() {
    let state = echo_start();
    let (next, action) = echo_step(state, EchoEvent::ReadTimedOut);
    assert_eq!(next, EchoState::TimedOut);
    assert!(matches!(action, EchoAction::Close));
    assert!(echo_is_done(next));
}

#[test]
fn timeout_leaves_other_session_untouched() {
    // two sessions interleaved: one idles out, the other still echoes
    let mut a = echo_start();
    let mut b = echo_start();
    let (a2, a_action) = echo_step(a, EchoEvent::ReadTimedOut);
    a = a2;
    let (b2, b_action) = echo_step(b, EchoEvent::BytesRead(b"still here".to_vec()));
    b = b2;
    assert_eq!(a, EchoState::TimedOut);
    assert!(matches!(a_action, EchoAction::Close));
    assert_eq!(b, EchoState::Writing);
    match b_action {
        EchoAction::Write(bytes) => assert_eq!(bytes, b"still here".to_vec()),
        other => panic!("expected a write, got {:?}", other),
    }
    let (b3, _) = echo_step(b, EchoEvent::WroteAll);
    let (b4, b_close) = echo_step(b3, EchoEvent::Eof);
    assert_eq!(b4, EchoState::Closed);
    assert!(matches!(b_close, EchoAction::Close));
}

#[test]
fn read_error_terminates_and_closes() {
    let (next, action) = echo_step(EchoState::Reading, EchoEvent::ReadError);
    assert_eq!(next, EchoState::IoError);
    assert!(matches!(action, EchoAction::Close));
}

#[test]
fn write_error_terminates_and_closes() {
    let (state, action) = echo_step(EchoState::Reading, EchoEvent::BytesRead(b"x".to_vec()));
    assert!(matches!(action, EchoAction::Write(_)));
    let (next, action) = echo_step(state, EchoEvent::WriteError);
    assert_eq!(next, EchoState::IoError);
    assert!(matches!(action, EchoAction::Close));
}

#[test]
fn impossible_event_fails_the_session_closed() {
    // a write report while reading cannot come from well-behaved I/O;
    // the table still terminates the session with the connection closed
    let (next, action) = echo_step(EchoState::Reading, EchoEvent::WroteAll);
    assert_eq!(next, EchoState::IoError);
    assert!(matches!(action, EchoAction::Close));
    let (next, action) = echo_step(EchoState::Closed, EchoEvent::Eof);
    assert_eq!(next, EchoState::IoError);
    assert!(matches!(action, EchoAction::Close));
}

#[test]
fn session_runner_echoes_in_order() {
    let events = vec![
        EchoEvent::BytesRead(b"ab".to_vec()),
        EchoEvent::WroteAll,
        EchoEvent::BytesRead(b"cd".to_vec()),
        EchoEvent::WroteAll,
        EchoEvent::Eof,
    ];
    let (state, out) = run_echo_session(events);
    assert_eq!(state, EchoState::Closed);
    assert_eq!(out, b"abcd".to_vec());
}

#[test]
fn session_runner_stops_on_write_failure() {
    let events = vec![EchoEvent::BytesRead(b"xy".to_vec()), EchoEvent::WriteError];
    let (state, out) = run_echo_session(events);
    assert_eq!(state, EchoState::IoError);
    // the write of "xy" was issued, then reported failed
    assert_eq!(out, b"xy".to_vec());
}

#[test]
fn session_runner_times_out_idle_connection() {
    let events = vec![EchoEvent::ReadTimedOut];
    let (state, out) = run_echo_session(events);
    assert_eq!(state, EchoState::TimedOut);
    assert!(out.is_empty());
}

#[test]
fn terminal_states_are_done() {
    assert!(!echo_is_done(EchoState::Reading));
    assert!(!echo_is_done(EchoState::Writing));
    assert!(echo_is_done(EchoState::Closed));
    assert!(echo_is_done(EchoState::TimedOut));
    assert!(echo_is_done(EchoState::IoError));
}
