use split_ssh::framing::MAX_PAYLOAD;
use split_ssh::pump::{
    IoErrorKind, PumpA, PumpAState, PumpB, PumpBState, ReadOutcome, Role, TakeResult,
    WriteOutcome, is_io_err_minor,
};

fn frame_in_flight(pump: &PumpA) -> Vec<u8> {
    match &pump.state {
        PumpAState::Writing { frame, cursor } => {
            assert_eq!(*cursor, 0);
            frame.clone()
        }
        _ => panic!("pump A should be writing a frame"),
    }
}

fn payload_in_flight(pump: &PumpB) -> Vec<u8> {
    match &pump.state {
        PumpBState::Writing { payload, cursor } => {
            assert_eq!(*cursor, 0);
            payload.clone()
        }
        _ => panic!("pump B should be writing a payload"),
    }
}

/// Push one burst through pump A and hand the frame to pump B; return the
/// payload pump B would write out.
fn relay(a: &mut PumpA, b: &mut PumpB, burst: &[u8]) -> Vec<u8> {
    a.on_sock_read(ReadOutcome::Bytes(burst.to_vec()));
    let frame = frame_in_flight(a);
    a.on_pipe_write(WriteOutcome::Wrote(frame.len()));
    assert!(matches!(a.state, PumpAState::Idle));

    b.on_pipe_read(ReadOutcome::Bytes(frame));
    assert!(matches!(b.take_frame(), TakeResult::Deliver));
    let payload = payload_in_flight(b);
    b.on_sock_write(WriteOutcome::Wrote(payload.len()));
    assert!(matches!(b.state, PumpBState::Receiving));
    payload
}

#[test]
fn happy_path_one_query() {
    // The client's 36-byte request travels to the vault untouched, and the
    // 512-byte answer travels back untouched.
    let mut client_a = PumpA::new(Role::Listener);
    let mut vault_b = PumpB::new(Role::Connector);
    let request: Vec<u8> = (0..36).map(|i| i as u8).collect();
    assert_eq!(relay(&mut client_a, &mut vault_b, &request), request);

    let mut vault_a = PumpA::new(Role::Connector);
    let mut client_b = PumpB::new(Role::Listener);
    let response = vec![0x5au8; 512];
    assert_eq!(relay(&mut vault_a, &mut client_b, &response), response);
}

#[test]
fn client_reconnect() {
    // Client 1 sends 36 bytes and closes; client 2 takes over within the
    // same session and sends its own 36 bytes. The vault sees both payloads,
    // in order, separated by the reconnect signal.
    let mut a = PumpA::new(Role::Listener);
    let mut b = PumpB::new(Role::Connector);

    let first = vec![1u8; 36];
    assert_eq!(relay(&mut a, &mut b, &first), first);

    // Client 1 closes: the listener waits for a replacement.
    a.on_sock_read(ReadOutcome::Closed);
    assert!(matches!(a.state, PumpAState::ReconnectWait));

    // Client 2's stream is installed: the listener announces it.
    a.on_replacement();
    let signal = frame_in_flight(&a);
    a.on_pipe_write(WriteOutcome::Wrote(signal.len()));

    // The vault consumes the signal and fetches a fresh agent stream.
    b.on_pipe_read(ReadOutcome::Bytes(signal));
    assert!(matches!(b.take_frame(), TakeResult::ReconnSignal));
    assert!(matches!(b.state, PumpBState::AgentSwap));
    b.on_agent_connected();

    let second = vec![2u8; 36];
    assert_eq!(relay(&mut a, &mut b, &second), second);
}

#[test]
fn vault_agent_restart() {
    // The connector's stream to ssh-agent dies mid-session: the connector
    // terminates, and the listener terminates when the pipe goes quiet.
    let mut vault_a = PumpA::new(Role::Connector);
    vault_a.on_sock_read(ReadOutcome::Failed(IoErrorKind::ConnectionReset));
    assert!(matches!(vault_a.state, PumpAState::Terminated));

    let mut client_b = PumpB::new(Role::Listener);
    client_b.on_pipe_read(ReadOutcome::Closed);
    assert!(matches!(client_b.state, PumpBState::Terminated));
}

#[test]
fn oversize_input() {
    // 70 KiB arrive in bursts no larger than a frame's payload; the vault
    // reassembles exactly the original bytes.
    let input: Vec<u8> = (0..71680u32).map(|i| (i % 251) as u8).collect();
    let mut a = PumpA::new(Role::Listener);
    let mut b = PumpB::new(Role::Connector);

    let mut out: Vec<u8> = Vec::new();
    for burst in input.chunks(MAX_PAYLOAD) {
        assert!(burst.len() <= MAX_PAYLOAD);
        out.extend_from_slice(&relay(&mut a, &mut b, burst));
    }
    assert_eq!(out, input);
}

#[test]
fn idle_timeouts_change_nothing() {
    // A quiet minute is sixty timed-out reads: both pumps stay where they
    // are and emit nothing.
    let mut a = PumpA::new(Role::Listener);
    let mut b = PumpB::new(Role::Listener);
    for _ in 0..60 {
        a.on_sock_read(ReadOutcome::Failed(IoErrorKind::TimedOut));
        assert!(matches!(a.state, PumpAState::Idle));
        b.on_pipe_read(ReadOutcome::Failed(IoErrorKind::TimedOut));
        assert!(matches!(b.state, PumpBState::Receiving));
        assert!(matches!(b.take_frame(), TakeResult::NeedBytes));
    }
}

#[test]
fn kill_during_io() {
    // The supervisor is dropped while pump B is mid-write: both pumps exit
    // as soon as they observe the kill flag, whatever they were doing.
    let mut a = PumpA::new(Role::Listener);
    a.on_sock_read(ReadOutcome::Bytes(vec![9u8; 8]));
    let frame = frame_in_flight(&a);
    a.on_pipe_write(WriteOutcome::Wrote(3));

    let mut b = PumpB::new(Role::Listener);
    b.on_pipe_read(ReadOutcome::Bytes(frame));
    assert!(matches!(b.take_frame(), TakeResult::Deliver));
    b.on_sock_write(WriteOutcome::Wrote(2));

    a.terminate();
    b.terminate();
    assert!(matches!(a.state, PumpAState::Terminated));
    assert!(matches!(b.state, PumpBState::Terminated));
}

#[test]
fn short_writes_advance_the_cursor() {
    let mut a = PumpA::new(Role::Connector);
    a.on_sock_read(ReadOutcome::Bytes(vec![4u8; 10]));
    let frame = frame_in_flight(&a);
    a.on_pipe_write(WriteOutcome::Wrote(5));
    match &a.state {
        PumpAState::Writing { cursor, .. } => assert_eq!(*cursor, 5),
        _ => panic!("half the frame is still to write"),
    }
    a.on_pipe_write(WriteOutcome::Failed(IoErrorKind::WouldBlock));
    match &a.state {
        PumpAState::Writing { cursor, .. } => assert_eq!(*cursor, 5),
        _ => panic!("a transient failure leaves the cursor alone"),
    }
    a.on_pipe_write(WriteOutcome::Wrote(frame.len() - 5));
    assert!(matches!(a.state, PumpAState::Idle));
}

#[test]
fn broken_pipe_ends_the_session_for_both_roles() {
    for role in [Role::Listener, Role::Connector] {
        let mut a = PumpA::new(role);
        a.on_sock_read(ReadOutcome::Bytes(vec![1u8; 4]));
        a.on_pipe_write(WriteOutcome::Failed(IoErrorKind::BrokenPipe));
        assert!(matches!(a.state, PumpAState::Terminated));
    }
}

#[test]
fn local_write_failure_follows_the_role() {
    // A broken local stream mid-payload: the listener drops the payload and
    // waits for a replacement; the connector gives up.
    let mut b = PumpB::new(Role::Listener);
    b.on_pipe_read(ReadOutcome::Bytes(split_ssh::framing::encode_frame(
        &vec![6u8; 12],
        split_ssh::msg_header::FLAG_NONE,
    )));
    assert!(matches!(b.take_frame(), TakeResult::Deliver));
    b.on_sock_write(WriteOutcome::Failed(IoErrorKind::BrokenPipe));
    assert!(matches!(b.state, PumpBState::ReconnectWait));
    b.on_replacement();
    assert!(matches!(b.state, PumpBState::Receiving));

    let mut b = PumpB::new(Role::Connector);
    b.on_pipe_read(ReadOutcome::Bytes(split_ssh::framing::encode_frame(
        &vec![6u8; 12],
        split_ssh::msg_header::FLAG_NONE,
    )));
    assert!(matches!(b.take_frame(), TakeResult::Deliver));
    b.on_sock_write(WriteOutcome::Failed(IoErrorKind::ConnectionReset));
    assert!(matches!(b.state, PumpBState::Terminated));
}

#[test]
fn oversize_frame_is_fatal() {
    let mut b = PumpB::new(Role::Listener);
    let mut bogus = ((MAX_PAYLOAD as u64) + 1).to_le_bytes().to_vec();
    bogus.push(0);
    b.on_pipe_read(ReadOutcome::Bytes(bogus));
    assert!(matches!(b.take_frame(), TakeResult::Corrupt));
    assert!(matches!(b.state, PumpBState::Terminated));
}

#[test]
fn minor_errors_are_exactly_the_transient_ones() {
    assert!(is_io_err_minor(IoErrorKind::Interrupted));
    assert!(is_io_err_minor(IoErrorKind::WouldBlock));
    assert!(is_io_err_minor(IoErrorKind::TimedOut));
    assert!(!is_io_err_minor(IoErrorKind::BrokenPipe));
    assert!(!is_io_err_minor(IoErrorKind::ConnectionReset));
    assert!(!is_io_err_minor(IoErrorKind::UnexpectedEof));
    assert!(!is_io_err_minor(IoErrorKind::Other));
}

#[test]
fn unexpected_read_error_is_fatal() {
    let mut a = PumpA::new(Role::Listener);
    a.on_sock_read(ReadOutcome::Failed(IoErrorKind::Other));
    assert!(matches!(a.state, PumpAState::Terminated));
}
