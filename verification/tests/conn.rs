use boringssl::Bio;
use boringssl::Client;
use boringssl::Context;
use boringssl::Error;
use boringssl::ShutdownStatus;
use boringssl::State;
use boringssl::VerifyMode;
use boringssl::TLS1_2_VERSION;

// Engine status codes, as the engine's error-inspection call reports them.
const WANT_READ: i32 = 2;
const WANT_WRITE: i32 = 3;
const SYSCALL: i32 = 5;
const ZERO_RETURN: i32 = 6;

fn established_client() -> Client {
    let ctx = Context::new(true).unwrap();
    let mut conn = Client::new_socket(&ctx, 3, true, true).unwrap();
    conn.handshake(1, 0).unwrap();
    assert_eq!(conn.state(), State::Established);
    conn
}

#[test]
fn end_to_end_handshake_then_read() {
    // Configuration with minimum version TLS 1.2 and no verification,
    // against an engine that succeeds on the first handshake call.
    let mut ctx = Context::new(true).unwrap();
    ctx.set_min_version(TLS1_2_VERSION);
    ctx.set_verify(VerifyMode::NoVerify);

    let mut conn = Client::new_socket(&ctx, 7, true, true).unwrap();
    assert_eq!(conn.state(), State::Created);
    assert_eq!(conn.policy().min_version, TLS1_2_VERSION);
    assert_eq!(conn.policy().verify, VerifyMode::NoVerify);

    assert!(conn.check_handshake().is_ok());
    conn.handshake(1, 0).unwrap();
    assert_eq!(conn.state(), State::Established);

    // A read the engine answers with 5 bytes surfaces exactly 5.
    assert!(conn.check_read().is_ok());
    assert_eq!(conn.read(32, 5, 0).unwrap(), 5);
    assert_eq!(conn.state(), State::Established);
}

#[test]
fn handshake_retries_after_want_read() {
    let ctx = Context::new(true).unwrap();
    let mut conn = Client::new_socket(&ctx, 7, true, true).unwrap();

    // First call: the engine wants transport readability.
    match conn.handshake(-1, WANT_READ) {
        Err(Error::WantRead) => {}
        other => panic!("expected WantRead, got {:?}", other),
    }
    assert_eq!(conn.state(), State::Handshaking);

    // After simulated readiness the same call completes, nothing
    // having been reconfigured.
    assert!(conn.check_handshake().is_ok());
    conn.handshake(1, 0).unwrap();
    assert_eq!(conn.state(), State::Established);
}

#[test]
fn operations_after_fatal_error_fail_fast() {
    let mut conn = established_client();

    // A fatal transport failure moves the connection to Failed.
    match conn.read(16, -1, SYSCALL) {
        Err(Error::Syscall) => {}
        other => panic!("expected Syscall, got {:?}", other),
    }
    assert_eq!(conn.state(), State::Failed);

    // Every guard now refuses before any engine call would be made...
    assert_eq!(conn.check_read(), Err(Error::Ssl));
    assert_eq!(conn.check_write(&[1u8]), Err(Error::Ssl));
    assert_eq!(conn.check_shutdown(), Err(Error::Ssl));
    assert_eq!(conn.check_handshake(), Err(Error::Ssl));

    // ...and the operations themselves fail fast, ignoring even a
    // would-be-success outcome.
    assert_eq!(conn.read(16, 5, 0), Err(Error::Ssl));
    assert_eq!(conn.write(&[1u8], 1, 0), Err(Error::Ssl));
    assert_eq!(conn.handshake(1, 0), Err(Error::Ssl));
    assert!(conn.shutdown(1, 0).is_err());
    assert_eq!(conn.state(), State::Failed);
}

#[test]
fn fatal_handshake_error_fails_the_connection() {
    let ctx = Context::new(true).unwrap();
    let mut conn = Client::new_socket(&ctx, 7, true, true).unwrap();
    match conn.handshake(-1, 1) {
        Err(Error::Ssl) => {}
        other => panic!("expected Ssl, got {:?}", other),
    }
    assert_eq!(conn.state(), State::Failed);
}

#[test]
fn fatal_write_error_fails_and_clears_the_commitment() {
    let mut conn = established_client();
    let b1 = [1u8, 2, 3];
    assert_eq!(conn.write(&b1, -1, WANT_WRITE), Err(Error::WantWrite));
    assert!(conn.has_unresolved_write());
    // The identical retry is legitimate, but the engine now fails fatally.
    assert_eq!(conn.write(&b1, -1, SYSCALL), Err(Error::Syscall));
    assert_eq!(conn.state(), State::Failed);
    assert!(!conn.has_unresolved_write());
}

#[test]
fn operations_after_close_fail_fast() {
    let mut conn = established_client();
    conn.shutdown(0, 0).unwrap();
    conn.shutdown(1, 0).unwrap();
    assert_eq!(conn.state(), State::Closed);

    assert_eq!(conn.check_read(), Err(Error::Ssl));
    assert_eq!(conn.check_write(&[1u8]), Err(Error::Ssl));
    assert_eq!(conn.read(16, 5, 0), Err(Error::Ssl));
    assert_eq!(conn.write(&[1u8], 1, 0), Err(Error::Ssl));
}

#[test]
fn write_retry_must_extend_the_committed_buffer() {
    let mut conn = established_client();

    let b1 = [10u8, 20, 30];
    match conn.write(&b1, -1, WANT_WRITE) {
        Err(Error::WantWrite) => {}
        other => panic!("expected WantWrite, got {:?}", other),
    }
    assert!(conn.has_unresolved_write());

    // Shortened retry: flagged, engine not called.
    assert_eq!(conn.check_write(&b1[..2]), Err(Error::RetryMismatch));
    assert_eq!(conn.write(&b1[..2], 1, 0), Err(Error::RetryMismatch));

    // Content-mismatched retry: flagged.
    assert_eq!(conn.check_write(&[10u8, 99, 30]), Err(Error::RetryMismatch));
    assert_eq!(conn.write(&[10u8, 99, 30], 3, 0), Err(Error::RetryMismatch));
    assert!(conn.has_unresolved_write());

    // Byte-identical retry: legitimate.
    assert!(conn.check_write(&b1).is_ok());
    // Superset with the original as prefix: legitimate, and success
    // resolves the commitment.
    let b2 = [10u8, 20, 30, 40];
    assert!(conn.check_write(&b2).is_ok());
    assert_eq!(conn.write(&b2, 4, 0).unwrap(), 4);
    assert!(!conn.has_unresolved_write());
}

#[test]
fn two_phase_shutdown_completes_in_two_calls() {
    let mut conn = established_client();

    // Phase one: close-notify sent, peer's not yet received.
    assert_eq!(conn.shutdown(0, 0).unwrap(), ShutdownStatus::Sent);
    assert_eq!(conn.state(), State::ShuttingDown);

    // Phase two: sent and received.
    assert_eq!(conn.shutdown(1, 0).unwrap(), ShutdownStatus::Complete);
    assert_eq!(conn.state(), State::Closed);

    // A third call on the fully shut-down connection is an error, never
    // performed against the engine.
    assert_eq!(conn.check_shutdown(), Err(Error::Ssl));
    assert!(conn.shutdown(0, 0).is_err());
    assert_eq!(conn.state(), State::Closed);
}

#[test]
fn shutdown_may_skip_the_first_phase() {
    // The peer's close-notify arrived first: the first call reports
    // completion directly.
    let mut conn = established_client();
    assert_eq!(conn.shutdown(1, 0).unwrap(), ShutdownStatus::Complete);
    assert_eq!(conn.state(), State::Closed);
}

#[test]
fn shutdown_retryable_signal_keeps_shutting_down() {
    let mut conn = established_client();
    match conn.shutdown(-1, WANT_WRITE) {
        Err(Error::WantWrite) => {}
        other => panic!("expected WantWrite, got {:?}", other),
    }
    assert_eq!(conn.state(), State::ShuttingDown);
    assert_eq!(conn.shutdown(1, 0).unwrap(), ShutdownStatus::Complete);
}

#[test]
fn pending_is_a_pure_query() {
    let mut conn = established_client();
    conn.record_pending(11);

    // pending() takes no engine outcome and can trigger no transport
    // operation; it only reports the recorded count, changing nothing.
    assert_eq!(conn.pending(), 11);
    assert_eq!(conn.pending(), 11);
    assert_eq!(conn.state(), State::Established);
    assert!(conn.is_bound());
    assert!(!conn.has_unresolved_write());
}

#[test]
fn transport_eof_is_clean_not_fatal() {
    let mut conn = established_client();
    // The engine reports an external failure with a zero return: the
    // transport signaled end-of-stream.
    match conn.read(16, 0, SYSCALL) {
        Err(Error::TransportEof) => {}
        other => panic!("expected TransportEof, got {:?}", other),
    }
    // Clean EOF does not fail the connection; shutdown may proceed.
    assert_eq!(conn.state(), State::Established);
    assert!(conn.check_shutdown().is_ok());
}

#[test]
fn clean_close_from_peer_is_not_fatal() {
    let mut conn = established_client();
    match conn.read(16, 0, ZERO_RETURN) {
        Err(Error::ZeroReturn) => {}
        other => panic!("expected ZeroReturn, got {:?}", other),
    }
    // The connection did not fail: the close exchange may proceed.
    assert_eq!(conn.state(), State::Established);
    assert!(conn.check_shutdown().is_ok());
}

#[test]
fn read_never_surfaces_a_nonpositive_count() {
    let mut conn = established_client();
    match conn.read(16, -1, WANT_READ) {
        Err(Error::WantRead) => {}
        other => panic!("expected WantRead, got {:?}", other),
    }
    assert_eq!(conn.state(), State::Established);
    // A count beyond the buffer breaks the engine's contract: loud and fatal.
    match conn.read(4, 9, 0) {
        Err(Error::Unrecognized) => {}
        other => panic!("expected Unrecognized, got {:?}", other),
    }
    assert_eq!(conn.state(), State::Failed);
}

#[test]
fn write_drives_handshake_implicitly() {
    let ctx = Context::new(true).unwrap();
    let mut conn = Client::new_socket(&ctx, 7, true, true).unwrap();
    // A write before the handshake completed drives handshake steps.
    match conn.write(&[1u8, 2], -1, WANT_READ) {
        Err(Error::WantRead) => {}
        other => panic!("expected WantRead, got {:?}", other),
    }
    assert_eq!(conn.state(), State::Handshaking);
    assert_eq!(conn.write(&[1u8, 2], 2, 0).unwrap(), 2);
    assert_eq!(conn.state(), State::Established);
}

#[test]
fn connection_creation_failures() {
    let ctx = Context::new(true).unwrap();
    match Client::new_socket(&ctx, 7, false, true) {
        Err(Error::AllocationFailed) => {}
        _ => panic!("expected AllocationFailed"),
    }
    match Client::new_socket(&ctx, 7, true, false) {
        Err(Error::AllocationFailed) => {}
        _ => panic!("expected AllocationFailed"),
    }
}

#[test]
fn transport_binds_at_most_once() {
    let ctx = Context::new(true).unwrap();
    let mut conn = Client::new(&ctx, true).unwrap();
    assert!(!conn.is_bound());
    // Handshake without a transport is refused.
    assert_eq!(conn.check_handshake(), Err(Error::Ssl));
    assert_eq!(conn.handshake(1, 0), Err(Error::Ssl));

    conn.bind_transport(9, true).unwrap();
    assert!(conn.is_bound());
    assert_eq!(conn.bind_transport(10, true), Err(Error::Ssl));
}

#[test]
fn bind_failure_leaves_connection_unbound() {
    let ctx = Context::new(true).unwrap();
    let mut conn = Client::new(&ctx, true).unwrap();
    assert_eq!(conn.bind_transport(9, false), Err(Error::AllocationFailed));
    assert!(!conn.is_bound());
    conn.bind_transport(9, true).unwrap();
    assert!(conn.is_bound());
}

#[test]
fn settings_are_captured_at_creation() {
    let mut ctx = Context::new(true).unwrap();
    ctx.set_min_version(TLS1_2_VERSION);
    let conn = Client::new(&ctx, true).unwrap();
    // Mutating the configuration afterwards does not reach the connection.
    ctx.set_verify(VerifyMode::Peer);
    ctx.set_min_version(0x0304);
    assert_eq!(conn.policy().min_version, TLS1_2_VERSION);
    assert_eq!(conn.policy().verify, VerifyMode::NoVerify);
}

#[test]
fn hostname_is_recorded_before_handshake() {
    let ctx = Context::new(true).unwrap();
    let mut conn = Client::new_socket(&ctx, 7, true, true).unwrap();
    assert!(conn.check_set_hostname().is_ok());
    conn.set_hostname(String::from("example.test"), 1, 0).unwrap();

    // A rejected name surfaces the classified status.
    match conn.set_hostname(String::from("bad"), 0, 1) {
        Err(Error::Ssl) => {}
        other => panic!("expected Ssl, got {:?}", other),
    }

    // After the handshake it can no longer take effect.
    conn.handshake(1, 0).unwrap();
    assert_eq!(conn.check_set_hostname(), Err(Error::Ssl));
    assert_eq!(conn.set_hostname(String::from("late"), 1, 0), Err(Error::Ssl));
}

#[test]
fn client_release_frees_exactly_once() {
    let mut conn = established_client();
    assert!(conn.release());
    assert_eq!(conn.state(), State::Closed);
    assert!(!conn.release());
    assert!(!conn.release());
    // A released connection refuses all I/O.
    assert_eq!(conn.check_read(), Err(Error::Ssl));
}

#[test]
fn socket_binding_allocation() {
    let bio = Bio::new_socket(5, true).unwrap();
    assert_eq!(bio.fd, 5);
    match Bio::new_socket(5, false) {
        Err(Error::AllocationFailed) => {}
        _ => panic!("expected AllocationFailed"),
    }
}
