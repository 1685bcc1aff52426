use ipipe::duplex::{
    connect_wait_outcome, handle_read_result, listener_access_flags, needs_disconnect,
    read_outcome, write_outcome, ConnectOutcome, ReadOutcome, Role, WriteOutcome,
    ERROR_BROKEN_PIPE, ERROR_FILE_NOT_FOUND, ERROR_NO_DATA, ERROR_PIPE_NOT_CONNECTED,
    FIRST_INSTANCE_BIT, PIPE_ACCESS_DUPLEX_BITS,
};

#[test]
fn connect_wait_decisions() {
    assert_eq!(connect_wait_outcome(Ok(())), ConnectOutcome::Proceed);
    assert_eq!(
        connect_wait_outcome(Err(Some(ERROR_FILE_NOT_FOUND))),
        ConnectOutcome::KeepWaiting
    );
    assert_eq!(connect_wait_outcome(Err(Some(5))), ConnectOutcome::Surface(5));
    assert_eq!(connect_wait_outcome(Err(None)), ConnectOutcome::StopWaiting);
}

#[test]
fn listener_flags_claim_first_instance_once() {
    assert_eq!(
        listener_access_flags(true),
        PIPE_ACCESS_DUPLEX_BITS | FIRST_INSTANCE_BIT
    );
    assert_eq!(listener_access_flags(false), PIPE_ACCESS_DUPLEX_BITS);
}

#[test]
fn reader_decisions() {
    assert_eq!(read_outcome(Ok(12)), ReadOutcome::Deliver(12));
    assert_eq!(
        read_outcome(Err(Some(ERROR_BROKEN_PIPE))),
        ReadOutcome::Reconnect
    );
    assert_eq!(read_outcome(Err(Some(5))), ReadOutcome::Surface(5));
    assert_eq!(read_outcome(Err(None)), ReadOutcome::Eof);
}

#[test]
fn writer_reconnects_once_then_surfaces() {
    assert_eq!(
        write_outcome(false, Err(ERROR_NO_DATA)),
        WriteOutcome::ReconnectRetry
    );
    assert_eq!(
        write_outcome(true, Err(ERROR_NO_DATA)),
        WriteOutcome::Surface(ERROR_NO_DATA)
    );
    assert_eq!(write_outcome(false, Ok(3)), WriteOutcome::Deliver(3));
    assert_eq!(write_outcome(false, Err(5)), WriteOutcome::Surface(5));
}

#[test]
fn benign_disconnect_reads_as_eof() {
    assert_eq!(handle_read_result(Err(ERROR_PIPE_NOT_CONNECTED)), Ok(0));
    assert_eq!(handle_read_result(Err(999)), Err(999));
    assert_eq!(handle_read_result(Ok(7)), Ok(7));
}

#[test]
fn only_listeners_disconnect_on_teardown() {
    assert!(needs_disconnect(Role::Server));
    assert!(!needs_disconnect(Role::Client));
}
