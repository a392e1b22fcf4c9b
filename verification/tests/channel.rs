use telemetry::{TelemetrySocket, WriteOutcome};

#[test]
fn send_with_no_connection_is_a_silent_drop() {
    let socket = TelemetrySocket::new();
    assert_eq!(socket.send_target(), None);
}

#[test]
fn set_stream_installs_unconditionally() {
    let mut socket = TelemetrySocket::new();
    socket.set_stream(1);
    assert_eq!(socket.send_target(), Some(1));
    socket.set_stream(2);
    assert_eq!(socket.send_target(), Some(2));
}

#[test]
fn first_writer_wins_on_reconnect() {
    let mut socket = TelemetrySocket::new();
    assert!(socket.try_set_stream(1));
    // A late reconnect attempt completes while a connection is installed:
    // it must not replace it.
    assert!(!socket.try_set_stream(2));
    assert_eq!(socket.send_target(), Some(1));
}

#[test]
fn clear_tears_the_connection_down() {
    let mut socket = TelemetrySocket::new();
    socket.set_stream(1);
    socket.clear();
    assert_eq!(socket.send_target(), None);
}

#[test]
fn would_block_keeps_the_connection() {
    let mut socket = TelemetrySocket::new();
    socket.set_stream(1);
    socket.on_write_outcome(&[1, 2, 3], WriteOutcome::WouldBlock);
    assert_eq!(socket.send_target(), Some(1));
}

#[test]
fn a_successful_write_keeps_the_connection() {
    let mut socket = TelemetrySocket::new();
    socket.set_stream(1);
    socket.on_write_outcome(&[1, 2, 3], WriteOutcome::Written);
    assert_eq!(socket.send_target(), Some(1));
}

#[test]
fn a_failed_write_tears_down_and_reconnect_recovers() {
    let mut socket = TelemetrySocket::new();
    socket.set_stream(1);
    socket.on_write_outcome(&[1, 2, 3], WriteOutcome::Failed);
    // The peer is gone: the channel is absent and further sends have no
    // target, so nothing can block or fail.
    assert_eq!(socket.send_target(), None);
    // The reconnect loop finds the peer again: the install succeeds and
    // sends resume on the new connection.
    assert!(socket.try_set_stream(7));
    assert_eq!(socket.send_target(), Some(7));
}
