use cargo_nx::netloader::stdio::{
    RelayAction, RelayEvent, RelayState, StdioServer, BUFFER_SIZE,
};

fn io_error() -> std::io::Error {
    std::io::Error::new(std::io::ErrorKind::BrokenPipe, "broken")
}

/// A connection whose reads return `reads` in turn. Returns what the server
/// wrote to its output.
fn relay(server: &mut StdioServer, reads: &[&[u8]]) -> Vec<u8> {
    let mut output = Vec::new();
    let mut reads = reads.iter();
    let mut event = RelayEvent::Accepted;
    loop {
        assert!(server.accepts(&event));
        match server.step(event) {
            RelayAction::Read(limit) => {
                assert_eq!(limit, BUFFER_SIZE);
                match reads.next() {
                    Some(bytes) => event = RelayEvent::Received(bytes.to_vec()),
                    None => return output,
                }
            }
            RelayAction::Forward(bytes) => {
                output.extend_from_slice(&bytes);
                event = RelayEvent::Forwarded;
            }
            RelayAction::Finish => return output,
        }
    }
}

#[test]
fn buffer_is_one_kib() {
    assert_eq!(BUFFER_SIZE, 1024);
}

#[test]
fn new_server_is_listening() {
    let server = StdioServer::new();
    assert!(matches!(server.state(), RelayState::Listening));
    assert!(!server.is_finished());
    assert!(server.outcome().is_none());
}

#[test]
fn hello_then_close_is_copied_exactly() {
    let mut server = StdioServer::new();
    let output = relay(&mut server, &[b"hello\n", b""]);
    assert_eq!(output, b"hello\n");
    assert!(matches!(server.state(), RelayState::Closed));
    assert!(server.is_finished());
    assert!(matches!(server.outcome(), Some(Ok(()))));
}

#[test]
fn reads_are_forwarded_in_order() {
    let mut server = StdioServer::new();
    let output = relay(&mut server, &[b"one ", b"two ", &[0, 255, 10, 13], b"three", b""]);
    assert_eq!(output, b"one two \x00\xff\n\rthree");
    assert!(matches!(server.outcome(), Some(Ok(()))));
}

#[test]
fn nothing_is_read_after_the_peer_closed() {
    let mut server = StdioServer::new();
    let output = relay(&mut server, &[b"a", b"", b"b"]);
    assert_eq!(output, b"a");
    assert!(!server.accepts(&RelayEvent::Received(b"b".to_vec())));
    assert!(!server.accepts(&RelayEvent::Accepted));
}

#[test]
fn immediate_close_forwards_nothing() {
    let mut server = StdioServer::new();
    assert_eq!(relay(&mut server, &[b""]), b"");
    assert!(matches!(server.outcome(), Some(Ok(()))));
}

#[test]
fn server_keeps_reading_until_the_peer_closes() {
    let mut server = StdioServer::new();
    let output = relay(&mut server, &[b"abc", b"def"]);
    assert_eq!(output, b"abcdef");
    assert!(matches!(server.state(), RelayState::Reading));
    assert!(server.outcome().is_none());
}

#[test]
fn steps_alternate_between_reading_and_forwarding() {
    let mut server = StdioServer::new();
    assert!(matches!(server.step(RelayEvent::Accepted), RelayAction::Read(1024)));
    assert!(matches!(server.state(), RelayState::Reading));
    match server.step(RelayEvent::Received(vec![1, 2, 3])) {
        RelayAction::Forward(bytes) => assert_eq!(bytes, vec![1, 2, 3]),
        other => panic!("unexpected action {:?}", other),
    }
    assert!(matches!(server.state(), RelayState::Forwarding));
    assert!(!server.accepts(&RelayEvent::Received(vec![4])));
    assert!(matches!(server.step(RelayEvent::Forwarded), RelayAction::Read(1024)));
    assert!(matches!(server.state(), RelayState::Reading));
}

#[test]
fn failure_to_accept_ends_the_server() {
    let mut server = StdioServer::new();
    assert!(matches!(server.step(RelayEvent::Failed(io_error())), RelayAction::Finish));
    match server.outcome() {
        Some(Err(error)) => assert_eq!(error.kind(), std::io::ErrorKind::BrokenPipe),
        other => panic!("unexpected outcome {:?}", other),
    }
}

#[test]
fn failed_read_ends_the_server() {
    let mut server = StdioServer::new();
    server.step(RelayEvent::Accepted);
    assert!(matches!(server.step(RelayEvent::Failed(io_error())), RelayAction::Finish));
    assert!(matches!(server.state(), RelayState::Failed(_)));
    assert!(!server.accepts(&RelayEvent::Failed(io_error())));
}

#[test]
fn failed_write_ends_the_server() {
    let mut server = StdioServer::new();
    server.step(RelayEvent::Accepted);
    server.step(RelayEvent::Received(b"lost".to_vec()));
    assert!(matches!(server.step(RelayEvent::Failed(io_error())), RelayAction::Finish));
    assert!(matches!(server.outcome(), Some(Err(_))));
}
