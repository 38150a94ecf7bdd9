use cargo_nx::netloader::loader::send::{
    check_content_ack, check_handshake_ack, SendNroError, UploadAction, UploadError, UploadEvent,
    UploadSession, UploadState,
};
use flate2::bufread::ZlibDecoder;
use std::io::Read;

fn strings(args: &[&str]) -> Vec<String> {
    args.iter().map(|arg| arg.to_string()).collect()
}

fn io_error() -> std::io::Error {
    std::io::Error::new(std::io::ErrorKind::ConnectionReset, "reset")
}

/// A peer that takes every write and answers each read with the next of
/// `acks`. Returns the writes in order, and the positions in that order at
/// which an acknowledgement was read.
fn serve(session: &mut UploadSession, acks: &[i32]) -> (Vec<Vec<u8>>, Vec<usize>) {
    let mut writes = Vec::new();
    let mut reads = Vec::new();
    let mut acks = acks.iter();
    let mut event = UploadEvent::Connected;
    loop {
        assert!(session.accepts(&event));
        match session.step(event) {
            UploadAction::Write(bytes) => {
                writes.push(bytes);
                event = UploadEvent::Written;
            }
            UploadAction::ReadAck => {
                reads.push(writes.len());
                event = UploadEvent::Ack(*acks.next().unwrap());
            }
            UploadAction::Finish => return (writes, reads),
        }
    }
}

fn payload(frame: &[u8]) -> &[u8] {
    let len = u32::from_le_bytes([frame[0], frame[1], frame[2], frame[3]]) as usize;
    assert_eq!(frame.len(), 4 + len);
    &frame[4..]
}

fn inflate(stream: &[u8]) -> Vec<u8> {
    let mut data = Vec::new();
    ZlibDecoder::new(stream).read_to_end(&mut data).unwrap();
    data
}

fn noise(len: usize) -> Vec<u8> {
    let mut state: u32 = 0x9e37_79b9;
    (0..len)
        .map(|_| {
            state ^= state << 13;
            state ^= state >> 17;
            state ^= state << 5;
            (state >> 9) as u8
        })
        .collect()
}

#[test]
fn acknowledgement_codes_map_to_errors() {
    assert_eq!(SendNroError::from(-1), SendNroError::CouldNotCreateFile);
    assert_eq!(SendNroError::from(-2), SendNroError::InsufficientSpace);
    assert_eq!(SendNroError::from(-3), SendNroError::FileExtensionNotRecognized);
    assert_eq!(SendNroError::from(-4), SendNroError::UnknownError(-4));
    assert_eq!(SendNroError::from(1), SendNroError::UnknownError(1));
    assert_eq!(SendNroError::from(i32::MIN), SendNroError::UnknownError(i32::MIN));
    assert_eq!(SendNroError::from(i32::MAX), SendNroError::UnknownError(i32::MAX));
}

#[test]
fn codes_convert_with_into() {
    let error: SendNroError = (-2).into();
    assert_eq!(error, SendNroError::InsufficientSpace);
}

#[test]
fn handshake_ack_zero_is_success() {
    assert!(check_handshake_ack(0).is_ok());
}

#[test]
fn handshake_ack_classifies_refusals() {
    assert!(matches!(
        check_handshake_ack(-1),
        Err(UploadError::Refused(SendNroError::CouldNotCreateFile))
    ));
    assert!(matches!(
        check_handshake_ack(-2),
        Err(UploadError::Refused(SendNroError::InsufficientSpace))
    ));
    assert!(matches!(
        check_handshake_ack(-3),
        Err(UploadError::Refused(SendNroError::FileExtensionNotRecognized))
    ));
    assert!(matches!(
        check_handshake_ack(42),
        Err(UploadError::Refused(SendNroError::UnknownError(42)))
    ));
    assert!(matches!(
        check_handshake_ack(-100),
        Err(UploadError::Refused(SendNroError::UnknownError(-100)))
    ));
}

#[test]
fn content_ack_does_not_classify() {
    assert!(check_content_ack(0).is_ok());
    for code in [-1, -2, -3, 1, 77, i32::MIN] {
        assert!(matches!(check_content_ack(code), Err(UploadError::TransferFailed)));
    }
}

#[test]
fn new_session_is_connecting() {
    let session = UploadSession::new("app.nro", b"content", 7, &[]).unwrap();
    assert!(matches!(session.state(), UploadState::Connecting));
    assert!(!session.is_finished());
    assert!(session.outcome().is_none());
}

#[test]
fn upload_succeeds_and_writes_in_protocol_order() {
    let data = noise(100_000);
    let args = strings(&["app.nro", "--fast", "level 2"]);
    let mut session = UploadSession::new("sub/app.nro", &data, data.len(), &args).unwrap();
    let (writes, reads) = serve(&mut session, &[0, 0]);

    assert!(matches!(session.state(), UploadState::Done));
    assert!(session.is_finished());

    let count = writes.len();
    assert!(count >= 3);
    let mut handshake = vec![11, 0, 0, 0];
    handshake.extend_from_slice(b"sub/app.nro");
    handshake.extend_from_slice(&100_000u32.to_le_bytes());
    assert_eq!(writes[0], handshake);

    let mut stream = Vec::new();
    for frame in &writes[1..count - 1] {
        let chunk = payload(frame);
        assert!(!chunk.is_empty() && chunk.len() <= 0x4000);
        stream.extend_from_slice(chunk);
    }
    assert_eq!(inflate(&stream), data);

    assert_eq!(payload(&writes[count - 1]), b"app.nro\0--fast\0level 2\0");
    assert_eq!(reads, vec![1, count - 1]);
    assert!(matches!(session.outcome(), Some(Ok(()))));
}

#[test]
fn upload_of_scripted_chunks_is_exact() {
    let chunks = vec![vec![1u8, 2, 3], vec![4u8], vec![5u8, 6]];
    let mut session = UploadSession::with_chunks("a.nro", 6, chunks, &strings(&["x"]));
    let (writes, reads) = serve(&mut session, &[0, 0]);
    assert_eq!(
        writes,
        vec![
            vec![5, 0, 0, 0, b'a', b'.', b'n', b'r', b'o', 6, 0, 0, 0],
            vec![3, 0, 0, 0, 1, 2, 3],
            vec![1, 0, 0, 0, 4],
            vec![2, 0, 0, 0, 5, 6],
            vec![2, 0, 0, 0, b'x', 0],
        ]
    );
    assert_eq!(reads, vec![1, 4]);
    assert!(matches!(session.outcome(), Some(Ok(()))));
}

#[test]
fn upload_without_chunks_and_arguments() {
    let mut session = UploadSession::with_chunks("", 0, Vec::new(), &[]);
    let (writes, reads) = serve(&mut session, &[0, 0]);
    assert_eq!(writes, vec![vec![0, 0, 0, 0, 0, 0, 0, 0], vec![0, 0, 0, 0]]);
    assert_eq!(reads, vec![1, 1]);
    assert!(matches!(session.outcome(), Some(Ok(()))));
}

#[test]
fn refused_handshake_sends_no_data() {
    let data = noise(1000);
    let mut session = UploadSession::new("app.nro", &data, data.len(), &strings(&["a"])).unwrap();
    let (writes, reads) = serve(&mut session, &[-2]);
    assert_eq!(writes.len(), 1);
    assert_eq!(&writes[0][4..11], b"app.nro");
    assert_eq!(reads, vec![1]);
    assert!(matches!(
        session.state(),
        UploadState::Aborted(UploadError::Refused(SendNroError::InsufficientSpace))
    ));
    assert!(matches!(
        session.outcome(),
        Some(Err(UploadError::Refused(SendNroError::InsufficientSpace)))
    ));
}

#[test]
fn each_refusal_code_aborts_with_its_error() {
    let cases = [
        (-1, SendNroError::CouldNotCreateFile),
        (-3, SendNroError::FileExtensionNotRecognized),
        (9, SendNroError::UnknownError(9)),
    ];
    for (code, expected) in cases {
        let mut session = UploadSession::with_chunks("a.nro", 1, vec![vec![1u8]], &[]);
        let (writes, _) = serve(&mut session, &[code]);
        assert_eq!(writes.len(), 1);
        match session.outcome() {
            Some(Err(UploadError::Refused(error))) => assert_eq!(error, expected),
            other => panic!("unexpected outcome {:?}", other),
        }
    }
}

#[test]
fn rejected_content_sends_no_arguments() {
    let chunks = vec![vec![9u8; 10], vec![8u8; 20]];
    let mut session = UploadSession::with_chunks("a.nro", 30, chunks, &strings(&["arg"]));
    let (writes, reads) = serve(&mut session, &[0, -1]);
    assert_eq!(writes.len(), 3);
    assert_eq!(payload(&writes[1]), &[9u8; 10]);
    assert_eq!(payload(&writes[2]), &[8u8; 20]);
    assert_eq!(reads, vec![1, 3]);
    assert!(matches!(session.outcome(), Some(Err(UploadError::TransferFailed))));
}

#[test]
fn failure_to_connect_aborts() {
    let mut session = UploadSession::with_chunks("a.nro", 1, vec![vec![1u8]], &[]);
    let action = session.step(UploadEvent::Failed(io_error()));
    assert!(matches!(action, UploadAction::Finish));
    assert!(session.is_finished());
    match session.outcome() {
        Some(Err(UploadError::Transport(error))) => {
            assert_eq!(error.kind(), std::io::ErrorKind::ConnectionReset)
        }
        other => panic!("unexpected outcome {:?}", other),
    }
}

#[test]
fn failure_aborts_in_every_running_state() {
    let events: [fn() -> UploadEvent; 6] = [
        || UploadEvent::Connected,
        || UploadEvent::Written,
        || UploadEvent::Ack(0),
        || UploadEvent::Written,
        || UploadEvent::Ack(0),
        || UploadEvent::Written,
    ];
    for steps in 0..events.len() {
        let mut session = UploadSession::with_chunks("a.nro", 1, vec![vec![1u8]], &[]);
        for event in &events[..steps] {
            let event = event();
            assert!(session.accepts(&event));
            session.step(event);
        }
        assert!(!session.is_finished());
        assert!(session.accepts(&UploadEvent::Failed(io_error())));
        assert!(matches!(session.step(UploadEvent::Failed(io_error())), UploadAction::Finish));
        assert!(matches!(session.state(), UploadState::Aborted(UploadError::Transport(_))));
        assert!(!session.accepts(&UploadEvent::Failed(io_error())));
    }
}

#[test]
fn states_follow_one_another() {
    let mut session = UploadSession::with_chunks("a.nro", 2, vec![vec![1u8], vec![2u8]], &[]);
    assert!(matches!(session.state(), UploadState::Connecting));
    assert!(matches!(session.step(UploadEvent::Connected), UploadAction::Write(_)));
    assert!(matches!(session.state(), UploadState::HandshakeSent));
    assert!(matches!(session.step(UploadEvent::Written), UploadAction::ReadAck));
    assert!(matches!(session.state(), UploadState::AwaitingHandshakeAck));
    assert!(matches!(session.step(UploadEvent::Ack(0)), UploadAction::Write(_)));
    assert!(matches!(session.state(), UploadState::Streaming));
    assert!(matches!(session.step(UploadEvent::Written), UploadAction::Write(_)));
    assert!(matches!(session.state(), UploadState::Streaming));
    assert!(matches!(session.step(UploadEvent::Written), UploadAction::ReadAck));
    assert!(matches!(session.state(), UploadState::AwaitingDataAck));
    assert!(matches!(session.step(UploadEvent::Ack(0)), UploadAction::Write(_)));
    assert!(matches!(session.state(), UploadState::SendingArgs));
    assert!(matches!(session.step(UploadEvent::Written), UploadAction::Finish));
    assert!(matches!(session.state(), UploadState::Done));
}

#[test]
fn session_accepts_only_the_answer_to_its_action() {
    let mut session = UploadSession::with_chunks("a.nro", 1, vec![vec![1u8]], &[]);
    assert!(session.accepts(&UploadEvent::Connected));
    assert!(!session.accepts(&UploadEvent::Written));
    assert!(!session.accepts(&UploadEvent::Ack(0)));
    session.step(UploadEvent::Connected);
    assert!(!session.accepts(&UploadEvent::Connected));
    assert!(session.accepts(&UploadEvent::Written));
    assert!(!session.accepts(&UploadEvent::Ack(0)));
    session.step(UploadEvent::Written);
    assert!(!session.accepts(&UploadEvent::Written));
    assert!(session.accepts(&UploadEvent::Ack(5)));
    session.step(UploadEvent::Ack(5));
    assert!(!session.accepts(&UploadEvent::Connected));
    assert!(!session.accepts(&UploadEvent::Written));
    assert!(!session.accepts(&UploadEvent::Ack(0)));
    assert!(!session.accepts(&UploadEvent::Failed(io_error())));
}

#[test]
fn declared_length_is_the_callers() {
    let mut session = UploadSession::new("n", b"abc", 0x0102_0304, &[]).unwrap();
    match session.step(UploadEvent::Connected) {
        UploadAction::Write(bytes) => assert_eq!(bytes, vec![1, 0, 0, 0, b'n', 4, 3, 2, 1]),
        other => panic!("unexpected action {:?}", other),
    }
}

#[test]
fn oversized_arguments_are_dropped_from_the_upload() {
    let args = vec!["keep".to_string(), "x".repeat(3072), "lost".to_string()];
    let mut session = UploadSession::with_chunks("a.nro", 0, Vec::new(), &args);
    let (writes, _) = serve(&mut session, &[0, 0]);
    assert_eq!(payload(&writes[1]), b"keep\0");
}
