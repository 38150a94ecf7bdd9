//! Sending a file to the server.
//!
//! An upload runs over one connection and is a fixed sequence: the name of the
//! file and its length, an acknowledgement, the compressed content in frames,
//! a second acknowledgement, and last the command line for the program. The
//! server saves the file under the name given and runs it.
//!
//! [`UploadSession`] holds the sequence as a state machine. It performs no
//! I/O: a driver opens the connection, does what each [`UploadAction`] asks
//! for and reports the outcome as the next [`UploadEvent`].

use super::arguments::{arg_blob, arg_bytes, build_arg_blob};
use super::deflate::{chunks_of, compress_chunks, zlib_fails, zlib_stream, MAX_FILE_CHUNK_SIZE};
use crate::netloader::frame::{
    encode_u32_le, frame, frames, lemma_payloads_of_frames, length_field, payloads, u32_le, wire_len,
    write_length_prefixed,
};
use vstd::prelude::*;
use vstd::utf8::encode_utf8;

verus! {

/// A failure that the server reports in its answer to the handshake.
#[derive(Debug, Clone, Copy, PartialEq, Eq, Structural)]
pub enum SendNroError {
    /// The server could not create the file.
    CouldNotCreateFile,
    /// The server has no room for the file.
    InsufficientSpace,
    /// The server does not take files of this extension.
    FileExtensionNotRecognized,
    /// A code that stands for none of the above, kept as it came.
    UnknownError(i32),
}

impl From<i32> for SendNroError {
    /// The error that an acknowledgement code stands for. Zero is the code of
    /// success and stands for no error; converted all the same, it is kept as
    /// an unknown code.
    fn from(value: i32) -> (error: Self) {
        if value == -1 {
            SendNroError::CouldNotCreateFile
        } else if value == -2 {
            SendNroError::InsufficientSpace
        } else if value == -3 {
            SendNroError::FileExtensionNotRecognized
        } else {
            SendNroError::UnknownError(value)
        }
    }
}

impl vstd::std_specs::convert::FromSpecImpl<i32> for SendNroError {
    open spec fn obeys_from_spec() -> bool {
        true
    }

    open spec fn from_spec(value: i32) -> Self {
        error_of_code(value)
    }
}

/// The error that an acknowledgement code other than zero stands for: the
/// server has three codes with a meaning of their own, and any other is kept
/// as it came.
pub open spec fn error_of_code(code: i32) -> SendNroError {
    if code == -1 {
        SendNroError::CouldNotCreateFile
    } else if code == -2 {
        SendNroError::InsufficientSpace
    } else if code == -3 {
        SendNroError::FileExtensionNotRecognized
    } else {
        SendNroError::UnknownError(code)
    }
}

/// Why an upload ended without success.
#[derive(Debug)]
pub enum UploadError {
    /// The connection could not be opened, or a write or read on it failed.
    Transport(std::io::Error),
    /// The server refused the file in its answer to the handshake.
    Refused(SendNroError),
    /// The server's answer to the content was not the code of success. At this
    /// stage the server gives no reasons, so the code is not looked at further.
    TransferFailed,
}

/// What the answer to the handshake means: zero lets the upload go on, any
/// other code is the server's refusal.
pub open spec fn handshake_verdict(code: i32) -> Result<(), UploadError> {
    if code == 0 {
        Ok(())
    } else {
        Err(UploadError::Refused(error_of_code(code)))
    }
}

/// What the answer to the content means: zero lets the upload go on, and every
/// other code is the same failure.
pub open spec fn content_verdict(code: i32) -> Result<(), UploadError> {
    if code == 0 {
        Ok(())
    } else {
        Err(UploadError::TransferFailed)
    }
}

/// Reads the server's answer to the handshake.
pub fn check_handshake_ack(code: i32) -> (verdict: Result<(), UploadError>)
    ensures
        verdict == handshake_verdict(code),
{
    if code == 0 {
        Ok(())
    } else {
        Err(UploadError::Refused(SendNroError::from(code)))
    }
}

/// Reads the server's answer to the content.
pub fn check_content_ack(code: i32) -> (verdict: Result<(), UploadError>)
    ensures
        verdict == content_verdict(code),
{
    if code == 0 {
        Ok(())
    } else {
        Err(UploadError::TransferFailed)
    }
}

/// What the server's codes mean. After the handshake, zero is success, three
/// codes name a failure each, and every other code is an unknown failure that
/// keeps its number. After the content, zero is success and every other code
/// is the same failure.
pub proof fn lemma_acknowledgement_codes(code: i32)
    ensures
        code == 0 <==> handshake_verdict(code) is Ok,
        code == -1 ==> handshake_verdict(code) == Err::<(), UploadError>(
            UploadError::Refused(SendNroError::CouldNotCreateFile),
        ),
        code == -2 ==> handshake_verdict(code) == Err::<(), UploadError>(
            UploadError::Refused(SendNroError::InsufficientSpace),
        ),
        code == -3 ==> handshake_verdict(code) == Err::<(), UploadError>(
            UploadError::Refused(SendNroError::FileExtensionNotRecognized),
        ),
        code != 0 && !(-3 <= code <= -1) ==> handshake_verdict(code) == Err::<(), UploadError>(
            UploadError::Refused(SendNroError::UnknownError(code)),
        ),
        code == 0 <==> content_verdict(code) is Ok,
        code != 0 ==> content_verdict(code) == Err::<(), UploadError>(UploadError::TransferFailed),
{
}

/// Where an upload stands.
#[derive(Debug)]
pub enum UploadState {
    /// The connection is being opened.
    Connecting,
    /// The handshake is being written.
    HandshakeSent,
    /// The answer to the handshake is being read.
    AwaitingHandshakeAck,
    /// The content is being written, a frame at a time.
    Streaming,
    /// The answer to the content is being read.
    AwaitingDataAck,
    /// The command line is being written.
    SendingArgs,
    /// The upload is complete.
    Done,
    /// The upload was given up.
    Aborted(UploadError),
}

/// What the driver reports to the session.
#[derive(Debug)]
pub enum UploadEvent {
    /// The connection is open.
    Connected,
    /// The bytes of the last [`UploadAction::Write`] have all been written.
    Written,
    /// An acknowledgement code was read from the server.
    Ack(i32),
    /// The operation that was asked for failed.
    Failed(std::io::Error),
}

/// What the session asks of the driver.
#[derive(Debug)]
pub enum UploadAction {
    /// Write all of these bytes to the server, then report
    /// [`UploadEvent::Written`].
    Write(Vec<u8>),
    /// Read a 32-bit little-endian signed integer from the server, then
    /// report it as [`UploadEvent::Ack`].
    ReadAck,
    /// Close the connection: the upload is over and [`UploadSession::outcome`]
    /// tells how it ended.
    Finish,
}

/// An [`UploadAction`] with its bytes as a sequence.
pub enum ActionModel {
    Write(Seq<u8>),
    ReadAck,
    Finish,
}

impl View for UploadAction {
    type V = ActionModel;

    open spec fn view(&self) -> ActionModel {
        match self {
            UploadAction::Write(bytes) => ActionModel::Write(bytes@),
            UploadAction::ReadAck => ActionModel::ReadAck,
            UploadAction::Finish => ActionModel::Finish,
        }
    }
}

/// What an upload session holds.
pub struct SessionModel {
    /// Where the upload stands.
    pub state: UploadState,
    /// The name under which the server is to save the file.
    pub file_name: Seq<u8>,
    /// The length of the file as the handshake declares it.
    pub file_length: u32,
    /// The compressed content, in the chunks in which it is sent.
    pub chunks: Seq<Seq<u8>>,
    /// How many of the chunks have been handed to the driver.
    pub sent: nat,
    /// The command line, in the form in which it is sent.
    pub args: Seq<u8>,
}

impl SessionModel {
    /// The same session in another state.
    pub open spec fn at(self, state: UploadState) -> SessionModel {
        SessionModel { state, ..self }
    }

    /// The handshake: the file's name in a frame, then the file's length.
    pub open spec fn handshake(self) -> Seq<u8> {
        frame(self.file_name) + u32_le(self.file_length)
    }

    /// The step that follows a frame of content, or the go-ahead for the
    /// content: the next chunk is sent, and once none is left the server's
    /// answer is awaited.
    pub open spec fn stream(self) -> (SessionModel, ActionModel) {
        if self.sent < self.chunks.len() {
            (
                SessionModel { state: UploadState::Streaming, sent: self.sent + 1, ..self },
                ActionModel::Write(frame(self.chunks[self.sent as int])),
            )
        } else {
            (self.at(UploadState::AwaitingDataAck), ActionModel::ReadAck)
        }
    }

    /// Whether the upload is over.
    pub open spec fn finished(self) -> bool {
        self.state is Done || self.state is Aborted
    }

    /// How the upload ended, once it is over.
    pub open spec fn outcome(self) -> Option<Result<(), UploadError>> {
        match self.state {
            UploadState::Done => Some(Ok(())),
            UploadState::Aborted(error) => Some(Err(error)),
            _ => None,
        }
    }
}

/// Whether `event` can follow on what a session in `state` last asked for. A
/// failure can be reported as long as the upload runs; each other event
/// answers one kind of action.
pub open spec fn expects(state: UploadState, event: UploadEvent) -> bool {
    match event {
        UploadEvent::Connected => state is Connecting,
        UploadEvent::Written => state is HandshakeSent || state is Streaming || state is SendingArgs,
        UploadEvent::Ack(_) => state is AwaitingHandshakeAck || state is AwaitingDataAck,
        UploadEvent::Failed(_) => !(state is Done || state is Aborted),
    }
}

/// The transition of the upload: the session after `event`, and what it asks
/// for next. Defined for the events that the session expects.
pub open spec fn step_spec(session: SessionModel, event: UploadEvent) -> (SessionModel, ActionModel) {
    match event {
        UploadEvent::Failed(error) => (
            session.at(UploadState::Aborted(UploadError::Transport(error))),
            ActionModel::Finish,
        ),
        UploadEvent::Connected => (
            session.at(UploadState::HandshakeSent),
            ActionModel::Write(session.handshake()),
        ),
        UploadEvent::Written => match session.state {
            UploadState::HandshakeSent => (
                session.at(UploadState::AwaitingHandshakeAck),
                ActionModel::ReadAck,
            ),
            UploadState::Streaming => session.stream(),
            _ => (session.at(UploadState::Done), ActionModel::Finish),
        },
        UploadEvent::Ack(code) => match session.state {
            UploadState::AwaitingHandshakeAck => match handshake_verdict(code) {
                Ok(_) => session.stream(),
                Err(error) => (session.at(UploadState::Aborted(error)), ActionModel::Finish),
            },
            _ => match content_verdict(code) {
                Ok(_) => (
                    session.at(UploadState::SendingArgs),
                    ActionModel::Write(frame(session.args)),
                ),
                Err(error) => (session.at(UploadState::Aborted(error)), ActionModel::Finish),
            },
        },
    }
}

/// An upper bound on the steps that a session can still take: every step that
/// the session expects lowers it, and a session that is over has none left.
pub open spec fn steps_left(session: SessionModel) -> nat {
    let unsent: nat = if session.sent < session.chunks.len() {
        (session.chunks.len() - session.sent) as nat
    } else {
        0
    };
    match session.state {
        UploadState::Connecting => 6 + unsent,
        UploadState::HandshakeSent => 5 + unsent,
        UploadState::AwaitingHandshakeAck => 4 + unsent,
        UploadState::Streaming => 3 + unsent,
        UploadState::AwaitingDataAck => 2,
        UploadState::SendingArgs => 1,
        UploadState::Done => 0,
        UploadState::Aborted(_) => 0,
    }
}

/// An upload from `event` on to its end, over a transport that never fails:
/// every write succeeds, and the server's answers are `acks`, in the order in
/// which they are read. The result is the session at the end and everything
/// that was written on the way. Where the server's answers run out, the
/// upload stays as it is.
pub open spec fn run(session: SessionModel, event: UploadEvent, acks: Seq<i32>) -> (
    SessionModel,
    Seq<u8>,
)
    decreases steps_left(session),
{
    if !expects(session.state, event) {
        (session, Seq::empty())
    } else {
        let (next, action) = step_spec(session, event);
        match action {
            ActionModel::Write(bytes) => {
                let (end, rest) = run(next, UploadEvent::Written, acks);
                (end, bytes + rest)
            },
            ActionModel::ReadAck => if acks.len() > 0 {
                run(next, UploadEvent::Ack(acks.first()), acks.drop_first())
            } else {
                (next, Seq::empty())
            },
            ActionModel::Finish => (next, Seq::empty()),
        }
    }
}

/// The upload is a single pass: every step that a session expects brings it
/// nearer to its end, so no state is entered again once it is left, and a
/// session that is over expects nothing more.
pub proof fn lemma_single_pass(session: SessionModel, event: UploadEvent)
    ensures
        expects(session.state, event) ==> steps_left(step_spec(session, event).0) < steps_left(
            session,
        ),
        session.finished() ==> !expects(session.state, event),
        session.finished() <==> steps_left(session) == 0,
{
}

/// Each action says which events may follow it: a write is answered by its
/// completion, a read by an acknowledgement, either of them by a failure, and
/// the end of the upload by nothing.
pub proof fn lemma_action_sets_next_event(
    session: SessionModel,
    event: UploadEvent,
    following: UploadEvent,
)
    requires
        expects(session.state, event),
    ensures
        ({
            let (next, action) = step_spec(session, event);
            expects(next.state, following) <==> match action {
                ActionModel::Write(_) => following is Written || following is Failed,
                ActionModel::ReadAck => following is Ack || following is Failed,
                ActionModel::Finish => false,
            }
        }),
{
}

/// A failure of the transport ends the upload wherever it stands, with the
/// failure as the reason.
pub proof fn lemma_failure_aborts(session: SessionModel, error: std::io::Error)
    requires
        !session.finished(),
    ensures
        expects(session.state, UploadEvent::Failed(error)),
        step_spec(session, UploadEvent::Failed(error)) == (
            session.at(UploadState::Aborted(UploadError::Transport(error))),
            ActionModel::Finish,
        ),
{
}

/// From the moment the content is released, what is written up to the
/// server's answer is the chunks that are still unsent, each in its frame.
proof fn lemma_run_stream(session: SessionModel, acks: Seq<i32>)
    requires
        session.sent <= session.chunks.len(),
        session.state is AwaitingHandshakeAck || session.state is Streaming,
    ensures
        ({
            let (next, action) = session.stream();
            let rest = match action {
                ActionModel::Write(bytes) => {
                    let (end, rest) = run(next, UploadEvent::Written, acks);
                    (end, bytes + rest)
                },
                _ => if acks.len() > 0 {
                    run(next, UploadEvent::Ack(acks.first()), acks.drop_first())
                } else {
                    (next, Seq::empty())
                },
            };
            let awaiting = SessionModel {
                state: UploadState::AwaitingDataAck,
                sent: session.chunks.len(),
                ..session
            };
            let tail = if acks.len() > 0 {
                run(awaiting, UploadEvent::Ack(acks.first()), acks.drop_first())
            } else {
                (awaiting, Seq::empty())
            };
            rest == (tail.0, frames(session.chunks.skip(session.sent as int)) + tail.1)
        }),
    decreases session.chunks.len() - session.sent,
{
    let unsent = session.chunks.skip(session.sent as int);
    if session.sent < session.chunks.len() {
        let (next, action) = session.stream();
        lemma_run_stream(next, acks);
        assert(unsent.first() == session.chunks[session.sent as int]);
        assert(unsent.drop_first() =~= session.chunks.skip(session.sent as int + 1));
        let awaiting = SessionModel {
            state: UploadState::AwaitingDataAck,
            sent: session.chunks.len(),
            ..session
        };
        let tail = if acks.len() > 0 {
            run(awaiting, UploadEvent::Ack(acks.first()), acks.drop_first())
        } else {
            (awaiting, Seq::empty())
        };
        assert(frame(unsent.first()) + (frames(unsent.drop_first()) + tail.1) =~= frames(unsent)
            + tail.1);
    } else {
        assert(unsent =~= Seq::<Seq<u8>>::empty());
        let awaiting = SessionModel {
            state: UploadState::AwaitingDataAck,
            sent: session.chunks.len(),
            ..session
        };
        assert(session.stream().0 == awaiting);
        let tail = if acks.len() > 0 {
            run(awaiting, UploadEvent::Ack(acks.first()), acks.drop_first())
        } else {
            (awaiting, Seq::empty())
        };
        assert(Seq::<u8>::empty() + tail.1 =~= tail.1);
    }
}

/// The content arrives whole: what the server reads out of the frames of the
/// content, payload after payload, is the compressed stream of the file,
/// nothing left out, added or moved.
pub proof fn lemma_content_frames_carry_stream(chunks: Seq<Seq<u8>>, data: Seq<u8>)
    requires
        chunks_of(chunks, zlib_stream(data)),
    ensures
        payloads(frames(chunks)) == zlib_stream(data),
{
    assert forall|i: int| 0 <= i < chunks.len() implies #[trigger] chunks[i].len() <= u32::MAX by {
        assert(chunks[i].len() <= MAX_FILE_CHUNK_SIZE);
    }
    lemma_payloads_of_frames(chunks);
}

/// What an upload writes, from the open connection to its end, over a
/// transport that never fails, to a server that answers the handshake with
/// `first` and the content with `second`:
///
/// - Where the server refuses the handshake, only the handshake was written,
///   and the upload ends with the refusal that the code stands for.
/// - Where it accepts the handshake and rejects the content, the handshake and
///   all frames of the content were written, and no command line.
/// - Where it accepts both, the upload succeeds, and what was written is the
///   handshake, the frames of the content in order, and the command line in
///   one frame, with nothing in between or behind.
pub proof fn lemma_transcript(session: SessionModel, first: i32, second: i32)
    requires
        session.state is Connecting,
        session.sent == 0,
    ensures
        ({
            let (end, written) = run(session, UploadEvent::Connected, seq![first, second]);
            let content = frames(session.chunks);
            if first != 0 {
                &&& written == session.handshake()
                &&& end == session.at(
                    UploadState::Aborted(UploadError::Refused(error_of_code(first))),
                )
            } else if second != 0 {
                &&& written == session.handshake() + content
                &&& end == (SessionModel {
                    state: UploadState::Aborted(UploadError::TransferFailed),
                    sent: session.chunks.len(),
                    ..session
                })
            } else {
                &&& written == session.handshake() + content + frame(session.args)
                &&& end == (SessionModel {
                    state: UploadState::Done,
                    sent: session.chunks.len(),
                    ..session
                })
            }
        }),
{
    let acks = seq![first, second];
    let sent = session.at(UploadState::HandshakeSent);
    let awaiting = session.at(UploadState::AwaitingHandshakeAck);
    assert(step_spec(session, UploadEvent::Connected) == (
        sent,
        ActionModel::Write(session.handshake()),
    ));
    assert(step_spec(sent, UploadEvent::Written) == (awaiting, ActionModel::ReadAck));
    assert(acks.first() == first);
    assert(acks.drop_first() =~= seq![second]);
    assert(seq![second].first() == second);
    assert(seq![second].drop_first() =~= Seq::<i32>::empty());
    let from_ack = run(awaiting, UploadEvent::Ack(first), seq![second]);
    assert(run(sent, UploadEvent::Written, acks) == from_ack);
    assert(run(session, UploadEvent::Connected, acks) == (
        from_ack.0,
        session.handshake() + from_ack.1,
    ));
    if first != 0 {
        assert(from_ack.1 =~= Seq::<u8>::empty());
        assert(session.handshake() + from_ack.1 =~= session.handshake());
    } else {
        lemma_run_stream(awaiting, seq![second]);
        assert(session.chunks.skip(0) =~= session.chunks);
        let drained = SessionModel {
            state: UploadState::AwaitingDataAck,
            sent: session.chunks.len(),
            ..session
        };
        let tail = run(drained, UploadEvent::Ack(second), Seq::<i32>::empty());
        assert(from_ack == (tail.0, frames(session.chunks) + tail.1));
        if second != 0 {
            assert(tail.1 =~= Seq::<u8>::empty());
            assert(session.handshake() + (frames(session.chunks) + tail.1) =~= session.handshake()
                + frames(session.chunks));
        } else {
            let sending = drained.at(UploadState::SendingArgs);
            let done = run(sending, UploadEvent::Written, Seq::<i32>::empty());
            assert(done.1 =~= Seq::<u8>::empty());
            assert(tail.1 =~= frame(session.args));
            assert(session.handshake() + (frames(session.chunks) + tail.1) =~= session.handshake()
                + frames(session.chunks) + frame(session.args));
        }
    }
}

/// One upload: what is to be sent, and how far the sending has come.
pub struct UploadSession {
    state: UploadState,
    file_name: Vec<u8>,
    file_length: u32,
    chunks: Vec<Vec<u8>>,
    sent: usize,
    args: Vec<u8>,
}

impl View for UploadSession {
    type V = SessionModel;

    closed spec fn view(&self) -> SessionModel {
        SessionModel {
            state: self.state,
            file_name: self.file_name@,
            file_length: self.file_length,
            chunks: self.chunks.deep_view(),
            sent: self.sent as nat,
            args: self.args@,
        }
    }
}

impl UploadSession {
    /// A session that is about to connect, for content that is compressed
    /// already. `file_name` is the name under which the server is to save the
    /// file and `file_length` the length of the file before compression.
    pub fn with_chunks(
        file_name: &str,
        file_length: usize,
        chunks: Vec<Vec<u8>>,
        cmd_args: &[String],
    ) -> (session: UploadSession)
        ensures
            session@ == (SessionModel {
                state: UploadState::Connecting,
                file_name: encode_utf8(file_name@),
                file_length: wire_len(file_length as nat),
                chunks: chunks.deep_view(),
                sent: 0,
                args: arg_blob(arg_bytes(cmd_args@)),
            }),
    {
        UploadSession {
            state: UploadState::Connecting,
            file_name: vstd::slice::slice_to_vec(file_name.as_bytes()),
            file_length: length_field(file_length),
            chunks,
            sent: 0,
            args: build_arg_blob(cmd_args),
        }
    }

    /// A session that is about to connect, for the file whose content is
    /// `data`. The content is compressed here; the chunks of the session are
    /// the compressed stream of `data`.
    ///
    /// There is no session exactly where the compression of `data` fails; the
    /// error is the compressor's own, passed on.
    pub fn new(file_name: &str, data: &[u8], file_length: usize, cmd_args: &[String]) -> (result:
        Result<UploadSession, std::io::Error>)
        ensures
            result is Ok <==> !zlib_fails(data@),
            result matches Ok(session) ==> {
                &&& session@.state == UploadState::Connecting
                &&& session@.file_name == encode_utf8(file_name@)
                &&& session@.file_length == wire_len(file_length as nat)
                &&& chunks_of(session@.chunks, zlib_stream(data@))
                &&& session@.sent == 0
                &&& session@.args == arg_blob(arg_bytes(cmd_args@))
            },
    {
        match compress_chunks(data) {
            Ok(chunks) => Ok(UploadSession::with_chunks(file_name, file_length, chunks, cmd_args)),
            Err(error) => Err(error),
        }
    }

    /// Where the upload stands.
    pub fn state(&self) -> (state: &UploadState)
        ensures
            *state == self@.state,
    {
        &self.state
    }

    /// Whether the upload is over.
    pub fn is_finished(&self) -> (finished: bool)
        ensures
            finished == self@.finished(),
    {
        match self.state {
            UploadState::Done => true,
            UploadState::Aborted(_) => true,
            _ => false,
        }
    }

    /// Whether `event` can follow on what the session last asked for.
    pub fn accepts(&self, event: &UploadEvent) -> (accepted: bool)
        ensures
            accepted == expects(self@.state, *event),
    {
        match event {
            UploadEvent::Connected => match self.state {
                UploadState::Connecting => true,
                _ => false,
            },
            UploadEvent::Written => match self.state {
                UploadState::HandshakeSent => true,
                UploadState::Streaming => true,
                UploadState::SendingArgs => true,
                _ => false,
            },
            UploadEvent::Ack(_) => match self.state {
                UploadState::AwaitingHandshakeAck => true,
                UploadState::AwaitingDataAck => true,
                _ => false,
            },
            UploadEvent::Failed(_) => !self.is_finished(),
        }
    }

    /// How the upload ended: nothing while it still runs.
    pub fn outcome(self) -> (outcome: Option<Result<(), UploadError>>)
        ensures
            outcome == self@.outcome(),
    {
        match self.state {
            UploadState::Done => Some(Ok(())),
            UploadState::Aborted(error) => Some(Err(error)),
            _ => None,
        }
    }

    /// Sends the next chunk of the content, or turns to the server's answer
    /// once all chunks are sent.
    fn stream(&mut self) -> (action: UploadAction)
        ensures
            (final(self)@, action@) == old(self)@.stream(),
    {
        if self.sent < self.chunks.len() {
            let mut bytes: Vec<u8> = Vec::new();
            write_length_prefixed(&mut bytes, self.chunks[self.sent].as_slice());
            proof {
                let chunk = self.chunks@[self.sent as int];
                assert(chunk.deep_view() =~= chunk@);
                assert(bytes@ =~= frame(chunk@));
            }
            self.state = UploadState::Streaming;
            self.sent = self.sent + 1;
            UploadAction::Write(bytes)
        } else {
            self.state = UploadState::AwaitingDataAck;
            UploadAction::ReadAck
        }
    }

    /// Takes the outcome of the last action and says what to do next.
    pub fn step(&mut self, event: UploadEvent) -> (action: UploadAction)
        requires
            expects(old(self)@.state, event),
        ensures
            (final(self)@, action@) == step_spec(old(self)@, event),
    {
        match event {
            UploadEvent::Failed(error) => {
                self.state = UploadState::Aborted(UploadError::Transport(error));
                UploadAction::Finish
            },
            UploadEvent::Connected => {
                let mut bytes: Vec<u8> = Vec::new();
                write_length_prefixed(&mut bytes, self.file_name.as_slice());
                let length = encode_u32_le(self.file_length);
                bytes.extend_from_slice(length.as_slice());
                proof {
                    assert(bytes@ =~= self@.handshake());
                }
                self.state = UploadState::HandshakeSent;
                UploadAction::Write(bytes)
            },
            UploadEvent::Written => {
                if matches!(self.state, UploadState::HandshakeSent) {
                    self.state = UploadState::AwaitingHandshakeAck;
                    UploadAction::ReadAck
                } else if matches!(self.state, UploadState::Streaming) {
                    self.stream()
                } else {
                    self.state = UploadState::Done;
                    UploadAction::Finish
                }
            },
            UploadEvent::Ack(code) => {
                if matches!(self.state, UploadState::AwaitingHandshakeAck) {
                    match check_handshake_ack(code) {
                        Ok(_) => self.stream(),
                        Err(error) => {
                            self.state = UploadState::Aborted(error);
                            UploadAction::Finish
                        },
                    }
                } else {
                    match check_content_ack(code) {
                        Ok(_) => {
                            let mut bytes: Vec<u8> = Vec::new();
                            write_length_prefixed(&mut bytes, self.args.as_slice());
                            proof {
                                assert(bytes@ =~= frame(self@.args));
                            }
                            self.state = UploadState::SendingArgs;
                            UploadAction::Write(bytes)
                        },
                        Err(error) => {
                            self.state = UploadState::Aborted(error);
                            UploadAction::Finish
                        },
                    }
                }
            },
        }
    }
}

} // verus!
