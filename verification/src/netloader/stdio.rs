//! The console of a program that runs on the server.
//!
//! A program can redirect its standard output and standard error to the
//! client. It connects to the client's port over TCP and writes; the client
//! copies what arrives to its own standard output until the program closes the
//! connection.
//!
//! [`StdioServer`] holds this as a state machine. It performs no I/O: a driver
//! listens, accepts one connection, reads and writes as each [`RelayAction`]
//! asks for, and reports the outcome as the next [`RelayEvent`].

use vstd::prelude::*;

verus! {

/// The most that is read from the connection at a time.
pub const BUFFER_SIZE: usize = 1024;

/// Where a server stands.
#[derive(Debug)]
pub enum RelayState {
    /// The server waits for the one connection it serves.
    Listening,
    /// A read on the connection is under way.
    Reading,
    /// What was read is being written to standard output.
    Forwarding,
    /// The peer closed the connection.
    Closed,
    /// Listening, accepting, a read or a write failed.
    Failed(std::io::Error),
}

/// What the driver reports to the server.
#[derive(Debug)]
pub enum RelayEvent {
    /// A connection was accepted.
    Accepted,
    /// A read returned these bytes; none if the peer closed the connection.
    Received(Vec<u8>),
    /// The bytes of the last [`RelayAction::Forward`] have all been written.
    Forwarded,
    /// The operation that was asked for failed.
    Failed(std::io::Error),
}

/// What the server asks of the driver.
#[derive(Debug)]
pub enum RelayAction {
    /// Read from the connection, this many bytes at most, then report what
    /// the read returned as [`RelayEvent::Received`].
    Read(usize),
    /// Write all of these bytes to standard output, then report
    /// [`RelayEvent::Forwarded`].
    Forward(Vec<u8>),
    /// Stop: the connection is done with and [`StdioServer::outcome`] tells
    /// how it ended. No other connection is accepted.
    Finish,
}

/// A [`RelayAction`] with its bytes as a sequence.
pub enum RelayActionModel {
    Read(usize),
    Forward(Seq<u8>),
    Finish,
}

impl View for RelayAction {
    type V = RelayActionModel;

    open spec fn view(&self) -> RelayActionModel {
        match self {
            RelayAction::Read(limit) => RelayActionModel::Read(*limit),
            RelayAction::Forward(bytes) => RelayActionModel::Forward(bytes@),
            RelayAction::Finish => RelayActionModel::Finish,
        }
    }
}

/// Whether a server in `state` is done.
pub open spec fn finished(state: RelayState) -> bool {
    state is Closed || state is Failed
}

/// How a server that is done has ended: in order if the peer closed the
/// connection.
pub open spec fn outcome_of(state: RelayState) -> Option<Result<(), std::io::Error>> {
    match state {
        RelayState::Closed => Some(Ok(())),
        RelayState::Failed(error) => Some(Err(error)),
        _ => None,
    }
}

/// Whether `event` can follow on what a server in `state` last asked for.
pub open spec fn expects(state: RelayState, event: RelayEvent) -> bool {
    match event {
        RelayEvent::Accepted => state is Listening,
        RelayEvent::Received(_) => state is Reading,
        RelayEvent::Forwarded => state is Forwarding,
        RelayEvent::Failed(_) => !finished(state),
    }
}

/// The transition of the server: the state after `event`, and what the server
/// asks for next. Defined for the events that the server expects.
///
/// What a read returns is forwarded as it is, byte for byte; a read that
/// returns nothing means that the peer is gone and ends the server in order.
pub open spec fn step_spec(state: RelayState, event: RelayEvent) -> (RelayState, RelayActionModel) {
    match event {
        RelayEvent::Accepted => (RelayState::Reading, RelayActionModel::Read(BUFFER_SIZE)),
        RelayEvent::Received(bytes) => if bytes@.len() == 0 {
            (RelayState::Closed, RelayActionModel::Finish)
        } else {
            (RelayState::Forwarding, RelayActionModel::Forward(bytes@))
        },
        RelayEvent::Forwarded => (RelayState::Reading, RelayActionModel::Read(BUFFER_SIZE)),
        RelayEvent::Failed(error) => (RelayState::Failed(error), RelayActionModel::Finish),
    }
}

/// What reaches standard output when the reads on the connection return
/// `reads` in turn: all of it up to the first read that returns nothing, in
/// the order of arrival.
pub open spec fn relayed(reads: Seq<Seq<u8>>) -> Seq<u8>
    decreases reads.len(),
{
    if reads.len() == 0 || reads.first().len() == 0 {
        Seq::empty()
    } else {
        reads.first() + relayed(reads.drop_first())
    }
}

/// Whether one of `reads` returned nothing, which is how the end of the
/// connection shows.
pub open spec fn peer_closed(reads: Seq<Seq<u8>>) -> bool {
    exists|i: int| 0 <= i < reads.len() && #[trigger] reads[i].len() == 0
}

/// A server from `event` on, over a connection whose further reads return
/// `reads` in turn and a standard output that takes every write: the state in
/// which the server ends up, and everything that it forwarded. Where the
/// reads run out, the server stays as it is.
pub open spec fn run(state: RelayState, event: RelayEvent, reads: Seq<Vec<u8>>) -> (
    RelayState,
    Seq<u8>,
)
    decreases reads.len(), (if event is Received { 1nat } else { 0nat }),
{
    if !expects(state, event) {
        (state, Seq::empty())
    } else {
        let (next, action) = step_spec(state, event);
        match action {
            RelayActionModel::Read(_) => if reads.len() > 0 {
                run(next, RelayEvent::Received(reads.first()), reads.drop_first())
            } else {
                (next, Seq::empty())
            },
            RelayActionModel::Forward(bytes) => {
                let (end, rest) = run(next, RelayEvent::Forwarded, reads);
                (end, bytes + rest)
            },
            RelayActionModel::Finish => (next, Seq::empty()),
        }
    }
}

/// The contents of what a series of reads returned.
pub open spec fn contents_of(reads: Seq<Vec<u8>>) -> Seq<Seq<u8>> {
    Seq::new(reads.len(), |i: int| reads[i]@)
}

/// A server that waits for a read copies the connection as it is.
proof fn lemma_run_reading(event: RelayEvent, reads: Seq<Vec<u8>>)
    requires
        event is Accepted || event is Forwarded,
    ensures
        ({
            let state = if event is Accepted {
                RelayState::Listening
            } else {
                RelayState::Forwarding
            };
            let (end, forwarded) = run(state, event, reads);
            &&& forwarded == relayed(contents_of(reads))
            &&& end is Closed <==> peer_closed(contents_of(reads))
            &&& end is Closed || end is Reading
        }),
    decreases reads.len(),
{
    let contents = contents_of(reads);
    let state = if event is Accepted {
        RelayState::Listening
    } else {
        RelayState::Forwarding
    };
    if reads.len() > 0 {
        let rest = reads.drop_first();
        let rest_contents = contents_of(rest);
        let received = RelayEvent::Received(reads.first());
        assert(contents.drop_first() =~= rest_contents);
        assert(contents.first() == reads.first()@);
        assert(run(state, event, reads) == run(RelayState::Reading, received, rest));
        lemma_run_reading(RelayEvent::Forwarded, rest);
        if reads.first()@.len() == 0 {
            assert(contents[0].len() == 0);
        } else {
            let onward = run(RelayState::Forwarding, RelayEvent::Forwarded, rest);
            assert(run(RelayState::Reading, received, rest) == (
                onward.0,
                reads.first()@ + onward.1,
            ));
            if peer_closed(contents) {
                let i = choose|i: int| 0 <= i < contents.len() && #[trigger] contents[i].len() == 0;
                assert(rest_contents[i - 1].len() == 0);
            }
            if peer_closed(rest_contents) {
                let i = choose|i: int|
                    0 <= i < rest_contents.len() && #[trigger] rest_contents[i].len() == 0;
                assert(contents[i + 1].len() == 0);
            }
        }
    }
}

/// The server copies the connection to standard output as it is: from the
/// moment the connection is accepted, what the server forwards is what the
/// reads returned, in order and byte for byte, up to the read that shows the
/// end of the connection. It ends in order exactly if there was such a read,
/// and until then it goes on reading.
pub proof fn lemma_relay_is_verbatim(reads: Seq<Vec<u8>>)
    ensures
        ({
            let (end, forwarded) = run(RelayState::Listening, RelayEvent::Accepted, reads);
            &&& forwarded == relayed(contents_of(reads))
            &&& end is Closed <==> peer_closed(contents_of(reads))
            &&& end is Closed || end is Reading
        }),
{
    lemma_run_reading(RelayEvent::Accepted, reads);
}

/// A failure ends the server wherever it stands, with the failure as the
/// outcome, and a server that is done expects nothing more.
pub proof fn lemma_failure_ends_server(state: RelayState, event: RelayEvent, error: std::io::Error)
    ensures
        !finished(state) ==> expects(state, RelayEvent::Failed(error)),
        step_spec(state, RelayEvent::Failed(error)) == (
            RelayState::Failed(error),
            RelayActionModel::Finish,
        ),
        outcome_of(RelayState::Failed(error)) == Some(Err::<(), std::io::Error>(error)),
        finished(state) ==> !expects(state, event),
{
}

/// The one connection that a server serves, and how far it has come.
pub struct StdioServer {
    state: RelayState,
}

impl View for StdioServer {
    type V = RelayState;

    closed spec fn view(&self) -> RelayState {
        self.state
    }
}

impl StdioServer {
    /// A server that is about to listen.
    pub fn new() -> (server: StdioServer)
        ensures
            server@ == RelayState::Listening,
    {
        StdioServer { state: RelayState::Listening }
    }

    /// Where the server stands.
    pub fn state(&self) -> (state: &RelayState)
        ensures
            *state == self@,
    {
        &self.state
    }

    /// Whether the server is done.
    pub fn is_finished(&self) -> (done: bool)
        ensures
            done == finished(self@),
    {
        match self.state {
            RelayState::Closed => true,
            RelayState::Failed(_) => true,
            _ => false,
        }
    }

    /// Whether `event` can follow on what the server last asked for.
    pub fn accepts(&self, event: &RelayEvent) -> (accepted: bool)
        ensures
            accepted == expects(self@, *event),
    {
        match event {
            RelayEvent::Accepted => matches!(self.state, RelayState::Listening),
            RelayEvent::Received(_) => matches!(self.state, RelayState::Reading),
            RelayEvent::Forwarded => matches!(self.state, RelayState::Forwarding),
            RelayEvent::Failed(_) => !self.is_finished(),
        }
    }

    /// How the server ended: nothing while it still runs.
    pub fn outcome(self) -> (outcome: Option<Result<(), std::io::Error>>)
        ensures
            outcome == outcome_of(self@),
    {
        match self.state {
            RelayState::Closed => Some(Ok(())),
            RelayState::Failed(error) => Some(Err(error)),
            _ => None,
        }
    }

    /// Takes the outcome of the last action and says what to do next.
    pub fn step(&mut self, event: RelayEvent) -> (action: RelayAction)
        requires
            expects(old(self)@, event),
        ensures
            (final(self)@, action@) == step_spec(old(self)@, event),
    {
        match event {
            RelayEvent::Accepted => {
                self.state = RelayState::Reading;
                RelayAction::Read(BUFFER_SIZE)
            },
            RelayEvent::Received(bytes) => {
                if bytes.len() == 0 {
                    self.state = RelayState::Closed;
                    RelayAction::Finish
                } else {
                    self.state = RelayState::Forwarding;
                    RelayAction::Forward(bytes)
                }
            },
            RelayEvent::Forwarded => {
                self.state = RelayState::Reading;
                RelayAction::Read(BUFFER_SIZE)
            },
            RelayEvent::Failed(error) => {
                self.state = RelayState::Failed(error);
                RelayAction::Finish
            },
        }
    }
}

} // verus!
