//! Finding the server on the local network.
//!
//! The client broadcasts a probe over UDP and waits a while for the reply. The
//! reply's sender is the server. A probe that stays unanswered, or is answered
//! by something else, is followed by another, up to a given number of probes.
//!
//! [`Discovery`] holds this as a state machine. It performs no I/O: a driver
//! binds the sockets, sends the probe and waits for the reply whenever
//! [`DiscoveryAction::Probe`] asks for it, and reports the outcome as the next
//! [`DiscoveryEvent`]. A discovery that may send no probe is over before it
//! starts, and its driver has nothing to do.

use vstd::prelude::*;

verus! {

/// What the client broadcasts to the server's port: `nxboot` in ASCII.
pub const PING_MESSAGE: [u8; 6] = [0x6e, 0x78, 0x62, 0x6f, 0x6f, 0x74];

/// What the server's reply starts with: `bootnx` in ASCII.
pub const PONG_MESSAGE: [u8; 6] = [0x62, 0x6f, 0x6f, 0x74, 0x6e, 0x78];

/// The most that is read of a datagram that arrives on the client's port.
pub const REPLY_BUFFER_SIZE: usize = 16;

/// Whether a datagram is the server's reply: it is as long as a probe at
/// least, and starts with the reply's bytes.
pub open spec fn is_pong(payload: Seq<u8>) -> bool {
    payload.len() >= PING_MESSAGE@.len() && payload.take(PONG_MESSAGE@.len() as int)
        == PONG_MESSAGE@
}

/// Tells whether a datagram is the server's reply.
pub fn is_pong_response(payload: &[u8]) -> (valid: bool)
    ensures
        valid == is_pong(payload@),
{
    if payload.len() < PING_MESSAGE.len() {
        return false;
    }
    let mut index: usize = 0;
    while index < PONG_MESSAGE.len()
        invariant
            index <= PONG_MESSAGE@.len() <= payload@.len(),
            forall|i: int| 0 <= i < index ==> payload@[i] == PONG_MESSAGE@[i],
        decreases PONG_MESSAGE@.len() - index,
    {
        if payload[index] != PONG_MESSAGE[index] {
            proof {
                assert(payload@.take(PONG_MESSAGE@.len() as int)[index as int]
                    != PONG_MESSAGE@[index as int]);
            }
            return false;
        }
        index += 1;
    }
    proof {
        assert(payload@.take(PONG_MESSAGE@.len() as int) =~= PONG_MESSAGE@);
    }
    true
}

/// Why a discovery failed.
#[derive(Debug)]
pub enum DiscoveryError {
    /// A socket could not be bound.
    BindFailed(std::io::Error),
    /// The probe could not be sent.
    SendPingFailed(std::io::Error),
    /// Waiting for the reply failed.
    RecvPongFailed(std::io::Error),
    /// What arrived was not the server's reply.
    InvalidResponse,
    /// All probes were spent without a reply. A discovery does not end with
    /// this error, it ends with no address; the error is for callers to whom
    /// a server that is not there is a failure.
    RetriesExhausted,
}

/// Where a discovery stands. `A` is the type of a sender's address.
#[derive(Debug)]
pub enum DiscoveryState<A> {
    /// The sockets are being bound.
    Binding,
    /// A probe is out and its reply is awaited.
    Probing,
    /// The server replied from this address.
    Found(A),
    /// All probes were spent and none was answered.
    NotFound,
    /// The discovery was given up.
    Failed(DiscoveryError),
}

/// What the driver reports to the discovery.
#[derive(Debug)]
pub enum DiscoveryEvent<A> {
    /// Both sockets are bound.
    Bound,
    /// A socket could not be bound.
    BindFailed(std::io::Error),
    /// The probe could not be sent.
    SendFailed(std::io::Error),
    /// Receiving the reply failed.
    RecvFailed(std::io::Error),
    /// No datagram arrived in time.
    TimedOut,
    /// A datagram arrived in time.
    Reply {
        /// What the datagram holds.
        payload: Vec<u8>,
        /// Where it came from.
        sender: A,
    },
}

/// What the discovery asks of the driver.
#[derive(Debug, Clone, Copy, PartialEq, Eq, Structural)]
pub enum DiscoveryAction {
    /// Broadcast [`PING_MESSAGE`] to the server's port, then wait for one
    /// datagram on the client's port and take up to [`REPLY_BUFFER_SIZE`]
    /// bytes of it, all within the time that an attempt is given.
    Probe,
    /// Stop: the discovery is over and [`Discovery::outcome`] tells how it
    /// ended.
    Finish,
}

/// What a discovery holds.
pub struct DiscoveryModel<A> {
    /// Where the discovery stands.
    pub state: DiscoveryState<A>,
    /// How many probes may be sent.
    pub retries: u32,
    /// How many probes have been asked for.
    pub attempt: u32,
}

impl<A> DiscoveryModel<A> {
    /// The same discovery in another state.
    pub open spec fn at(self, state: DiscoveryState<A>) -> DiscoveryModel<A> {
        DiscoveryModel { state, ..self }
    }

    /// Whether another probe may be sent.
    pub open spec fn can_probe(self) -> bool {
        self.attempt < self.retries
    }

    /// The next probe.
    pub open spec fn probe(self) -> (DiscoveryModel<A>, DiscoveryAction) {
        (
            DiscoveryModel {
                state: DiscoveryState::Probing,
                attempt: (self.attempt + 1) as u32,
                ..self
            },
            DiscoveryAction::Probe,
        )
    }

    /// What follows an attempt that ended in `error`: the next probe, or, if
    /// this was the last attempt, the failure of the discovery.
    pub open spec fn retry_or_fail(self, error: DiscoveryError) -> (
        DiscoveryModel<A>,
        DiscoveryAction,
    ) {
        if self.can_probe() {
            self.probe()
        } else {
            (self.at(DiscoveryState::Failed(error)), DiscoveryAction::Finish)
        }
    }

    /// What follows an attempt that ended without a datagram, and the binding
    /// of the sockets: the next probe, or, if none is left, the end of a
    /// discovery that found nothing.
    pub open spec fn retry_or_give_up(self) -> (DiscoveryModel<A>, DiscoveryAction) {
        if self.can_probe() {
            self.probe()
        } else {
            (self.at(DiscoveryState::NotFound), DiscoveryAction::Finish)
        }
    }

    /// Whether the discovery is over.
    pub open spec fn finished(self) -> bool {
        !(self.state is Binding || self.state is Probing)
    }

    /// How the discovery ended, once it is over: with the server's address,
    /// with none, or with an error.
    pub open spec fn outcome(self) -> Option<Result<Option<A>, DiscoveryError>> {
        match self.state {
            DiscoveryState::Found(sender) => Some(Ok(Some(sender))),
            DiscoveryState::NotFound => Some(Ok(None)),
            DiscoveryState::Failed(error) => Some(Err(error)),
            _ => None,
        }
    }
}

/// Whether `event` can follow on what a discovery in `state` last asked for.
pub open spec fn expects<A>(state: DiscoveryState<A>, event: DiscoveryEvent<A>) -> bool {
    match event {
        DiscoveryEvent::Bound => state is Binding,
        DiscoveryEvent::BindFailed(_) => state is Binding,
        _ => state is Probing,
    }
}

/// The transition of the discovery: the discovery after `event`, and what it
/// asks for next. Defined for the events that the discovery expects.
///
/// A valid reply ends the discovery at once. Anything else ends the attempt:
/// a silent attempt never counts as an error, while a failed send or receive
/// and a datagram that is not the reply do if the attempt was the last.
pub open spec fn step_spec<A>(discovery: DiscoveryModel<A>, event: DiscoveryEvent<A>) -> (
    DiscoveryModel<A>,
    DiscoveryAction,
) {
    match event {
        DiscoveryEvent::Bound => discovery.retry_or_give_up(),
        DiscoveryEvent::BindFailed(error) => (
            discovery.at(DiscoveryState::Failed(DiscoveryError::BindFailed(error))),
            DiscoveryAction::Finish,
        ),
        DiscoveryEvent::SendFailed(error) => discovery.retry_or_fail(
            DiscoveryError::SendPingFailed(error),
        ),
        DiscoveryEvent::RecvFailed(error) => discovery.retry_or_fail(
            DiscoveryError::RecvPongFailed(error),
        ),
        DiscoveryEvent::TimedOut => discovery.retry_or_give_up(),
        DiscoveryEvent::Reply { payload, sender } => if is_pong(payload@) {
            (discovery.at(DiscoveryState::Found(sender)), DiscoveryAction::Finish)
        } else {
            discovery.retry_or_fail(DiscoveryError::InvalidResponse)
        },
    }
}

/// A discovery that may send `retries` probes, at its start: about to bind
/// its sockets, or, if it may send no probe, over already with nothing found.
pub open spec fn initial<A>(retries: u32) -> DiscoveryModel<A> {
    DiscoveryModel {
        state: if retries == 0 {
            DiscoveryState::NotFound
        } else {
            DiscoveryState::Binding
        },
        retries,
        attempt: 0,
    }
}

/// The discovery after `count` more attempts, each of which ended without a
/// datagram.
pub open spec fn after_silence<A>(discovery: DiscoveryModel<A>, count: nat) -> DiscoveryModel<A>
    decreases count,
{
    if count == 0 {
        discovery
    } else {
        step_spec(after_silence(discovery, (count - 1) as nat), DiscoveryEvent::TimedOut).0
    }
}

/// Where no server ever replies, a discovery ends with nothing found once as
/// many attempts have timed out as it may send probes, and not before: it
/// sends exactly `retries` probes, and never waits more often than that.
pub proof fn lemma_silence_ends_in_not_found<A>(retries: u32, silent: nat)
    requires
        0 < retries,
        silent <= retries,
    ensures
        expects(initial::<A>(retries).state, DiscoveryEvent::<A>::Bound),
        ({
            let bound = step_spec(initial::<A>(retries), DiscoveryEvent::Bound).0;
            let discovery = after_silence(bound, silent);
            &&& discovery.retries == retries
            &&& silent < retries ==> discovery.state is Probing && discovery.attempt == silent + 1
            &&& silent == retries ==> discovery.outcome() == Some(
                Ok::<Option<A>, DiscoveryError>(None),
            ) && discovery.attempt == retries
        }),
    decreases silent,
{
    if silent > 0 {
        lemma_silence_ends_in_not_found::<A>(retries, (silent - 1) as nat);
    }
}

/// A discovery that may send no probe is over at its start, with nothing
/// found: it asks for nothing, not even for its sockets, and expects no event.
pub proof fn lemma_no_retries_no_probe<A>(event: DiscoveryEvent<A>)
    ensures
        initial::<A>(0).finished(),
        initial::<A>(0).outcome() == Some(Ok::<Option<A>, DiscoveryError>(None)),
        initial::<A>(0).attempt == 0,
        !expects(initial::<A>(0).state, event),
{
}

/// A datagram that is too short or does not start with the reply's bytes never
/// counts as the server's reply: the discovery goes on with the next probe,
/// and where none is left it fails on the datagram.
pub proof fn lemma_malformed_reply_is_passed_over<A>(
    discovery: DiscoveryModel<A>,
    payload: Vec<u8>,
    sender: A,
)
    requires
        discovery.state is Probing,
        payload@.len() < PING_MESSAGE@.len() || exists|i: int|
            0 <= i < PONG_MESSAGE@.len() && payload@[i] != PONG_MESSAGE@[i],
    ensures
        !is_pong(payload@),
        ({
            let (next, action) = step_spec(discovery, DiscoveryEvent::Reply { payload, sender });
            &&& !(next.state is Found)
            &&& discovery.attempt < discovery.retries ==> {
                &&& next.state is Probing
                &&& next.attempt == discovery.attempt + 1
                &&& action == DiscoveryAction::Probe
            }
            &&& discovery.attempt >= discovery.retries ==> {
                &&& next.state == DiscoveryState::<A>::Failed(DiscoveryError::InvalidResponse)
                &&& action == DiscoveryAction::Finish
            }
        }),
{
    if payload@.len() >= PING_MESSAGE@.len() {
        let i = choose|i: int| 0 <= i < PONG_MESSAGE@.len() && payload@[i] != PONG_MESSAGE@[i];
        assert(payload@.take(PONG_MESSAGE@.len() as int)[i] == payload@[i]);
    }
}

/// The server's reply ends the discovery at once, whatever number of probes
/// is left, with the address that the reply came from.
pub proof fn lemma_reply_ends_discovery<A>(
    discovery: DiscoveryModel<A>,
    payload: Vec<u8>,
    sender: A,
)
    requires
        discovery.state is Probing,
        is_pong(payload@),
    ensures
        ({
            let (next, action) = step_spec(discovery, DiscoveryEvent::Reply { payload, sender });
            &&& next == discovery.at(DiscoveryState::Found(sender))
            &&& next.outcome() == Some(Ok::<Option<A>, DiscoveryError>(Some(sender)))
            &&& action == DiscoveryAction::Finish
        }),
{
}

/// A discovery never asks for more probes than it may send: each probe is
/// counted, and the count stays within the number of retries. An error ends
/// the discovery only on the last attempt.
pub proof fn lemma_probes_are_bounded<A>(discovery: DiscoveryModel<A>, event: DiscoveryEvent<A>)
    requires
        expects(discovery.state, event),
        discovery.attempt <= discovery.retries,
    ensures
        ({
            let (next, action) = step_spec(discovery, event);
            &&& next.retries == discovery.retries
            &&& next.attempt <= next.retries
            &&& action == DiscoveryAction::Probe <==> next.state is Probing
            &&& action == DiscoveryAction::Probe ==> next.attempt == discovery.attempt + 1
            &&& action == DiscoveryAction::Finish <==> next.finished()
            &&& next.state is Failed && !(event is BindFailed) ==> discovery.attempt
                == discovery.retries
        }),
{
}

/// One discovery: how many probes it may send, and how far it has come.
pub struct Discovery<A> {
    state: DiscoveryState<A>,
    retries: u32,
    attempt: u32,
}

impl<A> View for Discovery<A> {
    type V = DiscoveryModel<A>;

    closed spec fn view(&self) -> DiscoveryModel<A> {
        DiscoveryModel { state: self.state, retries: self.retries, attempt: self.attempt }
    }
}

impl<A> Discovery<A> {
    /// A discovery that may send `retries` probes. It is about to bind its
    /// sockets, unless it may send no probe: then it is over, with nothing
    /// found.
    pub fn new(retries: u32) -> (discovery: Discovery<A>)
        ensures
            discovery@ == initial::<A>(retries),
    {
        if retries == 0 {
            Discovery { state: DiscoveryState::NotFound, retries, attempt: 0 }
        } else {
            Discovery { state: DiscoveryState::Binding, retries, attempt: 0 }
        }
    }

    /// Where the discovery stands.
    pub fn state(&self) -> (state: &DiscoveryState<A>)
        ensures
            *state == self@.state,
    {
        &self.state
    }

    /// How many probes have been asked for.
    pub fn attempt(&self) -> (attempt: u32)
        ensures
            attempt == self@.attempt,
    {
        self.attempt
    }

    /// Whether the discovery is over.
    pub fn is_finished(&self) -> (finished: bool)
        ensures
            finished == self@.finished(),
    {
        match self.state {
            DiscoveryState::Binding => false,
            DiscoveryState::Probing => false,
            _ => true,
        }
    }

    /// Whether `event` can follow on what the discovery last asked for.
    pub fn accepts(&self, event: &DiscoveryEvent<A>) -> (accepted: bool)
        ensures
            accepted == expects(self@.state, *event),
    {
        match event {
            DiscoveryEvent::Bound => matches!(self.state, DiscoveryState::Binding),
            DiscoveryEvent::BindFailed(_) => matches!(self.state, DiscoveryState::Binding),
            _ => matches!(self.state, DiscoveryState::Probing),
        }
    }

    /// How the discovery ended: nothing while it still runs.
    pub fn outcome(self) -> (outcome: Option<Result<Option<A>, DiscoveryError>>)
        ensures
            outcome == self@.outcome(),
    {
        match self.state {
            DiscoveryState::Found(sender) => Some(Ok(Some(sender))),
            DiscoveryState::NotFound => Some(Ok(None)),
            DiscoveryState::Failed(error) => Some(Err(error)),
            _ => None,
        }
    }

    /// Asks for the next probe if one is left.
    fn probe(&mut self) -> (probing: bool)
        ensures
            probing == old(self)@.can_probe(),
            probing ==> (final(self)@, DiscoveryAction::Probe) == old(self)@.probe(),
            !probing ==> *final(self) == *old(self),
    {
        if self.attempt < self.retries {
            self.attempt = self.attempt + 1;
            self.state = DiscoveryState::Probing;
            true
        } else {
            false
        }
    }

    /// Ends an attempt that ended in `error`.
    fn retry_or_fail(&mut self, error: DiscoveryError) -> (action: DiscoveryAction)
        ensures
            (final(self)@, action) == old(self)@.retry_or_fail(error),
    {
        if self.probe() {
            DiscoveryAction::Probe
        } else {
            self.state = DiscoveryState::Failed(error);
            DiscoveryAction::Finish
        }
    }

    /// Ends an attempt that ended without a datagram.
    fn retry_or_give_up(&mut self) -> (action: DiscoveryAction)
        ensures
            (final(self)@, action) == old(self)@.retry_or_give_up(),
    {
        if self.probe() {
            DiscoveryAction::Probe
        } else {
            self.state = DiscoveryState::NotFound;
            DiscoveryAction::Finish
        }
    }

    /// Takes the outcome of the last action and says what to do next.
    pub fn step(&mut self, event: DiscoveryEvent<A>) -> (action: DiscoveryAction)
        requires
            expects(old(self)@.state, event),
        ensures
            (final(self)@, action) == step_spec(old(self)@, event),
    {
        match event {
            DiscoveryEvent::Bound => self.retry_or_give_up(),
            DiscoveryEvent::BindFailed(error) => {
                self.state = DiscoveryState::Failed(DiscoveryError::BindFailed(error));
                DiscoveryAction::Finish
            },
            DiscoveryEvent::SendFailed(error) => self.retry_or_fail(
                DiscoveryError::SendPingFailed(error),
            ),
            DiscoveryEvent::RecvFailed(error) => self.retry_or_fail(
                DiscoveryError::RecvPongFailed(error),
            ),
            DiscoveryEvent::TimedOut => self.retry_or_give_up(),
            DiscoveryEvent::Reply { payload, sender } => {
                if is_pong_response(payload.as_slice()) {
                    self.state = DiscoveryState::Found(sender);
                    DiscoveryAction::Finish
                } else {
                    self.retry_or_fail(DiscoveryError::InvalidResponse)
                }
            },
        }
    }
}

} // verus!
