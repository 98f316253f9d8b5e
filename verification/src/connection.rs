//! The connection: one connectivity session with its one data channel, its
//! handlers, and the negotiation round in flight.

use crate::candidate::{
    clone_all, decode_all, encode_all, Candidate, CandidateModel, IceCandidate,
};
use crate::engine::{
    CandidateOutcome, Command, Completion, Delivery, EventKind, Failure, FailureModel,
    Operation, Outcome, Request, SdpType, Signal, Step,
};
use crate::protocol;
use crate::protocol::{ConnectionModel, Phase, RoundModel};
use vstd::prelude::*;

verus! {

enum Round {
    Idle,
    Listening { ty: SdpType, supplied: Option<String>, remote: Vec<Candidate> },
    CreatingLocal { ty: SdpType, remote: Vec<Candidate> },
    ApplyingLocal { description: String, remote: Vec<Candidate> },
    CheckingRemote { description: String, remote: Vec<Candidate> },
    AddingRemote { description: String, expected: usize },
    Collecting { description: String, collected: Vec<Candidate> },
    Stopping { description: String, collected: Vec<Candidate> },
    AcceptingOffer,
    CreatingAnswer,
    ApplyingRemote,
    CheckingBatch { batch: Vec<Candidate> },
    AddingBatch { expected: usize },
}

impl DeepView for Round {
    type V = RoundModel;

    closed spec fn deep_view(&self) -> RoundModel {
        match self {
            Round::Idle => RoundModel::Idle,
            Round::Listening { ty, supplied, remote } => RoundModel::Listening {
                ty: *ty,
                supplied: supplied.deep_view(),
                remote: remote.deep_view(),
            },
            Round::CreatingLocal { ty, remote } => RoundModel::CreatingLocal {
                ty: *ty,
                remote: remote.deep_view(),
            },
            Round::ApplyingLocal { description, remote } => RoundModel::ApplyingLocal {
                description: description@,
                remote: remote.deep_view(),
            },
            Round::CheckingRemote { description, remote } => RoundModel::CheckingRemote {
                description: description@,
                remote: remote.deep_view(),
            },
            Round::AddingRemote { description, expected } => RoundModel::AddingRemote {
                description: description@,
                expected: *expected as nat,
            },
            Round::Collecting { description, collected } => RoundModel::Collecting {
                description: description@,
                collected: collected.deep_view(),
            },
            Round::Stopping { description, collected } => RoundModel::Stopping {
                description: description@,
                collected: collected.deep_view(),
            },
            Round::AcceptingOffer => RoundModel::AcceptingOffer,
            Round::CreatingAnswer => RoundModel::CreatingAnswer,
            Round::ApplyingRemote => RoundModel::ApplyingRemote,
            Round::CheckingBatch { batch } => RoundModel::CheckingBatch {
                batch: batch.deep_view(),
            },
            Round::AddingBatch { expected } => RoundModel::AddingBatch {
                expected: *expected as nat,
            },
        }
    }
}

/// One connectivity session and its data channel, seen from the side that
/// decides. `S` is the type of the handlers for open and close, `M` that of
/// the message handler; the connection owns at most one of each kind.
pub struct Connection<S, M> {
    phase: Phase,
    torn_down: bool,
    on_open: Option<S>,
    on_message: Option<M>,
    on_close: Option<S>,
    stream_active: bool,
    round: Round,
}

impl<S, M> DeepView for Connection<S, M> {
    type V = ConnectionModel<S, M>;

    closed spec fn deep_view(&self) -> ConnectionModel<S, M> {
        ConnectionModel {
            phase: self.phase,
            torn_down: self.torn_down,
            on_open: self.on_open,
            on_message: self.on_message,
            on_close: self.on_close,
            stream_active: self.stream_active,
            round: self.round.deep_view(),
        }
    }
}

impl<S, M> Connection<S, M> {
    #[verifier::type_invariant]
    spec fn well_formed(self) -> bool {
        protocol::valid(self.deep_view())
    }
}

/// The mathematical value of a verdict on a batch.
pub open spec fn verdict_model(verdict: Result<(), Failure>) -> Result<(), FailureModel> {
    match verdict {
        Ok(_) => Ok(()),
        Err(failure) => Err(failure.deep_view()),
    }
}

/// Decides whether a batch of `expected` candidates was applied as a whole:
/// it was if the engine answered for every candidate and refused none. The
/// first refusal is the one that is reported.
pub fn judge_batch(expected: usize, outcomes: &Vec<CandidateOutcome>) -> (verdict: Result<
    (),
    Failure,
>)
    ensures
        verdict_model(verdict) == protocol::batch_verdict(expected as nat, outcomes.deep_view()),
{
    if outcomes.len() != expected {
        return Err(Failure::ProtocolInvariantViolation);
    }
    let mut i: usize = 0;
    while i < outcomes.len()
        invariant
            i <= outcomes.len(),
            outcomes.len() == expected,
            protocol::first_rejection(outcomes.deep_view(), 0) == protocol::first_rejection(
                outcomes.deep_view(),
                i as int,
            ),
        decreases outcomes.len() - i,
    {
        match &outcomes[i] {
            CandidateOutcome::Rejected(message) => {
                return Err(
                    Failure::EngineFailure {
                        operation: Operation::AddCandidate,
                        message: message.clone(),
                    },
                );
            },
            CandidateOutcome::Accepted => {},
        }
        i += 1;
    }
    Ok(())
}

impl<S, M> Connection<S, M> {
    /// Makes a connection: unconnected, with no handler and no round.
    pub fn new() -> (connection: Self)
        ensures
            connection.deep_view() == protocol::fresh::<S, M>(),
            protocol::valid(connection.deep_view()),
    {
        Connection {
            phase: Phase::Created,
            torn_down: false,
            on_open: None,
            on_message: None,
            on_close: None,
            stream_active: false,
            round: Round::Idle,
        }
    }

    /// Where the connection is in its life.
    pub fn phase(&self) -> (phase: Phase)
        ensures
            phase == self.deep_view().phase,
    {
        self.phase
    }

    /// Whether a candidate subscription is live: the candidate handler is
    /// registered on a session that the caller has not closed.
    pub fn is_listening(&self) -> (listening: bool)
        ensures
            listening == self.deep_view().stream_active,
    {
        self.stream_active
    }

    /// Whether a round is in flight.
    pub fn in_flight(&self) -> (busy: bool)
        ensures
            busy == !(self.deep_view().round is Idle),
    {
        match self.round {
            Round::Idle => false,
            _ => true,
        }
    }

    /// Whether the caller has closed the connection.
    pub fn is_released(&self) -> (released: bool)
        ensures
            released == self.deep_view().torn_down,
    {
        self.torn_down
    }

    /// The handler registered for the channel becoming usable.
    pub fn open_handler(&self) -> (handler: Option<&S>)
        ensures
            handler is Some == self.deep_view().on_open is Some,
            handler matches Some(h) ==> self.deep_view().on_open == Some(*h),
    {
        self.on_open.as_ref()
    }

    /// The handler registered for arriving messages.
    pub fn message_handler(&self) -> (handler: Option<&M>)
        ensures
            handler is Some == self.deep_view().on_message is Some,
            handler matches Some(h) ==> self.deep_view().on_message == Some(*h),
    {
        self.on_message.as_ref()
    }

    /// The handler registered for the peer closing the channel.
    pub fn close_handler(&self) -> (handler: Option<&S>)
        ensures
            handler is Some == self.deep_view().on_close is Some,
            handler matches Some(h) ==> self.deep_view().on_close == Some(*h),
    {
        self.on_close.as_ref()
    }

    /// Closes the connection and says what the engine must do for it, in
    /// order: deregister the three handlers, close the channel, close the
    /// session. On a connection that the caller has already closed nothing
    /// changes and nothing is to be done.
    pub fn close(&mut self) -> (commands: Vec<Command>)
        ensures
            protocol::valid(final(self).deep_view()),
            (final(self).deep_view(), commands.deep_view()) == protocol::close(
                old(self).deep_view(),
            ),
    {
        proof {
            use_type_invariant(&*self);
        }
        let mut commands: Vec<Command> = Vec::new();
        if self.torn_down {
            return commands;
        }
        self.round = Round::Idle;
        self.stream_active = false;
        self.on_open = None;
        self.on_message = None;
        self.on_close = None;
        self.phase = Phase::Closed;
        self.torn_down = true;
        commands.push(Command::ClearHandler(EventKind::Open));
        commands.push(Command::ClearHandler(EventKind::Message));
        commands.push(Command::ClearHandler(EventKind::Close));
        commands.push(Command::CloseChannel);
        commands.push(Command::CloseSession);
        commands
    }

    /// Sends one message on the data channel: whatever the phase, the packet
    /// is handed to the engine once, as it came, and the connection is left
    /// as it is. On a channel that is not open nothing reaches the peer, and
    /// nothing tells the caller.
    pub fn send(&self, packet: Vec<u8>) -> (command: Command)
        ensures
            command.deep_view() == protocol::send(packet@),
    {
        Command::Transmit(packet)
    }

    /// Registers the handler for the channel becoming usable and hands back
    /// the one it replaces. A closed connection takes no handler and hands
    /// the new one back.
    pub fn set_onopen(&mut self, handler: S) -> (replaced: Option<S>)
        ensures
            protocol::valid(final(self).deep_view()),
            (final(self).deep_view(), replaced) == protocol::register_open(
                old(self).deep_view(),
                handler,
            ),
    {
        proof {
            use_type_invariant(&*self);
        }
        let mut slot = Some(handler);
        match self.phase {
            Phase::Closed => {},
            _ => {
                core::mem::swap(&mut self.on_open, &mut slot);
            },
        }
        slot
    }

    /// Registers the handler for arriving messages and hands back the one it
    /// replaces. A closed connection takes no handler and hands the new one
    /// back.
    pub fn set_onmessage(&mut self, handler: M) -> (replaced: Option<M>)
        ensures
            protocol::valid(final(self).deep_view()),
            (final(self).deep_view(), replaced) == protocol::register_message(
                old(self).deep_view(),
                handler,
            ),
    {
        proof {
            use_type_invariant(&*self);
        }
        let mut slot = Some(handler);
        match self.phase {
            Phase::Closed => {},
            _ => {
                core::mem::swap(&mut self.on_message, &mut slot);
            },
        }
        slot
    }

    /// Registers the handler for the peer closing the channel and hands back
    /// the one it replaces. A closed connection takes no handler and hands
    /// the new one back.
    pub fn set_onclose(&mut self, handler: S) -> (replaced: Option<S>)
        ensures
            protocol::valid(final(self).deep_view()),
            (final(self).deep_view(), replaced) == protocol::register_close(
                old(self).deep_view(),
                handler,
            ),
    {
        proof {
            use_type_invariant(&*self);
        }
        let mut slot = Some(handler);
        match self.phase {
            Phase::Closed => {},
            _ => {
                core::mem::swap(&mut self.on_close, &mut slot);
            },
        }
        slot
    }

    /// Takes what the engine reports of the data channel and says which
    /// handler is to run. Each message of the engine is delivered as it came.
    pub fn notify(&mut self, signal: Signal) -> (delivery: Delivery)
        ensures
            protocol::valid(final(self).deep_view()),
            (final(self).deep_view(), delivery.deep_view()) == protocol::notify(
                old(self).deep_view(),
                signal.deep_view(),
            ),
    {
        proof {
            use_type_invariant(&*self);
        }
        match self.phase {
            Phase::Closed => {
                return Delivery::Nothing;
            },
            _ => {},
        }
        match signal {
            Signal::Opened => {
                self.phase = Phase::Open;
                if self.on_open.is_some() {
                    Delivery::Open
                } else {
                    Delivery::Nothing
                }
            },
            Signal::Message(bytes) => {
                if self.on_message.is_some() {
                    Delivery::Message(bytes)
                } else {
                    Delivery::Nothing
                }
            },
            Signal::Closed => {
                self.phase = Phase::Closed;
                if self.on_close.is_some() {
                    Delivery::Close
                } else {
                    Delivery::Nothing
                }
            },
        }
    }
}

impl<S, M> Connection<S, M> {
    fn may_start(&self) -> (yes: bool)
        ensures
            yes == protocol::may_start(self.deep_view()),
    {
        let open = match self.phase {
            Phase::Closed => false,
            _ => true,
        };
        let idle = match self.round {
            Round::Idle => true,
            _ => false,
        };
        open && idle
    }

    fn begin(&mut self)
        ensures
            final(self).deep_view() == (ConnectionModel {
                phase: protocol::negotiating(old(self).deep_view().phase),
                ..old(self).deep_view()
            }),
            final(self).round == old(self).round,
    {
        proof {
            use_type_invariant(&*self);
        }
        match self.phase {
            Phase::Created => {
                self.phase = Phase::Negotiating;
            },
            _ => {},
        }
    }

    /// Starts the round that makes this side's description ready to send:
    /// listen for local candidates, generate the description unless one is
    /// supplied, apply it, take the remote candidates if there are any, and
    /// drain the local candidates. Hands out the first request of the round.
    pub fn prepare(
        &mut self,
        ty: SdpType,
        sdp: Option<String>,
        remote_candidates: Vec<IceCandidate>,
    ) -> (step: Step)
        ensures
            protocol::valid(final(self).deep_view()),
            (final(self).deep_view(), step.deep_view()) == protocol::start_prepare(
                old(self).deep_view(),
                ty,
                sdp.deep_view(),
                remote_candidates.deep_view(),
            ),
    {
        proof {
            use_type_invariant(&*self);
        }
        if !self.may_start() {
            return Step::Done(Err(Failure::ProtocolInvariantViolation));
        }
        let remote = decode_all(&remote_candidates);
        self.begin();
        self.round = Round::Listening { ty, supplied: sdp, remote };
        Step::Request(Request::Listen)
    }

    /// Starts the round that answers an offer: apply the offer as the remote
    /// description, then generate the answer. No candidate is collected.
    pub fn create_answer(&mut self, offer: String) -> (step: Step)
        ensures
            protocol::valid(final(self).deep_view()),
            (final(self).deep_view(), step.deep_view()) == protocol::start_answer(
                old(self).deep_view(),
                offer@,
            ),
    {
        proof {
            use_type_invariant(&*self);
        }
        if !self.may_start() {
            return Step::Done(Err(Failure::ProtocolInvariantViolation));
        }
        self.begin();
        self.round = Round::AcceptingOffer;
        Step::Request(Request::SetRemoteDescription(SdpType::Offer, offer))
    }

    /// Starts the round that applies a remote description.
    pub fn set_remote(&mut self, ty: SdpType, sdp: String) -> (step: Step)
        ensures
            protocol::valid(final(self).deep_view()),
            (final(self).deep_view(), step.deep_view()) == protocol::start_remote(
                old(self).deep_view(),
                ty,
                sdp@,
            ),
    {
        proof {
            use_type_invariant(&*self);
        }
        if !self.may_start() {
            return Step::Done(Err(Failure::ProtocolInvariantViolation));
        }
        self.begin();
        self.round = Round::ApplyingRemote;
        Step::Request(Request::SetRemoteDescription(ty, sdp))
    }

    /// Starts the round that applies a batch of remote candidates: the
    /// engine first rebuilds them all, and takes them only if it can. The
    /// round succeeds only if the engine accepts every one of them.
    pub fn add_ice_candidates(&mut self, offer_candidates: Vec<IceCandidate>) -> (step: Step)
        ensures
            protocol::valid(final(self).deep_view()),
            (final(self).deep_view(), step.deep_view()) == protocol::start_batch(
                old(self).deep_view(),
                offer_candidates.deep_view(),
            ),
    {
        proof {
            use_type_invariant(&*self);
        }
        if !self.may_start() {
            return Step::Done(Err(Failure::ProtocolInvariantViolation));
        }
        let batch = decode_all(&offer_candidates);
        let check = clone_all(&batch);
        self.round = Round::CheckingBatch { batch };
        Step::Request(Request::CheckCandidates(check))
    }
}

impl<S, M> Connection<S, M> {
    fn drain(&mut self, description: String) -> (step: Step)
        requires
            old(self).stream_active,
            old(self).phase != Phase::Closed,
        ensures
            (final(self).deep_view(), step.deep_view()) == protocol::start_drain(
                old(self).deep_view(),
                description@,
            ),
    {
        proof {
            use_type_invariant(&*self);
        }
        let collected: Vec<Candidate> = Vec::new();
        assert(collected.deep_view() =~= Seq::<CandidateModel>::empty());
        self.round = Round::Collecting { description, collected };
        Step::Request(Request::NextCandidate)
    }

    fn fail(operation: Operation, message: String) -> (step: Step)
        ensures
            step.deep_view() == protocol::engine_failed(operation, message@),
    {
        Step::Done(Err(Failure::EngineFailure { operation, message }))
    }

    /// Takes the engine's answer to the request that was handed out last and
    /// hands out the next request, or the result of the round. An engine
    /// failure ends the round with that failure; nothing is tried again. An
    /// answer that fits no request in flight ends the round as a violation
    /// of the protocol.
    pub fn resume(&mut self, completion: Completion) -> (step: Step)
        ensures
            protocol::valid(final(self).deep_view()),
            (final(self).deep_view(), step.deep_view()) == protocol::advance(
                old(self).deep_view(),
                completion.deep_view(),
            ),
    {
        proof {
            use_type_invariant(&*self);
        }
        let mut round = Round::Idle;
        core::mem::swap(&mut self.round, &mut round);
        match self.phase {
            Phase::Closed => {
                return Step::Done(Err(Failure::ProtocolInvariantViolation));
            },
            _ => {},
        }
        match (round, completion) {
            (Round::Listening { ty, supplied, remote }, Completion::Listening) => {
                self.stream_active = true;
                match supplied {
                    Some(sdp) => {
                        let description = sdp.clone();
                        self.round = Round::ApplyingLocal { description, remote };
                        Step::Request(Request::SetLocalDescription(ty, sdp))
                    },
                    None => {
                        self.round = Round::CreatingLocal { ty, remote };
                        Step::Request(Request::CreateDescription(ty))
                    },
                }
            },
            (Round::CreatingLocal { ty, remote }, Completion::DescriptionCreated(created)) => {
                match created {
                    Ok(sdp) => {
                        let description = sdp.clone();
                        self.round = Round::ApplyingLocal { description, remote };
                        Step::Request(Request::SetLocalDescription(ty, sdp))
                    },
                    Err(message) => Self::fail(Operation::CreateDescription, message),
                }
            },
            (
                Round::ApplyingLocal { description, remote },
                Completion::LocalDescriptionSet(applied),
            ) => {
                match applied {
                    Ok(_) => {
                        if remote.len() > 0 {
                            let check = clone_all(&remote);
                            self.round = Round::CheckingRemote { description, remote };
                            Step::Request(Request::CheckCandidates(check))
                        } else {
                            self.drain(description)
                        }
                    },
                    Err(message) => Self::fail(Operation::SetLocalDescription, message),
                }
            },
            (
                Round::CheckingRemote { description, remote },
                Completion::CandidatesChecked(checked),
            ) => {
                match checked {
                    Ok(_) => {
                        self.round = Round::AddingRemote { description, expected: remote.len() };
                        Step::Request(Request::AddCandidates(remote))
                    },
                    Err(message) => Step::Done(Err(Failure::MalformedSignalingData { message })),
                }
            },
            (
                Round::AddingRemote { description, expected },
                Completion::CandidatesAdded(outcomes),
            ) => {
                match judge_batch(expected, &outcomes) {
                    Ok(_) => self.drain(description),
                    Err(failure) => Step::Done(Err(failure)),
                }
            },
            (
                Round::Collecting { description, collected },
                Completion::Discovered(Some(candidate)),
            ) => {
                let mut collected = collected;
                let ghost before = collected.deep_view();
                collected.push(candidate);
                assert(collected.deep_view() =~= before.push(candidate.deep_view()));
                self.round = Round::Collecting { description, collected };
                Step::Request(Request::NextCandidate)
            },
            (Round::Collecting { description, collected }, Completion::Discovered(None)) => {
                self.round = Round::Stopping { description, collected };
                Step::Request(Request::StopListening)
            },
            (Round::Stopping { description, collected }, Completion::Stopped) => {
                self.stream_active = false;
                let candidates = encode_all(&collected);
                Step::Done(Ok(Outcome::Prepared { description, candidates }))
            },
            (Round::AcceptingOffer, Completion::RemoteDescriptionSet(applied)) => {
                match applied {
                    Ok(_) => {
                        self.round = Round::CreatingAnswer;
                        Step::Request(Request::CreateDescription(SdpType::Answer))
                    },
                    Err(message) => Self::fail(Operation::SetRemoteDescription, message),
                }
            },
            (Round::CreatingAnswer, Completion::DescriptionCreated(created)) => {
                match created {
                    Ok(sdp) => Step::Done(Ok(Outcome::Answer(sdp))),
                    Err(message) => Self::fail(Operation::CreateDescription, message),
                }
            },
            (Round::ApplyingRemote, Completion::RemoteDescriptionSet(applied)) => {
                match applied {
                    Ok(_) => Step::Done(Ok(Outcome::RemoteSet)),
                    Err(message) => Self::fail(Operation::SetRemoteDescription, message),
                }
            },
            (Round::CheckingBatch { batch }, Completion::CandidatesChecked(checked)) => {
                match checked {
                    Ok(_) => {
                        self.round = Round::AddingBatch { expected: batch.len() };
                        Step::Request(Request::AddCandidates(batch))
                    },
                    Err(message) => Step::Done(Err(Failure::MalformedSignalingData { message })),
                }
            },
            (Round::AddingBatch { expected }, Completion::CandidatesAdded(outcomes)) => {
                match judge_batch(expected, &outcomes) {
                    Ok(_) => Step::Done(Ok(Outcome::CandidatesApplied)),
                    Err(failure) => Step::Done(Err(failure)),
                }
            },
            _ => Step::Done(Err(Failure::ProtocolInvariantViolation)),
        }
    }
}

} // verus!
