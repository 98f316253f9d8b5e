//! The handshake and the channel lifecycle as a mathematical state machine.
//!
//! Every operation of a connection is defined here as a function from the
//! state before it to the state after it and what it hands out. The
//! executable connection is proved to compute exactly these functions.

use crate::candidate::{decode, encode, CandidateModel, IceCandidateModel};
use crate::engine::{
    CandidateOutcomeModel, CommandModel, CompletionModel, DeliveryModel, EventKind,
    FailureModel, Operation, OutcomeModel, RequestModel, SdpType, SignalModel, StepModel,
};
use vstd::prelude::*;

verus! {

/// Where a connection is in its life.
#[derive(Debug, Clone, Copy, PartialEq, Eq, Structural)]
pub enum Phase {
    /// Made, and no description step has started.
    Created,
    /// A description step has started.
    Negotiating,
    /// The engine has reported the channel usable.
    Open,
    /// Closed by the caller or by the peer. Nothing leads out of it.
    Closed,
}

/// The round in flight, with what it still needs.
pub enum RoundModel {
    /// No round is in flight.
    Idle,
    /// Preparing: the candidate handler is being registered.
    Listening { ty: SdpType, supplied: Option<Seq<char>>, remote: Seq<CandidateModel> },
    /// Preparing: the engine is generating the local description.
    CreatingLocal { ty: SdpType, remote: Seq<CandidateModel> },
    /// Preparing: the engine is applying the local description.
    ApplyingLocal { description: Seq<char>, remote: Seq<CandidateModel> },
    /// Preparing: the engine is rebuilding the remote candidates.
    CheckingRemote { description: Seq<char>, remote: Seq<CandidateModel> },
    /// Preparing: the engine is taking the remote candidates.
    AddingRemote { description: Seq<char>, expected: nat },
    /// Preparing: the local candidates are being drained.
    Collecting { description: Seq<char>, collected: Seq<CandidateModel> },
    /// Preparing: the candidate handler is being deregistered.
    Stopping { description: Seq<char>, collected: Seq<CandidateModel> },
    /// Answering: the engine is applying the offer.
    AcceptingOffer,
    /// Answering: the engine is generating the answer.
    CreatingAnswer,
    /// The engine is applying a remote description.
    ApplyingRemote,
    /// The engine is rebuilding a batch of remote candidates.
    CheckingBatch { batch: Seq<CandidateModel> },
    /// The engine is taking a batch of remote candidates.
    AddingBatch { expected: nat },
}

/// The mathematical value of a connection whose handlers for open and close
/// have type `S` and whose message handler has type `M`.
pub struct ConnectionModel<S, M> {
    pub phase: Phase,
    /// The caller has closed the connection and its resources are released.
    pub torn_down: bool,
    pub on_open: Option<S>,
    pub on_message: Option<M>,
    pub on_close: Option<S>,
    /// A candidate subscription is live: the candidate handler is
    /// registered on a session that the caller has not closed. Closing the
    /// session ends it.
    pub stream_active: bool,
    pub round: RoundModel,
}

/// A connection as it is made: unconnected, with no handler and no round.
pub open spec fn fresh<S, M>() -> ConnectionModel<S, M> {
    ConnectionModel {
        phase: Phase::Created,
        torn_down: false,
        on_open: None,
        on_message: None,
        on_close: None,
        stream_active: false,
        round: RoundModel::Idle,
    }
}

/// The steps of a preparation that only run while the candidate handler is
/// registered.
pub open spec fn listens(round: RoundModel) -> bool {
    round is CreatingLocal || round is ApplyingLocal || round is CheckingRemote
        || round is AddingRemote || round is Collecting || round is Stopping
}

/// What holds of every connection: one that the caller has closed holds
/// nothing any more, and a preparation past its first step has its
/// candidate handler registered.
pub open spec fn valid<S, M>(c: ConnectionModel<S, M>) -> bool {
    &&& c.torn_down ==> c == released::<S, M>()
    &&& listens(c.round) ==> c.stream_active
}

/// A round may start on a connection that is not closed and has none in
/// flight.
pub open spec fn may_start<S, M>(c: ConnectionModel<S, M>) -> bool {
    c.phase != Phase::Closed && c.round is Idle
}

/// The phase once a description step has started.
pub open spec fn negotiating(phase: Phase) -> Phase {
    if phase == Phase::Created {
        Phase::Negotiating
    } else {
        phase
    }
}

/// The message of the first refusal at or after `from`, if there is one.
pub open spec fn first_rejection(outcomes: Seq<CandidateOutcomeModel>, from: int) -> Option<
    Seq<char>,
>
    decreases outcomes.len() - from,
{
    if from < 0 || from >= outcomes.len() {
        None
    } else {
        match outcomes[from] {
            CandidateOutcomeModel::Rejected(message) => Some(message),
            CandidateOutcomeModel::Accepted => first_rejection(outcomes, from + 1),
        }
    }
}

/// Whether a batch of `expected` candidates was applied as a whole, given
/// what became of each candidate that was handed over.
pub open spec fn batch_verdict(expected: nat, outcomes: Seq<CandidateOutcomeModel>) -> Result<
    (),
    FailureModel,
> {
    if outcomes.len() != expected {
        Err(FailureModel::ProtocolInvariantViolation)
    } else {
        match first_rejection(outcomes, 0) {
            Some(message) => Err(
                FailureModel::EngineFailure { operation: Operation::AddCandidate, message },
            ),
            None => Ok(()),
        }
    }
}

/// A step that ends the round because a candidate cannot be rebuilt.
pub open spec fn malformed(message: Seq<char>) -> StepModel {
    StepModel::Done(Err(FailureModel::MalformedSignalingData { message }))
}

/// A step that ends the round with an engine failure.
pub open spec fn engine_failed(operation: Operation, message: Seq<char>) -> StepModel {
    StepModel::Done(Err(FailureModel::EngineFailure { operation, message }))
}

/// A step that ends the round because the caller broke the protocol.
pub open spec fn violation() -> StepModel {
    StepModel::Done(Err(FailureModel::ProtocolInvariantViolation))
}

/// `c` with another round in flight.
pub open spec fn with_round<S, M>(c: ConnectionModel<S, M>, round: RoundModel) -> ConnectionModel<
    S,
    M,
> {
    ConnectionModel { round, ..c }
}

/// Starts preparing a local description of role `ty`: listening comes first,
/// so that no candidate is lost.
pub open spec fn start_prepare<S, M>(
    c: ConnectionModel<S, M>,
    ty: SdpType,
    description: Option<Seq<char>>,
    remote: Seq<IceCandidateModel>,
) -> (ConnectionModel<S, M>, StepModel) {
    if may_start(c) {
        (
            ConnectionModel {
                phase: negotiating(c.phase),
                round: RoundModel::Listening {
                    ty,
                    supplied: description,
                    remote: remote.map_values(|t: IceCandidateModel| decode(t)),
                },
                ..c
            },
            StepModel::Request(RequestModel::Listen),
        )
    } else {
        (c, violation())
    }
}

/// Starts answering an offer.
pub open spec fn start_answer<S, M>(c: ConnectionModel<S, M>, offer: Seq<char>) -> (
    ConnectionModel<S, M>,
    StepModel,
) {
    if may_start(c) {
        (
            ConnectionModel {
                phase: negotiating(c.phase),
                round: RoundModel::AcceptingOffer,
                ..c
            },
            StepModel::Request(RequestModel::SetRemoteDescription(SdpType::Offer, offer)),
        )
    } else {
        (c, violation())
    }
}

/// Starts applying a remote description.
pub open spec fn start_remote<S, M>(c: ConnectionModel<S, M>, ty: SdpType, sdp: Seq<char>) -> (
    ConnectionModel<S, M>,
    StepModel,
) {
    if may_start(c) {
        (
            ConnectionModel {
                phase: negotiating(c.phase),
                round: RoundModel::ApplyingRemote,
                ..c
            },
            StepModel::Request(RequestModel::SetRemoteDescription(ty, sdp)),
        )
    } else {
        (c, violation())
    }
}

/// Starts applying a batch of remote candidates: the engine first rebuilds
/// them all, and takes them only if it can.
pub open spec fn start_batch<S, M>(c: ConnectionModel<S, M>, batch: Seq<IceCandidateModel>) -> (
    ConnectionModel<S, M>,
    StepModel,
) {
    if may_start(c) {
        (
            with_round(
                c,
                RoundModel::CheckingBatch {
                    batch: batch.map_values(|t: IceCandidateModel| decode(t)),
                },
            ),
            StepModel::Request(
                RequestModel::CheckCandidates(batch.map_values(|t: IceCandidateModel| decode(t))),
            ),
        )
    } else {
        (c, violation())
    }
}

/// The first request of the drain, after the local description is applied
/// and the remote candidates, if any, are in.
pub open spec fn start_drain<S, M>(c: ConnectionModel<S, M>, description: Seq<char>) -> (
    ConnectionModel<S, M>,
    StepModel,
) {
    (
        with_round(c, RoundModel::Collecting { description, collected: Seq::empty() }),
        StepModel::Request(RequestModel::NextCandidate),
    )
}

/// Takes the engine's answer to the request in flight and decides what
/// comes next. An answer that does not fit the request in flight ends the
/// round as a violation, and so does any answer on a closed connection. A
/// drain ends well on the signal that discovery is complete and on nothing
/// else: the end of the stream without that signal fits no request.
pub open spec fn advance<S, M>(c: ConnectionModel<S, M>, completion: CompletionModel) -> (
    ConnectionModel<S, M>,
    StepModel,
) {
    let idle = with_round(c, RoundModel::Idle);
    if c.phase == Phase::Closed {
        (idle, violation())
    } else {
        advance_open(c, completion)
    }
}

/// [`advance`] on a connection that is not closed.
pub open spec fn advance_open<S, M>(c: ConnectionModel<S, M>, completion: CompletionModel) -> (
    ConnectionModel<S, M>,
    StepModel,
) {
    let idle = with_round(c, RoundModel::Idle);
    match (c.round, completion) {
        (RoundModel::Listening { ty, supplied, remote }, CompletionModel::Listening) => {
            let listening = ConnectionModel { stream_active: true, ..c };
            match supplied {
                Some(sdp) => (
                    with_round(listening, RoundModel::ApplyingLocal { description: sdp, remote }),
                    StepModel::Request(RequestModel::SetLocalDescription(ty, sdp)),
                ),
                None => (
                    with_round(listening, RoundModel::CreatingLocal { ty, remote }),
                    StepModel::Request(RequestModel::CreateDescription(ty)),
                ),
            }
        },
        (
            RoundModel::CreatingLocal { ty, remote },
            CompletionModel::DescriptionCreated(created),
        ) => match created {
            Ok(sdp) => (
                with_round(c, RoundModel::ApplyingLocal { description: sdp, remote }),
                StepModel::Request(RequestModel::SetLocalDescription(ty, sdp)),
            ),
            Err(message) => (idle, engine_failed(Operation::CreateDescription, message)),
        },
        (
            RoundModel::ApplyingLocal { description, remote },
            CompletionModel::LocalDescriptionSet(applied),
        ) => match applied {
            Ok(_) => if remote.len() > 0 {
                (
                    with_round(c, RoundModel::CheckingRemote { description, remote }),
                    StepModel::Request(RequestModel::CheckCandidates(remote)),
                )
            } else {
                start_drain(c, description)
            },
            Err(message) => (idle, engine_failed(Operation::SetLocalDescription, message)),
        },
        (
            RoundModel::CheckingRemote { description, remote },
            CompletionModel::CandidatesChecked(checked),
        ) => match checked {
            Ok(_) => (
                with_round(c, RoundModel::AddingRemote { description, expected: remote.len() }),
                StepModel::Request(RequestModel::AddCandidates(remote)),
            ),
            Err(message) => (idle, malformed(message)),
        },
        (
            RoundModel::AddingRemote { description, expected },
            CompletionModel::CandidatesAdded(outcomes),
        ) => match batch_verdict(expected, outcomes) {
            Ok(_) => start_drain(c, description),
            Err(failure) => (idle, StepModel::Done(Err(failure))),
        },
        (
            RoundModel::Collecting { description, collected },
            CompletionModel::Discovered(Some(candidate)),
        ) => (
            with_round(
                c,
                RoundModel::Collecting { description, collected: collected.push(candidate) },
            ),
            StepModel::Request(RequestModel::NextCandidate),
        ),
        (
            RoundModel::Collecting { description, collected },
            CompletionModel::Discovered(None),
        ) => (
            with_round(c, RoundModel::Stopping { description, collected }),
            StepModel::Request(RequestModel::StopListening),
        ),
        (RoundModel::Stopping { description, collected }, CompletionModel::Stopped) => (
            ConnectionModel { stream_active: false, round: RoundModel::Idle, ..c },
            StepModel::Done(
                Ok(
                    OutcomeModel::Prepared {
                        description,
                        candidates: collected.map_values(|m: CandidateModel| encode(m)),
                    },
                ),
            ),
        ),
        (RoundModel::AcceptingOffer, CompletionModel::RemoteDescriptionSet(applied)) => {
            match applied {
                Ok(_) => (
                    with_round(c, RoundModel::CreatingAnswer),
                    StepModel::Request(RequestModel::CreateDescription(SdpType::Answer)),
                ),
                Err(message) => (idle, engine_failed(Operation::SetRemoteDescription, message)),
            }
        },
        (RoundModel::CreatingAnswer, CompletionModel::DescriptionCreated(created)) => {
            match created {
                Ok(sdp) => (idle, StepModel::Done(Ok(OutcomeModel::Answer(sdp)))),
                Err(message) => (idle, engine_failed(Operation::CreateDescription, message)),
            }
        },
        (RoundModel::ApplyingRemote, CompletionModel::RemoteDescriptionSet(applied)) => {
            match applied {
                Ok(_) => (idle, StepModel::Done(Ok(OutcomeModel::RemoteSet))),
                Err(message) => (idle, engine_failed(Operation::SetRemoteDescription, message)),
            }
        },
        (RoundModel::CheckingBatch { batch }, CompletionModel::CandidatesChecked(checked)) => {
            match checked {
                Ok(_) => (
                    with_round(c, RoundModel::AddingBatch { expected: batch.len() }),
                    StepModel::Request(RequestModel::AddCandidates(batch)),
                ),
                Err(message) => (idle, malformed(message)),
            }
        },
        (RoundModel::AddingBatch { expected }, CompletionModel::CandidatesAdded(outcomes)) => {
            match batch_verdict(expected, outcomes) {
                Ok(_) => (idle, StepModel::Done(Ok(OutcomeModel::CandidatesApplied))),
                Err(failure) => (idle, StepModel::Done(Err(failure))),
            }
        },
        _ => (idle, violation()),
    }
}

/// Feeds the engine's answers one after the other: the state after the last
/// of them, and the step that each one led to.
pub open spec fn run<S, M>(c: ConnectionModel<S, M>, completions: Seq<CompletionModel>) -> (
    ConnectionModel<S, M>,
    Seq<StepModel>,
)
    decreases completions.len(),
{
    if completions.len() == 0 {
        (c, Seq::empty())
    } else {
        let (before, steps) = run(c, completions.drop_last());
        let (after, step) = advance(before, completions.last());
        (after, steps.push(step))
    }
}

/// The teardown, in the order that keeps a closing channel from reaching a
/// handler that is about to go: the three handlers, the channel, the session.
pub open spec fn teardown() -> Seq<CommandModel> {
    seq![
        CommandModel::ClearHandler(EventKind::Open),
        CommandModel::ClearHandler(EventKind::Message),
        CommandModel::ClearHandler(EventKind::Close),
        CommandModel::CloseChannel,
        CommandModel::CloseSession,
    ]
}

/// A connection after the caller has closed it: no handler, no round, no
/// candidate subscription.
pub open spec fn released<S, M>() -> ConnectionModel<S, M> {
    ConnectionModel {
        phase: Phase::Closed,
        torn_down: true,
        on_open: None,
        on_message: None,
        on_close: None,
        stream_active: false,
        round: RoundModel::Idle,
    }
}

/// Closes the connection. The first close tears everything down; a later one
/// does nothing.
pub open spec fn close<S, M>(c: ConnectionModel<S, M>) -> (ConnectionModel<S, M>, Seq<
    CommandModel,
>) {
    if c.torn_down {
        (c, Seq::empty())
    } else {
        (released(), teardown())
    }
}

/// Registers the handler for the channel becoming usable, in place of the
/// one before, which is handed back. A closed connection hands the new one
/// back instead.
pub open spec fn register_open<S, M>(c: ConnectionModel<S, M>, handler: S) -> (
    ConnectionModel<S, M>,
    Option<S>,
) {
    if c.phase == Phase::Closed {
        (c, Some(handler))
    } else {
        (ConnectionModel { on_open: Some(handler), ..c }, c.on_open)
    }
}

/// Registers the handler for arriving messages; as [`register_open`].
pub open spec fn register_message<S, M>(c: ConnectionModel<S, M>, handler: M) -> (
    ConnectionModel<S, M>,
    Option<M>,
) {
    if c.phase == Phase::Closed {
        (c, Some(handler))
    } else {
        (ConnectionModel { on_message: Some(handler), ..c }, c.on_message)
    }
}

/// Registers the handler for the peer closing the channel; as
/// [`register_open`].
pub open spec fn register_close<S, M>(c: ConnectionModel<S, M>, handler: S) -> (
    ConnectionModel<S, M>,
    Option<S>,
) {
    if c.phase == Phase::Closed {
        (c, Some(handler))
    } else {
        (ConnectionModel { on_close: Some(handler), ..c }, c.on_close)
    }
}

/// Sends one message: whatever the phase, the packet is handed to the
/// engine once, as it came. On a channel that is not open the engine refuses
/// it, and that failure is dropped.
pub open spec fn send(packet: Seq<u8>) -> CommandModel {
    CommandModel::Transmit(packet)
}

/// Takes what the engine reports of the channel: the new state, and the
/// handler to run. A closed connection ignores every report.
pub open spec fn notify<S, M>(c: ConnectionModel<S, M>, signal: SignalModel) -> (
    ConnectionModel<S, M>,
    DeliveryModel,
) {
    if c.phase == Phase::Closed {
        (c, DeliveryModel::Nothing)
    } else {
        match signal {
            SignalModel::Opened => (
                ConnectionModel { phase: Phase::Open, ..c },
                if c.on_open is Some {
                    DeliveryModel::Open
                } else {
                    DeliveryModel::Nothing
                },
            ),
            SignalModel::Message(bytes) => (
                c,
                if c.on_message is Some {
                    DeliveryModel::Message(bytes)
                } else {
                    DeliveryModel::Nothing
                },
            ),
            SignalModel::Closed => (
                ConnectionModel { phase: Phase::Closed, ..c },
                if c.on_close is Some {
                    DeliveryModel::Close
                } else {
                    DeliveryModel::Nothing
                },
            ),
        }
    }
}

/// Feeds the engine's reports of the channel one after the other: the state
/// after the last of them, and what each one delivered.
pub open spec fn observe<S, M>(c: ConnectionModel<S, M>, signals: Seq<SignalModel>) -> (
    ConnectionModel<S, M>,
    Seq<DeliveryModel>,
)
    decreases signals.len(),
{
    if signals.len() == 0 {
        (c, Seq::empty())
    } else {
        let (before, deliveries) = observe(c, signals.drop_last());
        let (after, delivery) = notify(before, signals.last());
        (after, deliveries.push(delivery))
    }
}

} // verus!
