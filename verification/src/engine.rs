//! The vocabulary between the connection and the connectivity engine: what
//! the connection asks for, what the engine answers, and how a step ends.

use crate::candidate::{Candidate, CandidateModel, IceCandidate, IceCandidateModel};
use vstd::prelude::*;

verus! {

/// The role tag of a session description.
#[derive(Debug, Clone, Copy, PartialEq, Eq, Structural)]
pub enum SdpType {
    Offer,
    Answer,
}

/// The engine operations that can fail.
#[derive(Debug, Clone, Copy, PartialEq, Eq, Structural)]
pub enum Operation {
    CreateDescription,
    SetLocalDescription,
    SetRemoteDescription,
    AddCandidate,
}

/// The kinds of channel event a handler can be registered for.
#[derive(Debug, Clone, Copy, PartialEq, Eq, Structural)]
pub enum EventKind {
    Open,
    Message,
    Close,
}

/// Why a negotiation step did not succeed.
#[derive(Debug, PartialEq, Eq)]
pub enum Failure {
    /// The engine rejected `operation`; `message` is the engine's own.
    EngineFailure { operation: Operation, message: String },
    /// The engine could not rebuild a received candidate.
    MalformedSignalingData { message: String },
    /// The caller broke the protocol: a round started while one was in
    /// flight or on a closed connection, or an answer that nothing asked for.
    ProtocolInvariantViolation,
}

/// The mathematical value of a [`Failure`].
pub enum FailureModel {
    EngineFailure { operation: Operation, message: Seq<char> },
    MalformedSignalingData { message: Seq<char> },
    ProtocolInvariantViolation,
}

impl DeepView for Failure {
    type V = FailureModel;

    open spec fn deep_view(&self) -> FailureModel {
        match self {
            Failure::EngineFailure { operation, message } => FailureModel::EngineFailure {
                operation: *operation,
                message: message@,
            },
            Failure::MalformedSignalingData { message } => FailureModel::MalformedSignalingData {
                message: message@,
            },
            Failure::ProtocolInvariantViolation => FailureModel::ProtocolInvariantViolation,
        }
    }
}

/// What became of one candidate that was handed to the engine.
#[derive(Debug, PartialEq, Eq)]
pub enum CandidateOutcome {
    /// The engine took the candidate.
    Accepted,
    /// The engine refused the candidate, with this message.
    Rejected(String),
}

/// The mathematical value of a [`CandidateOutcome`].
pub enum CandidateOutcomeModel {
    Accepted,
    Rejected(Seq<char>),
}

impl DeepView for CandidateOutcome {
    type V = CandidateOutcomeModel;

    open spec fn deep_view(&self) -> CandidateOutcomeModel {
        match self {
            CandidateOutcome::Accepted => CandidateOutcomeModel::Accepted,
            CandidateOutcome::Rejected(m) => CandidateOutcomeModel::Rejected(m@),
        }
    }
}

/// One engine operation that the connection asks for. Each is answered by
/// exactly one [`Completion`].
#[derive(Debug, PartialEq, Eq)]
pub enum Request {
    /// Register the one handler for discovered candidates.
    Listen,
    /// Generate a local description of the given role.
    CreateDescription(SdpType),
    /// Apply the description as the local one; this starts discovery.
    SetLocalDescription(SdpType, String),
    /// Apply the description as the remote one.
    SetRemoteDescription(SdpType, String),
    /// Rebuild every candidate from its fields, and hand none to the engine
    /// yet.
    CheckCandidates(Vec<Candidate>),
    /// Hand every candidate to the engine and wait for every answer.
    AddCandidates(Vec<Candidate>),
    /// Wait for the next notification of the candidate handler.
    NextCandidate,
    /// Deregister the candidate handler.
    StopListening,
}

/// The mathematical value of a [`Request`].
pub enum RequestModel {
    Listen,
    CreateDescription(SdpType),
    SetLocalDescription(SdpType, Seq<char>),
    SetRemoteDescription(SdpType, Seq<char>),
    CheckCandidates(Seq<CandidateModel>),
    AddCandidates(Seq<CandidateModel>),
    NextCandidate,
    StopListening,
}

impl DeepView for Request {
    type V = RequestModel;

    open spec fn deep_view(&self) -> RequestModel {
        match self {
            Request::Listen => RequestModel::Listen,
            Request::CreateDescription(ty) => RequestModel::CreateDescription(*ty),
            Request::SetLocalDescription(ty, sdp) => RequestModel::SetLocalDescription(*ty, sdp@),
            Request::SetRemoteDescription(ty, sdp) => RequestModel::SetRemoteDescription(
                *ty,
                sdp@,
            ),
            Request::CheckCandidates(batch) => RequestModel::CheckCandidates(batch.deep_view()),
            Request::AddCandidates(batch) => RequestModel::AddCandidates(batch.deep_view()),
            Request::NextCandidate => RequestModel::NextCandidate,
            Request::StopListening => RequestModel::StopListening,
        }
    }
}

/// The engine's answer to one [`Request`]. A failure carries the engine's
/// message.
#[derive(Debug, PartialEq, Eq)]
pub enum Completion {
    /// Answers [`Request::Listen`].
    Listening,
    /// Answers [`Request::CreateDescription`].
    DescriptionCreated(Result<String, String>),
    /// Answers [`Request::SetLocalDescription`].
    LocalDescriptionSet(Result<(), String>),
    /// Answers [`Request::SetRemoteDescription`].
    RemoteDescriptionSet(Result<(), String>),
    /// Answers [`Request::CheckCandidates`]: every candidate can be rebuilt,
    /// or the engine's message on one that cannot.
    CandidatesChecked(Result<(), String>),
    /// Answers [`Request::AddCandidates`]: one outcome for each candidate, in
    /// order.
    CandidatesAdded(Vec<CandidateOutcome>),
    /// Answers [`Request::NextCandidate`]: a discovered candidate, or `None`
    /// for the engine's signal that discovery is complete.
    Discovered(Option<Candidate>),
    /// Answers [`Request::NextCandidate`] when the handler is gone and
    /// nothing more can arrive, though discovery was never signalled
    /// complete. No drain ends well on it.
    StreamEnded,
    /// Answers [`Request::StopListening`].
    Stopped,
}

/// The mathematical value of a [`Completion`].
pub enum CompletionModel {
    Listening,
    DescriptionCreated(Result<Seq<char>, Seq<char>>),
    LocalDescriptionSet(Result<(), Seq<char>>),
    RemoteDescriptionSet(Result<(), Seq<char>>),
    CandidatesChecked(Result<(), Seq<char>>),
    CandidatesAdded(Seq<CandidateOutcomeModel>),
    Discovered(Option<CandidateModel>),
    StreamEnded,
    Stopped,
}

impl DeepView for Completion {
    type V = CompletionModel;

    open spec fn deep_view(&self) -> CompletionModel {
        match self {
            Completion::Listening => CompletionModel::Listening,
            Completion::DescriptionCreated(Ok(sdp)) => CompletionModel::DescriptionCreated(
                Ok(sdp@),
            ),
            Completion::DescriptionCreated(Err(m)) => CompletionModel::DescriptionCreated(
                Err(m@),
            ),
            Completion::LocalDescriptionSet(Ok(_)) => CompletionModel::LocalDescriptionSet(Ok(())),
            Completion::LocalDescriptionSet(Err(m)) => CompletionModel::LocalDescriptionSet(
                Err(m@),
            ),
            Completion::RemoteDescriptionSet(Ok(_)) => CompletionModel::RemoteDescriptionSet(
                Ok(()),
            ),
            Completion::RemoteDescriptionSet(Err(m)) => CompletionModel::RemoteDescriptionSet(
                Err(m@),
            ),
            Completion::CandidatesChecked(Ok(_)) => CompletionModel::CandidatesChecked(Ok(())),
            Completion::CandidatesChecked(Err(m)) => CompletionModel::CandidatesChecked(Err(m@)),
            Completion::CandidatesAdded(outcomes) => CompletionModel::CandidatesAdded(
                outcomes.deep_view(),
            ),
            Completion::Discovered(candidate) => CompletionModel::Discovered(
                candidate.deep_view(),
            ),
            Completion::StreamEnded => CompletionModel::StreamEnded,
            Completion::Stopped => CompletionModel::Stopped,
        }
    }
}

/// What a finished round hands to its caller.
#[derive(Debug, PartialEq, Eq)]
pub enum Outcome {
    /// The local description and every local candidate, in discovery order.
    Prepared { description: String, candidates: Vec<IceCandidate> },
    /// The answer description.
    Answer(String),
    /// The remote description was applied.
    RemoteSet,
    /// Every candidate of the batch was accepted.
    CandidatesApplied,
}

/// The mathematical value of an [`Outcome`].
pub enum OutcomeModel {
    Prepared { description: Seq<char>, candidates: Seq<IceCandidateModel> },
    Answer(Seq<char>),
    RemoteSet,
    CandidatesApplied,
}

impl DeepView for Outcome {
    type V = OutcomeModel;

    open spec fn deep_view(&self) -> OutcomeModel {
        match self {
            Outcome::Prepared { description, candidates } => OutcomeModel::Prepared {
                description: description@,
                candidates: candidates.deep_view(),
            },
            Outcome::Answer(sdp) => OutcomeModel::Answer(sdp@),
            Outcome::RemoteSet => OutcomeModel::RemoteSet,
            Outcome::CandidatesApplied => OutcomeModel::CandidatesApplied,
        }
    }
}

/// One step of a round: the next thing to ask the engine, or the end.
#[derive(Debug, PartialEq, Eq)]
pub enum Step {
    /// Perform the request and come back with its completion.
    Request(Request),
    /// The round is over.
    Done(Result<Outcome, Failure>),
}

/// The mathematical value of a [`Step`].
pub enum StepModel {
    Request(RequestModel),
    Done(Result<OutcomeModel, FailureModel>),
}

impl DeepView for Step {
    type V = StepModel;

    open spec fn deep_view(&self) -> StepModel {
        match self {
            Step::Request(request) => StepModel::Request(request.deep_view()),
            Step::Done(Ok(outcome)) => StepModel::Done(Ok(outcome.deep_view())),
            Step::Done(Err(failure)) => StepModel::Done(Err(failure.deep_view())),
        }
    }
}

/// An engine operation on the channel that nothing waits for.
#[derive(Debug, PartialEq, Eq)]
pub enum Command {
    /// Take the handler of this kind off the data channel.
    ClearHandler(EventKind),
    /// Close the data channel.
    CloseChannel,
    /// Close the connectivity session. A candidate subscription that is
    /// left on it ends with it.
    CloseSession,
    /// Send one message on the data channel, once; if the engine refuses
    /// it, as it does on a channel that is not open, the failure is dropped.
    Transmit(Vec<u8>),
}

/// The mathematical value of a [`Command`].
pub enum CommandModel {
    ClearHandler(EventKind),
    CloseChannel,
    CloseSession,
    Transmit(Seq<u8>),
}

impl DeepView for Command {
    type V = CommandModel;

    open spec fn deep_view(&self) -> CommandModel {
        match self {
            Command::ClearHandler(kind) => CommandModel::ClearHandler(*kind),
            Command::CloseChannel => CommandModel::CloseChannel,
            Command::CloseSession => CommandModel::CloseSession,
            Command::Transmit(bytes) => CommandModel::Transmit(bytes@),
        }
    }
}

/// What the engine reports of the data channel.
#[derive(Debug, PartialEq, Eq)]
pub enum Signal {
    /// The channel became usable.
    Opened,
    /// One message arrived.
    Message(Vec<u8>),
    /// The peer closed the channel.
    Closed,
}

/// The mathematical value of a [`Signal`].
pub enum SignalModel {
    Opened,
    Message(Seq<u8>),
    Closed,
}

impl DeepView for Signal {
    type V = SignalModel;

    open spec fn deep_view(&self) -> SignalModel {
        match self {
            Signal::Opened => SignalModel::Opened,
            Signal::Message(bytes) => SignalModel::Message(bytes@),
            Signal::Closed => SignalModel::Closed,
        }
    }
}

/// Which registered handler a signal is for, and with what.
#[derive(Debug, PartialEq, Eq)]
pub enum Delivery {
    /// No handler is to run.
    Nothing,
    /// Run the open handler.
    Open,
    /// Run the message handler on these bytes.
    Message(Vec<u8>),
    /// Run the close handler.
    Close,
}

/// The mathematical value of a [`Delivery`].
pub enum DeliveryModel {
    Nothing,
    Open,
    Message(Seq<u8>),
    Close,
}

impl DeepView for Delivery {
    type V = DeliveryModel;

    open spec fn deep_view(&self) -> DeliveryModel {
        match self {
            Delivery::Nothing => DeliveryModel::Nothing,
            Delivery::Open => DeliveryModel::Open,
            Delivery::Message(bytes) => DeliveryModel::Message(bytes@),
            Delivery::Close => DeliveryModel::Close,
        }
    }
}

} // verus!
