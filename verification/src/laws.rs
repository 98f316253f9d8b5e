//! What holds of every run of the handshake, proved from the state machine.

use crate::candidate::{decode, encode, CandidateModel, IceCandidateModel};
use crate::engine::{
    CandidateOutcomeModel, CommandModel, CompletionModel, DeliveryModel, OutcomeModel,
    RequestModel, SdpType, SignalModel, StepModel,
};
use crate::protocol::{
    advance, batch_verdict, close, first_rejection, fresh, malformed, may_start, notify, observe,
    register_close, register_message, register_open, released, run, send, start_answer,
    start_batch, start_prepare, start_remote, valid, violation, with_round, ConnectionModel,
    Phase, RoundModel,
};
use vstd::prelude::*;

verus! {

/// Every outcome of the batch is an acceptance.
pub open spec fn all_accepted(outcomes: Seq<CandidateOutcomeModel>) -> bool {
    forall|i: int| 0 <= i < outcomes.len() ==> outcomes[i] is Accepted
}

/// The step asks the engine to generate a description.
pub open spec fn is_create(step: StepModel) -> bool {
    step matches StepModel::Request(RequestModel::CreateDescription(_))
}

/// The step asks the engine to apply a local description.
pub open spec fn is_set_local(step: StepModel) -> bool {
    step matches StepModel::Request(RequestModel::SetLocalDescription(_, _))
}

/// The step applies, as the local offer, the description that the
/// completion says the engine generated.
pub open spec fn applies_created(step: StepModel, completion: CompletionModel) -> bool {
    completion matches CompletionModel::DescriptionCreated(Ok(sdp)) && step
        == StepModel::Request(RequestModel::SetLocalDescription(SdpType::Offer, sdp))
}

/// The completion says that the engine generated a description.
pub open spec fn generated(completion: CompletionModel) -> bool {
    completion matches CompletionModel::DescriptionCreated(Ok(_))
}

spec fn listening_for_offer(round: RoundModel) -> bool {
    round matches RoundModel::Listening { ty, supplied, .. } && ty == SdpType::Offer
        && supplied is None
}

spec fn creating_offer(round: RoundModel) -> bool {
    round matches RoundModel::CreatingLocal { ty, .. } && ty == SdpType::Offer
}

/// The step is part of collecting local candidates: it registers the
/// candidate handler, waits on it, or deregisters it.
pub open spec fn collects(step: StepModel) -> bool {
    ||| step == StepModel::Request(RequestModel::Listen)
    ||| step == StepModel::Request(RequestModel::NextCandidate)
    ||| step == StepModel::Request(RequestModel::StopListening)
}

proof fn lemma_first_rejection(outcomes: Seq<CandidateOutcomeModel>, from: int)
    requires
        0 <= from <= outcomes.len(),
    ensures
        first_rejection(outcomes, from) is None <==> forall|i: int|
            from <= i < outcomes.len() ==> outcomes[i] is Accepted,
    decreases outcomes.len() - from,
{
    if from < outcomes.len() {
        lemma_first_rejection(outcomes, from + 1);
    }
}

/// A batch counts as applied exactly when the engine answered for every
/// candidate of it and accepted each one. One refusal or one missing answer
/// fails the whole batch.
pub proof fn lemma_batch_all_or_nothing(expected: nat, outcomes: Seq<CandidateOutcomeModel>)
    ensures
        batch_verdict(expected, outcomes) is Ok <==> outcomes.len() == expected && all_accepted(
            outcomes,
        ),
{
    lemma_first_rejection(outcomes, 0);
}

/// The round that applies a batch first has the engine rebuild every
/// candidate of it. If one cannot be rebuilt the round ends there, as
/// malformed signaling data, and nothing was handed to the engine. If all
/// can, the engine is handed all of them, and the round succeeds exactly
/// when the engine accepted each one. However the round ends, the
/// connection is as it was before.
pub proof fn lemma_batch_round<S, M>(
    c: ConnectionModel<S, M>,
    batch: Seq<IceCandidateModel>,
    checked: Result<(), Seq<char>>,
    outcomes: Seq<CandidateOutcomeModel>,
)
    requires
        may_start(c),
    ensures
        ({
            let decoded = batch.map_values(|t: IceCandidateModel| decode(t));
            let (started, first) = start_batch(c, batch);
            let (middle, second) = advance(started, CompletionModel::CandidatesChecked(checked));
            let (after, last) = advance(middle, CompletionModel::CandidatesAdded(outcomes));
            &&& first == StepModel::Request(RequestModel::CheckCandidates(decoded))
            &&& checked matches Err(message) ==> second == malformed(message) && middle == c
            &&& checked is Ok ==> {
                &&& second == StepModel::Request(RequestModel::AddCandidates(decoded))
                &&& after == c
                &&& last is Done
                &&& last == StepModel::Done(Ok(OutcomeModel::CandidatesApplied))
                    <==> outcomes.len() == batch.len() && all_accepted(outcomes)
            }
        }),
{
    lemma_batch_all_or_nothing(batch.len(), outcomes);
}

/// The completions of a drain in which `found` is discovered, in this order,
/// before the engine signals that discovery is complete.
pub open spec fn discoveries(found: Seq<CandidateModel>) -> Seq<CompletionModel> {
    found.map_values(|m: CandidateModel| CompletionModel::Discovered(Some(m))).push(
        CompletionModel::Discovered(None),
    )
}

proof fn lemma_drain_run<S, M>(
    c: ConnectionModel<S, M>,
    description: Seq<char>,
    collected: Seq<CandidateModel>,
    found: Seq<CandidateModel>,
)
    requires
        c.phase != Phase::Closed,
        c.round == (RoundModel::Collecting { description, collected }),
    ensures
        ({
            let (after, steps) = run(
                c,
                found.map_values(|m: CandidateModel| CompletionModel::Discovered(Some(m))),
            );
            &&& after == with_round(
                c,
                RoundModel::Collecting { description, collected: collected + found },
            )
            &&& steps.len() == found.len()
            &&& forall|k: int|
                0 <= k < steps.len() ==> steps[k] == StepModel::Request(
                    RequestModel::NextCandidate,
                )
        }),
    decreases found.len(),
{
    let completions = found.map_values(|m: CandidateModel| CompletionModel::Discovered(Some(m)));
    if found.len() > 0 {
        lemma_drain_run(c, description, collected, found.drop_last());
        assert(completions.drop_last() =~= found.drop_last().map_values(
            |m: CandidateModel| CompletionModel::Discovered(Some(m)),
        ));
        assert((collected + found.drop_last()).push(found.last()) =~= collected + found);
    }
}

/// When `found` is discovered and then the engine signals that discovery is
/// complete, the drain keeps exactly these candidates, in discovery order,
/// after the ones it had: a drain that had none ends with exactly `found`.
/// It asks for the candidate handler to be deregistered once, as the last
/// thing, and the round then ends with the description and the candidates
/// in transport form, the handler gone. This holds as well when nothing is
/// discovered.
pub proof fn lemma_drain_in_order<S, M>(
    c: ConnectionModel<S, M>,
    description: Seq<char>,
    collected: Seq<CandidateModel>,
    found: Seq<CandidateModel>,
)
    requires
        c.phase != Phase::Closed,
        c.round == (RoundModel::Collecting { description, collected }),
    ensures
        ({
            let (after, steps) = run(c, discoveries(found));
            let (end, last) = advance(after, CompletionModel::Stopped);
            &&& steps.len() == found.len() + 1
            &&& forall|k: int|
                0 <= k < found.len() ==> steps[k] == StepModel::Request(
                    RequestModel::NextCandidate,
                )
            &&& steps[found.len() as int] == StepModel::Request(RequestModel::StopListening)
            &&& after == with_round(
                c,
                RoundModel::Stopping { description, collected: collected + found },
            )
            &&& last == StepModel::Done(
                Ok(
                    OutcomeModel::Prepared {
                        description,
                        candidates: (collected + found).map_values(|m: CandidateModel| encode(m)),
                    },
                ),
            )
            &&& collected.len() == 0 ==> last == StepModel::Done(
                Ok(
                    OutcomeModel::Prepared {
                        description,
                        candidates: found.map_values(|m: CandidateModel| encode(m)),
                    },
                ),
            )
            &&& end == (ConnectionModel { stream_active: false, round: RoundModel::Idle, ..c })
        }),
{
    lemma_drain_run(c, description, collected, found);
    if collected.len() == 0 {
        assert(collected + found =~= found);
    }
    let completions = discoveries(found);
    assert(completions.drop_last() =~= found.map_values(
        |m: CandidateModel| CompletionModel::Discovered(Some(m)),
    ));
}

proof fn lemma_offer_run<S, M>(started: ConnectionModel<S, M>, completions: Seq<CompletionModel>)
    requires
        started.phase != Phase::Closed,
        listening_for_offer(started.round),
    ensures
        ({
            let (after, steps) = run(started, completions);
            let n = completions.len();
            let create = StepModel::Request(RequestModel::CreateDescription(SdpType::Offer));
            &&& steps.len() == n
            &&& after.phase == started.phase
            &&& n == 0 ==> after.round == started.round
            &&& n >= 1 && completions[0] == CompletionModel::Listening ==> steps[0] == create
            &&& n >= 2 && completions[0] == CompletionModel::Listening && generated(
                completions[1],
            ) ==> applies_created(steps[1], completions[1])
            &&& n == 1 ==> after.round is Idle || (steps[0] == create && creating_offer(
                after.round,
            ))
            &&& n == 2 ==> after.round is Idle || after.round is ApplyingLocal
            &&& n >= 3 ==> after.round is Idle || after.round is CheckingRemote
                || after.round is AddingRemote || after.round is Collecting
                || after.round is Stopping
            &&& n >= 2 && !(after.round is Idle) ==> steps[0] == create && applies_created(
                steps[1],
                completions[1],
            )
            &&& forall|k: int| 0 <= k < n && is_create(#[trigger] steps[k]) ==> k == 0 && steps[k] == create
            &&& forall|k: int|
                0 <= k < n && is_set_local(#[trigger] steps[k]) ==> k == 1 && steps[0] == create
                    && applies_created(steps[1], completions[1])
            &&& forall|k: int|
                0 <= k < n && #[trigger] steps[k] == StepModel::Request(RequestModel::NextCandidate)
                    ==> k >= 2 && steps[0] == create && is_set_local(steps[1])
        }),
    decreases completions.len(),
{
    if completions.len() > 0 {
        lemma_offer_run(started, completions.drop_last());
    }
}

/// A round that prepares an offer without a supplied description starts by
/// registering the candidate handler. Once that is done it asks the engine
/// to generate the offer, and once the engine has generated it, to apply it
/// as the local description. It asks for each of the two once only, in this
/// order, and it waits for a candidate only after both.
pub proof fn lemma_offer_order<S, M>(
    c: ConnectionModel<S, M>,
    remote: Seq<IceCandidateModel>,
    completions: Seq<CompletionModel>,
)
    requires
        may_start(c),
    ensures
        ({
            let (started, first) = start_prepare(c, SdpType::Offer, None, remote);
            let (after, steps) = run(started, completions);
            let n = completions.len();
            let create = StepModel::Request(RequestModel::CreateDescription(SdpType::Offer));
            &&& first == StepModel::Request(RequestModel::Listen)
            &&& steps.len() == n
            &&& n >= 1 && completions[0] == CompletionModel::Listening ==> steps[0] == create
            &&& n >= 2 && completions[0] == CompletionModel::Listening && generated(
                completions[1],
            ) ==> applies_created(steps[1], completions[1])
            &&& forall|k: int| 0 <= k < n && is_create(#[trigger] steps[k]) ==> k == 0 && steps[k] == create
            &&& forall|k: int|
                0 <= k < n && is_set_local(#[trigger] steps[k]) ==> k == 1 && steps[0] == create
                    && applies_created(steps[1], completions[1])
            &&& forall|k: int|
                0 <= k < n && #[trigger] steps[k] == StepModel::Request(RequestModel::NextCandidate)
                    ==> k >= 2 && steps[0] == create && is_set_local(steps[1])
        }),
{
    let (started, first) = start_prepare(c, SdpType::Offer, None, remote);
    lemma_offer_run(started, completions);
}

proof fn lemma_answer_run<S, M>(started: ConnectionModel<S, M>, completions: Seq<CompletionModel>)
    requires
        started.round is AcceptingOffer,
    ensures
        ({
            let (after, steps) = run(started, completions);
            &&& steps.len() == completions.len()
            &&& after == with_round(started, after.round)
            &&& after.round is AcceptingOffer || after.round is CreatingAnswer
                || after.round is Idle
            &&& forall|k: int| 0 <= k < steps.len() ==> !collects(#[trigger] steps[k])
        }),
    decreases completions.len(),
{
    if completions.len() > 0 {
        lemma_answer_run(started, completions.drop_last());
    }
}

/// Answering an offer never collects local candidates. The first step does
/// not: it asks for the offer to be applied, or it refuses to start. And
/// where the round starts, whatever the engine answers, and however long the
/// caller goes on, no step of it registers the candidate handler, waits on it
/// or deregisters it, and the registration is left as it was.
pub proof fn lemma_answer_collects_nothing<S, M>(
    c: ConnectionModel<S, M>,
    offer: Seq<char>,
    completions: Seq<CompletionModel>,
)
    ensures
        ({
            let (started, first) = start_answer(c, offer);
            let (after, steps) = run(started, completions);
            &&& !collects(first)
            &&& started.stream_active == c.stream_active
            &&& may_start(c) ==> {
                &&& first == StepModel::Request(
                    RequestModel::SetRemoteDescription(SdpType::Offer, offer),
                )
                &&& steps.len() == completions.len()
                &&& forall|k: int| 0 <= k < steps.len() ==> !collects(#[trigger] steps[k])
                &&& after.stream_active == c.stream_active
            }
        }),
{
    if may_start(c) {
        lemma_answer_run(start_answer(c, offer).0, completions);
    }
}

/// Closing twice is closing once: the second close changes nothing and asks
/// for nothing. After a close no handler is registered, no round is in
/// flight and no candidate subscription is left.
pub proof fn lemma_close_idempotent<S, M>(c: ConnectionModel<S, M>)
    requires
        valid(c),
    ensures
        ({
            let (once, commands) = close(c);
            let (twice, again) = close(once);
            &&& twice == once
            &&& again == Seq::<CommandModel>::empty()
            &&& once == released::<S, M>()
            &&& once.on_open is None && once.on_message is None && once.on_close is None
            &&& once.phase == Phase::Closed && !once.stream_active && once.round is Idle
        }),
{
}

/// A connection is valid when it is made, and every operation keeps it so.
pub proof fn lemma_valid_preserved<S, M>(
    c: ConnectionModel<S, M>,
    ty: SdpType,
    sdp: Seq<char>,
    supplied: Option<Seq<char>>,
    batch: Seq<IceCandidateModel>,
    completion: CompletionModel,
    signal: SignalModel,
    signal_handler: S,
    message_handler: M,
)
    requires
        valid(c),
    ensures
        valid(fresh::<S, M>()),
        valid(start_prepare(c, ty, supplied, batch).0),
        valid(start_answer(c, sdp).0),
        valid(start_remote(c, ty, sdp).0),
        valid(start_batch(c, batch).0),
        valid(advance(c, completion).0),
        valid(notify(c, signal).0),
        valid(register_open(c, signal_handler).0),
        valid(register_message(c, message_handler).0),
        valid(register_close(c, signal_handler).0),
        valid(close(c).0),
{
}

/// Once a round has ended, whatever the engine answers later is refused as
/// a violation and changes nothing: no request follows the end of a round,
/// so what a round deregistered is not deregistered again.
pub proof fn lemma_nothing_after_the_end<S, M>(
    c: ConnectionModel<S, M>,
    later: Seq<CompletionModel>,
)
    requires
        c.round is Idle,
    ensures
        run(c, later).0 == c,
        run(c, later).1.len() == later.len(),
        forall|k: int| 0 <= k < later.len() ==> #[trigger] run(c, later).1[k] == violation(),
    decreases later.len(),
{
    if later.len() > 0 {
        lemma_nothing_after_the_end(c, later.drop_last());
    }
}

/// Nothing leads out of the closed phase: a closed connection stays closed
/// whatever is asked of it, starts no round, takes no handler and runs
/// none.
pub proof fn lemma_closed_is_terminal<S, M>(
    c: ConnectionModel<S, M>,
    ty: SdpType,
    sdp: Seq<char>,
    supplied: Option<Seq<char>>,
    batch: Seq<IceCandidateModel>,
    completion: CompletionModel,
    signal: SignalModel,
    signal_handler: S,
    message_handler: M,
)
    requires
        c.phase == Phase::Closed,
    ensures
        start_prepare(c, ty, supplied, batch) == (c, violation()),
        start_answer(c, sdp) == (c, violation()),
        start_remote(c, ty, sdp) == (c, violation()),
        start_batch(c, batch) == (c, violation()),
        advance(c, completion) == (with_round(c, RoundModel::Idle), violation()),
        notify(c, signal) == (c, DeliveryModel::Nothing),
        register_open(c, signal_handler) == (c, Some(signal_handler)),
        register_message(c, message_handler) == (c, Some(message_handler)),
        register_close(c, signal_handler) == (c, Some(signal_handler)),
        close(c).0.phase == Phase::Closed,
{
}

/// The close handler runs at most once: it runs only for a report that the
/// peer closed the channel, and after such a report the connection is closed
/// and nothing is delivered any more.
pub proof fn lemma_close_is_delivered_once<S, M>(
    c: ConnectionModel<S, M>,
    signals: Seq<SignalModel>,
)
    ensures
        ({
            let (after, deliveries) = observe(c, signals);
            &&& deliveries.len() == signals.len()
            &&& forall|k: int|
                0 <= k < signals.len() && #[trigger] deliveries[k] == DeliveryModel::Close
                    ==> signals[k] == SignalModel::Closed
            &&& forall|i: int, j: int|
                0 <= i < j < signals.len() && #[trigger] signals[i] == SignalModel::Closed
                    ==> #[trigger] deliveries[j] == DeliveryModel::Nothing
            &&& forall|i: int|
                0 <= i < signals.len() && #[trigger] signals[i] == SignalModel::Closed
                    ==> after.phase == Phase::Closed
        }),
    decreases signals.len(),
{
    if signals.len() > 0 {
        let shorter = signals.drop_last();
        lemma_close_is_delivered_once(c, shorter);
        assert(forall|k: int| 0 <= k < signals.len() - 1 ==> shorter[k] == signals[k]);
    }
}

/// What one side sends is what the other side's message handler gets: the
/// bytes are handed to the engine as they came, and what the engine reports
/// as arrived is delivered as it came, one delivery for one message.
pub proof fn lemma_bytes_pass_unchanged<S, M>(receiver: ConnectionModel<S, M>, packet: Seq<u8>)
    requires
        receiver.phase != Phase::Closed,
        receiver.on_message is Some,
    ensures
        send(packet) == CommandModel::Transmit(packet),
        notify(receiver, SignalModel::Message(packet)) == (
            receiver,
            DeliveryModel::Message(packet),
        ),
{
}

/// The completion is the signal that discovery is complete.
pub open spec fn is_sentinel(completion: CompletionModel) -> bool {
    completion == CompletionModel::Discovered(None)
}

/// The step ends a round well.
pub open spec fn succeeds(step: StepModel) -> bool {
    step matches StepModel::Done(Ok(_))
}

/// A drain ends only on the signal that discovery is complete. As long as
/// that signal has not come, whatever else the engine answers and however
/// long it takes, the drain neither asks for the candidate handler to be
/// deregistered nor ends well. The end of the stream without the signal
/// ends the round as a violation.
pub proof fn lemma_drain_ends_on_the_sentinel_only<S, M>(
    c: ConnectionModel<S, M>,
    completions: Seq<CompletionModel>,
)
    requires
        c.round is Collecting,
        forall|k: int| 0 <= k < completions.len() ==> !is_sentinel(completions[k]),
    ensures
        advance(c, CompletionModel::StreamEnded) == (with_round(c, RoundModel::Idle), violation()),
        ({
            let (after, steps) = run(c, completions);
            &&& steps.len() == completions.len()
            &&& after.round is Collecting || after.round is Idle
            &&& forall|k: int|
                0 <= k < steps.len() ==> !succeeds(#[trigger] steps[k]) && steps[k]
                    != StepModel::Request(RequestModel::StopListening)
        }),
    decreases completions.len(),
{
    if completions.len() > 0 {
        lemma_drain_ends_on_the_sentinel_only(c, completions.drop_last());
    }
}

} // verus!
