//! The handshake by which an observer of a session is registered with the
//! Agent connection.
use crate::api::{SessionViewError, ViewErrorModel};
use crate::requests::{failure_message, failure_text, BridgeCall, CallFailure};
use vstd::prelude::*;

verus! {

/// What the handshake waits for.
#[derive(Debug, Clone, Copy, PartialEq, Eq, Structural)]
pub enum HandshakeStage {
    /// The connection has to take the request.
    Sending,
    /// The connection has to answer it.
    Answering,
    /// The place of the observer has to be fixed.
    Activating,
}

/// What happens during the handshake.
#[derive(Debug)]
pub enum HandshakeEvent {
    /// The connection took the request.
    Sent,
    /// The connection ended before it took the request.
    NotSent,
    /// The connection registered the observer.
    Accepted,
    /// The connection refused the observer.
    Refused(SessionViewError),
    /// The connection ended before it answered.
    AnswerLost,
    /// The place of the observer was fixed. By then its lease may have been
    /// cancelled.
    Activated { cancelled: bool },
    /// The observer was let go before its place was fixed.
    ActivationLost,
    /// The lease of the observer was cancelled.
    Cancelled,
    /// Too much time went by.
    TimedOut,
}

/// What happens during the handshake, as models.
pub enum HandshakeEventModel {
    Sent,
    NotSent,
    Accepted,
    Refused(ViewErrorModel),
    AnswerLost,
    Activated { cancelled: bool },
    ActivationLost,
    Cancelled,
    TimedOut,
}

impl View for HandshakeEvent {
    type V = HandshakeEventModel;

    open spec fn view(&self) -> HandshakeEventModel {
        match self {
            HandshakeEvent::Sent => HandshakeEventModel::Sent,
            HandshakeEvent::NotSent => HandshakeEventModel::NotSent,
            HandshakeEvent::Accepted => HandshakeEventModel::Accepted,
            HandshakeEvent::Refused(error) => HandshakeEventModel::Refused(error@),
            HandshakeEvent::AnswerLost => HandshakeEventModel::AnswerLost,
            HandshakeEvent::Activated { cancelled } => HandshakeEventModel::Activated {
                cancelled: *cancelled,
            },
            HandshakeEvent::ActivationLost => HandshakeEventModel::ActivationLost,
            HandshakeEvent::Cancelled => HandshakeEventModel::Cancelled,
            HandshakeEvent::TimedOut => HandshakeEventModel::TimedOut,
        }
    }
}

/// How the handshake goes on.
#[derive(Debug)]
pub enum HandshakeState {
    /// It waits.
    Waiting(HandshakeStage),
    /// The observer is registered.
    Registered,
    /// The observer has to be taken out again.
    Failed(SessionViewError),
}

/// How the handshake goes on, as models.
pub enum HandshakeModel {
    Waiting(HandshakeStage),
    Registered,
    Failed(ViewErrorModel),
}

impl View for HandshakeState {
    type V = HandshakeModel;

    open spec fn view(&self) -> HandshakeModel {
        match self {
            HandshakeState::Waiting(stage) => HandshakeModel::Waiting(*stage),
            HandshakeState::Registered => HandshakeModel::Registered,
            HandshakeState::Failed(error) => HandshakeModel::Failed(error@),
        }
    }
}

/// A handshake that failed for want of an answer.
pub open spec fn handshake_failed(failure: CallFailure) -> HandshakeModel {
    HandshakeModel::Failed(
        ViewErrorModel::Unavailable(failure_text(BridgeCall::Observation, failure)),
    )
}

/// How the handshake goes on after an event. What the stage does not wait for
/// leaves it as it is.
pub open spec fn handshake_after(
    stage: HandshakeStage,
    event: HandshakeEventModel,
) -> HandshakeModel {
    match (stage, event) {
        (_, HandshakeEventModel::TimedOut) => handshake_failed(CallFailure::TimedOut),
        (_, HandshakeEventModel::Cancelled) => handshake_failed(CallFailure::Cancelled),
        (HandshakeStage::Sending, HandshakeEventModel::Sent) => HandshakeModel::Waiting(
            HandshakeStage::Answering,
        ),
        (HandshakeStage::Sending, HandshakeEventModel::NotSent) => handshake_failed(
            CallFailure::NotAccepted,
        ),
        (HandshakeStage::Answering, HandshakeEventModel::Accepted) => HandshakeModel::Waiting(
            HandshakeStage::Activating,
        ),
        (HandshakeStage::Answering, HandshakeEventModel::Refused(error)) => HandshakeModel::Failed(
            error,
        ),
        (HandshakeStage::Answering, HandshakeEventModel::AnswerLost) => handshake_failed(
            CallFailure::NotAnswered,
        ),
        (HandshakeStage::Activating, HandshakeEventModel::Activated { cancelled }) => if cancelled {
            handshake_failed(CallFailure::DeliveryEnded)
        } else {
            HandshakeModel::Registered
        },
        (HandshakeStage::Activating, HandshakeEventModel::ActivationLost) => handshake_failed(
            CallFailure::DeliveryStopped,
        ),
        _ => HandshakeModel::Waiting(stage),
    }
}

fn fail(failure: CallFailure) -> (state: HandshakeState)
    ensures
        state@ == handshake_failed(failure),
{
    HandshakeState::Failed(
        SessionViewError::unavailable(failure_message(&BridgeCall::Observation, &failure)),
    )
}

/// Takes an event into the handshake.
pub fn advance_handshake(stage: HandshakeStage, event: HandshakeEvent) -> (state: HandshakeState)
    ensures
        state@ == handshake_after(stage, event@),
{
    match (stage, event) {
        (_, HandshakeEvent::TimedOut) => fail(CallFailure::TimedOut),
        (_, HandshakeEvent::Cancelled) => fail(CallFailure::Cancelled),
        (HandshakeStage::Sending, HandshakeEvent::Sent) => HandshakeState::Waiting(
            HandshakeStage::Answering,
        ),
        (HandshakeStage::Sending, HandshakeEvent::NotSent) => fail(CallFailure::NotAccepted),
        (HandshakeStage::Answering, HandshakeEvent::Accepted) => HandshakeState::Waiting(
            HandshakeStage::Activating,
        ),
        (HandshakeStage::Answering, HandshakeEvent::Refused(error)) => HandshakeState::Failed(error),
        (HandshakeStage::Answering, HandshakeEvent::AnswerLost) => fail(CallFailure::NotAnswered),
        (HandshakeStage::Activating, HandshakeEvent::Activated { cancelled }) => if cancelled {
            fail(CallFailure::DeliveryEnded)
        } else {
            HandshakeState::Registered
        },
        (HandshakeStage::Activating, HandshakeEvent::ActivationLost) => fail(
            CallFailure::DeliveryStopped,
        ),
        _ => HandshakeState::Waiting(stage),
    }
}

/// The handshake after events, one after the other. Once it is over nothing
/// changes it.
pub open spec fn handshake_run(events: Seq<HandshakeEventModel>) -> HandshakeModel
    decreases events.len(),
{
    if events.len() == 0 {
        HandshakeModel::Waiting(HandshakeStage::Sending)
    } else {
        match handshake_run(events.drop_last()) {
            HandshakeModel::Waiting(stage) => handshake_after(stage, events.last()),
            over => over,
        }
    }
}

/// An observer is registered only after the connection took the request, after
/// that registered it, and after that its place was fixed under a lease that
/// still held.
pub proof fn law_registration_takes_every_stage(events: Seq<HandshakeEventModel>)
    ensures
        handshake_run(events) is Registered ==> exists|i: int, j: int, k: int|
            0 <= i < j < k < events.len() && #[trigger] events[i] is Sent && #[trigger] events[j]
                is Accepted && #[trigger] events[k] == (HandshakeEventModel::Activated {
                cancelled: false,
            }),
{
    lemma_stages(events);
}

proof fn lemma_stages(events: Seq<HandshakeEventModel>)
    ensures
        handshake_run(events) == HandshakeModel::Waiting(HandshakeStage::Answering) ==> exists|
            i: int,
        |
            0 <= i < events.len() && #[trigger] events[i] is Sent,
        handshake_run(events) == HandshakeModel::Waiting(HandshakeStage::Activating) ==> exists|
            i: int,
            j: int,
        |
            0 <= i < j < events.len() && #[trigger] events[i] is Sent && #[trigger] events[j]
                is Accepted,
        handshake_run(events) is Registered ==> exists|i: int, j: int, k: int|
            0 <= i < j < k < events.len() && #[trigger] events[i] is Sent && #[trigger] events[j]
                is Accepted && #[trigger] events[k] == (HandshakeEventModel::Activated {
                cancelled: false,
            }),
    decreases events.len(),
{
    if events.len() > 0 {
        let before = events.drop_last();
        lemma_stages(before);
        let last = events.len() - 1;
        assert(events[last] == events.last());
        assert forall|i: int| 0 <= i < before.len() implies before[i] == events[i] by {}
    }
}

/// A refusal of the connection is handed on as it is: it is not hidden behind
/// what comes after it.
pub proof fn law_refusal_is_handed_on(
    events: Seq<HandshakeEventModel>,
    error: ViewErrorModel,
    later: Seq<HandshakeEventModel>,
)
    requires
        handshake_run(events) == HandshakeModel::Waiting(HandshakeStage::Answering),
    ensures
        handshake_run(events.push(HandshakeEventModel::Refused(error)) + later)
            == HandshakeModel::Failed(error),
    decreases later.len(),
{
    let refused = events.push(HandshakeEventModel::Refused(error));
    if later.len() == 0 {
        assert(refused + later =~= refused);
        assert(refused.drop_last() =~= events);
    } else {
        law_refusal_is_handed_on(events, error, later.drop_last());
        assert((refused + later).drop_last() =~= refused + later.drop_last());
    }
}

} // verus!
