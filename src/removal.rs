use vstd::prelude::*;

use crate::error::{class_of, AuthError, ErrorClass};
use crate::identifier::{canonical_id, is_object_id_text, parse_user_id};

verus! {

/// The request sent to the remote account service: the validated identifier.
#[derive(Clone, Debug)]
pub struct RemovalRequest {
    pub id: String,
}

/// The reduced account the remote service may return with its verdict.
#[derive(Clone, Debug)]
pub struct RemovedAccount {
    pub id: String,
    pub username: String,
    pub role: String,
}

/// The remote service's answer: a message and, when given, the removed account.
#[derive(Clone, Debug)]
pub struct RemovalReply {
    pub message: String,
    pub account: Option<RemovedAccount>,
}

/// Where a removal stands between steps.
#[derive(Clone, Copy, Debug, PartialEq, Eq, Structural)]
pub enum RemovalPhase {
    /// Nothing asked yet.
    Idle,
    /// The request went out; waiting for the remote service.
    Delegating,
    /// The remote verdict was relayed.
    Done,
    /// The identifier was invalid or the remote service was unreachable.
    Failed,
}

/// What the caller reports to the delegate.
pub enum RemovalEvent {
    /// A removal was asked for this externally supplied identifier.
    Requested(String),
    /// The remote service answered.
    Replied(RemovalReply),
    /// The call failed in transport: unreachable, timed out or undecodable.
    TransportFailed,
}

/// What the delegate asks the caller to do next.
pub enum RemovalAction {
    /// Make one call to the remote service with this request.
    CallRemote(RemovalRequest),
    /// Answer with the remote verdict as it came.
    Respond(RemovalReply),
    /// Answer with this failure.
    Fail(AuthError),
    /// The event does not apply in this phase; nothing to do.
    Ignore,
}

/// Validates the identifier of an account to remove and builds the request
/// for the remote service. An invalid identifier is a bad request.
pub fn remove_user(id: &str) -> (r: Result<RemovalRequest, AuthError>)
    ensures
        r is Ok <==> is_object_id_text(id@),
        r matches Ok(req) ==> req.id@ == canonical_id(id@),
        r matches Err(e) ==> e == AuthError::InvalidUserId,
{
    let canonical = parse_user_id(id)?;
    Ok(RemovalRequest { id: canonical })
}

/// Relays the outcome of the remote call: its reply unchanged, or
/// `UpstreamUnavailable` when the call failed in transport (`None`).
pub fn relay_removal(outcome: Option<RemovalReply>) -> (r: Result<RemovalReply, AuthError>)
    ensures
        match outcome {
            Some(reply) => r == Ok::<RemovalReply, AuthError>(reply),
            None => r == Err::<RemovalReply, AuthError>(AuthError::UpstreamUnavailable),
        },
{
    match outcome {
        Some(reply) => Ok(reply),
        None => Err(AuthError::UpstreamUnavailable),
    }
}

/// One step of a removal: from `phase`, on `event`, the delegate moves to
/// `next` and asks for `action`. Only a valid identifier leads to a remote
/// call; the remote answer is relayed as it came; a transport failure is
/// reported as such; any other event changes nothing.
pub open spec fn removal_transition(
    phase: RemovalPhase,
    event: RemovalEvent,
    next: RemovalPhase,
    action: RemovalAction,
) -> bool {
    match (phase, event) {
        (RemovalPhase::Idle, RemovalEvent::Requested(raw)) => if is_object_id_text(raw@) {
            &&& next == RemovalPhase::Delegating
            &&& action matches RemovalAction::CallRemote(req) && req.id@ == canonical_id(raw@)
        } else {
            &&& next == RemovalPhase::Failed
            &&& action == RemovalAction::Fail(AuthError::InvalidUserId)
        },
        (RemovalPhase::Delegating, RemovalEvent::Replied(reply)) => {
            &&& next == RemovalPhase::Done
            &&& action == RemovalAction::Respond(reply)
        },
        (RemovalPhase::Delegating, RemovalEvent::TransportFailed) => {
            &&& next == RemovalPhase::Failed
            &&& action == RemovalAction::Fail(AuthError::UpstreamUnavailable)
        },
        _ => next == phase && action == RemovalAction::Ignore,
    }
}

/// A removal asked with a malformed identifier fails as a bad request, and
/// neither that step nor any later one calls the remote service.
pub proof fn lemma_invalid_id_never_calls_remote(
    raw: String,
    next: RemovalPhase,
    action: RemovalAction,
    later: RemovalEvent,
    after: RemovalPhase,
    later_action: RemovalAction,
)
    requires
        !is_object_id_text(raw@),
        removal_transition(RemovalPhase::Idle, RemovalEvent::Requested(raw), next, action),
        removal_transition(next, later, after, later_action),
    ensures
        action == RemovalAction::Fail(AuthError::InvalidUserId),
        class_of(AuthError::InvalidUserId) == ErrorClass::BadRequest,
        !(action is CallRemote),
        !(later_action is CallRemote),
        after == RemovalPhase::Failed,
{
}

/// When the remote service cannot be reached the removal fails as upstream
/// unavailable, relays no outcome, and no later event revives it. The
/// delegate asks for no store operation at all, so nothing is deleted
/// locally.
pub proof fn lemma_unreachable_service_fails_removal(
    next: RemovalPhase,
    action: RemovalAction,
    later: RemovalEvent,
    after: RemovalPhase,
    later_action: RemovalAction,
)
    requires
        removal_transition(RemovalPhase::Delegating, RemovalEvent::TransportFailed, next, action),
        removal_transition(next, later, after, later_action),
    ensures
        action == RemovalAction::Fail(AuthError::UpstreamUnavailable),
        class_of(AuthError::UpstreamUnavailable) == ErrorClass::UpstreamUnavailable,
        !(action is Respond),
        !(action is CallRemote),
        later_action == RemovalAction::Ignore,
        after == RemovalPhase::Failed,
{
}

/// Forwards one account removal to the remote account service: validates
/// the identifier, asks for a single call, and relays the verdict. It never
/// deletes anything itself and never retries.
pub struct RemovalDelegate {
    pub phase: RemovalPhase,
}

impl RemovalDelegate {
    /// A delegate that has not been asked anything yet.
    pub fn new() -> (r: RemovalDelegate)
        ensures
            r.phase == RemovalPhase::Idle,
    {
        RemovalDelegate { phase: RemovalPhase::Idle }
    }

    /// Advances the removal by one event and says what to do next.
    pub fn step(&mut self, event: RemovalEvent) -> (r: RemovalAction)
        ensures
            removal_transition(old(self).phase, event, final(self).phase, r),
    {
        match (self.phase, event) {
            (RemovalPhase::Idle, RemovalEvent::Requested(raw)) => match remove_user(raw.as_str()) {
                Ok(req) => {
                    self.phase = RemovalPhase::Delegating;
                    RemovalAction::CallRemote(req)
                },
                Err(e) => {
                    self.phase = RemovalPhase::Failed;
                    RemovalAction::Fail(e)
                },
            },
            (RemovalPhase::Delegating, RemovalEvent::Replied(reply)) => {
                self.phase = RemovalPhase::Done;
                match relay_removal(Some(reply)) {
                    Ok(reply) => RemovalAction::Respond(reply),
                    Err(e) => RemovalAction::Fail(e),
                }
            },
            (RemovalPhase::Delegating, RemovalEvent::TransportFailed) => {
                self.phase = RemovalPhase::Failed;
                match relay_removal(None) {
                    Ok(reply) => RemovalAction::Respond(reply),
                    Err(e) => RemovalAction::Fail(e),
                }
            },
            _ => RemovalAction::Ignore,
        }
    }
}

} // verus!
