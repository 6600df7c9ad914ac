//! The course of an authorizing call: a request is first authorized; a
//! refused one is answered at once, an authorized one is handed to the inner
//! service, and what the authorization asked to be written (headers, a
//! refreshed cookie) is written onto the inner service's answer when it
//! succeeds.
use vstd::prelude::*;

verus! {

/// Where an authorizing call stands. `W` is what the authorization asks to
/// be written onto the answer.
#[derive(Clone, Debug)]
pub enum AuthStage<W> {
    /// The authorization runs.
    Authorizing,
    /// The inner service runs; `write` is kept for its answer.
    Serving { write: Option<W> },
    /// The call is answered.
    Finished,
}

/// What happened.
#[derive(Clone, Debug)]
pub enum AuthEvent<W> {
    /// The authorization accepted the request, asking for `write` (if any)
    /// to be written onto the answer.
    Authorized { write: Option<W> },
    /// The authorization refused the request and gave the answer to send.
    Refused,
    /// The inner service finished, with an answer (`ok`) or an error.
    Served { ok: bool },
}

/// What the caller does next.
#[derive(Clone, Debug)]
pub enum AuthAction<W> {
    /// Hand the request to the inner service.
    CallInner,
    /// Send the answer the authorization gave.
    AnswerRefusal,
    /// Send the inner service's answer, with `write` written onto it.
    Answer { write: Option<W> },
    /// Pass the inner service's error on.
    AnswerError,
    /// The event does not belong to this stage: nothing to do.
    Ignore,
}

/// The next stage and the action for an event.
pub open spec fn auth_next<W>(stage: AuthStage<W>, event: AuthEvent<W>) -> (AuthStage<W>, AuthAction<W>) {
    match (stage, event) {
        (AuthStage::Authorizing, AuthEvent::Authorized { write }) => (
            AuthStage::Serving { write },
            AuthAction::CallInner,
        ),
        (AuthStage::Authorizing, AuthEvent::Refused) => (
            AuthStage::Finished,
            AuthAction::AnswerRefusal,
        ),
        (AuthStage::Serving { write }, AuthEvent::Served { ok }) => if ok {
            (AuthStage::Finished, AuthAction::Answer { write })
        } else {
            (AuthStage::Finished, AuthAction::AnswerError)
        },
        (s, _) => (s, AuthAction::Ignore),
    }
}

/// Takes a step of an authorizing call.
pub fn auth_step<W>(stage: AuthStage<W>, event: AuthEvent<W>) -> (r: (AuthStage<W>, AuthAction<W>))
    ensures
        r == auth_next(stage, event),
{
    match stage {
        AuthStage::Authorizing => match event {
            AuthEvent::Authorized { write } => (AuthStage::Serving { write }, AuthAction::CallInner),
            AuthEvent::Refused => (AuthStage::Finished, AuthAction::AnswerRefusal),
            AuthEvent::Served { .. } => (AuthStage::Authorizing, AuthAction::Ignore),
        },
        AuthStage::Serving { write } => match event {
            AuthEvent::Served { ok } => {
                if ok {
                    (AuthStage::Finished, AuthAction::Answer { write })
                } else {
                    (AuthStage::Finished, AuthAction::AnswerError)
                }
            },
            AuthEvent::Authorized { .. } => (AuthStage::Serving { write }, AuthAction::Ignore),
            AuthEvent::Refused => (AuthStage::Serving { write }, AuthAction::Ignore),
        },
        AuthStage::Finished => (AuthStage::Finished, AuthAction::Ignore),
    }
}

/// What the authorization asks to be written is written onto the inner
/// service's answer when it succeeds, and nothing is written onto an error.
pub proof fn lemma_write_reaches_answer<W>(write: Option<W>, ok: bool)
    ensures
        ({
            let (s1, a1) = auth_next(AuthStage::Authorizing, AuthEvent::Authorized { write });
            let (s2, a2) = auth_next(s1, AuthEvent::Served { ok });
            &&& a1 == AuthAction::<W>::CallInner
            &&& s2 == AuthStage::<W>::Finished
            &&& a2 == (if ok {
                AuthAction::Answer { write }
            } else {
                AuthAction::<W>::AnswerError
            })
        }),
{
}

/// A refused request is answered with the authorization's answer and never
/// reaches the inner service: after the refusal every event is ignored.
pub proof fn lemma_refusal_is_final<W>(later: AuthEvent<W>)
    ensures
        auth_next(AuthStage::<W>::Authorizing, AuthEvent::Refused) == (
            AuthStage::<W>::Finished,
            AuthAction::<W>::AnswerRefusal,
        ),
        auth_next(AuthStage::<W>::Finished, later) == (
            AuthStage::<W>::Finished,
            AuthAction::<W>::Ignore,
        ),
{
}

} // verus!
