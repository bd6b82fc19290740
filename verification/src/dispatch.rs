//! From a received event to its handler: the decisions of one request.
//!
//! Handling one inbound event is a walk through the states
//! `Received → TokenAcquired → (Trusted | Verifying → Verified) → Dispatched → Done`,
//! which any error ends. The work that needs the outside world (writing the
//! audit log, getting a token, asking the source system) is named by
//! [`State::pending`] and done by the caller, who hands its result to
//! [`step`]. Every decision is made here.

use vstd::prelude::*;
use crate::error::Error;
use crate::event::{build_complete_tag, is_build_complete, Event, EventView};
use crate::resource::{build_complete_of, BuildComplete};
use crate::verification::{
    bearer, bearer_header, follows, lookup_of, lookup_request, verdict, verify, Reply,
    ADO_ORGANIZATION,
};

verus! {

/// The resource that bearer tokens are asked for: the platform's globally
/// unique identifier, which a token must carry as its audience.
pub const ADO_RESOURCE: &'static str = "499b84ac-1321-427f-aa17-267ca6975798";

/// Whether every event is verified with the source system, whatever it
/// carries.
pub const SECURE_FETCH: bool = true;

/// What is fixed for all requests.
#[derive(Clone, Debug, PartialEq, Eq)]
pub struct Policy {
    /// The base address of the organization whose events are handled.
    pub organization: String,
    /// Whether every event is verified, whatever it carries.
    pub always_verify: bool,
}

impl Policy {
    /// The policy in force unless another is chosen: the standard
    /// organization, with every event verified.
    pub fn standard() -> (policy: Policy)
        ensures
            policy.organization@ == ADO_ORGANIZATION@,
            policy.always_verify == SECURE_FETCH,
    {
        Policy { organization: String::from_str(ADO_ORGANIZATION), always_verify: SECURE_FETCH }
    }
}

/// Whether an event has to be verified before it is dispatched: where it
/// carries no resource, so that there is nothing to act on without
/// confirmation, and in any case where every event is verified.
pub open spec fn verification_required(event: EventView, always_verify: bool) -> bool {
    always_verify || event.resource is None
}

/// Whether an event has to be verified before it is dispatched.
pub fn needs_verification(event: &Event, always_verify: bool) -> (required: bool)
    ensures
        required == verification_required(event@, always_verify),
{
    always_verify || event.resource.is_none()
}

/// What dispatching an event came to.
#[derive(Clone, Debug, PartialEq, Eq)]
pub enum Handled {
    /// The build-completion handler took the event and decoded its resource,
    /// which is now for the business logic behind it.
    BuildComplete(BuildComplete),
    /// No handler is registered for the event's type: nothing was done.
    Unhandled,
}

/// Whether an outcome is the one that the build-completion handler owes for
/// an event: the decoded resource; `MissingResource` where the event carries
/// none; `ResourcePayloadMismatch` where the resource is not of the
/// build-completion shape.
pub open spec fn build_complete_owed(event: EventView, outcome: Result<BuildComplete, Error>) -> bool {
    match event.resource {
        None => outcome matches Err(Error::MissingResource),
        Some(document) => match build_complete_of(document) {
            None => outcome matches Err(Error::ResourcePayloadMismatch),
            Some(resource) => outcome matches Ok(decoded) && decoded@ == resource,
        },
    }
}

/// Handles a verified `build.complete` event: decodes its resource for the
/// business logic. The token is for that logic's own calls to the platform.
pub fn build_complete(_token: &str, event: Event) -> (outcome: Result<BuildComplete, Error>)
    ensures
        build_complete_owed(event@, outcome),
{
    match event.resource {
        None => Err(Error::MissingResource),
        Some(document) => match BuildComplete::decode(&document) {
            Ok(resource) => Ok(resource),
            Err(_) => Err(Error::ResourcePayloadMismatch),
        },
    }
}

/// Whether an outcome is the one that dispatching an event owes: what the
/// build-completion handler owes where the type tag is exactly
/// `build.complete`, and for every other tag success with no handler invoked.
pub open spec fn dispatch_owed(event: EventView, outcome: Result<Handled, Error>) -> bool {
    if event.event_type == build_complete_tag() {
        match outcome {
            Ok(Handled::BuildComplete(resource)) => build_complete_owed(event, Ok(resource)),
            Ok(Handled::Unhandled) => false,
            Err(error) => build_complete_owed(event, Err(error)),
        }
    } else {
        outcome == Ok::<Handled, Error>(Handled::Unhandled)
    }
}

/// Routes an event to the handler for its type. An event of a type that has
/// no handler is no error: nothing is done, and that is success.
pub fn dispatch(token: &str, event: Event) -> (outcome: Result<Handled, Error>)
    ensures
        dispatch_owed(event@, outcome),
{
    if is_build_complete(event.event_type.as_str()) {
        match build_complete(token, event) {
            Ok(resource) => Ok(Handled::BuildComplete(resource)),
            Err(error) => Err(error),
        }
    } else {
        Ok(Handled::Unhandled)
    }
}

/// Where the handling of one request stands.
#[derive(Clone, Debug, PartialEq, Eq)]
pub enum State {
    /// The event has come in. Nothing is decided yet.
    Received { event: Event },
    /// A bearer token is at hand.
    TokenAcquired { event: Event, token: String },
    /// The event is taken as it came: it carries a resource, and the policy
    /// does not ask for verification.
    Trusted { event: Event, token: String },
    /// The source system is being asked at `url`.
    Verifying { event: Event, token: String, url: String },
    /// The source system has confirmed the event.
    Verified { event: Event, token: String },
    /// The event has been routed.
    Dispatched { handled: Handled },
    /// The request has succeeded.
    Done,
    /// The request has failed, for good.
    Failed { error: Error },
}

/// What the outside world hands back.
#[derive(Clone, Debug, PartialEq, Eq)]
pub enum Input {
    /// Nothing: the state needs no outside work to go on.
    Proceed,
    /// The bearer token, or `None` where none could be had.
    Token(Option<String>),
    /// How the lookup ended.
    Reply(Reply),
}

/// What a state waits for.
#[derive(Clone, Debug, PartialEq, Eq)]
pub enum Action {
    /// Write the received event to the audit log, then get a bearer token
    /// for `audience` and hand it in as `Input::Token`.
    LogAndAuthenticate { audience: String },
    /// Send a GET to `url` with the header `Authorization: <authorization>`
    /// and hand in how it ended as `Input::Reply`.
    Fetch { url: String, authorization: String },
    /// Nothing outside: hand in `Input::Proceed`.
    Proceed,
    /// Answer the request with success.
    Succeed,
    /// Answer the request with a failure that tells the sender nothing.
    Fail,
}

impl State {
    /// Whether the request has ended.
    pub open spec fn terminal(self) -> bool {
        self is Done || self is Failed
    }

    /// Whether a state follows from another under an input. For every state
    /// and input exactly one state does, up to the identity of the texts in
    /// it; an input that the state does not wait for changes nothing.
    pub open spec fn steps_to(self, policy: Policy, input: Input, next: State) -> bool {
        match (self, input) {
            (State::Received { event }, Input::Token(Some(token))) => next == (State::TokenAcquired {
                event,
                token,
            }),
            (State::Received { event }, Input::Token(None)) => next == (State::Failed {
                error: Error::AuthError,
            }),
            (State::TokenAcquired { event, token }, Input::Proceed) => if verification_required(
                event@,
                policy.always_verify,
            ) {
                match lookup_of(policy.organization@, event@) {
                    Some(address) => next matches State::Verifying { event: e, token: t, url } && e
                        == event && t == token && url@ == address,
                    None => next == (State::Failed { error: Error::MissingIdentifiers }),
                }
            } else {
                next == (State::Trusted { event, token })
            },
            (State::Verifying { event, token, url }, Input::Reply(reply)) => match verdict(
                policy.organization@,
                event@,
                reply,
            ) {
                crate::verification::Verdict::Confirmed => next == (State::Verified { event, token }),
                other => next matches State::Failed { error } && follows(Err(error), event, other),
            },
            (State::Trusted { event, token }, Input::Proceed) => dispatched(event@, next),
            (State::Verified { event, token }, Input::Proceed) => dispatched(event@, next),
            (State::Dispatched { handled }, Input::Proceed) => next == State::Done,
            _ => next == self,
        }
    }

    /// What the state waits for.
    pub fn pending(&self) -> (action: Action)
        ensures
            match *self {
                State::Received { .. } => action matches Action::LogAndAuthenticate { audience }
                    && audience@ == ADO_RESOURCE@,
                State::Verifying { event, token, url } => action matches Action::Fetch {
                    url: address,
                    authorization,
                } && address@ == url@ && authorization@ == bearer(token@),
                State::Done => action is Succeed,
                State::Failed { .. } => action is Fail,
                _ => action is Proceed,
            },
    {
        match self {
            State::Received { .. } => Action::LogAndAuthenticate {
                audience: String::from_str(ADO_RESOURCE),
            },
            State::Verifying { event, token, url } => Action::Fetch {
                url: url.clone(),
                authorization: bearer_header(token.as_str()),
            },
            State::Done => Action::Succeed,
            State::Failed { .. } => Action::Fail,
            _ => Action::Proceed,
        }
    }

    /// Whether the request has ended.
    pub fn is_terminal(&self) -> (ended: bool)
        ensures
            ended == self.terminal(),
    {
        match self {
            State::Done => true,
            State::Failed { .. } => true,
            _ => false,
        }
    }
}

/// Whether a state is the one that dispatching an event leads to:
/// `Dispatched` with what the dispatch came to, or `Failed` with the
/// handler's error.
pub open spec fn dispatched(event: EventView, next: State) -> bool {
    match next {
        State::Dispatched { handled } => dispatch_owed(event, Ok(handled)),
        State::Failed { error } => dispatch_owed(event, Err(error)),
        _ => false,
    }
}

/// Takes the handling of a request one state further.
pub fn step(policy: &Policy, state: State, input: Input) -> (next: State)
    ensures
        state.steps_to(*policy, input, next),
{
    match (state, input) {
        (State::Received { event }, Input::Token(Some(token))) => State::TokenAcquired { event, token },
        (State::Received { event }, Input::Token(None)) => State::Failed { error: Error::AuthError },
        (State::TokenAcquired { event, token }, Input::Proceed) => {
            if needs_verification(&event, policy.always_verify) {
                match lookup_request(policy.organization.as_str(), &event) {
                    Ok(url) => State::Verifying { event, token, url },
                    Err(error) => State::Failed { error },
                }
            } else {
                State::Trusted { event, token }
            }
        },
        (State::Verifying { event, token, url }, Input::Reply(reply)) => {
            match verify(policy.organization.as_str(), event, reply) {
                Ok(event) => State::Verified { event, token },
                Err(error) => State::Failed { error },
            }
        },
        (State::Trusted { event, token }, Input::Proceed) => {
            match dispatch(token.as_str(), event) {
                Ok(handled) => State::Dispatched { handled },
                Err(error) => State::Failed { error },
            }
        },
        (State::Verified { event, token }, Input::Proceed) => {
            match dispatch(token.as_str(), event) {
                Ok(handled) => State::Dispatched { handled },
                Err(error) => State::Failed { error },
            }
        },
        (State::Dispatched { handled }, Input::Proceed) => State::Done,
        (state, _) => state,
    }
}

} // verus!
