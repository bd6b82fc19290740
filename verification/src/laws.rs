//! What holds of the library as a whole, stated and proved.

use vstd::prelude::*;
use crate::dispatch::{
    build_complete_owed, dispatch_owed, verification_required, Handled, Input, Policy, State,
};
use crate::error::Error;
use crate::event::{
    build_complete_tag, details_of, event_of, notification_of, EventView, NotificationView,
};
use crate::ident::{hyphenated, lemma_hyphenated_url_safe};
use crate::json::{lemma_find_without, JsonValue};
use crate::resource::{build_complete_of, BuildComplete};
use crate::text::{all_url_safe, decimal, lemma_decimal_url_safe};
use crate::verification::{confirms, lookup_of, record_of, verdict, Reply, Verdict};

verus! {

/// A notification decodes whichever of its members are missing: taking a
/// member away from a notification that decodes leaves one that decodes.
pub proof fn law_notification_tolerates_absence(document: JsonValue, name: Seq<char>)
    requires
        notification_of(document) is Some,
    ensures
        notification_of(document.omit(name)) is Some,
{
    let members = document->Object_0;
    lemma_find_without(members, name, "id"@);
    lemma_find_without(members, name, "subscriptionId"@);
    lemma_find_without(members, name, "subscriberId"@);
    lemma_find_without(members, name, "eventId"@);
    lemma_find_without(members, name, "status"@);
    lemma_find_without(members, name, "result"@);
    lemma_find_without(members, name, "createdDate"@);
    lemma_find_without(members, name, "modifiedDate"@);
    lemma_find_without(members, name, "details"@);
}

/// The details of a notification decode whichever of their members are
/// missing, the event among them.
pub proof fn law_details_tolerate_absence(document: JsonValue, name: Seq<char>)
    requires
        details_of(document) is Some,
    ensures
        details_of(document.omit(name)) is Some,
        name == "event"@ ==> details_of(document.omit(name)).unwrap().event is None,
{
    let members = document->Object_0;
    lemma_find_without(members, name, "eventType"@);
    lemma_find_without(members, name, "event"@);
}

/// An event decodes whichever of its members are missing, but for its id and
/// its type tag: taking any other member away from an event that decodes,
/// the resource and the messages among them, leaves one that decodes.
pub proof fn law_event_tolerates_absence(document: JsonValue, name: Seq<char>)
    requires
        event_of(document) is Some,
        name != "id"@,
        name != "eventType"@,
    ensures
        event_of(document.omit(name)) is Some,
        name == "resource"@ ==> event_of(document.omit(name)).unwrap().resource is None,
        name == "message"@ ==> event_of(document.omit(name)).unwrap().message is None,
{
    assert(document is Object);
    let members = document->Object_0;
    lemma_find_without(members, name, "id"@);
    lemma_find_without(members, name, "subscriptionId"@);
    lemma_find_without(members, name, "notificationId"@);
    lemma_find_without(members, name, "eventType"@);
    lemma_find_without(members, name, "publisherId"@);
    lemma_find_without(members, name, "message"@);
    lemma_find_without(members, name, "detailedMessage"@);
    lemma_find_without(members, name, "resource"@);
    lemma_find_without(members, name, "resourceVersion"@);
    lemma_find_without(members, name, "resourceContainers"@);
    lemma_find_without(members, name, "createdDate"@);
}

/// Whether a name is that of a member of an event.
pub open spec fn event_names(name: Seq<char>) -> bool {
    ||| name == "id"@
    ||| name == "subscriptionId"@
    ||| name == "notificationId"@
    ||| name == "eventType"@
    ||| name == "publisherId"@
    ||| name == "message"@
    ||| name == "detailedMessage"@
    ||| name == "resource"@
    ||| name == "resourceVersion"@
    ||| name == "resourceContainers"@
    ||| name == "createdDate"@
}

/// Whether a name is that of a member of a notification.
pub open spec fn notification_names(name: Seq<char>) -> bool {
    ||| name == "id"@
    ||| name == "subscriptionId"@
    ||| name == "subscriberId"@
    ||| name == "eventId"@
    ||| name == "status"@
    ||| name == "result"@
    ||| name == "createdDate"@
    ||| name == "modifiedDate"@
    ||| name == "details"@
}

/// Whether a name is that of a member of a build-completion resource.
pub open spec fn build_names(name: Seq<char>) -> bool {
    build_requires(name) || name == "tags"@ || name == "templateParameters"@
}

/// Members that an event does not have are passed over: with or without
/// them, a document decodes to the same event, or to none.
pub proof fn law_event_ignores_unknown_members(document: JsonValue, name: Seq<char>)
    requires
        !event_names(name),
    ensures
        event_of(document.omit(name)) == event_of(document),
{
    if document is Object {
        let members = document->Object_0;
        lemma_find_without(members, name, "id"@);
        lemma_find_without(members, name, "subscriptionId"@);
        lemma_find_without(members, name, "notificationId"@);
        lemma_find_without(members, name, "eventType"@);
        lemma_find_without(members, name, "publisherId"@);
        lemma_find_without(members, name, "message"@);
        lemma_find_without(members, name, "detailedMessage"@);
        lemma_find_without(members, name, "resource"@);
        lemma_find_without(members, name, "resourceVersion"@);
        lemma_find_without(members, name, "resourceContainers"@);
        lemma_find_without(members, name, "createdDate"@);
    }
}

/// Members that a notification does not have are passed over.
pub proof fn law_notification_ignores_unknown_members(document: JsonValue, name: Seq<char>)
    requires
        !notification_names(name),
    ensures
        notification_of(document.omit(name)) == notification_of(document),
{
    if document is Object {
        let members = document->Object_0;
        lemma_find_without(members, name, "id"@);
        lemma_find_without(members, name, "subscriptionId"@);
        lemma_find_without(members, name, "subscriberId"@);
        lemma_find_without(members, name, "eventId"@);
        lemma_find_without(members, name, "status"@);
        lemma_find_without(members, name, "result"@);
        lemma_find_without(members, name, "createdDate"@);
        lemma_find_without(members, name, "modifiedDate"@);
        lemma_find_without(members, name, "details"@);
    }
}

/// Members that a build-completion resource does not have are passed over.
pub proof fn law_build_ignores_unknown_members(document: JsonValue, name: Seq<char>)
    requires
        !build_names(name),
    ensures
        build_complete_of(document.omit(name)) == build_complete_of(document),
{
    if document is Object {
        let members = document->Object_0;
        lemma_find_without(members, name, "_links"@);
        lemma_find_without(members, name, "tags"@);
        lemma_find_without(members, name, "templateParameters"@);
        lemma_find_without(members, name, "id"@);
        lemma_find_without(members, name, "url"@);
        lemma_find_without(members, name, "buildNumber"@);
        lemma_find_without(members, name, "status"@);
        lemma_find_without(members, name, "result"@);
        lemma_find_without(members, name, "queueTime"@);
        lemma_find_without(members, name, "startTime"@);
        lemma_find_without(members, name, "finishTime"@);
        lemma_find_without(members, name, "reason"@);
    }
}

/// Both identifiers enter the lookup address in a text made of hexadecimal
/// digits, decimal digits and hyphens only, so nothing in them can change the
/// address's structure, and nothing in them is escaped.
pub proof fn law_lookup_identifiers_are_url_safe(subscription_id: u128, notification_id: u64)
    ensures
        all_url_safe(hyphenated(subscription_id)),
        all_url_safe(decimal(notification_id as nat)),
{
    lemma_hyphenated_url_safe(subscription_id);
    lemma_decimal_url_safe(notification_id as nat);
}

/// A lookup is made once: whatever the reply, the request goes on as
/// verified or ends as failed, and never asks again.
pub proof fn law_one_lookup_per_request(policy: Policy, state: State, reply: Reply, next: State)
    requires
        state is Verifying,
        state.steps_to(policy, Input::Reply(reply), next),
    ensures
        next is Verified || next is Failed,
{
}

/// Verification fails with `VerificationFailed` wherever the source system
/// answers with status 200 and a notification that names another event,
/// has another id, or is in another status than `processing`.
pub proof fn law_disagreement_denies(
    base: Seq<char>,
    event: EventView,
    body: String,
    record: NotificationView,
)
    requires
        lookup_of(base, event) is Some,
        record_of(body@) == Some(record),
        record.event_id != Some(event.id) || record.id != event.notification_id || record.status
            != Some("processing"@),
    ensures
        verdict(base, event, Reply::Answer { status: 200, body: Some(body) }) == Verdict::Denied,
{
}

/// Verification fails with `MissingIdentifiers` wherever the event lacks its
/// subscription id or its notification id, whatever the source system
/// answered.
pub proof fn law_missing_identifiers(base: Seq<char>, event: EventView, reply: Reply)
    requires
        event.subscription_id is None || event.notification_id is None,
    ensures
        verdict(base, event, reply) == Verdict::MissingIdentifiers,
{
}

/// An event is confirmed by one kind of reply only: status 200 with a
/// notification that agrees with the event.
pub proof fn law_confirmation_needs_agreement(base: Seq<char>, event: EventView, reply: Reply)
    requires
        verdict(base, event, reply) == Verdict::Confirmed,
    ensures
        lookup_of(base, event) is Some,
        reply matches Reply::Answer { status, body: Some(body) } && status == 200 && (record_of(
            body@,
        ) matches Some(record) && confirms(record, event)),
{
}

/// Dispatching an event whose type tag is not exactly `build.complete`
/// succeeds with no handler invoked.
pub proof fn law_unknown_type_is_no_error(event: EventView, outcome: Result<Handled, Error>)
    requires
        event.event_type != build_complete_tag(),
        dispatch_owed(event, outcome),
    ensures
        outcome == Ok::<Handled, Error>(Handled::Unhandled),
{
}

/// Whether a name is that of a member without which a document is no
/// build-completion resource.
pub open spec fn build_requires(name: Seq<char>) -> bool {
    ||| name == "_links"@
    ||| name == "id"@
    ||| name == "url"@
    ||| name == "buildNumber"@
    ||| name == "status"@
    ||| name == "result"@
    ||| name == "queueTime"@
    ||| name == "startTime"@
    ||| name == "finishTime"@
    ||| name == "reason"@
}

/// A resource that lacks a required member, such as `id`, is no
/// build-completion resource, and the handler answers it with
/// `ResourcePayloadMismatch`: nothing is filled in for what is missing.
pub proof fn law_missing_member_mismatches(
    event: EventView,
    name: Seq<char>,
    outcome: Result<BuildComplete, Error>,
)
    requires
        build_requires(name),
        event.resource matches Some(document) && document.present(name) is None,
        build_complete_owed(event, outcome),
    ensures
        build_complete_of(event.resource.unwrap()) is None,
        outcome matches Err(Error::ResourcePayloadMismatch),
{
}

/// A decoded `build.complete` event that carries a resource is handled
/// without error: what decoding checked, the handler finds.
pub proof fn law_decoded_resource_is_handled(event: EventView, outcome: Result<BuildComplete, Error>)
    requires
        event.wf(),
        event.event_type == build_complete_tag(),
        event.resource is Some,
        build_complete_owed(event, outcome),
    ensures
        outcome is Ok,
{
}

/// An error ends the request, and so does success: no input leads out of
/// `Failed` or `Done`.
pub proof fn law_terminal_states_stay(policy: Policy, state: State, input: Input, next: State)
    requires
        state.terminal(),
        state.steps_to(policy, input, next),
    ensures
        next == state,
{
}

/// Whether one state may come right after another on the way
/// `Received → TokenAcquired → (Trusted | Verifying → Verified) → Dispatched → Done`.
pub open spec fn comes_after(state: State, next: State) -> bool {
    ||| state is Received && next is TokenAcquired
    ||| state is TokenAcquired && (next is Trusted || next is Verifying)
    ||| state is Verifying && next is Verified
    ||| (state is Trusted || state is Verified) && next is Dispatched
    ||| state is Dispatched && next is Done
}

/// A step changes nothing, or fails the request, or takes it one state
/// further on its way: no state is skipped, and none is gone back to.
pub proof fn law_states_follow_in_order(policy: Policy, state: State, input: Input, next: State)
    requires
        state.steps_to(policy, input, next),
    ensures
        next == state || (next is Failed && !state.terminal()) || comes_after(state, next),
{
}

/// An event is dispatched from two states only: `Trusted` and `Verified`.
pub proof fn law_dispatch_needs_trust(policy: Policy, state: State, input: Input, next: State)
    requires
        state.steps_to(policy, input, next),
        next is Dispatched,
        !(state is Dispatched),
    ensures
        state is Trusted || state is Verified,
{
}

/// An event is trusted as it came only where it carries a resource and the
/// policy does not ask for verification.
pub proof fn law_trust_needs_resource(policy: Policy, state: State, input: Input, next: State)
    requires
        state.steps_to(policy, input, next),
        next is Trusted,
        !(state is Trusted),
    ensures
        state matches State::TokenAcquired { event, .. } && event@.resource is Some
            && !policy.always_verify,
{
}

/// An event counts as verified only after the source system confirmed it.
pub proof fn law_verified_needs_confirmation(policy: Policy, state: State, input: Input, next: State)
    requires
        state.steps_to(policy, input, next),
        next is Verified,
        !(state is Verified),
    ensures
        state matches State::Verifying { event, .. } && (input matches Input::Reply(reply) && verdict(
            policy.organization@,
            event@,
            reply,
        ) == Verdict::Confirmed),
{
}

/// Where verification is required and the event lacks an identifier, the
/// request fails with `MissingIdentifiers`; the event is never trusted
/// instead.
pub proof fn law_unverifiable_event_fails(policy: Policy, state: State, next: State)
    requires
        state matches State::TokenAcquired { event, .. } && verification_required(
            event@,
            policy.always_verify,
        ) && (event@.subscription_id is None || event@.notification_id is None),
        state.steps_to(policy, Input::Proceed, next),
    ensures
        next == (State::Failed { error: Error::MissingIdentifiers }),
{
}

/// Without a token nothing goes on: the request fails with `AuthError`.
pub proof fn law_no_token_fails(policy: Policy, state: State, next: State)
    requires
        state is Received,
        state.steps_to(policy, Input::Token(None), next),
    ensures
        next == (State::Failed { error: Error::AuthError }),
{
}

/// Whether `states` is a run under `inputs`: each state follows from the
/// one before it under the input of the same index.
pub open spec fn is_run(policy: Policy, states: Seq<State>, inputs: Seq<Input>) -> bool {
    &&& states.len() == inputs.len() + 1
    &&& forall|i: int|
        0 <= i < inputs.len() ==> (#[trigger] states[i]).steps_to(policy, inputs[i], states[i + 1])
}

/// Once a run has failed it stays failed, with the error it failed with.
pub proof fn law_failure_is_final(
    policy: Policy,
    states: Seq<State>,
    inputs: Seq<Input>,
    i: int,
    j: int,
)
    requires
        is_run(policy, states, inputs),
        0 <= i <= j < states.len(),
        states[i] is Failed,
    ensures
        states[j] == states[i],
    decreases j - i,
{
    if i < j {
        law_failure_is_final(policy, states, inputs, i, j - 1);
        assert(states[j - 1].steps_to(policy, inputs[j - 1], states[j - 1 + 1]));
    }
}

/// A run that starts with a received event has trusted or verified it
/// before it dispatches it.
pub proof fn law_no_dispatch_without_trust(
    policy: Policy,
    states: Seq<State>,
    inputs: Seq<Input>,
    j: int,
)
    requires
        is_run(policy, states, inputs),
        0 <= j < states.len(),
        states[0] is Received,
        states[j] is Dispatched,
    ensures
        exists|i: int| 0 <= i < j && (#[trigger] states[i] is Trusted || states[i] is Verified),
    decreases j,
{
    assert(j > 0);
    assert(states[j - 1].steps_to(policy, inputs[j - 1], states[j - 1 + 1]));
    if states[j - 1] is Dispatched {
        law_no_dispatch_without_trust(policy, states, inputs, j - 1);
    } else {
        law_dispatch_needs_trust(policy, states[j - 1], inputs[j - 1], states[j]);
        assert(states[j - 1] is Trusted || states[j - 1] is Verified);
    }
}

} // verus!
