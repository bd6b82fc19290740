use ado_hooks::dispatch::{
    build_complete, dispatch, needs_verification, step, Action, Handled, Input, Policy, State,
    ADO_RESOURCE, SECURE_FETCH,
};
use ado_hooks::error::Error;
use ado_hooks::event::{is_build_complete, Event};
use ado_hooks::json::Json;
use ado_hooks::resource::BuildComplete;
use ado_hooks::verification::Reply;

const RESOURCE: &str = r#"{"_links":{"web":{"href":"https://example.com/builds/1"}},"id":1,"buildNumber":"20150407.2","status":"completed","result":"succeeded","queueTime":"2015-04-07T17:22:56.22Z","startTime":"2015-04-07T17:23:02.4977418Z","finishTime":"2015-04-07T17:24:20.763574Z","url":"https://example.com/_apis/build/Builds/1","reason":"batchedCI"}"#;

const URL: &str = "https://dev.azure.com/jusmoore/_apis/hooks/subscriptions/213e4167-f493-4941-9b4c-bbb092d0b159/notifications/41?api-version=7.1-preview.1";

const RECORD: &str = r#"{"id":41,"eventId":"d6ac459c-18b3-44ff-95b5-b5f03db672ea","status":"processing"}"#;

fn event(event_type: &str, resource: Option<&str>) -> Event {
    let text = format!(
        r#"{{"subscriptionId":"213e4167-f493-4941-9b4c-bbb092d0b159","notificationId":41,"id":"d6ac459c-18b3-44ff-95b5-b5f03db672ea","eventType":"{}","resource":{}}}"#,
        event_type,
        resource.unwrap_or("null")
    );
    Event::from_text(&text).expect("an event")
}

fn lenient() -> Policy {
    Policy { organization: "https://dev.azure.com/jusmoore".to_string(), always_verify: false }
}

fn sample_resource() -> BuildComplete {
    BuildComplete::decode(&Json::parse(RESOURCE).expect("a document")).expect("a resource")
}

#[test]
fn standard_policy_verifies_every_event() {
    let policy = Policy::standard();
    assert_eq!(policy.organization, "https://dev.azure.com/jusmoore");
    assert!(policy.always_verify);
    assert!(SECURE_FETCH);
    assert_eq!(ADO_RESOURCE, "499b84ac-1321-427f-aa17-267ca6975798");
}

#[test]
fn verification_is_required_without_resource_or_by_policy() {
    let with = event("build.complete", Some(RESOURCE));
    let without = event("build.complete", None);
    assert!(!needs_verification(&with, false));
    assert!(needs_verification(&with, true));
    assert!(needs_verification(&without, false));
    assert!(needs_verification(&without, true));
}

#[test]
fn type_tag_is_matched_exactly() {
    assert!(is_build_complete("build.complete"));
    for tag in ["Build.Complete", "BUILD.COMPLETE", "build.complete ", " build.complete", "build", ""] {
        assert!(!is_build_complete(tag));
    }
}

#[test]
fn dispatch_of_an_unknown_type_is_a_successful_no_op() {
    for tag in ["git.push", "Build.Complete", "workitem.created", ""] {
        assert_eq!(dispatch("token", event(tag, None)), Ok(Handled::Unhandled));
        assert_eq!(
            dispatch("token", event(tag, Some(r#"{"anything":[1,2,3]}"#))),
            Ok(Handled::Unhandled)
        );
    }
}

#[test]
fn dispatch_of_build_complete_decodes_the_resource() {
    assert_eq!(
        dispatch("token", event("build.complete", Some(RESOURCE))),
        Ok(Handled::BuildComplete(sample_resource()))
    );
    assert_eq!(
        build_complete("token", event("build.complete", Some(RESOURCE))),
        Ok(sample_resource())
    );
}

#[test]
fn build_complete_without_resource_is_missing_resource() {
    assert_eq!(build_complete("token", event("build.complete", None)), Err(Error::MissingResource));
    assert_eq!(dispatch("token", event("build.complete", None)), Err(Error::MissingResource));
}

#[test]
fn build_complete_with_a_resource_that_lacks_its_id_is_a_mismatch() {
    let mut inbound = event("build.complete", Some(RESOURCE));
    inbound.resource = Some(match Json::parse(RESOURCE).expect("a document") {
        Json::Object(members) => {
            Json::Object(members.into_iter().filter(|(name, _)| name != "id").collect())
        }
        other => other,
    });
    assert_eq!(build_complete("token", inbound.clone()), Err(Error::ResourcePayloadMismatch));
    assert_eq!(dispatch("token", inbound), Err(Error::ResourcePayloadMismatch));
}

#[test]
fn build_complete_with_a_resource_of_another_shape_is_a_mismatch() {
    for resource in [Json::Null, Json::Uint(1), Json::Array(vec![]), Json::Object(vec![])] {
        let mut inbound = event("build.complete", Some(RESOURCE));
        inbound.resource = Some(resource);
        assert_eq!(build_complete("token", inbound), Err(Error::ResourcePayloadMismatch));
    }
}

#[test]
fn received_state_waits_for_log_and_token() {
    let state = State::Received { event: event("build.complete", None) };
    assert_eq!(
        state.pending(),
        Action::LogAndAuthenticate { audience: "499b84ac-1321-427f-aa17-267ca6975798".to_string() }
    );
    assert!(!state.is_terminal());
}

#[test]
fn request_without_token_fails_with_auth_error() {
    let policy = Policy::standard();
    let state = State::Received { event: event("build.complete", None) };
    let state = step(&policy, state, Input::Token(None));
    assert_eq!(state, State::Failed { error: Error::AuthError });
    assert_eq!(state.pending(), Action::Fail);
    assert!(state.is_terminal());
}

#[test]
fn verified_event_is_dispatched_and_the_request_is_done() {
    let policy = Policy::standard();
    let inbound = event("build.complete", Some(RESOURCE));
    let state = State::Received { event: inbound.clone() };
    let state = step(&policy, state, Input::Token(Some("secret".to_string())));
    assert_eq!(state, State::TokenAcquired { event: inbound.clone(), token: "secret".to_string() });
    assert_eq!(state.pending(), Action::Proceed);
    let state = step(&policy, state, Input::Proceed);
    assert_eq!(
        state,
        State::Verifying { event: inbound.clone(), token: "secret".to_string(), url: URL.to_string() }
    );
    assert_eq!(
        state.pending(),
        Action::Fetch { url: URL.to_string(), authorization: "Bearer secret".to_string() }
    );
    let state =
        step(&policy, state, Input::Reply(Reply::Answer { status: 200, body: Some(RECORD.to_string()) }));
    assert_eq!(state, State::Verified { event: inbound, token: "secret".to_string() });
    assert_eq!(state.pending(), Action::Proceed);
    let state = step(&policy, state, Input::Proceed);
    assert_eq!(state, State::Dispatched { handled: Handled::BuildComplete(sample_resource()) });
    assert_eq!(state.pending(), Action::Proceed);
    let state = step(&policy, state, Input::Proceed);
    assert_eq!(state, State::Done);
    assert_eq!(state.pending(), Action::Succeed);
    assert!(state.is_terminal());
}

#[test]
fn event_with_resource_is_trusted_where_policy_allows() {
    let policy = lenient();
    let inbound = event("build.complete", Some(RESOURCE));
    let state = State::TokenAcquired { event: inbound.clone(), token: "secret".to_string() };
    let state = step(&policy, state, Input::Proceed);
    assert_eq!(state, State::Trusted { event: inbound, token: "secret".to_string() });
    let state = step(&policy, state, Input::Proceed);
    assert_eq!(state, State::Dispatched { handled: Handled::BuildComplete(sample_resource()) });
    assert_eq!(step(&policy, state, Input::Proceed), State::Done);
}

#[test]
fn event_without_resource_is_verified_even_where_policy_is_lenient() {
    let policy = lenient();
    let inbound = event("build.complete", None);
    let state = State::TokenAcquired { event: inbound.clone(), token: "secret".to_string() };
    let state = step(&policy, state, Input::Proceed);
    assert_eq!(
        state,
        State::Verifying { event: inbound.clone(), token: "secret".to_string(), url: URL.to_string() }
    );
    let state =
        step(&policy, state, Input::Reply(Reply::Answer { status: 200, body: Some(RECORD.to_string()) }));
    assert_eq!(state, State::Verified { event: inbound, token: "secret".to_string() });
    assert_eq!(step(&policy, state, Input::Proceed), State::Failed { error: Error::MissingResource });
}

#[test]
fn unverifiable_event_fails_and_is_never_trusted() {
    let mut inbound = event("build.complete", None);
    inbound.subscription_id = None;
    for policy in [Policy::standard(), lenient()] {
        let state = State::TokenAcquired { event: inbound.clone(), token: "secret".to_string() };
        assert_eq!(
            step(&policy, state, Input::Proceed),
            State::Failed { error: Error::MissingIdentifiers }
        );
    }
    let mut inbound = event("build.complete", Some(RESOURCE));
    inbound.notification_id = None;
    let state = State::TokenAcquired { event: inbound, token: "secret".to_string() };
    assert_eq!(
        step(&Policy::standard(), state, Input::Proceed),
        State::Failed { error: Error::MissingIdentifiers }
    );
}

#[test]
fn failed_verification_fails_the_request() {
    let policy = Policy::standard();
    let verifying = State::Verifying {
        event: event("build.complete", Some(RESOURCE)),
        token: "secret".to_string(),
        url: URL.to_string(),
    };
    let denied = r#"{"id":41,"eventId":"d6ac459c-18b3-44ff-95b5-b5f03db672ea","status":"processed"}"#;
    assert_eq!(
        step(
            &policy,
            verifying.clone(),
            Input::Reply(Reply::Answer { status: 200, body: Some(denied.to_string()) })
        ),
        State::Failed { error: Error::VerificationFailed }
    );
    assert_eq!(
        step(&policy, verifying.clone(), Input::Reply(Reply::Unreachable)),
        State::Failed {
            error: Error::VerificationTransportError { url: URL.to_string(), status: None }
        }
    );
    assert_eq!(
        step(&policy, verifying.clone(), Input::Reply(Reply::Answer { status: 503, body: None })),
        State::Failed {
            error: Error::VerificationTransportError { url: URL.to_string(), status: Some(503) }
        }
    );
    assert_eq!(
        step(
            &policy,
            verifying,
            Input::Reply(Reply::Answer { status: 200, body: Some("oops".to_string()) })
        ),
        State::Failed { error: Error::VerificationDecodeError { body: "oops".to_string() } }
    );
}

#[test]
fn unknown_type_goes_through_to_done() {
    let policy = lenient();
    let inbound = event("git.push", Some(r#"{"commits":[]}"#));
    let state = State::Trusted { event: inbound, token: "secret".to_string() };
    let state = step(&policy, state, Input::Proceed);
    assert_eq!(state, State::Dispatched { handled: Handled::Unhandled });
    assert_eq!(step(&policy, state, Input::Proceed), State::Done);
}

#[test]
fn terminal_states_stay_whatever_comes() {
    let policy = Policy::standard();
    for state in [State::Done, State::Failed { error: Error::VerificationFailed }] {
        for input in [
            Input::Proceed,
            Input::Token(None),
            Input::Token(Some("secret".to_string())),
            Input::Reply(Reply::Unreachable),
            Input::Reply(Reply::Answer { status: 200, body: Some(RECORD.to_string()) }),
        ] {
            assert_eq!(step(&policy, state.clone(), input), state);
        }
    }
}

#[test]
fn input_that_a_state_does_not_wait_for_changes_nothing() {
    let policy = Policy::standard();
    let inbound = event("build.complete", Some(RESOURCE));
    let received = State::Received { event: inbound.clone() };
    assert_eq!(step(&policy, received.clone(), Input::Proceed), received);
    assert_eq!(step(&policy, received.clone(), Input::Reply(Reply::Unreachable)), received);
    let acquired = State::TokenAcquired { event: inbound.clone(), token: "secret".to_string() };
    assert_eq!(step(&policy, acquired.clone(), Input::Token(None)), acquired);
    let verifying =
        State::Verifying { event: inbound, token: "secret".to_string(), url: URL.to_string() };
    assert_eq!(step(&policy, verifying.clone(), Input::Proceed), verifying);
}
