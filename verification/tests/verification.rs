use ado_hooks::error::Error;
use ado_hooks::event::{Event, Notification};
use ado_hooks::ident::Uuid;
use ado_hooks::verification::{
    bearer_header, build_lookup_url, cross_check, lookup_request, verify, Reply, ADO_ORGANIZATION,
};

const INBOUND: &str = r#"{"subscriptionId":"213e4167-f493-4941-9b4c-bbb092d0b159","notificationId":41,"id":"d6ac459c-18b3-44ff-95b5-b5f03db672ea","eventType":"build.complete","publisherId":"tfs","message":null,"detailedMessage":null,"resource":null,"resourceVersion":null,"resourceContainers":{"collection":{"id":"c12d0eb8-e382-443b-9f9c-c52cba5014c2"}},"createdDate":"2023-06-30T15:24:41.3517333Z"}"#;

const URL: &str = "https://dev.azure.com/jusmoore/_apis/hooks/subscriptions/213e4167-f493-4941-9b4c-bbb092d0b159/notifications/41?api-version=7.1-preview.1";

fn inbound() -> Event {
    Event::from_text(INBOUND).expect("an event")
}

fn record(id: &str, event_id: &str, status: &str) -> String {
    format!(
        r#"{{"id":{},"subscriptionId":"213e4167-f493-4941-9b4c-bbb092d0b159","eventId":"{}","status":"{}","result":"pending","details":{{"eventType":"build.complete"}}}}"#,
        id, event_id, status
    )
}

fn answer(body: String) -> Reply {
    Reply::Answer { status: 200, body: Some(body) }
}

#[test]
fn lookup_url_is_built_from_base_and_identifiers() {
    let subscription = Uuid::parse("213E4167-F493-4941-9B4C-BBB092D0B159").expect("a UUID");
    assert_eq!(build_lookup_url(ADO_ORGANIZATION, subscription, 41), URL);
    assert_eq!(
        build_lookup_url("http://localhost:8080/org", Uuid { bits: 0 }, 0),
        "http://localhost:8080/org/_apis/hooks/subscriptions/00000000-0000-0000-0000-000000000000/notifications/0?api-version=7.1-preview.1"
    );
    assert_eq!(
        build_lookup_url("x", Uuid { bits: 0 }, u64::MAX),
        "x/_apis/hooks/subscriptions/00000000-0000-0000-0000-000000000000/notifications/18446744073709551615?api-version=7.1-preview.1"
    );
    assert_eq!(
        build_lookup_url("x", Uuid { bits: 0 }, 1_000_000),
        "x/_apis/hooks/subscriptions/00000000-0000-0000-0000-000000000000/notifications/1000000?api-version=7.1-preview.1"
    );
}

#[test]
fn bearer_header_carries_the_token() {
    assert_eq!(bearer_header("abc.def"), "Bearer abc.def");
    assert_eq!(bearer_header(""), "Bearer ");
}

#[test]
fn lookup_request_needs_both_identifiers() {
    assert_eq!(lookup_request(ADO_ORGANIZATION, &inbound()), Ok(URL.to_string()));
    let mut event = inbound();
    event.subscription_id = None;
    assert_eq!(lookup_request(ADO_ORGANIZATION, &event), Err(Error::MissingIdentifiers));
    let mut event = inbound();
    event.notification_id = None;
    assert_eq!(lookup_request(ADO_ORGANIZATION, &event), Err(Error::MissingIdentifiers));
}

#[test]
fn verify_returns_the_inbound_event_where_the_record_agrees() {
    let body = record("41", "d6ac459c-18b3-44ff-95b5-b5f03db672ea", "processing");
    assert_eq!(verify(ADO_ORGANIZATION, inbound(), answer(body)), Ok(inbound()));
}

#[test]
fn verify_fails_where_the_record_names_another_event() {
    let body = record("41", "d6ac459c-18b3-44ff-95b5-b5f03db672eb", "processing");
    assert_eq!(verify(ADO_ORGANIZATION, inbound(), answer(body)), Err(Error::VerificationFailed));
}

#[test]
fn verify_fails_where_the_record_has_another_id() {
    let body = record("42", "d6ac459c-18b3-44ff-95b5-b5f03db672ea", "processing");
    assert_eq!(verify(ADO_ORGANIZATION, inbound(), answer(body)), Err(Error::VerificationFailed));
}

#[test]
fn verify_fails_where_the_record_is_in_another_status() {
    for status in ["processed", "Processing", "processing ", "", "queued"] {
        let body = record("41", "d6ac459c-18b3-44ff-95b5-b5f03db672ea", status);
        assert_eq!(
            verify(ADO_ORGANIZATION, inbound(), answer(body)),
            Err(Error::VerificationFailed)
        );
    }
}

#[test]
fn verify_fails_where_the_record_lacks_what_is_compared() {
    for body in [
        r#"{}"#,
        r#"{"id":41,"status":"processing"}"#,
        r#"{"eventId":"d6ac459c-18b3-44ff-95b5-b5f03db672ea","status":"processing"}"#,
        r#"{"id":41,"eventId":"d6ac459c-18b3-44ff-95b5-b5f03db672ea"}"#,
    ] {
        assert_eq!(
            verify(ADO_ORGANIZATION, inbound(), answer(body.to_string())),
            Err(Error::VerificationFailed)
        );
    }
}

#[test]
fn verify_fails_with_missing_identifiers_whatever_the_reply() {
    let body = record("41", "d6ac459c-18b3-44ff-95b5-b5f03db672ea", "processing");
    for reply in [
        answer(body),
        Reply::Unreachable,
        Reply::Answer { status: 500, body: None },
    ] {
        let mut event = inbound();
        event.subscription_id = None;
        assert_eq!(verify(ADO_ORGANIZATION, event, reply.clone()), Err(Error::MissingIdentifiers));
        let mut event = inbound();
        event.notification_id = None;
        assert_eq!(verify(ADO_ORGANIZATION, event, reply), Err(Error::MissingIdentifiers));
    }
}

#[test]
fn verify_reports_the_transport_with_url_and_status() {
    assert_eq!(
        verify(ADO_ORGANIZATION, inbound(), Reply::Unreachable),
        Err(Error::VerificationTransportError { url: URL.to_string(), status: None })
    );
    for status in [201u16, 204, 302, 401, 403, 404, 500] {
        let body = record("41", "d6ac459c-18b3-44ff-95b5-b5f03db672ea", "processing");
        assert_eq!(
            verify(ADO_ORGANIZATION, inbound(), Reply::Answer { status, body: Some(body) }),
            Err(Error::VerificationTransportError { url: URL.to_string(), status: Some(status) })
        );
    }
    assert_eq!(
        verify(ADO_ORGANIZATION, inbound(), Reply::Answer { status: 200, body: None }),
        Err(Error::VerificationTransportError { url: URL.to_string(), status: Some(200) })
    );
}

#[test]
fn verify_reports_an_undecodable_body_with_the_body() {
    for body in ["<html>sign in</html>", "", r#"{"id":"forty-one"}"#, r#"[1,2]"#] {
        assert_eq!(
            verify(ADO_ORGANIZATION, inbound(), answer(body.to_string())),
            Err(Error::VerificationDecodeError { body: body.to_string() })
        );
    }
}

#[test]
fn cross_check_compares_event_id_notification_id_and_status() {
    let event = inbound();
    let agree = Notification::from_text(&record("41", "d6ac459c-18b3-44ff-95b5-b5f03db672ea", "processing"))
        .expect("a notification");
    assert!(cross_check(&agree, &event));
    let mut other = agree.clone();
    other.status = Some("done".to_string());
    assert!(!cross_check(&other, &event));
    let mut other = agree.clone();
    other.id = Some(40);
    assert!(!cross_check(&other, &event));
    let mut other = agree.clone();
    other.event_id = Some(Uuid { bits: 1 });
    assert!(!cross_check(&other, &event));
    let mut other = agree.clone();
    other.result = None;
    other.subscription_id = None;
    assert!(cross_check(&other, &event));
}

#[test]
fn error_descriptions_say_what_failed() {
    assert_eq!(Error::MalformedPayload.describe(), "malformed payload");
    assert_eq!(Error::AuthError.describe(), "failed to query identity");
    assert_eq!(Error::VerificationFailed.describe(), "failed to verify event");
    assert_eq!(Error::MissingResource.describe(), "resource data not present");
    assert_eq!(Error::ResourcePayloadMismatch.describe(), "failed to decode resource");
    assert_eq!(
        Error::VerificationTransportError { url: "http://x/y".to_string(), status: Some(404) }.describe(),
        "http://x/y: code 404"
    );
    assert_eq!(
        Error::VerificationTransportError { url: "http://x/y".to_string(), status: None }.describe(),
        "failed to fetch notification data: http://x/y"
    );
    assert_eq!(
        Error::VerificationDecodeError { body: "<html>".to_string() }.describe(),
        "failed to decode notification data: <html>"
    );
    assert_eq!(
        Error::MissingIdentifiers.describe(),
        "event lacks the identifiers needed to verify it"
    );
}
