use ado_hooks::encode::{encode_containers, encode_text, encode_time, encode_unsigned, encode_uuid};
use ado_hooks::event::{Container, Event, Message, Notification, NotificationDetails};
use ado_hooks::ident::Uuid;
use ado_hooks::json::Json;
use ado_hooks::time::Timestamp;

const EVENT: &str = r#"{"id":"D6AC459C-18B3-44FF-95B5-B5F03DB672EA","subscriptionId":"213e4167-f493-4941-9b4c-bbb092d0b159","notificationId":41,"eventType":"git.push","publisherId":"tfs","message":{"text":"pushed","html":"<b>pushed</b>","markdown":"**pushed**"},"detailedMessage":{"text":"pushed more"},"resource":{"commits":[{"n":1},{"n":-2},{"ratio":0.25}],"ok":true,"none":null},"resourceVersion":"1.0","resourceContainers":{"collection":{"id":"c12d0eb8-e382-443b-9f9c-c52cba5014c2"},"account":{"id":"f844ec47-a9db-4511-8281-8b63f4eaf94e","baseUrl":"https://example.com/"}},"createdDate":"2023-06-30T17:24:41.3517333+02:00","extra":"dropped"}"#;

fn text(value: &str) -> Json {
    Json::Text(value.to_string())
}

fn name(value: &str) -> String {
    value.to_string()
}

#[test]
fn event_is_written_member_by_member() {
    let event = Event {
        id: Uuid { bits: 0xd6ac459c_18b3_44ff_95b5_b5f03db672ea },
        subscription_id: None,
        notification_id: Some(41),
        event_type: name("build.complete"),
        publisher_id: Some(name("tfs")),
        message: Some(Message { text: Some(name("done")), html: None, markdown: None }),
        detailed_message: None,
        resource: None,
        resource_version: None,
        resource_containers: vec![(
            name("project"),
            Container { id: Uuid { bits: 1 }, base_url: None },
        )],
        created_date: Timestamp::parse("2023-06-30T15:24:41.38Z"),
    };
    let expected = Json::Object(vec![
        (name("id"), text("d6ac459c-18b3-44ff-95b5-b5f03db672ea")),
        (name("subscriptionId"), Json::Null),
        (name("notificationId"), Json::Uint(41)),
        (name("eventType"), text("build.complete")),
        (name("publisherId"), text("tfs")),
        (
            name("message"),
            Json::Object(vec![
                (name("text"), text("done")),
                (name("html"), Json::Null),
                (name("markdown"), Json::Null),
            ]),
        ),
        (name("detailedMessage"), Json::Null),
        (name("resource"), Json::Null),
        (name("resourceVersion"), Json::Null),
        (
            name("resourceContainers"),
            Json::Object(vec![(
                name("project"),
                Json::Object(vec![
                    (name("id"), text("00000000-0000-0000-0000-000000000001")),
                    (name("baseUrl"), Json::Null),
                ]),
            )]),
        ),
        (name("createdDate"), text("2023-06-30T15:24:41.380Z")),
    ]);
    assert_eq!(event.encode(), expected);
}

#[test]
fn event_round_trips_through_its_document() {
    let decoded = Event::from_text(EVENT).expect("an event");
    let reencoded = decoded.encode();
    assert_eq!(Event::decode(&reencoded), Ok(decoded.clone()));
    assert_eq!(Event::decode(&reencoded).expect("an event").encode(), reencoded);
    assert_eq!(decoded.id.bits, 0xd6ac459c_18b3_44ff_95b5_b5f03db672ea);
    assert_eq!(
        decoded.created_date.as_ref().map(|at| at.as_str()),
        Some("2023-06-30T15:24:41.351733300Z")
    );
    assert_eq!(decoded.resource_containers.len(), 2);
    assert_eq!(
        decoded.detailed_message,
        Some(Message { text: Some(name("pushed more")), html: None, markdown: None })
    );
}

#[test]
fn minimal_event_round_trips() {
    let decoded = Event::from_text(r#"{"id":"00000000-0000-0000-0000-000000000000","eventType":""}"#)
        .expect("an event");
    assert_eq!(Event::decode(&decoded.encode()), Ok(decoded));
}

#[test]
fn build_complete_event_round_trips_with_its_resource() {
    let resource = r#"{"_links":{},"id":1,"buildNumber":"1","status":"completed","result":"succeeded","queueTime":"2015-04-07T17:22:56.22Z","startTime":"2015-04-07T17:23:02Z","finishTime":"2015-04-07T17:24:20Z","url":"https://example.com/1","reason":"manual"}"#;
    let text = format!(
        r#"{{"id":"d6ac459c-18b3-44ff-95b5-b5f03db672ea","eventType":"build.complete","resource":{}}}"#,
        resource
    );
    let decoded = Event::from_text(&text).expect("an event");
    assert_eq!(decoded.resource, Json::parse(resource));
    assert_eq!(Event::decode(&decoded.encode()), Ok(decoded));
}

#[test]
fn notification_round_trips_through_its_document() {
    let text = format!(
        r#"{{"id":41,"subscriptionId":"00000000-0000-0000-0000-000000000000","subscriberId":"00000000-0000-0000-0000-000000000002","eventId":"d6ac459c-18b3-44ff-95b5-b5f03db672ea","status":"processing","result":"pending","createdDate":"2023-06-30T15:24:41.38Z","modifiedDate":"2023-06-30T15:24:41.39Z","details":{{"eventType":"git.push","event":{}}}}}"#,
        EVENT
    );
    let decoded = Notification::from_text(&text).expect("a notification");
    let reencoded = decoded.encode();
    assert_eq!(Notification::decode(&reencoded), Ok(decoded.clone()));
    assert_eq!(decoded.details.expect("details").event, Event::from_text(EVENT).ok());
}

#[test]
fn empty_notification_round_trips() {
    let decoded = Notification::from_text("{}").expect("a notification");
    assert_eq!(
        decoded,
        Notification {
            id: None,
            subscription_id: None,
            subscriber_id: None,
            event_id: None,
            status: None,
            result: None,
            created_date: None,
            modified_date: None,
            details: None,
        }
    );
    assert_eq!(Notification::decode(&decoded.encode()), Ok(decoded));
    let details = NotificationDetails { event_type: None, event: None };
    assert_eq!(NotificationDetails::decode(&details.encode()), Ok(details));
}

#[test]
fn message_and_container_round_trip() {
    let message = Message { text: Some(name("a")), html: Some(name("<i>a</i>")), markdown: None };
    assert_eq!(Message::decode(&message.encode()), Ok(message));
    let container = Container { id: Uuid { bits: u128::MAX }, base_url: Some(name("https://x/")) };
    assert_eq!(Container::decode(&container.encode()), Ok(container));
}

#[test]
fn scalars_are_written_as_they_are_and_null_where_missing() {
    assert_eq!(encode_text(&None), Json::Null);
    assert_eq!(encode_text(&Some(name("x"))), text("x"));
    assert_eq!(encode_unsigned(&None), Json::Null);
    assert_eq!(encode_unsigned(&Some(u64::MAX)), Json::Uint(u64::MAX));
    assert_eq!(encode_uuid(&None), Json::Null);
    assert_eq!(
        encode_uuid(&Some(Uuid { bits: 0xff })),
        text("00000000-0000-0000-0000-0000000000ff")
    );
    assert_eq!(encode_time(&None), Json::Null);
    assert_eq!(
        encode_time(&Timestamp::parse("2023-06-30T17:24:41+02:00")),
        text("2023-06-30T15:24:41Z")
    );
    assert_eq!(encode_containers(&vec![]), Json::Object(vec![]));
    assert_eq!(Message::encode_optional(&None), Json::Null);
}

#[test]
fn later_member_of_a_name_counts() {
    let document = Json::Object(vec![
        (name("id"), text("00000000-0000-0000-0000-000000000001")),
        (name("eventType"), text("first")),
        (name("eventType"), text("second")),
        (name("id"), text("00000000-0000-0000-0000-000000000002")),
    ]);
    let event = Event::decode(&document).expect("an event");
    assert_eq!(event.id, Uuid { bits: 2 });
    assert_eq!(event.event_type, "second");
}

#[test]
fn clone_of_a_document_is_equal_to_it() {
    let document = Json::parse(EVENT).expect("a document");
    assert_eq!(document.clone(), document);
    assert!(document.is_object());
    assert!(!document.is_null());
    assert_eq!(document.get("notificationId").and_then(|n| n.as_u64()), Some(41));
}
