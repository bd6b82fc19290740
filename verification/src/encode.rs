//! Events and notifications as JSON documents, and back again.
//!
//! Every member is written, a missing one as `null`. What is written is read
//! back as the value it was written from.

use vstd::prelude::*;
use crate::event::{
    container_of, containers_of, containers_member, details_of, event_of, message_member, message_of,
    notification_of, Container, ContainerView, Event, EventView, Message, MessageView, Notification,
    NotificationDetails, NotificationDetailsView, NotificationView,
};
use crate::ident::{hyphenated, reads_back, Uuid};
use crate::json::{find, members_view, Json, JsonValue};
use crate::time::Timestamp;

verus! {

/// A text that may be missing, as a document.
pub open spec fn text_json(text: Option<Seq<char>>) -> JsonValue {
    match text {
        Some(text) => JsonValue::Text(text),
        None => JsonValue::Null,
    }
}

/// A UUID that may be missing, as a document: its canonical text.
pub open spec fn uuid_json(id: Option<u128>) -> JsonValue {
    match id {
        Some(id) => JsonValue::Text(hyphenated(id)),
        None => JsonValue::Null,
    }
}

/// A number that may be missing, as a document.
pub open spec fn unsigned_json(number: Option<u64>) -> JsonValue {
    match number {
        Some(number) => JsonValue::Integer(number as int),
        None => JsonValue::Null,
    }
}

/// A message as a document.
pub open spec fn message_json(message: MessageView) -> JsonValue {
    JsonValue::Object(
        seq![
            ("text"@, text_json(message.text)),
            ("html"@, text_json(message.html)),
            ("markdown"@, text_json(message.markdown)),
        ],
    )
}

/// A message that may be missing, as a document.
pub open spec fn optional_message_json(message: Option<MessageView>) -> JsonValue {
    match message {
        Some(message) => message_json(message),
        None => JsonValue::Null,
    }
}

/// A container reference as a document.
pub open spec fn container_json(container: ContainerView) -> JsonValue {
    JsonValue::Object(
        seq![("id"@, uuid_json(Some(container.id))), ("baseUrl"@, text_json(container.base_url))],
    )
}

/// Container references by name, as a document.
pub open spec fn containers_json(containers: Seq<(Seq<char>, ContainerView)>) -> JsonValue {
    JsonValue::Object(
        Seq::new(containers.len(), |i: int| (containers[i].0, container_json(containers[i].1))),
    )
}

/// A document that may be missing, as a document.
pub open spec fn optional_json(document: Option<JsonValue>) -> JsonValue {
    match document {
        Some(document) => document,
        None => JsonValue::Null,
    }
}

/// An event as a document.
pub open spec fn event_json(event: EventView) -> JsonValue {
    JsonValue::Object(
        seq![
            ("id"@, uuid_json(Some(event.id))),
            ("subscriptionId"@, uuid_json(event.subscription_id)),
            ("notificationId"@, unsigned_json(event.notification_id)),
            ("eventType"@, JsonValue::Text(event.event_type)),
            ("publisherId"@, text_json(event.publisher_id)),
            ("message"@, optional_message_json(event.message)),
            ("detailedMessage"@, optional_message_json(event.detailed_message)),
            ("resource"@, optional_json(event.resource)),
            ("resourceVersion"@, text_json(event.resource_version)),
            ("resourceContainers"@, containers_json(event.resource_containers)),
            ("createdDate"@, text_json(event.created_date)),
        ],
    )
}

/// An event that may be missing, as a document.
pub open spec fn optional_event_json(event: Option<EventView>) -> JsonValue {
    match event {
        Some(event) => event_json(event),
        None => JsonValue::Null,
    }
}

/// The details of a notification as a document.
pub open spec fn details_json(details: NotificationDetailsView) -> JsonValue {
    JsonValue::Object(
        seq![
            ("eventType"@, text_json(details.event_type)),
            ("event"@, optional_event_json(details.event)),
        ],
    )
}

/// Details that may be missing, as a document.
pub open spec fn optional_details_json(details: Option<NotificationDetailsView>) -> JsonValue {
    match details {
        Some(details) => details_json(details),
        None => JsonValue::Null,
    }
}

/// A notification as a document.
pub open spec fn notification_json(notification: NotificationView) -> JsonValue {
    JsonValue::Object(
        seq![
            ("id"@, unsigned_json(notification.id)),
            ("subscriptionId"@, uuid_json(notification.subscription_id)),
            ("subscriberId"@, uuid_json(notification.subscriber_id)),
            ("eventId"@, uuid_json(notification.event_id)),
            ("status"@, text_json(notification.status)),
            ("result"@, text_json(notification.result)),
            ("createdDate"@, text_json(notification.created_date)),
            ("modifiedDate"@, text_json(notification.modified_date)),
            ("details"@, optional_details_json(notification.details)),
        ],
    )
}

/// A member whose name no later member has is the one that is found.
pub proof fn lemma_find_last<V>(members: Seq<(Seq<char>, V)>, i: int)
    requires
        0 <= i < members.len(),
        forall|j: int| i < j < members.len() ==> (#[trigger] members[j]).0 != members[i].0,
    ensures
        find(members, members[i].0) == Some(members[i].1),
    decreases members.len(),
{
    if i < members.len() - 1 {
        assert(members.last() == members[members.len() - 1]);
        let shorter = members.drop_last();
        assert(shorter[i] == members[i]);
        assert forall|j: int| i < j < shorter.len() implies (#[trigger] shorter[j]).0 != shorter[i].0 by {
            assert(shorter[j] == members[j]);
        }
        lemma_find_last(shorter, i);
    }
}

/// The names of a message's members differ from one another.
proof fn lemma_message_names()
    ensures
        "text"@ != "html"@,
        "text"@ != "markdown"@,
        "html"@ != "markdown"@,
{
    reveal_strlit("text");
    reveal_strlit("html");
    reveal_strlit("markdown");
    assert("text"@[0] != "html"@[0]);
}

/// A message that is written is read back as it was.
pub proof fn lemma_message_round_trip(message: MessageView)
    ensures
        message_of(message_json(message)) == Some(message),
{
    lemma_message_names();
    let members = seq![
        ("text"@, text_json(message.text)),
        ("html"@, text_json(message.html)),
        ("markdown"@, text_json(message.markdown)),
    ];
    lemma_find_last(members, 0);
    lemma_find_last(members, 1);
    lemma_find_last(members, 2);
}

/// A container reference that is written is read back as it was.
pub proof fn lemma_container_round_trip(container: ContainerView)
    requires
        reads_back(container.id),
    ensures
        container_of(container_json(container)) == Some(container),
{
    reveal_strlit("id");
    reveal_strlit("baseUrl");
    assert("id"@.len() != "baseUrl"@.len());
    let members = seq![
        ("id"@, uuid_json(Some(container.id))),
        ("baseUrl"@, text_json(container.base_url)),
    ];
    lemma_find_last(members, 0);
    lemma_find_last(members, 1);
}

/// Whether the canonical text of every id among container references is
/// read back as that id.
pub open spec fn containers_read_back(containers: Seq<(Seq<char>, ContainerView)>) -> bool {
    forall|i: int| 0 <= i < containers.len() ==> reads_back((#[trigger] containers[i]).1.id)
}

/// Container references that are written are read back as they were.
pub proof fn lemma_containers_round_trip(containers: Seq<(Seq<char>, ContainerView)>)
    requires
        containers_read_back(containers),
    ensures
        containers_of(containers_json(containers)) == Some(containers),
{
    let members = Seq::new(
        containers.len(),
        |i: int| (containers[i].0, container_json(containers[i].1)),
    );
    assert forall|i: int| 0 <= i < members.len() implies container_of(#[trigger] members[i].1) == Some(
        containers[i].1,
    ) by {
        lemma_container_round_trip(containers[i].1);
    }
    assert(containers_of(containers_json(containers)).unwrap() =~= containers);
}

/// Whether the canonical text of every id in an event is read back as that
/// id.
pub open spec fn event_reads_back(event: EventView) -> bool {
    &&& reads_back(event.id)
    &&& event.subscription_id matches Some(id) ==> reads_back(id)
    &&& containers_read_back(event.resource_containers)
}

/// The names of an event's members differ from one another.
proof fn lemma_event_names()
    ensures
        "subscriptionId"@ != "notificationId"@,
        "publisherId"@ != "createdDate"@,
        "detailedMessage"@ != "resourceVersion"@,
        "id"@.len() == 2,
        "subscriptionId"@.len() == 14,
        "notificationId"@.len() == 14,
        "eventType"@.len() == 9,
        "publisherId"@.len() == 11,
        "message"@.len() == 7,
        "detailedMessage"@.len() == 15,
        "resource"@.len() == 8,
        "resourceVersion"@.len() == 15,
        "resourceContainers"@.len() == 18,
        "createdDate"@.len() == 11,
{
    reveal_strlit("id");
    reveal_strlit("subscriptionId");
    reveal_strlit("notificationId");
    reveal_strlit("eventType");
    reveal_strlit("publisherId");
    reveal_strlit("message");
    reveal_strlit("detailedMessage");
    reveal_strlit("resource");
    reveal_strlit("resourceVersion");
    reveal_strlit("resourceContainers");
    reveal_strlit("createdDate");
    assert("subscriptionId"@[0] != "notificationId"@[0]);
    assert("publisherId"@[0] != "createdDate"@[0]);
    assert("detailedMessage"@[0] != "resourceVersion"@[0]);
}

/// An event that is written is read back as it was: decoding what `encode`
/// gives for a well-formed event gives that event, field for field.
pub proof fn lemma_event_round_trip(event: EventView)
    requires
        event.wf(),
        event_reads_back(event),
    ensures
        event_of(event_json(event)) == Some(event),
{
    lemma_event_names();
    let members = seq![
        ("id"@, uuid_json(Some(event.id))),
        ("subscriptionId"@, uuid_json(event.subscription_id)),
        ("notificationId"@, unsigned_json(event.notification_id)),
        ("eventType"@, JsonValue::Text(event.event_type)),
        ("publisherId"@, text_json(event.publisher_id)),
        ("message"@, optional_message_json(event.message)),
        ("detailedMessage"@, optional_message_json(event.detailed_message)),
        ("resource"@, optional_json(event.resource)),
        ("resourceVersion"@, text_json(event.resource_version)),
        ("resourceContainers"@, containers_json(event.resource_containers)),
        ("createdDate"@, text_json(event.created_date)),
    ];
    let document = event_json(event);
    assert(document == JsonValue::Object(members));
    lemma_find_last(members, 0);
    lemma_find_last(members, 1);
    lemma_find_last(members, 2);
    lemma_find_last(members, 3);
    lemma_find_last(members, 4);
    lemma_find_last(members, 5);
    lemma_find_last(members, 6);
    lemma_find_last(members, 7);
    lemma_find_last(members, 8);
    lemma_find_last(members, 9);
    lemma_find_last(members, 10);
    if event.message is Some {
        lemma_message_round_trip(event.message.unwrap());
    }
    if event.detailed_message is Some {
        lemma_message_round_trip(event.detailed_message.unwrap());
    }
    lemma_containers_round_trip(event.resource_containers);
    assert(document.required_uuid("id"@) == Some(event.id));
    assert(document.optional_uuid("subscriptionId"@) == Some(event.subscription_id));
    assert(document.optional_unsigned("notificationId"@) == Some(event.notification_id));
    assert(document.required_text("eventType"@) == Some(event.event_type));
    assert(document.optional_text("publisherId"@) == Some(event.publisher_id));
    assert(message_member(document, "message"@) == Some(event.message));
    assert(message_member(document, "detailedMessage"@) == Some(event.detailed_message));
    assert(document.optional_text("resourceVersion"@) == Some(event.resource_version));
    assert(containers_member(document) == Some(event.resource_containers));
    assert(document.optional_time("createdDate"@) == Some(event.created_date));
    assert(document.present("resource"@) == event.resource);
}

/// Whether the canonical text of every id in a notification is read back
/// as that id.
pub open spec fn notification_reads_back(notification: NotificationView) -> bool {
    &&& notification.subscription_id matches Some(id) ==> reads_back(id)
    &&& notification.subscriber_id matches Some(id) ==> reads_back(id)
    &&& notification.event_id matches Some(id) ==> reads_back(id)
    &&& notification.details matches Some(details) ==> (details.event matches Some(event)
        ==> event_reads_back(event))
}

/// The details of a notification that are written are read back as they
/// were.
pub proof fn lemma_details_round_trip(details: NotificationDetailsView)
    requires
        details.event matches Some(event) ==> event.wf() && event_reads_back(event),
    ensures
        details_of(details_json(details)) == Some(details),
{
    reveal_strlit("eventType");
    reveal_strlit("event");
    assert("eventType"@.len() != "event"@.len());
    let members = seq![
        ("eventType"@, text_json(details.event_type)),
        ("event"@, optional_event_json(details.event)),
    ];
    lemma_find_last(members, 0);
    lemma_find_last(members, 1);
    if details.event is Some {
        lemma_event_round_trip(details.event.unwrap());
    }
}

/// The names of a notification's members differ from one another.
proof fn lemma_notification_names()
    ensures
        "subscriberId"@ != "modifiedDate"@,
        "eventId"@ != "details"@,
        "status"@ != "result"@,
        "id"@.len() == 2,
        "subscriptionId"@.len() == 14,
        "subscriberId"@.len() == 12,
        "eventId"@.len() == 7,
        "status"@.len() == 6,
        "result"@.len() == 6,
        "createdDate"@.len() == 11,
        "modifiedDate"@.len() == 12,
        "details"@.len() == 7,
{
    reveal_strlit("id");
    reveal_strlit("subscriptionId");
    reveal_strlit("subscriberId");
    reveal_strlit("eventId");
    reveal_strlit("status");
    reveal_strlit("result");
    reveal_strlit("createdDate");
    reveal_strlit("modifiedDate");
    reveal_strlit("details");
    assert("subscriberId"@[0] != "modifiedDate"@[0]);
    assert("eventId"@[0] != "details"@[0]);
    assert("status"@[0] != "result"@[0]);
}

/// A notification that is written is read back as it was.
pub proof fn lemma_notification_round_trip(notification: NotificationView)
    requires
        notification.wf(),
        notification_reads_back(notification),
    ensures
        notification_of(notification_json(notification)) == Some(notification),
{
    lemma_notification_names();
    let members = seq![
        ("id"@, unsigned_json(notification.id)),
        ("subscriptionId"@, uuid_json(notification.subscription_id)),
        ("subscriberId"@, uuid_json(notification.subscriber_id)),
        ("eventId"@, uuid_json(notification.event_id)),
        ("status"@, text_json(notification.status)),
        ("result"@, text_json(notification.result)),
        ("createdDate"@, text_json(notification.created_date)),
        ("modifiedDate"@, text_json(notification.modified_date)),
        ("details"@, optional_details_json(notification.details)),
    ];
    let document = notification_json(notification);
    assert(document == JsonValue::Object(members));
    lemma_find_last(members, 0);
    lemma_find_last(members, 1);
    lemma_find_last(members, 2);
    lemma_find_last(members, 3);
    lemma_find_last(members, 4);
    lemma_find_last(members, 5);
    lemma_find_last(members, 6);
    lemma_find_last(members, 7);
    lemma_find_last(members, 8);
    if notification.details is Some {
        lemma_details_round_trip(notification.details.unwrap());
    }
    assert(document.optional_unsigned("id"@) == Some(notification.id));
    assert(document.optional_uuid("subscriptionId"@) == Some(notification.subscription_id));
    assert(document.optional_uuid("subscriberId"@) == Some(notification.subscriber_id));
    assert(document.optional_uuid("eventId"@) == Some(notification.event_id));
    assert(document.optional_text("status"@) == Some(notification.status));
    assert(document.optional_text("result"@) == Some(notification.result));
    assert(document.optional_time("createdDate"@) == Some(notification.created_date));
    assert(document.optional_time("modifiedDate"@) == Some(notification.modified_date));
    assert(crate::event::details_member(document) == Some(notification.details));
}

/// Writes a text that may be missing.
pub fn encode_text(text: &Option<String>) -> (document: Json)
    ensures
        document@ == text_json(text.deep_view()),
{
    match text {
        Some(text) => Json::Text(text.clone()),
        None => Json::Null,
    }
}

/// Writes a UUID that may be missing.
pub fn encode_uuid(id: &Option<Uuid>) -> (document: Json)
    ensures
        document@ == uuid_json(id.deep_view()),
        id matches Some(id) ==> reads_back(id.bits),
{
    match id {
        Some(id) => Json::Text(id.to_text()),
        None => Json::Null,
    }
}

/// Writes a number that may be missing.
pub fn encode_unsigned(number: &Option<u64>) -> (document: Json)
    ensures
        document@ == unsigned_json(*number),
{
    match number {
        Some(number) => Json::Uint(*number),
        None => Json::Null,
    }
}

/// Writes a point in time that may be missing.
pub fn encode_time(at: &Option<Timestamp>) -> (document: Json)
    ensures
        document@ == text_json(at.deep_view()),
{
    match at {
        Some(at) => Json::Text(String::from_str(at.as_str())),
        None => Json::Null,
    }
}

/// Makes one member of an object.
fn member(name: &str, value: Json) -> (member: (String, Json))
    ensures
        member.0@ == name@,
        member.1 == value,
{
    (String::from_str(name), value)
}

impl Message {
    /// Writes the message as a document.
    pub fn encode(&self) -> (document: Json)
        ensures
            document@ == message_json(self@),
            message_of(document@) == Some(self@),
    {
        let mut members: Vec<(String, Json)> = Vec::new();
        members.push(member("text", encode_text(&self.text)));
        members.push(member("html", encode_text(&self.html)));
        members.push(member("markdown", encode_text(&self.markdown)));
        proof {
            assert(members_view(members@) =~= seq![
                ("text"@, text_json(self@.text)),
                ("html"@, text_json(self@.html)),
                ("markdown"@, text_json(self@.markdown)),
            ]);
            lemma_message_round_trip(self@);
        }
        Json::Object(members)
    }

    /// Writes a message that may be missing.
    pub fn encode_optional(message: &Option<Message>) -> (document: Json)
        ensures
            document@ == optional_message_json(message.deep_view()),
    {
        match message {
            Some(message) => message.encode(),
            None => Json::Null,
        }
    }
}

impl Container {
    /// Writes the container reference as a document.
    pub fn encode(&self) -> (document: Json)
        ensures
            document@ == container_json(self@),
            reads_back(self.id.bits),
            container_of(document@) == Some(self@),
    {
        let mut members: Vec<(String, Json)> = Vec::new();
        members.push(member("id", encode_uuid(&Some(self.id))));
        members.push(member("baseUrl", encode_text(&self.base_url)));
        proof {
            assert(members_view(members@) =~= seq![
                ("id"@, uuid_json(Some(self@.id))),
                ("baseUrl"@, text_json(self@.base_url)),
            ]);
            lemma_container_round_trip(self@);
        }
        Json::Object(members)
    }
}

/// Writes container references by name as a document.
pub fn encode_containers(containers: &Vec<(String, Container)>) -> (document: Json)
    ensures
        document@ == containers_json(containers.deep_view()),
        containers_read_back(containers.deep_view()),
{
    let ghost model = containers.deep_view();
    let mut members: Vec<(String, Json)> = Vec::new();
    let mut i: usize = 0;
    while i < containers.len()
        invariant
            i <= containers.len(),
            members.len() == i,
            model == containers.deep_view(),
            forall|k: int| 0 <= k < i ==> reads_back((#[trigger] model[k]).1.id),
            forall|k: int|
                0 <= k < i ==> (#[trigger] members@[k]).0@ == model[k].0 && members@[k].1@
                    == container_json(model[k].1),
        decreases containers.len() - i,
    {
        let entry = &containers[i];
        assert(model[i as int] == (entry.0@, entry.1@));
        members.push((entry.0.clone(), entry.1.encode()));
        i = i + 1;
    }
    assert(members_view(members@) =~= Seq::new(
        model.len(),
        |i: int| (model[i].0, container_json(model[i].1)),
    ));
    Json::Object(members)
}

impl Event {
    /// Writes the event as a document, every member of it. Decoding the
    /// document gives the event back, where the event is well-formed, as
    /// every decoded event is.
    pub fn encode(&self) -> (document: Json)
        ensures
            document@ == event_json(self@),
            event_reads_back(self@),
            self@.wf() ==> event_of(document@) == Some(self@),
    {
        let mut members: Vec<(String, Json)> = Vec::new();
        members.push(member("id", encode_uuid(&Some(self.id))));
        members.push(member("subscriptionId", encode_uuid(&self.subscription_id)));
        members.push(member("notificationId", encode_unsigned(&self.notification_id)));
        members.push(member("eventType", Json::Text(self.event_type.clone())));
        members.push(member("publisherId", encode_text(&self.publisher_id)));
        members.push(member("message", Message::encode_optional(&self.message)));
        members.push(member("detailedMessage", Message::encode_optional(&self.detailed_message)));
        members.push(
            member(
                "resource",
                match &self.resource {
                    Some(resource) => resource.clone(),
                    None => Json::Null,
                },
            ),
        );
        members.push(member("resourceVersion", encode_text(&self.resource_version)));
        members.push(member("resourceContainers", encode_containers(&self.resource_containers)));
        members.push(member("createdDate", encode_time(&self.created_date)));
        proof {
            let event = self@;
            assert(members_view(members@) =~= seq![
                ("id"@, uuid_json(Some(event.id))),
                ("subscriptionId"@, uuid_json(event.subscription_id)),
                ("notificationId"@, unsigned_json(event.notification_id)),
                ("eventType"@, JsonValue::Text(event.event_type)),
                ("publisherId"@, text_json(event.publisher_id)),
                ("message"@, optional_message_json(event.message)),
                ("detailedMessage"@, optional_message_json(event.detailed_message)),
                ("resource"@, optional_json(event.resource)),
                ("resourceVersion"@, text_json(event.resource_version)),
                ("resourceContainers"@, containers_json(event.resource_containers)),
                ("createdDate"@, text_json(event.created_date)),
            ]);
            if event.wf() {
                lemma_event_round_trip(event);
            }
        }
        Json::Object(members)
    }
}

impl NotificationDetails {
    /// Writes the details as a document.
    pub fn encode(&self) -> (document: Json)
        ensures
            document@ == details_json(self@),
            self@.event matches Some(event) ==> event_reads_back(event),
    {
        let mut members: Vec<(String, Json)> = Vec::new();
        members.push(member("eventType", encode_text(&self.event_type)));
        let event = match &self.event {
            Some(event) => event.encode(),
            None => Json::Null,
        };
        assert(event@ == optional_event_json(self@.event));
        members.push(member("event", event));
        proof {
            assert(members_view(members@) =~= seq![
                ("eventType"@, text_json(self@.event_type)),
                ("event"@, optional_event_json(self@.event)),
            ]);
        }
        Json::Object(members)
    }
}

impl Notification {
    /// Writes the notification as a document, every member of it. Decoding
    /// the document gives the notification back, where the notification is
    /// well-formed, as every decoded notification is.
    pub fn encode(&self) -> (document: Json)
        ensures
            document@ == notification_json(self@),
            self@.wf() ==> notification_of(document@) == Some(self@),
    {
        let mut members: Vec<(String, Json)> = Vec::new();
        members.push(member("id", encode_unsigned(&self.id)));
        members.push(member("subscriptionId", encode_uuid(&self.subscription_id)));
        members.push(member("subscriberId", encode_uuid(&self.subscriber_id)));
        members.push(member("eventId", encode_uuid(&self.event_id)));
        members.push(member("status", encode_text(&self.status)));
        members.push(member("result", encode_text(&self.result)));
        members.push(member("createdDate", encode_time(&self.created_date)));
        members.push(member("modifiedDate", encode_time(&self.modified_date)));
        let details = match &self.details {
            Some(details) => details.encode(),
            None => Json::Null,
        };
        assert(details@ == optional_details_json(self@.details));
        members.push(member("details", details));
        proof {
            let notification = self@;
            assert(members_view(members@) =~= seq![
                ("id"@, unsigned_json(notification.id)),
                ("subscriptionId"@, uuid_json(notification.subscription_id)),
                ("subscriberId"@, uuid_json(notification.subscriber_id)),
                ("eventId"@, uuid_json(notification.event_id)),
                ("status"@, text_json(notification.status)),
                ("result"@, text_json(notification.result)),
                ("createdDate"@, text_json(notification.created_date)),
                ("modifiedDate"@, text_json(notification.modified_date)),
                ("details"@, optional_details_json(notification.details)),
            ]);
            if notification.wf() {
                lemma_notification_round_trip(notification);
            }
        }
        Json::Object(members)
    }
}

} // verus!
