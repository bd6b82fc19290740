//! The notification envelope and the event inside it.

use vstd::prelude::*;
use crate::error::{agrees, Error};
use crate::ident::Uuid;
use crate::json::{find, get_named, members_view, Json, JsonValue};
use crate::resource::build_complete_of;
use crate::time::{is_canonical_time, Timestamp};

verus! {

/// One human-readable rendering of what happened, in three formats.
/// Decorative only: each format may be missing.
#[derive(Clone, Debug, PartialEq, Eq)]
pub struct Message {
    pub text: Option<String>,
    pub html: Option<String>,
    pub markdown: Option<String>,
}

/// The model of a [`Message`].
pub struct MessageView {
    pub text: Option<Seq<char>>,
    pub html: Option<Seq<char>>,
    pub markdown: Option<Seq<char>>,
}

impl DeepView for Message {
    type V = MessageView;

    open spec fn deep_view(&self) -> MessageView {
        MessageView {
            text: self.text.deep_view(),
            html: self.html.deep_view(),
            markdown: self.markdown.deep_view(),
        }
    }
}

impl View for Message {
    type V = MessageView;

    open spec fn view(&self) -> MessageView {
        self.deep_view()
    }
}

/// A reference to a container that scopes the resource: a collection, an
/// account or a project.
#[derive(Clone, Debug, PartialEq, Eq)]
pub struct Container {
    pub id: Uuid,
    pub base_url: Option<String>,
}

/// The model of a [`Container`].
pub struct ContainerView {
    pub id: u128,
    pub base_url: Option<Seq<char>>,
}

impl DeepView for Container {
    type V = ContainerView;

    open spec fn deep_view(&self) -> ContainerView {
        ContainerView { id: self.id.bits, base_url: self.base_url.deep_view() }
    }
}

impl View for Container {
    type V = ContainerView;

    open spec fn view(&self) -> ContainerView {
        self.deep_view()
    }
}

/// What happened: the unit that is verified and dispatched.
///
/// Only the id and the type tag are always there. The subscription id and
/// the notification id are kept as options, so that an event without them
/// can be told from one that has them: verification depends on it.
#[derive(Clone, Debug, PartialEq, Eq)]
pub struct Event {
    pub id: Uuid,
    pub subscription_id: Option<Uuid>,
    pub notification_id: Option<u64>,
    pub event_type: String,
    pub publisher_id: Option<String>,
    pub message: Option<Message>,
    pub detailed_message: Option<Message>,
    /// The payload, whose shape depends on `event_type`. It is kept as a
    /// document; the handler for the event's type decodes it.
    pub resource: Option<Json>,
    pub resource_version: Option<String>,
    pub resource_containers: Vec<(String, Container)>,
    pub created_date: Option<Timestamp>,
}

/// The model of an [`Event`].
pub struct EventView {
    pub id: u128,
    pub subscription_id: Option<u128>,
    pub notification_id: Option<u64>,
    pub event_type: Seq<char>,
    pub publisher_id: Option<Seq<char>>,
    pub message: Option<MessageView>,
    pub detailed_message: Option<MessageView>,
    pub resource: Option<JsonValue>,
    pub resource_version: Option<Seq<char>>,
    pub resource_containers: Seq<(Seq<char>, ContainerView)>,
    pub created_date: Option<Seq<char>>,
}

impl DeepView for Event {
    type V = EventView;

    open spec fn deep_view(&self) -> EventView {
        EventView {
            id: self.id.bits,
            subscription_id: self.subscription_id.deep_view(),
            notification_id: self.notification_id,
            event_type: self.event_type@,
            publisher_id: self.publisher_id.deep_view(),
            message: self.message.deep_view(),
            detailed_message: self.detailed_message.deep_view(),
            resource: self.resource.deep_view(),
            resource_version: self.resource_version.deep_view(),
            resource_containers: self.resource_containers.deep_view(),
            created_date: self.created_date.deep_view(),
        }
    }
}

impl View for Event {
    type V = EventView;

    open spec fn view(&self) -> EventView {
        self.deep_view()
    }
}

/// What a notification says of the event it delivers.
#[derive(Clone, Debug, PartialEq, Eq)]
pub struct NotificationDetails {
    pub event_type: Option<String>,
    /// The event itself. The platform's documentation has it always there;
    /// observed traffic does not.
    pub event: Option<Event>,
}

/// The model of a [`NotificationDetails`].
pub struct NotificationDetailsView {
    pub event_type: Option<Seq<char>>,
    pub event: Option<EventView>,
}

impl DeepView for NotificationDetails {
    type V = NotificationDetailsView;

    open spec fn deep_view(&self) -> NotificationDetailsView {
        NotificationDetailsView {
            event_type: self.event_type.deep_view(),
            event: self.event.deep_view(),
        }
    }
}

impl View for NotificationDetails {
    type V = NotificationDetailsView;

    open spec fn view(&self) -> NotificationDetailsView {
        self.deep_view()
    }
}

/// The envelope in which the platform delivers, and records, an event for a
/// subscription.
#[derive(Clone, Debug, PartialEq, Eq)]
pub struct Notification {
    pub id: Option<u64>,
    pub subscription_id: Option<Uuid>,
    pub subscriber_id: Option<Uuid>,
    pub event_id: Option<Uuid>,
    pub status: Option<String>,
    pub result: Option<String>,
    pub created_date: Option<Timestamp>,
    pub modified_date: Option<Timestamp>,
    pub details: Option<NotificationDetails>,
}

/// The model of a [`Notification`].
pub struct NotificationView {
    pub id: Option<u64>,
    pub subscription_id: Option<u128>,
    pub subscriber_id: Option<u128>,
    pub event_id: Option<u128>,
    pub status: Option<Seq<char>>,
    pub result: Option<Seq<char>>,
    pub created_date: Option<Seq<char>>,
    pub modified_date: Option<Seq<char>>,
    pub details: Option<NotificationDetailsView>,
}

impl DeepView for Notification {
    type V = NotificationView;

    open spec fn deep_view(&self) -> NotificationView {
        NotificationView {
            id: self.id,
            subscription_id: self.subscription_id.deep_view(),
            subscriber_id: self.subscriber_id.deep_view(),
            event_id: self.event_id.deep_view(),
            status: self.status.deep_view(),
            result: self.result.deep_view(),
            created_date: self.created_date.deep_view(),
            modified_date: self.modified_date.deep_view(),
            details: self.details.deep_view(),
        }
    }
}

impl View for Notification {
    type V = NotificationView;

    open spec fn view(&self) -> NotificationView {
        self.deep_view()
    }
}

/// The type tag of the events that report a finished build.
pub open spec fn build_complete_tag() -> Seq<char> {
    "build.complete"@
}

impl EventView {
    /// Whether the resource has the shape that the type tag calls for: a
    /// `build.complete` event that carries a resource carries a
    /// build-completion resource. No other tag calls for a shape.
    pub open spec fn resource_fits(self) -> bool {
        self.event_type == build_complete_tag() ==> (self.resource matches Some(resource)
            ==> build_complete_of(resource) is Some)
    }

    /// What holds of every decoded event: the resource fits the type tag, a
    /// resource that is there is not `null`, and the creation time is in
    /// canonical form.
    pub open spec fn wf(self) -> bool {
        &&& self.resource_fits()
        &&& self.resource matches Some(resource) ==> !(resource is Null)
        &&& self.created_date matches Some(at) ==> is_canonical_time(at)
    }
}

impl NotificationView {
    /// The event's id beside the envelope is the id of the event inside it,
    /// where both are there.
    pub open spec fn consistent(self) -> bool {
        self.event_id matches Some(outer) ==> (self.details matches Some(details) ==> (
        details.event matches Some(event) ==> event.id == outer))
    }

    /// What holds of every decoded notification.
    pub open spec fn wf(self) -> bool {
        &&& self.consistent()
        &&& self.created_date matches Some(at) ==> is_canonical_time(at)
        &&& self.modified_date matches Some(at) ==> is_canonical_time(at)
        &&& self.details matches Some(details) ==> (details.event matches Some(event) ==> event.wf())
    }
}

/// The message that a document stands for: an object whose three formats,
/// where they are there, are strings.
pub open spec fn message_of(document: JsonValue) -> Option<MessageView> {
    match (
        document is Object,
        document.optional_text("text"@),
        document.optional_text("html"@),
        document.optional_text("markdown"@),
    ) {
        (true, Some(text), Some(html), Some(markdown)) => Some(MessageView { text, html, markdown }),
        _ => None,
    }
}

/// The message in the member `name`, which may be missing.
pub open spec fn message_member(document: JsonValue, name: Seq<char>) -> Option<Option<MessageView>> {
    match document.present(name) {
        None => Some(None),
        Some(member) => match message_of(member) {
            Some(message) => Some(Some(message)),
            None => None,
        },
    }
}

/// The container reference that a document stands for: an object with an
/// `id`, and a `baseUrl` that may be missing.
pub open spec fn container_of(document: JsonValue) -> Option<ContainerView> {
    match (document.required_uuid("id"@), document.optional_text("baseUrl"@)) {
        (Some(id), Some(base_url)) => Some(ContainerView { id, base_url }),
        _ => None,
    }
}

/// The container references that a document stands for: an object each of
/// whose members is one.
pub open spec fn containers_of(document: JsonValue) -> Option<Seq<(Seq<char>, ContainerView)>> {
    match document {
        JsonValue::Object(members) => if forall|i: int|
            0 <= i < members.len() ==> container_of(#[trigger] members[i].1) is Some {
            Some(
                Seq::new(members.len(), |i: int| (members[i].0, container_of(members[i].1).unwrap())),
            )
        } else {
            None
        },
        _ => None,
    }
}

/// The container references of an event: none where the member is missing.
pub open spec fn containers_member(document: JsonValue) -> Option<Seq<(Seq<char>, ContainerView)>> {
    match document.present("resourceContainers"@) {
        None => Some(Seq::empty()),
        Some(containers) => containers_of(containers),
    }
}

/// The event that a document stands for, or nothing where the document is
/// malformed: where `id` or `eventType` is missing, where a member that is
/// there does not have the shape of its type, or where the resource does not
/// fit the type tag. Members that are not named here are passed over.
pub open spec fn event_of(document: JsonValue) -> Option<EventView> {
    match (
        document.required_uuid("id"@),
        document.optional_uuid("subscriptionId"@),
        document.optional_unsigned("notificationId"@),
        document.required_text("eventType"@),
        document.optional_text("publisherId"@),
        message_member(document, "message"@),
        message_member(document, "detailedMessage"@),
        document.optional_text("resourceVersion"@),
        containers_member(document),
        document.optional_time("createdDate"@),
    ) {
        (
            Some(id),
            Some(subscription_id),
            Some(notification_id),
            Some(event_type),
            Some(publisher_id),
            Some(message),
            Some(detailed_message),
            Some(resource_version),
            Some(resource_containers),
            Some(created_date),
        ) => {
            let event = EventView {
                id,
                subscription_id,
                notification_id,
                event_type,
                publisher_id,
                message,
                detailed_message,
                resource: document.present("resource"@),
                resource_version,
                resource_containers,
                created_date,
            };
            if event.resource_fits() {
                Some(event)
            } else {
                None
            }
        },
        _ => None,
    }
}

/// The event in the member `event`, which may be missing.
pub open spec fn event_member(document: JsonValue) -> Option<Option<EventView>> {
    match document.present("event"@) {
        None => Some(None),
        Some(member) => match event_of(member) {
            Some(event) => Some(Some(event)),
            None => None,
        },
    }
}

/// The details that a document stands for: an object whose members, where
/// they are there, have the shape of their type.
pub open spec fn details_of(document: JsonValue) -> Option<NotificationDetailsView> {
    match (document is Object, document.optional_text("eventType"@), event_member(document)) {
        (true, Some(event_type), Some(event)) => Some(NotificationDetailsView { event_type, event }),
        _ => None,
    }
}

/// The details in the member `details`, which may be missing.
pub open spec fn details_member(document: JsonValue) -> Option<Option<NotificationDetailsView>> {
    match document.present("details"@) {
        None => Some(None),
        Some(member) => match details_of(member) {
            Some(details) => Some(Some(details)),
            None => None,
        },
    }
}

/// The notification that a document stands for, or nothing where the
/// document is malformed: where it is no object, where a member that is there
/// does not have the shape of its type, or where the event's id beside the
/// envelope is not the id of the event inside it. Every member may be
/// missing; members that are not named here are passed over.
pub open spec fn notification_of(document: JsonValue) -> Option<NotificationView> {
    match (
        document is Object,
        document.optional_unsigned("id"@),
        document.optional_uuid("subscriptionId"@),
        document.optional_uuid("subscriberId"@),
        document.optional_uuid("eventId"@),
        document.optional_text("status"@),
        document.optional_text("result"@),
        document.optional_time("createdDate"@),
        document.optional_time("modifiedDate"@),
        details_member(document),
    ) {
        (
            true,
            Some(id),
            Some(subscription_id),
            Some(subscriber_id),
            Some(event_id),
            Some(status),
            Some(result),
            Some(created_date),
            Some(modified_date),
            Some(details),
        ) => {
            let notification = NotificationView {
                id,
                subscription_id,
                subscriber_id,
                event_id,
                status,
                result,
                created_date,
                modified_date,
                details,
            };
            if notification.consistent() {
                Some(notification)
            } else {
                None
            }
        },
        _ => None,
    }
}

/// Whether a type tag is that of a finished build: an exact match, case and all.
pub fn is_build_complete(tag: &str) -> (is: bool)
    ensures
        is == (tag@ == build_complete_tag()),
{
    String::from_str(tag) == String::from_str("build.complete")
}

impl Message {
    /// Decodes a message.
    pub fn decode(document: &Json) -> (message: Result<Message, Error>)
        ensures
            agrees(message, message_of(document@)),
    {
        if !document.is_object() {
            return Err(Error::MalformedPayload);
        }
        let text = document.optional_text("text")?;
        let html = document.optional_text("html")?;
        let markdown = document.optional_text("markdown")?;
        Ok(Message { text, html, markdown })
    }

    /// Decodes the message in the member `name`, which may be missing.
    pub fn decode_member(document: &Json, name: &str) -> (message: Result<Option<Message>, Error>)
        ensures
            agrees(message, message_member(document@, name@)),
    {
        match document.get_present(name) {
            None => Ok(None),
            Some(member) => match Message::decode(member) {
                Ok(message) => Ok(Some(message)),
                Err(error) => Err(error),
            },
        }
    }
}

impl Container {
    /// Decodes a container reference.
    pub fn decode(document: &Json) -> (container: Result<Container, Error>)
        ensures
            agrees(container, container_of(document@)),
    {
        let id = document.required_uuid("id")?;
        let base_url = document.optional_text("baseUrl")?;
        Ok(Container { id, base_url })
    }
}

/// Decodes a set of container references by name.
pub fn decode_containers(document: &Json) -> (containers: Result<Vec<(String, Container)>, Error>)
    ensures
        agrees(containers, containers_of(document@)),
{
    match document {
        Json::Object(members) => {
            let ghost model = members_view(members@);
            let mut containers: Vec<(String, Container)> = Vec::new();
            let mut i: usize = 0;
            while i < members.len()
                invariant
                    i <= members.len(),
                    containers.len() == i,
                    model == members_view(members@),
                    document@ == JsonValue::Object(model),
                    forall|k: int| 0 <= k < i ==> container_of(#[trigger] model[k].1) is Some,
                    forall|k: int|
                        0 <= k < i ==> (#[trigger] containers@[k]).deep_view() == (
                            model[k].0,
                            container_of(model[k].1).unwrap(),
                        ),
                decreases members.len() - i,
            {
                let member = &members[i];
                assert(model[i as int] == (member.0@, member.1@));
                match Container::decode(&member.1) {
                    Ok(container) => {
                        containers.push((member.0.clone(), container));
                    },
                    Err(error) => {
                        assert(container_of(model[i as int].1) is None);
                        return Err(error);
                    },
                }
                i = i + 1;
            }
            assert(containers.deep_view() =~= containers_of(document@).unwrap());
            Ok(containers)
        },
        _ => Err(Error::MalformedPayload),
    }
}

impl Event {
    /// The container reference that goes by `name`, such as `project`.
    pub fn container(&self, name: &str) -> (found: Option<&Container>)
        ensures
            match found {
                Some(container) => find(self@.resource_containers, name@) == Some(container@),
                None => find(self@.resource_containers, name@) is None,
            },
    {
        get_named(&self.resource_containers, name)
    }

    /// Decodes an event. The outcome is the one that `event_of` prescribes;
    /// a decoded event is well-formed.
    pub fn decode(document: &Json) -> (event: Result<Event, Error>)
        ensures
            agrees(event, event_of(document@)),
            event matches Ok(e) ==> e@.wf(),
    {
        let id = document.required_uuid("id")?;
        let subscription_id = document.optional_uuid("subscriptionId")?;
        let notification_id = document.optional_unsigned("notificationId")?;
        let event_type = document.required_text("eventType")?;
        let publisher_id = document.optional_text("publisherId")?;
        let message = Message::decode_member(document, "message")?;
        let detailed_message = Message::decode_member(document, "detailedMessage")?;
        let resource_version = document.optional_text("resourceVersion")?;
        let resource_containers = match document.get_present("resourceContainers") {
            None => Vec::new(),
            Some(containers) => decode_containers(containers)?,
        };
        assert(resource_containers.deep_view() =~= containers_member(document@).unwrap());
        let created_date = document.optional_time("createdDate")?;
        let resource = match document.get_present("resource") {
            None => None,
            Some(resource) => {
                if is_build_complete(event_type.as_str()) {
                    let shape = crate::resource::BuildComplete::decode(resource);
                    if shape.is_err() {
                        return Err(Error::MalformedPayload);
                    }
                }
                Some(resource.clone())
            },
        };
        Ok(
            Event {
                id,
                subscription_id,
                notification_id,
                event_type,
                publisher_id,
                message,
                detailed_message,
                resource,
                resource_version,
                resource_containers,
                created_date,
            },
        )
    }

    /// Reads an event from JSON text: the document that the text holds,
    /// decoded. Text that is no JSON document is malformed too.
    pub fn from_text(text: &str) -> (event: Result<Event, Error>)
        ensures
            agrees(
                event,
                match crate::json::json_parse(text@) {
                    Some(document) => event_of(document),
                    None => None,
                },
            ),
            event matches Ok(e) ==> e@.wf(),
    {
        match Json::parse(text) {
            Some(document) => Event::decode(&document),
            None => Err(Error::MalformedPayload),
        }
    }
}

impl NotificationDetails {
    /// Decodes the details of a notification.
    pub fn decode(document: &Json) -> (details: Result<NotificationDetails, Error>)
        ensures
            agrees(details, details_of(document@)),
            details matches Ok(d) ==> (d@.event matches Some(e) ==> e.wf()),
    {
        if !document.is_object() {
            return Err(Error::MalformedPayload);
        }
        let event_type = document.optional_text("eventType")?;
        let event = match document.get_present("event") {
            None => None,
            Some(member) => Some(Event::decode(member)?),
        };
        Ok(NotificationDetails { event_type, event })
    }
}

impl Notification {
    /// Decodes a notification. The outcome is the one that `notification_of`
    /// prescribes; a decoded notification is well-formed.
    pub fn decode(document: &Json) -> (notification: Result<Notification, Error>)
        ensures
            agrees(notification, notification_of(document@)),
            notification matches Ok(n) ==> n@.wf(),
    {
        if !document.is_object() {
            return Err(Error::MalformedPayload);
        }
        let id = document.optional_unsigned("id")?;
        let subscription_id = document.optional_uuid("subscriptionId")?;
        let subscriber_id = document.optional_uuid("subscriberId")?;
        let event_id = document.optional_uuid("eventId")?;
        let status = document.optional_text("status")?;
        let result = document.optional_text("result")?;
        let created_date = document.optional_time("createdDate")?;
        let modified_date = document.optional_time("modifiedDate")?;
        let details = match document.get_present("details") {
            None => None,
            Some(member) => Some(NotificationDetails::decode(member)?),
        };
        let notification = Notification {
            id,
            subscription_id,
            subscriber_id,
            event_id,
            status,
            result,
            created_date,
            modified_date,
            details,
        };
        if notification.is_consistent() {
            Ok(notification)
        } else {
            Err(Error::MalformedPayload)
        }
    }

    /// Reads a notification from JSON text: the document that the text
    /// holds, decoded. Text that is no JSON document is malformed too.
    pub fn from_text(text: &str) -> (notification: Result<Notification, Error>)
        ensures
            agrees(
                notification,
                match crate::json::json_parse(text@) {
                    Some(document) => notification_of(document),
                    None => None,
                },
            ),
            notification matches Ok(n) ==> n@.wf(),
    {
        match Json::parse(text) {
            Some(document) => Notification::decode(&document),
            None => Err(Error::MalformedPayload),
        }
    }

    /// Whether the event's id beside the envelope is the id of the event
    /// inside it, where both are there.
    pub fn is_consistent(&self) -> (consistent: bool)
        ensures
            consistent == self@.consistent(),
    {
        match (&self.event_id, &self.details) {
            (Some(outer), Some(details)) => match &details.event {
                Some(event) => event.id == *outer,
                None => true,
            },
            _ => true,
        }
    }
}

} // verus!
