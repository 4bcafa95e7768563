//! Room events: one typed variant per known event type, and a catch-all that
//! keeps the document of anything else as it came.

use vstd::prelude::*;
use crate::json::{is_text, lemma_object_view, members_of, values_of, Json, JsonValue};

verus! {

/// What every event carries besides its payload.
#[derive(Debug, PartialEq, Eq)]
pub struct EventMeta {
    pub event_id: String,
    pub origin_server_ts: u64,
    pub sender: String,
}

/// The value of an [`EventMeta`].
pub ghost struct EventMetaView {
    pub event_id: Seq<char>,
    pub origin_server_ts: u64,
    pub sender: Seq<char>,
}

impl View for EventMeta {
    type V = EventMetaView;

    open spec fn view(&self) -> EventMetaView {
        EventMetaView {
            event_id: self.event_id@,
            origin_server_ts: self.origin_server_ts,
            sender: self.sender@,
        }
    }
}

impl Clone for EventMeta {
    fn clone(&self) -> (copy: EventMeta)
        ensures
            copy@ == self@,
    {
        EventMeta {
            event_id: self.event_id.clone(),
            origin_server_ts: self.origin_server_ts,
            sender: self.sender.clone(),
        }
    }
}

/// The event that a reaction points at, and how.
#[derive(Debug, PartialEq, Eq)]
pub struct Relation {
    pub event_id: String,
    pub key: String,
    pub rel_type: String,
}

/// The value of a [`Relation`].
pub ghost struct RelationView {
    pub event_id: Seq<char>,
    pub key: Seq<char>,
    pub rel_type: Seq<char>,
}

impl View for Relation {
    type V = RelationView;

    open spec fn view(&self) -> RelationView {
        RelationView { event_id: self.event_id@, key: self.key@, rel_type: self.rel_type@ }
    }
}

impl Clone for Relation {
    fn clone(&self) -> (copy: Relation)
        ensures
            copy@ == self@,
    {
        Relation {
            event_id: self.event_id.clone(),
            key: self.key.clone(),
            rel_type: self.rel_type.clone(),
        }
    }
}

/// One event of a room.
#[derive(Debug, PartialEq, Eq)]
pub enum Event {
    /// A chat message.
    RoomMessage { body: String, msgtype: String, meta: EventMeta },
    /// Sets the display name of the room.
    RoomName { name: String, meta: EventMeta },
    /// A change of somebody's membership.
    RoomMember { displayname: Option<String>, membership: String, meta: EventMeta },
    /// The creation of the room.
    RoomCreate { creator: String, room_version: Option<String>, meta: EventMeta },
    /// A reaction to another event.
    Reaction { relates_to: Relation, meta: EventMeta },
    /// Marks the room as encrypted.
    RoomEncryption { meta: EventMeta },
    /// An encrypted event, of which only the envelope is read.
    RoomEncrypted { meta: EventMeta },
    /// Any other document, kept as it came.
    Unknown(Json),
}

/// The value of an [`Event`].
pub ghost enum EventView {
    RoomMessage { body: Seq<char>, msgtype: Seq<char>, meta: EventMetaView },
    RoomName { name: Seq<char>, meta: EventMetaView },
    RoomMember { displayname: Option<Seq<char>>, membership: Seq<char>, meta: EventMetaView },
    RoomCreate { creator: Seq<char>, room_version: Option<Seq<char>>, meta: EventMetaView },
    Reaction { relates_to: RelationView, meta: EventMetaView },
    RoomEncryption { meta: EventMetaView },
    RoomEncrypted { meta: EventMetaView },
    Unknown(JsonValue),
}

/// The characters of an optional string.
pub open spec fn optional_text(s: Option<String>) -> Option<Seq<char>> {
    match s {
        Some(t) => Some(t@),
        None => None,
    }
}

impl View for Event {
    type V = EventView;

    open spec fn view(&self) -> EventView {
        match *self {
            Event::RoomMessage { body, msgtype, meta } => EventView::RoomMessage {
                body: body@,
                msgtype: msgtype@,
                meta: meta@,
            },
            Event::RoomName { name, meta } => EventView::RoomName { name: name@, meta: meta@ },
            Event::RoomMember { displayname, membership, meta } => EventView::RoomMember {
                displayname: optional_text(displayname),
                membership: membership@,
                meta: meta@,
            },
            Event::RoomCreate { creator, room_version, meta } => EventView::RoomCreate {
                creator: creator@,
                room_version: optional_text(room_version),
                meta: meta@,
            },
            Event::Reaction { relates_to, meta } => EventView::Reaction {
                relates_to: relates_to@,
                meta: meta@,
            },
            Event::RoomEncryption { meta } => EventView::RoomEncryption { meta: meta@ },
            Event::RoomEncrypted { meta } => EventView::RoomEncrypted { meta: meta@ },
            Event::Unknown(raw) => EventView::Unknown(raw@),
        }
    }
}

/// The envelope fields of a document, where all three are present with the
/// right types.
pub open spec fn meta_of(raw: JsonValue) -> Option<EventMetaView> {
    match (
        raw.text_field("event_id"@),
        raw.unsigned_field("origin_server_ts"@),
        raw.text_field("sender"@),
    ) {
        (Some(event_id), Some(origin_server_ts), Some(sender)) => Some(
            EventMetaView { event_id, origin_server_ts, sender },
        ),
        _ => None,
    }
}

/// The `content` member of a document; `null` where there is none.
pub open spec fn content_of(raw: JsonValue) -> JsonValue {
    match raw.field("content"@) {
        Some(content) => content,
        None => JsonValue::Null,
    }
}

/// The relation that a reaction's content names.
pub open spec fn relation_of(content: JsonValue) -> Option<RelationView> {
    match content.field("m.relates_to"@) {
        Some(r) => match (r.text_field("event_id"@), r.text_field("key"@), r.text_field("rel_type"@)) {
            (Some(event_id), Some(key), Some(rel_type)) => Some(
                RelationView { event_id, key, rel_type },
            ),
            _ => None,
        },
        None => None,
    }
}

/// The typed event that a document of type `kind` with envelope `meta` and
/// payload `content` stands for: `None` where `kind` is not a known type, or
/// a field that the type requires is missing or has another type.
pub open spec fn typed(kind: Seq<char>, content: JsonValue, meta: EventMetaView) -> Option<
    EventView,
> {
    if kind == "m.room.message"@ {
        match (content.text_field("body"@), content.text_field("msgtype"@)) {
            (Some(body), Some(msgtype)) => Some(EventView::RoomMessage { body, msgtype, meta }),
            _ => None,
        }
    } else if kind == "m.room.name"@ {
        match content.text_field("name"@) {
            Some(name) => Some(EventView::RoomName { name, meta }),
            None => None,
        }
    } else if kind == "m.room.member"@ {
        match (content.optional_text_field("displayname"@), content.text_field("membership"@)) {
            (Some(displayname), Some(membership)) => Some(
                EventView::RoomMember { displayname, membership, meta },
            ),
            _ => None,
        }
    } else if kind == "m.room.create"@ {
        match (content.text_field("creator"@), content.optional_text_field("room_version"@)) {
            (Some(creator), Some(room_version)) => Some(
                EventView::RoomCreate { creator, room_version, meta },
            ),
            _ => None,
        }
    } else if kind == "m.reaction"@ {
        match relation_of(content) {
            Some(relates_to) => Some(EventView::Reaction { relates_to, meta }),
            None => None,
        }
    } else if kind == "m.room.encryption"@ {
        Some(EventView::RoomEncryption { meta })
    } else if kind == "m.room.encrypted"@ {
        Some(EventView::RoomEncrypted { meta })
    } else {
        None
    }
}

/// The typed event that a document stands for, if it is a well-formed event
/// of a known type.
pub open spec fn named_of(raw: JsonValue) -> Option<EventView> {
    match (raw.text_field("type"@), meta_of(raw)) {
        (Some(kind), Some(meta)) => typed(kind, content_of(raw), meta),
        _ => None,
    }
}

/// The event that a document stands for. A document that is no well-formed
/// event of a known type is kept whole.
pub open spec fn parse_spec(raw: JsonValue) -> EventView {
    match named_of(raw) {
        Some(event) => event,
        None => EventView::Unknown(raw),
    }
}

/// An optional string as a document: the string, or `null`.
pub open spec fn optional_text_value(s: Option<Seq<char>>) -> JsonValue {
    match s {
        Some(t) => JsonValue::Text(t),
        None => JsonValue::Null,
    }
}

/// The document of a typed event: its type, its payload where the type has
/// one, and the envelope fields.
pub open spec fn envelope(
    kind: Seq<char>,
    content: Option<JsonValue>,
    meta: EventMetaView,
) -> JsonValue {
    let head = seq![("type"@, JsonValue::Text(kind))];
    let payload = match content {
        Some(c) => seq![("content"@, c)],
        None => Seq::empty(),
    };
    let tail = seq![
        ("event_id"@, JsonValue::Text(meta.event_id)),
        ("origin_server_ts"@, JsonValue::Unsigned(meta.origin_server_ts)),
        ("sender"@, JsonValue::Text(meta.sender)),
    ];
    JsonValue::Object(head + payload + tail)
}

impl EventView {
    /// The identifier by which an event is recognised within a room. A kept
    /// document has one where it holds a string member `event_id`.
    pub open spec fn id(self) -> Option<Seq<char>> {
        match self {
            EventView::RoomMessage { meta, .. } => Some(meta.event_id),
            EventView::RoomName { meta, .. } => Some(meta.event_id),
            EventView::RoomMember { meta, .. } => Some(meta.event_id),
            EventView::RoomCreate { meta, .. } => Some(meta.event_id),
            EventView::Reaction { meta, .. } => Some(meta.event_id),
            EventView::RoomEncryption { meta } => Some(meta.event_id),
            EventView::RoomEncrypted { meta } => Some(meta.event_id),
            EventView::Unknown(raw) => raw.text_field("event_id"@),
        }
    }

    /// The envelope of a typed event.
    pub open spec fn meta(self) -> Option<EventMetaView> {
        match self {
            EventView::RoomMessage { meta, .. } => Some(meta),
            EventView::RoomName { meta, .. } => Some(meta),
            EventView::RoomMember { meta, .. } => Some(meta),
            EventView::RoomCreate { meta, .. } => Some(meta),
            EventView::Reaction { meta, .. } => Some(meta),
            EventView::RoomEncryption { meta } => Some(meta),
            EventView::RoomEncrypted { meta } => Some(meta),
            EventView::Unknown(_) => None,
        }
    }

    /// The document that an event is written as.
    pub open spec fn serialize(self) -> JsonValue {
        match self {
            EventView::RoomMessage { body, msgtype, meta } => envelope(
                "m.room.message"@,
                Some(
                    JsonValue::Object(
                        seq![("body"@, JsonValue::Text(body)), ("msgtype"@, JsonValue::Text(msgtype))],
                    ),
                ),
                meta,
            ),
            EventView::RoomName { name, meta } => envelope(
                "m.room.name"@,
                Some(JsonValue::Object(seq![("name"@, JsonValue::Text(name))])),
                meta,
            ),
            EventView::RoomMember { displayname, membership, meta } => envelope(
                "m.room.member"@,
                Some(
                    JsonValue::Object(
                        seq![
                            ("displayname"@, optional_text_value(displayname)),
                            ("membership"@, JsonValue::Text(membership)),
                        ],
                    ),
                ),
                meta,
            ),
            EventView::RoomCreate { creator, room_version, meta } => envelope(
                "m.room.create"@,
                Some(
                    JsonValue::Object(
                        seq![
                            ("creator"@, JsonValue::Text(creator)),
                            ("room_version"@, optional_text_value(room_version)),
                        ],
                    ),
                ),
                meta,
            ),
            EventView::Reaction { relates_to, meta } => envelope(
                "m.reaction"@,
                Some(
                    JsonValue::Object(
                        seq![
                            (
                                "m.relates_to"@,
                                JsonValue::Object(
                                    seq![
                                        ("event_id"@, JsonValue::Text(relates_to.event_id)),
                                        ("key"@, JsonValue::Text(relates_to.key)),
                                        ("rel_type"@, JsonValue::Text(relates_to.rel_type)),
                                    ],
                                ),
                            ),
                        ],
                    ),
                ),
                meta,
            ),
            EventView::RoomEncryption { meta } => envelope("m.room.encryption"@, None, meta),
            EventView::RoomEncrypted { meta } => envelope("m.room.encrypted"@, None, meta),
            EventView::Unknown(raw) => raw,
        }
    }
}

/// The value of an optional document.
pub open spec fn optional_value(doc: Option<Json>) -> Option<JsonValue> {
    match doc {
        Some(d) => Some(d@),
        None => None,
    }
}

/// A string as a document.
fn text_json(s: &String) -> (doc: Json)
    ensures
        doc@ == JsonValue::Text(s@),
{
    Json::Text(s.clone())
}

/// An optional string as a document.
fn optional_json(s: &Option<String>) -> (doc: Json)
    ensures
        doc@ == optional_text_value(optional_text(*s)),
{
    match s {
        Some(t) => Json::Text(t.clone()),
        None => Json::Null,
    }
}

/// An object of one member.
fn object1(name: &str, value: Json) -> (doc: Json)
    ensures
        doc@ == JsonValue::Object(seq![(name@, value@)]),
{
    let mut members: Vec<(String, Json)> = Vec::new();
    members.push((name.to_owned(), value));
    proof {
        lemma_object_view(members);
        assert(members_of(members@) =~= seq![(name@, value@)]);
    }
    Json::Object(members)
}

/// An object of two members.
fn object2(name1: &str, value1: Json, name2: &str, value2: Json) -> (doc: Json)
    ensures
        doc@ == JsonValue::Object(seq![(name1@, value1@), (name2@, value2@)]),
{
    let mut members: Vec<(String, Json)> = Vec::new();
    members.push((name1.to_owned(), value1));
    members.push((name2.to_owned(), value2));
    proof {
        lemma_object_view(members);
        assert(members_of(members@) =~= seq![(name1@, value1@), (name2@, value2@)]);
    }
    Json::Object(members)
}

/// The document of a typed event.
fn envelope_json(kind: &str, content: Option<Json>, meta: &EventMeta) -> (doc: Json)
    ensures
        doc@ == envelope(kind@, optional_value(content), meta@),
{
    let ghost payload = optional_value(content);
    let mut members: Vec<(String, Json)> = Vec::new();
    members.push(("type".to_owned(), Json::Text(kind.to_owned())));
    match content {
        Some(c) => {
            members.push(("content".to_owned(), c));
        },
        None => {},
    }
    members.push(("event_id".to_owned(), text_json(&meta.event_id)));
    members.push(("origin_server_ts".to_owned(), Json::Unsigned(meta.origin_server_ts)));
    members.push(("sender".to_owned(), text_json(&meta.sender)));
    proof {
        lemma_object_view(members);
        assert(members_of(members@) =~= envelope(kind@, payload, meta@).members().unwrap());
    }
    Json::Object(members)
}

/// The envelope fields of a document.
fn parse_meta(raw: &Json) -> (meta: Option<EventMeta>)
    ensures
        match meta {
            Some(m) => meta_of(raw@) == Some(m@),
            None => meta_of(raw@) is None,
        },
{
    let event_id = match raw.text_field("event_id") {
        Some(s) => s,
        None => {
            return None;
        },
    };
    let origin_server_ts = match raw.unsigned_field("origin_server_ts") {
        Some(n) => n,
        None => {
            return None;
        },
    };
    let sender = match raw.text_field("sender") {
        Some(s) => s,
        None => {
            return None;
        },
    };
    Some(EventMeta { event_id, origin_server_ts, sender })
}

/// The relation that a reaction's content names.
fn parse_relation(content: &Json) -> (relation: Option<Relation>)
    ensures
        match relation {
            Some(r) => relation_of(content@) == Some(r@),
            None => relation_of(content@) is None,
        },
{
    let inner = match content.get("m.relates_to") {
        Some(r) => r,
        None => {
            return None;
        },
    };
    let event_id = match inner.text_field("event_id") {
        Some(s) => s,
        None => {
            return None;
        },
    };
    let key = match inner.text_field("key") {
        Some(s) => s,
        None => {
            return None;
        },
    };
    let rel_type = match inner.text_field("rel_type") {
        Some(s) => s,
        None => {
            return None;
        },
    };
    Some(Relation { event_id, key, rel_type })
}

/// The typed event for a known type, from its payload and envelope.
fn parse_typed(kind: &String, content: &Json, meta: EventMeta) -> (event: Option<Event>)
    ensures
        match event {
            Some(e) => typed(kind@, content@, meta@) == Some(e@),
            None => typed(kind@, content@, meta@) is None,
        },
{
    if is_text(kind, "m.room.message") {
        let body = match content.text_field("body") {
            Some(s) => s,
            None => {
                return None;
            },
        };
        let msgtype = match content.text_field("msgtype") {
            Some(s) => s,
            None => {
                return None;
            },
        };
        Some(Event::RoomMessage { body, msgtype, meta })
    } else if is_text(kind, "m.room.name") {
        match content.text_field("name") {
            Some(name) => Some(Event::RoomName { name, meta }),
            None => None,
        }
    } else if is_text(kind, "m.room.member") {
        let displayname = match content.optional_text_field("displayname") {
            Some(s) => s,
            None => {
                return None;
            },
        };
        let membership = match content.text_field("membership") {
            Some(s) => s,
            None => {
                return None;
            },
        };
        Some(Event::RoomMember { displayname, membership, meta })
    } else if is_text(kind, "m.room.create") {
        let creator = match content.text_field("creator") {
            Some(s) => s,
            None => {
                return None;
            },
        };
        let room_version = match content.optional_text_field("room_version") {
            Some(s) => s,
            None => {
                return None;
            },
        };
        Some(Event::RoomCreate { creator, room_version, meta })
    } else if is_text(kind, "m.reaction") {
        match parse_relation(content) {
            Some(relates_to) => Some(Event::Reaction { relates_to, meta }),
            None => None,
        }
    } else if is_text(kind, "m.room.encryption") {
        Some(Event::RoomEncryption { meta })
    } else if is_text(kind, "m.room.encrypted") {
        Some(Event::RoomEncrypted { meta })
    } else {
        None
    }
}

impl Event {
    /// Reads an event from its document. An unknown type, or a known type
    /// with a required field missing, gives [`Event::Unknown`] holding a copy
    /// of the document; nothing makes this fail.
    pub fn parse(raw: &Json) -> (event: Event)
        ensures
            event@ == parse_spec(raw@),
    {
        let kind = match raw.text_field("type") {
            Some(k) => k,
            None => {
                return Event::Unknown(raw.clone());
            },
        };
        let meta = match parse_meta(raw) {
            Some(m) => m,
            None => {
                return Event::Unknown(raw.clone());
            },
        };
        let null = Json::Null;
        let content = match raw.get("content") {
            Some(c) => c,
            None => &null,
        };
        match parse_typed(&kind, content, meta) {
            Some(event) => event,
            None => Event::Unknown(raw.clone()),
        }
    }

    /// Writes an event as a document. A kept document is handed back as it
    /// came.
    pub fn serialize(&self) -> (doc: Json)
        ensures
            doc@ == self@.serialize(),
    {
        match self {
            Event::RoomMessage { body, msgtype, meta } => envelope_json(
                "m.room.message",
                Some(object2("body", text_json(body), "msgtype", text_json(msgtype))),
                meta,
            ),
            Event::RoomName { name, meta } => envelope_json(
                "m.room.name",
                Some(object1("name", text_json(name))),
                meta,
            ),
            Event::RoomMember { displayname, membership, meta } => envelope_json(
                "m.room.member",
                Some(
                    object2(
                        "displayname",
                        optional_json(displayname),
                        "membership",
                        text_json(membership),
                    ),
                ),
                meta,
            ),
            Event::RoomCreate { creator, room_version, meta } => envelope_json(
                "m.room.create",
                Some(
                    object2(
                        "creator",
                        text_json(creator),
                        "room_version",
                        optional_json(room_version),
                    ),
                ),
                meta,
            ),
            Event::Reaction { relates_to, meta } => {
                let mut inner: Vec<(String, Json)> = Vec::new();
                inner.push(("event_id".to_owned(), text_json(&relates_to.event_id)));
                inner.push(("key".to_owned(), text_json(&relates_to.key)));
                inner.push(("rel_type".to_owned(), text_json(&relates_to.rel_type)));
                proof {
                    lemma_object_view(inner);
                    assert(members_of(inner@) =~= seq![
                        ("event_id"@, JsonValue::Text(relates_to.event_id@)),
                        ("key"@, JsonValue::Text(relates_to.key@)),
                        ("rel_type"@, JsonValue::Text(relates_to.rel_type@)),
                    ]);
                }
                envelope_json("m.reaction", Some(object1("m.relates_to", Json::Object(inner))), meta)
            },
            Event::RoomEncryption { meta } => envelope_json("m.room.encryption", None, meta),
            Event::RoomEncrypted { meta } => envelope_json("m.room.encrypted", None, meta),
            Event::Unknown(raw) => raw.clone(),
        }
    }

    /// The identifier by which the event is recognised within its room.
    pub fn event_id(&self) -> (id: Option<&String>)
        ensures
            match id {
                Some(s) => self@.id() == Some(s@),
                None => self@.id() is None,
            },
    {
        match self {
            Event::RoomMessage { meta, .. } => Some(&meta.event_id),
            Event::RoomName { meta, .. } => Some(&meta.event_id),
            Event::RoomMember { meta, .. } => Some(&meta.event_id),
            Event::RoomCreate { meta, .. } => Some(&meta.event_id),
            Event::Reaction { meta, .. } => Some(&meta.event_id),
            Event::RoomEncryption { meta } => Some(&meta.event_id),
            Event::RoomEncrypted { meta } => Some(&meta.event_id),
            Event::Unknown(raw) => match raw.get("event_id") {
                Some(v) => v.as_text(),
                None => None,
            },
        }
    }

    /// The envelope of a typed event; a kept document has none.
    pub fn meta(&self) -> (meta: Option<&EventMeta>)
        ensures
            match meta {
                Some(m) => self@.meta() == Some(m@),
                None => self@.meta() is None,
            },
    {
        match self {
            Event::RoomMessage { meta, .. } => Some(meta),
            Event::RoomName { meta, .. } => Some(meta),
            Event::RoomMember { meta, .. } => Some(meta),
            Event::RoomCreate { meta, .. } => Some(meta),
            Event::Reaction { meta, .. } => Some(meta),
            Event::RoomEncryption { meta } => Some(meta),
            Event::RoomEncrypted { meta } => Some(meta),
            Event::Unknown(_) => None,
        }
    }

    /// Whether the event is a kept document rather than a typed event.
    pub fn is_unknown(&self) -> (unknown: bool)
        ensures
            unknown == (self@ is Unknown),
    {
        match self {
            Event::Unknown(_) => true,
            _ => false,
        }
    }
}

/// A copy of an optional string.
fn copy_optional(s: &Option<String>) -> (copy: Option<String>)
    ensures
        optional_text(copy) == optional_text(*s),
{
    match s {
        Some(t) => Some(t.clone()),
        None => None,
    }
}

impl Clone for Event {
    fn clone(&self) -> (copy: Event)
        ensures
            copy@ == self@,
    {
        match self {
            Event::RoomMessage { body, msgtype, meta } => Event::RoomMessage {
                body: body.clone(),
                msgtype: msgtype.clone(),
                meta: meta.clone(),
            },
            Event::RoomName { name, meta } => Event::RoomName {
                name: name.clone(),
                meta: meta.clone(),
            },
            Event::RoomMember { displayname, membership, meta } => Event::RoomMember {
                displayname: copy_optional(displayname),
                membership: membership.clone(),
                meta: meta.clone(),
            },
            Event::RoomCreate { creator, room_version, meta } => Event::RoomCreate {
                creator: creator.clone(),
                room_version: copy_optional(room_version),
                meta: meta.clone(),
            },
            Event::Reaction { relates_to, meta } => Event::Reaction {
                relates_to: relates_to.clone(),
                meta: meta.clone(),
            },
            Event::RoomEncryption { meta } => Event::RoomEncryption { meta: meta.clone() },
            Event::RoomEncrypted { meta } => Event::RoomEncrypted { meta: meta.clone() },
            Event::Unknown(raw) => Event::Unknown(raw.clone()),
        }
    }
}

/// The values of a sequence of events.
pub open spec fn views(events: Seq<Event>) -> Seq<EventView> {
    Seq::new(events.len(), |i: int| events[i]@)
}

/// The events that a sequence of documents stands for, one for one.
pub open spec fn parse_all_spec(docs: Seq<JsonValue>) -> Seq<EventView> {
    Seq::new(docs.len(), |i: int| parse_spec(docs[i]))
}

/// Reads each document of a list as an event. A document that is no
/// well-formed event is kept in its place; the others are not affected.
pub fn parse_all(docs: &Vec<Json>) -> (events: Vec<Event>)
    ensures
        views(events@) == parse_all_spec(values_of(docs@)),
{
    let mut events: Vec<Event> = Vec::new();
    let mut i: usize = 0;
    while i < docs.len()
        invariant
            0 <= i <= docs.len(),
            events.len() == i,
            forall|k: int| 0 <= k < i ==> events[k]@ == parse_spec(docs[k]@),
        decreases docs.len() - i,
    {
        let event = Event::parse(&docs[i]);
        events.push(event);
        i += 1;
    }
    assert(views(events@) =~= parse_all_spec(values_of(docs@)));
    events
}

/// Copies a list of events.
pub fn copy_all(events: &Vec<Event>) -> (copy: Vec<Event>)
    ensures
        views(copy@) == views(events@),
{
    let mut copy: Vec<Event> = Vec::new();
    let mut i: usize = 0;
    while i < events.len()
        invariant
            0 <= i <= events.len(),
            copy.len() == i,
            forall|k: int| 0 <= k < i ==> copy[k]@ == events[k]@,
        decreases events.len() - i,
    {
        copy.push(events[i].clone());
        i += 1;
    }
    assert(views(copy@) =~= views(events@));
    copy
}

} // verus!
