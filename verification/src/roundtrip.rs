//! What reading and writing an event do to each other.

use vstd::prelude::*;
use crate::event::{envelope, meta_of, named_of, parse_spec, EventMetaView, EventView};
use crate::json::{lookup, JsonValue};

verus! {

/// Looking a name up in a list of members tests the first member, then the rest.
pub proof fn lemma_lookup_first(
    name: Seq<char>,
    value: JsonValue,
    rest: Seq<(Seq<char>, JsonValue)>,
    key: Seq<char>,
)
    ensures
        lookup(seq![(name, value)] + rest, key) == if name == key {
            Some(value)
        } else {
            lookup(rest, key)
        },
{
    let all = seq![(name, value)] + rest;
    assert(all.drop_first() =~= rest);
    assert(all[0] == (name, value));
}

/// The members of an event's own document are found under their names.
pub proof fn lemma_envelope_fields(kind: Seq<char>, content: Option<JsonValue>, meta: EventMetaView)
    ensures
        envelope(kind, content, meta).field("type"@) == Some(JsonValue::Text(kind)),
        envelope(kind, content, meta).field("content"@) == content,
        envelope(kind, content, meta).field("event_id"@) == Some(JsonValue::Text(meta.event_id)),
        envelope(kind, content, meta).field("origin_server_ts"@) == Some(
            JsonValue::Unsigned(meta.origin_server_ts),
        ),
        envelope(kind, content, meta).field("sender"@) == Some(JsonValue::Text(meta.sender)),
        meta_of(envelope(kind, content, meta)) == Some(meta),
{
    reveal_strlit("type");
    reveal_strlit("content");
    reveal_strlit("event_id");
    reveal_strlit("origin_server_ts");
    reveal_strlit("sender");
    let members = envelope(kind, content, meta).members().unwrap();
    let none = Seq::<(Seq<char>, JsonValue)>::empty();
    let t3 = seq![("sender"@, JsonValue::Text(meta.sender))] + none;
    let t2 = seq![("origin_server_ts"@, JsonValue::Unsigned(meta.origin_server_ts))] + t3;
    let t1 = seq![("event_id"@, JsonValue::Text(meta.event_id))] + t2;
    let t0 = match content {
        Some(c) => seq![("content"@, c)] + t1,
        None => t1,
    };
    assert(members =~= seq![("type"@, JsonValue::Text(kind))] + t0);
    assert forall|key: Seq<char>| #![auto] lookup(none, key) is None by {}
    assert forall|key: Seq<char>|
        lookup(members, key) == (if key == "type"@ {
            Some(JsonValue::Text(kind))
        } else if key == "content"@ && content is Some {
            content
        } else if key == "event_id"@ {
            Some(JsonValue::Text(meta.event_id))
        } else if key == "origin_server_ts"@ {
            Some(JsonValue::Unsigned(meta.origin_server_ts))
        } else if key == "sender"@ {
            Some(JsonValue::Text(meta.sender))
        } else {
            None
        }) by {
        lemma_lookup_first("sender"@, JsonValue::Text(meta.sender), none, key);
        lemma_lookup_first(
            "origin_server_ts"@,
            JsonValue::Unsigned(meta.origin_server_ts),
            t3,
            key,
        );
        lemma_lookup_first("event_id"@, JsonValue::Text(meta.event_id), t2, key);
        if let Some(c) = content {
            lemma_lookup_first("content"@, c, t1, key);
        }
        lemma_lookup_first("type"@, JsonValue::Text(kind), t0, key);
    }
    assert("type"@.len() == 4 && "content"@.len() == 7 && "event_id"@.len() == 8);
    assert("origin_server_ts"@.len() == 16 && "sender"@.len() == 6);
}

/// Looking a name up in an object of two members.
proof fn lemma_lookup_two(
    name1: Seq<char>,
    value1: JsonValue,
    name2: Seq<char>,
    value2: JsonValue,
    key: Seq<char>,
)
    ensures
        lookup(seq![(name1, value1), (name2, value2)], key) == if name1 == key {
            Some(value1)
        } else if name2 == key {
            Some(value2)
        } else {
            None
        },
{
    let none = Seq::<(Seq<char>, JsonValue)>::empty();
    lemma_lookup_first(name2, value2, none, key);
    lemma_lookup_first(name1, value1, seq![(name2, value2)] + none, key);
    assert(seq![(name1, value1), (name2, value2)] =~= seq![(name1, value1)] + (seq![
        (name2, value2),
    ] + none));
    assert(lookup(none, key) is None);
}

/// Looking a name up in an object of three members.
proof fn lemma_lookup_three(
    name1: Seq<char>,
    value1: JsonValue,
    name2: Seq<char>,
    value2: JsonValue,
    name3: Seq<char>,
    value3: JsonValue,
    key: Seq<char>,
)
    ensures
        lookup(seq![(name1, value1), (name2, value2), (name3, value3)], key) == if name1 == key {
            Some(value1)
        } else if name2 == key {
            Some(value2)
        } else if name3 == key {
            Some(value3)
        } else {
            None
        },
{
    lemma_lookup_two(name2, value2, name3, value3, key);
    lemma_lookup_first(name1, value1, seq![(name2, value2), (name3, value3)], key);
    assert(seq![(name1, value1), (name2, value2), (name3, value3)] =~= seq![(name1, value1)]
        + seq![(name2, value2), (name3, value3)]);
}

/// The type names are seven different strings.
proof fn lemma_type_names()
    ensures
        "m.room.message"@.len() == 14,
        "m.room.name"@.len() == 11,
        "m.room.member"@.len() == 13,
        "m.room.create"@.len() == 13,
        "m.room.member"@ != "m.room.create"@,
        "m.reaction"@.len() == 10,
        "m.room.encryption"@.len() == 17,
        "m.room.encrypted"@.len() == 16,
{
    reveal_strlit("m.room.message");
    reveal_strlit("m.room.name");
    reveal_strlit("m.room.member");
    reveal_strlit("m.room.create");
    reveal_strlit("m.reaction");
    reveal_strlit("m.room.encryption");
    reveal_strlit("m.room.encrypted");
    assert("m.room.member"@[7] == 'm');
    assert("m.room.create"@[7] == 'c');
}

/// Reading back what was written gives the same event: for every typed
/// event, the document it is written as is read as that event again.
pub proof fn lemma_parse_serialize(event: EventView)
    requires
        !(event is Unknown),
    ensures
        parse_spec(event.serialize()) == event,
{
    lemma_type_names();
    let doc = event.serialize();
    let meta = event.meta().unwrap();
    match event {
        EventView::RoomMessage { body, msgtype, meta } => {
            let content = JsonValue::Object(
                seq![("body"@, JsonValue::Text(body)), ("msgtype"@, JsonValue::Text(msgtype))],
            );
            lemma_envelope_fields("m.room.message"@, Some(content), meta);
            reveal_strlit("body");
            reveal_strlit("msgtype");
            assert("body"@.len() == 4 && "msgtype"@.len() == 7);
            lemma_lookup_two("body"@, JsonValue::Text(body), "msgtype"@, JsonValue::Text(msgtype), "body"@);
            lemma_lookup_two(
                "body"@,
                JsonValue::Text(body),
                "msgtype"@,
                JsonValue::Text(msgtype),
                "msgtype"@,
            );
        },
        EventView::RoomName { name, meta } => {
            let content = JsonValue::Object(seq![("name"@, JsonValue::Text(name))]);
            lemma_envelope_fields("m.room.name"@, Some(content), meta);
            lemma_lookup_first("name"@, JsonValue::Text(name), Seq::empty(), "name"@);
            assert(seq![("name"@, JsonValue::Text(name))] + Seq::empty() =~= seq![
                ("name"@, JsonValue::Text(name)),
            ]);
        },
        EventView::RoomMember { displayname, membership, meta } => {
            let shown = crate::event::optional_text_value(displayname);
            let content = JsonValue::Object(
                seq![("displayname"@, shown), ("membership"@, JsonValue::Text(membership))],
            );
            lemma_envelope_fields("m.room.member"@, Some(content), meta);
            reveal_strlit("displayname");
            reveal_strlit("membership");
            assert("displayname"@.len() == 11 && "membership"@.len() == 10);
            lemma_lookup_two(
                "displayname"@,
                shown,
                "membership"@,
                JsonValue::Text(membership),
                "displayname"@,
            );
            lemma_lookup_two(
                "displayname"@,
                shown,
                "membership"@,
                JsonValue::Text(membership),
                "membership"@,
            );
        },
        EventView::RoomCreate { creator, room_version, meta } => {
            let version = crate::event::optional_text_value(room_version);
            let content = JsonValue::Object(
                seq![("creator"@, JsonValue::Text(creator)), ("room_version"@, version)],
            );
            lemma_envelope_fields("m.room.create"@, Some(content), meta);
            reveal_strlit("creator");
            reveal_strlit("room_version");
            assert("creator"@.len() == 7 && "room_version"@.len() == 12);
            lemma_lookup_two(
                "creator"@,
                JsonValue::Text(creator),
                "room_version"@,
                version,
                "creator"@,
            );
            lemma_lookup_two(
                "creator"@,
                JsonValue::Text(creator),
                "room_version"@,
                version,
                "room_version"@,
            );
        },
        EventView::Reaction { relates_to, meta } => {
            let inner = JsonValue::Object(
                seq![
                    ("event_id"@, JsonValue::Text(relates_to.event_id)),
                    ("key"@, JsonValue::Text(relates_to.key)),
                    ("rel_type"@, JsonValue::Text(relates_to.rel_type)),
                ],
            );
            let content = JsonValue::Object(seq![("m.relates_to"@, inner)]);
            lemma_envelope_fields("m.reaction"@, Some(content), meta);
            lemma_lookup_first("m.relates_to"@, inner, Seq::empty(), "m.relates_to"@);
            assert(seq![("m.relates_to"@, inner)] + Seq::empty() =~= seq![("m.relates_to"@, inner)]);
            reveal_strlit("event_id");
            reveal_strlit("key");
            reveal_strlit("rel_type");
            assert("event_id"@.len() == 8 && "key"@.len() == 3 && "rel_type"@.len() == 8);
            assert("event_id"@[0] == 'e' && "rel_type"@[0] == 'r');
            assert forall|key: Seq<char>|
                key == "event_id"@ || key == "key"@ || key == "rel_type"@ implies #[trigger] inner.field(
                key,
            ) == (if key == "event_id"@ {
                Some(JsonValue::Text(relates_to.event_id))
            } else if key == "key"@ {
                Some(JsonValue::Text(relates_to.key))
            } else {
                Some(JsonValue::Text(relates_to.rel_type))
            }) by {
                lemma_lookup_three(
                    "event_id"@,
                    JsonValue::Text(relates_to.event_id),
                    "key"@,
                    JsonValue::Text(relates_to.key),
                    "rel_type"@,
                    JsonValue::Text(relates_to.rel_type),
                    key,
                );
            }
            assert(inner.field("event_id"@) == Some(JsonValue::Text(relates_to.event_id)));
            assert(inner.field("key"@) == Some(JsonValue::Text(relates_to.key)));
            assert(inner.field("rel_type"@) == Some(JsonValue::Text(relates_to.rel_type)));
        },
        EventView::RoomEncryption { meta } => {
            lemma_envelope_fields("m.room.encryption"@, None, meta);
        },
        EventView::RoomEncrypted { meta } => {
            lemma_envelope_fields("m.room.encrypted"@, None, meta);
        },
        EventView::Unknown(_) => {},
    }
}

/// A document that is kept whole is written back unchanged.
pub proof fn lemma_serialize_parse_unknown(raw: JsonValue)
    requires
        parse_spec(raw) is Unknown,
    ensures
        parse_spec(raw).serialize() == raw,
{
}

/// Writing and reading again changes nothing more: whatever a document is
/// read as, the document written for that event is read as the same event.
pub proof fn lemma_parse_serialize_parse(raw: JsonValue)
    ensures
        parse_spec(parse_spec(raw).serialize()) == parse_spec(raw),
{
    if !(parse_spec(raw) is Unknown) {
        lemma_parse_serialize(parse_spec(raw));
    }
}

/// Where the fields that a typed event requires stand in its document.
pub open spec fn required_paths(event: EventView) -> Seq<Seq<Seq<char>>> {
    let common = seq![seq!["type"@], seq!["event_id"@], seq!["origin_server_ts"@], seq!["sender"@]];
    match event {
        EventView::RoomMessage { .. } => common + seq![
            seq!["content"@, "body"@],
            seq!["content"@, "msgtype"@],
        ],
        EventView::RoomName { .. } => common + seq![seq!["content"@, "name"@]],
        EventView::RoomMember { .. } => common + seq![seq!["content"@, "membership"@]],
        EventView::RoomCreate { .. } => common + seq![seq!["content"@, "creator"@]],
        EventView::Reaction { .. } => common + seq![
            seq!["content"@, "m.relates_to"@, "event_id"@],
            seq!["content"@, "m.relates_to"@, "key"@],
            seq!["content"@, "m.relates_to"@, "rel_type"@],
        ],
        EventView::RoomEncryption { .. } => common,
        EventView::RoomEncrypted { .. } => common,
        EventView::Unknown(_) => Seq::empty(),
    }
}

/// Following one name is a member lookup.
proof fn lemma_at_one(doc: JsonValue, name: Seq<char>)
    ensures
        doc.at(seq![name]) == doc.field(name),
{
    reveal_with_fuel(JsonValue::at, 3);
    assert(seq![name].drop_first() =~= Seq::<Seq<char>>::empty());
}

/// Following two names is a member lookup in a member.
proof fn lemma_at_two(doc: JsonValue, outer: Seq<char>, name: Seq<char>)
    ensures
        doc.at(seq![outer, name]) == match doc.field(outer) {
            Some(inner) => inner.field(name),
            None => None,
        },
{
    reveal_with_fuel(JsonValue::at, 3);
    assert(seq![outer, name].drop_first() =~= seq![name]);
    if let Some(inner) = doc.field(outer) {
        lemma_at_one(inner, name);
    }
}

/// Following three names.
proof fn lemma_at_three(doc: JsonValue, outer: Seq<char>, middle: Seq<char>, name: Seq<char>)
    ensures
        doc.at(seq![outer, middle, name]) == match doc.field(outer) {
            Some(inner) => match inner.field(middle) {
                Some(innermost) => innermost.field(name),
                None => None,
            },
            None => None,
        },
{
    reveal_with_fuel(JsonValue::at, 3);
    assert(seq![outer, middle, name].drop_first() =~= seq![middle, name]);
    if let Some(inner) = doc.field(outer) {
        lemma_at_two(inner, middle, name);
    }
}

/// Writing back what was read keeps every required field: where a document
/// is read as a typed event, the document written for that event holds, at
/// each place where the type requires a field, the value that the document
/// read holds there.
pub proof fn lemma_serialize_parse_fields(raw: JsonValue, i: int)
    requires
        0 <= i < required_paths(parse_spec(raw)).len(),
    ensures
        raw.at(required_paths(parse_spec(raw))[i]) is Some,
        parse_spec(raw).serialize().at(required_paths(parse_spec(raw))[i]) == raw.at(
            required_paths(parse_spec(raw))[i],
        ),
{
    let event = parse_spec(raw);
    let doc = event.serialize();
    let path = required_paths(event)[i];
    assert(!(event is Unknown));
    assert(named_of(raw) == Some(event));
    lemma_parse_serialize(event);
    assert(named_of(doc) == Some(event));
    let kind = raw.text_field("type"@).unwrap();
    assert(doc.text_field("type"@) == Some(kind)) by {
        lemma_type_names();
    }
    lemma_at_one(raw, "type"@);
    lemma_at_one(doc, "type"@);
    lemma_at_one(raw, "event_id"@);
    lemma_at_one(doc, "event_id"@);
    lemma_at_one(raw, "origin_server_ts"@);
    lemma_at_one(doc, "origin_server_ts"@);
    lemma_at_one(raw, "sender"@);
    lemma_at_one(doc, "sender"@);
    lemma_at_two(raw, "content"@, "body"@);
    lemma_at_two(doc, "content"@, "body"@);
    lemma_at_two(raw, "content"@, "msgtype"@);
    lemma_at_two(doc, "content"@, "msgtype"@);
    lemma_at_two(raw, "content"@, "name"@);
    lemma_at_two(doc, "content"@, "name"@);
    lemma_at_two(raw, "content"@, "membership"@);
    lemma_at_two(doc, "content"@, "membership"@);
    lemma_at_two(raw, "content"@, "creator"@);
    lemma_at_two(doc, "content"@, "creator"@);
    lemma_at_three(raw, "content"@, "m.relates_to"@, "event_id"@);
    lemma_at_three(doc, "content"@, "m.relates_to"@, "event_id"@);
    lemma_at_three(raw, "content"@, "m.relates_to"@, "key"@);
    lemma_at_three(doc, "content"@, "m.relates_to"@, "key"@);
    lemma_at_three(raw, "content"@, "m.relates_to"@, "rel_type"@);
    lemma_at_three(doc, "content"@, "m.relates_to"@, "rel_type"@);
    lemma_type_names();
}

} // verus!
