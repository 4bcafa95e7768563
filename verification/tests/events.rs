use room_history::event::{parse_all, Event, EventMeta, Relation};
use room_history::json::Json;

fn text(s: &str) -> Json {
    Json::Text(s.to_string())
}

fn object(members: Vec<(&str, Json)>) -> Json {
    Json::Object(members.into_iter().map(|(k, v)| (k.to_string(), v)).collect())
}

fn raw_event(kind: &str, content: Option<Json>, id: &str, ts: u64, sender: &str) -> Json {
    let mut members = vec![("type", text(kind))];
    if let Some(c) = content {
        members.push(("content", c));
    }
    members.push(("event_id", text(id)));
    members.push(("origin_server_ts", Json::Unsigned(ts)));
    members.push(("sender", text(sender)));
    object(members)
}

fn meta(id: &str, ts: u64, sender: &str) -> EventMeta {
    EventMeta { event_id: id.to_string(), origin_server_ts: ts, sender: sender.to_string() }
}

fn message_doc(id: &str, body: &str) -> Json {
    raw_event(
        "m.room.message",
        Some(object(vec![("body", text(body)), ("msgtype", text("m.text"))])),
        id,
        1000,
        "@ann:example.org",
    )
}

#[test]
fn parses_a_message() {
    let event = Event::parse(&message_doc("$1", "hello"));
    assert_eq!(
        event,
        Event::RoomMessage {
            body: "hello".to_string(),
            msgtype: "m.text".to_string(),
            meta: meta("$1", 1000, "@ann:example.org"),
        }
    );
    assert_eq!(event.event_id(), Some(&"$1".to_string()));
    assert!(!event.is_unknown());
}

#[test]
fn parses_a_room_name() {
    let doc = raw_event(
        "m.room.name",
        Some(object(vec![("name", text("Lobby"))])),
        "$n",
        5,
        "@bob:example.org",
    );
    assert_eq!(
        Event::parse(&doc),
        Event::RoomName { name: "Lobby".to_string(), meta: meta("$n", 5, "@bob:example.org") }
    );
}

#[test]
fn parses_a_member_with_and_without_display_name() {
    let with = raw_event(
        "m.room.member",
        Some(object(vec![("displayname", text("Ann")), ("membership", text("join"))])),
        "$m1",
        7,
        "@ann:example.org",
    );
    assert_eq!(
        Event::parse(&with),
        Event::RoomMember {
            displayname: Some("Ann".to_string()),
            membership: "join".to_string(),
            meta: meta("$m1", 7, "@ann:example.org"),
        }
    );
    let without = raw_event(
        "m.room.member",
        Some(object(vec![("membership", text("leave"))])),
        "$m2",
        8,
        "@ann:example.org",
    );
    assert_eq!(
        Event::parse(&without),
        Event::RoomMember {
            displayname: None,
            membership: "leave".to_string(),
            meta: meta("$m2", 8, "@ann:example.org"),
        }
    );
    let null = raw_event(
        "m.room.member",
        Some(object(vec![("displayname", Json::Null), ("membership", text("invite"))])),
        "$m3",
        9,
        "@ann:example.org",
    );
    assert_eq!(
        Event::parse(&null),
        Event::RoomMember {
            displayname: None,
            membership: "invite".to_string(),
            meta: meta("$m3", 9, "@ann:example.org"),
        }
    );
}

#[test]
fn member_with_mistyped_display_name_is_kept_whole() {
    let doc = raw_event(
        "m.room.member",
        Some(object(vec![("displayname", Json::Unsigned(3)), ("membership", text("join"))])),
        "$m4",
        9,
        "@ann:example.org",
    );
    assert_eq!(Event::parse(&doc), Event::Unknown(doc.clone()));
}

#[test]
fn parses_a_room_create() {
    let doc = raw_event(
        "m.room.create",
        Some(object(vec![("creator", text("@ann:example.org")), ("room_version", text("6"))])),
        "$c",
        1,
        "@ann:example.org",
    );
    assert_eq!(
        Event::parse(&doc),
        Event::RoomCreate {
            creator: "@ann:example.org".to_string(),
            room_version: Some("6".to_string()),
            meta: meta("$c", 1, "@ann:example.org"),
        }
    );
    let bare = raw_event(
        "m.room.create",
        Some(object(vec![("creator", text("@ann:example.org"))])),
        "$c",
        1,
        "@ann:example.org",
    );
    assert_eq!(
        Event::parse(&bare),
        Event::RoomCreate {
            creator: "@ann:example.org".to_string(),
            room_version: None,
            meta: meta("$c", 1, "@ann:example.org"),
        }
    );
}

#[test]
fn parses_a_reaction() {
    let relation = object(vec![
        ("event_id", text("$1")),
        ("key", text("+1")),
        ("rel_type", text("m.annotation")),
    ]);
    let doc = raw_event(
        "m.reaction",
        Some(object(vec![("m.relates_to", relation)])),
        "$r",
        11,
        "@bob:example.org",
    );
    assert_eq!(
        Event::parse(&doc),
        Event::Reaction {
            relates_to: Relation {
                event_id: "$1".to_string(),
                key: "+1".to_string(),
                rel_type: "m.annotation".to_string(),
            },
            meta: meta("$r", 11, "@bob:example.org"),
        }
    );
}

#[test]
fn parses_the_encryption_markers() {
    let marker = raw_event("m.room.encryption", None, "$e1", 2, "@ann:example.org");
    assert_eq!(
        Event::parse(&marker),
        Event::RoomEncryption { meta: meta("$e1", 2, "@ann:example.org") }
    );
    let sealed = raw_event(
        "m.room.encrypted",
        Some(object(vec![("ciphertext", text("AAAA"))])),
        "$e2",
        3,
        "@ann:example.org",
    );
    assert_eq!(
        Event::parse(&sealed),
        Event::RoomEncrypted { meta: meta("$e2", 3, "@ann:example.org") }
    );
}

#[test]
fn unknown_type_is_kept_whole() {
    let doc = raw_event(
        "org.example.custom",
        Some(object(vec![("anything", Json::Array(vec![Json::Signed(-4), Json::Bool(true)]))])),
        "$x",
        12,
        "@ann:example.org",
    );
    let event = Event::parse(&doc);
    assert_eq!(event, Event::Unknown(doc.clone()));
    assert!(event.is_unknown());
    assert_eq!(event.serialize(), doc);
    assert_eq!(event.event_id(), Some(&"$x".to_string()));
    assert_eq!(event.meta(), None);
}

#[test]
fn missing_required_field_falls_back_to_unknown() {
    let no_body = raw_event(
        "m.room.message",
        Some(object(vec![("msgtype", text("m.text"))])),
        "$1",
        1000,
        "@ann:example.org",
    );
    assert_eq!(Event::parse(&no_body), Event::Unknown(no_body.clone()));
    let no_content = raw_event("m.room.name", None, "$2", 1000, "@ann:example.org");
    assert_eq!(Event::parse(&no_content), Event::Unknown(no_content.clone()));
    let no_sender = object(vec![
        ("type", text("m.room.encryption")),
        ("event_id", text("$3")),
        ("origin_server_ts", Json::Unsigned(1)),
    ]);
    assert_eq!(Event::parse(&no_sender), Event::Unknown(no_sender.clone()));
    let bad_ts = object(vec![
        ("type", text("m.room.encryption")),
        ("event_id", text("$3")),
        ("origin_server_ts", text("yesterday")),
        ("sender", text("@ann:example.org")),
    ]);
    assert_eq!(Event::parse(&bad_ts), Event::Unknown(bad_ts.clone()));
}

#[test]
fn documents_that_are_no_objects_are_kept_whole() {
    for doc in [Json::Null, Json::Bool(false), text("m.room.message"), Json::Array(vec![])] {
        let event = Event::parse(&doc);
        assert_eq!(event, Event::Unknown(doc.clone()));
        assert_eq!(event.event_id(), None);
        assert_eq!(event.serialize(), doc);
    }
}

#[test]
fn serializes_a_message_with_exact_members() {
    let event = Event::RoomMessage {
        body: "hi".to_string(),
        msgtype: "m.text".to_string(),
        meta: meta("$1", 42, "@ann:example.org"),
    };
    assert_eq!(
        event.serialize(),
        object(vec![
            ("type", text("m.room.message")),
            ("content", object(vec![("body", text("hi")), ("msgtype", text("m.text"))])),
            ("event_id", text("$1")),
            ("origin_server_ts", Json::Unsigned(42)),
            ("sender", text("@ann:example.org")),
        ])
    );
}

#[test]
fn serializes_absent_optional_fields_as_null() {
    let event = Event::RoomMember {
        displayname: None,
        membership: "join".to_string(),
        meta: meta("$1", 42, "@ann:example.org"),
    };
    let doc = event.serialize();
    assert_eq!(
        doc.get("content").and_then(|c| c.get("displayname")),
        Some(&Json::Null)
    );
    assert_eq!(Event::parse(&doc), event);
}

#[test]
fn serializes_an_encryption_marker_without_content() {
    let event = Event::RoomEncryption { meta: meta("$1", 42, "@ann:example.org") };
    let doc = event.serialize();
    assert_eq!(doc.get("content"), None);
    assert_eq!(doc.get("type"), Some(&text("m.room.encryption")));
}

#[test]
fn round_trip_of_every_typed_variant() {
    let m = || meta("$id", 77, "@ann:example.org");
    let events = vec![
        Event::RoomMessage { body: "b".to_string(), msgtype: "m.text".to_string(), meta: m() },
        Event::RoomName { name: "n".to_string(), meta: m() },
        Event::RoomMember {
            displayname: Some("d".to_string()),
            membership: "join".to_string(),
            meta: m(),
        },
        Event::RoomMember { displayname: None, membership: "ban".to_string(), meta: m() },
        Event::RoomCreate { creator: "c".to_string(), room_version: Some("9".to_string()), meta: m() },
        Event::RoomCreate { creator: "c".to_string(), room_version: None, meta: m() },
        Event::Reaction {
            relates_to: Relation {
                event_id: "$t".to_string(),
                key: "k".to_string(),
                rel_type: "m.annotation".to_string(),
            },
            meta: m(),
        },
        Event::RoomEncryption { meta: m() },
        Event::RoomEncrypted { meta: m() },
    ];
    for event in events {
        let doc = event.serialize();
        assert_eq!(Event::parse(&doc), event);
        assert_eq!(Event::parse(&doc).serialize(), doc);
    }
}

#[test]
fn written_document_keeps_required_fields_of_the_document_read() {
    let source = object(vec![
        ("sender", text("@ann:example.org")),
        ("unsigned", object(vec![("age", Json::Unsigned(5))])),
        ("origin_server_ts", Json::Unsigned(9)),
        (
            "content",
            object(vec![("format", text("html")), ("msgtype", text("m.text")), ("body", text("x"))]),
        ),
        ("event_id", text("$1")),
        ("type", text("m.room.message")),
    ]);
    let written = Event::parse(&source).serialize();
    for key in ["type", "event_id", "origin_server_ts", "sender"] {
        assert_eq!(written.get(key), source.get(key));
        assert!(written.get(key).is_some());
    }
    for key in ["body", "msgtype"] {
        assert_eq!(
            written.get("content").and_then(|c| c.get(key)),
            source.get("content").and_then(|c| c.get(key))
        );
    }
    assert_eq!(written.get("unsigned"), None);
}

#[test]
fn clone_of_an_event_is_equal() {
    let event = Event::parse(&message_doc("$1", "hello"));
    assert_eq!(event.clone(), event);
    let kept = Event::Unknown(object(vec![("a", Json::Array(vec![Json::Decimal("1.5".to_string())]))]));
    assert_eq!(kept.clone(), kept);
}

#[test]
fn parse_all_keeps_order_and_tolerates_malformed_events() {
    let odd = object(vec![("type", text("m.new.thing"))]);
    let docs = vec![message_doc("$1", "one"), odd.clone(), message_doc("$2", "two")];
    let events = parse_all(&docs);
    assert_eq!(events.len(), 3);
    assert_eq!(events[0].event_id(), Some(&"$1".to_string()));
    assert_eq!(events[1], Event::Unknown(odd));
    assert_eq!(events[2].event_id(), Some(&"$2".to_string()));
}

#[test]
fn first_member_wins_on_lookup() {
    let doc = object(vec![("a", Json::Unsigned(1)), ("b", Json::Unsigned(2)), ("a", Json::Unsigned(3))]);
    assert_eq!(doc.get("a"), Some(&Json::Unsigned(1)));
    assert_eq!(doc.get("b"), Some(&Json::Unsigned(2)));
    assert_eq!(doc.get("c"), None);
    assert_eq!(Json::Null.get("a"), None);
    assert_eq!(doc.unsigned_field("b"), Some(2));
    assert_eq!(doc.text_field("b"), None);
    assert_eq!(doc.optional_text_field("b"), None);
    assert_eq!(doc.optional_text_field("zz"), Some(None));
}

#[test]
fn accessors_tell_the_kinds_apart() {
    assert_eq!(text("x").as_text(), Some(&"x".to_string()));
    assert_eq!(Json::Unsigned(4).as_text(), None);
    assert_eq!(Json::Unsigned(4).as_unsigned(), Some(4));
    assert_eq!(Json::Signed(-4).as_unsigned(), None);
    assert_eq!(Json::Bool(true).as_bool(), Some(true));
    assert_eq!(Json::Null.as_bool(), None);
    assert_eq!(Json::Array(vec![Json::Null]).as_array(), Some(&vec![Json::Null]));
    assert_eq!(Json::Null.as_array(), None);
    assert!(object(vec![("k", Json::Null)]).as_object().is_some());
    assert_eq!(text("x").as_object(), None);
}
