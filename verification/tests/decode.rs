use room_history::decode::{decode, decode_within, MAX_DEPTH};
use room_history::error::DecodeError;
use room_history::event::Event;
use room_history::json::Json;
use room_history::page::Page;
use room_history::sync::SyncResponse;

fn text(s: &str) -> Json {
    Json::Text(s.to_string())
}

fn object(members: Vec<(&str, Json)>) -> Json {
    Json::Object(members.into_iter().map(|(k, v)| (k.to_string(), v)).collect())
}

#[test]
fn decodes_scalars() {
    assert_eq!(decode("null"), Ok(Json::Null));
    assert_eq!(decode("true"), Ok(Json::Bool(true)));
    assert_eq!(decode(" false "), Ok(Json::Bool(false)));
    assert_eq!(decode("\"a\\nb\\u00e9\""), Ok(text("a\nb\u{e9}")));
    assert_eq!(decode("\"\""), Ok(text("")));
}

#[test]
fn decodes_numbers_by_kind() {
    assert_eq!(decode("0"), Ok(Json::Unsigned(0)));
    assert_eq!(decode("18446744073709551615"), Ok(Json::Unsigned(u64::MAX)));
    assert_eq!(decode("-1"), Ok(Json::Signed(-1)));
    assert_eq!(decode("-9223372036854775808"), Ok(Json::Signed(i64::MIN)));
    assert_eq!(decode("1.5"), Ok(Json::Decimal("1.5".to_string())));
    assert_eq!(decode("1e2"), Ok(Json::Decimal("100.0".to_string())));
    assert_eq!(decode("-0.25"), Ok(Json::Decimal("-0.25".to_string())));
}

#[test]
fn decodes_arrays_and_objects() {
    assert_eq!(decode("[]"), Ok(Json::Array(vec![])));
    assert_eq!(decode("{}"), Ok(Json::Object(vec![])));
    assert_eq!(
        decode("[1, \"two\", [null], {\"k\": false}]"),
        Ok(Json::Array(vec![
            Json::Unsigned(1),
            text("two"),
            Json::Array(vec![Json::Null]),
            object(vec![("k", Json::Bool(false))]),
        ]))
    );
}

#[test]
fn decoded_members_can_be_looked_up() {
    let doc = decode("{\"b\": 2, \"a\": {\"inner\": \"x\"}, \"c\": [3]}").unwrap();
    assert_eq!(doc.get("a"), Some(&object(vec![("inner", text("x"))])));
    assert_eq!(doc.get("b"), Some(&Json::Unsigned(2)));
    assert_eq!(doc.get("c"), Some(&Json::Array(vec![Json::Unsigned(3)])));
    assert_eq!(doc.get("d"), None);
    assert_eq!(doc.as_object().map(|members| members.len()), Some(3));
}

#[test]
fn last_of_repeated_members_is_the_one_decoded() {
    assert_eq!(decode("{\"a\": 1, \"a\": 2}"), Ok(object(vec![("a", Json::Unsigned(2))])));
}

#[test]
fn refuses_what_is_no_json() {
    for bad in ["", "{", "[1,]", "{\"a\" 1}", "nul", "\"open", "1 2"] {
        match decode(bad) {
            Err(DecodeError::Syntax(message)) => assert!(!message.is_empty()),
            other => panic!("{:?} decoded as {:?}", bad, other),
        }
    }
    assert_eq!(
        decode("{"),
        Err(DecodeError::Syntax("EOF while parsing an object at line 1 column 1".to_string()))
    );
}

#[test]
fn nesting_up_to_the_limit_is_decoded() {
    let levels = MAX_DEPTH - 1;
    let nested = format!("{}{}", "[".repeat(levels), "]".repeat(levels));
    let mut doc = decode(&nested).unwrap();
    let mut seen = 0;
    while let Json::Array(mut items) = doc {
        seen += 1;
        match items.pop() {
            Some(inner) => doc = inner,
            None => break,
        }
    }
    assert_eq!(seen, levels);
    let deeper = format!("{}{}", "[".repeat(levels + 1), "]".repeat(levels + 1));
    assert!(decode(&deeper).is_err());
}

#[test]
fn decodes_an_event_from_text() {
    let raw = decode(
        "{\"type\":\"m.room.message\",\"content\":{\"body\":\"hi\",\"msgtype\":\"m.text\"},\
         \"event_id\":\"$1\",\"origin_server_ts\":1570000000000,\"sender\":\"@ann:example.org\",\
         \"unsigned\":{\"age\":1.5}}",
    )
    .unwrap();
    match Event::parse(&raw) {
        Event::RoomMessage { body, msgtype, meta } => {
            assert_eq!(body, "hi");
            assert_eq!(msgtype, "m.text");
            assert_eq!(meta.event_id, "$1");
            assert_eq!(meta.origin_server_ts, 1570000000000);
            assert_eq!(meta.sender, "@ann:example.org");
        },
        other => panic!("unexpected {:?}", other),
    }
}

#[test]
fn event_with_negative_timestamp_is_kept_whole() {
    let raw = decode(
        "{\"type\":\"m.room.encryption\",\"event_id\":\"$1\",\"origin_server_ts\":-5,\
         \"sender\":\"@ann:example.org\"}",
    )
    .unwrap();
    assert_eq!(Event::parse(&raw), Event::Unknown(raw.clone()));
}

#[test]
fn decodes_a_page_from_text() {
    let answer = "{\"chunk\":[{\"type\":\"m.room.name\",\"content\":{\"name\":\"Lobby\"},\
                  \"event_id\":\"$n\",\"origin_server_ts\":7,\"sender\":\"@ann:example.org\"},\
                  {\"type\":\"m.fancy\",\"event_id\":\"$f\"}],\"start\":\"t1\",\"end\":\"t2\"}";
    let page = Page::parse(&decode(answer).unwrap()).unwrap();
    assert_eq!(page.start, "t1");
    assert_eq!(page.end, "t2");
    assert_eq!(page.events.len(), 2);
    assert!(matches!(page.events[0], Event::RoomName { .. }));
    assert!(page.events[1].is_unknown());
    assert_eq!(page.events[1].event_id(), Some(&"$f".to_string()));
    let not_a_page = decode("{\"chunk\":[],\"start\":\"t1\"}").unwrap();
    assert_eq!(Page::parse(&not_a_page), Err(DecodeError::Schema("end".to_string())));
}

#[test]
fn decodes_a_synchronisation_from_text() {
    let answer = "{\"next_batch\":\"s9\",\"rooms\":{\"invite\":{},\"leave\":{},\"join\":{\
                  \"!b:example.org\":{\"state\":{\"events\":[]},\"timeline\":{\"events\":[],\
                  \"limited\":true,\"prev_batch\":\"hb\"}},\
                  \"!a:example.org\":{\"state\":{\"events\":[]},\"timeline\":{\"events\":[],\
                  \"limited\":false,\"prev_batch\":\"ha\"}}}}}";
    let sync = SyncResponse::parse(&decode(answer).unwrap()).unwrap();
    assert_eq!(sync.next_batch, "s9");
    assert_eq!(sync.join.len(), 2);
    let mut rooms: Vec<(&str, bool)> =
        sync.join.iter().map(|(id, room)| (id.as_str(), room.is_limited())).collect();
    rooms.sort();
    assert_eq!(rooms, vec![("!a:example.org", false), ("!b:example.org", true)]);
}

#[test]
fn nesting_beyond_the_given_limit_is_refused() {
    assert_eq!(decode_within("7", 1), Ok(Json::Unsigned(7)));
    assert_eq!(decode_within("7", 0), Err(DecodeError::TooDeep));
    assert_eq!(decode_within("[]", 1), Ok(Json::Array(vec![])));
    assert_eq!(decode_within("[7]", 1), Err(DecodeError::TooDeep));
    assert_eq!(decode_within("[7]", 2), Ok(Json::Array(vec![Json::Unsigned(7)])));
    assert_eq!(decode_within("{\"a\": [1, [2]]}", 3), Err(DecodeError::TooDeep));
    assert_eq!(
        decode_within("{\"a\": [1, [2]]}", 4),
        Ok(object(vec![(
            "a",
            Json::Array(vec![Json::Unsigned(1), Json::Array(vec![Json::Unsigned(2)])])
        )]))
    );
    assert!(matches!(decode_within("[", 0), Err(DecodeError::Syntax(_))));
    assert_eq!(DecodeError::TooDeep.message(), "document nested too deeply");
}
