use clip_mesh::json::{text_member, Json};
use clip_mesh::websocket::{
    build_clipboard_message, build_heartbeat_message, heartbeat_message_at, short_id,
    ClipboardPayload, MessageType,
};

fn object(members: Vec<(&str, Json)>) -> Json {
    Json::Object(members.into_iter().map(|(k, v)| (k.to_string(), v)).collect())
}

fn text(s: &str) -> Json {
    Json::Text(s.to_string())
}

#[test]
fn members_are_found_by_name() {
    let v = object(vec![("a", text("1")), ("b", Json::Bool(true)), ("c", Json::Null)]);
    assert_eq!(v.get_text("a"), Some("1"));
    assert!(matches!(v.get("b"), Some(Json::Bool(true))));
    assert_eq!(v.get_text("b"), None);
    assert!(matches!(v.get("c"), Some(Json::Null)));
    assert!(v.get("d").is_none());
    assert!(Json::Array(vec![text("a")]).get("a").is_none());
    assert!(text("a").get("a").is_none());
    assert_eq!(text("a").as_str(), Some("a"));
    assert_eq!(Json::Number("1".to_string()).as_str(), None);
}

#[test]
fn a_text_member_holds_its_text() {
    let (name, value) = text_member("k", "v");
    assert_eq!(name, "k");
    assert_eq!(value.as_str(), Some("v"));
}

#[test]
fn a_clipboard_message_carries_its_payload() {
    let m = build_clipboard_message("dev1", "c2VhbGVk", "00ff", 1234);
    assert_eq!(m.msg_type, MessageType::Clipboard);
    assert_eq!(m.sender_id, "dev1");
    assert_eq!(m.timestamp, 1234);
    assert_eq!(m.payload.get_text("content_type"), Some("text/plain"));
    assert_eq!(m.payload.get_text("data"), Some("c2VhbGVk"));
    assert_eq!(m.payload.get_text("content_hash"), Some("00ff"));
    match &m.payload {
        Json::Object(members) => assert_eq!(members.len(), 3),
        _ => panic!("an object was expected"),
    }
}

#[test]
fn a_payload_is_read_back() {
    let p = ClipboardPayload {
        content_type: "text/plain".to_string(),
        data: "d".to_string(),
        content_hash: "h".to_string(),
    };
    let q = ClipboardPayload::from_json(&p.to_json()).unwrap();
    assert_eq!(q.content_type, p.content_type);
    assert_eq!(q.data, p.data);
    assert_eq!(q.content_hash, p.content_hash);
}

#[test]
fn further_members_of_a_payload_are_ignored() {
    let v = object(vec![
        ("data", text("d")),
        ("extra", Json::Null),
        ("content_hash", text("h")),
        ("content_type", text("t")),
    ]);
    let p = ClipboardPayload::from_json(&v).unwrap();
    assert_eq!((p.content_type.as_str(), p.data.as_str(), p.content_hash.as_str()), ("t", "d", "h"));
}

#[test]
fn a_payload_may_be_an_array() {
    let p = ClipboardPayload::from_json(&Json::Array(vec![text("t"), text("d"), text("h")])).unwrap();
    assert_eq!((p.content_type.as_str(), p.data.as_str(), p.content_hash.as_str()), ("t", "d", "h"));
    assert!(ClipboardPayload::from_json(&Json::Array(vec![text("t"), text("d")])).is_none());
    assert!(ClipboardPayload::from_json(&Json::Array(vec![text("t"), text("d"), Json::Null])).is_none());
}

#[test]
fn other_values_are_no_payload() {
    assert!(ClipboardPayload::from_json(&Json::Null).is_none());
    assert!(ClipboardPayload::from_json(&text("data")).is_none());
    assert!(ClipboardPayload::from_json(&object(vec![("data", text("d")), ("content_type", text("t"))]))
        .is_none());
    assert!(ClipboardPayload::from_json(&object(vec![
        ("content_type", text("t")),
        ("data", Json::Number("1".to_string())),
        ("content_hash", text("h")),
    ]))
    .is_none());
}

#[test]
fn a_heartbeat_carries_the_name() {
    let m = heartbeat_message_at("dev1", "书房", 42);
    assert_eq!(m.msg_type, MessageType::Heartbeat);
    assert_eq!(m.sender_id, "dev1");
    assert_eq!(m.timestamp, 42);
    assert_eq!(m.payload.get_text("device_name"), Some("书房"));
}

#[test]
fn a_heartbeat_is_dated_now() {
    // Some day after the year 2020.
    assert!(build_heartbeat_message("d", "n").timestamp > 1_577_836_800_000);
}

#[test]
fn identifiers_are_cut_to_eight_characters() {
    assert_eq!(short_id(""), "");
    assert_eq!(short_id("1234567"), "1234567");
    assert_eq!(short_id("12345678"), "12345678");
    assert_eq!(short_id("123456789"), "12345678");
    assert_eq!(short_id("一二三四五六七八九"), "一二三四五六七八");
}
