//! The messages that nodes exchange.
//!
//! ```json
//! {
//!     "type": "clipboard | heartbeat | node_status",
//!     "sender_id": "device id",
//!     "payload": { ... },
//!     "timestamp": 1234567890000
//! }
//! ```
use crate::json::{text_member, Json};
use crate::outside::now_millis;
use vstd::prelude::*;

verus! {

/// What a message is about.
#[derive(Debug, Clone, Copy, PartialEq, Eq, Structural)]
pub enum MessageType {
    Clipboard,
    Heartbeat,
    NodeStatus,
}

/// A message as it travels between nodes.
#[derive(Debug)]
pub struct MeshMessage {
    pub msg_type: MessageType,
    pub sender_id: String,
    pub payload: Json,
    /// Unix time in milliseconds.
    pub timestamp: i64,
}

/// The payload of a clipboard message.
#[derive(Debug, Clone)]
pub struct ClipboardPayload {
    /// MIME type of the content.
    pub content_type: String,
    /// The sealed content, in base64.
    pub data: String,
    /// SHA-256 digest of the content, in hexadecimal.
    pub content_hash: String,
}

/// A clipboard payload as texts.
#[verifier::ext_equal]
pub struct PayloadTexts {
    pub content_type: Seq<char>,
    pub data: Seq<char>,
    pub content_hash: Seq<char>,
}

impl View for ClipboardPayload {
    type V = PayloadTexts;

    open spec fn view(&self) -> PayloadTexts {
        PayloadTexts {
            content_type: self.content_type@,
            data: self.data@,
            content_hash: self.content_hash@,
        }
    }
}

/// The clipboard payload that a JSON value holds: an object with the three texts
/// by name, whatever else it has, or an array of just the three texts.
pub open spec fn payload_in(v: Json) -> Option<PayloadTexts> {
    match v {
        Json::Object(_) => match (
            v.text_field("content_type"@),
            v.text_field("data"@),
            v.text_field("content_hash"@),
        ) {
            (Some(content_type), Some(data), Some(content_hash)) => Some(
                PayloadTexts { content_type, data, content_hash },
            ),
            _ => None,
        },
        Json::Array(items) => if items@.len() == 3 {
            match (items@[0].text(), items@[1].text(), items@[2].text()) {
                (Some(content_type), Some(data), Some(content_hash)) => Some(
                    PayloadTexts { content_type, data, content_hash },
                ),
                _ => None,
            }
        } else {
            None
        },
        _ => None,
    }
}

/// The members of the JSON form of a clipboard payload.
pub open spec fn payload_members(p: PayloadTexts) -> Seq<(Seq<char>, Seq<char>)> {
    seq![
        ("content_type"@, p.content_type),
        ("data"@, p.data),
        ("content_hash"@, p.content_hash),
    ]
}

/// A payload is read from an object by the names of its members, in whichever order
/// they stand and whatever else the object holds: there is one if and only if the three
/// names stand for texts, and each of its parts is the text of the member of that name.
pub proof fn a_payload_is_read_by_name(v: Json)
    requires
        v is Object,
        crate::json::names_differ(v->Object_0@),
    ensures
        match payload_in(v) {
            Some(p) => {
                &&& crate::json::holds_text(v->Object_0@, "content_type"@, p.content_type)
                &&& crate::json::holds_text(v->Object_0@, "data"@, p.data)
                &&& crate::json::holds_text(v->Object_0@, "content_hash"@, p.content_hash)
            },
            None => forall|content_type: Seq<char>, data: Seq<char>, content_hash: Seq<char>|
                !(#[trigger] crate::json::holds_text(
                    v->Object_0@,
                    "content_type"@,
                    content_type,
                ) && #[trigger] crate::json::holds_text(v->Object_0@, "data"@, data)
                    && #[trigger] crate::json::holds_text(
                    v->Object_0@,
                    "content_hash"@,
                    content_hash,
                )),
        },
{
    let members = v->Object_0@;
    crate::json::a_text_is_found_by_its_name(members, v, "content_type"@);
    crate::json::a_text_is_found_by_its_name(members, v, "data"@);
    crate::json::a_text_is_found_by_its_name(members, v, "content_hash"@);
}

/// A clipboard payload whose three texts stand in an object under their names is read
/// back, in whichever order they arrive and whatever else arrives with them.
pub proof fn payload_survives_any_order(v: Json, p: PayloadTexts)
    requires
        v is Object,
        crate::json::names_differ(v->Object_0@),
        crate::json::holds_text(v->Object_0@, "content_type"@, p.content_type),
        crate::json::holds_text(v->Object_0@, "data"@, p.data),
        crate::json::holds_text(v->Object_0@, "content_hash"@, p.content_hash),
    ensures
        payload_in(v) == Some(p),
{
    let members = v->Object_0@;
    crate::json::a_text_is_found_by_its_name(members, v, "content_type"@);
    crate::json::a_text_is_found_by_its_name(members, v, "data"@);
    crate::json::a_text_is_found_by_its_name(members, v, "content_hash"@);
}

/// Besides an object, only an array of just three texts holds a payload: the type, the
/// data and the digest, in that order.
pub proof fn a_payload_is_read_from_three_texts(v: Json)
    requires
        !(v is Object),
    ensures
        match payload_in(v) {
            Some(p) => {
                &&& v matches Json::Array(items) && items@.len() == 3
                &&& v->Array_0@[0] matches Json::Text(t) && t@ == p.content_type
                &&& v->Array_0@[1] matches Json::Text(t) && t@ == p.data
                &&& v->Array_0@[2] matches Json::Text(t) && t@ == p.content_hash
            },
            None => !(v is Array && v->Array_0@.len() == 3 && v->Array_0@[0] is Text && v->Array_0@[1]
                is Text && v->Array_0@[2] is Text),
        },
{
}

/// A clipboard payload is read back from its JSON form as it was written.
pub proof fn payload_round_trip(v: Json, p: PayloadTexts)
    requires
        crate::json::is_text_object(v, payload_members(p)),
    ensures
        payload_in(v) == Some(p),
{
    reveal_strlit("content_type");
    reveal_strlit("data");
    reveal_strlit("content_hash");
    let m = v->Object_0@;
    let texts = payload_members(p);
    assert(m[0].0@ == texts[0].0 && m[1].0@ == texts[1].0 && m[2].0@ == texts[2].0);
    assert("content_type"@ != "data"@ && "data"@ != "content_hash"@) by {
        assert("content_type"@.len() != "data"@.len());
        assert("content_hash"@.len() != "data"@.len());
    }
    assert("content_type"@ != "content_hash"@) by {
        assert("content_type"@[8] != "content_hash"@[8]);
    }
    reveal_with_fuel(crate::json::member, 4);
    assert(m.drop_first()[0] == m[1]);
    assert(m.drop_first().drop_first()[0] == m[2]);
}

impl ClipboardPayload {
    /// The JSON form of the payload.
    pub fn to_json(&self) -> (v: Json)
        ensures
            crate::json::is_text_object(v, payload_members(self@)),
            payload_in(v) == Some(self@),
            v is Object,
            v->Object_0@.len() == 3,
            crate::json::names_differ(v->Object_0@),
            crate::json::holds_text(v->Object_0@, "content_type"@, self.content_type@),
            crate::json::holds_text(v->Object_0@, "data"@, self.data@),
            crate::json::holds_text(v->Object_0@, "content_hash"@, self.content_hash@),
    {
        let mut members: Vec<(String, Json)> = Vec::new();
        members.push(text_member("content_type", self.content_type.as_str()));
        members.push(text_member("data", self.data.as_str()));
        members.push(text_member("content_hash", self.content_hash.as_str()));
        let v = Json::Object(members);
        proof {
            payload_round_trip(v, self@);
            reveal_strlit("content_type");
            reveal_strlit("data");
            reveal_strlit("content_hash");
            let m = v->Object_0@;
            assert(m[0].0@ == "content_type"@ && m[1].0@ == "data"@ && m[2].0@ == "content_hash"@);
            assert(m[0].0@.len() != m[1].0@.len() && m[1].0@.len() != m[2].0@.len());
            assert(m[0].0@[8] != m[2].0@[8]);
            assert(crate::json::names_differ(m));
        }
        v
    }

    /// Reads a payload from its JSON form.
    pub fn from_json(v: &Json) -> (r: Option<ClipboardPayload>)
        ensures
            match r {
                Some(p) => payload_in(*v) == Some(p@),
                None => payload_in(*v) is None,
            },
            *v is Array ==> match r {
                Some(p) => {
                    &&& v->Array_0@.len() == 3
                    &&& v->Array_0@[0] matches Json::Text(t) && t@ == p.content_type@
                    &&& v->Array_0@[1] matches Json::Text(t) && t@ == p.data@
                    &&& v->Array_0@[2] matches Json::Text(t) && t@ == p.content_hash@
                },
                None => !(v->Array_0@.len() == 3 && v->Array_0@[0] is Text && v->Array_0@[1] is Text
                    && v->Array_0@[2] is Text),
            },
            !(*v is Array || *v is Object) ==> r is None,
            *v is Object && crate::json::names_differ(v->Object_0@) ==> match r {
                Some(p) => {
                    &&& crate::json::holds_text(v->Object_0@, "content_type"@, p.content_type@)
                    &&& crate::json::holds_text(v->Object_0@, "data"@, p.data@)
                    &&& crate::json::holds_text(v->Object_0@, "content_hash"@, p.content_hash@)
                },
                None => forall|content_type: Seq<char>, data: Seq<char>, content_hash: Seq<char>|
                    !(#[trigger] crate::json::holds_text(
                        v->Object_0@,
                        "content_type"@,
                        content_type,
                    ) && #[trigger] crate::json::holds_text(v->Object_0@, "data"@, data)
                        && #[trigger] crate::json::holds_text(
                        v->Object_0@,
                        "content_hash"@,
                        content_hash,
                    )),
            },
    {
        proof {
            if *v is Object && crate::json::names_differ(v->Object_0@) {
                a_payload_is_read_by_name(*v);
            }
        }
        match v {
            Json::Object(_) => match (
                v.get_text("content_type"),
                v.get_text("data"),
                v.get_text("content_hash"),
            ) {
                (Some(content_type), Some(data), Some(content_hash)) => Some(
                    ClipboardPayload {
                        content_type: content_type.to_owned(),
                        data: data.to_owned(),
                        content_hash: content_hash.to_owned(),
                    },
                ),
                _ => None,
            },
            Json::Array(items) => if items.len() == 3 {
                match (items[0].as_str(), items[1].as_str(), items[2].as_str()) {
                    (Some(content_type), Some(data), Some(content_hash)) => Some(
                        ClipboardPayload {
                            content_type: content_type.to_owned(),
                            data: data.to_owned(),
                            content_hash: content_hash.to_owned(),
                        },
                    ),
                    _ => None,
                }
            } else {
                None
            },
            _ => None,
        }
    }
}

/// Makes the message that carries a clipboard's content.
pub fn build_clipboard_message(
    device_id: &str,
    encrypted_b64: &str,
    content_hash: &str,
    timestamp: i64,
) -> (m: MeshMessage)
    ensures
        m.msg_type == MessageType::Clipboard,
        m.sender_id@ == device_id@,
        m.timestamp == timestamp,
        ({
            let p = PayloadTexts {
                content_type: "text/plain"@,
                data: encrypted_b64@,
                content_hash: content_hash@,
            };
            &&& crate::json::is_text_object(m.payload, payload_members(p))
            &&& payload_in(m.payload) == Some(p)
        }),
        m.payload is Object,
        m.payload->Object_0@.len() == 3,
        crate::json::names_differ(m.payload->Object_0@),
        crate::json::holds_text(m.payload->Object_0@, "content_type"@, "text/plain"@),
        crate::json::holds_text(m.payload->Object_0@, "data"@, encrypted_b64@),
        crate::json::holds_text(m.payload->Object_0@, "content_hash"@, content_hash@),
{
    let payload = ClipboardPayload {
        content_type: "text/plain".to_owned(),
        data: encrypted_b64.to_owned(),
        content_hash: content_hash.to_owned(),
    };
    MeshMessage {
        msg_type: MessageType::Clipboard,
        sender_id: device_id.to_owned(),
        payload: payload.to_json(),
        timestamp,
    }
}

/// Makes the message with which a node introduces itself at a given time.
pub fn heartbeat_message_at(device_id: &str, device_name: &str, timestamp: i64) -> (m: MeshMessage)
    ensures
        m.msg_type == MessageType::Heartbeat,
        m.sender_id@ == device_id@,
        m.timestamp == timestamp,
        crate::json::is_text_object(m.payload, seq![("device_name"@, device_name@)]),
        crate::p2p_server::introduced_name(m) == device_name@,
        m.payload is Object,
        m.payload->Object_0@.len() == 1,
        crate::json::holds_text(m.payload->Object_0@, "device_name"@, device_name@),
{
    let mut members: Vec<(String, Json)> = Vec::new();
    members.push(text_member("device_name", device_name));
    assert(members@[0].0@ == "device_name"@);
    MeshMessage {
        msg_type: MessageType::Heartbeat,
        sender_id: device_id.to_owned(),
        payload: Json::Object(members),
        timestamp,
    }
}

/// A time that was read is what the clock gave.
pub(crate) proof fn a_time_read_is_what_the_clock_gave(timestamp: i64)
    requires
        time_was_read(timestamp),
    ensures
        call_ensures(now_millis, (), timestamp),
{
}

/// Whether `timestamp` is what the clock gave.
pub closed spec fn time_was_read(timestamp: i64) -> bool {
    call_ensures(now_millis, (), timestamp)
}

/// Makes the message with which a node introduces itself, carrying its name and the
/// time.
pub fn build_heartbeat_message(device_id: &str, device_name: &str) -> (m: MeshMessage)
    ensures
        m.msg_type == MessageType::Heartbeat,
        m.sender_id@ == device_id@,
        time_was_read(m.timestamp),
        crate::json::is_text_object(m.payload, seq![("device_name"@, device_name@)]),
        crate::p2p_server::introduced_name(m) == device_name@,
        m.payload is Object,
        m.payload->Object_0@.len() == 1,
        crate::json::holds_text(m.payload->Object_0@, "device_name"@, device_name@),
{
    heartbeat_message_at(device_id, device_name, now_millis())
}

/// The first eight characters of an identifier, or all of a shorter one.
pub open spec fn short_form(id: Seq<char>) -> Seq<char> {
    if id.len() <= 8 {
        id
    } else {
        id.take(8)
    }
}

/// A shortened identifier is the beginning of the identifier, of eight characters, or
/// all of one that has no more.
pub proof fn a_short_form_is_the_beginning(id: Seq<char>)
    ensures
        short_form(id).is_prefix_of(id),
        id.len() <= 8 ==> short_form(id).len() == id.len(),
        id.len() > 8 ==> short_form(id).len() == 8,
{
}

/// Cuts an identifier to its first eight characters.
pub fn short_id(id: &str) -> (r: &str)
    ensures
        r@ == short_form(id@),
        r@.is_prefix_of(id@),
        id@.len() <= 8 ==> r@ == id@,
        id@.len() > 8 ==> r@.len() == 8,
{
    if id.unicode_len() <= 8 {
        id
    } else {
        id.substring_char(0, 8)
    }
}

} // verus!
