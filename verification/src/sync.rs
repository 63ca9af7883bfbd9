//! From the local clipboard to the other nodes and back.
//!
//! A change of the clipboard is sealed and sent with the digest of its text. A
//! message that arrives is opened, and its text goes to the local clipboard.
use crate::clipboard::ClipboardEvent;
use crate::crypto::MeshCipher;
use crate::json::{text_member, Json};
use crate::outside::{hex_encode, sha256_digest};
use crate::text::{decimal_string, same_text};
use crate::websocket::{build_clipboard_message, ClipboardPayload, MeshMessage, MessageType};
use vstd::prelude::*;

verus! {

/// How many characters of a text a notice shows.
pub const PREVIEW_LEN: usize = 20;

/// What comes of a change of the clipboard.
#[derive(Debug)]
pub enum Outgoing {
    /// Synchronisation is paused or switched off; the change is dropped.
    Paused,
    /// The text could not be sealed.
    EncryptionFailed(String),
    /// To be sent to every connected node.
    Send(MeshMessage),
}

/// What comes of a message from another node.
#[derive(Debug)]
pub enum Incoming {
    /// It is not about the clipboard.
    NotClipboard,
    /// It is this node's own.
    OwnMessage,
    /// Synchronisation is paused or switched off; the message is dropped.
    Paused,
    /// It holds no clipboard payload.
    InvalidPayload,
    /// Its content could not be opened.
    DecryptionFailed(String),
    /// Its text is to be put on the clipboard. `intact` says whether the digest
    /// sent along is that of the text; a text is written in either case.
    Write { text: String, intact: bool },
}

/// `Incoming`, over sequences.
#[verifier::ext_equal]
pub enum IncomingModel {
    NotClipboard,
    OwnMessage,
    Paused,
    InvalidPayload,
    DecryptionFailed(Seq<char>),
    Write { text: Seq<char>, intact: bool },
}

impl View for Incoming {
    type V = IncomingModel;

    open spec fn view(&self) -> IncomingModel {
        match *self {
            Incoming::NotClipboard => IncomingModel::NotClipboard,
            Incoming::OwnMessage => IncomingModel::OwnMessage,
            Incoming::Paused => IncomingModel::Paused,
            Incoming::InvalidPayload => IncomingModel::InvalidPayload,
            Incoming::DecryptionFailed(e) => IncomingModel::DecryptionFailed(e@),
            Incoming::Write { text, intact } => IncomingModel::Write { text: text@, intact },
        }
    }
}

/// The digest that goes with a text: SHA-256 of its UTF-8 bytes, in hexadecimal.
pub open spec fn text_digest(text: Seq<char>) -> Seq<char> {
    crate::text::hex_lower(crate::outside::sha256(vstd::utf8::encode_utf8(text)))
}

/// The digest that goes with a text covers all of it: it is the hexadecimal form of
/// SHA-256 of every UTF-8 byte of the text, however long it is.
pub proof fn a_digest_covers_the_whole_text(text: Seq<char>)
    ensures
        text_digest(text) == crate::text::hex_lower(
            crate::outside::sha256(vstd::utf8::encode_utf8(text)),
        ),
        crate::text::is_hex(text_digest(text)),
        crate::text::hex_bytes(text_digest(text)) == crate::outside::sha256(
            vstd::utf8::encode_utf8(text),
        ),
{
    crate::text::hex_round_trip(crate::outside::sha256(vstd::utf8::encode_utf8(text)));
}

/// Computes the digest that goes with a text.
pub fn content_hash(text: &str) -> (h: String)
    ensures
        h@ == text_digest(text@),
        h@ == crate::text::hex_lower(crate::outside::sha256(vstd::utf8::encode_utf8(text@))),
        h@.len() == 64,
{
    let digest = sha256_digest(text.as_bytes());
    hex_encode(digest.as_slice())
}

/// What becomes of a clipboard message once its payload was opened, or not.
pub open spec fn received(payload_hash: Seq<char>, opened: Result<Seq<char>, Seq<char>>) -> IncomingModel {
    match opened {
        Ok(text) => IncomingModel::Write { text, intact: text_digest(text) == payload_hash },
        Err(e) => IncomingModel::DecryptionFailed(e),
    }
}

/// What a node with the given key and id makes of a message.
pub open spec fn incoming_model(
    key: Seq<u8>,
    our_id: Seq<char>,
    sync_enabled: bool,
    paused: bool,
    m: MeshMessage,
) -> IncomingModel {
    if m.msg_type != MessageType::Clipboard {
        IncomingModel::NotClipboard
    } else if m.sender_id@ == our_id {
        IncomingModel::OwnMessage
    } else if paused || !sync_enabled {
        IncomingModel::Paused
    } else {
        match crate::websocket::payload_in(m.payload) {
            None => IncomingModel::InvalidPayload,
            Some(p) => received(
                p.content_hash,
                crate::crypto::opened_text(key, p.data, Seq::empty()),
            ),
        }
    }
}

/// A message is taken for what it is: one that is not about the clipboard, is this
/// node's own, arrives while synchronisation is off or holds no payload is dropped. Of
/// any other, the text that AES-256-GCM gives under the node's own key is written, whole;
/// it counts as intact if and only if the digest sent along is that of all its bytes.
pub proof fn a_message_is_taken_for_what_it_is(
    key: Seq<u8>,
    our_id: Seq<char>,
    sync_enabled: bool,
    paused: bool,
    m: MeshMessage,
)
    ensures
        ({
            let r = incoming_model(key, our_id, sync_enabled, paused, m);
            let heeded = m.msg_type == MessageType::Clipboard && m.sender_id@ != our_id
                && sync_enabled && !paused;
            let payload = crate::websocket::payload_in(m.payload);
            &&& r is NotClipboard <==> m.msg_type != MessageType::Clipboard
            &&& r is OwnMessage <==> m.msg_type == MessageType::Clipboard && m.sender_id@ == our_id
            &&& r is Paused <==> m.msg_type == MessageType::Clipboard && m.sender_id@ != our_id && (
            paused || !sync_enabled)
            &&& r is InvalidPayload <==> heeded && payload is None
            &&& heeded && payload is Some ==> match crate::outside::base64_decoded(
                payload->0.data,
            ) {
                Err(_) => r is DecryptionFailed,
                Ok(sealed) => if sealed.len() < 28 {
                    r is DecryptionFailed
                } else {
                    match crate::outside::aes256_gcm_opened(
                        key,
                        sealed.take(12),
                        sealed.skip(12),
                        Seq::empty(),
                    ) {
                        None => r is DecryptionFailed,
                        Some(bytes) => if vstd::utf8::valid_utf8(bytes) {
                            r matches IncomingModel::Write { text, intact } && {
                                &&& vstd::utf8::encode_utf8(text) == bytes
                                &&& intact <==> payload->0.content_hash == crate::text::hex_lower(
                                    crate::outside::sha256(bytes),
                                )
                            }
                        } else {
                            r is DecryptionFailed
                        },
                    }
                },
            }
        }),
{
    let payload = crate::websocket::payload_in(m.payload);
    if payload is Some {
        crate::crypto::opened_text_is_what_aes_gcm_gives(key, payload->0.data, Seq::empty());
    }
}

/// Whether `m` is the clipboard message for a text sealed as `sealed`.
pub open spec fn carries(
    m: MeshMessage,
    device_id: Seq<char>,
    text: Seq<char>,
    timestamp: i64,
    sealed: Seq<char>,
) -> bool {
    &&& m.msg_type == MessageType::Clipboard
    &&& m.sender_id@ == device_id
    &&& m.timestamp == timestamp
    &&& crate::json::is_text_object(
        m.payload,
        crate::websocket::payload_members(
            crate::websocket::PayloadTexts {
                content_type: "text/plain"@,
                data: sealed,
                content_hash: text_digest(text),
            },
        ),
    )
}

/// A text that one node sends arrives: every other node with the same key that
/// synchronises puts just that text on its clipboard, and finds its digest right;
/// the sender itself drops the message.
pub proof fn sent_text_arrives(
    m: MeshMessage,
    key: Seq<u8>,
    sender_id: Seq<char>,
    text: Seq<char>,
    timestamp: i64,
    sealed: Seq<char>,
    our_id: Seq<char>,
)
    requires
        carries(m, sender_id, text, timestamp, sealed),
        crate::crypto::opened_text(key, sealed, Seq::empty()) == Ok::<Seq<char>, Seq<char>>(text),
    ensures
        our_id != sender_id ==> incoming_model(key, our_id, true, false, m) == (
        IncomingModel::Write { text, intact: true }),
        our_id == sender_id ==> incoming_model(key, our_id, true, false, m)
            == IncomingModel::OwnMessage,
{
    crate::websocket::payload_round_trip(
        m.payload,
        crate::websocket::PayloadTexts {
            content_type: "text/plain"@,
            data: sealed,
            content_hash: text_digest(text),
        },
    );
}

/// A text that one node sends arrives in whichever order the members of the payload
/// stand when it gets there, and whatever else stands among them: every other node with
/// the same key that synchronises writes just that text, and finds its digest right.
pub proof fn sent_text_arrives_in_any_order(
    m: MeshMessage,
    key: Seq<u8>,
    nonce: Seq<u8>,
    sealed: Seq<char>,
    text: Seq<char>,
    our_id: Seq<char>,
)
    requires
        m.msg_type == MessageType::Clipboard,
        m.sender_id@ != our_id,
        m.payload is Object,
        crate::json::names_differ(m.payload->Object_0@),
        crate::json::holds_text(m.payload->Object_0@, "content_type"@, "text/plain"@),
        crate::json::holds_text(m.payload->Object_0@, "data"@, sealed),
        crate::json::holds_text(
            m.payload->Object_0@,
            "content_hash"@,
            crate::text::hex_lower(crate::outside::sha256(vstd::utf8::encode_utf8(text))),
        ),
        nonce.len() == 12,
        crate::outside::base64_decoded(sealed) == Ok::<Seq<u8>, Seq<char>>(
            nonce + crate::outside::aes256_gcm_sealed(
                key,
                nonce,
                vstd::utf8::encode_utf8(text),
                Seq::empty(),
            ),
        ),
        crate::outside::aes256_gcm_sealed(
            key,
            nonce,
            vstd::utf8::encode_utf8(text),
            Seq::empty(),
        ).len() >= 16,
        crate::outside::aes256_gcm_opened(
            key,
            nonce,
            crate::outside::aes256_gcm_sealed(
                key,
                nonce,
                vstd::utf8::encode_utf8(text),
                Seq::empty(),
            ),
            Seq::empty(),
        ) == Some(vstd::utf8::encode_utf8(text)),
    ensures
        incoming_model(key, our_id, true, false, m) == (IncomingModel::Write {
            text,
            intact: true,
        }),
{
    let body = crate::outside::aes256_gcm_sealed(
        key,
        nonce,
        vstd::utf8::encode_utf8(text),
        Seq::empty(),
    );
    assert((nonce + body).take(12) =~= nonce);
    assert((nonce + body).skip(12) =~= body);
    crate::websocket::payload_survives_any_order(
        m.payload,
        crate::websocket::PayloadTexts {
            content_type: "text/plain"@,
            data: sealed,
            content_hash: crate::text::hex_lower(
                crate::outside::sha256(vstd::utf8::encode_utf8(text)),
            ),
        },
    );
    vstd::utf8::encode_utf8_valid_utf8(text);
    vstd::utf8::encode_utf8_decode_utf8(text);
    a_message_is_taken_for_what_it_is(key, our_id, true, false, m);
    let written = incoming_model(key, our_id, true, false, m)->Write_text;
    vstd::utf8::encode_utf8_decode_utf8(written);
}

/// While synchronisation is paused or switched off nothing that arrives is written.
pub proof fn nothing_is_written_while_off(
    key: Seq<u8>,
    our_id: Seq<char>,
    sync_enabled: bool,
    paused: bool,
    m: MeshMessage,
)
    requires
        paused || !sync_enabled,
    ensures
        !(incoming_model(key, our_id, sync_enabled, paused, m) is Write),
{
}

/// Whether `m` carries the text sealed under `key` and a nonce that was drawn for it,
/// in a form that opens to the text again.
pub open spec fn carries_sealed(
    m: MeshMessage,
    key: Seq<u8>,
    device_id: Seq<char>,
    text: Seq<char>,
    timestamp: i64,
) -> bool {
    exists|nonce: Seq<u8>|
        {
            let sealed = crate::outside::base64_encoded(
                #[trigger] crate::crypto::sealed_message(
                    key,
                    nonce,
                    vstd::utf8::encode_utf8(text),
                    Seq::empty(),
                ),
            );
            &&& nonce.len() == crate::crypto::NONCE_SIZE
            &&& crate::crypto::nonce_was_drawn(nonce)
            &&& carries(m, device_id, text, timestamp, sealed)
            &&& crate::crypto::opened_text(key, sealed, Seq::empty()) == Ok::<
                Seq<char>,
                Seq<char>,
            >(text)
        }
}

/// Makes the message for a change of the clipboard, given what sealing its text gave.
pub fn outgoing_sealed(device_id: &str, event: &ClipboardEvent, sealed: Result<String, String>) -> (r:
    Outgoing)
    ensures
        match sealed {
            Ok(b64) => r matches Outgoing::Send(m) && carries(
                m,
                device_id@,
                event.text@,
                event.timestamp,
                b64@,
            ) && {
                &&& m.msg_type == MessageType::Clipboard
                &&& m.sender_id@ == device_id@
                &&& m.timestamp == event.timestamp
                &&& m.payload is Object
                &&& crate::json::names_differ(m.payload->Object_0@)
                &&& crate::json::holds_text(m.payload->Object_0@, "content_type"@, "text/plain"@)
                &&& crate::json::holds_text(m.payload->Object_0@, "data"@, b64@)
                &&& crate::json::holds_text(
                    m.payload->Object_0@,
                    "content_hash"@,
                    crate::text::hex_lower(
                        crate::outside::sha256(vstd::utf8::encode_utf8(event.text@)),
                    ),
                )
            },
            Err(e) => r == Outgoing::EncryptionFailed(e),
        },
{
    match sealed {
        Ok(b64) => {
            let hash = content_hash(event.text.as_str());
            Outgoing::Send(
                build_clipboard_message(device_id, b64.as_str(), hash.as_str(), event.timestamp),
            )
        },
        Err(e) => Outgoing::EncryptionFailed(e),
    }
}

/// Seals a change of the clipboard for the other nodes, under a nonce drawn for this
/// message. Nothing is sent while synchronisation is paused or switched off. What is sent arrives: every other
/// node with the same key that synchronises makes the same text of it.
pub fn outgoing(
    cipher: &MeshCipher,
    device_id: &str,
    sync_enabled: bool,
    paused: bool,
    event: &ClipboardEvent,
) -> (r: Outgoing)
    requires
        sync_enabled && !paused ==> (vstd::utf8::encode_utf8(event.text@).len() + crate::crypto::NONCE_SIZE
            + crate::crypto::TAG_SIZE + 2) / 3 * 4 <= isize::MAX,
    ensures
        match r {
            Outgoing::Paused => paused || !sync_enabled,
            Outgoing::EncryptionFailed(e) => {
                &&& sync_enabled && !paused
                &&& vstd::utf8::encode_utf8(event.text@).len() > 0x10_0000_0000
                &&& e@ == "Encryption failed: "@ + "aead::Error"@
                &&& !crate::outside::gcm_accepts(
                    vstd::utf8::encode_utf8(event.text@),
                    Seq::empty(),
                )
                &&& e@ == crate::crypto::encryption_error()
            },
            Outgoing::Send(m) => {
                &&& sync_enabled && !paused
                &&& crate::outside::gcm_accepts(
                    vstd::utf8::encode_utf8(event.text@),
                    Seq::empty(),
                )
                &&& carries_sealed(m, cipher.key(), device_id@, event.text@, event.timestamp)
                &&& m.msg_type == MessageType::Clipboard
                &&& m.sender_id@ == device_id@
                &&& m.timestamp == event.timestamp
                &&& m.payload is Object
                &&& crate::json::names_differ(m.payload->Object_0@)
                &&& crate::json::holds_text(m.payload->Object_0@, "content_type"@, "text/plain"@)
                &&& crate::json::holds_text(
                    m.payload->Object_0@,
                    "content_hash"@,
                    crate::text::hex_lower(
                        crate::outside::sha256(vstd::utf8::encode_utf8(event.text@)),
                    ),
                )
                &&& exists|nonce: Seq<u8>|
                    {
                        &&& nonce.len() == 12
                        &&& crate::crypto::nonce_was_drawn(nonce)
                        &&& crate::json::holds_text(
                            m.payload->Object_0@,
                            "data"@,
                            crate::outside::base64_encoded(
                                nonce + #[trigger] crate::outside::aes256_gcm_sealed(
                                    cipher.key(),
                                    nonce,
                                    vstd::utf8::encode_utf8(event.text@),
                                    Seq::empty(),
                                ),
                            ),
                        )
                    }
                &&& forall|our_id: Seq<char>|
                    our_id != device_id@ ==> #[trigger] incoming_model(
                        cipher.key(),
                        our_id,
                        true,
                        false,
                        m,
                    ) == (IncomingModel::Write { text: event.text@, intact: true })
            },
        },
{
    if paused || !sync_enabled {
        return Outgoing::Paused;
    }
    let aad: [u8; 0] = [];
    let sealed = cipher.encrypt_text(event.text.as_str(), aad.as_slice());
    assert(aad@ =~= Seq::empty());
    let ghost was_sealed = sealed is Ok;
    let ghost b64 = sealed->Ok_0@;
    let r = outgoing_sealed(device_id, event, sealed);
    proof {
        if was_sealed {
            let m = r->Send_0;
            assert(carries(m, device_id@, event.text@, event.timestamp, b64));
            assert forall|our_id: Seq<char>| our_id != device_id@ implies #[trigger] incoming_model(
                cipher.key(),
                our_id,
                true,
                false,
                m,
            ) == (IncomingModel::Write { text: event.text@, intact: true }) by {
                sent_text_arrives(
                    m,
                    cipher.key(),
                    device_id@,
                    event.text@,
                    event.timestamp,
                    b64,
                    our_id,
                );
            }
        }
    }
    r
}

/// Says what to make of an opened payload, given the digest sent along with it.
pub fn incoming_opened(payload_hash: &str, opened: Result<String, String>) -> (r: Incoming)
    ensures
        r@ == received(
            payload_hash@,
            match opened {
                Ok(text) => Ok(text@),
                Err(e) => Err(e@),
            },
        ),
        match opened {
            Ok(opened_text) => r matches Incoming::Write { text, intact } && {
                &&& text@ == opened_text@
                &&& intact <==> payload_hash@ == crate::text::hex_lower(
                    crate::outside::sha256(vstd::utf8::encode_utf8(opened_text@)),
                )
            },
            Err(e) => r == Incoming::DecryptionFailed(e),
        },
{
    match opened {
        Ok(text) => {
            let hash = content_hash(text.as_str());
            let intact: bool = same_text(hash.as_str(), payload_hash);
            Incoming::Write { text, intact }
        },
        Err(e) => Incoming::DecryptionFailed(e),
    }
}

/// Says what to make of a message from another node. A text is written only if it
/// was sealed under the same key.
pub fn incoming(
    cipher: &MeshCipher,
    our_id: &str,
    sync_enabled: bool,
    paused: bool,
    m: &MeshMessage,
) -> (r: Incoming)
    ensures
        r@ == incoming_model(cipher.key(), our_id@, sync_enabled, paused, *m),
        r is NotClipboard <==> m.msg_type != MessageType::Clipboard,
        r is OwnMessage <==> m.msg_type == MessageType::Clipboard && m.sender_id@ == our_id@,
        r is Paused <==> m.msg_type == MessageType::Clipboard && m.sender_id@ != our_id@ && (paused
            || !sync_enabled),
        m.msg_type == MessageType::Clipboard && m.sender_id@ != our_id@ && sync_enabled && !paused
            ==> match crate::websocket::payload_in(m.payload) {
            None => r is InvalidPayload,
            Some(p) => match crate::outside::base64_decoded(p.data) {
                Err(cause) => r matches Incoming::DecryptionFailed(e) && e@ == "Invalid base64: "@
                    + cause,
                Ok(sealed) => if sealed.len() < 28 {
                    r is DecryptionFailed
                } else {
                    match crate::outside::aes256_gcm_opened(
                        cipher.key(),
                        sealed.take(12),
                        sealed.skip(12),
                        Seq::empty(),
                    ) {
                        None => r matches Incoming::DecryptionFailed(e) && e@
                            == "Decryption failed: ciphertext is invalid or tampered"@,
                        Some(bytes) => if vstd::utf8::valid_utf8(bytes) {
                            r matches Incoming::Write { text, intact } && {
                                &&& vstd::utf8::encode_utf8(text@) == bytes
                                &&& intact <==> p.content_hash == crate::text::hex_lower(
                                    crate::outside::sha256(bytes),
                                )
                            }
                        } else {
                            r is DecryptionFailed
                        },
                    }
                },
            },
        },
        r matches Incoming::Write { text, .. } ==> vstd::utf8::encode_utf8(text@).len()
            <= crate::outside::GCM_MAX_LEN ==> {
            &&& crate::websocket::payload_in(m.payload) matches Some(p)
            &&& crate::crypto::seals(cipher.key(), p.data, text@, Seq::empty())
        },
{
    if m.msg_type != MessageType::Clipboard {
        return Incoming::NotClipboard;
    }
    if same_text(m.sender_id.as_str(), our_id) {
        return Incoming::OwnMessage;
    }
    if paused || !sync_enabled {
        return Incoming::Paused;
    }
    match ClipboardPayload::from_json(&m.payload) {
        None => Incoming::InvalidPayload,
        Some(p) => {
            let aad: [u8; 0] = [];
            let opened = cipher.decrypt_text(p.data.as_str(), aad.as_slice());
            assert(aad@ =~= Seq::empty());
            incoming_opened(p.content_hash.as_str(), opened)
        },
    }
}

/// The beginning of a text, as far as a notice shows it.
pub open spec fn preview_of(text: Seq<char>) -> Seq<char> {
    if text.len() <= PREVIEW_LEN {
        text
    } else {
        text.take(PREVIEW_LEN as int)
    }
}

/// What a notice shows of a text is its beginning, of twenty characters, or all of a
/// text that has no more.
pub proof fn a_preview_is_the_beginning(text: Seq<char>)
    ensures
        preview_of(text).is_prefix_of(text),
        text.len() <= 20 ==> preview_of(text).len() == text.len(),
        text.len() > 20 ==> preview_of(text).len() == 20,
{
}

/// Cuts a text to what a notice shows of it.
pub fn preview(text: &str) -> (r: &str)
    ensures
        r@ == preview_of(text@),
        r@.is_prefix_of(text@),
        text@.len() <= 20 ==> r@ == text@,
        text@.len() > 20 ==> r@.len() == 20,
{
    if text.unicode_len() <= PREVIEW_LEN {
        text
    } else {
        text.substring_char(0, PREVIEW_LEN)
    }
}

/// Whether `v` is the object with the given texts for members and, behind them, the
/// length of a text as the number `chars`.
pub open spec fn is_notice(v: Json, texts: Seq<(Seq<char>, Seq<char>)>, chars: nat) -> bool {
    &&& v is Object
    &&& v->Object_0@.len() == texts.len() + 1
    &&& forall|i: int|
        0 <= i < texts.len() ==> {
            &&& (#[trigger] v->Object_0@[i]).0@ == texts[i].0
            &&& v->Object_0@[i].1.text() == Some(texts[i].1)
        }
    &&& v->Object_0@[texts.len() as int].0@ == "chars"@
    &&& v->Object_0@[texts.len() as int].1 matches Json::Number(n) && n@ == crate::text::decimal(
        chars,
    )
}

/// The member with the length of a text, in bytes.
fn chars_member(text: &str) -> (m: (String, Json))
    ensures
        m.0@ == "chars"@,
        m.1 matches Json::Number(n) && n@ == crate::text::decimal(
            vstd::utf8::encode_utf8(text@).len(),
        ),
        m.1 matches Json::Number(n) && crate::text::is_numeral(
            n@,
            vstd::utf8::encode_utf8(text@).len() as int,
        ),
{
    ("chars".to_owned(), Json::Number(decimal_string(text.as_bytes().len() as u64)))
}

/// The notice that a text was sent; there is none if there was nobody to send it to.
pub fn sent_notice(text: &str, peer_count: usize) -> (r: Option<Json>)
    ensures
        match r {
            Some(v) => {
                &&& peer_count > 0
                &&& is_notice(
                    v,
                    seq![("direction"@, "out"@), ("preview"@, preview_of(text@))],
                    vstd::utf8::encode_utf8(text@).len(),
                )
            },
            None => peer_count == 0,
        },
        r matches Some(v) ==> v is Object && {
            let members = v->Object_0@;
            &&& members.len() == 3
            &&& crate::json::holds_text(members, "direction"@, "out"@)
            &&& members[1].0@ == "preview"@
            &&& members[1].1 matches Json::Text(shown) && {
                &&& shown@.is_prefix_of(text@)
                &&& text@.len() <= 20 ==> shown@ == text@
                &&& text@.len() > 20 ==> shown@.len() == 20
            }
            &&& members[2].0@ == "chars"@
            &&& members[2].1 matches Json::Number(n) && crate::text::is_numeral(
                n@,
                vstd::utf8::encode_utf8(text@).len() as int,
            )
        },
{
    if peer_count == 0 {
        return None;
    }
    let mut members: Vec<(String, Json)> = Vec::new();
    members.push(text_member("direction", "out"));
    members.push(text_member("preview", preview(text)));
    members.push(chars_member(text));
    assert(members@[0].0@ == "direction"@);
    Some(Json::Object(members))
}

/// The notice that a text was received.
pub fn received_notice(sender_id: &str, text: &str) -> (v: Json)
    ensures
        is_notice(
            v,
            seq![
                ("direction"@, "in"@),
                ("sender_id"@, sender_id@),
                ("preview"@, preview_of(text@)),
            ],
            vstd::utf8::encode_utf8(text@).len(),
        ),
        v is Object,
        v->Object_0@.len() == 4,
        crate::json::holds_text(v->Object_0@, "direction"@, "in"@),
        crate::json::holds_text(v->Object_0@, "sender_id"@, sender_id@),
        v->Object_0@[2].0@ == "preview"@,
        v->Object_0@[2].1 matches Json::Text(shown) && {
            &&& shown@.is_prefix_of(text@)
            &&& text@.len() <= 20 ==> shown@ == text@
            &&& text@.len() > 20 ==> shown@.len() == 20
        },
        v->Object_0@[3].0@ == "chars"@,
        v->Object_0@[3].1 matches Json::Number(n) && crate::text::is_numeral(
            n@,
            vstd::utf8::encode_utf8(text@).len() as int,
        ),
{
    let mut members: Vec<(String, Json)> = Vec::new();
    members.push(text_member("direction", "in"));
    members.push(text_member("sender_id", sender_id));
    members.push(text_member("preview", preview(text)));
    members.push(chars_member(text));
    assert(members@[0].0@ == "direction"@);
    assert(members@[1].0@ == "sender_id"@);
    Json::Object(members)
}

} // verus!
