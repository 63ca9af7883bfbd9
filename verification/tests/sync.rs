use clip_mesh::clipboard::ClipboardEvent;
use clip_mesh::crypto::MeshCipher;
use clip_mesh::json::Json;
use clip_mesh::sync::{
    content_hash, incoming, incoming_opened, outgoing, outgoing_sealed, preview, received_notice,
    sent_notice, Incoming, Outgoing,
};
use clip_mesh::websocket::{build_clipboard_message, heartbeat_message_at, MeshMessage};

const ABC: &str = "ba7816bf8f01cfea414140de5dae2223b00361a396177a9cb410ff61f20015ad";

fn event(text: &str) -> ClipboardEvent {
    ClipboardEvent { text: text.to_string(), timestamp: 99 }
}

fn send(cipher: &MeshCipher, from: &str, text: &str) -> MeshMessage {
    match outgoing(cipher, from, true, false, &event(text)) {
        Outgoing::Send(m) => m,
        other => panic!("{:?}", other),
    }
}

#[test]
fn digests_are_sha256() {
    assert_eq!(content_hash("abc"), ABC);
    assert_eq!(
        content_hash(""),
        "e3b0c44298fc1c149afbf4c8996fb92427ae41e4649b934ca495991b7852b855"
    );
}

#[test]
fn a_sent_text_arrives() {
    let cipher = MeshCipher::new(&[8u8; 32]).unwrap();
    for text in ["abc", "", "剪贴板 ●"] {
        let m = send(&cipher, "a", text);
        assert_eq!(m.sender_id, "a");
        assert_eq!(m.timestamp, 99);
        assert_eq!(m.payload.get_text("content_type"), Some("text/plain"));
        match incoming(&cipher, "b", true, false, &m) {
            Incoming::Write { text: t, intact } => {
                assert_eq!(t, text);
                assert!(intact);
            }
            other => panic!("{:?}", other),
        }
    }
}

#[test]
fn the_same_text_is_never_sealed_alike() {
    let cipher = MeshCipher::new(&[8u8; 32]).unwrap();
    let first = send(&cipher, "a", "abc");
    let second = send(&cipher, "a", "abc");
    assert_ne!(first.payload.get_text("data"), second.payload.get_text("data"));
    assert_eq!(first.payload.get_text("content_hash"), second.payload.get_text("content_hash"));
}

#[test]
fn nothing_is_sent_while_paused_or_off() {
    let cipher = MeshCipher::new(&[8u8; 32]).unwrap();
    for (sync_enabled, paused) in [(true, true), (false, false), (false, true)] {
        assert!(matches!(
            outgoing(&cipher, "a", sync_enabled, paused, &event("x")),
            Outgoing::Paused
        ));
    }
}

#[test]
fn nothing_is_written_while_paused_or_off() {
    let cipher = MeshCipher::new(&[8u8; 32]).unwrap();
    let m = send(&cipher, "a", "abc");
    for (sync_enabled, paused) in [(true, true), (false, false), (false, true)] {
        assert!(matches!(incoming(&cipher, "b", sync_enabled, paused, &m), Incoming::Paused));
        assert!(matches!(incoming(&cipher, "a", sync_enabled, paused, &m), Incoming::OwnMessage));
    }
}

#[test]
fn what_was_sealed_is_what_is_sent() {
    match outgoing_sealed("a", &event("abc"), Ok("c2VhbGVk".to_string())) {
        Outgoing::Send(m) => {
            assert_eq!(m.payload.get_text("data"), Some("c2VhbGVk"));
            assert_eq!(m.payload.get_text("content_hash"), Some(ABC));
        }
        other => panic!("{:?}", other),
    }
    assert!(matches!(
        outgoing_sealed("a", &event("abc"), Err("e".to_string())),
        Outgoing::EncryptionFailed(e) if e == "e"
    ));
}

#[test]
fn messages_that_are_not_for_the_clipboard_are_dropped() {
    let cipher = MeshCipher::new(&[8u8; 32]).unwrap();
    let m = send(&cipher, "a", "abc");
    assert!(matches!(incoming(&cipher, "a", true, false, &m), Incoming::OwnMessage));
    let m = heartbeat_message_at("a", "A", 1);
    assert!(matches!(incoming(&cipher, "b", true, false, &m), Incoming::NotClipboard));
    let mut m = send(&cipher, "a", "abc");
    m.payload = Json::Null;
    assert!(matches!(incoming(&cipher, "b", true, false, &m), Incoming::InvalidPayload));
}

#[test]
fn a_message_under_another_key_is_dropped() {
    let cipher = MeshCipher::new(&[8u8; 32]).unwrap();
    let other = MeshCipher::new(&[9u8; 32]).unwrap();
    let m = send(&cipher, "a", "abc");
    match incoming(&other, "b", true, false, &m) {
        Incoming::DecryptionFailed(e) => {
            assert_eq!(e, "Decryption failed: ciphertext is invalid or tampered")
        }
        other => panic!("{:?}", other),
    }
}

#[test]
fn a_wrong_digest_is_noticed_and_the_text_written() {
    let cipher = MeshCipher::new(&[8u8; 32]).unwrap();
    let sealed = cipher.encrypt_text("abc", &[]).unwrap();
    let m = build_clipboard_message("a", &sealed, "0000", 1);
    match incoming(&cipher, "b", true, false, &m) {
        Incoming::Write { text, intact } => assert_eq!((text.as_str(), intact), ("abc", false)),
        other => panic!("{:?}", other),
    }
    let upper = ABC.to_uppercase();
    let m = build_clipboard_message("a", &sealed, &upper, 1);
    assert!(matches!(incoming(&cipher, "b", true, false, &m), Incoming::Write { intact: false, .. }));
}

#[test]
fn an_opened_payload_is_held_to_its_digest() {
    assert!(matches!(
        incoming_opened(ABC, Ok("abc".to_string())),
        Incoming::Write { text, intact: true } if text == "abc"
    ));
    assert!(matches!(
        incoming_opened(ABC, Ok("abd".to_string())),
        Incoming::Write { text, intact: false } if text == "abd"
    ));
    assert!(matches!(
        incoming_opened(ABC, Err("no".to_string())),
        Incoming::DecryptionFailed(e) if e == "no"
    ));
}

#[test]
fn previews_are_twenty_characters() {
    assert_eq!(preview("short"), "short");
    assert_eq!(preview("12345678901234567890"), "12345678901234567890");
    assert_eq!(preview("123456789012345678901"), "12345678901234567890");
    assert_eq!(preview(&"剪".repeat(30)), "剪".repeat(20));
}

fn chars(v: &Json) -> String {
    match v.get("chars") {
        Some(Json::Number(n)) => n.clone(),
        other => panic!("{:?}", other),
    }
}

#[test]
fn sending_to_somebody_is_noticed() {
    let v = sent_notice("剪贴", 2).unwrap();
    assert_eq!(v.get_text("direction"), Some("out"));
    assert_eq!(v.get_text("preview"), Some("剪贴"));
    assert_eq!(chars(&v), "6");
    assert!(v.get("sender_id").is_none());
    assert!(sent_notice("x", 0).is_none());
}

#[test]
fn receiving_is_noticed() {
    let v = received_notice("node", "text");
    assert_eq!(v.get_text("direction"), Some("in"));
    assert_eq!(v.get_text("sender_id"), Some("node"));
    assert_eq!(v.get_text("preview"), Some("text"));
    assert_eq!(chars(&v), "4");
}
