use clip_mesh::crypto::{
    generate_key, join_nonce, read_message, split_nonce, MeshCipher, KEY_SIZE, NONCE_SIZE, TAG_SIZE,
};

const KEY_HEX: &str = "feffe9928665731c6d6a8f9467308308feffe9928665731c6d6a8f9467308308";

fn bytes(text: &str) -> Vec<u8> {
    (0..text.len() / 2)
        .map(|i| u8::from_str_radix(&text[2 * i..2 * i + 2], 16).unwrap())
        .collect()
}

fn error<T>(r: Result<T, String>) -> String {
    match r {
        Ok(_) => panic!("an error was expected"),
        Err(e) => e,
    }
}

#[test]
fn sealing_nothing_gives_the_known_tag() {
    let cipher = MeshCipher::new(&[0u8; 32]).unwrap();
    let sealed = cipher.encrypt_with_nonce(&[0u8; 12], &[], &[]).unwrap();
    assert_eq!(sealed[..12], [0u8; 12]);
    assert_eq!(sealed[12..], bytes("530f8afbc74536b9a963b4f1c4cb738b")[..]);
}

#[test]
fn sealing_with_associated_data_gives_the_known_bytes() {
    let cipher = MeshCipher::from_hex_key(KEY_HEX).unwrap();
    let nonce: [u8; 12] = bytes("cafebabefacedbaddecaf888").try_into().unwrap();
    let message = bytes(
        "d9313225f88406e5a55909c5aff5269a86a7a9531534f7da2e4c303d8a318a72\
         1c3c0c95956809532fcf0e2449a6b525b16aedf5aa0de657ba637b39",
    );
    let aad = bytes("feedfacedeadbeeffeedfacedeadbeefabaddad2");
    let sealed = cipher.encrypt_with_nonce(&nonce, &message, &aad).unwrap();
    let expected = bytes(
        "cafebabefacedbaddecaf888\
         522dc1f099567d07f47f37a32a84427d643a8cdcbfe5c0c97598a2bd2555d1aa\
         8cb08e48590dbb3da7b08b1056828838c5f61e6393ba7a0abcc9f662\
         76fc6ece0f4e1768cddf8853bb2d551b",
    );
    assert_eq!(sealed, expected);
    assert_eq!(cipher.decrypt(&sealed, &aad).unwrap(), message);
}

#[test]
fn a_sealed_message_opens_again() {
    let cipher = MeshCipher::new(&generate_key()).unwrap();
    let sealed = cipher.encrypt(b"hello", b"context").unwrap();
    assert_eq!(sealed.len(), 5 + NONCE_SIZE + TAG_SIZE);
    assert_eq!(cipher.decrypt(&sealed, b"context").unwrap(), b"hello".to_vec());
}

#[test]
fn every_message_has_its_own_nonce() {
    let cipher = MeshCipher::new(&[7u8; KEY_SIZE]).unwrap();
    let first = cipher.encrypt(b"same", &[]).unwrap();
    let second = cipher.encrypt(b"same", &[]).unwrap();
    assert_ne!(first, second);
}

#[test]
fn a_sealed_text_opens_again() {
    let cipher = MeshCipher::new(&[1u8; 32]).unwrap();
    for text in ["", "plain", "剪贴板 ● text", "a\nb\0c"] {
        let b64 = cipher.encrypt_text(text, &[]).unwrap();
        assert_ne!(b64, text);
        assert_eq!(b64.len(), (text.len() + 28 + 2) / 3 * 4);
        assert!(b64.bytes().all(|b| b.is_ascii_alphanumeric() || b"+/=".contains(&b)));
        assert_eq!(cipher.decrypt_text(&b64, &[]).unwrap(), text);
    }
}

#[test]
fn a_known_text_in_base64_opens() {
    // The sealed form of no bytes under the zero key and the zero nonce.
    let cipher = MeshCipher::new(&[0u8; 32]).unwrap();
    let b64 = "AAAAAAAAAAAAAAAAUw+K+8dFNrmpY7TxxMtziw==";
    assert_eq!(cipher.decrypt_text(b64, &[]).unwrap(), "");
}

#[test]
fn keys_of_other_lengths_are_turned_down() {
    assert_eq!(
        error(MeshCipher::new(&[0u8; 16])),
        "Invalid key size: expected 32 bytes, got 16"
    );
    assert_eq!(
        error(MeshCipher::new(&[])),
        "Invalid key size: expected 32 bytes, got 0"
    );
}

#[test]
fn hexadecimal_keys_are_read_in_either_case() {
    let lower = MeshCipher::from_hex_key(KEY_HEX).unwrap();
    let upper = MeshCipher::from_hex_key(&KEY_HEX.to_uppercase()).unwrap();
    let sealed = lower.encrypt(b"x", &[]).unwrap();
    assert_eq!(upper.decrypt(&sealed, &[]).unwrap(), b"x".to_vec());
}

#[test]
fn bad_hexadecimal_keys_are_turned_down() {
    assert_eq!(
        error(MeshCipher::from_hex_key("abc")),
        "Invalid hex key: Odd number of digits"
    );
    assert_eq!(
        error(MeshCipher::from_hex_key("zz")),
        "Invalid hex key: Invalid character 'z' at position 0"
    );
    assert_eq!(
        error(MeshCipher::from_hex_key("00ff")),
        "Invalid key size: expected 32 bytes, got 2"
    );
}

#[test]
fn short_messages_are_turned_down() {
    let cipher = MeshCipher::new(&[0u8; 32]).unwrap();
    assert_eq!(
        error(cipher.decrypt(&[0u8; 27], &[])),
        "Ciphertext too short: 27 bytes (minimum 28)"
    );
    assert_eq!(
        error(cipher.decrypt_text("AAAA", &[])),
        "Ciphertext too short: 3 bytes (minimum 28)"
    );
}

#[test]
fn changed_messages_are_turned_down() {
    let cipher = MeshCipher::new(&[3u8; 32]).unwrap();
    let sealed = cipher.encrypt_with_nonce(&[9u8; 12], b"content", b"aad").unwrap();
    for i in 0..sealed.len() {
        let mut changed = sealed.clone();
        changed[i] ^= 1;
        assert_eq!(
            error(cipher.decrypt(&changed, b"aad")),
            "Decryption failed: ciphertext is invalid or tampered"
        );
    }
    assert!(cipher.decrypt(&sealed, b"other").is_err());
    assert!(MeshCipher::new(&[4u8; 32]).unwrap().decrypt(&sealed, b"aad").is_err());
    assert!(cipher.decrypt(&sealed, b"aad").is_ok());
}

#[test]
fn what_is_no_base64_is_turned_down() {
    let cipher = MeshCipher::new(&[0u8; 32]).unwrap();
    assert_eq!(
        error(cipher.decrypt_text("!AAA", &[])),
        "Invalid base64: Invalid byte 33, offset 0."
    );
}

#[test]
fn what_is_no_text_is_turned_down() {
    assert_eq!(
        error(read_message(vec![0x61, 0xff])),
        "Decrypted data is not valid UTF-8: invalid utf-8 sequence of 1 bytes from index 1"
    );
    assert_eq!(read_message(vec![0xe5, 0x89, 0xaa]).unwrap(), "剪");
    // The same through the cipher: a message of one byte that is no UTF-8.
    let cipher = MeshCipher::new(&[0u8; 32]).unwrap();
    let sealed = cipher.encrypt_with_nonce(&[0u8; 12], &[0xff], &[]).unwrap();
    assert_eq!(cipher.decrypt(&sealed, &[]).unwrap(), vec![0xff]);
}

#[test]
fn the_nonce_stands_in_front() {
    let nonce: [u8; 12] = [5u8; 12];
    let body = [6u8; 16];
    let sealed = join_nonce(&nonce, &body);
    assert_eq!(sealed.len(), 28);
    let (n, b) = split_nonce(&sealed).unwrap();
    assert_eq!(n, &nonce);
    assert_eq!(b, &body);
    assert!(split_nonce(&sealed[..27]).is_err());
}

#[test]
fn drawn_keys_differ() {
    assert_ne!(generate_key(), generate_key());
}
