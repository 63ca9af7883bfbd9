//! End-to-end encryption with AES-256-GCM.
//!
//! A sealed message is laid out as its nonce, twelve bytes drawn anew for every
//! message, followed by the ciphertext with its sixteen-byte tag:
//!
//! ```text
//! [nonce: 12 bytes][ciphertext and tag: message length + 16 bytes]
//! ```
use crate::outside::{
    aes256_gcm_open, aes256_gcm_seal, base64_decode, base64_encode, hex_decode, os_random,
    string_from_utf8,
};
use crate::text::decimal_string;
use vstd::prelude::*;
use vstd::slice::slice_subrange;

verus! {

/// Length of a key, in bytes.
pub const KEY_SIZE: usize = 32;

/// Length of a nonce, in bytes.
pub const NONCE_SIZE: usize = 12;

/// Length of an authentication tag, in bytes.
pub const TAG_SIZE: usize = 16;

/// An AES-256-GCM cipher under one key.
pub struct MeshCipher {
    key: Vec<u8>,
}

/// The text that turns down a key of `len` bytes.
pub open spec fn key_size_error(len: nat) -> Seq<char> {
    "Invalid key size: expected "@ + crate::text::decimal(KEY_SIZE as nat) + " bytes, got "@
        + crate::text::decimal(len)
}

/// The text that turns down a hexadecimal key that cannot be read.
pub open spec fn hex_key_error(hex_key: Seq<char>) -> Seq<char> {
    "Invalid hex key: "@ + crate::outside::hex_error_text(hex_key)
}

/// The text that reports a message too long to be sealed.
pub open spec fn encryption_error() -> Seq<char> {
    "Encryption failed: "@ + "aead::Error"@
}

/// The text that turns down a sealed message of `len` bytes.
pub open spec fn too_short_error(len: nat) -> Seq<char> {
    "Ciphertext too short: "@ + crate::text::decimal(len) + " bytes (minimum "@
        + crate::text::decimal((NONCE_SIZE + TAG_SIZE) as nat) + ")"@
}

/// The text that turns down a sealed message that does not open.
pub open spec fn tampered_error() -> Seq<char> {
    "Decryption failed: ciphertext is invalid or tampered"@
}

/// The sealed form of `message`: the nonce, then the ciphertext with its tag.
pub open spec fn sealed_message(
    key: Seq<u8>,
    nonce: Seq<u8>,
    message: Seq<u8>,
    aad: Seq<u8>,
) -> Seq<u8> {
    nonce + crate::outside::aes256_gcm_sealed(key, nonce, message, aad)
}

/// Whether `nonce` is what the operating system's generator gave for a nonce.
pub closed spec fn nonce_was_drawn(nonce: Seq<u8>) -> bool {
    exists|bytes: [u8; NONCE_SIZE]| #[trigger]
        call_ensures(os_random::<NONCE_SIZE>, (), bytes) && nonce == bytes@
}

/// What opening a sealed message gives: the message, or the text of the error.
pub open spec fn opened_message(key: Seq<u8>, sealed: Seq<u8>, aad: Seq<u8>) -> Result<
    Seq<u8>,
    Seq<char>,
> {
    if sealed.len() < NONCE_SIZE + TAG_SIZE {
        Err(too_short_error(sealed.len()))
    } else {
        let nonce = sealed.take(NONCE_SIZE as int);
        let body = sealed.skip(NONCE_SIZE as int);
        match crate::outside::aes256_gcm_opened(key, nonce, body, aad) {
            Some(message) => Ok(message),
            None => Err(tampered_error()),
        }
    }
}

/// What reading a message as text gives: the text, or the text of the error.
pub open spec fn message_text(message: Seq<u8>) -> Result<Seq<char>, Seq<char>> {
    if vstd::utf8::valid_utf8(message) {
        Ok(vstd::utf8::decode_utf8(message))
    } else {
        Err("Decrypted data is not valid UTF-8: "@ + crate::outside::utf8_error_text(message))
    }
}

/// What opening a sealed text in base64 gives: the text, or the text of the error.
pub open spec fn opened_text(key: Seq<u8>, b64: Seq<char>, aad: Seq<u8>) -> Result<
    Seq<char>,
    Seq<char>,
> {
    match crate::outside::base64_decoded(b64) {
        Err(e) => Err("Invalid base64: "@ + e),
        Ok(sealed) => match opened_message(key, sealed, aad) {
            Err(e) => Err(e),
            Ok(message) => message_text(message),
        },
    }
}

/// Sealing is AES-256-GCM under the key that is given, for messages of every length:
/// the nonce stands in front, and all that follows is the ciphertext with its tag.
pub proof fn sealing_is_aes_gcm_under_the_key(
    key: Seq<u8>,
    nonce: Seq<u8>,
    message: Seq<u8>,
    aad: Seq<u8>,
)
    requires
        nonce.len() == 12,
    ensures
        sealed_message(key, nonce, message, aad).take(12) == nonce,
        sealed_message(key, nonce, message, aad).skip(12) == crate::outside::aes256_gcm_sealed(
            key,
            nonce,
            message,
            aad,
        ),
{
    let body = crate::outside::aes256_gcm_sealed(key, nonce, message, aad);
    assert((nonce + body).take(12) =~= nonce);
    assert((nonce + body).skip(12) =~= body);
}

/// Opening is AES-256-GCM under the key that is given, for sealed messages of every
/// length from twenty-eight bytes on: the first twelve bytes are the nonce, the rest
/// is the ciphertext with its tag. Anything shorter does not open.
pub proof fn opening_is_aes_gcm_under_the_key(key: Seq<u8>, sealed: Seq<u8>, aad: Seq<u8>)
    ensures
        sealed.len() < 28 ==> opened_message(key, sealed, aad) is Err,
        sealed.len() >= 28 ==> match crate::outside::aes256_gcm_opened(
            key,
            sealed.take(12),
            sealed.skip(12),
            aad,
        ) {
            Some(message) => opened_message(key, sealed, aad) == Ok::<Seq<u8>, Seq<char>>(message),
            None => opened_message(key, sealed, aad) == Err::<Seq<u8>, Seq<char>>(
                "Decryption failed: ciphertext is invalid or tampered"@,
            ),
        },
{
}

/// A sealed text opens to the UTF-8 text that AES-256-GCM gives for its bytes under the
/// key, or not at all; what is no base64, too short, not sealed under the key or no
/// UTF-8 is turned down.
pub proof fn opened_text_is_what_aes_gcm_gives(key: Seq<u8>, b64: Seq<char>, aad: Seq<u8>)
    ensures
        match crate::outside::base64_decoded(b64) {
            Err(e) => opened_text(key, b64, aad) == Err::<Seq<char>, Seq<char>>(
                "Invalid base64: "@ + e,
            ),
            Ok(sealed) => if sealed.len() < 28 {
                opened_text(key, b64, aad) is Err
            } else {
                match crate::outside::aes256_gcm_opened(key, sealed.take(12), sealed.skip(12), aad) {
                    None => opened_text(key, b64, aad) == Err::<Seq<char>, Seq<char>>(
                        "Decryption failed: ciphertext is invalid or tampered"@,
                    ),
                    Some(message) => if vstd::utf8::valid_utf8(message) {
                        opened_text(key, b64, aad) matches Ok(text) && vstd::utf8::encode_utf8(text)
                            == message
                    } else {
                        opened_text(key, b64, aad) == Err::<Seq<char>, Seq<char>>(
                            "Decrypted data is not valid UTF-8: "@
                                + crate::outside::utf8_error_text(message),
                        )
                    },
                }
            },
        },
{
    if crate::outside::base64_decoded(b64) is Ok {
        let sealed = crate::outside::base64_decoded(b64)->Ok_0;
        let opened = crate::outside::aes256_gcm_opened(key, sealed.take(12), sealed.skip(12), aad);
        if opened is Some && vstd::utf8::valid_utf8(opened->0) {
            vstd::utf8::decode_utf8_encode_utf8(opened->0);
        }
    }
}

/// Whoever holds another key sees only what AES-256-GCM gives under that other key: a
/// text sealed under `key` opens under `other` if and only if the ciphertext itself
/// does.
pub proof fn only_the_key_decides_what_opens(
    key: Seq<u8>,
    other: Seq<u8>,
    nonce: Seq<u8>,
    message: Seq<u8>,
    aad: Seq<u8>,
)
    requires
        nonce.len() == 12,
        crate::outside::aes256_gcm_sealed(key, nonce, message, aad).len() == message.len() + 16,
    ensures
        opened_message(other, sealed_message(key, nonce, message, aad), aad) is Ok
            <==> crate::outside::aes256_gcm_opened(
            other,
            nonce,
            crate::outside::aes256_gcm_sealed(key, nonce, message, aad),
            aad,
        ) is Some,
{
    sealing_is_aes_gcm_under_the_key(key, nonce, message, aad);
    opening_is_aes_gcm_under_the_key(other, sealed_message(key, nonce, message, aad), aad);
}

/// A nonce that was drawn is, whole, what the generator gave.
pub(crate) proof fn a_drawn_nonce_is_what_was_given(nonce: Seq<u8>)
    requires
        nonce_was_drawn(nonce),
    ensures
        nonce.len() == 12,
        exists|bytes: [u8; NONCE_SIZE]| #[trigger]
            call_ensures(os_random::<NONCE_SIZE>, (), bytes) && nonce == bytes@,
{
}

/// A key that was drawn is, whole, what the generator gave.
pub(crate) proof fn a_drawn_key_is_what_was_given(key: [u8; KEY_SIZE])
    requires
        key_was_drawn(key),
    ensures
        key@.len() == 32,
        call_ensures(os_random::<KEY_SIZE>, (), key),
{
}

/// Whether a base64 text is what sealing `text` gave, under some nonce.
pub open spec fn seals(key: Seq<u8>, b64: Seq<char>, text: Seq<char>, aad: Seq<u8>) -> bool {
    &&& crate::outside::base64_decoded(b64) matches Ok(sealed)
    &&& sealed == sealed_message(
        key,
        sealed.take(NONCE_SIZE as int),
        vstd::utf8::encode_utf8(text),
        aad,
    )
}

/// Whether a result with a vector is the given result over sequences.
pub open spec fn bytes_result_is(r: Result<Vec<u8>, String>, s: Result<Seq<u8>, Seq<char>>) -> bool {
    match r {
        Ok(bytes) => s == Ok::<Seq<u8>, Seq<char>>(bytes@),
        Err(e) => s == Err::<Seq<u8>, Seq<char>>(e@),
    }
}

/// Whether a result with a string is the given result over sequences.
pub open spec fn text_result_is(
    r: Result<String, String>,
    s: Result<Seq<char>, Seq<char>>,
) -> bool {
    match r {
        Ok(text) => s == Ok::<Seq<char>, Seq<char>>(text@),
        Err(e) => s == Err::<Seq<char>, Seq<char>>(e@),
    }
}

/// Puts the nonce in front of a ciphertext with its tag.
pub fn join_nonce(nonce: &[u8; NONCE_SIZE], body: &[u8]) -> (sealed: Vec<u8>)
    requires
        body@.len() + NONCE_SIZE <= usize::MAX,
    ensures
        sealed@ == nonce@ + body@,
{
    let mut sealed: Vec<u8> = Vec::with_capacity(NONCE_SIZE + body.len());
    sealed.extend_from_slice(nonce.as_slice());
    sealed.extend_from_slice(body);
    assert(sealed@ =~= nonce@ + body@);
    sealed
}

/// Parts a sealed message into its nonce and its ciphertext with the tag.
pub fn split_nonce(sealed: &[u8]) -> (r: Result<(&[u8], &[u8]), String>)
    ensures
        match r {
            Ok((nonce, body)) => {
                &&& sealed@.len() >= NONCE_SIZE + TAG_SIZE
                &&& nonce@ == sealed@.take(NONCE_SIZE as int)
                &&& body@ == sealed@.skip(NONCE_SIZE as int)
                &&& sealed@.len() >= 28
                &&& nonce@ == sealed@.take(12)
                &&& body@ == sealed@.skip(12)
            },
            Err(e) => {
                &&& sealed@.len() < NONCE_SIZE + TAG_SIZE
                &&& e@ == too_short_error(sealed@.len())
                &&& sealed@.len() < 28
            },
        },
{
    if sealed.len() < NONCE_SIZE + TAG_SIZE {
        let mut e: String = "Ciphertext too short: ".to_owned();
        e.append(decimal_string(sealed.len() as u64).as_str());
        e.append(" bytes (minimum ");
        e.append(decimal_string((NONCE_SIZE + TAG_SIZE) as u64).as_str());
        e.append(")");
        return Err(e);
    }
    let nonce = slice_subrange(sealed, 0, NONCE_SIZE);
    let body = slice_subrange(sealed, NONCE_SIZE, sealed.len());
    assert(nonce@ =~= sealed@.take(NONCE_SIZE as int));
    assert(body@ =~= sealed@.skip(NONCE_SIZE as int));
    Ok((nonce, body))
}

/// Reads an opened message as text.
pub fn read_message(message: Vec<u8>) -> (r: Result<String, String>)
    ensures
        text_result_is(r, message_text(message@)),
        match r {
            Ok(text) => vstd::utf8::valid_utf8(message@) && text@ == vstd::utf8::decode_utf8(
                message@,
            ),
            Err(e) => !vstd::utf8::valid_utf8(message@) && e@
                == "Decrypted data is not valid UTF-8: "@ + crate::outside::utf8_error_text(
                message@,
            ),
        },
{
    match string_from_utf8(message) {
        Ok(text) => Ok(text),
        Err(e) => {
            let mut text: String = "Decrypted data is not valid UTF-8: ".to_owned();
            text.append(e.as_str());
            Err(text)
        },
    }
}

impl MeshCipher {
    #[verifier::type_invariant]
    spec fn inv(self) -> bool {
        self.key@.len() == KEY_SIZE
    }

    /// The key.
    pub closed spec fn key(self) -> Seq<u8> {
        self.key@
    }

    /// Makes a cipher from a key of thirty-two bytes; any other length is turned down.
    pub fn new(key: &[u8]) -> (r: Result<Self, String>)
        ensures
            match r {
                Ok(cipher) => key@.len() == KEY_SIZE && cipher.key() == key@,
                Err(e) => key@.len() != KEY_SIZE && e@ == key_size_error(key@.len()),
            },
            r is Ok <==> key@.len() == 32,
            r matches Err(e) ==> e@ == "Invalid key size: expected "@ + crate::text::decimal(32)
                + " bytes, got "@ + crate::text::decimal(key@.len()),
    {
        if key.len() != KEY_SIZE {
            let mut e: String = "Invalid key size: expected ".to_owned();
            e.append(decimal_string(KEY_SIZE as u64).as_str());
            e.append(" bytes, got ");
            e.append(decimal_string(key.len() as u64).as_str());
            return Err(e);
        }
        let key = vstd::slice::slice_to_vec(key);
        Ok(MeshCipher { key })
    }

    /// Makes a cipher from a key written in hexadecimal.
    pub fn from_hex_key(hex_key: &str) -> (r: Result<Self, String>)
        ensures
            match r {
                Ok(cipher) => {
                    &&& crate::text::is_hex(hex_key@)
                    &&& cipher.key() == crate::text::hex_bytes(hex_key@)
                    &&& cipher.key().len() == KEY_SIZE
                },
                Err(e) => if crate::text::is_hex(hex_key@) {
                    &&& hex_key@.len() / 2 != KEY_SIZE
                    &&& e@ == key_size_error(hex_key@.len() / 2)
                } else {
                    e@ == hex_key_error(hex_key@)
                },
            },
            r is Ok <==> crate::text::is_hex(hex_key@) && hex_key@.len() == 64,
            r matches Err(e) ==> crate::text::is_hex(hex_key@) ==> e@
                == "Invalid key size: expected "@ + crate::text::decimal(32) + " bytes, got "@
                + crate::text::decimal(hex_key@.len() / 2),
            r matches Err(e) ==> !crate::text::is_hex(hex_key@) ==> e@ == "Invalid hex key: "@
                + crate::outside::hex_error_text(hex_key@),
    {
        match hex_decode(hex_key) {
            Ok(key) => MeshCipher::new(key.as_slice()),
            Err(e) => {
                let mut text: String = "Invalid hex key: ".to_owned();
                text.append(e.as_str());
                Err(text)
            },
        }
    }

    /// Seals a message under a given nonce. A nonce must never serve twice.
    pub fn encrypt_with_nonce(&self, nonce: &[u8; NONCE_SIZE], plaintext: &[u8], aad: &[u8]) -> (r:
        Result<Vec<u8>, String>)
        requires
            plaintext@.len() + NONCE_SIZE + TAG_SIZE <= usize::MAX,
        ensures
            r is Ok <==> crate::outside::gcm_accepts(plaintext@, aad@),
            r is Ok <==> plaintext@.len() <= 0x10_0000_0000 && aad@.len() <= 0x10_0000_0000,
            r matches Err(e) ==> e@ == "Encryption failed: "@ + "aead::Error"@,
            match r {
                Ok(sealed) => {
                    &&& sealed@ == sealed_message(self.key(), nonce@, plaintext@, aad@)
                    &&& sealed@ == nonce@ + crate::outside::aes256_gcm_sealed(
                        self.key(),
                        nonce@,
                        plaintext@,
                        aad@,
                    )
                    &&& crate::outside::aes256_gcm_opened(
                        self.key(),
                        nonce@,
                        sealed@.skip(12),
                        aad@,
                    ) == Some(plaintext@)
                    &&& sealed@.len() == plaintext@.len() + NONCE_SIZE + TAG_SIZE
                    &&& opened_message(self.key(), sealed@, aad@) == Ok::<Seq<u8>, Seq<char>>(
                        plaintext@,
                    )
                },
                Err(e) => e@ == encryption_error(),
            },
    {
        proof {
            use_type_invariant(self);
        }
        match aes256_gcm_seal(self.key.as_slice(), nonce.as_slice(), plaintext, aad) {
            Ok(body) => {
                let sealed = join_nonce(nonce, body.as_slice());
                assert(sealed@.take(NONCE_SIZE as int) =~= nonce@);
                assert(sealed@.skip(NONCE_SIZE as int) =~= body@);
                Ok(sealed)
            },
            Err(e) => {
                let mut text: String = "Encryption failed: ".to_owned();
                text.append(e.as_str());
                Err(text)
            },
        }
    }

    /// Seals a message under a fresh nonce. Whatever the nonce, the sealed message
    /// opens to the message again under the same key and associated data.
    pub fn encrypt(&self, plaintext: &[u8], aad: &[u8]) -> (r: Result<Vec<u8>, String>)
        requires
            plaintext@.len() + NONCE_SIZE + TAG_SIZE <= usize::MAX,
        ensures
            r is Ok <==> crate::outside::gcm_accepts(plaintext@, aad@),
            r is Ok <==> plaintext@.len() <= 0x10_0000_0000 && aad@.len() <= 0x10_0000_0000,
            r matches Err(e) ==> e@ == "Encryption failed: "@ + "aead::Error"@,
            match r {
                Ok(sealed) => {
                    &&& sealed@.len() == plaintext@.len() + NONCE_SIZE + TAG_SIZE
                    &&& nonce_was_drawn(sealed@.take(NONCE_SIZE as int))
                    &&& sealed@.len() == plaintext@.len() + 28
                    &&& sealed@.skip(12) == crate::outside::aes256_gcm_sealed(
                        self.key(),
                        sealed@.take(12),
                        plaintext@,
                        aad@,
                    )
                    &&& crate::outside::aes256_gcm_opened(
                        self.key(),
                        sealed@.take(12),
                        sealed@.skip(12),
                        aad@,
                    ) == Some(plaintext@)
                    &&& sealed@ == sealed_message(
                        self.key(),
                        sealed@.take(NONCE_SIZE as int),
                        plaintext@,
                        aad@,
                    )
                    &&& opened_message(self.key(), sealed@, aad@) == Ok::<Seq<u8>, Seq<char>>(
                        plaintext@,
                    )
                },
                Err(e) => e@ == encryption_error(),
            },
    {
        let nonce: [u8; NONCE_SIZE] = os_random::<NONCE_SIZE>();
        let r = self.encrypt_with_nonce(&nonce, plaintext, aad);
        proof {
            if r is Ok {
                assert(r->Ok_0@.take(NONCE_SIZE as int) =~= nonce@);
                assert(r->Ok_0@.skip(12) =~= crate::outside::aes256_gcm_sealed(
                    self.key(),
                    nonce@,
                    plaintext@,
                    aad@,
                ));
            }
        }
        r
    }

    /// Seals a text and writes the sealed message in base64. Opening the result
    /// under the same key and associated data gives the text again.
    pub fn encrypt_text(&self, text: &str, aad: &[u8]) -> (r: Result<String, String>)
        requires
            (vstd::utf8::encode_utf8(text@).len() + NONCE_SIZE + TAG_SIZE + 2) / 3 * 4 <= isize::MAX,
        ensures
            r is Ok <==> crate::outside::gcm_accepts(vstd::utf8::encode_utf8(text@), aad@),
            r is Ok <==> vstd::utf8::encode_utf8(text@).len() <= 0x10_0000_0000 && aad@.len()
                <= 0x10_0000_0000,
            r matches Err(e) ==> e@ == "Encryption failed: "@ + "aead::Error"@,
            match r {
                Ok(b64) => {
                    &&& exists|nonce: Seq<u8>|
                        nonce.len() == NONCE_SIZE && nonce_was_drawn(nonce) && b64@ == crate::outside::base64_encoded(
                            #[trigger] sealed_message(self.key(), nonce, vstd::utf8::encode_utf8(text@), aad@),
                        )
                    &&& opened_text(self.key(), b64@, aad@) == Ok::<Seq<char>, Seq<char>>(text@)
                    &&& exists|nonce: Seq<u8>|
                        nonce.len() == 12 && nonce_was_drawn(nonce) && b64@
                            == crate::outside::base64_encoded(
                            nonce + #[trigger] crate::outside::aes256_gcm_sealed(
                                self.key(),
                                nonce,
                                vstd::utf8::encode_utf8(text@),
                                aad@,
                            ),
                        )
                    &&& b64@.len() == (vstd::utf8::encode_utf8(text@).len() + NONCE_SIZE + TAG_SIZE
                        + 2) / 3 * 4
                    &&& forall|i: int|
                        0 <= i < b64@.len() ==> crate::outside::is_base64_char(#[trigger] b64@[i])
                    &&& crate::outside::base64_decoded(b64@) matches Ok(sealed) && sealed.len()
                        == vstd::utf8::encode_utf8(text@).len() + NONCE_SIZE + TAG_SIZE
                },
                Err(e) => e@ == encryption_error(),
            },
    {
        let sealed = self.encrypt(text.as_bytes(), aad)?;
        let b64 = base64_encode(sealed.as_slice());
        proof {
            vstd::utf8::encode_utf8_valid_utf8(text@);
            vstd::utf8::encode_utf8_decode_utf8(text@);
            let nonce = sealed@.take(NONCE_SIZE as int);
            assert(sealed@ == sealed_message(self.key(), nonce, vstd::utf8::encode_utf8(text@), aad@));
            assert(sealed@ =~= nonce + crate::outside::aes256_gcm_sealed(
                self.key(),
                nonce,
                vstd::utf8::encode_utf8(text@),
                aad@,
            ));
        }
        Ok(b64)
    }

    /// Opens a sealed message.
    pub fn decrypt(&self, ciphertext: &[u8], aad: &[u8]) -> (r: Result<Vec<u8>, String>)
        ensures
            bytes_result_is(r, opened_message(self.key(), ciphertext@, aad@)),
            r is Ok <==> ciphertext@.len() >= 28 && crate::outside::aes256_gcm_opened(
                self.key(),
                ciphertext@.take(12),
                ciphertext@.skip(12),
                aad@,
            ) is Some,
            r matches Ok(message) ==> crate::outside::aes256_gcm_opened(
                self.key(),
                ciphertext@.take(12),
                ciphertext@.skip(12),
                aad@,
            ) == Some(message@),
            r matches Err(e) ==> ciphertext@.len() >= 28 ==> e@
                == "Decryption failed: ciphertext is invalid or tampered"@,
            r matches Err(e) ==> ciphertext@.len() < 28 ==> e@ == "Ciphertext too short: "@
                + crate::text::decimal(ciphertext@.len()) + " bytes (minimum "@
                + crate::text::decimal(28) + ")"@,
            r matches Ok(message) ==> {
                &&& message@.len() + NONCE_SIZE + TAG_SIZE == ciphertext@.len()
                &&& message@.len() <= crate::outside::GCM_MAX_LEN ==> ciphertext@
                    == sealed_message(
                    self.key(),
                    ciphertext@.take(NONCE_SIZE as int),
                    message@,
                    aad@,
                )
            },
    {
        proof {
            use_type_invariant(self);
        }
        let (nonce, body) = split_nonce(ciphertext)?;
        match aes256_gcm_open(self.key.as_slice(), nonce, body, aad) {
            Some(message) => {
                assert(ciphertext@ =~= nonce@ + body@);
                Ok(message)
            },
            None => Err("Decryption failed: ciphertext is invalid or tampered".to_owned()),
        }
    }

    /// Opens a sealed message written in base64 and reads it as text. Only what
    /// sealing gave opens.
    pub fn decrypt_text(&self, b64_ciphertext: &str, aad: &[u8]) -> (r: Result<String, String>)
        ensures
            text_result_is(r, opened_text(self.key(), b64_ciphertext@, aad@)),
            match crate::outside::base64_decoded(b64_ciphertext@) {
                Err(cause) => r matches Err(e) && e@ == "Invalid base64: "@ + cause,
                Ok(sealed) => if sealed.len() < 28 {
                    r matches Err(e) && e@ == "Ciphertext too short: "@ + crate::text::decimal(
                        sealed.len(),
                    ) + " bytes (minimum "@ + crate::text::decimal(28) + ")"@
                } else {
                    match crate::outside::aes256_gcm_opened(
                        self.key(),
                        sealed.take(12),
                        sealed.skip(12),
                        aad@,
                    ) {
                        None => r matches Err(e) && e@
                            == "Decryption failed: ciphertext is invalid or tampered"@,
                        Some(message) => if vstd::utf8::valid_utf8(message) {
                            r matches Ok(text) && vstd::utf8::encode_utf8(text@) == message
                        } else {
                            r matches Err(e) && e@ == "Decrypted data is not valid UTF-8: "@
                                + crate::outside::utf8_error_text(message)
                        },
                    }
                },
            },
            r matches Ok(text) ==> vstd::utf8::encode_utf8(text@).len()
                <= crate::outside::GCM_MAX_LEN ==> seals(
                self.key(),
                b64_ciphertext@,
                text@,
                aad@,
            ),
    {
        match base64_decode(b64_ciphertext) {
            Ok(sealed) => {
                let message = self.decrypt(sealed.as_slice(), aad)?;
                proof {
                    if vstd::utf8::valid_utf8(message@) {
                        vstd::utf8::decode_utf8_encode_utf8(message@);
                    }
                }
                read_message(message)
            },
            Err(e) => {
                let mut text: String = "Invalid base64: ".to_owned();
                text.append(e.as_str());
                Err(text)
            },
        }
    }
}

/// Whether `key` is what the operating system's generator gave for a key.
pub closed spec fn key_was_drawn(key: [u8; KEY_SIZE]) -> bool {
    call_ensures(os_random::<KEY_SIZE>, (), key)
}

/// Draws a key from the operating system's generator.
pub fn generate_key() -> (key: [u8; KEY_SIZE])
    ensures
        key_was_drawn(key),
{
    os_random::<KEY_SIZE>()
}

} // verus!
