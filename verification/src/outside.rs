//! Calls into other crates and into parts of the standard library that carry no
//! specification of their own. Each item states what the call is relied on for.
use aes_gcm::aead::{Aead, KeyInit, OsRng, Payload};
use base64::Engine;
use rand::RngCore;
use sha2::Digest;
use vstd::prelude::*;

verus! {

/// `String::push` appends one character.
pub assume_specification[ String::push ](s: &mut String, c: char)
    ensures
        final(s)@ == old(s)@.push(c),
;

/// `hex::encode` writes each byte as two lower-case hexadecimal digits. The
/// length bound keeps the text within what a `String` can hold.
#[verifier::external_body]
pub(crate) fn hex_encode(data: &[u8]) -> (s: String)
    requires
        2 * data@.len() <= isize::MAX,
    ensures
        s@ == crate::text::hex_lower(data@),
{
    hex::encode(data)
}

/// The text of the error that `hex::decode` gives on a text that is no hexadecimal.
pub uninterp spec fn hex_error_text(s: Seq<char>) -> Seq<char>;

/// `hex::decode` accepts exactly the texts made of an even number of hexadecimal
/// digits, of either case, and gives the bytes that they spell. The wording of
/// its error depends on the text alone.
#[verifier::external_body]
pub(crate) fn hex_decode(s: &str) -> (r: Result<Vec<u8>, String>)
    ensures
        r is Ok <==> crate::text::is_hex(s@),
        r matches Ok(bytes) ==> bytes@ == crate::text::hex_bytes(s@),
        r matches Err(e) ==> e@ == hex_error_text(s@),
{
    match hex::decode(s) {
        Ok(bytes) => Ok(bytes),
        Err(e) => Err(e.to_string()),
    }
}

/// What `STANDARD.encode` of the base64 crate writes for `data`.
pub uninterp spec fn base64_encoded(data: Seq<u8>) -> Seq<char>;

/// What `STANDARD.decode` of the base64 crate gives for a text: the bytes, or the
/// text of its error.
pub uninterp spec fn base64_decoded(s: Seq<char>) -> Result<Seq<u8>, Seq<char>>;

/// A decoding that gave `bytes`.
pub open spec fn decoded_bytes(bytes: Seq<u8>) -> Result<Seq<u8>, Seq<char>> {
    Ok(bytes)
}

/// A decoding that failed with the text `e`.
pub open spec fn decode_failure(e: Seq<char>) -> Result<Seq<u8>, Seq<char>> {
    Err(e)
}

/// Whether `c` may stand in padded base64 in the standard alphabet.
pub open spec fn is_base64_char(c: char) -> bool {
    'A' <= c <= 'Z' || 'a' <= c <= 'z' || '0' <= c <= '9' || c == '+' || c == '/' || c == '='
}

/// `STANDARD.encode` of the base64 crate: padded base64 in the standard alphabet,
/// four characters for every three bytes begun, which `STANDARD.decode` reads
/// back. The length bound keeps the text within what a `String` can hold.
#[verifier::external_body]
pub(crate) fn base64_encode(data: &[u8]) -> (s: String)
    requires
        (data@.len() + 2) / 3 * 4 <= isize::MAX,
    ensures
        s@ == base64_encoded(data@),
        s@.len() == (data@.len() + 2) / 3 * 4,
        forall|i: int| 0 <= i < s@.len() ==> is_base64_char(#[trigger] s@[i]),
        base64_decoded(s@) == decoded_bytes(data@),
{
    base64::engine::general_purpose::STANDARD.encode(data)
}

/// `STANDARD.decode` of the base64 crate. Its result, the wording of its error
/// with it, depends on the text alone.
#[verifier::external_body]
pub(crate) fn base64_decode(s: &str) -> (r: Result<Vec<u8>, String>)
    ensures
        match r {
            Ok(bytes) => base64_decoded(s@) == decoded_bytes(bytes@),
            Err(e) => base64_decoded(s@) == decode_failure(e@),
        },
{
    match base64::engine::general_purpose::STANDARD.decode(s) {
        Ok(bytes) => Ok(bytes),
        Err(e) => Err(e.to_string()),
    }
}

/// The SHA-256 digest of `data`.
pub uninterp spec fn sha256(data: Seq<u8>) -> Seq<u8>;

/// `Sha256::digest` of the sha2 crate: a digest of thirty-two bytes.
#[verifier::external_body]
pub(crate) fn sha256_digest(data: &[u8]) -> (d: Vec<u8>)
    ensures
        d@ == sha256(data@),
        d@.len() == 32,
{
    sha2::Sha256::digest(data).to_vec()
}

/// The text of the error that `String::from_utf8` gives on bytes that are no UTF-8.
pub uninterp spec fn utf8_error_text(bytes: Seq<u8>) -> Seq<char>;

/// `String::from_utf8` accepts exactly the valid UTF-8 sequences and gives the
/// characters that they encode.
#[verifier::external_body]
pub(crate) fn string_from_utf8(bytes: Vec<u8>) -> (r: Result<String, String>)
    ensures
        r is Ok <==> vstd::utf8::valid_utf8(bytes@),
        r matches Ok(s) ==> s@ == vstd::utf8::decode_utf8(bytes@),
        r matches Err(e) ==> e@ == utf8_error_text(bytes@),
{
    match String::from_utf8(bytes) {
        Ok(s) => Ok(s),
        Err(e) => Err(e.to_string()),
    }
}

/// `String::from_utf16_lossy` decodes UTF-16: a pair of surrogates gives the character
/// that it encodes, every other surrogate the replacement character, and any other
/// unit the character of that number.
#[verifier::external_body]
pub(crate) fn string_from_utf16(units: &[u16]) -> (s: String)
    ensures
        s@ == crate::clipboard::windows::utf16_text(units@),
{
    String::from_utf16_lossy(units)
}

/// Longest message, and longest associated data, that AES-GCM seals, in bytes.
pub const GCM_MAX_LEN: u64 = 0x10_0000_0000;

/// Whether a message and its associated data are short enough to be sealed.
pub open spec fn gcm_accepts(message: Seq<u8>, aad: Seq<u8>) -> bool {
    message.len() <= GCM_MAX_LEN && aad.len() <= GCM_MAX_LEN
}

/// What AES-256-GCM makes of a message: the ciphertext with its tag behind it.
pub uninterp spec fn aes256_gcm_sealed(
    key: Seq<u8>,
    nonce: Seq<u8>,
    message: Seq<u8>,
    aad: Seq<u8>,
) -> Seq<u8>;

/// What AES-256-GCM gives back for a ciphertext with its tag, if the tag is right.
pub uninterp spec fn aes256_gcm_opened(
    key: Seq<u8>,
    nonce: Seq<u8>,
    sealed: Seq<u8>,
    aad: Seq<u8>,
) -> Option<Seq<u8>>;

/// `Aes256Gcm::encrypt` of the aes-gcm crate seals every message that is within
/// its length limits; a sealed message is sixteen bytes longer than the message,
/// and opens again to it under the same key, nonce and associated data. Its
/// error always reads `aead::Error`.
#[verifier::external_body]
pub(crate) fn aes256_gcm_seal(key: &[u8], nonce: &[u8], message: &[u8], aad: &[u8]) -> (r: Result<
    Vec<u8>,
    String,
>)
    requires
        key@.len() == 32,
        nonce@.len() == 12,
    ensures
        r is Ok <==> gcm_accepts(message@, aad@),
        r matches Ok(sealed) ==> {
            &&& sealed@ == aes256_gcm_sealed(key@, nonce@, message@, aad@)
            &&& sealed@.len() == message@.len() + 16
            &&& aes256_gcm_opened(key@, nonce@, sealed@, aad@) == Some(message@)
        },
        r matches Err(e) ==> e@ == "aead::Error"@,
{
    let cipher = aes_gcm::Aes256Gcm::new(aes_gcm::Key::<aes_gcm::Aes256Gcm>::from_slice(key));
    let payload = Payload { msg: message, aad };
    match cipher.encrypt(aes_gcm::Nonce::from_slice(nonce), payload) {
        Ok(sealed) => Ok(sealed),
        Err(e) => Err(e.to_string()),
    }
}

/// `Aes256Gcm::decrypt` of the aes-gcm crate. What it opens is sixteen bytes
/// shorter than what it was given, and sealing it again gives the same bytes, so
/// nothing opens but what sealing produced. That a changed ciphertext is turned
/// down is true of all but a few in two to the hundred and twenty-eighth; it is
/// no property of every input and is not claimed.
#[verifier::external_body]
pub(crate) fn aes256_gcm_open(key: &[u8], nonce: &[u8], sealed: &[u8], aad: &[u8]) -> (r: Option<
    Vec<u8>,
>)
    requires
        key@.len() == 32,
        nonce@.len() == 12,
    ensures
        match r {
            Some(message) => aes256_gcm_opened(key@, nonce@, sealed@, aad@) == Some(message@),
            None => aes256_gcm_opened(key@, nonce@, sealed@, aad@) is None,
        },
        r matches Some(message) ==> {
            &&& message@.len() + 16 == sealed@.len()
            &&& message@.len() <= GCM_MAX_LEN ==> sealed@ == aes256_gcm_sealed(
                key@,
                nonce@,
                message@,
                aad@,
            )
        },
{
    let cipher = aes_gcm::Aes256Gcm::new(aes_gcm::Key::<aes_gcm::Aes256Gcm>::from_slice(key));
    let payload = Payload { msg: sealed, aad };
    match cipher.decrypt(aes_gcm::Nonce::from_slice(nonce), payload) {
        Ok(message) => Some(message),
        Err(_) => None,
    }
}

/// `OsRng::fill_bytes` of the aes-gcm crate: bytes drawn from the operating
/// system's generator. Nothing is claimed of their values.
#[verifier::external_body]
pub(crate) fn os_random<const N: usize>() -> (bytes: [u8; N]) {
    let mut bytes = [0u8; N];
    OsRng.fill_bytes(&mut bytes);
    bytes
}

/// `fill_bytes` of the rand crate's thread generator: random bytes. Nothing is
/// claimed of their values.
#[verifier::external_body]
pub(crate) fn thread_random<const N: usize>() -> (bytes: [u8; N]) {
    let mut bytes = [0u8; N];
    rand::thread_rng().fill_bytes(&mut bytes);
    bytes
}

/// `get` of the hostname crate: the machine's name, with the replacement character
/// where it is no Unicode, or nothing if the system does not tell. Nothing is
/// claimed of the name.
#[verifier::external_body]
pub(crate) fn host_name() -> (name: Option<String>) {
    match hostname::get() {
        Ok(name) => Some(name.to_string_lossy().to_string()),
        Err(_) => None,
    }
}

/// `Utc::now` of the chrono crate, in milliseconds since the Unix epoch. Nothing
/// is claimed of the value.
#[verifier::external_body]
pub(crate) fn now_millis() -> (t: i64) {
    chrono::Utc::now().timestamp_millis()
}

} // verus!
