//! The calls that leave this crate: AES-256-GCM and HMAC-SHA256 from `ring`,
//! the operating system's random source, identifiers from `uuid`,
//! JSON text from `serde_json`, and lossy UTF-8 decoding from `std`.
//!
//! Nothing is proved about these calls. Each function below states what the
//! called code is documented to do, and the rest of the crate is proved from
//! those statements. Where a result is too intricate to write down (a
//! ciphertext, a MAC tag) it is given a name, a function without a body, so
//! that contracts can still say "the same bytes as sealing would give".

use ring::rand::SecureRandom;
use vstd::prelude::*;
use vstd::utf8::{decode_utf8, valid_utf8};

verus! {

/// Length in bytes of an AES-256-GCM key and of the HMAC key.
pub const KEY_LEN: usize = 32;

/// Length in bytes of an AES-GCM nonce.
pub const NONCE_LEN: usize = 12;

/// Length in bytes of the authentication tag that sealing appends.
pub const TAG_LEN: usize = 16;

/// Length in bytes of an HMAC-SHA256 tag.
pub const MAC_LEN: usize = 32;

/// The number of random bytes that a message identifier is made of.
pub const ID_BYTES: usize = 16;

/// The longest plaintext, in bytes, that AES-GCM seals under one nonce.
pub const AEAD_MAX_INPUT: u64 = 68_719_476_704;

/// The longest input, in bytes, that is handed to HMAC-SHA256.
pub const MAC_MAX_INPUT: u64 = 0x1000_0000_0000_0000;

/// `ring`'s error, which says that an operation failed and nothing more.
#[verifier::external_type_specification]
#[verifier::external_body]
pub struct ExUnspecified(ring::error::Unspecified);

/// `serde_json`'s error.
#[verifier::external_type_specification]
#[verifier::external_body]
pub struct ExJsonError(serde_json::Error);

/// What AES-256-GCM sealing of `plaintext` under `key` and `nonce`, with no
/// associated data, yields: the encrypted bytes followed by the tag, or
/// nothing where sealing is refused.
pub uninterp spec fn aead_seal(key: Seq<u8>, nonce: Seq<u8>, plaintext: Seq<u8>) -> Option<
    Seq<u8>,
>;

/// What AES-256-GCM opening of `sealed` under `key` and `nonce`, with no
/// associated data, yields: the plaintext, or nothing where the tag does not
/// authenticate the bytes.
pub uninterp spec fn aead_open(key: Seq<u8>, nonce: Seq<u8>, sealed: Seq<u8>) -> Option<Seq<u8>>;

/// The HMAC-SHA256 tag of `data` under `key`.
pub uninterp spec fn hmac_tag(key: Seq<u8>, data: Seq<u8>) -> Seq<u8>;

/// The text that lossy decoding makes of bytes that are not valid UTF-8.
pub uninterp spec fn utf8_lossy(bytes: Seq<u8>) -> Seq<char>;

/// The hyphenated text of the version 4 UUID that is made of 16 bytes.
pub uninterp spec fn uuid_v4_text(bytes: Seq<u8>) -> Seq<char>;

/// The JSON text of an array of strings.
pub uninterp spec fn json_array(items: Seq<Seq<char>>) -> Seq<char>;

/// The texts of a list of strings, in order.
pub open spec fn texts_of(items: Seq<String>) -> Seq<Seq<char>> {
    items.map_values(|item: String| item@)
}

/// Calls `ring::rand::SystemRandom::fill` on a fresh buffer of `len` bytes.
///
/// Claims only that a buffer handed back has the length asked for; the call
/// may fail, and two calls need not agree.
#[verifier::external_body]
pub(crate) fn random_bytes(len: usize) -> (filled: Result<Vec<u8>, ring::error::Unspecified>)
    ensures
        filled matches Ok(bytes) ==> bytes@.len() == len,
{
    let mut bytes: Vec<u8> = Vec::new();
    bytes.resize(len, 0u8);
    ring::rand::SystemRandom::new().fill(&mut bytes)?;
    Ok(bytes)
}

/// Calls `ring::aead::LessSafeKey::seal_in_place_append_tag` with an
/// AES-256-GCM key made of `key`, the nonce `nonce` and no associated data.
///
/// Claims that the outcome is a function of the three arguments; that sealed
/// bytes are the plaintext's length plus the tag; that sealing succeeds only
/// on plaintexts within the cipher's limit; and that opening the sealed bytes
/// under the same key and nonce gives the plaintext back.
#[verifier::external_body]
pub(crate) fn seal_in_place_append_tag(
    key: &[u8],
    nonce: &[u8],
    plaintext: &[u8],
) -> (sealed: Result<Vec<u8>, ring::error::Unspecified>)
    requires
        key@.len() == KEY_LEN,
        nonce@.len() == NONCE_LEN,
    ensures
        sealed matches Ok(bytes) ==> aead_seal(key@, nonce@, plaintext@) == Some(bytes@),
        sealed matches Ok(bytes) ==> bytes@.len() == plaintext@.len() + TAG_LEN,
        sealed matches Ok(bytes) ==> plaintext@.len() <= AEAD_MAX_INPUT,
        sealed matches Ok(bytes) ==> aead_open(key@, nonce@, bytes@) == Some(plaintext@),
        sealed is Err ==> aead_seal(key@, nonce@, plaintext@) is None,
{
    let key = ring::aead::UnboundKey::new(&ring::aead::AES_256_GCM, key)?;
    let nonce = ring::aead::Nonce::try_assume_unique_for_key(nonce)?;
    let mut in_out = plaintext.to_vec();
    ring::aead::LessSafeKey::new(key).seal_in_place_append_tag(
        nonce,
        ring::aead::Aad::empty(),
        &mut in_out,
    )?;
    Ok(in_out)
}

/// Calls `ring::aead::LessSafeKey::open_in_place` with an AES-256-GCM key
/// made of `key`, the nonce `nonce` and no associated data.
///
/// Claims that the outcome is a function of the three arguments, and that a
/// plaintext handed back is the sealed bytes' length less the tag and within
/// the cipher's limit.
#[verifier::external_body]
pub(crate) fn open_in_place(
    key: &[u8],
    nonce: &[u8],
    sealed: &[u8],
) -> (opened: Result<Vec<u8>, ring::error::Unspecified>)
    requires
        key@.len() == KEY_LEN,
        nonce@.len() == NONCE_LEN,
    ensures
        opened matches Ok(bytes) ==> aead_open(key@, nonce@, sealed@) == Some(bytes@),
        opened matches Ok(bytes) ==> bytes@.len() + TAG_LEN == sealed@.len(),
        opened matches Ok(bytes) ==> bytes@.len() <= AEAD_MAX_INPUT,
        opened is Err ==> aead_open(key@, nonce@, sealed@) is None,
{
    let key = ring::aead::UnboundKey::new(&ring::aead::AES_256_GCM, key)?;
    let nonce = ring::aead::Nonce::try_assume_unique_for_key(nonce)?;
    let mut in_out = sealed.to_vec();
    let plaintext = ring::aead::LessSafeKey::new(key).open_in_place(
        nonce,
        ring::aead::Aad::empty(),
        &mut in_out,
    )?;
    Ok(plaintext.to_vec())
}

/// Calls `ring::hmac::sign` with an HMAC-SHA256 key made of `key`.
///
/// Claims that the tag is a function of key and data and is 32 bytes long.
/// The input is bounded because `ring` panics on inputs near 2^61 bytes.
#[verifier::external_body]
pub(crate) fn hmac_sign(key: &[u8], data: &[u8]) -> (tag: Vec<u8>)
    requires
        key@.len() == KEY_LEN,
        data@.len() <= MAC_MAX_INPUT,
    ensures
        tag@ == hmac_tag(key@, data@),
        tag@.len() == MAC_LEN,
{
    let key = ring::hmac::Key::new(ring::hmac::HMAC_SHA256, key);
    ring::hmac::sign(&key, data).as_ref().to_vec()
}

/// Calls `ring::hmac::verify` with an HMAC-SHA256 key made of `key`.
///
/// Claims what `ring` documents: the tag of `data` is computed and compared
/// with `tag`, so the answer is whether `tag` is that tag, byte for byte.
#[verifier::external_body]
pub(crate) fn hmac_verify(key: &[u8], data: &[u8], tag: &[u8]) -> (ok: bool)
    requires
        key@.len() == KEY_LEN,
        data@.len() <= MAC_MAX_INPUT,
    ensures
        ok == (tag@ == hmac_tag(key@, data@)),
{
    let key = ring::hmac::Key::new(ring::hmac::HMAC_SHA256, key);
    ring::hmac::verify(&key, data, tag).is_ok()
}

/// Whether `c` is a digit or a lower-case letter from `a` to `f`.
pub open spec fn is_lower_hex(c: char) -> bool {
    ('0' <= c && c <= '9') || ('a' <= c && c <= 'f')
}

/// Whether `text` has the hyphenated form of a random (version 4) UUID:
/// 36 characters, hyphens after the 8th, 13th, 18th and 23rd, lower-case
/// hexadecimal digits elsewhere, the version digit `4` and a variant digit
/// from `8` to `b`.
pub open spec fn is_uuid_v4_text(text: Seq<char>) -> bool {
    &&& text.len() == 36
    &&& forall|i: int|
        0 <= i < 36 ==> if i == 8 || i == 13 || i == 18 || i == 23 {
            #[trigger] text[i] == '-'
        } else {
            is_lower_hex(text[i])
        }
    &&& text[14] == '4'
    &&& (text[19] == '8' || text[19] == '9' || text[19] == 'a' || text[19] == 'b')
}

/// Calls `uuid::Builder::from_random_bytes` and formats the identifier.
///
/// Claims that the text is a function of the 16 bytes and has the form of a
/// hyphenated version 4 UUID: the builder sets the version and variant bits
/// and leaves the other bits as given.
#[verifier::external_body]
pub(crate) fn uuid_from_bytes(bytes: &[u8]) -> (id: String)
    requires
        bytes@.len() == ID_BYTES,
    ensures
        id@ == uuid_v4_text(bytes@),
        is_uuid_v4_text(id@),
{
    let mut raw = [0u8; 16];
    raw.copy_from_slice(bytes);
    uuid::Builder::from_random_bytes(raw).into_uuid().to_string()
}

/// Calls `String::from_utf8_lossy`.
///
/// Claims that valid UTF-8 decodes to the text it encodes, and that the text
/// made of any other bytes is a function of the bytes.
#[verifier::external_body]
pub(crate) fn from_utf8_lossy(bytes: &[u8]) -> (text: String)
    ensures
        valid_utf8(bytes@) ==> text@ == decode_utf8(bytes@),
        !valid_utf8(bytes@) ==> text@ == utf8_lossy(bytes@),
{
    String::from_utf8_lossy(bytes).into_owned()
}

/// Calls `serde_json::to_string` on a list of strings.
///
/// Claims that the call succeeds and that the text is a function of the
/// strings. `serde_json` documents two causes of failure, a `Serialize` impl
/// that fails and a map whose keys are not strings; a list of strings has
/// neither.
#[verifier::external_body]
pub(crate) fn json_to_string(items: &Vec<String>) -> (encoded: Result<String, serde_json::Error>)
    ensures
        encoded is Ok,
        encoded matches Ok(text) ==> text@ == json_array(texts_of(items@)),
{
    serde_json::to_string(items)
}

} // verus!
