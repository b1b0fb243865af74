//! The credential cipher: base64 text in, authenticated plaintext out.
//!
//! A ciphertext is base64 text whose decoded bytes are a 12-byte nonce followed by the
//! AES-256-GCM output (the encrypted secret, then its 16-byte tag). Nothing here encrypts.

use vstd::prelude::*;
use vstd::slice::{slice_subrange, slice_to_vec};
use vstd::utf8::{
    decode_utf8, encode_utf8, encode_utf8_decode_utf8, encode_utf8_valid_utf8, valid_utf8,
};
use aes_gcm::aead::{Aead, KeyInit};
use aes_gcm::{Aes256Gcm, Key, Nonce};
use base64::engine::general_purpose::{STANDARD, URL_SAFE};
use base64::Engine;
use crate::error::{CiphertextDefect, KeyTooShort, NotifyError, NotifyErrorView};

verus! {

/// The bytes of an AES-256 key.
pub const KEY_LEN: usize = 32;

/// The bytes of a nonce, which lead the decoded ciphertext.
pub const NONCE_LEN: usize = 12;

/// The bytes of the authentication tag, which end the decoded ciphertext.
pub const TAG_LEN: usize = 16;

/// The error of the `base64` crate's `Engine::decode`. Nothing is read from it.
#[verifier::external_type_specification]
#[verifier::external_body]
pub struct ExDecodeError(base64::DecodeError);

/// The error of the `aes-gcm` crate's `Aead::decrypt`. It holds nothing.
#[verifier::external_type_specification]
#[verifier::external_body]
pub struct ExAeadError(aes_gcm::Error);

/// The error of `String::from_utf8`. Nothing is read from it.
#[verifier::external_type_specification]
#[verifier::external_body]
pub struct ExFromUtf8Error(std::string::FromUtf8Error);

/// The bytes that `text` stands for in padded base64 over the standard alphabet, as the
/// `base64` crate decodes it; `None` where the crate refuses the text.
pub uninterp spec fn base64_standard_decoding(text: Seq<char>) -> Option<Seq<u8>>;

/// The bytes that `text` stands for in padded base64 over the URL-safe alphabet, as the
/// `base64` crate decodes it; `None` where the crate refuses the text.
pub uninterp spec fn base64_url_safe_decoding(text: Seq<char>) -> Option<Seq<u8>>;

/// The plaintext that AES-256-GCM, without associated data, recovers from `sealed` under
/// `key` and `nonce`, as the `aes-gcm` crate computes it; `None` where authentication fails.
pub uninterp spec fn aes256_gcm_opening(key: Seq<u8>, nonce: Seq<u8>, sealed: Seq<u8>) -> Option<
    Seq<u8>,
>;

/// What the cipher makes of `sealed`: bytes too few to hold a tag are refused unread;
/// otherwise the cipher decides.
pub open spec fn opening_of(key: Seq<u8>, nonce: Seq<u8>, sealed: Seq<u8>) -> Option<Seq<u8>> {
    if sealed.len() < TAG_LEN {
        None
    } else {
        aes256_gcm_opening(key, nonce, sealed)
    }
}

/// Calls `Engine::decode` of the `base64` crate on its `STANDARD` engine. Trusted: the
/// result is the decoding named by [`base64_standard_decoding`], an error exactly where
/// that is `None`.
#[verifier::external_body]
fn decode_standard(text: &str) -> (r: Result<Vec<u8>, base64::DecodeError>)
    ensures
        match r {
            Ok(bytes) => base64_standard_decoding(text@) == Some(bytes@),
            Err(_) => base64_standard_decoding(text@) is None,
        },
{
    STANDARD.decode(text)
}

/// Calls `Engine::decode` of the `base64` crate on its `URL_SAFE` engine. Trusted: the
/// result is the decoding named by [`base64_url_safe_decoding`], an error exactly where
/// that is `None`.
#[verifier::external_body]
fn decode_url_safe(text: &str) -> (r: Result<Vec<u8>, base64::DecodeError>)
    ensures
        match r {
            Ok(bytes) => base64_url_safe_decoding(text@) == Some(bytes@),
            Err(_) => base64_url_safe_decoding(text@) is None,
        },
{
    URL_SAFE.decode(text)
}

/// Builds the `Aes256Gcm` cipher of the `aes-gcm` crate for `key` and calls its
/// `Aead::decrypt` on `sealed` with `nonce`. Trusted: input shorter than a tag is an
/// error, as `decrypt_in_place` of the `aead` crate returns before reading it; otherwise
/// the result is the opening named by [`aes256_gcm_opening`], an error exactly where that
/// is `None`. The lengths are required because the crate's arrays panic on any other.
#[verifier::external_body]
fn aes256_gcm_open(key: &[u8], nonce: &[u8], sealed: &[u8]) -> (r: Result<Vec<u8>, aes_gcm::Error>)
    requires
        key@.len() == KEY_LEN,
        nonce@.len() == NONCE_LEN,
    ensures
        sealed@.len() < TAG_LEN ==> r is Err,
        sealed@.len() >= TAG_LEN ==> match r {
            Ok(plain) => aes256_gcm_opening(key@, nonce@, sealed@) == Some(plain@),
            Err(_) => aes256_gcm_opening(key@, nonce@, sealed@) is None,
        },
{
    Aes256Gcm::new(Key::<Aes256Gcm>::from_slice(key)).decrypt(Nonce::from_slice(nonce), sealed)
}

/// `String::from_utf8` succeeds exactly on valid UTF-8, and the string it returns holds
/// the bytes it was given.
pub assume_specification[ String::from_utf8 ](vec: Vec<u8>) -> (r: Result<
    String,
    std::string::FromUtf8Error,
>)
    ensures
        r is Ok <==> valid_utf8(vec@),
        r matches Ok(s) ==> encode_utf8(s@) == vec@,
;

/// The bytes that a ciphertext text stands for: its standard decoding or, where that
/// fails, its URL-safe decoding.
pub open spec fn decoding_of(text: Seq<char>) -> Option<Seq<u8>> {
    match base64_standard_decoding(text) {
        Some(bytes) => Some(bytes),
        None => base64_url_safe_decoding(text),
    }
}

/// The secret that decrypted bytes hold: their text, if they are UTF-8.
pub open spec fn plaintext_secret_of(plain: Seq<u8>) -> Result<Seq<char>, NotifyErrorView> {
    if valid_utf8(plain) {
        Ok(decode_utf8(plain))
    } else {
        Err(NotifyErrorView::InvalidPlaintext)
    }
}

/// The secret that a decoded ciphertext holds under `key`: the first twelve bytes are the
/// nonce, the rest is what the cipher opens.
pub open spec fn payload_secret_of(key: Seq<u8>, payload: Seq<u8>) -> Result<
    Seq<char>,
    NotifyErrorView,
> {
    if payload.len() < NONCE_LEN {
        Err(NotifyErrorView::InvalidCiphertext(CiphertextDefect::TooShort))
    } else {
        match opening_of(
            key,
            payload.subrange(0, NONCE_LEN as int),
            payload.subrange(NONCE_LEN as int, payload.len() as int),
        ) {
            None => Err(NotifyErrorView::DecryptionFailed),
            Some(plain) => plaintext_secret_of(plain),
        }
    }
}

/// The secret that a ciphertext text holds under `key`.
pub open spec fn secret_of(key: Seq<u8>, text: Seq<char>) -> Result<Seq<char>, NotifyErrorView> {
    match decoding_of(text) {
        None => Err(NotifyErrorView::InvalidCiphertext(CiphertextDefect::Encoding)),
        Some(payload) => payload_secret_of(key, payload),
    }
}

/// The key that is taken from configured key material: its first 32 bytes.
pub open spec fn key_material_of(material: Seq<u8>) -> Seq<u8> {
    material.subrange(0, KEY_LEN as int)
}

/// The mathematical value of a decryption's result.
pub open spec fn secret_view(r: Result<String, NotifyError>) -> Result<Seq<char>, NotifyErrorView> {
    match r {
        Ok(secret) => Ok(secret@),
        Err(e) => Err(e@),
    }
}

/// The mathematical value of a decoding's result.
pub open spec fn bytes_view(r: Option<Vec<u8>>) -> Option<Seq<u8>> {
    match r {
        Some(bytes) => Some(bytes@),
        None => None,
    }
}

/// Decodes a ciphertext text: as standard base64 or, where that fails, as URL-safe base64.
pub fn decode_ciphertext(text: &str) -> (payload: Option<Vec<u8>>)
    ensures
        bytes_view(payload) == decoding_of(text@),
{
    match decode_standard(text) {
        Ok(bytes) => Some(bytes),
        Err(_) => match decode_url_safe(text) {
            Ok(bytes) => Some(bytes),
            Err(_) => None,
        },
    }
}

/// Reads decrypted bytes as the secret text they hold.
pub fn secret_from_plaintext(plain: Vec<u8>) -> (r: Result<String, NotifyError>)
    ensures
        secret_view(r) == plaintext_secret_of(plain@),
{
    match String::from_utf8(plain) {
        Ok(secret) => {
            proof {
                encode_utf8_decode_utf8(secret@);
            }
            Ok(secret)
        },
        Err(_) => Err(NotifyError::InvalidPlaintext),
    }
}

/// The credential cipher: it holds the process-wide key and decrypts with it.
pub struct EncryptionService {
    key: Vec<u8>,
}

impl EncryptionService {
    #[verifier::type_invariant]
    spec fn well_formed(&self) -> bool {
        self.key@.len() == KEY_LEN
    }

    /// The 32 bytes of the cipher key.
    pub closed spec fn key(&self) -> Seq<u8> {
        self.key@
    }

    /// Takes the cipher key from configured key material: the first 32 bytes of its UTF-8
    /// encoding. Shorter material is refused.
    pub fn new(key: &str) -> (r: Result<Self, KeyTooShort>)
        ensures
            r is Ok <==> encode_utf8(key@).len() >= KEY_LEN,
            r matches Ok(service) ==> service.key() == key_material_of(encode_utf8(key@)),
            r matches Err(e) ==> e.length == encode_utf8(key@).len(),
    {
        let material = key.as_bytes();
        if material.len() < KEY_LEN {
            return Err(KeyTooShort { length: material.len() });
        }
        Ok(EncryptionService { key: slice_to_vec(slice_subrange(material, 0, KEY_LEN)) })
    }

    /// Decrypts a decoded ciphertext: splits off the nonce, opens the rest, and reads the
    /// plaintext as text.
    pub fn decrypt_payload(&self, payload: &[u8]) -> (r: Result<String, NotifyError>)
        ensures
            secret_view(r) == payload_secret_of(self.key(), payload@),
    {
        proof {
            use_type_invariant(self);
        }
        if payload.len() < NONCE_LEN {
            return Err(NotifyError::InvalidCiphertext(CiphertextDefect::TooShort));
        }
        let nonce = slice_subrange(payload, 0, NONCE_LEN);
        let sealed = slice_subrange(payload, NONCE_LEN, payload.len());
        match aes256_gcm_open(self.key.as_slice(), nonce, sealed) {
            Ok(plain) => secret_from_plaintext(plain),
            Err(_) => Err(NotifyError::DecryptionFailed),
        }
    }

    /// Decrypts a ciphertext text into the secret it holds.
    pub fn decrypt(&self, encrypted_data: &str) -> (r: Result<String, NotifyError>)
        ensures
            secret_view(r) == secret_of(self.key(), encrypted_data@),
    {
        match decode_ciphertext(encrypted_data) {
            Some(payload) => self.decrypt_payload(payload.as_slice()),
            None => Err(NotifyError::InvalidCiphertext(CiphertextDefect::Encoding)),
        }
    }
}

/// Nonce-length boundary. Decoded bytes fewer than a nonce are refused as too short.
/// Decoded bytes that hold a nonce but less than a tag behind it, a bare nonce among
/// them, pass that test and are refused by the cipher.
pub proof fn lemma_nonce_length_boundary(key: Seq<u8>, text: Seq<char>, payload: Seq<u8>)
    requires
        decoding_of(text) == Some(payload),
    ensures
        payload.len() < NONCE_LEN ==> secret_of(key, text) == Err::<Seq<char>, NotifyErrorView>(
            NotifyErrorView::InvalidCiphertext(CiphertextDefect::TooShort),
        ),
        NONCE_LEN <= payload.len() < NONCE_LEN + TAG_LEN ==> secret_of(key, text) == Err::<
            Seq<char>,
            NotifyErrorView,
        >(NotifyErrorView::DecryptionFailed),
{
}

/// No plaintext without authentication. Where the cipher refuses what follows the nonce,
/// decryption fails with `DecryptionFailed`, whatever the bytes are.
pub proof fn lemma_refused_ciphertext_yields_no_secret(
    key: Seq<u8>,
    text: Seq<char>,
    payload: Seq<u8>,
)
    requires
        decoding_of(text) == Some(payload),
        payload.len() >= NONCE_LEN,
        opening_of(
            key,
            payload.subrange(0, NONCE_LEN as int),
            payload.subrange(NONCE_LEN as int, payload.len() as int),
        ) is None,
    ensures
        secret_of(key, text) == Err::<Seq<char>, NotifyErrorView>(
            NotifyErrorView::DecryptionFailed,
        ),
{
}

/// The decrypting half of the round trip. A text that decodes to a nonce followed by
/// bytes that the cipher opens, under that nonce, to the UTF-8 encoding of `secret`
/// decrypts to exactly `secret`.
pub proof fn lemma_sealed_secret_is_recovered(
    key: Seq<u8>,
    text: Seq<char>,
    nonce: Seq<u8>,
    sealed: Seq<u8>,
    secret: Seq<char>,
)
    requires
        nonce.len() == NONCE_LEN,
        decoding_of(text) == Some(nonce + sealed),
        opening_of(key, nonce, sealed) == Some(encode_utf8(secret)),
    ensures
        secret_of(key, text) == Ok::<Seq<char>, NotifyErrorView>(secret),
{
    let payload = nonce + sealed;
    assert(payload.subrange(0, NONCE_LEN as int) =~= nonce);
    assert(payload.subrange(NONCE_LEN as int, payload.len() as int) =~= sealed);
    encode_utf8_valid_utf8(secret);
    encode_utf8_decode_utf8(secret);
}

/// Key truncation. Key material that agrees on its first 32 bytes gives one key, so
/// every ciphertext decrypts alike under both, to the same secret or the same failure.
pub proof fn lemma_key_material_past_32_bytes_is_ignored(
    first: Seq<u8>,
    second: Seq<u8>,
    text: Seq<char>,
)
    requires
        first.len() >= KEY_LEN,
        second.len() >= KEY_LEN,
        forall|i: int| 0 <= i < KEY_LEN ==> first[i] == second[i],
    ensures
        key_material_of(first) == key_material_of(second),
        secret_of(key_material_of(first), text) == secret_of(key_material_of(second), text),
{
    assert(key_material_of(first) =~= key_material_of(second));
}

} // verus!
